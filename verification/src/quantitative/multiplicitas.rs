//! Multiplicities of Quantitative Type Theory: the runtime value, its
//! semiring structure, and the type-level markers `Nihil`, `Semel`, `Omega`.

use vstd::prelude::*;
use vstd::string::*;

verus! {

/// How many times a value may or must be used.
///
/// - `Nihil` (0): erased at runtime,
/// - `Semel` (1): used exactly once,
/// - `Omega` (ω): used any number of times.
#[derive(Debug, Clone, Copy, PartialEq, Eq, Structural, Hash)]
pub enum Multiplicitas {
    /// Zero multiplicity: the value is erased at runtime.
    Nihil,
    /// One multiplicity: the value must be used exactly once.
    Semel,
    /// Omega multiplicity: the value can be used any number of times.
    Omega,
}

/// The rank of a multiplicity in the usage order `0 ≤ 1 ≤ ω`.
pub open spec fn rank(m: Multiplicitas) -> int {
    match m {
        Multiplicitas::Nihil => 0,
        Multiplicitas::Semel => 1,
        Multiplicitas::Omega => 2,
    }
}

/// Subusage: `a ≤ b` in the order `0 ≤ 1 ≤ ω`.
pub open spec fn spec_subusage(a: Multiplicitas, b: Multiplicitas) -> bool {
    rank(a) <= rank(b)
}

/// Semiring addition: the larger of the two usages.
pub open spec fn spec_mult_add(a: Multiplicitas, b: Multiplicitas) -> Multiplicitas {
    if rank(a) >= rank(b) { a } else { b }
}

/// Semiring multiplication: composing a usage inside a context's usage.
pub open spec fn spec_mult_mul(a: Multiplicitas, b: Multiplicitas) -> Multiplicitas {
    match (a, b) {
        (Multiplicitas::Nihil, _) => Multiplicitas::Nihil,
        (_, Multiplicitas::Nihil) => Multiplicitas::Nihil,
        (Multiplicitas::Semel, x) => x,
        (x, Multiplicitas::Semel) => x,
        (Multiplicitas::Omega, Multiplicitas::Omega) => Multiplicitas::Omega,
    }
}

impl Multiplicitas {
    /// Check if this is the zero (erased) multiplicity.
    pub fn is_nihil(&self) -> (r: bool)
        ensures
            r == (*self == Multiplicitas::Nihil),
    {
        matches!(self, Multiplicitas::Nihil)
    }

    /// Check if this is the one (linear) multiplicity.
    pub fn is_semel(&self) -> (r: bool)
        ensures
            r == (*self == Multiplicitas::Semel),
    {
        matches!(self, Multiplicitas::Semel)
    }

    /// Check if this is the omega (unrestricted) multiplicity.
    pub fn is_omega(&self) -> (r: bool)
        ensures
            r == (*self == Multiplicitas::Omega),
    {
        matches!(self, Multiplicitas::Omega)
    }

    /// Check if this multiplicity allows zero uses (`Nihil` and `Omega`).
    pub fn allows_zero(&self) -> (r: bool)
        ensures
            r == (*self == Multiplicitas::Nihil || *self == Multiplicitas::Omega),
    {
        matches!(self, Multiplicitas::Nihil | Multiplicitas::Omega)
    }

    /// Check if this multiplicity requires at least one use (`Semel`).
    pub fn requires_use(&self) -> (r: bool)
        ensures
            r == (*self == Multiplicitas::Semel),
    {
        matches!(self, Multiplicitas::Semel)
    }

    /// Check if this multiplicity allows multiple uses (`Omega`).
    pub fn allows_many(&self) -> (r: bool)
        ensures
            r == (*self == Multiplicitas::Omega),
    {
        matches!(self, Multiplicitas::Omega)
    }

    /// Check if `self` is a subusage of `other` in the order `0 ≤ 1 ≤ ω`.
    pub fn is_subusage_of(&self, other: &Multiplicitas) -> (r: bool)
        ensures
            r == spec_subusage(*self, *other),
    {
        match (self, other) {
            (Multiplicitas::Nihil, _) => true,
            (Multiplicitas::Semel, Multiplicitas::Nihil) => false,
            (Multiplicitas::Semel, _) => true,
            (Multiplicitas::Omega, Multiplicitas::Omega) => true,
            (Multiplicitas::Omega, _) => false,
        }
    }

    /// The symbol of this multiplicity: `"0"`, `"1"` or `"ω"`.
    pub fn to_symbol(&self) -> (r: &'static str)
        ensures
            *self == Multiplicitas::Nihil ==> r@ == "0"@,
            *self == Multiplicitas::Semel ==> r@ == "1"@,
            *self == Multiplicitas::Omega ==> r@ == "ω"@,
    {
        match self {
            Multiplicitas::Nihil => "0",
            Multiplicitas::Semel => "1",
            Multiplicitas::Omega => "ω",
        }
    }

    /// The displayed form of this multiplicity (its symbol).
    pub fn to_string(&self) -> (r: String)
        ensures
            *self == Multiplicitas::Nihil ==> r@ == "0"@,
            *self == Multiplicitas::Semel ==> r@ == "1"@,
            *self == Multiplicitas::Omega ==> r@ == "ω"@,
    {
        self.to_symbol().to_owned()
    }
}

impl Default for Multiplicitas {
    /// The default multiplicity is unrestricted (ω).
    fn default() -> (r: Self)
        ensures
            r == Multiplicitas::Omega,
    {
        Multiplicitas::Omega
    }
}

/// Semiring operations for multiplicities.
///
/// - zero element: `Nihil`,
/// - one element: `Semel`,
/// - addition: the larger usage,
/// - multiplication: context composition.
pub trait MultiplicitasSemiring: Sized {
    /// Additive identity.
    fn zero() -> Self;

    /// Multiplicative identity.
    fn one() -> Self;

    /// Semiring addition (sequential composition).
    fn add(self, other: Self) -> Self;

    /// Semiring multiplication (context composition).
    fn mul(self, other: Self) -> Self;
}

impl MultiplicitasSemiring for Multiplicitas {
    /// Zero for addition is `Nihil`.
    fn zero() -> (r: Self)
        ensures
            r == Multiplicitas::Nihil,
    {
        Multiplicitas::Nihil
    }

    /// One for multiplication is `Semel`.
    fn one() -> (r: Self)
        ensures
            r == Multiplicitas::Semel,
    {
        Multiplicitas::Semel
    }

    /// Addition is the maximum in the order `0 ≤ 1 ≤ ω`.
    fn add(self, other: Self) -> (r: Self)
        ensures
            r == spec_mult_add(self, other),
    {
        match (self, other) {
            (Multiplicitas::Omega, _) | (_, Multiplicitas::Omega) => Multiplicitas::Omega,
            (Multiplicitas::Semel, _) | (_, Multiplicitas::Semel) => Multiplicitas::Semel,
            (Multiplicitas::Nihil, Multiplicitas::Nihil) => Multiplicitas::Nihil,
        }
    }

    /// Multiplication: a value used `m` times in a context used `n` times
    /// is used `m * n` times.
    fn mul(self, other: Self) -> (r: Self)
        ensures
            r == spec_mult_mul(self, other),
    {
        match (self, other) {
            (Multiplicitas::Nihil, _) | (_, Multiplicitas::Nihil) => Multiplicitas::Nihil,
            (Multiplicitas::Semel, x) | (x, Multiplicitas::Semel) => x,
            (Multiplicitas::Omega, Multiplicitas::Omega) => Multiplicitas::Omega,
        }
    }
}

/// Multiplicity addition.
pub fn mult_add(a: Multiplicitas, b: Multiplicitas) -> (r: Multiplicitas)
    ensures
        r == spec_mult_add(a, b),
{
    a.add(b)
}

/// Multiplicity multiplication.
pub fn mult_mul(a: Multiplicitas, b: Multiplicitas) -> (r: Multiplicitas)
    ensures
        r == spec_mult_mul(a, b),
{
    a.mul(b)
}

/// Check if one multiplicity is a subusage of another.
pub fn is_subusage(a: Multiplicitas, b: Multiplicitas) -> (r: bool)
    ensures
        r == spec_subusage(a, b),
{
    a.is_subusage_of(&b)
}

/// Addition and multiplication of multiplicities form a commutative
/// semiring: both operations are associative and commutative, `Nihil` is
/// the additive identity and annihilates under multiplication, `Semel` is
/// the multiplicative identity, and multiplication distributes over addition.
pub proof fn law_semiring(a: Multiplicitas, b: Multiplicitas, c: Multiplicitas)
    ensures
        spec_mult_add(a, b) == spec_mult_add(b, a),
        spec_mult_add(spec_mult_add(a, b), c) == spec_mult_add(a, spec_mult_add(b, c)),
        spec_mult_add(a, Multiplicitas::Nihil) == a,
        spec_mult_mul(a, b) == spec_mult_mul(b, a),
        spec_mult_mul(spec_mult_mul(a, b), c) == spec_mult_mul(a, spec_mult_mul(b, c)),
        spec_mult_mul(a, Multiplicitas::Semel) == a,
        spec_mult_mul(a, Multiplicitas::Nihil) == Multiplicitas::Nihil,
        spec_mult_mul(a, spec_mult_add(b, c)) == spec_mult_add(
            spec_mult_mul(a, b),
            spec_mult_mul(a, c),
        ),
{
}

/// Subusage is a total order, and addition is its join: `a ≤ b` exactly
/// when `a + b = b`.
pub proof fn law_subusage_order(a: Multiplicitas, b: Multiplicitas, c: Multiplicitas)
    ensures
        spec_subusage(a, a),
        spec_subusage(a, b) && spec_subusage(b, a) ==> a == b,
        spec_subusage(a, b) && spec_subusage(b, c) ==> spec_subusage(a, c),
        spec_subusage(a, b) || spec_subusage(b, a),
        spec_subusage(a, b) <==> spec_mult_add(a, b) == b,
        spec_subusage(Multiplicitas::Nihil, a),
        spec_subusage(a, Multiplicitas::Omega),
{
}

/// Type-level marker for zero/erased multiplicity (0).
#[derive(Debug, Clone, Copy, PartialEq, Eq, Hash, Default)]
pub struct Nihil;

/// Type-level marker for linear multiplicity (1).
#[derive(Debug, Clone, Copy, PartialEq, Eq, Hash, Default)]
pub struct Semel;

/// Type-level marker for unrestricted multiplicity (ω).
#[derive(Debug, Clone, Copy, PartialEq, Eq, Hash, Default)]
pub struct Omega;

/// Type-level multiplicities, implemented by the markers `Nihil`, `Semel`
/// and `Omega`.
pub trait Usage: Copy + Default + 'static {
    /// The runtime multiplicity value.
    const VALUE: Multiplicitas;

    /// Whether this usage allows discarding without use.
    const ALLOWS_DISCARD: bool;

    /// Whether this usage allows duplication.
    const ALLOWS_DUP: bool;
}

impl Usage for Nihil {
    const VALUE: Multiplicitas = Multiplicitas::Nihil;
    const ALLOWS_DISCARD: bool = true;
    const ALLOWS_DUP: bool = true;
}

impl Usage for Semel {
    const VALUE: Multiplicitas = Multiplicitas::Semel;
    const ALLOWS_DISCARD: bool = false;
    const ALLOWS_DUP: bool = false;
}

impl Usage for Omega {
    const VALUE: Multiplicitas = Multiplicitas::Omega;
    const ALLOWS_DISCARD: bool = true;
    const ALLOWS_DUP: bool = true;
}

/// Each marker carries the multiplicity it names; a marker allows discarding
/// exactly when its multiplicity allows zero uses, and only the linear
/// marker forbids duplication.
pub proof fn law_markers()
    ensures
        <Nihil as Usage>::VALUE == Multiplicitas::Nihil,
        <Semel as Usage>::VALUE == Multiplicitas::Semel,
        <Omega as Usage>::VALUE == Multiplicitas::Omega,
        <Nihil as Usage>::ALLOWS_DISCARD && <Omega as Usage>::ALLOWS_DISCARD,
        !<Semel as Usage>::ALLOWS_DISCARD,
        <Nihil as Usage>::ALLOWS_DUP && <Omega as Usage>::ALLOWS_DUP,
        !<Semel as Usage>::ALLOWS_DUP,
{
}

impl Nihil {
    /// The displayed form of the marker: `"0"`.
    pub fn to_string(&self) -> (r: String)
        ensures
            r@ == "0"@,
    {
        "0".to_owned()
    }
}

impl Semel {
    /// The displayed form of the marker: `"1"`.
    pub fn to_string(&self) -> (r: String)
        ensures
            r@ == "1"@,
    {
        "1".to_owned()
    }
}

impl Omega {
    /// The displayed form of the marker: `"ω"`.
    pub fn to_string(&self) -> (r: String)
        ensures
            r@ == "ω"@,
    {
        "ω".to_owned()
    }
}

} // verus!
