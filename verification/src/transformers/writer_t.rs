//! `Scriptor`: the writer monad, a value together with an accumulated log.

use vstd::prelude::*;

use crate::typeclasses::{Compositio, Unitas};

verus! {

/// A value of type `A` with a log of type `W`.
#[derive(Clone, PartialEq, Eq, Debug, Hash)]
pub struct Scriptor<W, A> {
    log: W,
    value: A,
}

impl<W, A> Scriptor<W, A> {
    /// The log.
    pub closed spec fn spec_log(&self) -> W {
        self.log
    }

    /// The value.
    pub closed spec fn spec_value(&self) -> A {
        self.value
    }
}

/// The outcomes of binding `m` to `f`: the value of what `f` makes of
/// `m`'s value, with `m`'s log followed by that one's.
pub open spec fn scriptor_bound<W: Compositio, A, B, F: FnOnce(A) -> Scriptor<W, B>>(
    m: Scriptor<W, A>,
    f: F,
    r: Scriptor<W, B>,
) -> bool {
    exists|k: Scriptor<W, B>|
        f.ensures((m.spec_value(),), k) && r.spec_value() == k.spec_value() && W::compositum(
            &m.spec_log(),
            &k.spec_log(),
            &r.spec_log(),
        )
}

impl<W: Unitas + Clone, A> Scriptor<W, A> {
    /// The value `value` with log `log`.
    pub fn new(log: W, value: A) -> (r: Self)
        ensures
            r.spec_log() == log,
            r.spec_value() == value,
    {
        Scriptor { log, value }
    }

    /// Only a log entry: the log `log` with the unit value.
    pub fn dictum(log: W) -> (r: Scriptor<W, ()>)
        ensures
            r.spec_log() == log,
    {
        Scriptor { log, value: () }
    }

    /// The same as `dictum`.
    pub fn tell(log: W) -> (r: Scriptor<W, ()>)
        ensures
            r.spec_log() == log,
    {
        Self::dictum(log)
    }

    /// The log and the value.
    pub fn run(self) -> (r: (W, A))
        ensures
            r == (self.spec_log(), self.spec_value()),
    {
        (self.log, self.value)
    }

    /// The value, dropping the log.
    pub fn unwrap(self) -> (r: A)
        ensures
            r == self.spec_value(),
    {
        self.value
    }

    /// The value `value` with the empty log.
    pub fn pure(value: A) -> (r: Self)
        ensures
            r.spec_log().vacuum(),
            r.spec_value() == value,
    {
        Scriptor { log: W::empty(), value }
    }

    /// The log, dropping the value.
    pub fn log(self) -> (r: W)
        ensures
            r == self.spec_log(),
    {
        self.log
    }

    /// A reference to the value.
    pub fn value_ref(&self) -> (r: &A)
        ensures
            *r == self.spec_value(),
    {
        &self.value
    }

    /// A reference to the log.
    pub fn log_ref(&self) -> (r: &W)
        ensures
            *r == self.spec_log(),
    {
        &self.log
    }

    /// Apply `f` to the value, keeping the log.
    pub fn map<B, F>(self, f: F) -> (r: Scriptor<W, B>) where F: FnOnce(A) -> B
        requires
            f.requires((self.spec_value(),)),
        ensures
            r.spec_log() == self.spec_log(),
            f.ensures((self.spec_value(),), r.spec_value()),
    {
        Scriptor { log: self.log, value: f(self.value) }
    }

    /// Chain a computation on the value; the logs are combined, this one
    /// first.
    pub fn flat_map<B, F>(self, f: F) -> (r: Scriptor<W, B>) where F: FnOnce(A) -> Scriptor<W, B>
        requires
            f.requires((self.spec_value(),)),
        ensures
            scriptor_bound(self, f, r),
    {
        let ghost s = self;
        let k = f(self.value);
        let ghost k0 = k;
        let Scriptor { log, value } = k;
        let r = Scriptor { log: self.log.combine(&log), value };
        assert(f.ensures((s.spec_value(),), k0) && r.spec_value() == k0.spec_value()
            && W::compositum(&s.spec_log(), &k0.spec_log(), &r.spec_log()));
        r
    }

    /// The same as `flat_map`.
    pub fn bind<B, F>(self, f: F) -> (r: Scriptor<W, B>) where F: FnOnce(A) -> Scriptor<W, B>
        requires
            f.requires((self.spec_value(),)),
        ensures
            scriptor_bound(self, f, r),
    {
        self.flat_map(f)
    }

    /// Apply the function in `wf` to the value; the logs are combined, the
    /// function's first.
    pub fn apply<B, F>(self, wf: Scriptor<W, F>) -> (r: Scriptor<W, B>) where F: FnOnce(A) -> B
        requires
            wf.spec_value().requires((self.spec_value(),)),
        ensures
            wf.spec_value().ensures((self.spec_value(),), r.spec_value()),
            W::compositum(&wf.spec_log(), &self.spec_log(), &r.spec_log()),
    {
        let log = wf.log.combine(&self.log);
        Scriptor { log, value: (wf.value)(self.value) }
    }

    /// Pair the value with a clone of the log; the log stays.
    pub fn ausculta(self) -> (r: Scriptor<W, (A, W)>)
        ensures
            r.spec_log() == self.spec_log(),
            r.spec_value().0 == self.spec_value(),
            cloned(self.spec_log(), r.spec_value().1),
    {
        let log_clone = self.log.clone();
        Scriptor { log: self.log, value: (self.value, log_clone) }
    }

    /// The same as `ausculta`.
    pub fn listen(self) -> (r: Scriptor<W, (A, W)>)
        ensures
            r.spec_log() == self.spec_log(),
            r.spec_value().0 == self.spec_value(),
            cloned(self.spec_log(), r.spec_value().1),
    {
        self.ausculta()
    }

    /// Transform the log with `f`, keeping the value.
    pub fn censor<F>(self, f: F) -> (r: Scriptor<W, A>) where F: FnOnce(W) -> W
        requires
            f.requires((self.spec_log(),)),
        ensures
            f.ensures((self.spec_log(),), r.spec_log()),
            r.spec_value() == self.spec_value(),
    {
        Scriptor { log: f(self.log), value: self.value }
    }
}

impl<W: Unitas + Clone, A: Clone + Unitas> Compositio for Scriptor<W, A> {
    /// The log and the value of `r` combine those of `self` and `other`.
    open spec fn compositum(&self, other: &Self, r: &Self) -> bool {
        &&& W::compositum(&self.spec_log(), &other.spec_log(), &r.spec_log())
        &&& A::compositum(&self.spec_value(), &other.spec_value(), &r.spec_value())
    }

    /// Combine the logs and the values, each `self` first.
    fn combine(&self, other: &Self) -> (r: Self) {
        Scriptor { log: self.log.combine(&other.log), value: self.value.combine(&other.value) }
    }
}

impl<W: Unitas + Clone, A: Clone + Unitas> Unitas for Scriptor<W, A> {
    /// Both the log and the value are identity elements.
    open spec fn vacuum(&self) -> bool {
        self.spec_log().vacuum() && self.spec_value().vacuum()
    }

    /// The empty log with the identity value.
    fn empty() -> (r: Self) {
        Scriptor { log: W::empty(), value: A::empty() }
    }
}

/// A writer whose log is a list of lines.
pub type LogScriptor<A> = Scriptor<Vec<String>, A>;

/// Left identity, for text logs: binding a value with the empty log to `f`
/// gives what `f` makes of the value, with that log.
pub proof fn law_scriptor_left_identity<A, B, F: FnOnce(A) -> Scriptor<String, B>>(
    m: Scriptor<String, A>,
    f: F,
    r: Scriptor<String, B>,
)
    requires
        m.spec_log().vacuum(),
    ensures
        scriptor_bound(m, f, r) <==> exists|k: Scriptor<String, B>|
            f.ensures((m.spec_value(),), k) && r.spec_value() == k.spec_value() && r.spec_log()@
                == k.spec_log()@,
{
    assert forall|k: Scriptor<String, B>| #[trigger] f.ensures((m.spec_value(),), k) implies (
    String::compositum(&m.spec_log(), &k.spec_log(), &r.spec_log()) <==> r.spec_log()@
        == k.spec_log()@) by {
        assert(m.spec_log()@ + k.spec_log()@ =~= k.spec_log()@);
    }
}

/// Right identity, for text logs: binding `m` to a function that only
/// wraps its argument with the empty log gives `m`'s value and log back.
pub proof fn law_scriptor_right_identity<A, K: FnOnce(A) -> Scriptor<String, A>>(
    m: Scriptor<String, A>,
    k: K,
    r: Scriptor<String, A>,
)
    requires
        forall|a: A, o: Scriptor<String, A>| #[trigger]
            k.ensures((a,), o) ==> o.spec_value() == a && o.spec_log().vacuum(),
    ensures
        scriptor_bound(m, k, r) ==> r.spec_value() == m.spec_value() && r.spec_log()@
            == m.spec_log()@,
{
    if scriptor_bound(m, k, r) {
        let o = choose|o: Scriptor<String, A>|
            k.ensures((m.spec_value(),), o) && r.spec_value() == o.spec_value()
                && String::compositum(&m.spec_log(), &o.spec_log(), &r.spec_log());
        assert(m.spec_log()@ + o.spec_log()@ =~= m.spec_log()@);
    }
}

/// Associativity, for text logs: when `f` and `g` are functions, binding
/// `m` to `f` and then to `g` gives the same value and log as binding `m`
/// to their Kleisli composite `kf`.
pub proof fn law_scriptor_associativity<
    A,
    B,
    C,
    F: FnOnce(A) -> Scriptor<String, B>,
    G: FnOnce(B) -> Scriptor<String, C>,
    K: FnOnce(A) -> Scriptor<String, C>,
>(
    m: Scriptor<String, A>,
    f: F,
    g: G,
    kf: K,
    q: Scriptor<String, B>,
    r: Scriptor<String, C>,
    r2: Scriptor<String, C>,
)
    requires
        forall|a: A, c: Scriptor<String, C>| #[trigger]
            kf.ensures((a,), c) <==> exists|p: Scriptor<String, B>|
                f.ensures((a,), p) && scriptor_bound(p, g, c),
        forall|a: A, x: Scriptor<String, B>, y: Scriptor<String, B>|
            #[trigger] f.ensures((a,), x) && #[trigger] f.ensures((a,), y) ==> x.spec_value()
                == y.spec_value() && x.spec_log()@ == y.spec_log()@,
        forall|b: B, x: Scriptor<String, C>, y: Scriptor<String, C>|
            #[trigger] g.ensures((b,), x) && #[trigger] g.ensures((b,), y) ==> x.spec_value()
                == y.spec_value() && x.spec_log()@ == y.spec_log()@,
        scriptor_bound(m, f, q),
        scriptor_bound(q, g, r),
        scriptor_bound(m, kf, r2),
    ensures
        r.spec_value() == r2.spec_value(),
        r.spec_log()@ == r2.spec_log()@,
{
    let a = m.spec_value();
    let k1 = choose|k: Scriptor<String, B>|
        f.ensures((a,), k) && q.spec_value() == k.spec_value() && String::compositum(
            &m.spec_log(),
            &k.spec_log(),
            &q.spec_log(),
        );
    let k2 = choose|k: Scriptor<String, C>|
        g.ensures((q.spec_value(),), k) && r.spec_value() == k.spec_value() && String::compositum(
            &q.spec_log(),
            &k.spec_log(),
            &r.spec_log(),
        );
    let c = choose|c: Scriptor<String, C>|
        kf.ensures((a,), c) && r2.spec_value() == c.spec_value() && String::compositum(
            &m.spec_log(),
            &c.spec_log(),
            &r2.spec_log(),
        );
    assert(kf.ensures((a,), c));
    let p = choose|p: Scriptor<String, B>| f.ensures((a,), p) && scriptor_bound(p, g, c);
    let k3 = choose|k: Scriptor<String, C>|
        g.ensures((p.spec_value(),), k) && c.spec_value() == k.spec_value() && String::compositum(
            &p.spec_log(),
            &k.spec_log(),
            &c.spec_log(),
        );
    assert(f.ensures((a,), k1) && f.ensures((a,), p));
    assert(p.spec_value() == q.spec_value());
    assert(g.ensures((q.spec_value(),), k2) && g.ensures((q.spec_value(),), k3));
    assert(m.spec_log()@ + (k1.spec_log()@ + k2.spec_log()@) =~= (m.spec_log()@ + k1.spec_log()@)
        + k2.spec_log()@);
}

} // verus!
