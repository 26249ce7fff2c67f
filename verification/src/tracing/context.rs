//! Trace contexts, their W3C `traceparent` form, context stacks, samplers
//! and baggage.

use vstd::prelude::*;

use super::{SpatiumId, VestigiumId};
use crate::lemmata::lemma_filter_take_step;
use crate::numerus::nibble;

verus! {

/// Context of a trace: the trace, the current span, its parent span and
/// the sampling decision.
#[derive(Debug, Clone, Copy)]
pub struct ContextusVestigium {
    trace_id: VestigiumId,
    span_id: SpatiumId,
    parent_span_id: Option<SpatiumId>,
    sampled: bool,
}

/// The ASCII code of hexadecimal digit `d` (0 to 15), lower case.
pub open spec fn hex_byte(d: u64) -> u8 {
    if d < 10 {
        (d + 48) as u8
    } else {
        (d + 87) as u8
    }
}

/// The 16 lower-case hexadecimal digits of `v` as ASCII codes.
pub open spec fn hex16_bytes(v: u64) -> Seq<u8> {
    Seq::new(16, |i: int| hex_byte(nibble(v, i)))
}

/// The W3C trace-context header of a context: version `00`, the trace
/// identifier as the upper 64 bits of a 128-bit trace id whose lower 64
/// bits are zero, the span identifier, and flags `01` when sampled, `00`
/// otherwise.
pub open spec fn traceparent(trace: u64, span: u64, sampled: bool) -> Seq<u8> {
    seq![48u8, 48u8, 45u8] + hex16_bytes(trace) + hex16_bytes(0) + seq![45u8] + hex16_bytes(span)
        + seq![45u8, 48u8, if sampled {
        49u8
    } else {
        48u8
    }]
}

fn write_hex_u64(value: u64, buf: &mut [u8; 55], start: usize)
    requires
        start + 16 <= 55,
    ensures
        final(buf)@.len() == 55,
        final(buf)@.subrange(start as int, start + 16) == hex16_bytes(value),
        forall|k: int| 0 <= k < 55 && !(start <= k < start + 16) ==> #[trigger] final(buf)@[k] == old(buf)@[k],
{
    let mut i: usize = 0;
    while i < 16
        invariant
            i <= 16,
            start + 16 <= 55,
            buf@.len() == 55,
            forall|k: int| 0 <= k < i ==> #[trigger] buf@[start + k] == hex16_bytes(value)[k],
            forall|k: int| 0 <= k < 55 && !(start <= k < start + i) ==> #[trigger] buf@[k] == old(buf)@[k],
        decreases 16 - i,
    {
        let shift: u64 = (15 - i as u64) * 4;
        let nib: u64 = (value >> shift) & 0xf;
        assert(nib < 16) by (bit_vector)
            requires
                nib == (value >> shift) & 0xf,
        ;
        let b: u8 = if nib < 10 {
            (nib + 48) as u8
        } else {
            (nib + 87) as u8
        };
        buf[start + i] = b;
        i = i + 1;
    }
    assert forall|k: int| 0 <= k < 16 implies #[trigger] buf@.subrange(start as int, start + 16)[k]
        == hex16_bytes(value)[k] by {
        assert(buf@[start + k] == hex16_bytes(value)[k]);
    }
    assert(buf@.subrange(start as int, start + 16) =~= hex16_bytes(value));
}

impl ContextusVestigium {
    /// The trace.
    pub closed spec fn spec_trace(&self) -> VestigiumId {
        self.trace_id
    }

    /// The current span.
    pub closed spec fn spec_span(&self) -> SpatiumId {
        self.span_id
    }

    /// The parent span, if any.
    pub closed spec fn spec_parent(&self) -> Option<SpatiumId> {
        self.parent_span_id
    }

    /// The sampling decision.
    pub closed spec fn spec_sampled(&self) -> bool {
        self.sampled
    }

    /// A sampled context of trace `trace_id` whose current span is the
    /// fresh span `span_id`, with no parent.
    pub fn new(trace_id: VestigiumId, span_id: SpatiumId) -> (r: Self)
        ensures
            r.spec_trace() == trace_id,
            r.spec_span() == span_id,
            r.spec_parent() is None,
            r.spec_sampled(),
    {
        ContextusVestigium { trace_id, span_id, parent_span_id: None, sampled: true }
    }

    /// The root context of a new trace `trace_id`, with the fresh span
    /// `span_id`.
    pub fn root(trace_id: VestigiumId, span_id: SpatiumId) -> (r: Self)
        ensures
            r.spec_trace() == trace_id,
            r.spec_span() == span_id,
            r.spec_parent() is None,
            r.spec_sampled(),
    {
        Self::new(trace_id, span_id)
    }

    /// A child context: same trace and sampling, the fresh span `span_id`,
    /// this context's span as parent.
    pub fn child(&self, span_id: SpatiumId) -> (r: Self)
        ensures
            r.spec_trace() == self.spec_trace(),
            r.spec_span() == span_id,
            r.spec_parent() == Some(self.spec_span()),
            r.spec_sampled() == self.spec_sampled(),
    {
        ContextusVestigium {
            trace_id: self.trace_id,
            span_id,
            parent_span_id: Some(self.span_id),
            sampled: self.sampled,
        }
    }

    /// The same context with sampling decision `sampled`.
    pub fn with_sampled(self, sampled: bool) -> (r: Self)
        ensures
            r.spec_trace() == self.spec_trace(),
            r.spec_span() == self.spec_span(),
            r.spec_parent() == self.spec_parent(),
            r.spec_sampled() == sampled,
    {
        ContextusVestigium { sampled, ..self }
    }

    /// The trace identifier.
    pub fn trace_id(&self) -> (r: VestigiumId)
        ensures
            r == self.spec_trace(),
    {
        self.trace_id
    }

    /// The span identifier.
    pub fn span_id(&self) -> (r: SpatiumId)
        ensures
            r == self.spec_span(),
    {
        self.span_id
    }

    /// The parent span identifier.
    pub fn parent_span_id(&self) -> (r: Option<SpatiumId>)
        ensures
            r == self.spec_parent(),
    {
        self.parent_span_id
    }

    /// Whether this trace is sampled.
    pub fn is_sampled(&self) -> (r: bool)
        ensures
            r == self.spec_sampled(),
    {
        self.sampled
    }

    /// The W3C trace-context header:
    /// `{version}-{trace_id}-{span_id}-{flags}`, 55 ASCII bytes.
    pub fn to_traceparent(&self) -> (r: [u8; 55])
        ensures
            r@ == traceparent(self.spec_trace()@, self.spec_span()@, self.spec_sampled()),
    {
        let mut buf = [0u8; 55];
        buf[0] = 48u8;
        buf[1] = 48u8;
        buf[2] = 45u8;
        write_hex_u64(self.trace_id.value(), &mut buf, 3);
        write_hex_u64(0, &mut buf, 19);
        buf[35] = 45u8;
        write_hex_u64(self.span_id.value(), &mut buf, 36);
        buf[52] = 45u8;
        buf[53] = 48u8;
        let flag: u8 = if self.sampled {
            49u8
        } else {
            48u8
        };
        buf[54] = flag;
        let ghost t = traceparent(self.trace_id@, self.span_id@, self.sampled);
        assert(t.len() == 55);
        assert forall|k: int| 0 <= k < 55 implies #[trigger] buf@[k] == t[k] by {
            if 3 <= k < 19 {
                assert(buf@.subrange(3, 19)[k - 3] == buf@[k]);
            } else if 19 <= k < 35 {
                assert(buf@.subrange(19, 35)[k - 19] == buf@[k]);
            } else if 36 <= k < 52 {
                assert(buf@.subrange(36, 52)[k - 36] == buf@[k]);
            }
        }
        assert(buf@ =~= t);
        buf
    }
}

/// A stack of trace contexts, passed around explicitly.
#[derive(Debug, Clone)]
pub struct ContextusStack {
    stack: Vec<ContextusVestigium>,
}

impl View for ContextusStack {
    type V = Seq<ContextusVestigium>;

    /// The contexts, outermost first.
    closed spec fn view(&self) -> Seq<ContextusVestigium> {
        self.stack@
    }
}

impl ContextusStack {
    /// An empty stack.
    pub fn new() -> (r: Self)
        ensures
            r@ == Seq::<ContextusVestigium>::empty(),
    {
        ContextusStack { stack: Vec::new() }
    }

    /// Push `ctx` on top.
    pub fn push(&mut self, ctx: ContextusVestigium)
        ensures
            final(self)@ == old(self)@.push(ctx),
    {
        self.stack.push(ctx);
    }

    /// Pop the top context, if any.
    pub fn pop(&mut self) -> (r: Option<ContextusVestigium>)
        ensures
            old(self)@.len() == 0 ==> r is None && final(self)@ == old(self)@,
            old(self)@.len() > 0 ==> r == Some(old(self)@.last()) && final(self)@ == old(
                self,
            )@.drop_last(),
    {
        self.stack.pop()
    }

    /// The top context, if any.
    pub fn current(&self) -> (r: Option<&ContextusVestigium>)
        ensures
            self@.len() == 0 ==> r is None,
            self@.len() > 0 ==> (r matches Some(c) && *c == self@.last()),
    {
        if self.stack.len() == 0 {
            None
        } else {
            Some(&self.stack[self.stack.len() - 1])
        }
    }

    /// Push a child of the top context with fresh span `span_id`; on an
    /// empty stack, push the root of a new trace `trace_id` instead.
    /// Returns the pushed context.
    pub fn enter(&mut self, trace_id: VestigiumId, span_id: SpatiumId) -> (r: ContextusVestigium)
        ensures
            final(self)@ == old(self)@.push(r),
            r.spec_span() == span_id,
            old(self)@.len() == 0 ==> r.spec_trace() == trace_id && r.spec_parent() is None
                && r.spec_sampled(),
            old(self)@.len() > 0 ==> r.spec_trace() == old(self)@.last().spec_trace()
                && r.spec_parent() == Some(old(self)@.last().spec_span()) && r.spec_sampled()
                == old(self)@.last().spec_sampled(),
    {
        let ctx = match self.current() {
            Some(parent) => parent.child(span_id),
            None => ContextusVestigium::root(trace_id, span_id),
        };
        self.stack.push(ctx);
        ctx
    }

    /// Pop the top context.
    pub fn exit(&mut self)
        ensures
            old(self)@.len() == 0 ==> final(self)@ == old(self)@,
            old(self)@.len() > 0 ==> final(self)@ == old(self)@.drop_last(),
    {
        self.stack.pop();
    }

    /// Whether the stack is empty.
    pub fn is_empty(&self) -> (r: bool)
        ensures
            r == (self@.len() == 0),
    {
        self.stack.len() == 0
    }

    /// The number of contexts on the stack.
    pub fn depth(&self) -> (r: usize)
        ensures
            r == self@.len(),
    {
        self.stack.len()
    }
}

impl Default for ContextusStack {
    /// An empty stack.
    fn default() -> (r: Self)
        ensures
            r@ == Seq::<ContextusVestigium>::empty(),
    {
        Self::new()
    }
}

/// Decides whether a trace is sampled.
pub trait Samplator {
    /// Whether to sample trace `trace_id`.
    fn should_sample(&self, trace_id: VestigiumId) -> bool;
}

/// Samples every trace.
pub struct SamplatorSemper;

impl Samplator for SamplatorSemper {
    /// Always.
    fn should_sample(&self, trace_id: VestigiumId) -> (r: bool)
        ensures
            r,
    {
        true
    }
}

/// Samples no trace.
pub struct SamplatorNunquam;

impl Samplator for SamplatorNunquam {
    /// Never.
    fn should_sample(&self, trace_id: VestigiumId) -> (r: bool)
        ensures
            !r,
    {
        false
    }
}

/// The SplitMix64 finalizer, which maps sequential values to uniformly
/// spread ones.
pub open spec fn splitmix64(id: u64) -> u64 {
    let z0 = id.wrapping_add(0x9E37_79B9_7F4A_7C15);
    let z1 = (z0 ^ (z0 >> 30)).wrapping_mul(0xBF58_476D_1CE4_E5B9);
    let z2 = (z1 ^ (z1 >> 27)).wrapping_mul(0x94D0_49BB_1331_11EB);
    z2 ^ (z2 >> 31)
}

/// Bit-mix `id` with the SplitMix64 finalizer.
pub fn splitmix64_mix(id: u64) -> (r: u64)
    ensures
        r == splitmix64(id),
{
    let mut z = id.wrapping_add(0x9E37_79B9_7F4A_7C15);
    z = (z ^ (z >> 30)).wrapping_mul(0xBF58_476D_1CE4_E5B9);
    z = (z ^ (z >> 27)).wrapping_mul(0x94D0_49BB_1331_11EB);
    z ^ (z >> 31)
}

/// The sampling decision for trace `trace_id` against `threshold`: the
/// trace is kept when its mixed identifier falls below the threshold, so
/// that a threshold at a fraction of the `u64` range keeps about that
/// fraction of sequential traces.
pub fn sampled_under(trace_id: VestigiumId, threshold: u64) -> (r: bool)
    ensures
        r == (splitmix64(trace_id@) < threshold),
{
    splitmix64_mix(trace_id.value()) < threshold
}

/// A baggage entry as text: key and value.
pub type BaggageEntry = (Seq<char>, Seq<char>);

/// The index of the first entry with key `key`, if any.
pub open spec fn first_key(items: Seq<BaggageEntry>, key: Seq<char>) -> Option<int>
    decreases items.len(),
{
    if items.len() == 0 {
        None
    } else {
        match first_key(items.drop_last(), key) {
            Some(i) => Some(i),
            None => if items.last().0 == key {
                Some(items.len() - 1)
            } else {
                None
            },
        }
    }
}

proof fn lemma_first_key_none(items: Seq<BaggageEntry>, key: Seq<char>)
    ensures
        first_key(items, key) is None <==> forall|i: int|
            0 <= i < items.len() ==> (#[trigger] items[i]).0 != key,
    decreases items.len(),
{
    if items.len() > 0 {
        lemma_first_key_none(items.drop_last(), key);
        assert forall|i: int| 0 <= i < items.len() - 1 implies items.drop_last()[i] == items[i] by {}
    }
}

proof fn lemma_first_key_some(items: Seq<BaggageEntry>, key: Seq<char>)
    ensures
        first_key(items, key) matches Some(i) ==> 0 <= i < items.len() && items[i].0 == key
            && forall|j: int| 0 <= j < i ==> (#[trigger] items[j]).0 != key,
    decreases items.len(),
{
    if items.len() > 0 {
        lemma_first_key_some(items.drop_last(), key);
        lemma_first_key_none(items.drop_last(), key);
        if first_key(items.drop_last(), key) is None {
            assert forall|j: int| 0 <= j < items.len() - 1 implies (#[trigger] items[j]).0 != key by {
                assert(items.drop_last()[j] == items[j]);
            }
        } else {
            let i = first_key(items.drop_last(), key).unwrap();
            assert(items.drop_last()[i] == items[i]);
            assert forall|j: int| 0 <= j < i implies (#[trigger] items[j]).0 != key by {
                assert(items.drop_last()[j] == items[j]);
            }
        }
    }
}

proof fn lemma_first_key_at(items: Seq<BaggageEntry>, key: Seq<char>, i: int)
    requires
        0 <= i < items.len(),
        items[i].0 == key,
        forall|j: int| 0 <= j < i ==> (#[trigger] items[j]).0 != key,
    ensures
        first_key(items, key) == Some(i),
{
    lemma_first_key_some(items, key);
    lemma_first_key_none(items, key);
    if first_key(items, key) is Some {
        let f = first_key(items, key).unwrap();
        assert(!(f < i));
        assert(!(f > i));
    }
}

/// The value of the first entry with key `key`, if any.
pub open spec fn baggage_get(items: Seq<BaggageEntry>, key: Seq<char>) -> Option<Seq<char>> {
    match first_key(items, key) {
        Some(i) => Some(items[i].1),
        None => None,
    }
}

/// The entries after setting `key` to `value`: the first entry with that
/// key takes the value, or a new entry is added last.
pub open spec fn baggage_set(items: Seq<BaggageEntry>, key: Seq<char>, value: Seq<char>) -> Seq<BaggageEntry> {
    match first_key(items, key) {
        Some(i) => items.update(i, (key, value)),
        None => items.push((key, value)),
    }
}

/// The predicate "has a key other than `key`".
pub open spec fn key_differs(key: Seq<char>) -> spec_fn(BaggageEntry) -> bool {
    |e: BaggageEntry| e.0 != key
}

/// The entries after removing every entry with key `key`.
pub open spec fn baggage_remove(items: Seq<BaggageEntry>, key: Seq<char>) -> Seq<BaggageEntry> {
    items.filter(key_differs(key))
}

/// Key-value baggage carried with a trace context.
#[derive(Debug, Clone)]
pub struct Impedimenta {
    items: Vec<(String, String)>,
}

/// The entries of a list of string pairs, as text.
pub open spec fn entries_of(v: Seq<(String, String)>) -> Seq<BaggageEntry> {
    Seq::new(v.len(), |i: int| (v[i].0@, v[i].1@))
}

impl View for Impedimenta {
    type V = Seq<BaggageEntry>;

    /// The entries, as text, in insertion order.
    closed spec fn view(&self) -> Seq<BaggageEntry> {
        entries_of(self.items@)
    }
}

impl Impedimenta {
    /// Empty baggage.
    pub fn new() -> (r: Self)
        ensures
            r@ == Seq::<BaggageEntry>::empty(),
    {
        let r = Impedimenta { items: Vec::new() };
        assert(r@ =~= Seq::<BaggageEntry>::empty());
        r
    }

    fn find(&self, key: &String) -> (r: Option<usize>)
        ensures
            r matches Some(i) ==> first_key(self@, key@) == Some(i as int) && i < self@.len(),
            r is None ==> first_key(self@, key@) is None,
    {
        let mut i: usize = 0;
        while i < self.items.len()
            invariant
                i <= self.items@.len(),
                forall|j: int| 0 <= j < i ==> (#[trigger] self@[j]).0 != key@,
            decreases self.items@.len() - i,
        {
            if self.items[i].0 == *key {
                proof {
                    lemma_first_key_at(self@, key@, i as int);
                }
                return Some(i);
            }
            i = i + 1;
        }
        proof {
            lemma_first_key_none(self@, key@);
        }
        None
    }

    /// Set `key` to `value`: the first entry with that key takes the value,
    /// or a new entry is added.
    pub fn set(&mut self, key: &str, value: &str)
        ensures
            final(self)@ == baggage_set(old(self)@, key@, value@),
    {
        let k = key.to_owned();
        match self.find(&k) {
            Some(i) => {
                let entry = (k, value.to_owned());
                self.items.set(i, entry);
                assert(self@ =~= baggage_set(old(self)@, key@, value@));
            },
            None => {
                self.items.push((k, value.to_owned()));
                assert(self@ =~= baggage_set(old(self)@, key@, value@));
            },
        }
    }

    /// The value of `key`, if set.
    pub fn get(&self, key: &str) -> (r: Option<&str>)
        ensures
            match baggage_get(self@, key@) {
                Some(v) => r matches Some(s) && s@ == v,
                None => r is None,
            },
    {
        let k = key.to_owned();
        match self.find(&k) {
            Some(i) => {
                assert(self@[i as int] == (self.items@[i as int].0@, self.items@[i as int].1@));
                Some(self.items[i].1.as_str())
            },
            None => None,
        }
    }

    /// Remove every entry with key `key`.
    pub fn remove(&mut self, key: &str)
        ensures
            final(self)@ == baggage_remove(old(self)@, key@),
    {
        let k = key.to_owned();
        let ghost before = self@;
        let mut kept: Vec<(String, String)> = Vec::new();
        let mut i: usize = 0;
        while i < self.items.len()
            invariant
                i <= self.items@.len(),
                before == self@,
                k@ == key@,
                entries_of(kept@) == before.take(i as int).filter(key_differs(key@)),
            decreases self.items@.len() - i,
        {
            proof {
                lemma_filter_take_step(before, key_differs(key@), i as int);
                assert(before[i as int] == (self.items@[i as int].0@, self.items@[i as int].1@));
            }
            if !(self.items[i].0 == k) {
                let e = (self.items[i].0.clone(), self.items[i].1.clone());
                let ghost kv = kept@;
                kept.push(e);
                assert(entries_of(kept@) =~= entries_of(kv).push(before[i as int]));
            }
            i = i + 1;
        }
        assert(before.take(before.len() as int) =~= before);
        self.items = kept;
    }

    /// The entries, as pairs of text, in insertion order.
    pub fn iter(&self) -> (r: Vec<(&str, &str)>)
        ensures
            r@.len() == self@.len(),
            forall|i: int|
                0 <= i < r@.len() ==> (#[trigger] r@[i]).0@ == self@[i].0 && r@[i].1@ == self@[i].1,
    {
        let mut v: Vec<(&str, &str)> = Vec::new();
        let mut i: usize = 0;
        while i < self.items.len()
            invariant
                i <= self.items@.len(),
                v@.len() == i,
                forall|j: int|
                    0 <= j < i ==> (#[trigger] v@[j]).0@ == self@[j].0 && v@[j].1@ == self@[j].1,
            decreases self.items@.len() - i,
        {
            v.push((self.items[i].0.as_str(), self.items[i].1.as_str()));
            i = i + 1;
        }
        v
    }

    /// Whether there are no entries.
    pub fn is_empty(&self) -> (r: bool)
        ensures
            r == (self@.len() == 0),
    {
        self.items.len() == 0
    }

    /// The number of entries.
    pub fn len(&self) -> (r: usize)
        ensures
            r == self@.len(),
    {
        self.items.len()
    }
}

impl Default for Impedimenta {
    /// Empty baggage.
    fn default() -> (r: Self)
        ensures
            r@ == Seq::<BaggageEntry>::empty(),
    {
        Self::new()
    }
}

/// What was set is read back: after setting `key` to `value`, reading
/// `key` gives `value`, and other keys read as before.
pub proof fn law_baggage_set_get(items: Seq<BaggageEntry>, key: Seq<char>, value: Seq<char>, other: Seq<char>)
    ensures
        baggage_get(baggage_set(items, key, value), key) == Some(value),
        other != key ==> baggage_get(baggage_set(items, key, value), other) == baggage_get(items, other),
{
    let after = baggage_set(items, key, value);
    lemma_first_key_some(items, key);
    lemma_first_key_none(items, key);
    lemma_first_key_some(items, other);
    lemma_first_key_none(items, other);
    match first_key(items, key) {
        Some(i) => {
            assert forall|j: int| 0 <= j < i implies (#[trigger] after[j]).0 != key by {
                assert(after[j] == items[j]);
            }
            lemma_first_key_at(after, key, i);
            if other != key {
                lemma_first_key_none(after, other);
                match first_key(items, other) {
                    Some(m) => {
                        assert forall|j: int| 0 <= j < m implies (#[trigger] after[j]).0 != other by {
                            if j != i {
                                assert(after[j] == items[j]);
                            }
                        }
                        assert(after[m] == items[m]);
                        lemma_first_key_at(after, other, m);
                    },
                    None => {
                        assert forall|j: int| 0 <= j < after.len() implies (#[trigger] after[j]).0
                            != other by {
                            if j != i {
                                assert(after[j] == items[j]);
                            }
                        }
                    },
                }
            }
        },
        None => {
            assert forall|j: int| 0 <= j < items.len() implies (#[trigger] after[j]).0 != key by {
                assert(after[j] == items[j]);
            }
            lemma_first_key_at(after, key, items.len() as int);
            if other != key {
                lemma_first_key_none(after, other);
                match first_key(items, other) {
                    Some(m) => {
                        assert forall|j: int| 0 <= j < m implies (#[trigger] after[j]).0 != other by {
                            assert(after[j] == items[j]);
                        }
                        assert(after[m] == items[m]);
                        lemma_first_key_at(after, other, m);
                    },
                    None => {
                        assert forall|j: int| 0 <= j < after.len() implies (#[trigger] after[j]).0
                            != other by {
                            if j < items.len() {
                                assert(after[j] == items[j]);
                            }
                        }
                    },
                }
            }
        },
    }
}

/// After removing `key`, reading it gives nothing.
pub proof fn law_baggage_remove_get(items: Seq<BaggageEntry>, key: Seq<char>)
    ensures
        baggage_get(baggage_remove(items, key), key) is None,
{
    let after = baggage_remove(items, key);
    assert forall|j: int| 0 <= j < after.len() implies (#[trigger] after[j]).0 != key by {
        items.lemma_filter_pred(key_differs(key), j);
    }
    lemma_first_key_none(after, key);
}

} // verus!
