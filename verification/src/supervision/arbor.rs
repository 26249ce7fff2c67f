//! The supervision tree: children, their start order, and what a failure
//! does to them.

use core::sync::atomic::{AtomicBool, Ordering};
use vstd::prelude::*;

use super::infans::{InfansCurrens, InfansSpec};
use super::strategia::{
    decision_of, index_range, restarts_after, strategy_step, strategy_window, OrdoTerminatio,
    RestartDecision, StrategiaSupervisionis,
};
use super::{ActioRestitutio, StatusInfantis, SupervisioError, SupervisioResult};
use crate::lemmata::{
    lemma_filter_insert, lemma_filter_none, lemma_filter_single, lemma_filter_take_step,
};

verus! {

/// Identifier of a supervision tree node.
#[derive(Debug, Clone, Copy, PartialEq, Eq, Hash, Structural)]
pub struct ArborId(u64);

impl View for ArborId {
    type V = u64;

    /// The raw value.
    closed spec fn view(&self) -> u64 {
        self.0
    }
}

impl ArborId {
    /// The identifier with raw value `value`. Fresh identifiers are handed
    /// out by the caller, which owns the counter they come from.
    pub fn new(value: u64) -> (r: Self)
        ensures
            r@ == value,
    {
        ArborId(value)
    }

    /// The raw value.
    pub fn value(&self) -> (r: u64)
        ensures
            r == self@,
    {
        self.0
    }

    /// The displayed form: `Arbor(<value in decimal>)`.
    pub fn to_string(&self) -> (r: String)
        ensures
            r@ == "Arbor("@ + crate::numerus::decimal_digits(self@ as nat) + ")"@,
    {
        let mut s = String::from_str("Arbor(");
        let n = crate::numerus::decimal(self.0);
        s.append(n.as_str());
        s.append(")");
        s
    }
}

/// State of a supervision tree.
#[derive(Debug, Clone, Copy, PartialEq, Eq, Structural)]
pub enum StatusArbor {
    /// Initializing.
    Initians,
    /// Running.
    Currens,
    /// Stopping.
    Terminans,
    /// Stopped.
    Terminatus,
}

/// The predicate "has start priority `q`".
pub open spec fn priority_is(q: u32) -> spec_fn(InfansSpec) -> bool {
    |x: InfansSpec| x.spec_priority() == q
}

/// The elements of `s` with priority `q`, in their order.
pub open spec fn with_priority(s: Seq<InfansSpec>, q: u32) -> Seq<InfansSpec> {
    s.filter(priority_is(q))
}

/// Whether `s` is ordered by ascending priority.
pub open spec fn priority_sorted(s: Seq<InfansSpec>) -> bool {
    forall|a: int, b: int|
        0 <= a < b < s.len() ==> #[trigger] s[a].spec_priority() <= #[trigger] s[b].spec_priority()
}

/// Whether `out` is `inp` stably sorted by priority: ordered by priority,
/// with the elements of each priority in the order they had before.
pub open spec fn stably_sorted(out: Seq<InfansSpec>, inp: Seq<InfansSpec>) -> bool {
    &&& out.len() == inp.len()
    &&& priority_sorted(out)
    &&& forall|q: u32| #[trigger] with_priority(out, q) == with_priority(inp, q)
}

/// The specifications of running children.
pub open spec fn specs_of(cs: Seq<InfansCurrens>) -> Seq<InfansSpec> {
    cs.map_values(|c: InfansCurrens| c.spec_spec())
}

/// Whether `ds` is `cs` with at most the child at `idx` changed.
pub open spec fn only_changed(cs: Seq<InfansCurrens>, ds: Seq<InfansCurrens>, idx: int) -> bool {
    &&& ds.len() == cs.len()
    &&& forall|j: int| 0 <= j < cs.len() && j != idx ==> #[trigger] ds[j] == cs[j]
}

/// Whether the elements of `s` are pairwise distinct.
pub open spec fn distinct(s: Seq<usize>) -> bool {
    forall|a: int, b: int| 0 <= a < b < s.len() ==> #[trigger] s[a] != #[trigger] s[b]
}

proof fn lemma_decision_distinct(s: StrategiaSupervisionis, failed: usize, total: int, now: u64)
    requires
        decision_of(s, failed, total, now) is Some,
        0 <= total <= usize::MAX,
    ensures
        distinct(decision_of(s, failed, total, now).unwrap()),
{
}

/// Inserting `s` after every element of lower or equal priority and before
/// every element of higher priority extends each priority class of the
/// sorted prefix exactly as the next input element does.
proof fn lemma_insert_stable(before: Seq<InfansSpec>, j: int, s: InfansSpec, inp: Seq<InfansSpec>, i: int)
    requires
        0 <= j <= before.len(),
        0 <= i < inp.len(),
        inp[i] == s,
        forall|k: int| 0 <= k < j ==> (#[trigger] before[k]).spec_priority() <= s.spec_priority(),
        forall|k: int| j <= k < before.len() ==> (#[trigger] before[k]).spec_priority() > s.spec_priority(),
        forall|q: u32| #[trigger] with_priority(before, q) == with_priority(inp.take(i), q),
    ensures
        forall|q: u32| #[trigger]
            with_priority(before.insert(j, s), q) == with_priority(inp.take(i + 1), q),
{
    assert forall|q: u32| #[trigger]
        with_priority(before.insert(j, s), q) == with_priority(inp.take(i + 1), q) by {
        let pq = priority_is(q);
        let lo = before.take(j).filter(pq);
        let hi = before.skip(j).filter(pq);
        lemma_filter_insert(before, pq, j, s);
        lemma_filter_take_step(inp, pq, i);
        lemma_filter_single(s, pq);
        assert(with_priority(before, q) == with_priority(inp.take(i), q));
        if q == s.spec_priority() {
            assert forall|k: int| 0 <= k < before.skip(j).len() implies !pq(
                #[trigger] before.skip(j)[k],
            ) by {
                assert(before.skip(j)[k] == before[j + k]);
            }
            lemma_filter_none(before.skip(j), pq);
            assert(lo + seq![s] + hi =~= lo.push(s));
            assert(lo + hi =~= lo);
        } else {
            assert(lo + Seq::<InfansSpec>::empty() + hi =~= lo + hi);
        }
    }
}


/// A child whose restart mode does not restart it after this exit (a
/// temporary child always, a transient child after a normal exit) is never
/// restarted: the failure is ignored, the strategy's budget is untouched,
/// and no child records a restart.
pub proof fn law_mode_before_budget(
    before: Arbor,
    after: Arbor,
    idx: usize,
    now: u64,
    normal_exit: bool,
    r: SupervisioResult<ActioRestitutio>,
)
    requires
        failure_handled(before, after, idx, now, normal_exit, r),
        idx < before.spec_children().len(),
        !restarts_after(before.spec_children()[idx as int].spec_spec().spec_modus(), normal_exit),
    ensures
        r == Ok::<ActioRestitutio, SupervisioError>(ActioRestitutio::Ignorare),
        after.spec_strategy() == before.spec_strategy(),
        forall|j: int|
            0 <= j < before.spec_children().len() ==> (#[trigger] after.spec_children()[j]).spec_restart_count()
                == before.spec_children()[j].spec_restart_count(),
        after.spec_children()[idx as int].spec_status() == StatusInfantis::Terminatus,
{
    assert forall|j: int| 0 <= j < before.spec_children().len() implies (#[trigger] after.spec_children()[j]).spec_restart_count()
        == before.spec_children()[j].spec_restart_count() by {
        if j != idx {
            assert(after.spec_children()[j] == before.spec_children()[j]);
        }
    }
}

/// Whenever a failure of a child in range leads to restarts, the failed
/// child is among the restarted ones, and its restart count grows by one.
pub proof fn law_failed_child_restarted(
    before: Arbor,
    after: Arbor,
    idx: usize,
    now: u64,
    normal_exit: bool,
    r: SupervisioResult<ActioRestitutio>,
)
    requires
        failure_handled(before, after, idx, now, normal_exit, r),
        idx < before.spec_children().len(),
        r == Ok::<ActioRestitutio, SupervisioError>(ActioRestitutio::Restituere),
    ensures
        after.spec_children()[idx as int].spec_restart_count()
            == before.spec_children()[idx as int].spec_restart_count() + 1,
        after.spec_children()[idx as int].spec_status() == StatusInfantis::Restituens,
        after.spec_children()[idx as int].spec_last_restart() == Some(now),
{
    let cs = before.spec_children();
    if !restarts_after(cs[idx as int].spec_spec().spec_modus(), normal_exit) {
        assert(r == Ok::<ActioRestitutio, SupervisioError>(ActioRestitutio::Ignorare));
    }
    let d = decision_of(before.spec_strategy(), idx, cs.len() as int, now);
    if d is None {
        assert(r is Err);
    }
    let ix = d.unwrap();
    assert(ix.contains(idx)) by {
        match before.spec_strategy() {
            StrategiaSupervisionis::OmnesProUno { .. } => {
                assert(ix[idx as int] == idx);
            },
            StrategiaSupervisionis::ReliquiProUno { .. } => {
                assert(ix[0] == idx);
            },
            _ => {
                assert(ix[0] == idx);
            },
        }
    }
    assert(InfansCurrens::restarted(cs[idx as int], after.spec_children()[idx as int], now));
}

/// A supervision tree node: children managed with a restart strategy.
pub struct Arbor {
    id: ArborId,
    name: String,
    strategy: StrategiaSupervisionis,
    children_specs: Vec<InfansSpec>,
    children: Vec<InfansCurrens>,
    status: StatusArbor,
    shutdown_order: OrdoTerminatio,
    stopping: AtomicBool,
}

/// Whether handling the failure of child `idx` at `now` restarts child
/// `j` of `a`: the index is in range, the child's restart mode restarts it
/// after this exit, and the strategy's decision names `j`.
pub open spec fn restarted_by(a: Arbor, idx: usize, now: u64, normal_exit: bool, j: int) -> bool {
    &&& idx < a.spec_children().len()
    &&& restarts_after(a.spec_children()[idx as int].spec_spec().spec_modus(), normal_exit)
    &&& match decision_of(a.spec_strategy(), idx, a.spec_children().len() as int, now) {
        Some(ix) => ix.contains(j as usize),
        None => false,
    }
}

/// Whether handling the failure of child `idx` at `now` took `before` to
/// `after` with result `r`.
///
/// An index out of range is refused and changes nothing. A child whose mode
/// does not restart after this exit is marked terminated and the failure is
/// ignored. Otherwise the child is marked failed and the strategy decides:
/// either the listed children are restarted at `now`, or the failure
/// escalates with the restart count of the child and the strategy's window
/// (sixty seconds for strategies without one).
pub open spec fn failure_handled(
    before: Arbor,
    after: Arbor,
    idx: usize,
    now: u64,
    normal_exit: bool,
    r: SupervisioResult<ActioRestitutio>,
) -> bool {
    let cs = before.spec_children();
    let ds = after.spec_children();
    &&& after.spec_id() == before.spec_id()
    &&& after.spec_name() == before.spec_name()
    &&& after.spec_specs() == before.spec_specs()
    &&& after.spec_order() == before.spec_order()
    &&& after.spec_status() == before.spec_status()
    &&& ds.len() == cs.len()
    &&& if idx >= cs.len() {
        &&& r matches Err(SupervisioError::Alius(m)) && m@ == "invalid child index"@
        &&& ds == cs
        &&& after.spec_strategy() == before.spec_strategy()
    } else if !restarts_after(cs[idx as int].spec_spec().spec_modus(), normal_exit) {
        &&& r == Ok::<ActioRestitutio, SupervisioError>(ActioRestitutio::Ignorare)
        &&& after.spec_strategy() == before.spec_strategy()
        &&& only_changed(cs, ds, idx as int)
        &&& InfansCurrens::with_status(cs[idx as int], ds[idx as int], StatusInfantis::Terminatus)
    } else {
        &&& strategy_step(before.spec_strategy(), after.spec_strategy(), now)
        &&& match decision_of(before.spec_strategy(), idx, cs.len() as int, now) {
            Some(ix) => {
                &&& r == Ok::<ActioRestitutio, SupervisioError>(ActioRestitutio::Restituere)
                &&& forall|j: int|
                    0 <= j < cs.len() ==> if ix.contains(j as usize) {
                        InfansCurrens::restarted(cs[j], #[trigger] ds[j], now)
                    } else if j == idx {
                        InfansCurrens::with_status(cs[j], ds[j], StatusInfantis::Defectus)
                    } else {
                        ds[j] == cs[j]
                    }
            },
            None => {
                &&& r matches Err(
                    SupervisioError::IntensitasExcedit { child_id, restarts, window_secs },
                ) && child_id@ == cs[idx as int].spec_spec().spec_id() && restarts
                    == cs[idx as int].spec_restart_count() && window_secs == match strategy_window(
                    after.spec_strategy(),
                ) {
                    Some(w) => w,
                    None => 60u64,
                }
                &&& only_changed(cs, ds, idx as int)
                &&& InfansCurrens::with_status(cs[idx as int], ds[idx as int], StatusInfantis::Defectus)
            },
        }
    }
}

impl Arbor {
    /// The identifier.
    pub closed spec fn spec_id(&self) -> ArborId {
        self.id
    }

    /// The name.
    pub closed spec fn spec_name(&self) -> Seq<char> {
        self.name@
    }

    /// The restart strategy.
    pub closed spec fn spec_strategy(&self) -> StrategiaSupervisionis {
        self.strategy
    }

    /// The child specifications, in the order they were added.
    pub closed spec fn spec_specs(&self) -> Seq<InfansSpec> {
        self.children_specs@
    }

    /// The running children, in start order.
    pub closed spec fn spec_children(&self) -> Seq<InfansCurrens> {
        self.children@
    }

    /// The tree status.
    pub closed spec fn spec_status(&self) -> StatusArbor {
        self.status
    }

    /// The shutdown order.
    pub closed spec fn spec_order(&self) -> OrdoTerminatio {
        self.shutdown_order
    }

    /// A tree named `name` with identifier `id`: no children, the default
    /// strategy (one-for-one, three restarts per minute), shutdown in start
    /// order, initializing.
    pub fn new(name: &str, id: ArborId) -> (r: Self)
        ensures
            r.spec_id() == id,
            r.spec_name() == name@,
            r.spec_strategy() matches StrategiaSupervisionis::UnusProUno { intensity }
                && intensity@ == (3u32, 60u64, Seq::<u64>::empty()),
            r.spec_specs() == Seq::<InfansSpec>::empty(),
            r.spec_children() == Seq::<InfansCurrens>::empty(),
            r.spec_status() == StatusArbor::Initians,
            r.spec_order() == OrdoTerminatio::Primus,
    {
        Arbor {
            id,
            name: name.to_owned(),
            strategy: StrategiaSupervisionis::default(),
            children_specs: Vec::new(),
            children: Vec::new(),
            status: StatusArbor::Initians,
            shutdown_order: OrdoTerminatio::Primus,
            stopping: AtomicBool::new(false),
        }
    }

    /// The same tree with strategy `strategy`.
    pub fn with_strategy(self, strategy: StrategiaSupervisionis) -> (r: Self)
        ensures
            r.spec_strategy() == strategy,
            r.spec_id() == self.spec_id(),
            r.spec_name() == self.spec_name(),
            r.spec_specs() == self.spec_specs(),
            r.spec_children() == self.spec_children(),
            r.spec_status() == self.spec_status(),
            r.spec_order() == self.spec_order(),
    {
        Arbor { strategy, ..self }
    }

    /// The same tree with shutdown order `order`.
    pub fn with_shutdown_order(self, order: OrdoTerminatio) -> (r: Self)
        ensures
            r.spec_order() == order,
            r.spec_id() == self.spec_id(),
            r.spec_name() == self.spec_name(),
            r.spec_strategy() == self.spec_strategy(),
            r.spec_specs() == self.spec_specs(),
            r.spec_children() == self.spec_children(),
            r.spec_status() == self.spec_status(),
    {
        Arbor { shutdown_order: order, ..self }
    }

    /// The same tree with child specification `spec` added last.
    pub fn add_child(self, spec: InfansSpec) -> (r: Self)
        ensures
            r.spec_specs() == self.spec_specs().push(spec),
            r.spec_id() == self.spec_id(),
            r.spec_name() == self.spec_name(),
            r.spec_strategy() == self.spec_strategy(),
            r.spec_children() == self.spec_children(),
            r.spec_status() == self.spec_status(),
            r.spec_order() == self.spec_order(),
    {
        let mut a = self;
        a.children_specs.push(spec);
        a
    }

    /// The same tree with child specifications `specs` added last, in order.
    pub fn add_children(self, specs: Vec<InfansSpec>) -> (r: Self)
        ensures
            r.spec_specs() == self.spec_specs() + specs@,
            r.spec_id() == self.spec_id(),
            r.spec_name() == self.spec_name(),
            r.spec_strategy() == self.spec_strategy(),
            r.spec_children() == self.spec_children(),
            r.spec_status() == self.spec_status(),
            r.spec_order() == self.spec_order(),
    {
        let mut a = self;
        let mut more = specs;
        a.children_specs.append(&mut more);
        a
    }

    /// The identifier.
    pub fn id(&self) -> (r: ArborId)
        ensures
            r == self.spec_id(),
    {
        self.id
    }

    /// The name.
    pub fn name(&self) -> (r: &str)
        ensures
            r@ == self.spec_name(),
    {
        self.name.as_str()
    }

    /// The tree status.
    pub fn status(&self) -> (r: StatusArbor)
        ensures
            r == self.spec_status(),
    {
        self.status
    }

    /// The number of child specifications.
    pub fn child_count(&self) -> (r: usize)
        ensures
            r == self.spec_specs().len(),
    {
        self.children_specs.len()
    }

    /// The strategy.
    pub fn strategy(&self) -> (r: &StrategiaSupervisionis)
        ensures
            *r == self.spec_strategy(),
    {
        &self.strategy
    }

    /// The child specifications, in the order they were added.
    pub fn children_specs(&self) -> (r: &[InfansSpec])
        ensures
            r@ == self.spec_specs(),
    {
        self.children_specs.as_slice()
    }

    /// The running children, in start order.
    pub fn children(&self) -> (r: &[InfansCurrens])
        ensures
            r@ == self.spec_children(),
    {
        self.children.as_slice()
    }

    /// Whether a stop was requested. The flag lives in an atomic cell that
    /// `request_stop` sets through a shared reference, so the value read is
    /// not stated.
    pub fn is_stopping(&self) -> bool {
        self.stopping.load(Ordering::Acquire)
    }

    /// Request the supervisor to stop.
    pub fn request_stop(&self) {
        self.stopping.store(true, Ordering::Release);
    }

    /// Start the tree: one starting child per specification, stably sorted
    /// by priority (lower first; equal priorities keep the order in which
    /// they were added), and the tree running. Never fails.
    pub fn initialize(&mut self) -> (r: SupervisioResult<()>)
        ensures
            r is Ok,
            stably_sorted(specs_of(final(self).spec_children()), old(self).spec_specs()),
            forall|j: int|
                0 <= j < final(self).spec_children().len() ==> (#[trigger] final(self).spec_children()[j]).is_fresh(final(self).spec_children()[j].spec_spec()),
            final(self).spec_status() == StatusArbor::Currens,
            final(self).spec_id() == old(self).spec_id(),
            final(self).spec_name() == old(self).spec_name(),
            final(self).spec_strategy() == old(self).spec_strategy(),
            final(self).spec_specs() == old(self).spec_specs(),
            final(self).spec_order() == old(self).spec_order(),
    {
        let n = self.children_specs.len();
        let ghost inp = self.children_specs@;
        let mut out: Vec<InfansCurrens> = Vec::new();
        let mut i: usize = 0;
        while i < n
            invariant
                n == self.children_specs.len(),
                inp == self.children_specs@,
                i <= n,
                out@.len() == i,
                priority_sorted(specs_of(out@)),
                forall|q: u32| #[trigger]
                    with_priority(specs_of(out@), q) == with_priority(inp.take(i as int), q),
                forall|j: int|
                    0 <= j < out@.len() ==> (#[trigger] out@[j]).is_fresh(out@[j].spec_spec()),
            decreases n - i,
        {
            let s = self.children_specs[i].clone();
            let p = s.priority();
            let ghost before = specs_of(out@);
            let mut j: usize = 0;
            while j < out.len() && out[j].spec().priority() <= p
                invariant
                    j <= out@.len(),
                    before == specs_of(out@),
                    forall|k: int| 0 <= k < j ==> (#[trigger] before[k]).spec_priority() <= p,
                decreases out@.len() - j,
            {
                j = j + 1;
            }
            proof {
                assert forall|k: int| j <= k < before.len() implies (#[trigger] before[k]).spec_priority()
                    > p by {
                    assert(before[j as int].spec_priority() > p);
                    if k > j {
                        assert(before[j as int].spec_priority() <= before[k].spec_priority());
                    }
                }
            }
            let ghost out_before = out@;
            out.insert(j, InfansCurrens::new(s));
            proof {
                let after = specs_of(out@);
                assert(after =~= before.insert(j as int, s));
                assert forall|a: int, b: int| 0 <= a < b < after.len() implies #[trigger] after[a].spec_priority()
                    <= #[trigger] after[b].spec_priority() by {
                    if b < j {
                        assert(after[a] == before[a] && after[b] == before[b]);
                    } else if b == j {
                        assert(after[a] == before[a]);
                    } else if a < j {
                        assert(after[a] == before[a] && after[b] == before[b - 1]);
                    } else if a == j {
                        assert(after[b] == before[b - 1]);
                    } else {
                        assert(after[a] == before[a - 1] && after[b] == before[b - 1]);
                    }
                }
                lemma_insert_stable(before, j as int, s, inp, i as int);
                assert forall|k: int| 0 <= k < out@.len() implies (#[trigger] out@[k]).is_fresh(
                    out@[k].spec_spec(),
                ) by {
                    if k > j {
                        assert(out@[k] == out_before[k - 1]);
                    }
                }
            }
            i = i + 1;
        }
        proof {
            assert(inp.take(n as int) =~= inp);
        }
        self.children = out;
        self.status = StatusArbor::Currens;
        Ok(())
    }

    /// Handle the failure of child `child_index` at `current_time`;
    /// `normal_exit` tells whether the child completed without error.
    ///
    /// The child's restart mode is consulted first: a child that does not
    /// restart after this exit is marked terminated and the failure is
    /// ignored, without using up restart budget. Otherwise the strategy
    /// decides; restarted children record the restart.
    pub fn handle_failure(&mut self, child_index: usize, current_time: u64, normal_exit: bool) -> (r:
        SupervisioResult<ActioRestitutio>)
        requires
            forall|j: int|
                0 <= j < old(self).spec_children().len() && restarted_by(
                    *old(self),
                    child_index,
                    current_time,
                    normal_exit,
                    j,
                ) ==> (#[trigger] old(self).spec_children()[j]).spec_restart_count() < u32::MAX,
        ensures
            failure_handled(*old(self), *final(self), child_index, current_time, normal_exit, r),
    {
        proof {
            reveal_strlit("invalid child index");
        }
        if child_index >= self.children.len() {
            return Err(SupervisioError::Alius(String::from_str("invalid child index")));
        }
        let ghost cs = self.children@;
        if !self.children[child_index].spec().modus().should_restart(normal_exit) {
            self.children[child_index].mark_terminated();
            return Ok(ActioRestitutio::Ignorare);
        }
        self.children[child_index].mark_failed();
        let ghost marked = self.children@;
        proof {
            assert forall|j: int|
                0 <= j < marked.len() && restarted_by(
                    *old(self),
                    child_index,
                    current_time,
                    normal_exit,
                    j,
                ) implies (#[trigger] marked[j]).spec_restart_count() < u32::MAX by {
                assert(old(self).spec_children()[j].spec_restart_count() < u32::MAX);
                assert(old(self).spec_children()[j] == cs[j]);
                if j != child_index {
                    assert(marked[j] == cs[j]);
                }
            }
        }
        let n = self.children.len();
        let decision = self.strategy.decide(child_index, n, current_time);
        match decision {
            RestartDecision::Restart(indices) => {
                let ghost ix = indices@;
                let ghost strat = self.strategy;
                proof {
                    lemma_decision_distinct(old(self).strategy, child_index, n as int, current_time);
                }
                let mut k: usize = 0;
                while k < indices.len()
                    invariant
                        k <= indices@.len(),
                        ix == indices@,
                        distinct(ix),
                        self.strategy == strat,
                        self.id == old(self).id,
                        self.name == old(self).name,
                        self.children_specs == old(self).children_specs,
                        self.status == old(self).status,
                        self.shutdown_order == old(self).shutdown_order,
                        self.children@.len() == n,
                        marked.len() == n,
                        forall|j: int|
                            0 <= j < n && ix.contains(j as usize) ==> (#[trigger] marked[j]).spec_restart_count()
                                < u32::MAX,
                        forall|j: int|
                            0 <= j < n ==> if ix.take(k as int).contains(j as usize) {
                                InfansCurrens::restarted(marked[j], #[trigger] self.children@[j], current_time)
                            } else {
                                self.children@[j] == marked[j]
                            },
                    decreases indices@.len() - k,
                {
                    let j = indices[k];
                    proof {
                        assert(ix.take(k + 1) =~= ix.take(k as int).push(j));
                        if ix.take(k as int).contains(j) {
                            let a = choose|a: int| 0 <= a < k && #[trigger] ix.take(k as int)[a] == j;
                            assert(ix[a] == ix[k as int]);
                        }
                    }
                    let ghost prev = self.children@;
                    if j < self.children.len() {
                        self.children[j].record_restart(current_time);
                    }
                    proof {
                        assert forall|m: int| #![trigger self.children@[m]] 0 <= m < n && m != j as int implies ix.take(k + 1).contains(
                            m as usize,
                        ) == ix.take(k as int).contains(m as usize) by {
                            if ix.take(k + 1).contains(m as usize) {
                                let a = choose|a: int| 0 <= a < k + 1 && #[trigger] ix.take(k + 1)[a] == m as usize;
                                assert(ix.take(k as int)[a] == m as usize);
                            }
                            if ix.take(k as int).contains(m as usize) {
                                let a = choose|a: int| 0 <= a < k && #[trigger] ix.take(k as int)[a] == m as usize;
                                assert(ix.take(k + 1)[a] == m as usize);
                            }
                        }
                        assert(ix.take(k + 1)[k as int] == j);
                    }
                    k = k + 1;
                }
                proof {
                    assert(ix.take(ix.len() as int) =~= ix);
                    assert(decision_of(old(self).spec_strategy(), child_index, cs.len() as int, current_time) == Some(ix));
                    assert(strategy_step(old(self).spec_strategy(), self.spec_strategy(), current_time));
                    assert(self.spec_specs() == old(self).spec_specs());
                    assert(self.spec_status() == old(self).spec_status());
                    assert forall|j: int| 0 <= j < cs.len() implies if ix.contains(j as usize) {
                        InfansCurrens::restarted(cs[j], #[trigger] self.spec_children()[j], current_time)
                    } else if j == child_index {
                        InfansCurrens::with_status(cs[j], self.spec_children()[j], StatusInfantis::Defectus)
                    } else {
                        self.spec_children()[j] == cs[j]
                    } by {
                        if j != child_index {
                            assert(marked[j] == cs[j]);
                        }
                    }
                }
                Ok(ActioRestitutio::Restituere)
            },
            RestartDecision::Escalate => {
                let child = &self.children[child_index];
                let window_secs = match self.strategy.window_secs() {
                    Some(w) => w,
                    None => 60,
                };
                Err(
                    SupervisioError::IntensitasExcedit {
                        child_id: child.spec().id().to_owned(),
                        restarts: child.restart_count(),
                        window_secs,
                    },
                )
            },
            RestartDecision::Terminate => {
                self.status = StatusArbor::Terminans;
                Ok(ActioRestitutio::Terminare)
            },
            RestartDecision::Ignore => Ok(ActioRestitutio::Ignorare),
        }
    }

    /// The child indices in shutdown order: start order for `Primus` and
    /// `Simul`, reverse start order for `Ultimus`.
    pub fn shutdown_indices(&self) -> (r: Vec<usize>)
        ensures
            r@.len() == self.spec_children().len(),
            forall|k: int|
                0 <= k < r@.len() ==> #[trigger] r@[k] == match self.spec_order() {
                    OrdoTerminatio::Ultimus => (self.spec_children().len() - 1 - k) as usize,
                    _ => k as usize,
                },
    {
        let count = self.children.len();
        let mut v: Vec<usize> = Vec::new();
        let mut k: usize = 0;
        while k < count
            invariant
                count == self.spec_children().len(),
                k <= count,
                v@.len() == k,
                forall|a: int|
                    0 <= a < k ==> #[trigger] v@[a] == match self.spec_order() {
                        OrdoTerminatio::Ultimus => (count - 1 - a) as usize,
                        _ => a as usize,
                    },
            decreases count - k,
        {
            let x = match self.shutdown_order {
                OrdoTerminatio::Ultimus => count - 1 - k,
                _ => k,
            };
            v.push(x);
            k = k + 1;
        }
        v
    }

    /// Mark child `index` as running; an index out of range changes
    /// nothing.
    pub fn mark_child_running(&mut self, index: usize)
        ensures
            Self::children_marked(*old(self), *final(self), index, StatusInfantis::Currens),
    {
        if index < self.children.len() {
            self.children[index].mark_running();
        }
    }

    /// Mark child `index` as terminated; an index out of range changes
    /// nothing.
    pub fn mark_child_terminated(&mut self, index: usize)
        ensures
            Self::children_marked(*old(self), *final(self), index, StatusInfantis::Terminatus),
    {
        if index < self.children.len() {
            self.children[index].mark_terminated();
        }
    }

    /// Whether `after` is `before` with child `index` (if in range) given
    /// status `status`, and nothing else changed.
    pub open spec fn children_marked(before: Self, after: Self, index: usize, status: StatusInfantis) -> bool {
        &&& after.spec_id() == before.spec_id()
        &&& after.spec_name() == before.spec_name()
        &&& after.spec_strategy() == before.spec_strategy()
        &&& after.spec_specs() == before.spec_specs()
        &&& after.spec_status() == before.spec_status()
        &&& after.spec_order() == before.spec_order()
        &&& only_changed(before.spec_children(), after.spec_children(), index as int)
        &&& index < before.spec_children().len() ==> InfansCurrens::with_status(
            before.spec_children()[index as int],
            after.spec_children()[index as int],
            status,
        )
    }

    /// Whether every child is running.
    pub fn all_children_running(&self) -> (r: bool)
        ensures
            r == forall|j: int|
                0 <= j < self.spec_children().len() ==> (#[trigger] self.spec_children()[j]).spec_status()
                    == StatusInfantis::Currens,
    {
        self.all_children_in(StatusInfantis::Currens)
    }

    /// Whether every child is terminated.
    pub fn all_children_terminated(&self) -> (r: bool)
        ensures
            r == forall|j: int|
                0 <= j < self.spec_children().len() ==> (#[trigger] self.spec_children()[j]).spec_status()
                    == StatusInfantis::Terminatus,
    {
        self.all_children_in(StatusInfantis::Terminatus)
    }

    fn all_children_in(&self, status: StatusInfantis) -> (r: bool)
        ensures
            r == forall|j: int|
                0 <= j < self.spec_children().len() ==> (#[trigger] self.spec_children()[j]).spec_status()
                    == status,
    {
        let mut k: usize = 0;
        while k < self.children.len()
            invariant
                k <= self.children@.len(),
                forall|j: int| 0 <= j < k ==> (#[trigger] self.children@[j]).spec_status() == status,
            decreases self.children@.len() - k,
        {
            if self.children[k].status() != status {
                return false;
            }
            k = k + 1;
        }
        true
    }

    /// How many children are in each status.
    pub fn status_summary(&self) -> (r: ArborSummary)
        ensures
            r.total == self.spec_children().len(),
            r.running == count_status(self.spec_children(), StatusInfantis::Currens),
            r.failed == count_status(self.spec_children(), StatusInfantis::Defectus),
            r.restarting == count_status(self.spec_children(), StatusInfantis::Restituens),
            r.terminated == count_status(self.spec_children(), StatusInfantis::Terminatus),
    {
        let ghost cs = self.children@;
        let mut running: usize = 0;
        let mut failed: usize = 0;
        let mut restarting: usize = 0;
        let mut terminated: usize = 0;
        let mut k: usize = 0;
        while k < self.children.len()
            invariant
                cs == self.children@,
                k <= cs.len(),
                running == count_status(cs.take(k as int), StatusInfantis::Currens),
                failed == count_status(cs.take(k as int), StatusInfantis::Defectus),
                restarting == count_status(cs.take(k as int), StatusInfantis::Restituens),
                terminated == count_status(cs.take(k as int), StatusInfantis::Terminatus),
                running <= k && failed <= k && restarting <= k && terminated <= k,
            decreases cs.len() - k,
        {
            proof {
                lemma_filter_take_step(cs, status_is(StatusInfantis::Currens), k as int);
                lemma_filter_take_step(cs, status_is(StatusInfantis::Defectus), k as int);
                lemma_filter_take_step(cs, status_is(StatusInfantis::Restituens), k as int);
                lemma_filter_take_step(cs, status_is(StatusInfantis::Terminatus), k as int);
            }
            match self.children[k].status() {
                StatusInfantis::Currens => running = running + 1,
                StatusInfantis::Defectus => failed = failed + 1,
                StatusInfantis::Restituens => restarting = restarting + 1,
                StatusInfantis::Terminatus => terminated = terminated + 1,
                StatusInfantis::Incipiens => {},
            }
            k = k + 1;
        }
        proof {
            assert(cs.take(cs.len() as int) =~= cs);
        }
        ArborSummary { total: self.children.len(), running, failed, restarting, terminated }
    }
}

/// The predicate "has status `s`".
pub open spec fn status_is(s: StatusInfantis) -> spec_fn(InfansCurrens) -> bool {
    |c: InfansCurrens| c.spec_status() == s
}

/// How many of `cs` have status `s`.
pub open spec fn count_status(cs: Seq<InfansCurrens>, s: StatusInfantis) -> nat {
    cs.filter(status_is(s)).len()
}

/// How many children of a tree are in each status.
#[derive(Debug, Clone, Copy)]
pub struct ArborSummary {
    /// Number of children.
    pub total: usize,
    /// Number of running children.
    pub running: usize,
    /// Number of failed children.
    pub failed: usize,
    /// Number of restarting children.
    pub restarting: usize,
    /// Number of terminated children.
    pub terminated: usize,
}

impl ArborSummary {
    /// Whether all children are running and none failed.
    pub fn is_healthy(&self) -> (r: bool)
        ensures
            r == (self.running == self.total && self.failed == 0),
    {
        self.running == self.total && self.failed == 0
    }
}

impl Default for ArborSummary {
    /// All counts zero.
    fn default() -> (r: Self)
        ensures
            r.total == 0 && r.running == 0 && r.failed == 0 && r.restarting == 0 && r.terminated
                == 0,
    {
        ArborSummary { total: 0, running: 0, failed: 0, restarting: 0, terminated: 0 }
    }
}

/// Builder for supervision trees.
pub struct ArborBuilder {
    arbor: Arbor,
}

impl ArborBuilder {
    /// The tree under construction.
    pub closed spec fn spec_arbor(&self) -> Arbor {
        self.arbor
    }

    /// Start building a tree named `name` with identifier `id`.
    pub fn new(name: &str, id: ArborId) -> (r: Self)
        ensures
            r.spec_arbor().spec_id() == id,
            r.spec_arbor().spec_name() == name@,
            r.spec_arbor().spec_strategy() matches StrategiaSupervisionis::UnusProUno { intensity }
                && intensity@ == (3u32, 60u64, Seq::<u64>::empty()),
            r.spec_arbor().spec_specs() == Seq::<InfansSpec>::empty(),
            r.spec_arbor().spec_children() == Seq::<InfansCurrens>::empty(),
            r.spec_arbor().spec_status() == StatusArbor::Initians,
            r.spec_arbor().spec_order() == OrdoTerminatio::Primus,
    {
        ArborBuilder { arbor: Arbor::new(name, id) }
    }

    /// Use strategy `strategy`.
    pub fn strategy(self, strategy: StrategiaSupervisionis) -> (r: Self)
        ensures
            r.spec_arbor().spec_strategy() == strategy,
            r.spec_arbor().spec_id() == self.spec_arbor().spec_id(),
            r.spec_arbor().spec_name() == self.spec_arbor().spec_name(),
            r.spec_arbor().spec_specs() == self.spec_arbor().spec_specs(),
            r.spec_arbor().spec_children() == self.spec_arbor().spec_children(),
            r.spec_arbor().spec_status() == self.spec_arbor().spec_status(),
            r.spec_arbor().spec_order() == self.spec_arbor().spec_order(),
    {
        ArborBuilder { arbor: self.arbor.with_strategy(strategy) }
    }

    /// Use shutdown order `order`.
    pub fn shutdown_order(self, order: OrdoTerminatio) -> (r: Self)
        ensures
            r.spec_arbor().spec_order() == order,
            r.spec_arbor().spec_id() == self.spec_arbor().spec_id(),
            r.spec_arbor().spec_name() == self.spec_arbor().spec_name(),
            r.spec_arbor().spec_strategy() == self.spec_arbor().spec_strategy(),
            r.spec_arbor().spec_specs() == self.spec_arbor().spec_specs(),
            r.spec_arbor().spec_children() == self.spec_arbor().spec_children(),
            r.spec_arbor().spec_status() == self.spec_arbor().spec_status(),
    {
        ArborBuilder { arbor: self.arbor.with_shutdown_order(order) }
    }

    /// Add a worker child with identifier `id`.
    pub fn worker(self, id: &str) -> (r: Self)
        ensures
            r.spec_arbor().spec_specs().len() == self.spec_arbor().spec_specs().len() + 1,
            r.spec_arbor().spec_specs().drop_last() == self.spec_arbor().spec_specs(),
            r.spec_arbor().spec_specs().last().spec_id() == id@,
            r.spec_arbor().spec_specs().last().spec_genus() == super::GenusInfantis::Operarius,
            r.spec_arbor().spec_strategy() == self.spec_arbor().spec_strategy(),
            r.spec_arbor().spec_order() == self.spec_arbor().spec_order(),
            r.spec_arbor().spec_name() == self.spec_arbor().spec_name(),
    {
        let r = ArborBuilder { arbor: self.arbor.add_child(InfansSpec::worker(id)) };
        assert(r.arbor.children_specs@.drop_last() =~= self.arbor.children_specs@);
        r
    }

    /// Add a supervisor child with identifier `id`.
    pub fn supervisor(self, id: &str) -> (r: Self)
        ensures
            r.spec_arbor().spec_specs().len() == self.spec_arbor().spec_specs().len() + 1,
            r.spec_arbor().spec_specs().drop_last() == self.spec_arbor().spec_specs(),
            r.spec_arbor().spec_specs().last().spec_id() == id@,
            r.spec_arbor().spec_specs().last().spec_genus() == super::GenusInfantis::Supervisor,
            r.spec_arbor().spec_strategy() == self.spec_arbor().spec_strategy(),
            r.spec_arbor().spec_order() == self.spec_arbor().spec_order(),
            r.spec_arbor().spec_name() == self.spec_arbor().spec_name(),
    {
        let r = ArborBuilder { arbor: self.arbor.add_child(InfansSpec::supervisor(id)) };
        assert(r.arbor.children_specs@.drop_last() =~= self.arbor.children_specs@);
        r
    }

    /// Add a child of specification `spec`.
    pub fn child(self, spec: InfansSpec) -> (r: Self)
        ensures
            r.spec_arbor().spec_specs() == self.spec_arbor().spec_specs().push(spec),
            r.spec_arbor().spec_strategy() == self.spec_arbor().spec_strategy(),
            r.spec_arbor().spec_order() == self.spec_arbor().spec_order(),
            r.spec_arbor().spec_name() == self.spec_arbor().spec_name(),
    {
        ArborBuilder { arbor: self.arbor.add_child(spec) }
    }

    /// The tree.
    pub fn build(self) -> (r: Arbor)
        ensures
            r == self.spec_arbor(),
    {
        self.arbor
    }
}

} // verus!
