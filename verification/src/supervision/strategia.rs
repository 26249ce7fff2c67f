//! Restart strategies: intensity tracking over a sliding time window and
//! the decision of which children to restart.

use core::time::Duration;
use vstd::prelude::*;

verus! {

/// The name of what `Duration::as_secs` returns for a duration.
pub uninterp spec fn duration_secs(d: Duration) -> u64;

/// `Duration::as_secs`: the whole seconds of `d`, named `duration_secs(d)`.
#[verifier::external_body]
fn duration_as_secs(d: Duration) -> (r: u64)
    ensures
        r == duration_secs(d),
{
    d.as_secs()
}

/// `Duration::from_secs`: a duration of `secs` whole seconds. Its
/// documentation states that `as_secs` gives `secs` back, which the contract
/// claims; what else the value holds (its sub-second part, zero) is not
/// stated.
#[verifier::external_body]
pub(crate) fn duration_from_secs(secs: u64) -> (d: Duration)
    ensures
        duration_secs(d) == secs,
{
    Duration::from_secs(secs)
}

/// The earliest restart time that still counts at `now` for a window of
/// `window` seconds (the subtraction saturates at zero).
pub open spec fn cutoff(now: u64, window: u64) -> u64 {
    if now >= window {
        (now - window) as u64
    } else {
        0
    }
}

/// The restart times that are not older than `cutoff`, in their order.
pub open spec fn retained(times: Seq<u64>, cutoff: u64) -> Seq<u64> {
    times.filter(|t: u64| t >= cutoff)
}

/// Abstract state of a restart tracker: the limit, the window in seconds,
/// and the recorded restart times.
pub type IntensitasVisa = (u32, u64, Seq<u64>);

/// Whether a tracker in state `v` admits a restart at `now`.
pub open spec fn admits(v: IntensitasVisa, now: u64) -> bool {
    retained(v.2, cutoff(now, v.1)).len() < v.0
}

/// The state of a tracker in state `v` after a restart attempt at `now`:
/// times outside the window are dropped, and `now` is added when admitted.
pub open spec fn recorded(v: IntensitasVisa, now: u64) -> IntensitasVisa {
    let kept = retained(v.2, cutoff(now, v.1));
    if kept.len() < v.0 {
        (v.0, v.1, kept.push(now))
    } else {
        (v.0, v.1, kept)
    }
}

proof fn lemma_retained_step(s: Seq<u64>, c: u64, i: int)
    requires
        0 <= i < s.len(),
    ensures
        retained(s.take(i + 1), c) == if s[i] >= c {
            retained(s.take(i), c).push(s[i])
        } else {
            retained(s.take(i), c)
        },
{
    reveal(Seq::filter);
    assert(s.take(i + 1).drop_last() =~= s.take(i));
}

proof fn lemma_retained_len(s: Seq<u64>, c: u64)
    ensures
        retained(s, c).len() <= s.len(),
{
    s.lemma_filter_len(|t: u64| t >= c);
}

/// Tracks restart attempts within a sliding time window.
#[derive(Debug, Clone)]
pub struct IntensitasRestitutio {
    max_restarts: u32,
    window_secs: u64,
    restart_times: Vec<u64>,
}

impl View for IntensitasRestitutio {
    type V = IntensitasVisa;

    /// The limit, the window and the recorded restart times.
    closed spec fn view(&self) -> IntensitasVisa {
        (self.max_restarts, self.window_secs, self.restart_times@)
    }
}

impl IntensitasRestitutio {
    /// A tracker that allows `max_restarts` restarts per `window_secs`
    /// seconds, with no restart recorded yet.
    pub fn new(max_restarts: u32, window_secs: u64) -> (r: Self)
        ensures
            r@ == (max_restarts, window_secs, Seq::<u64>::empty()),
    {
        IntensitasRestitutio { max_restarts, window_secs, restart_times: Vec::new() }
    }

    /// Record a restart at `current_time`: forget the restarts older than
    /// the window, then admit this one exactly when fewer than the limit
    /// remain. Returns whether the restart is allowed.
    pub fn record_restart(&mut self, current_time: u64) -> (r: bool)
        ensures
            r == admits(old(self)@, current_time),
            final(self)@ == recorded(old(self)@, current_time),
            final(self)@.2.len() <= old(self)@.2.len() + 1,
            old(self)@.2.len() <= old(self)@.0 ==> final(self)@.2.len() <= final(self)@.0,
    {
        let cut = current_time.saturating_sub(self.window_secs);
        let ghost times = self.restart_times@;
        let mut kept: Vec<u64> = Vec::new();
        let mut i: usize = 0;
        while i < self.restart_times.len()
            invariant
                i <= self.restart_times.len(),
                self.restart_times@ == times,
                cut == cutoff(current_time, self.window_secs),
                kept@ == retained(times.take(i as int), cut),
            decreases self.restart_times.len() - i,
        {
            proof {
                lemma_retained_step(times, cut, i as int);
            }
            let t = self.restart_times[i];
            if t >= cut {
                kept.push(t);
            }
            i = i + 1;
        }
        proof {
            assert(times.take(times.len() as int) =~= times);
            lemma_retained_len(times, cut);
        }
        if kept.len() >= self.max_restarts as usize {
            self.restart_times = kept;
            return false;
        }
        kept.push(current_time);
        self.restart_times = kept;
        true
    }

    /// The number of restarts recorded in the window.
    pub fn current_count(&self) -> (r: usize)
        ensures
            r == self@.2.len(),
    {
        self.restart_times.len()
    }

    /// The configured window, in seconds.
    pub fn window_secs(&self) -> (r: u64)
        ensures
            r == self@.1,
    {
        self.window_secs
    }

    /// Forget all recorded restarts.
    pub fn reset(&mut self)
        ensures
            final(self)@ == (old(self)@.0, old(self)@.1, Seq::<u64>::empty()),
    {
        self.restart_times = Vec::new();
    }
}

impl Default for IntensitasRestitutio {
    /// Three restarts per sixty seconds.
    fn default() -> (r: Self)
        ensures
            r@ == (3u32, 60u64, Seq::<u64>::empty()),
    {
        Self::new(3, 60)
    }
}

/// Supervision strategy for handling child failures.
#[derive(Debug, Clone)]
pub enum StrategiaSupervisionis {
    /// One-for-one: only the failed child is restarted.
    UnusProUno {
        /// Restart intensity limits.
        intensity: IntensitasRestitutio,
    },
    /// All-for-one: all children are restarted when one fails.
    OmnesProUno {
        /// Restart intensity limits.
        intensity: IntensitasRestitutio,
    },
    /// Rest-for-one: the failed child and all children after it restart.
    ReliquiProUno {
        /// Restart intensity limits.
        intensity: IntensitasRestitutio,
    },
    /// One-for-one without intensity tracking.
    Simplex,
    /// A named strategy with a countdown of restarts before escalation.
    Proprius {
        /// Name of the strategy.
        name: String,
        /// Remaining restarts before escalation; each failure uses one.
        max_restarts: u32,
    },
}

/// The indices `lo, lo + 1, ..., hi - 1` (empty when `hi <= lo`).
pub open spec fn index_range(lo: int, hi: int) -> Seq<usize> {
    Seq::new(if hi > lo { (hi - lo) as nat } else { 0 }, |k: int| (lo + k) as usize)
}

/// Which children a strategy in state `s` restarts when child `failed` of
/// `total` fails at `now`: `Some(indices)`, or `None` for escalation.
pub open spec fn decision_of(s: StrategiaSupervisionis, failed: usize, total: int, now: u64) -> Option<Seq<usize>> {
    match s {
        StrategiaSupervisionis::UnusProUno { intensity } => if admits(intensity@, now) {
            Some(seq![failed])
        } else {
            None
        },
        StrategiaSupervisionis::OmnesProUno { intensity } => if admits(intensity@, now) {
            Some(index_range(0, total))
        } else {
            None
        },
        StrategiaSupervisionis::ReliquiProUno { intensity } => if admits(intensity@, now) {
            Some(index_range(failed as int, total))
        } else {
            None
        },
        StrategiaSupervisionis::Simplex => Some(seq![failed]),
        StrategiaSupervisionis::Proprius { max_restarts, .. } => if max_restarts > 0 {
            Some(seq![failed])
        } else {
            None
        },
    }
}

/// How a strategy's state moves from `before` to `after` when a failure is
/// decided at `now`: trackers record the attempt, a countdown uses one
/// restart, and the variant and name stay.
pub open spec fn strategy_step(before: StrategiaSupervisionis, after: StrategiaSupervisionis, now: u64) -> bool {
    match before {
        StrategiaSupervisionis::UnusProUno { intensity: a } => match after {
            StrategiaSupervisionis::UnusProUno { intensity: b } => b@ == recorded(a@, now),
            _ => false,
        },
        StrategiaSupervisionis::OmnesProUno { intensity: a } => match after {
            StrategiaSupervisionis::OmnesProUno { intensity: b } => b@ == recorded(a@, now),
            _ => false,
        },
        StrategiaSupervisionis::ReliquiProUno { intensity: a } => match after {
            StrategiaSupervisionis::ReliquiProUno { intensity: b } => b@ == recorded(a@, now),
            _ => false,
        },
        StrategiaSupervisionis::Simplex => after is Simplex,
        StrategiaSupervisionis::Proprius { name: n1, max_restarts: m1 } => match after {
            StrategiaSupervisionis::Proprius { name: n2, max_restarts: m2 } => n2@ == n1@ && m2
                == if m1 > 0 {
                (m1 - 1) as u32
            } else {
                0u32
            },
            _ => false,
        },
    }
}

/// The window of a strategy that tracks intensity.
pub open spec fn strategy_window(s: StrategiaSupervisionis) -> Option<u64> {
    match s {
        StrategiaSupervisionis::UnusProUno { intensity } => Some(intensity@.1),
        StrategiaSupervisionis::OmnesProUno { intensity } => Some(intensity@.1),
        StrategiaSupervisionis::ReliquiProUno { intensity } => Some(intensity@.1),
        _ => None,
    }
}

/// The name of a strategy.
pub open spec fn strategy_name(s: StrategiaSupervisionis) -> Seq<char> {
    match s {
        StrategiaSupervisionis::UnusProUno { .. } => "UnusProUno"@,
        StrategiaSupervisionis::OmnesProUno { .. } => "OmnesProUno"@,
        StrategiaSupervisionis::ReliquiProUno { .. } => "ReliquiProUno"@,
        StrategiaSupervisionis::Simplex => "Simplex"@,
        StrategiaSupervisionis::Proprius { name, .. } => name@,
    }
}

/// Whether `d` is the decision described by `expected` (`None` = escalate).
pub open spec fn decided(d: RestartDecision, expected: Option<Seq<usize>>) -> bool {
    match d {
        RestartDecision::Restart(v) => expected is Some && v@ == expected.unwrap(),
        RestartDecision::Escalate => expected is None,
        _ => false,
    }
}

fn collect_range(lo: usize, hi: usize) -> (r: Vec<usize>)
    ensures
        r@ == index_range(lo as int, hi as int),
{
    let mut v: Vec<usize> = Vec::new();
    let mut i = lo;
    while i < hi
        invariant
            lo <= i <= hi || (i == lo && hi <= lo),
            v@ =~= index_range(lo as int, i as int),
        decreases hi - i,
    {
        v.push(i);
        i = i + 1;
    }
    assert(v@ =~= index_range(lo as int, hi as int));
    v
}

impl StrategiaSupervisionis {
    /// One-for-one: only the failed child is restarted, at most
    /// `max_restarts` times per `window` (in whole seconds).
    pub fn unus_pro_uno(max_restarts: u32, window: Duration) -> (r: Self)
        ensures
            r matches StrategiaSupervisionis::UnusProUno { intensity }
                && intensity@ == (max_restarts, duration_secs(window), Seq::<u64>::empty()),
    {
        StrategiaSupervisionis::UnusProUno {
            intensity: IntensitasRestitutio::new(max_restarts, duration_as_secs(window)),
        }
    }

    /// All-for-one: all children are restarted when one fails.
    pub fn omnes_pro_uno(max_restarts: u32, window: Duration) -> (r: Self)
        ensures
            r matches StrategiaSupervisionis::OmnesProUno { intensity }
                && intensity@ == (max_restarts, duration_secs(window), Seq::<u64>::empty()),
    {
        StrategiaSupervisionis::OmnesProUno {
            intensity: IntensitasRestitutio::new(max_restarts, duration_as_secs(window)),
        }
    }

    /// Rest-for-one: the failed child and all children after it restart.
    pub fn reliqui_pro_uno(max_restarts: u32, window: Duration) -> (r: Self)
        ensures
            r matches StrategiaSupervisionis::ReliquiProUno { intensity }
                && intensity@ == (max_restarts, duration_secs(window), Seq::<u64>::empty()),
    {
        StrategiaSupervisionis::ReliquiProUno {
            intensity: IntensitasRestitutio::new(max_restarts, duration_as_secs(window)),
        }
    }

    /// Always restart the failed child, without limits.
    pub fn simplex() -> (r: Self)
        ensures
            r is Simplex,
    {
        StrategiaSupervisionis::Simplex
    }

    /// A named strategy that allows `max_restarts` restarts in all.
    pub fn proprius(name: &str, max_restarts: u32) -> (r: Self)
        ensures
            r matches StrategiaSupervisionis::Proprius { name: n, max_restarts: m } && n@ == name@
                && m == max_restarts,
    {
        StrategiaSupervisionis::Proprius { name: name.to_owned(), max_restarts }
    }

    /// The intensity window in seconds, for the strategies that track one.
    pub fn window_secs(&self) -> (r: Option<u64>)
        ensures
            r == strategy_window(*self),
    {
        match self {
            StrategiaSupervisionis::UnusProUno { intensity } => Some(intensity.window_secs()),
            StrategiaSupervisionis::OmnesProUno { intensity } => Some(intensity.window_secs()),
            StrategiaSupervisionis::ReliquiProUno { intensity } => Some(intensity.window_secs()),
            StrategiaSupervisionis::Simplex => None,
            StrategiaSupervisionis::Proprius { .. } => None,
        }
    }

    /// The strategy name.
    pub fn name(&self) -> (r: &str)
        ensures
            r@ == strategy_name(*self),
    {
        match self {
            StrategiaSupervisionis::UnusProUno { .. } => "UnusProUno",
            StrategiaSupervisionis::OmnesProUno { .. } => "OmnesProUno",
            StrategiaSupervisionis::ReliquiProUno { .. } => "ReliquiProUno",
            StrategiaSupervisionis::Simplex => "Simplex",
            StrategiaSupervisionis::Proprius { name, .. } => name.as_str(),
        }
    }

    /// Decide what to do when child `failed_child_index` of `total_children`
    /// fails at `current_time`, recording the attempt in the strategy.
    pub fn decide(&mut self, failed_child_index: usize, total_children: usize, current_time: u64) -> (r: RestartDecision)
        ensures
            decided(r, decision_of(*old(self), failed_child_index, total_children as int, current_time)),
            strategy_step(*old(self), *final(self), current_time),
    {
        match self {
            StrategiaSupervisionis::UnusProUno { intensity } => {
                if intensity.record_restart(current_time) {
                    let v = vec![failed_child_index];
                    assert(v@ =~= seq![failed_child_index]);
                    RestartDecision::Restart(v)
                } else {
                    RestartDecision::Escalate
                }
            },
            StrategiaSupervisionis::OmnesProUno { intensity } => {
                if intensity.record_restart(current_time) {
                    RestartDecision::Restart(collect_range(0, total_children))
                } else {
                    RestartDecision::Escalate
                }
            },
            StrategiaSupervisionis::ReliquiProUno { intensity } => {
                if intensity.record_restart(current_time) {
                    RestartDecision::Restart(collect_range(failed_child_index, total_children))
                } else {
                    RestartDecision::Escalate
                }
            },
            StrategiaSupervisionis::Simplex => {
                let v = vec![failed_child_index];
                assert(v@ =~= seq![failed_child_index]);
                RestartDecision::Restart(v)
            },
            StrategiaSupervisionis::Proprius { max_restarts, .. } => {
                if *max_restarts > 0 {
                    *max_restarts = *max_restarts - 1;
                    let v = vec![failed_child_index];
                    assert(v@ =~= seq![failed_child_index]);
                    RestartDecision::Restart(v)
                } else {
                    RestartDecision::Escalate
                }
            },
        }
    }
}

impl Default for StrategiaSupervisionis {
    /// One-for-one with three restarts per minute.
    fn default() -> (r: Self)
        ensures
            r matches StrategiaSupervisionis::UnusProUno { intensity } && intensity@ == (
                3u32,
                60u64,
                Seq::<u64>::empty(),
            ),
    {
        StrategiaSupervisionis::UnusProUno { intensity: IntensitasRestitutio::new(3, 60) }
    }
}

/// The decision made by a supervision strategy.
#[derive(Debug, Clone, PartialEq, Eq)]
pub enum RestartDecision {
    /// Restart the listed children (by index).
    Restart(Vec<usize>),
    /// Escalate to the parent supervisor.
    Escalate,
    /// Terminate the supervisor.
    Terminate,
    /// Ignore the failure.
    Ignore,
}

impl RestartDecision {
    /// Whether this decision restarts children.
    pub fn is_restart(&self) -> (r: bool)
        ensures
            r == (*self is Restart),
    {
        match self {
            RestartDecision::Restart(_) => true,
            _ => false,
        }
    }

    /// Whether this decision escalates.
    pub fn is_escalate(&self) -> (r: bool)
        ensures
            r == (*self is Escalate),
    {
        match self {
            RestartDecision::Escalate => true,
            _ => false,
        }
    }

    /// The children to restart, if this decision restarts any.
    pub fn children_to_restart(&self) -> (r: Option<&[usize]>)
        ensures
            match *self {
                RestartDecision::Restart(v) => r matches Some(s) && s@ == v@,
                _ => r is None,
            },
    {
        match self {
            RestartDecision::Restart(children) => Some(children.as_slice()),
            _ => None,
        }
    }
}

/// How a child is restarted when it terminates.
#[derive(Debug, Clone, Copy, PartialEq, Eq, Structural)]
pub enum ModusRestitutio {
    /// Always restart.
    Permanens,
    /// Restart only after an abnormal exit.
    Transiens,
    /// Never restart.
    Temporarius,
}

/// Whether a child of mode `m` is restarted after an exit that was normal
/// or not.
pub open spec fn restarts_after(m: ModusRestitutio, normal_exit: bool) -> bool {
    match m {
        ModusRestitutio::Permanens => true,
        ModusRestitutio::Transiens => !normal_exit,
        ModusRestitutio::Temporarius => false,
    }
}

impl ModusRestitutio {
    /// Whether a restart is needed after an exit that was normal or not.
    pub fn should_restart(&self, normal_exit: bool) -> (r: bool)
        ensures
            r == restarts_after(*self, normal_exit),
    {
        match self {
            ModusRestitutio::Permanens => true,
            ModusRestitutio::Transiens => !normal_exit,
            ModusRestitutio::Temporarius => false,
        }
    }
}

impl Default for ModusRestitutio {
    /// Permanent.
    fn default() -> (r: Self)
        ensures
            r == ModusRestitutio::Permanens,
    {
        ModusRestitutio::Permanens
    }
}

/// Order in which children are shut down.
#[derive(Debug, Clone, Copy, PartialEq, Eq, Structural)]
pub enum OrdoTerminatio {
    /// In start order.
    Primus,
    /// In reverse start order.
    Ultimus,
    /// All at once.
    Simul,
}

impl Default for OrdoTerminatio {
    /// In start order.
    fn default() -> (r: Self)
        ensures
            r == OrdoTerminatio::Primus,
    {
        OrdoTerminatio::Primus
    }
}

/// A tracker never holds more restart times than its limit, and after an
/// attempt at `now` every time it holds lies within the window ending at
/// `now`.
pub proof fn law_intensity_bounded(v: IntensitasVisa, now: u64)
    requires
        v.2.len() <= v.0,
    ensures
        recorded(v, now).2.len() <= recorded(v, now).0,
        recorded(v, now).0 == v.0 && recorded(v, now).1 == v.1,
        forall|i: int|
            0 <= i < recorded(v, now).2.len() ==> #[trigger] recorded(v, now).2[i] >= cutoff(now, v.1),
{
    let c = cutoff(now, v.1);
    let kept = retained(v.2, c);
    lemma_retained_len(v.2, c);
    assert forall|i: int| 0 <= i < kept.len() implies #[trigger] kept[i] >= c by {
        v.2.lemma_filter_pred(|t: u64| t >= c, i);
    }
}

/// A restart is admitted exactly when fewer restarts than the limit remain
/// in the window; with a limit of zero no restart is ever admitted.
pub proof fn law_intensity_admission(v: IntensitasVisa, now: u64)
    ensures
        admits(v, now) <==> recorded(v, now).2 == retained(v.2, cutoff(now, v.1)).push(now),
        v.0 == 0 ==> !admits(v, now),
{
    let kept = retained(v.2, cutoff(now, v.1));
    if !admits(v, now) {
        assert(recorded(v, now).2.len() != kept.push(now).len());
    }
}

} // verus!
