//! Child specifications and the state of running children.

use core::marker::PhantomData;
use core::time::Duration;
use vstd::prelude::*;

use super::strategia::{duration_from_secs, duration_secs, ModusRestitutio};
use super::StatusInfantis;

verus! {

/// Default start priority for worker children (lower starts earlier).
pub const DEFAULT_WORKER_PRIORITY: u32 = 100;

/// Default start priority for supervisor children (lower starts earlier).
pub const DEFAULT_SUPERVISOR_PRIORITY: u32 = 50;

/// Type of supervised child.
#[derive(Debug, Clone, Copy, PartialEq, Eq, Structural)]
pub enum GenusInfantis {
    /// A worker that does the actual work.
    Operarius,
    /// A supervisor that manages other children.
    Supervisor,
}

/// Specification of a supervised child: how it is started, stopped and
/// restarted.
pub struct InfansSpec {
    id: String,
    genus: GenusInfantis,
    modus: ModusRestitutio,
    shutdown_timeout: Duration,
    priority: u32,
}

impl Clone for InfansSpec {
    /// A field-by-field copy.
    fn clone(&self) -> (r: Self)
        ensures
            r == *self,
    {
        InfansSpec {
            id: self.id.clone(),
            genus: self.genus,
            modus: self.modus,
            shutdown_timeout: self.shutdown_timeout,
            priority: self.priority,
        }
    }
}

impl InfansSpec {
    /// The identifier of this child.
    pub closed spec fn spec_id(&self) -> Seq<char> {
        self.id@
    }

    /// The kind of this child.
    pub closed spec fn spec_genus(&self) -> GenusInfantis {
        self.genus
    }

    /// The restart mode of this child.
    pub closed spec fn spec_modus(&self) -> ModusRestitutio {
        self.modus
    }

    /// The shutdown timeout of this child.
    pub closed spec fn spec_timeout(&self) -> Duration {
        self.shutdown_timeout
    }

    /// The start priority of this child (lower starts earlier).
    pub closed spec fn spec_priority(&self) -> u32 {
        self.priority
    }

    /// A worker: a leaf that does actual work. It restarts permanently,
    /// has a shutdown timeout of five seconds and priority 100.
    pub fn worker(id: &str) -> (r: Self)
        ensures
            r.spec_id() == id@,
            r.spec_genus() == GenusInfantis::Operarius,
            r.spec_modus() == ModusRestitutio::Permanens,
            duration_secs(r.spec_timeout()) == 5,
            r.spec_priority() == DEFAULT_WORKER_PRIORITY,
    {
        InfansSpec {
            id: id.to_owned(),
            genus: GenusInfantis::Operarius,
            modus: ModusRestitutio::Permanens,
            shutdown_timeout: duration_from_secs(5),
            priority: DEFAULT_WORKER_PRIORITY,
        }
    }

    /// A supervisor child: manages other children. It restarts permanently,
    /// has a shutdown timeout of thirty seconds and priority 50.
    pub fn supervisor(id: &str) -> (r: Self)
        ensures
            r.spec_id() == id@,
            r.spec_genus() == GenusInfantis::Supervisor,
            r.spec_modus() == ModusRestitutio::Permanens,
            duration_secs(r.spec_timeout()) == 30,
            r.spec_priority() == DEFAULT_SUPERVISOR_PRIORITY,
    {
        InfansSpec {
            id: id.to_owned(),
            genus: GenusInfantis::Supervisor,
            modus: ModusRestitutio::Permanens,
            shutdown_timeout: duration_from_secs(30),
            priority: DEFAULT_SUPERVISOR_PRIORITY,
        }
    }

    /// The same specification with restart mode `modus`.
    pub fn with_modus(self, modus: ModusRestitutio) -> (r: Self)
        ensures
            r.spec_modus() == modus,
            r.spec_id() == self.spec_id(),
            r.spec_genus() == self.spec_genus(),
            r.spec_timeout() == self.spec_timeout(),
            r.spec_priority() == self.spec_priority(),
    {
        InfansSpec { modus, ..self }
    }

    /// The same specification with shutdown timeout `timeout`.
    pub fn with_shutdown_timeout(self, timeout: Duration) -> (r: Self)
        ensures
            r.spec_timeout() == timeout,
            r.spec_id() == self.spec_id(),
            r.spec_genus() == self.spec_genus(),
            r.spec_modus() == self.spec_modus(),
            r.spec_priority() == self.spec_priority(),
    {
        InfansSpec { shutdown_timeout: timeout, ..self }
    }

    /// The same specification with start priority `priority`.
    pub fn with_priority(self, priority: u32) -> (r: Self)
        ensures
            r.spec_priority() == priority,
            r.spec_id() == self.spec_id(),
            r.spec_genus() == self.spec_genus(),
            r.spec_modus() == self.spec_modus(),
            r.spec_timeout() == self.spec_timeout(),
    {
        InfansSpec { priority, ..self }
    }

    /// The child identifier.
    pub fn id(&self) -> (r: &str)
        ensures
            r@ == self.spec_id(),
    {
        self.id.as_str()
    }

    /// The kind of child.
    pub fn genus(&self) -> (r: GenusInfantis)
        ensures
            r == self.spec_genus(),
    {
        self.genus
    }

    /// The restart mode.
    pub fn modus(&self) -> (r: ModusRestitutio)
        ensures
            r == self.spec_modus(),
    {
        self.modus
    }

    /// The shutdown timeout.
    pub fn shutdown_timeout(&self) -> (r: Duration)
        ensures
            r == self.spec_timeout(),
    {
        self.shutdown_timeout
    }

    /// The start priority.
    pub fn priority(&self) -> (r: u32)
        ensures
            r == self.spec_priority(),
    {
        self.priority
    }
}

/// State of a running supervised child.
pub struct InfansCurrens {
    spec: InfansSpec,
    status: StatusInfantis,
    restart_count: u32,
    last_restart_time: Option<u64>,
}

impl InfansCurrens {
    /// The specification this child runs.
    pub closed spec fn spec_spec(&self) -> InfansSpec {
        self.spec
    }

    /// The current status.
    pub closed spec fn spec_status(&self) -> StatusInfantis {
        self.status
    }

    /// The number of restarts so far.
    pub closed spec fn spec_restart_count(&self) -> u32 {
        self.restart_count
    }

    /// The time of the last restart, if any (Unix epoch seconds).
    pub closed spec fn spec_last_restart(&self) -> Option<u64> {
        self.last_restart_time
    }

    /// Whether this is a child just created from `spec`: starting, never
    /// restarted.
    pub open spec fn is_fresh(&self, spec: InfansSpec) -> bool {
        &&& self.spec_spec() == spec
        &&& self.spec_status() == StatusInfantis::Incipiens
        &&& self.spec_restart_count() == 0
        &&& self.spec_last_restart() is None
    }

    /// Whether `after` is `before` with only the status changed to `status`.
    pub open spec fn with_status(before: Self, after: Self, status: StatusInfantis) -> bool {
        &&& after.spec_spec() == before.spec_spec()
        &&& after.spec_status() == status
        &&& after.spec_restart_count() == before.spec_restart_count()
        &&& after.spec_last_restart() == before.spec_last_restart()
    }

    /// Whether `after` is `before` after a restart recorded at `time`.
    pub open spec fn restarted(before: Self, after: Self, time: u64) -> bool {
        &&& after.spec_spec() == before.spec_spec()
        &&& after.spec_status() == StatusInfantis::Restituens
        &&& after.spec_restart_count() == before.spec_restart_count() + 1
        &&& after.spec_last_restart() == Some(time)
    }

    /// A starting child for `spec`.
    pub fn new(spec: InfansSpec) -> (r: Self)
        ensures
            r.is_fresh(spec),
    {
        InfansCurrens {
            spec,
            status: StatusInfantis::Incipiens,
            restart_count: 0,
            last_restart_time: None,
        }
    }

    /// The child specification.
    pub fn spec(&self) -> (r: &InfansSpec)
        ensures
            *r == self.spec_spec(),
    {
        &self.spec
    }

    /// The current status.
    pub fn status(&self) -> (r: StatusInfantis)
        ensures
            r == self.spec_status(),
    {
        self.status
    }

    /// Set the current status.
    pub fn set_status(&mut self, status: StatusInfantis)
        ensures
            Self::with_status(*old(self), *final(self), status),
    {
        self.status = status;
    }

    /// The number of restarts.
    pub fn restart_count(&self) -> (r: u32)
        ensures
            r == self.spec_restart_count(),
    {
        self.restart_count
    }

    /// Record a restart at `time`: one more restart, this time as the last,
    /// status restarting.
    pub fn record_restart(&mut self, time: u64)
        requires
            old(self).spec_restart_count() < u32::MAX,
        ensures
            Self::restarted(*old(self), *final(self), time),
    {
        self.restart_count = self.restart_count + 1;
        self.last_restart_time = Some(time);
        self.status = StatusInfantis::Restituens;
    }

    /// Mark as running.
    pub fn mark_running(&mut self)
        ensures
            Self::with_status(*old(self), *final(self), StatusInfantis::Currens),
    {
        self.status = StatusInfantis::Currens;
    }

    /// Mark as failed.
    pub fn mark_failed(&mut self)
        ensures
            Self::with_status(*old(self), *final(self), StatusInfantis::Defectus),
    {
        self.status = StatusInfantis::Defectus;
    }

    /// Mark as terminated.
    pub fn mark_terminated(&mut self)
        ensures
            Self::with_status(*old(self), *final(self), StatusInfantis::Terminatus),
    {
        self.status = StatusInfantis::Terminatus;
    }
}

/// Handle to a running child whose output has type `T`.
pub struct ManubriumInfantis<T> {
    spec: InfansSpec,
    _marker: PhantomData<T>,
}

impl<T> ManubriumInfantis<T> {
    /// The specification of the child behind this handle.
    pub closed spec fn spec_spec(&self) -> InfansSpec {
        self.spec
    }

    /// A handle to a child of specification `spec`.
    pub fn new(spec: InfansSpec) -> (r: Self)
        ensures
            r.spec_spec() == spec,
    {
        ManubriumInfantis { spec, _marker: PhantomData }
    }

    /// The child specification.
    pub fn spec(&self) -> (r: &InfansSpec)
        ensures
            *r == self.spec_spec(),
    {
        &self.spec
    }
}

} // verus!
