//! Collecting trace events: the collector that discards everything, the
//! bounded in-memory archive, and the filter that decides which events a
//! collector takes.

use vstd::prelude::*;

use super::event::EventusVestigium;
use super::{Gradus, gradus_rank};

verus! {

/// A collector that discards all events.
#[derive(Debug, Clone, Copy, Default)]
pub struct CollectorNullus;

impl CollectorNullus {
    /// The collector.
    pub fn new() -> (r: Self) {
        CollectorNullus
    }

    /// Whether events of effect `effect_id` are collected: never.
    pub fn is_enabled(&self, effect_id: u64) -> (r: bool)
        ensures
            !r,
    {
        false
    }
}

/// A bounded in-memory store of events: events beyond the bound are
/// dropped and counted.
pub struct ArchivumEventuum {
    events: Vec<EventusVestigium>,
    max_events: usize,
    dropped: usize,
}

impl ArchivumEventuum {
    /// The events kept, oldest first.
    pub closed spec fn spec_events(&self) -> Seq<EventusVestigium> {
        self.events@
    }

    /// The most events kept.
    pub closed spec fn spec_max_events(&self) -> usize {
        self.max_events
    }

    /// The number of events dropped (counted modulo the `usize` range).
    pub closed spec fn spec_dropped(&self) -> usize {
        self.dropped
    }

    /// An empty store that keeps at most `max_events` events.
    pub fn new(max_events: usize) -> (r: Self)
        ensures
            r.spec_events() == Seq::<EventusVestigium>::empty(),
            r.spec_max_events() == max_events,
            r.spec_dropped() == 0,
    {
        ArchivumEventuum { events: Vec::new(), max_events, dropped: 0 }
    }

    /// Keep `event` if there is room; otherwise drop it and count it.
    pub fn record(&mut self, event: EventusVestigium)
        ensures
            final(self).spec_max_events() == old(self).spec_max_events(),
            old(self).spec_events().len() < old(self).spec_max_events() ==> final(self).spec_events()
                == old(self).spec_events().push(event) && final(self).spec_dropped()
                == old(self).spec_dropped(),
            old(self).spec_events().len() >= old(self).spec_max_events() ==> final(self).spec_events()
                == old(self).spec_events() && final(self).spec_dropped() == (if old(self).spec_dropped()
                == usize::MAX {
                0
            } else {
                old(self).spec_dropped() + 1
            }),
    {
        if self.events.len() >= self.max_events {
            self.dropped = self.dropped.wrapping_add(1);
        } else {
            self.events.push(event);
        }
    }

    /// The events kept, oldest first.
    pub fn events(&self) -> (r: &Vec<EventusVestigium>)
        ensures
            r@ == self.spec_events(),
    {
        &self.events
    }

    /// The number of events kept.
    pub fn event_count(&self) -> (r: usize)
        ensures
            r == self.spec_events().len(),
    {
        self.events.len()
    }

    /// The number of events dropped.
    pub fn dropped_count(&self) -> (r: usize)
        ensures
            r == self.spec_dropped(),
    {
        self.dropped
    }

    /// Forget every event kept and the count of those dropped.
    pub fn clear(&mut self)
        ensures
            final(self).spec_events() == Seq::<EventusVestigium>::empty(),
            final(self).spec_dropped() == 0,
            final(self).spec_max_events() == old(self).spec_max_events(),
    {
        self.events.clear();
        self.dropped = 0;
    }
}

impl Default for ArchivumEventuum {
    /// A store for ten thousand events.
    fn default() -> (r: Self)
        ensures
            r.spec_events() == Seq::<EventusVestigium>::empty(),
            r.spec_max_events() == 10000,
            r.spec_dropped() == 0,
    {
        Self::new(10000)
    }
}

/// Which events a collector takes: a minimum level, and effects to leave
/// out or (when the list is not empty) the only effects to take.
#[derive(Debug, Clone)]
pub struct FiltrumEventuum {
    /// The lowest level taken.
    pub min_level: Gradus,
    /// When not empty, the only effects taken.
    pub include_effects: Vec<u64>,
    /// Effects never taken.
    pub exclude_effects: Vec<u64>,
}

/// Whether events of effect `effect_id` pass the effect lists of `f`.
pub open spec fn effectus_admissus(f: FiltrumEventuum, effect_id: u64) -> bool {
    &&& !f.exclude_effects@.contains(effect_id)
    &&& (f.include_effects@.len() == 0 || f.include_effects@.contains(effect_id))
}

/// Whether `f` takes an event of effect `effect_id` at level `level`.
pub open spec fn eventus_admissus(f: FiltrumEventuum, level: Gradus, effect_id: u64) -> bool {
    gradus_rank(level) >= gradus_rank(f.min_level) && effectus_admissus(f, effect_id)
}

/// Whether `v` holds `x`.
fn continet(v: &Vec<u64>, x: u64) -> (r: bool)
    ensures
        r == v@.contains(x),
{
    let mut i: usize = 0;
    while i < v.len()
        invariant
            i <= v@.len(),
            forall|j: int| 0 <= j < i ==> v@[j] != x,
        decreases v@.len() - i,
    {
        if v[i] == x {
            return true;
        }
        i = i + 1;
    }
    false
}

impl FiltrumEventuum {
    /// The filter that takes every event.
    pub fn new() -> (r: Self)
        ensures
            r.min_level == Gradus::Vestigium,
            r.include_effects@ == Seq::<u64>::empty(),
            r.exclude_effects@ == Seq::<u64>::empty(),
    {
        FiltrumEventuum {
            min_level: Gradus::Vestigium,
            include_effects: Vec::new(),
            exclude_effects: Vec::new(),
        }
    }

    /// The same filter with lowest level `level`.
    pub fn with_min_level(self, level: Gradus) -> (r: Self)
        ensures
            r == (FiltrumEventuum { min_level: level, ..self }),
    {
        FiltrumEventuum { min_level: level, ..self }
    }

    /// The same filter taking only the effects in `effects` (all, when it
    /// is empty).
    pub fn include_effects(self, effects: Vec<u64>) -> (r: Self)
        ensures
            r == (FiltrumEventuum { include_effects: effects, ..self }),
    {
        FiltrumEventuum { include_effects: effects, ..self }
    }

    /// The same filter leaving out the effects in `effects`.
    pub fn exclude_effects(self, effects: Vec<u64>) -> (r: Self)
        ensures
            r == (FiltrumEventuum { exclude_effects: effects, ..self }),
    {
        FiltrumEventuum { exclude_effects: effects, ..self }
    }

    /// Whether events of effect `effect_id` pass the effect lists.
    pub fn admits_effect(&self, effect_id: u64) -> (r: bool)
        ensures
            r == effectus_admissus(*self, effect_id),
    {
        if continet(&self.exclude_effects, effect_id) {
            return false;
        }
        if self.include_effects.len() != 0 && !continet(&self.include_effects, effect_id) {
            return false;
        }
        true
    }

    /// Whether the filter takes `event`: its level is at least the lowest
    /// level taken and its effect passes the effect lists.
    pub fn should_record(&self, event: &EventusVestigium) -> (r: bool)
        ensures
            r == eventus_admissus(*self, event@.level, event@.effect_id),
    {
        if event.level().rank() < self.min_level.rank() {
            return false;
        }
        self.admits_effect(event.effect_id())
    }
}

impl Default for FiltrumEventuum {
    /// Same as `new`.
    fn default() -> (r: Self)
        ensures
            r.min_level == Gradus::Vestigium,
            r.include_effects@ == Seq::<u64>::empty(),
            r.exclude_effects@ == Seq::<u64>::empty(),
    {
        Self::new()
    }
}

/// A filter takes an event exactly when its level is at least the lowest
/// level taken, its effect is not left out, and the list of effects taken
/// is empty or names it; so an event at or above the lowest level whose
/// effect passes is always taken, and raising an event's level never turns
/// a taken event into a refused one.
pub proof fn law_filter_levels(f: FiltrumEventuum, level: Gradus, higher: Gradus, effect_id: u64)
    ensures
        eventus_admissus(f, level, effect_id) <==> (gradus_rank(f.min_level) <= gradus_rank(level)
            && !f.exclude_effects@.contains(effect_id) && (f.include_effects@.len() == 0
            || f.include_effects@.contains(effect_id))),
        gradus_rank(level) >= gradus_rank(f.min_level) && effectus_admissus(f, effect_id)
            ==> eventus_admissus(f, level, effect_id),
        gradus_rank(level) <= gradus_rank(higher) && eventus_admissus(f, level, effect_id)
            ==> eventus_admissus(f, higher, effect_id),
        effectus_admissus(f, effect_id) ==> eventus_admissus(f, Gradus::Error, effect_id),
        !effectus_admissus(f, effect_id) ==> !eventus_admissus(f, level, effect_id),
{
}

} // verus!
