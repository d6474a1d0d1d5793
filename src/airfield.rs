use vstd::prelude::*;

use crate::plane::Plane;
use crate::service::{
    holds_hangar, holds_runway, is_admitted, is_terminal, step_spec, Action, Event, Phase, Step,
};

verus! {

/// How many phases of `s` satisfy `f`.
pub open spec fn count_phases(s: Seq<Phase>, f: spec_fn(Phase) -> bool) -> nat
    decreases s.len(),
{
    if s.len() == 0 {
        0
    } else {
        count_phases(s.drop_last(), f) + if f(s.last()) { 1nat } else { 0nat }
    }
}

/// Planes of `s` that own a runway permit.
pub open spec fn runway_holders(s: Seq<Phase>) -> nat {
    count_phases(s, |p: Phase| holds_runway(p))
}

/// Planes of `s` that own a hangar permit.
pub open spec fn hangar_holders(s: Seq<Phase>) -> nat {
    count_phases(s, |p: Phase| holds_hangar(p))
}

proof fn lemma_count_push(s: Seq<Phase>, p: Phase, f: spec_fn(Phase) -> bool)
    ensures
        count_phases(s.push(p), f) == count_phases(s, f) + if f(p) { 1nat } else { 0nat },
{
    assert(s.push(p).drop_last() =~= s);
}

proof fn lemma_count_update(s: Seq<Phase>, i: int, p: Phase, f: spec_fn(Phase) -> bool)
    requires
        0 <= i < s.len(),
    ensures
        count_phases(s.update(i, p), f) + (if f(s[i]) { 1int } else { 0int })
            == count_phases(s, f) + (if f(p) { 1int } else { 0int }),
    decreases s.len(),
{
    if i == s.len() - 1 {
        assert(s.update(i, p).drop_last() =~= s.drop_last());
    } else {
        assert(s.update(i, p).drop_last() =~= s.drop_last().update(i, p));
        lemma_count_update(s.drop_last(), i, p, f);
    }
}

proof fn lemma_count_bound(s: Seq<Phase>, i: int, f: spec_fn(Phase) -> bool)
    requires
        0 <= i < s.len(),
        !f(s[i]),
    ensures
        count_phases(s, f) < s.len(),
    decreases s.len(),
{
    if i < s.len() - 1 {
        lemma_count_bound(s.drop_last(), i, f);
    } else {
        lemma_count_total(s.drop_last(), f);
    }
}

proof fn lemma_count_total(s: Seq<Phase>, f: spec_fn(Phase) -> bool)
    ensures
        count_phases(s, f) <= s.len(),
    decreases s.len(),
{
    if s.len() > 0 {
        lemma_count_total(s.drop_last(), f);
    }
}

/// Occupancy accounting for a run: the planes that arrived, the phase of
/// each, and the runway and hangar permits still free.
///
/// A probe succeeds exactly when a permit of its kind is free, and a plane
/// awaiting a runway moves on only when one is free, as with a counting
/// semaphore.
pub struct Airfield {
    pub runways: u64,
    pub hangars: u64,
    pub free_runways: u64,
    pub free_hangars: u64,
    pub planes: Vec<Plane>,
    pub phases: Vec<Phase>,
}

/// At every moment, no more planes own a runway than there are runways, and no
/// more own a hangar than there are hangars.
pub proof fn lemma_occupancy_within_capacity(a: &Airfield)
    requires
        a.wf(),
    ensures
        runway_holders(a.phases@) <= a.runways,
        hangar_holders(a.phases@) <= a.hangars,
{
}

/// With at least as many runways and as many hangars as planes that arrived,
/// driving any plane never denies it.
pub proof fn lemma_abundant_capacity_admits_all(a: &Airfield, i: int)
    requires
        a.wf(),
        0 <= i < a.phases@.len(),
        a.phases@.len() <= a.runways,
        a.phases@.len() <= a.hangars,
    ensures
        a.step_for(i) matches Some(s) ==> s.next != Phase::Denied,
{
    let s = a.phases@;
    if s[i] is Admit {
        lemma_count_bound(s, i, |p: Phase| holds_runway(p));
    } else if s[i] is AdmitHangar {
        lemma_count_bound(s, i, |p: Phase| holds_hangar(p));
    }
}

/// With no hangar, no plane is ever admitted, so none completes, and driving
/// a plane never admits it.
pub proof fn lemma_no_hangar_admits_none(a: &Airfield, i: int)
    requires
        a.wf(),
        a.hangars == 0,
        0 <= i < a.phases@.len(),
    ensures
        !is_admitted(a.phases@[i]),
        a.phases@[i] != Phase::Done,
        a.step_for(i) matches Some(s) ==> !is_admitted(s.next),
{
}

proof fn lemma_count_split(s: Seq<Phase>)
    ensures
        count_phases(s, |p: Phase| p is Done) + count_phases(s, |p: Phase| p is Denied)
            + count_phases(s, |p: Phase| !is_terminal(p)) == s.len(),
    decreases s.len(),
{
    if s.len() > 0 {
        lemma_count_split(s.drop_last());
    }
}

proof fn lemma_count_none(s: Seq<Phase>, f: spec_fn(Phase) -> bool)
    requires
        forall|k: int| 0 <= k < s.len() ==> !f(#[trigger] s[k]),
    ensures
        count_phases(s, f) == 0,
    decreases s.len(),
{
    if s.len() > 0 {
        lemma_count_none(s.drop_last(), f);
    }
}

/// Once every plane that arrived has finished, each one is either completed
/// or denied: the two counts add up to the number of arrivals.
pub proof fn lemma_every_plane_accepted_or_denied(a: &Airfield)
    requires
        forall|k: int| 0 <= k < a.phases@.len() ==> is_terminal(#[trigger] a.phases@[k]),
    ensures
        count_phases(a.phases@, |p: Phase| p is Done)
            + count_phases(a.phases@, |p: Phase| p is Denied) == a.phases@.len(),
{
    lemma_count_split(a.phases@);
    lemma_count_none(a.phases@, |p: Phase| !is_terminal(p));
}

impl Airfield {
    /// Every permit is either free or owned by exactly one plane, and with no
    /// hangar at all no plane was ever admitted.
    pub open spec fn wf(&self) -> bool {
        &&& self.planes@.len() == self.phases@.len()
        &&& self.free_runways + runway_holders(self.phases@) == self.runways
        &&& self.free_hangars + hangar_holders(self.phases@) == self.hangars
        &&& self.hangars == 0 ==> forall|k: int|
            0 <= k < self.phases@.len() ==> !is_admitted(#[trigger] self.phases@[k])
    }

    /// What plane `i` observes when it is next driven, or `None` where it
    /// cannot move: it has finished, or it awaits a runway and none is free.
    pub open spec fn event_for(&self, i: int) -> Option<Event> {
        match self.phases@[i] {
            Phase::Admit => Some(Event::RunwayTried(self.free_runways > 0)),
            Phase::AdmitHangar => Some(Event::HangarTried(self.free_hangars > 0)),
            Phase::Landing | Phase::Resting | Phase::Takeoff => Some(Event::Slept),
            Phase::AwaitingRunway => if self.free_runways > 0 {
                Some(Event::RunwayAcquired)
            } else {
                None
            },
            _ => None,
        }
    }

    /// The step that plane `i` takes when it is next driven.
    pub open spec fn step_for(&self, i: int) -> Option<Step> {
        match self.event_for(i) {
            None => None,
            Some(e) => step_spec(self.phases@[i], self.planes@[i], e),
        }
    }

    /// An airfield with `runways` runways and `hangars` hangars, all free,
    /// and no plane yet.
    pub fn new(runways: u64, hangars: u64) -> (a: Airfield)
        ensures
            a.wf(),
            a.runways == runways,
            a.hangars == hangars,
            a.free_runways == runways,
            a.free_hangars == hangars,
            a.phases@ == Seq::<Phase>::empty(),
    {
        Airfield {
            runways,
            hangars,
            free_runways: runways,
            free_hangars: hangars,
            planes: Vec::new(),
            phases: Vec::new(),
        }
    }

    /// Registers the arrival of `plane`, in phase `Admit`; returns its index.
    pub fn arrive(&mut self, plane: Plane) -> (i: usize)
        requires
            old(self).wf(),
        ensures
            final(self).wf(),
            i == old(self).phases@.len(),
            final(self).phases@ == old(self).phases@.push(Phase::Admit),
            final(self).planes@ == old(self).planes@.push(plane),
            final(self).runways == old(self).runways,
            final(self).hangars == old(self).hangars,
            final(self).free_runways == old(self).free_runways,
            final(self).free_hangars == old(self).free_hangars,
    {
        proof {
            lemma_count_push(self.phases@, Phase::Admit, |p: Phase| holds_runway(p));
            lemma_count_push(self.phases@, Phase::Admit, |p: Phase| holds_hangar(p));
        }
        let i = self.phases.len();
        self.planes.push(plane);
        self.phases.push(Phase::Admit);
        i
    }

    /// Drives plane `i` one step: the event is read off the free permits, the
    /// plane takes the step of `step_for`, and the permits it gains or gives
    /// up are taken from or returned to the pool. Returns the action of the
    /// step, or `None` (and changes nothing) where the plane cannot move.
    pub fn advance(&mut self, i: usize) -> (r: Option<Action>)
        requires
            old(self).wf(),
            i < old(self).phases@.len(),
        ensures
            final(self).wf(),
            final(self).runways == old(self).runways,
            final(self).hangars == old(self).hangars,
            final(self).planes@ == old(self).planes@,
            match old(self).step_for(i as int) {
                None => r is None && final(self).phases@ == old(self).phases@
                    && final(self).free_runways == old(self).free_runways
                    && final(self).free_hangars == old(self).free_hangars,
                Some(s) => r == Some(s.action)
                    && final(self).phases@ == old(self).phases@.update(i as int, s.next),
            },
    {
        let phase = self.phases[i];
        let plane = self.planes[i];
        let e = match phase {
            Phase::Admit => Event::RunwayTried(self.free_runways > 0),
            Phase::AdmitHangar => Event::HangarTried(self.free_hangars > 0),
            Phase::Landing | Phase::Resting | Phase::Takeoff => Event::Slept,
            Phase::AwaitingRunway => {
                if self.free_runways > 0 {
                    Event::RunwayAcquired
                } else {
                    return None;
                }
            },
            Phase::Done | Phase::Denied => {
                return None;
            },
        };
        let s = match phase.step(&plane, e) {
            Some(s) => s,
            None => {
                return None;
            },
        };
        proof {
            lemma_count_update(self.phases@, i as int, s.next, |p: Phase| holds_runway(p));
            lemma_count_update(self.phases@, i as int, s.next, |p: Phase| holds_hangar(p));
        }
        if phase.holds_runway() && !s.next.holds_runway() {
            self.free_runways = self.free_runways + 1;
        } else if !phase.holds_runway() && s.next.holds_runway() {
            self.free_runways = self.free_runways - 1;
        }
        if phase.holds_hangar() && !s.next.holds_hangar() {
            self.free_hangars = self.free_hangars + 1;
        } else if !phase.holds_hangar() && s.next.holds_hangar() {
            self.free_hangars = self.free_hangars - 1;
        }
        self.phases.set(i, s.next);
        Some(s.action)
    }
}

} // verus!
