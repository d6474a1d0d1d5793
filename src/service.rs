use vstd::prelude::*;

use crate::plane::Plane;

verus! {

/// Where one plane stands in its service.
#[derive(Clone, Copy, Debug, PartialEq, Eq, Structural)]
pub enum Phase {
    /// Arrived; the runway is about to be probed.
    Admit,
    /// Holds a runway; a hangar is about to be probed.
    AdmitHangar,
    /// Holds a runway and a hangar while it lands.
    Landing,
    /// Holds a hangar only, while it rests.
    Resting,
    /// Holds a hangar and waits, blocking, for a runway.
    AwaitingRunway,
    /// Holds a runway only, while it takes off.
    Takeoff,
    /// Took off; holds nothing and is reported as completed.
    Done,
    /// Refused at admission; holds nothing.
    Denied,
}

/// What the driver of a plane observed since the last action.
#[derive(Clone, Copy, Debug, PartialEq, Eq, Structural)]
pub enum Event {
    /// Outcome of a non-blocking runway probe.
    RunwayTried(bool),
    /// Outcome of a non-blocking hangar probe.
    HangarTried(bool),
    /// The requested sleep elapsed.
    Slept,
    /// The blocking runway acquisition returned a permit.
    RunwayAcquired,
}

/// What the driver of a plane must do next.
///
/// Permits are never released by an action: after each step the driver keeps
/// exactly the permits that the new phase holds (`holds_runway`,
/// `holds_hangar`) and drops the others.
#[derive(Clone, Copy, Debug, PartialEq, Eq, Structural)]
pub enum Action {
    /// Probe the runways without waiting.
    TryAcquireRunway,
    /// Probe the hangars without waiting.
    TryAcquireHangar,
    /// Suspend for this many milliseconds.
    Sleep(u64),
    /// Wait until a runway is free and take it.
    AcquireRunway,
    /// Hand the plane to the collector.
    Complete,
    /// Drop the plane as denied.
    Deny,
}

/// A transition: the phase entered and the action it asks for.
#[derive(Clone, Copy, Debug, PartialEq, Eq, Structural)]
pub struct Step {
    pub next: Phase,
    pub action: Action,
}

/// Whether a plane in phase `p` owns a runway permit.
pub open spec fn holds_runway(p: Phase) -> bool {
    p is AdmitHangar || p is Landing || p is Takeoff
}

/// Whether a plane in phase `p` owns a hangar permit.
pub open spec fn holds_hangar(p: Phase) -> bool {
    p is Landing || p is Resting || p is AwaitingRunway
}

/// Whether `p` ends the service.
pub open spec fn is_terminal(p: Phase) -> bool {
    p is Done || p is Denied
}

/// Whether a plane in phase `p` passed admission.
pub open spec fn is_admitted(p: Phase) -> bool {
    p is Landing || p is Resting || p is AwaitingRunway || p is Takeoff || p is Done
}

/// The transition table of the service of `plane`; `None` where `e` cannot
/// happen in `p`.
pub open spec fn step_spec(p: Phase, plane: Plane, e: Event) -> Option<Step> {
    match (p, e) {
        (Phase::Admit, Event::RunwayTried(false)) =>
            Some(Step { next: Phase::Denied, action: Action::Deny }),
        (Phase::Admit, Event::RunwayTried(true)) =>
            Some(Step { next: Phase::AdmitHangar, action: Action::TryAcquireHangar }),
        (Phase::AdmitHangar, Event::HangarTried(false)) =>
            Some(Step { next: Phase::Denied, action: Action::Deny }),
        (Phase::AdmitHangar, Event::HangarTried(true)) =>
            Some(Step { next: Phase::Landing, action: Action::Sleep(plane.time_to_land) }),
        (Phase::Landing, Event::Slept) =>
            Some(Step { next: Phase::Resting, action: Action::Sleep(plane.time_to_rest) }),
        (Phase::Resting, Event::Slept) =>
            Some(Step { next: Phase::AwaitingRunway, action: Action::AcquireRunway }),
        (Phase::AwaitingRunway, Event::RunwayAcquired) =>
            Some(Step { next: Phase::Takeoff, action: Action::Sleep(plane.time_to_land) }),
        (Phase::Takeoff, Event::Slept) =>
            Some(Step { next: Phase::Done, action: Action::Complete }),
        _ => None,
    }
}

/// Milliseconds of suspension that action `a` asks for.
pub open spec fn sleep_of(a: Action) -> int {
    match a {
        Action::Sleep(d) => d as int,
        _ => 0,
    }
}

/// Feeds `events` to a plane in phase `p`: the phase reached and the total of
/// the sleeps asked for on the way, or `None` if some event cannot happen.
pub open spec fn run(p: Phase, plane: Plane, events: Seq<Event>) -> Option<(Phase, int)>
    decreases events.len(),
{
    if events.len() == 0 {
        Some((p, 0))
    } else {
        match step_spec(p, plane, events[0]) {
            None => None,
            Some(s) => match run(s.next, plane, events.drop_first()) {
                None => None,
                Some((q, t)) => Some((q, sleep_of(s.action) + t)),
            },
        }
    }
}

/// The sleeps that a plane entering phase `p` still has ahead of it on the
/// way to `Done`.
pub open spec fn sleep_ahead(p: Phase, plane: Plane) -> int {
    match p {
        Phase::Admit | Phase::AdmitHangar => 2 * plane.time_to_land + plane.time_to_rest,
        Phase::Landing => plane.time_to_land + plane.time_to_rest,
        Phase::Resting | Phase::AwaitingRunway => plane.time_to_land as int,
        _ => 0,
    }
}

proof fn lemma_run_sleep_ahead(p: Phase, plane: Plane, events: Seq<Event>)
    ensures
        run(p, plane, events) matches Some((Phase::Done, t)) ==> t == sleep_ahead(p, plane),
    decreases events.len(),
{
    if events.len() > 0 {
        if let Some(s) = step_spec(p, plane, events[0]) {
            lemma_run_sleep_ahead(s.next, plane, events.drop_first());
        }
    }
}

/// A plane that completes its service has been suspended for exactly two
/// runway phases and one rest, whatever it waited for in between.
pub proof fn lemma_completed_service_sleeps(plane: Plane, events: Seq<Event>)
    ensures
        run(Phase::Admit, plane, events) matches Some((Phase::Done, t))
            ==> t == 2 * plane.time_to_land + plane.time_to_rest,
{
    lemma_run_sleep_ahead(Phase::Admit, plane, events);
}

/// Permit discipline of one step: a permit is only gained through a
/// successful acquisition, the runway is given up before resting, the hangar
/// is given up only once a runway is held, and a finished plane holds nothing.
pub proof fn lemma_permit_discipline(p: Phase, plane: Plane, e: Event)
    ensures
        step_spec(p, plane, e) matches Some(s) ==> {
            &&& holds_runway(s.next) && !holds_runway(p) ==> (e == Event::RunwayTried(true)
                || e == Event::RunwayAcquired)
            &&& holds_hangar(s.next) && !holds_hangar(p) ==> e == Event::HangarTried(true)
            &&& holds_hangar(p) && !holds_hangar(s.next) ==> holds_runway(s.next)
            &&& s.next == Phase::Resting ==> !holds_runway(s.next)
            &&& is_terminal(s.next) ==> !holds_runway(s.next) && !holds_hangar(s.next)
        },
{
}

impl Phase {
    /// The phase in which every plane starts, with its first action.
    pub fn start() -> (s: Step)
        ensures
            s.next == Phase::Admit,
            s.action == Action::TryAcquireRunway,
    {
        Step { next: Phase::Admit, action: Action::TryAcquireRunway }
    }

    /// Whether a plane in this phase owns a runway permit.
    pub fn holds_runway(&self) -> (r: bool)
        ensures
            r == holds_runway(*self),
    {
        match self {
            Phase::AdmitHangar | Phase::Landing | Phase::Takeoff => true,
            _ => false,
        }
    }

    /// Whether a plane in this phase owns a hangar permit.
    pub fn holds_hangar(&self) -> (r: bool)
        ensures
            r == holds_hangar(*self),
    {
        match self {
            Phase::Landing | Phase::Resting | Phase::AwaitingRunway => true,
            _ => false,
        }
    }

    /// Whether the service has ended.
    pub fn is_terminal(&self) -> (r: bool)
        ensures
            r == is_terminal(*self),
    {
        match self {
            Phase::Done | Phase::Denied => true,
            _ => false,
        }
    }

    /// Advances the service of `plane` from this phase on event `e`.
    pub fn step(&self, plane: &Plane, e: Event) -> (r: Option<Step>)
        ensures
            r == step_spec(*self, *plane, e),
    {
        match (self, e) {
            (Phase::Admit, Event::RunwayTried(ok)) => {
                if ok {
                    Some(Step { next: Phase::AdmitHangar, action: Action::TryAcquireHangar })
                } else {
                    Some(Step { next: Phase::Denied, action: Action::Deny })
                }
            },
            (Phase::AdmitHangar, Event::HangarTried(ok)) => {
                if ok {
                    Some(Step { next: Phase::Landing, action: Action::Sleep(plane.time_to_land) })
                } else {
                    Some(Step { next: Phase::Denied, action: Action::Deny })
                }
            },
            (Phase::Landing, Event::Slept) => {
                Some(Step { next: Phase::Resting, action: Action::Sleep(plane.time_to_rest) })
            },
            (Phase::Resting, Event::Slept) => {
                Some(Step { next: Phase::AwaitingRunway, action: Action::AcquireRunway })
            },
            (Phase::AwaitingRunway, Event::RunwayAcquired) => {
                Some(Step { next: Phase::Takeoff, action: Action::Sleep(plane.time_to_land) })
            },
            (Phase::Takeoff, Event::Slept) => {
                Some(Step { next: Phase::Done, action: Action::Complete })
            },
            _ => None,
        }
    }
}

} // verus!
