use airfield::airfield::Airfield;
use airfield::plane::Plane;
use airfield::report::{Collector, Report};
use airfield::service::{Action, Phase};

/// Outcome of a run in virtual time.
struct Outcome {
    report: Report,
    /// Service time of each plane that completed, by arrival index.
    service: Vec<Option<u64>>,
    /// Time at which each plane started its takeoff, by arrival index.
    takeoff_at: Vec<Option<u64>>,
    /// Largest number of runway and hangar holders seen at once.
    peak_runways: u64,
    peak_hangars: u64,
}

fn holders(a: &Airfield) -> (u64, u64) {
    let r = a.phases.iter().filter(|p| p.holds_runway()).count() as u64;
    let h = a.phases.iter().filter(|p| p.holds_hangar()).count() as u64;
    (r, h)
}

/// Runs `n` planes arriving every `interval` ms (the first at time 0) on an
/// airfield of `runways` and `hangars`. At each instant sleepers wake first,
/// then planes awaiting a runway move on in arrival order, then the new
/// arrival is admitted.
fn simulate(n: u64, runways: u64, hangars: u64, interval: u64) -> Outcome {
    let mut a = Airfield::new(runways, hangars);
    let mut c = Collector::new();
    let mut wake: Vec<Option<u64>> = Vec::new();
    let mut service: Vec<Option<u64>> = Vec::new();
    let mut takeoff_at: Vec<Option<u64>> = Vec::new();
    let mut peak_runways = 0;
    let mut peak_hangars = 0;
    let mut arrived = 0;
    let mut now = 0u64;
    loop {
        let mut progressed = true;
        while progressed {
            progressed = false;
            for i in 0..a.phases.len() {
                let ready = match a.phases[i] {
                    Phase::AwaitingRunway => true,
                    Phase::Landing | Phase::Resting | Phase::Takeoff => wake[i] == Some(now),
                    _ => false,
                };
                if !ready {
                    continue;
                }
                if let Some(action) = a.advance(i) {
                    progressed = true;
                    if a.phases[i] == Phase::Takeoff {
                        takeoff_at[i] = Some(now);
                    }
                    match action {
                        Action::Sleep(d) => wake[i] = Some(now + d),
                        Action::Complete => {
                            let plane = a.planes[i];
                            service[i] = Some(c.record(&plane, now));
                        },
                        _ => {},
                    }
                }
                let (r, h) = holders(&a);
                peak_runways = peak_runways.max(r);
                peak_hangars = peak_hangars.max(h);
            }
        }
        while arrived < n && arrived * interval == now {
            let i = a.arrive(Plane::new(now));
            wake.push(None);
            service.push(None);
            takeoff_at.push(None);
            arrived += 1;
            while !a.phases[i].is_terminal() {
                match a.advance(i) {
                    Some(Action::Sleep(d)) => {
                        wake[i] = Some(now + d);
                        break;
                    },
                    Some(_) => {},
                    None => break,
                }
            }
            let (r, h) = holders(&a);
            peak_runways = peak_runways.max(r);
            peak_hangars = peak_hangars.max(h);
        }
        if arrived == n && a.phases.iter().all(|p| p.is_terminal()) {
            break;
        }
        now += 1;
    }
    Outcome { report: c.report(n), service, takeoff_at, peak_runways, peak_hangars }
}

#[test]
fn reference_run() {
    let o = simulate(10, 1, 3, 1000);
    assert!(o.report.accepted >= 3);
    assert!(o.report.denied <= 7);
    assert_eq!(o.report.accepted + o.report.denied, 10);
}

#[test]
fn saturation_with_simultaneous_arrivals() {
    let o = simulate(5, 1, 5, 0);
    assert_eq!(o.report.accepted, 1);
    assert_eq!(o.report.denied, 4);
    assert_eq!(o.service[0], Some(4000));
}

#[test]
fn abundant_resources() {
    let o = simulate(4, 4, 4, 1000);
    assert_eq!(o.report.accepted, 4);
    assert_eq!(o.report.denied, 0);
    for t in &o.service {
        assert_eq!(*t, Some(4000));
    }
    assert_eq!(o.report.average, Some(4000));
}

#[test]
fn zero_hangars() {
    let o = simulate(3, 3, 0, 1000);
    assert_eq!(o.report.accepted, 0);
    assert_eq!(o.report.denied, 3);
    assert_eq!(o.report.average, None);
}

#[test]
fn single_slot_slow_arrivals() {
    let o = simulate(3, 1, 1, 5000);
    assert_eq!(o.report.accepted, 3);
    for t in &o.service {
        assert_eq!(*t, Some(4000));
    }
}

#[test]
fn overlap_second_takeoff_waits_for_first() {
    let o = simulate(2, 1, 2, 1000);
    assert_eq!(o.report.accepted, 2);
    // The first plane holds the runway for its takeoff over [3000, 4000).
    assert_eq!(o.takeoff_at[0], Some(3000));
    assert!(o.takeoff_at[1].unwrap() >= 4000);
    let second = o.service[1].unwrap();
    assert!(second >= 4000 && second <= 5000);
}

#[test]
fn every_plane_is_accepted_or_denied() {
    for (n, r, h, d) in [(10, 1, 3, 1000), (7, 2, 1, 0), (6, 1, 2, 500), (0, 1, 1, 1000)] {
        let o = simulate(n, r, h, d);
        assert_eq!(o.report.accepted + o.report.denied, n);
    }
}

#[test]
fn occupancy_never_exceeds_capacity() {
    for (n, r, h, d) in [(10, 1, 3, 1000), (12, 2, 3, 500), (8, 1, 1, 0), (9, 3, 2, 250)] {
        let o = simulate(n, r, h, d);
        assert!(o.peak_runways <= r);
        assert!(o.peak_hangars <= h);
    }
}

#[test]
fn service_time_at_least_two_runway_phases_and_rest() {
    let o = simulate(10, 1, 3, 1000);
    for t in o.service.iter().flatten() {
        assert!(*t >= 4000);
        assert!(*t <= 4000 + 10 * 1000);
    }
}

#[test]
fn runways_and_hangars_for_every_plane_accept_all() {
    for d in [0, 100, 1000] {
        let o = simulate(6, 6, 6, d);
        assert_eq!(o.report.accepted, 6);
        assert_eq!(o.report.denied, 0);
    }
}

#[test]
fn no_hangars_deny_all() {
    let o = simulate(8, 2, 0, 0);
    assert_eq!(o.report.accepted, 0);
    assert_eq!(o.report.denied, 8);
    assert_eq!(o.report.average, None);
}
