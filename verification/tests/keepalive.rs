use ntex_core::keepalive::{KeepAlive, KeepAliveService, Readiness};

fn guard(ka: u64, now: u64) -> KeepAliveService<u8, u32, impl Fn() -> u32 + Clone> {
    let factory: KeepAlive<u8, u32, _> = KeepAlive::new(ka, || 42u32);
    factory.new_service(now)
}

#[test]
fn ready_while_timer_sleeps() {
    let mut s = guard(1000, 0);
    assert!(matches!(s.poll_ready(1, false), Readiness::Ready));
    assert!(matches!(s.poll_ready(999, false), Readiness::Ready));
}

#[test]
fn call_passes_request_through() {
    let mut s = guard(1000, 0);
    assert_eq!(s.call(10, 7u8), 7u8);
    assert_eq!(s.call(20, 9u8), 9u8);
}

#[test]
fn liveness_under_regular_calls() {
    // one call within every window of 1000 ms: never a timeout
    let mut s = guard(1000, 0);
    let mut t: u64 = 0;
    for _ in 0..10 {
        t += 600;
        assert!(matches!(s.poll_ready(t, t >= 1000), Readiness::Ready | Readiness::Rearm(_)));
        s.call(t, 0u8);
    }
}

#[test]
fn idle_connection_times_out_once_deadline_passes() {
    let mut s = guard(1000, 0);
    // the timer armed at 1000 fires; nothing was serviced
    match s.poll_ready(1000, true) {
        Readiness::Expired(e) => assert_eq!(e, 42),
        _ => panic!("an idle guard must fail at its deadline"),
    }
    // the guard does not recover
    assert!(matches!(s.poll_ready(1500, true), Readiness::Expired(42)));
}

#[test]
fn deadline_boundary_is_exact() {
    let mut s = guard(1000, 0);
    assert!(matches!(s.poll_ready(999, true), Readiness::Rearm(1000)));
    let mut s2 = guard(1000, 0);
    assert!(matches!(s2.poll_ready(1000, true), Readiness::Expired(42)));
}

#[test]
fn extension_race_rearms_instead_of_failing() {
    let mut s = guard(1000, 0);
    // serviced just before the armed timer fires: deadline moves to 1900
    s.call(900, 0u8);
    // the timer armed for 1000 still fires; the deadline has moved on
    match s.poll_ready(1100, true) {
        Readiness::Rearm(t) => assert_eq!(t, 1900),
        _ => panic!("a fired timer against an extended deadline must re-arm"),
    }
    // after re-arming, the extended deadline is honoured
    assert!(matches!(s.poll_ready(1899, true), Readiness::Rearm(1900)));
    assert!(matches!(s.poll_ready(1900, true), Readiness::Expired(42)));
}

#[test]
fn deadline_moves_only_forward() {
    let mut s = guard(1000, 0);
    s.call(500, 0u8);
    // a later call extends further; polls in between never fail early
    s.call(800, 0u8);
    assert!(matches!(s.poll_ready(1799, true), Readiness::Rearm(1800)));
}

#[test]
fn factory_builds_independent_guards() {
    let factory: KeepAlive<u8, u32, _> = KeepAlive::new(100, || 1u32);
    let cloned = factory.clone();
    let mut a = factory.new_service(0);
    let mut b = cloned.new_service(50);
    assert!(matches!(a.poll_ready(100, true), Readiness::Expired(1)));
    assert!(matches!(b.poll_ready(100, true), Readiness::Rearm(150)));
}
