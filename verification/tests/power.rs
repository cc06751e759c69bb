use sparklink::errno::Errno;
use sparklink::sle_power::{ConnInterval, PowerInner, PowerState, SniffParams};

#[test]
fn intervals_are_checked() {
    let d = ConnInterval::default();
    assert_eq!(d.validate(), Ok(()));
    for bad in [
        ConnInterval { min_interval: 5, ..d },
        ConnInterval { min_interval: 41, ..d },
        ConnInterval { max_interval: 3201, supervision_timeout: 3200, ..d },
        ConnInterval { supervision_timeout: 9, max_interval: 24, ..d },
        ConnInterval { supervision_timeout: 3201, ..d },
        ConnInterval { latency: 19, ..d },
    ] {
        assert_eq!(bad.validate(), Err(Errno::EINVAL));
    }
    assert_eq!(d.current_ms(), 40);
    assert_eq!(d.supervision_timeout_ms(), 2000);
}

#[test]
fn interval_is_only_taken_over_when_valid() {
    let mut p = PowerInner::new();
    let d = ConnInterval::default();
    assert_eq!(p.update_interval(ConnInterval { latency: 100, ..d }), Err(Errno::EINVAL));
    assert_eq!(p.interval.latency, 0);
    assert_eq!(p.update_interval(ConnInterval { latency: 2, ..d }), Ok(()));
    assert_eq!(p.interval.latency, 2);
    p.set_sniff_params(SniffParams { sniff_window: 3, ..SniffParams::default() });
    assert_eq!(p.sniff.sniff_window, 3);
}

#[test]
fn quiet_connection_falls_asleep() {
    let mut p = PowerInner::new();
    for _ in 0..49 {
        p.on_tick();
    }
    assert_eq!((p.state, p.estimated_power_pct()), (PowerState::Active, 100));
    p.on_tick();
    assert_eq!((p.state, p.estimated_power_pct()), (PowerState::Sniff, 30));
    for _ in 0..200 {
        p.on_tick();
    }
    assert_eq!((p.state, p.estimated_power_pct()), (PowerState::Idle, 5));
    assert_eq!(p.stats.transitions, 2);
    p.on_activity();
    assert_eq!(p.state, PowerState::Active);
    assert_eq!(p.idle_count, 0);
}

#[test]
fn forced_connection_stays_active() {
    let mut p = PowerInner::new();
    p.force_active(true);
    assert!(p.is_forced_active());
    for _ in 0..1000 {
        p.on_tick();
    }
    assert_eq!(p.state, PowerState::Active);
    assert_eq!(p.suspend(), Err(Errno::EBUSY));
    p.force_active(false);
    p.on_tick();
    assert_eq!(p.state, PowerState::Sniff);
}

#[test]
fn suspended_connection_does_not_count() {
    let mut p = PowerInner::new();
    assert_eq!(p.suspend(), Ok(()));
    assert_eq!(p.estimated_power_pct(), 0);
    p.on_tick();
    assert_eq!((p.state, p.idle_count), (PowerState::Suspended, 0));
    p.resume();
    assert_eq!(p.state, PowerState::Active);
}
