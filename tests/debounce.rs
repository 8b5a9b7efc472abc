use amp_extras_core::debounce::{Debouncer, DEBOUNCE_MS};

#[test]
fn first_trigger_schedules_without_cancelling() {
    let mut d = Debouncer::new();
    let a = d.on_trigger();
    assert_eq!(a.cancel, None);
    assert_eq!(a.delay_ms, DEBOUNCE_MS);
    assert_eq!(DEBOUNCE_MS, 10);
    assert_eq!(d.pending(), Some(a.schedule));
}

#[test]
fn burst_of_triggers_runs_handler_once() {
    let mut d = Debouncer::new();
    let mut scheduled = Vec::new();
    let mut prev = None;
    for _ in 0..5 {
        let a = d.on_trigger();
        assert_eq!(a.cancel, prev);
        prev = Some(a.schedule);
        scheduled.push(a.schedule);
    }
    let last = *scheduled.last().unwrap();
    for &t in &scheduled[..4] {
        assert!(!d.on_fire(t));
    }
    assert!(d.on_fire(last));
    assert!(!d.on_fire(last));
    assert_eq!(d.pending(), None);
}

#[test]
fn failed_schedule_frees_the_slot() {
    let mut d = Debouncer::new();
    let a = d.on_trigger();
    d.on_schedule_failed(a.schedule);
    assert_eq!(d.pending(), None);
    let b = d.on_trigger();
    assert_eq!(b.cancel, None);
    assert_ne!(b.schedule, a.schedule);
    assert!(d.on_fire(b.schedule));
}

#[test]
fn stale_failure_report_keeps_current_timer() {
    let mut d = Debouncer::new();
    let a = d.on_trigger();
    let b = d.on_trigger();
    d.on_schedule_failed(a.schedule);
    assert_eq!(d.pending(), Some(b.schedule));
}
