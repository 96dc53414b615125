use maple_alarm::alarm::{SoundBus, SoundCmd};
use maple_alarm::state::{tick, SharedState};
use std::sync::mpsc::channel;

#[test]
fn new_state_starts_at_reset_value() {
    let s = SharedState::new(110);
    assert_eq!(s.remaining_secs, 110);
    assert_eq!(s.reset_secs, 110);
    assert!(!s.alarm_active);
    assert!(!s.blink_dark);
    assert!(!s.is_alarming());
}

#[test]
fn zero_length_countdown_is_alarming_at_once() {
    let s = SharedState::new(0);
    assert!(s.is_alarming());
    assert!(!s.alarm_active);
}

#[test]
fn ticks_count_down_and_fire_once() {
    let (tx, rx) = channel();
    let mut bus = SoundBus::new(tx);
    let mut s = SharedState::new(3);
    assert!(!tick(&mut s, &mut bus));
    assert_eq!(s.remaining_secs, 2);
    assert!(rx.try_recv().is_err());
    assert!(!tick(&mut s, &mut bus));
    assert_eq!(s.remaining_secs, 1);
    assert!(!s.alarm_active);
    assert!(tick(&mut s, &mut bus));
    assert_eq!(s.remaining_secs, 0);
    assert!(s.alarm_active);
    assert!(s.is_alarming());
    assert_eq!(rx.try_recv(), Ok(SoundCmd::StartAlarm));
    for _ in 0..5 {
        assert!(!tick(&mut s, &mut bus));
        assert_eq!(s.remaining_secs, 0);
        assert!(s.alarm_active);
    }
    assert!(rx.try_recv().is_err());
}

#[test]
fn default_countdown_fires_after_110_ticks() {
    let (tx, rx) = channel();
    let mut bus = SoundBus::new(tx);
    let mut s = SharedState::new(110);
    let mut fired_at = None;
    for k in 0..200u32 {
        if tick(&mut s, &mut bus) {
            assert!(fired_at.is_none());
            fired_at = Some(k);
        }
    }
    assert_eq!(fired_at, Some(109));
    assert_eq!(rx.try_iter().collect::<Vec<_>>(), vec![SoundCmd::StartAlarm]);
}

#[test]
fn tick_keeps_reset_value_and_blink_phase() {
    let (tx, _rx) = channel();
    let mut bus = SoundBus::new(tx);
    let mut s = SharedState::new(50);
    s.blink_dark = true;
    tick(&mut s, &mut bus);
    assert_eq!(s.reset_secs, 50);
    assert!(s.blink_dark);
    assert_eq!(s.remaining_secs, 49);
}
