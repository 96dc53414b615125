use maple_alarm::alarm::{SoundBus, SoundCmd};
use maple_alarm::instance::should_run;
use maple_alarm::palette::{alarm_button_color, border_color, BACKGROUND};
use maple_alarm::state::{tick, SharedState};
use maple_alarm::ui::{tray_choice_quits, AlarmApp, TimerCmd, Widgets, MENU_ID_EXIT, MENU_ID_REMAINING};
use std::sync::mpsc::{channel, Receiver};

fn started(reset: u64) -> (AlarmApp, SharedState, SoundBus, Receiver<SoundCmd>) {
    let (tx, rx) = channel();
    let bus = SoundBus::new(tx);
    let mut app = AlarmApp::new();
    app.init_visibility();
    let mut s = SharedState::new(reset);
    app.refresh_ui(&mut s);
    (app, s, bus, rx)
}

fn shows_normal(w: &Widgets) -> bool {
    w.dot_normal && !w.dot_alarm && w.caption_normal && !w.caption_alarm && w.time_normal && !w.time_alarm
}

fn shows_alarm(w: &Widgets) -> bool {
    !w.dot_normal && w.dot_alarm && !w.caption_normal && w.caption_alarm && !w.time_normal && w.time_alarm
}

#[test]
fn built_window_shows_everything_until_init() {
    let mut app = AlarmApp::new();
    assert!(app.widgets.btn_flash && app.widgets.dot_alarm);
    app.init_visibility();
    assert!(!app.widgets.dot_alarm && !app.widgets.caption_alarm && !app.widgets.time_alarm);
    assert!(!app.widgets.btn_alarm && !app.widgets.btn_flash);
    assert!(app.widgets.dot_normal && app.widgets.btn_normal);
}

#[test]
fn refresh_while_counting_down() {
    let (tx, _rx) = channel();
    let _bus = SoundBus::new(tx);
    let mut app = AlarmApp::new();
    app.init_visibility();
    let mut s = SharedState::new(110);
    s.blink_dark = true;
    let e = app.refresh_ui(&mut s);
    let r = e.repaint.unwrap();
    assert_eq!(r.time_text, "1:50");
    assert_eq!(r.tray_tip, "Alarm - 1:50");
    assert_eq!(e.blink_timer, TimerCmd::Keep);
    assert_eq!(e.flash_timer, TimerCmd::Keep);
    assert!(!s.blink_dark);
    assert!(shows_normal(&app.widgets));
    assert!(app.widgets.btn_normal && !app.widgets.btn_alarm && !app.widgets.btn_flash);
}

#[test]
fn alarm_starts_blinking_and_blinks() {
    let (mut app, mut s, mut bus, rx) = started(2);
    tick(&mut s, &mut bus);
    let e = app.refresh_ui(&mut s);
    assert_eq!(e.repaint.unwrap().time_text, "0:01");
    assert!(tick(&mut s, &mut bus));
    assert_eq!(rx.try_recv(), Ok(SoundCmd::StartAlarm));
    let e = app.refresh_ui(&mut s);
    assert_eq!(e.repaint.unwrap().time_text, "0:00");
    assert_eq!(e.blink_timer, TimerCmd::Start);
    assert!(app.blink_running);
    assert!(shows_alarm(&app.widgets));
    assert!(!app.widgets.btn_normal && app.widgets.btn_alarm && !app.widgets.btn_flash);
    assert!(!s.blink_dark);
    // a second refresh keeps the blinking as it is
    let e = app.refresh_ui(&mut s);
    assert_eq!(e.blink_timer, TimerCmd::Keep);
    let e = app.on_blink(&mut s);
    assert!(e.redraw_alarm_button);
    assert!(s.blink_dark);
    app.on_blink(&mut s);
    assert!(!s.blink_dark);
}

#[test]
fn blink_outside_alarm_does_nothing() {
    let (app, mut s, _bus, _rx) = started(10);
    let e = app.on_blink(&mut s);
    assert!(!e.redraw_alarm_button);
    assert!(!s.blink_dark);
}

#[test]
fn confirm_restarts_and_flashes_once() {
    let (mut app, mut s, mut bus, rx) = started(1);
    tick(&mut s, &mut bus);
    app.refresh_ui(&mut s);
    assert_eq!(rx.try_recv(), Ok(SoundCmd::StartAlarm));
    app.on_blink(&mut s);
    let e = app.on_confirm(&mut s, &mut bus);
    assert_eq!(rx.try_recv(), Ok(SoundCmd::Confirm));
    assert_eq!(s.remaining_secs, 1);
    assert!(!s.alarm_active && !s.blink_dark);
    assert_eq!(e.blink_timer, TimerCmd::Stop);
    assert_eq!(e.flash_timer, TimerCmd::Start);
    let r = e.repaint.unwrap();
    assert_eq!(r.time_text, "0:01");
    assert_eq!(r.tray_tip, "Alarm - 0:01");
    assert!(app.flash_active && !app.blink_running);
    assert!(app.widgets.btn_flash && !app.widgets.btn_alarm && !app.widgets.btn_normal);
    assert!(shows_normal(&app.widgets));
    // a refresh during the highlight keeps the reset button hidden under it
    app.refresh_ui(&mut s);
    assert!(app.widgets.btn_flash && !app.widgets.btn_normal);
    // the second click of a double click is ignored
    let e = app.on_confirm(&mut s, &mut bus);
    assert!(e.repaint.is_none());
    assert!(rx.try_recv().is_err());
    let e = app.on_confirm_flash_end();
    assert_eq!(e.flash_timer, TimerCmd::Stop);
    assert!(!app.flash_active);
    assert!(app.widgets.btn_normal && !app.widgets.btn_flash && !app.widgets.btn_alarm);
}

#[test]
fn refresh_with_highlight_hides_a_visible_reset_button() {
    let mut app = AlarmApp::new();
    app.flash_active = true;
    assert!(app.widgets.btn_normal);
    let mut s = SharedState::new(20);
    app.refresh_ui(&mut s);
    assert!(!app.widgets.btn_normal);
    assert!(app.widgets.btn_flash);
}

#[test]
fn confirm_without_alarm_does_nothing() {
    let (mut app, mut s, mut bus, rx) = started(30);
    let before = app;
    let e = app.on_confirm(&mut s, &mut bus);
    assert!(e.repaint.is_none());
    assert_eq!(e.blink_timer, TimerCmd::Keep);
    assert_eq!(app, before);
    assert_eq!(s.remaining_secs, 30);
    assert!(rx.try_recv().is_err());
}

#[test]
fn confirm_with_zero_length_keeps_alarming() {
    let (mut app, mut s, mut bus, rx) = started(0);
    assert!(app.blink_running);
    let e = app.on_confirm(&mut s, &mut bus);
    assert_eq!(rx.try_recv(), Ok(SoundCmd::Confirm));
    assert_eq!(e.blink_timer, TimerCmd::Restart);
    assert!(app.blink_running);
    assert!(shows_alarm(&app.widgets));
    // with a zero length a second confirmation acts again
    app.on_confirm(&mut s, &mut bus);
    assert_eq!(rx.try_recv(), Ok(SoundCmd::Confirm));
}

#[test]
fn reset_double_click_plays_once() {
    let (mut app, mut s, mut bus, rx) = started(110);
    for _ in 0..10 {
        tick(&mut s, &mut bus);
    }
    assert_eq!(s.remaining_secs, 100);
    let e = app.on_reset(&mut s, &mut bus);
    assert_eq!(e.repaint.unwrap().time_text, "1:50");
    assert_eq!(s.remaining_secs, 110);
    assert_eq!(rx.try_recv(), Ok(SoundCmd::Reset));
    let e = app.on_reset(&mut s, &mut bus);
    assert!(e.repaint.is_none());
    assert!(rx.try_recv().is_err());
}

#[test]
fn reset_is_ignored_while_alarming() {
    let (mut app, mut s, mut bus, rx) = started(1);
    tick(&mut s, &mut bus);
    app.refresh_ui(&mut s);
    let _ = rx.try_recv();
    let e = app.on_reset(&mut s, &mut bus);
    assert!(e.repaint.is_none());
    assert_eq!(s.remaining_secs, 0);
    assert!(rx.try_recv().is_err());
}

#[test]
fn tray_menu_exit_choice() {
    assert_eq!(MENU_ID_REMAINING, 1);
    assert_eq!(MENU_ID_EXIT, 2);
    assert!(tray_choice_quits(2));
    assert!(!tray_choice_quits(1));
    assert!(!tray_choice_quits(0));
}

#[test]
fn colours() {
    assert_eq!(border_color(true), 0x004444ff);
    assert_eq!(border_color(false), 0x00444444);
    assert_eq!(alarm_button_color(true), 0x001e1eb4);
    assert_eq!(alarm_button_color(false), 0x004444ff);
    assert_eq!(BACKGROUND, 0x001a1a1a);
}

#[test]
fn single_instance_decision() {
    assert!(should_run(true, false));
    assert!(!should_run(true, true));
    assert!(should_run(false, false));
    assert!(should_run(false, true));
}
