use vstd::prelude::*;
use crate::alarm::{play_confirm_sound, play_reset_sound, SoundBus, SoundCmd};
use crate::state::SharedState;
use crate::text::{clock_text, format_clock, tray_tip};

verus! {

/// Which of the window's controls are visible.
#[derive(Clone, Copy, Debug, PartialEq, Eq, Structural)]
pub struct Widgets {
    /// The green status dot.
    pub dot_normal: bool,
    /// The red status dot.
    pub dot_alarm: bool,
    /// The caption shown while counting down.
    pub caption_normal: bool,
    /// The caption shown while the alarm sounds.
    pub caption_alarm: bool,
    /// The time shown while counting down.
    pub time_normal: bool,
    /// The time shown while the alarm sounds.
    pub time_alarm: bool,
    /// The reset button.
    pub btn_normal: bool,
    /// The blinking confirm button.
    pub btn_alarm: bool,
    /// The brief highlight shown after a confirmation.
    pub btn_flash: bool,
}

/// The window's own state: what it shows, and which of its timers run.
#[derive(Clone, Copy, Debug, PartialEq, Eq, Structural)]
pub struct AlarmApp {
    pub widgets: Widgets,
    /// Whether the blink timer runs.
    pub blink_running: bool,
    /// Whether the highlight after a confirmation is on screen.
    pub flash_active: bool,
}

/// What to do with one of the window's timers.
#[derive(Clone, Copy, Debug, PartialEq, Eq, Structural)]
pub enum TimerCmd {
    /// Leave it as it is.
    Keep,
    /// Start it.
    Start,
    /// Stop it.
    Stop,
    /// Stop it, then start it again.
    Restart,
}

/// The texts to put on screen.
pub struct Repaint {
    /// The text of both time labels.
    pub time_text: String,
    /// The tray icon's tooltip.
    pub tray_tip: String,
}

/// What the window has to do after one of its handlers ran, besides showing
/// exactly the controls that [`AlarmApp::widgets`] marks visible.
pub struct Effects {
    /// New texts, after which the whole window is redrawn; `None` leaves them.
    pub repaint: Option<Repaint>,
    pub blink_timer: TimerCmd,
    pub flash_timer: TimerCmd,
    /// Whether the confirm button is redrawn in its new blink phase.
    pub redraw_alarm_button: bool,
}

/// Whether the effects ask for nothing at all.
pub open spec fn no_effects(e: Effects) -> bool {
    &&& e.repaint.is_none()
    &&& e.blink_timer == TimerCmd::Keep
    &&& e.flash_timer == TimerCmd::Keep
    &&& !e.redraw_alarm_button
}

/// Whether the effects put the texts for `secs` on screen.
pub open spec fn repaints(e: Effects, secs: u64) -> bool {
    e.repaint matches Some(r) && r.time_text@ == clock_text(secs as nat) && r.tray_tip@
        == "Alarm - "@ + clock_text(secs as nat)
}

/// The window after a refresh, given whether the alarm sounds.
pub open spec fn refresh_app(a: AlarmApp, alarm: bool) -> AlarmApp {
    if alarm {
        let w = Widgets {
            dot_normal: false,
            dot_alarm: true,
            caption_normal: false,
            caption_alarm: true,
            time_normal: false,
            time_alarm: true,
            ..a.widgets
        };
        if !a.blink_running {
            AlarmApp {
                widgets: Widgets { btn_normal: false, btn_alarm: true, btn_flash: false, ..w },
                blink_running: true,
                ..a
            }
        } else {
            AlarmApp { widgets: w, ..a }
        }
    } else {
        let w = Widgets {
            dot_normal: true,
            dot_alarm: false,
            caption_normal: true,
            caption_alarm: false,
            time_normal: true,
            time_alarm: false,
            ..a.widgets
        };
        let w2 = if !a.flash_active {
            Widgets { btn_normal: true, btn_alarm: false, btn_flash: false, ..w }
        } else {
            Widgets { btn_normal: false, ..w }
        };
        AlarmApp { widgets: w2, blink_running: false, ..a }
    }
}

/// The countdown state after a refresh: the blink phase starts light when the
/// blinking starts, and is light whenever the alarm is off.
pub open spec fn refresh_state(a: AlarmApp, s: SharedState) -> SharedState {
    if s.remaining_secs == 0 && a.blink_running {
        s
    } else {
        SharedState { blink_dark: false, ..s }
    }
}

/// What a refresh does to the blink timer.
pub open spec fn refresh_timer(a: AlarmApp, alarm: bool) -> TimerCmd {
    if alarm && !a.blink_running {
        TimerCmd::Start
    } else if !alarm && a.blink_running {
        TimerCmd::Stop
    } else {
        TimerCmd::Keep
    }
}

/// Whether a confirmation does anything: only while the alarm sounds.
pub open spec fn confirm_acts(s: SharedState) -> bool {
    s.remaining_secs == 0
}

/// The window right after a confirmation, before its refresh.
pub open spec fn confirmed_app(a: AlarmApp) -> AlarmApp {
    AlarmApp {
        widgets: Widgets { btn_alarm: false, btn_flash: true, ..a.widgets },
        blink_running: false,
        flash_active: true,
    }
}

/// The countdown right after a confirmation: the alarm is off and the count restarts.
pub open spec fn confirmed_state(s: SharedState) -> SharedState {
    SharedState { alarm_active: false, remaining_secs: s.reset_secs, blink_dark: false, ..s }
}

/// The window after a confirmation.
pub open spec fn confirm_app(a: AlarmApp, s: SharedState) -> AlarmApp {
    if confirm_acts(s) {
        refresh_app(confirmed_app(a), s.reset_secs == 0)
    } else {
        a
    }
}

/// The countdown after a confirmation.
pub open spec fn confirm_state(a: AlarmApp, s: SharedState) -> SharedState {
    if confirm_acts(s) {
        refresh_state(confirmed_app(a), confirmed_state(s))
    } else {
        s
    }
}

/// Whether a press of the reset button does anything: not while the alarm
/// sounds, and not when the count already stands at its restart value.
pub open spec fn reset_acts(s: SharedState) -> bool {
    s.remaining_secs != 0 && s.remaining_secs != s.reset_secs
}

/// The window after a press of the reset button.
pub open spec fn reset_app(a: AlarmApp, s: SharedState) -> AlarmApp {
    if reset_acts(s) {
        refresh_app(a, s.reset_secs == 0)
    } else {
        a
    }
}

/// The countdown after a press of the reset button.
pub open spec fn reset_state(a: AlarmApp, s: SharedState) -> SharedState {
    if reset_acts(s) {
        refresh_state(a, SharedState { remaining_secs: s.reset_secs, ..s })
    } else {
        s
    }
}

/// The window once the highlight after a confirmation has ended.
pub open spec fn flash_end_app(a: AlarmApp) -> AlarmApp {
    AlarmApp {
        widgets: Widgets { btn_flash: false, btn_normal: true, ..a.widgets },
        flash_active: false,
        ..a
    }
}

/// The countdown after one blink: while the alarm sounds the phase flips.
pub open spec fn blink_state(s: SharedState) -> SharedState {
    if s.remaining_secs == 0 {
        SharedState { blink_dark: !s.blink_dark, ..s }
    } else {
        s
    }
}

/// The command id of the greyed-out line of the tray menu that shows the time left.
pub const MENU_ID_REMAINING: usize = 1;
/// The command id of the tray menu's exit item.
pub const MENU_ID_EXIT: usize = 2;

/// Whether the command that the tray menu returned ends the program: only the
/// exit item does; the time line and a dismissed menu (zero) do not.
pub fn tray_choice_quits(selected: i32) -> (quit: bool)
    ensures
        quit == (selected == MENU_ID_EXIT),
{
    selected == 2
}

fn nothing() -> (e: Effects)
    ensures
        no_effects(e),
{
    Effects {
        repaint: None,
        blink_timer: TimerCmd::Keep,
        flash_timer: TimerCmd::Keep,
        redraw_alarm_button: false,
    }
}

impl AlarmApp {
    /// The window as it is built: every control visible, no timer running.
    pub fn new() -> (a: Self)
        ensures
            a.widgets == (Widgets {
                dot_normal: true,
                dot_alarm: true,
                caption_normal: true,
                caption_alarm: true,
                time_normal: true,
                time_alarm: true,
                btn_normal: true,
                btn_alarm: true,
                btn_flash: true,
            }),
            !a.blink_running,
            !a.flash_active,
    {
        AlarmApp {
            widgets: Widgets {
                dot_normal: true,
                dot_alarm: true,
                caption_normal: true,
                caption_alarm: true,
                time_normal: true,
                time_alarm: true,
                btn_normal: true,
                btn_alarm: true,
                btn_flash: true,
            },
            blink_running: false,
            flash_active: false,
        }
    }

    /// Hides the controls that only the alarm or a confirmation shows.
    pub fn init_visibility(&mut self)
        ensures
            final(self).widgets == (Widgets {
                dot_alarm: false,
                caption_alarm: false,
                time_alarm: false,
                btn_alarm: false,
                btn_flash: false,
                ..old(self).widgets
            }),
            final(self).blink_running == old(self).blink_running,
            final(self).flash_active == old(self).flash_active,
    {
        self.widgets.dot_alarm = false;
        self.widgets.caption_alarm = false;
        self.widgets.time_alarm = false;
        self.widgets.btn_alarm = false;
        self.widgets.btn_flash = false;
    }

    /// Brings the window in line with the countdown: the time texts and the
    /// tooltip, the alarm or the normal set of controls, and the blinking.
    /// While the highlight after a confirmation is on and the count runs, the
    /// highlight is left alone and the reset button is hidden under it.
    pub fn refresh_ui(&mut self, state: &mut SharedState) -> (e: Effects)
        ensures
            *final(self) == refresh_app(*old(self), old(state).remaining_secs == 0),
            *final(state) == refresh_state(*old(self), *old(state)),
            repaints(e, old(state).remaining_secs),
            e.blink_timer == refresh_timer(*old(self), old(state).remaining_secs == 0),
            e.flash_timer == TimerCmd::Keep,
            !e.redraw_alarm_button,
            old(state).wf() ==> final(state).wf(),
            final(state).remaining_secs == old(state).remaining_secs,
            final(state).alarm_active == old(state).alarm_active,
            final(state).reset_secs == old(state).reset_secs,
            old(state).remaining_secs == 0 ==> final(self).blink_running,
            old(state).remaining_secs == 0 && old(self).blink_running ==> {
                &&& final(self).widgets.btn_normal == old(self).widgets.btn_normal
                &&& final(self).widgets.btn_alarm == old(self).widgets.btn_alarm
                &&& final(self).widgets.btn_flash == old(self).widgets.btn_flash
                &&& final(state).blink_dark == old(state).blink_dark
            },
            old(state).remaining_secs == 0 && !old(self).blink_running ==> {
                &&& final(self).widgets.btn_alarm
                &&& !final(self).widgets.btn_normal
                &&& !final(self).widgets.btn_flash
                &&& !final(state).blink_dark
            },
            old(state).remaining_secs != 0 ==> {
                &&& !final(self).blink_running
                &&& !final(state).blink_dark
                &&& !old(self).flash_active ==> final(self).widgets.btn_normal
                    && !final(self).widgets.btn_alarm && !final(self).widgets.btn_flash
                &&& old(self).flash_active ==> !final(self).widgets.btn_normal
                    && final(self).widgets.btn_flash == old(self).widgets.btn_flash
                    && final(self).widgets.btn_alarm == old(self).widgets.btn_alarm
            },
            final(self).flash_active == old(self).flash_active,
    {
        let remaining = state.remaining_secs;
        let is_alarm = remaining == 0;
        let time_text = format_clock(remaining);
        let tip = tray_tip(remaining);
        let mut blink_timer = TimerCmd::Keep;
        if is_alarm {
            self.widgets.dot_normal = false;
            self.widgets.dot_alarm = true;
            self.widgets.caption_normal = false;
            self.widgets.caption_alarm = true;
            self.widgets.time_normal = false;
            self.widgets.time_alarm = true;
            if !self.blink_running {
                blink_timer = TimerCmd::Start;
                self.blink_running = true;
                state.blink_dark = false;
                self.widgets.btn_normal = false;
                self.widgets.btn_alarm = true;
                self.widgets.btn_flash = false;
            }
        } else {
            self.widgets.dot_normal = true;
            self.widgets.dot_alarm = false;
            self.widgets.caption_normal = true;
            self.widgets.caption_alarm = false;
            self.widgets.time_normal = true;
            self.widgets.time_alarm = false;
            if self.blink_running {
                blink_timer = TimerCmd::Stop;
                self.blink_running = false;
            }
            state.blink_dark = false;
            if !self.flash_active {
                self.widgets.btn_normal = true;
                self.widgets.btn_alarm = false;
                self.widgets.btn_flash = false;
            } else {
                self.widgets.btn_normal = false;
            }
        }
        Effects {
            repaint: Some(Repaint { time_text, tray_tip: tip }),
            blink_timer,
            flash_timer: TimerCmd::Keep,
            redraw_alarm_button: false,
        }
    }

    /// The confirm button: while the alarm sounds, turns it off, restarts the
    /// countdown, stops the blinking, shows the highlight, plays the
    /// confirmation chime and refreshes the window; otherwise does nothing.
    pub fn on_confirm(&mut self, state: &mut SharedState, bus: &mut SoundBus) -> (e: Effects)
        ensures
            *final(self) == confirm_app(*old(self), *old(state)),
            *final(state) == confirm_state(*old(self), *old(state)),
            final(bus).volume_spec() == old(bus).volume_spec(),
            confirm_acts(*old(state)) ==> {
                &&& final(bus).sent() == old(bus).sent().push(SoundCmd::Confirm)
                &&& repaints(e, old(state).reset_secs)
                &&& e.blink_timer == (if refresh_timer(
                    confirmed_app(*old(self)),
                    old(state).reset_secs == 0,
                ) == TimerCmd::Start {
                    TimerCmd::Restart
                } else {
                    TimerCmd::Stop
                })
                &&& e.flash_timer == TimerCmd::Start
                &&& !e.redraw_alarm_button
            },
            !confirm_acts(*old(state)) ==> final(bus).sent() == old(bus).sent() && no_effects(e),
            old(state).wf() ==> final(state).wf(),
            old(state).remaining_secs == 0 ==> {
                &&& final(bus).sent() == old(bus).sent().push(SoundCmd::Confirm)
                &&& final(state).remaining_secs == old(state).reset_secs
                &&& final(state).reset_secs == old(state).reset_secs
                &&& !final(state).alarm_active
                &&& final(self).flash_active
                &&& e.flash_timer == TimerCmd::Start
                &&& e.repaint is Some
            },
            old(state).remaining_secs != 0 ==> {
                &&& *final(state) == *old(state)
                &&& *final(self) == *old(self)
                &&& final(bus).sent() == old(bus).sent()
            },
    {
        if !state.is_alarming() {
            return nothing();
        }
        state.alarm_active = false;
        state.remaining_secs = state.reset_secs;
        self.blink_running = false;
        state.blink_dark = false;
        self.widgets.btn_alarm = false;
        self.flash_active = true;
        self.widgets.btn_flash = true;
        play_confirm_sound(bus);
        let r = self.refresh_ui(state);
        let blink_timer = match r.blink_timer {
            TimerCmd::Start => TimerCmd::Restart,
            _ => TimerCmd::Stop,
        };
        Effects {
            repaint: r.repaint,
            blink_timer,
            flash_timer: TimerCmd::Start,
            redraw_alarm_button: false,
        }
    }

    /// The reset button: unless the alarm sounds or the count already stands at
    /// its restart value, restarts the countdown, plays the reset chime and
    /// refreshes the window; otherwise does nothing.
    pub fn on_reset(&mut self, state: &mut SharedState, bus: &mut SoundBus) -> (e: Effects)
        ensures
            *final(self) == reset_app(*old(self), *old(state)),
            *final(state) == reset_state(*old(self), *old(state)),
            final(bus).volume_spec() == old(bus).volume_spec(),
            reset_acts(*old(state)) ==> {
                &&& final(bus).sent() == old(bus).sent().push(SoundCmd::Reset)
                &&& repaints(e, old(state).reset_secs)
                &&& e.blink_timer == refresh_timer(*old(self), old(state).reset_secs == 0)
                &&& e.flash_timer == TimerCmd::Keep
                &&& !e.redraw_alarm_button
            },
            !reset_acts(*old(state)) ==> final(bus).sent() == old(bus).sent() && no_effects(e),
            old(state).wf() ==> final(state).wf(),
            old(state).remaining_secs != 0 && old(state).remaining_secs != old(state).reset_secs ==> {
                &&& final(bus).sent() == old(bus).sent().push(SoundCmd::Reset)
                &&& final(state).remaining_secs == old(state).reset_secs
                &&& final(state).reset_secs == old(state).reset_secs
                &&& final(state).alarm_active == old(state).alarm_active
                &&& e.repaint is Some
            },
            old(state).remaining_secs == 0 || old(state).remaining_secs == old(state).reset_secs ==> {
                &&& *final(state) == *old(state)
                &&& *final(self) == *old(self)
                &&& final(bus).sent() == old(bus).sent()
            },
    {
        if state.is_alarming() {
            return nothing();
        }
        if state.remaining_secs == state.reset_secs {
            return nothing();
        }
        state.remaining_secs = state.reset_secs;
        play_reset_sound(bus);
        self.refresh_ui(state)
    }

    /// The end of the highlight after a confirmation: the reset button returns.
    pub fn on_confirm_flash_end(&mut self) -> (e: Effects)
        ensures
            *final(self) == flash_end_app(*old(self)),
            e.repaint.is_none(),
            e.blink_timer == TimerCmd::Keep,
            e.flash_timer == TimerCmd::Stop,
            !e.redraw_alarm_button,
    {
        self.flash_active = false;
        self.widgets.btn_flash = false;
        self.widgets.btn_normal = true;
        Effects {
            repaint: None,
            blink_timer: TimerCmd::Keep,
            flash_timer: TimerCmd::Stop,
            redraw_alarm_button: false,
        }
    }

    /// One blink step: while the alarm sounds, the confirm button switches to
    /// its other shade and is redrawn; otherwise nothing happens.
    pub fn on_blink(&self, state: &mut SharedState) -> (e: Effects)
        ensures
            *final(state) == blink_state(*old(state)),
            e.repaint.is_none(),
            e.blink_timer == TimerCmd::Keep,
            e.flash_timer == TimerCmd::Keep,
            e.redraw_alarm_button == (old(state).remaining_secs == 0),
            old(state).wf() ==> final(state).wf(),
            old(state).remaining_secs == 0 ==> final(state).blink_dark == !old(state).blink_dark,
            old(state).remaining_secs != 0 ==> final(state).blink_dark == old(state).blink_dark,
            final(state).remaining_secs == old(state).remaining_secs,
            final(state).alarm_active == old(state).alarm_active,
            final(state).reset_secs == old(state).reset_secs,
    {
        if !state.is_alarming() {
            return nothing();
        }
        state.blink_dark = !state.blink_dark;
        Effects {
            repaint: None,
            blink_timer: TimerCmd::Keep,
            flash_timer: TimerCmd::Keep,
            redraw_alarm_button: true,
        }
    }
}

/// After any refresh the status dot, the caption and the time show the alarm
/// set exactly when the countdown stands at zero, and the other set otherwise.
pub proof fn lemma_refresh_shows_alarm_iff_zero(a: AlarmApp, s: SharedState)
    ensures
        ({
            let w = refresh_app(a, s.remaining_secs == 0).widgets;
            &&& w.dot_alarm == (s.remaining_secs == 0)
            &&& w.caption_alarm == (s.remaining_secs == 0)
            &&& w.time_alarm == (s.remaining_secs == 0)
            &&& w.dot_normal == (s.remaining_secs != 0)
            &&& w.caption_normal == (s.remaining_secs != 0)
            &&& w.time_normal == (s.remaining_secs != 0)
        }),
        refresh_app(a, s.remaining_secs == 0).blink_running == (s.remaining_secs == 0),
{
}

/// A second press of the reset button right after the first does nothing and
/// plays no sound: a double click restarts the countdown once.
pub proof fn lemma_reset_double_press(a: AlarmApp, s: SharedState)
    ensures
        !reset_acts(reset_state(a, s)),
{
}

/// With a positive restart value, a second press of the confirm button right
/// after the first does nothing and plays no sound.
pub proof fn lemma_confirm_double_press(a: AlarmApp, s: SharedState)
    requires
        s.reset_secs > 0,
    ensures
        !confirm_acts(confirm_state(a, s)),
{
}

/// Confirming the alarm turns it off and restarts the countdown from its
/// restart value; the blinking stops and the highlight replaces the confirm
/// button until the highlight ends, when the reset button comes back.
pub proof fn lemma_confirm_then_flash_end(a: AlarmApp, s: SharedState)
    requires
        confirm_acts(s),
        s.reset_secs > 0,
    ensures
        ({
            let s2 = confirm_state(a, s);
            let a2 = confirm_app(a, s);
            let a3 = flash_end_app(a2);
            &&& s2.remaining_secs == s.reset_secs
            &&& !s2.alarm_active
            &&& !s2.blink_dark
            &&& !a2.blink_running
            &&& a2.flash_active
            &&& a2.widgets.btn_flash
            &&& !a2.widgets.btn_alarm
            &&& !a2.widgets.btn_normal
            &&& a2.widgets.dot_normal
            &&& !a2.widgets.dot_alarm
            &&& !a3.flash_active
            &&& a3.widgets.btn_normal
            &&& !a3.widgets.btn_flash
            &&& !a3.widgets.btn_alarm
        }),
{
}

/// Two blink steps bring the confirm button back to the shade it had.
pub proof fn lemma_blink_twice(s: SharedState)
    ensures
        blink_state(blink_state(s)) == s,
{
}

/// A refresh at zero while the blink already runs leaves the three buttons and
/// the blink phase as they are, so the confirm button stays available while
/// the alarm sounds; the first refresh at zero shows the confirm button alone,
/// in its light phase, and starts the blinking.
pub proof fn lemma_refresh_at_zero_buttons(a: AlarmApp, s: SharedState)
    requires
        s.remaining_secs == 0,
    ensures
        refresh_app(a, true).blink_running,
        a.blink_running ==> {
            &&& refresh_app(a, true).widgets.btn_normal == a.widgets.btn_normal
            &&& refresh_app(a, true).widgets.btn_alarm == a.widgets.btn_alarm
            &&& refresh_app(a, true).widgets.btn_flash == a.widgets.btn_flash
            &&& refresh_state(a, s).blink_dark == s.blink_dark
        },
        !a.blink_running ==> {
            &&& refresh_app(a, true).widgets.btn_alarm
            &&& !refresh_app(a, true).widgets.btn_normal
            &&& !refresh_app(a, true).widgets.btn_flash
            &&& !refresh_state(a, s).blink_dark
        },
{
}

/// A refresh while the count runs stops the blinking in its light phase and
/// shows the reset button alone, unless the highlight is on, which then stays
/// with the reset button hidden under it. A refresh never moves the count.
pub proof fn lemma_refresh_while_counting(a: AlarmApp, s: SharedState)
    requires
        s.remaining_secs != 0,
    ensures
        !refresh_app(a, false).blink_running,
        !refresh_state(a, s).blink_dark,
        refresh_state(a, s).remaining_secs == s.remaining_secs,
        refresh_state(a, s).alarm_active == s.alarm_active,
        refresh_state(a, s).reset_secs == s.reset_secs,
        !a.flash_active ==> {
            &&& refresh_app(a, false).widgets.btn_normal
            &&& !refresh_app(a, false).widgets.btn_alarm
            &&& !refresh_app(a, false).widgets.btn_flash
        },
        a.flash_active ==> {
            &&& !refresh_app(a, false).widgets.btn_normal
            &&& refresh_app(a, false).widgets.btn_flash == a.widgets.btn_flash
        },
{
}

/// Whenever the count stands at zero, a confirmation restarts it at the
/// restart value and turns the alarm off, whatever the blink phase and whether
/// or not the alarm flag is set; at any other count it changes nothing.
pub proof fn lemma_confirm_acts_exactly_at_zero(a: AlarmApp, s: SharedState)
    ensures
        confirm_acts(s) <==> s.remaining_secs == 0,
        s.remaining_secs == 0 ==> {
            &&& confirm_state(a, s).remaining_secs == s.reset_secs
            &&& confirm_state(a, s).reset_secs == s.reset_secs
            &&& !confirm_state(a, s).alarm_active
            &&& confirm_app(a, s).flash_active
        },
        s.remaining_secs != 0 ==> confirm_state(a, s) == s && confirm_app(a, s) == a,
{
}

/// A press of reset restarts the count at its restart value exactly when the
/// count runs and differs from that value, however much time is left; at zero
/// or at the restart value it changes nothing.
pub proof fn lemma_reset_acts_exactly_while_running(a: AlarmApp, s: SharedState)
    ensures
        reset_acts(s) <==> (s.remaining_secs != 0 && s.remaining_secs != s.reset_secs),
        s.remaining_secs != 0 && s.remaining_secs != s.reset_secs ==> {
            &&& reset_state(a, s).remaining_secs == s.reset_secs
            &&& reset_state(a, s).reset_secs == s.reset_secs
            &&& reset_state(a, s).alarm_active == s.alarm_active
        },
        s.remaining_secs == 0 || s.remaining_secs == s.reset_secs ==> reset_state(a, s) == s
            && reset_app(a, s) == a,
{
}

/// At zero every blink step flips the shade, whatever the restart value; at
/// any other count it changes nothing; the count itself never moves.
pub proof fn lemma_blink_flips_at_zero(s: SharedState)
    ensures
        s.remaining_secs == 0 ==> blink_state(s).blink_dark == !s.blink_dark,
        s.remaining_secs != 0 ==> blink_state(s) == s,
        blink_state(s).remaining_secs == s.remaining_secs,
        blink_state(s).alarm_active == s.alarm_active,
        blink_state(s).reset_secs == s.reset_secs,
{
}

} // verus!
