use vstd::prelude::*;
use crate::alarm::{start_beep_loop, SoundBus, SoundCmd};

verus! {

/// The countdown state shared between the one-second ticker and the window.
pub struct SharedState {
    /// Seconds left before the alarm; zero while the alarm sounds.
    pub remaining_secs: u64,
    /// Whether the alarm has fired and has not been confirmed yet.
    pub alarm_active: bool,
    /// The value the countdown restarts from.
    pub reset_secs: u64,
    /// Which of the two blink phases the alarm button shows.
    pub blink_dark: bool,
}

impl SharedState {
    /// The state that every operation of the library keeps: the countdown never
    /// exceeds its restart value, and an active alarm means the countdown is at zero.
    pub open spec fn wf(self) -> bool {
        &&& self.remaining_secs <= self.reset_secs
        &&& (self.alarm_active ==> self.remaining_secs == 0)
    }

    /// A fresh countdown that starts at `reset_secs`, with no alarm.
    pub fn new(reset_secs: u64) -> (s: Self)
        ensures
            s.remaining_secs == reset_secs,
            s.reset_secs == reset_secs,
            !s.alarm_active,
            !s.blink_dark,
            s.wf(),
    {
        SharedState { remaining_secs: reset_secs, alarm_active: false, reset_secs, blink_dark: false }
    }

    /// The alarm sounds exactly when the countdown has reached zero.
    pub fn is_alarming(&self) -> (b: bool)
        ensures
            b == (self.remaining_secs == 0),
    {
        self.remaining_secs == 0
    }
}

/// The state after one second has passed.
pub open spec fn tick_spec(s: SharedState) -> SharedState {
    if s.remaining_secs > 0 {
        SharedState {
            remaining_secs: (s.remaining_secs - 1) as u64,
            alarm_active: s.alarm_active || s.remaining_secs == 1,
            ..s
        }
    } else {
        s
    }
}

/// Whether the second that passes in state `s` makes the alarm go off.
pub open spec fn tick_fires(s: SharedState) -> bool {
    s.remaining_secs == 1
}

/// The state after `n` seconds have passed.
pub open spec fn ticks(s: SharedState, n: nat) -> SharedState
    decreases n,
{
    if n == 0 {
        s
    } else {
        ticks(tick_spec(s), (n - 1) as nat)
    }
}

/// One second of the countdown: the count drops by one while it is above zero,
/// and on the second that brings it to zero the alarm is raised and the sound
/// thread is told to start beeping. Returns whether the alarm went off.
pub fn tick(state: &mut SharedState, bus: &mut SoundBus) -> (fires: bool)
    ensures
        *final(state) == tick_spec(*old(state)),
        fires == tick_fires(*old(state)),
        final(bus).sent() == (if fires {
            old(bus).sent().push(SoundCmd::StartAlarm)
        } else {
            old(bus).sent()
        }),
        final(bus).volume_spec() == old(bus).volume_spec(),
        old(state).wf() ==> final(state).wf(),
{
    let cur = state.remaining_secs;
    if cur > 0 {
        let next = cur - 1;
        state.remaining_secs = next;
        if next == 0 {
            state.alarm_active = true;
            start_beep_loop(bus);
            return true;
        }
    }
    false
}

/// After `n` seconds the countdown stands at `remaining - n`, or at zero once
/// it has run out; the restart value and the blink phase do not move.
pub proof fn lemma_ticks_count_down(s: SharedState, n: nat)
    ensures
        ticks(s, n).remaining_secs == (if n <= s.remaining_secs { s.remaining_secs - n } else { 0 }),
        ticks(s, n).reset_secs == s.reset_secs,
        ticks(s, n).blink_dark == s.blink_dark,
    decreases n,
{
    if n > 0 {
        lemma_ticks_count_down(tick_spec(s), (n - 1) as nat);
    }
}

/// The alarm goes off exactly once while the countdown runs: on the second
/// numbered `remaining - 1` (counting from zero), and on no other.
pub proof fn lemma_alarm_fires_once(s: SharedState, k: nat)
    ensures
        tick_fires(ticks(s, k)) <==> k + 1 == s.remaining_secs,
{
    lemma_ticks_count_down(s, k);
}

/// Once the countdown has run for `remaining` seconds from a state with a
/// positive count, the alarm is raised and the count is zero.
pub proof fn lemma_alarm_raised_after_countdown(s: SharedState)
    requires
        s.remaining_secs > 0,
    ensures
        ticks(s, s.remaining_secs as nat).remaining_secs == 0,
        ticks(s, s.remaining_secs as nat).alarm_active,
    decreases s.remaining_secs,
{
    if s.remaining_secs > 1 {
        lemma_alarm_raised_after_countdown(tick_spec(s));
    } else {
        assert(ticks(tick_spec(s), 0) == tick_spec(s));
    }
}

/// The well-formedness of the countdown survives any number of seconds.
pub proof fn lemma_ticks_keep_wf(s: SharedState, n: nat)
    requires
        s.wf(),
    ensures
        ticks(s, n).wf(),
    decreases n,
{
    if n > 0 {
        lemma_ticks_keep_wf(tick_spec(s), (n - 1) as nat);
    }
}

} // verus!
