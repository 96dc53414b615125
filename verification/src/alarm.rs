use vstd::prelude::*;
use std::sync::mpsc::Sender;

verus! {

/// The sending end of a standard channel, carried through as an opaque value.
#[verifier::external_type_specification]
#[verifier::external_body]
#[verifier::reject_recursive_types(T)]
pub struct ExSender<T>(Sender<T>);

/// The requests that the window and the ticker send to the sound thread.
#[derive(Clone, Copy, Debug, PartialEq, Eq, Structural)]
pub enum SoundCmd {
    /// The countdown reached zero: beep until told otherwise.
    StartAlarm,
    /// The alarm was confirmed: stop beeping and play the rising chime.
    Confirm,
    /// The countdown was restarted by hand: play the falling chime.
    Reset,
}

/// The three sounds the player has.
#[derive(Clone, Copy, Debug, PartialEq, Eq, Structural)]
pub enum Tone {
    /// The alarm beep, 1200 Hz for 100 ms.
    Beep,
    /// The low chime note, 1800 Hz for 80 ms.
    Low,
    /// The high chime note, 2400 Hz for 80 ms.
    High,
}

/// The pause between two alarm beeps, during which the player listens for requests.
pub const BEEP_GAP_MS: u64 = 400;

/// The frequency of a tone in hertz.
pub open spec fn tone_freq_spec(t: Tone) -> u32 {
    match t {
        Tone::Beep => 1200,
        Tone::Low => 1800,
        Tone::High => 2400,
    }
}

/// The length of a tone in milliseconds.
pub open spec fn tone_duration_spec(t: Tone) -> u32 {
    match t {
        Tone::Beep => 100,
        Tone::Low => 80,
        Tone::High => 80,
    }
}

/// The frequency of a tone in hertz.
pub fn tone_freq(t: Tone) -> (f: u32)
    ensures
        f == tone_freq_spec(t),
{
    match t {
        Tone::Beep => 1200,
        Tone::Low => 1800,
        Tone::High => 2400,
    }
}

/// The length of a tone in milliseconds.
pub fn tone_duration_ms(t: Tone) -> (ms: u32)
    ensures
        ms == tone_duration_spec(t),
{
    match t {
        Tone::Beep => 100,
        Tone::Low => 80,
        Tone::High => 80,
    }
}

/// The notes played for a request: rising for a confirmation, falling for a reset.
pub open spec fn chime(cmd: SoundCmd) -> Seq<Tone> {
    match cmd {
        SoundCmd::Confirm => seq![Tone::Low, Tone::High],
        SoundCmd::Reset => seq![Tone::High, Tone::Low],
        SoundCmd::StartAlarm => Seq::empty(),
    }
}

/// The channel to the sound thread, with the output volume in percent.
pub struct SoundBus {
    tx: Sender<SoundCmd>,
    volume: u32,
    sent: Ghost<Seq<SoundCmd>>,
}

impl SoundBus {
    /// Every request handed to the channel so far, oldest first.
    pub closed spec fn sent(&self) -> Seq<SoundCmd> {
        self.sent@
    }

    /// The output volume in percent.
    pub closed spec fn volume_spec(&self) -> u32 {
        self.volume
    }

    /// A bus over the sending end of the sound thread's channel, at full volume
    /// (100), with nothing sent yet.
    pub fn new(tx: Sender<SoundCmd>) -> (bus: Self)
        ensures
            bus.sent() == Seq::<SoundCmd>::empty(),
            bus.volume_spec() == 100,
    {
        SoundBus { tx, volume: 100, sent: Ghost(Seq::empty()) }
    }

    /// The output volume in percent.
    pub fn volume(&self) -> (v: u32)
        ensures
            v == self.volume_spec(),
    {
        self.volume
    }
}

/// Hands `cmd` to the sound thread with `Sender::send`.
/// The request is recorded in the bus's log of sent requests; whether the
/// thread is still there to receive it is not stated (a send to a channel whose
/// receiver has gone fails, and the failure is ignored, as the program did).
#[verifier::external_body]
fn send_to_player(bus: &mut SoundBus, cmd: SoundCmd)
    ensures
        final(bus).sent() == old(bus).sent().push(cmd),
        final(bus).volume_spec() == old(bus).volume_spec(),
{
    let _ = bus.tx.send(cmd);
}

/// Sets the output volume in percent that the next sounds are played at.
pub fn set_volume(bus: &mut SoundBus, v: u32)
    ensures
        final(bus).volume_spec() == v,
        final(bus).sent() == old(bus).sent(),
{
    bus.volume = v;
}

/// Tells the sound thread that the alarm has gone off.
pub fn start_beep_loop(bus: &mut SoundBus)
    ensures
        final(bus).sent() == old(bus).sent().push(SoundCmd::StartAlarm),
        final(bus).volume_spec() == old(bus).volume_spec(),
{
    send_to_player(bus, SoundCmd::StartAlarm);
}

/// Tells the sound thread that the alarm was confirmed.
pub fn play_confirm_sound(bus: &mut SoundBus)
    ensures
        final(bus).sent() == old(bus).sent().push(SoundCmd::Confirm),
        final(bus).volume_spec() == old(bus).volume_spec(),
{
    send_to_player(bus, SoundCmd::Confirm);
}

/// Tells the sound thread that the countdown was restarted by hand.
pub fn play_reset_sound(bus: &mut SoundBus)
    ensures
        final(bus).sent() == old(bus).sent().push(SoundCmd::Reset),
        final(bus).volume_spec() == old(bus).volume_spec(),
{
    send_to_player(bus, SoundCmd::Reset);
}

/// The 16-bit level of one channel for a volume in percent: 200 % is full
/// scale, and the level wraps around above 16 bits.
pub open spec fn channel_level(vol: u32) -> nat {
    ((vol as nat * 65535) / 200) % 65536
}

/// The `waveOutSetVolume` argument for a volume in percent: the same level for
/// the left channel (low 16 bits) and the right channel (high 16 bits).
pub fn wave_out_volume(vol: u32) -> (packed: u32)
    ensures
        packed == channel_level(vol) * 65536 + channel_level(vol),
        packed % 65536 == channel_level(vol),
        packed / 65536 == channel_level(vol),
{
    assert(vol as nat * 65535 <= u64::MAX) by (nonlinear_arith)
        requires
            vol <= u32::MAX,
    ;
    let scaled: u64 = vol as u64 * 65535 / 200;
    let level: u32 = (scaled % 65536) as u32;
    level * 65536 + level
}

/// What the sound thread learns while it waits.
#[derive(Clone, Copy, Debug, PartialEq, Eq, Structural)]
pub enum SoundEvent {
    /// A request arrived.
    Received(SoundCmd),
    /// The pause between two beeps passed with no request.
    TimedOut,
    /// Every sender is gone.
    Disconnected,
}

/// How the sound thread waits for the next event.
pub struct Listen {
    /// The tones to play (at the current volume) before waiting.
    pub before: Vec<Tone>,
    /// The longest wait in milliseconds, or `None` to wait without limit.
    pub timeout_ms: Option<u64>,
}

/// What the sound thread does with an event.
pub struct Reaction {
    /// The tones to play, in order, at the current volume.
    pub tones: Vec<Tone>,
    /// Whether to throw away the confirmations and resets that are already
    /// queued (see [`keeps_draining`]).
    pub drain: bool,
    /// Whether the thread ends.
    pub stop: bool,
}

/// The sound thread's state: whether the alarm is beeping.
pub struct SoundPlayer {
    pub alarming: bool,
}

/// The player's state after an event.
pub open spec fn react_spec(alarming: bool, ev: SoundEvent) -> bool {
    match ev {
        SoundEvent::Received(SoundCmd::StartAlarm) => true,
        SoundEvent::Received(_) => false,
        _ => alarming,
    }
}

impl SoundPlayer {
    /// A player that starts silent.
    pub fn new() -> (p: Self)
        ensures
            !p.alarming,
    {
        SoundPlayer { alarming: false }
    }

    /// While the alarm beeps, each wait is one beep followed by at most
    /// [`BEEP_GAP_MS`] of listening; otherwise the player waits silently for as
    /// long as it takes.
    pub fn listen(&self) -> (l: Listen)
        ensures
            self.alarming ==> l.before@ == seq![Tone::Beep] && l.timeout_ms == Some(BEEP_GAP_MS),
            !self.alarming ==> l.before@ == Seq::<Tone>::empty() && l.timeout_ms.is_none(),
    {
        if self.alarming {
            Listen { before: vec![Tone::Beep], timeout_ms: Some(BEEP_GAP_MS) }
        } else {
            Listen { before: Vec::new(), timeout_ms: None }
        }
    }

    /// The player's answer to an event: an alarm request starts the beeping; a
    /// confirmation or reset stops it, plays its chime and drains the
    /// confirmations and resets already queued (see [`SoundPlayer::drain_step`]);
    /// a lost channel ends the thread; a pause with
    /// no request changes nothing.
    pub fn react(&mut self, ev: SoundEvent) -> (r: Reaction)
        ensures
            final(self).alarming == react_spec(old(self).alarming, ev),
            r.stop == (ev == SoundEvent::Disconnected),
            r.tones@ == (match ev {
                SoundEvent::Received(cmd) => chime(cmd),
                _ => Seq::<Tone>::empty(),
            }),
            r.drain == (ev == SoundEvent::Received(SoundCmd::Confirm) || ev
                == SoundEvent::Received(SoundCmd::Reset)),
    {
        match ev {
            SoundEvent::Received(SoundCmd::StartAlarm) => {
                self.alarming = true;
                Reaction { tones: Vec::new(), drain: false, stop: false }
            },
            SoundEvent::Received(SoundCmd::Confirm) => {
                self.alarming = false;
                Reaction { tones: vec![Tone::Low, Tone::High], drain: true, stop: false }
            },
            SoundEvent::Received(SoundCmd::Reset) => {
                self.alarming = false;
                Reaction { tones: vec![Tone::High, Tone::Low], drain: true, stop: false }
            },
            SoundEvent::TimedOut => Reaction { tones: Vec::new(), drain: false, stop: false },
            SoundEvent::Disconnected => Reaction { tones: Vec::new(), drain: false, stop: true },
        }
    }

    /// One step of the draining after a chime, with the request just taken
    /// from the queue (`None` when the queue was empty or gone): confirmations
    /// and resets are dropped and the draining goes on; an alarm request met
    /// here starts the beeping and ends the draining, like any other outcome.
    pub fn drain_step(&mut self, next: Option<SoundCmd>) -> (more: bool)
        ensures
            more == (next == Some(SoundCmd::Confirm) || next == Some(SoundCmd::Reset)),
            final(self).alarming == (old(self).alarming || next == Some(SoundCmd::StartAlarm)),
    {
        if next == Some(SoundCmd::StartAlarm) {
            self.alarming = true;
        }
        keeps_draining(next)
    }
}

/// While draining after a chime, whether the request just taken from the
/// queue (`None` when the queue was empty or gone) lets the draining go on:
/// only confirmations and resets do. An alarm request ends the draining and is
/// handled by [`SoundPlayer::drain_step`].
pub fn keeps_draining(next: Option<SoundCmd>) -> (more: bool)
    ensures
        more == (next == Some(SoundCmd::Confirm) || next == Some(SoundCmd::Reset)),
{
    match next {
        Some(SoundCmd::Confirm) => true,
        Some(SoundCmd::Reset) => true,
        _ => false,
    }
}

} // verus!
