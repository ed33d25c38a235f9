//! Decisions of the HID worker: the tick cadence, noticing that
//! telemetry went silent, the startup pulse and the press peaks. The
//! worker itself (device I/O, sleeping, locking the shared state) runs
//! outside this crate and feeds these functions its clock and readings.

use vstd::prelude::*;

use crate::controller::{initial_controller, tick, Controller, FrameReadings};
use crate::hid::Transport;
use crate::settings::Settings;
use crate::state::HidStatus;
use crate::telemetry::Telemetry;
use crate::triggers::Effect;

verus! {

/// HID update rate.
pub const TICK_HZ: u64 = 250;

/// One tick, in nanoseconds.
pub const TICK_NANOS: u64 = 4_000_000;

/// Pause between attempts to open the controller, in seconds.
pub const RECONNECT_INTERVAL_SECS: u64 = 10;

/// Silence after which telemetry counts as lost, in nanoseconds.
pub const TELEMETRY_LOST_AFTER_NANOS: u64 = 60_000_000_000;

/// Pause between the startup pulse and releasing it, in milliseconds.
pub const STARTUP_PULSE_MILLIS: u64 = 150;

/// The ~250 Hz tick schedule.
pub struct Cadence {
    pub next_deadline_ns: u64,
}

impl Cadence {
    pub fn new(now_ns: u64) -> (c: Cadence)
        ensures
            c.next_deadline_ns == now_ns,
    {
        Cadence { next_deadline_ns: now_ns }
    }

    /// Advance to the next tick and return how long to sleep until it.
    /// A worker that fell behind does not catch up: the schedule restarts
    /// from `now_ns` and it does not sleep.
    pub fn advance(&mut self, now_ns: u64) -> (sleep_ns: u64)
        requires
            old(self).next_deadline_ns + TICK_NANOS <= u64::MAX,
        ensures
            old(self).next_deadline_ns + TICK_NANOS > now_ns ==> final(self).next_deadline_ns
                == old(self).next_deadline_ns + TICK_NANOS && sleep_ns == old(
                self,
            ).next_deadline_ns + TICK_NANOS - now_ns,
            old(self).next_deadline_ns + TICK_NANOS <= now_ns ==> final(self).next_deadline_ns
                == now_ns && sleep_ns == 0,
    {
        self.next_deadline_ns = self.next_deadline_ns + TICK_NANOS;
        if self.next_deadline_ns > now_ns {
            self.next_deadline_ns - now_ns
        } else {
            // Fell behind: reset the deadline so we don't burn CPU
            // catching up.
            self.next_deadline_ns = now_ns;
            0
        }
    }
}

/// Tracks the packet counter to notice telemetry going silent.
pub struct TelemetryWatch {
    pub last_seen_packets: u64,
    pub last_change_ns: u64,
}

/// The watch after recording `packets` at `now`: a new count restarts the
/// silence clock, the same count leaves the watch as it was.
pub open spec fn watch_after(w: TelemetryWatch, packets: u64, now: u64) -> TelemetryWatch {
    if packets != w.last_seen_packets {
        TelemetryWatch { last_seen_packets: packets, last_change_ns: now }
    } else {
        w
    }
}

/// Whether recording `packets` at `now` finds telemetry lost: it once
/// flowed, the count has not changed, and more than a minute passed since
/// it last did.
pub open spec fn watch_lost(w: TelemetryWatch, packets: u64, now: u64) -> bool {
    &&& packets == w.last_seen_packets
    &&& packets > 0
    &&& now > w.last_change_ns
    &&& now - w.last_change_ns > TELEMETRY_LOST_AFTER_NANOS
}

impl TelemetryWatch {
    pub fn new(now_ns: u64) -> (w: TelemetryWatch)
        ensures
            w.last_seen_packets == 0,
            w.last_change_ns == now_ns,
    {
        TelemetryWatch { last_seen_packets: 0, last_change_ns: now_ns }
    }

    /// Record the packet counter at `now_ns`; returns whether telemetry
    /// that once flowed has been silent for longer than a minute, when
    /// the triggers should go neutral.
    pub fn observe(&mut self, packets: u64, now_ns: u64) -> (lost: bool)
        ensures
            *final(self) == watch_after(*old(self), packets, now_ns),
            lost == watch_lost(*old(self), packets, now_ns),
    {
        if packets != self.last_seen_packets {
            self.last_seen_packets = packets;
            self.last_change_ns = now_ns;
            false
        } else {
            let elapsed = now_ns.saturating_sub(self.last_change_ns);
            packets > 0 && elapsed > TELEMETRY_LOST_AFTER_NANOS
        }
    }
}

/// Silence window: once a new packet count is recorded at `now0`, a later
/// look at `now1` that finds the same count reports telemetry lost exactly
/// when more than a minute has passed (and some packet ever arrived); a
/// look that finds a new count never does.
pub proof fn lemma_watch_silence(w: TelemetryWatch, packets: u64, now0: u64, later: u64, now1: u64)
    requires
        packets != w.last_seen_packets,
        now0 <= now1,
    ensures
        watch_lost(watch_after(w, packets, now0), later, now1) == (later == packets && packets > 0
            && now1 - now0 > TELEMETRY_LOST_AFTER_NANOS),
        later != packets ==> watch_after(watch_after(w, packets, now0), later, now1)
            == (TelemetryWatch { last_seen_packets: later, last_change_ns: now1 }),
{
}

/// One output report: both trigger effects and the two rumble motor
/// levels (`0, 0` leaves the motors to Steam Input).
#[derive(Clone, Copy, Debug, PartialEq, Eq)]
pub struct OutputWrite {
    pub l2: Effect,
    pub r2: Effect,
    pub rumble_heavy: u8,
    pub rumble_light: u8,
}

/// Both triggers off, motors left alone.
pub open spec fn neutral_write() -> OutputWrite {
    OutputWrite { l2: Effect::Off, r2: Effect::Off, rumble_heavy: 0, rumble_light: 0 }
}

/// The writes that open a session: with the startup pulse enabled, the
/// pulse on both triggers and then both triggers off (the worker pauses
/// `STARTUP_PULSE_MILLIS` between them); otherwise none.
pub open spec fn startup_writes(s: Settings) -> Seq<OutputWrite> {
    if s.enable_startup_pulse {
        let pulse = Effect::Rigid { force: s.startup_pulse_force };
        seq![
            OutputWrite { l2: pulse, r2: pulse, rumble_heavy: 0, rumble_light: 0 },
            neutral_write(),
        ]
    } else {
        Seq::empty()
    }
}

/// The writes of one tick: a neutral write first when telemetry was just
/// found lost, then the tick's trigger effects with the rumble levels.
pub open spec fn tick_writes(lost: bool, l2: Effect, r2: Effect, rumble: (u8, u8)) -> Seq<OutputWrite> {
    let out = OutputWrite { l2, r2, rumble_heavy: rumble.0, rumble_light: rumble.1 };
    if lost {
        seq![neutral_write(), out]
    } else {
        seq![out]
    }
}

/// The writes that open a session, in order.
pub fn startup_sequence(s: &Settings) -> (w: Vec<OutputWrite>)
    ensures
        w@ == startup_writes(*s),
{
    let mut w: Vec<OutputWrite> = Vec::new();
    if let Some(pulse) = startup_pulse(s) {
        w.push(OutputWrite { l2: pulse, r2: pulse, rumble_heavy: 0, rumble_light: 0 });
        w.push(OutputWrite { l2: Effect::Off, r2: Effect::Off, rumble_heavy: 0, rumble_light: 0 });
    }
    assert(w@ =~= startup_writes(*s));
    w
}

/// The decisions of one connection to the controller: the trigger
/// controller and the telemetry watch, advanced once per tick.
pub struct DriveSession {
    pub controller: Controller,
    pub watch: TelemetryWatch,
}

impl DriveSession {
    /// A session starting at `now_ns` with settings `s`.
    pub fn new(s: &Settings, now_ns: u64) -> (d: DriveSession)
        ensures
            d.controller@ == initial_controller(*s),
            d.watch == (TelemetryWatch { last_seen_packets: 0, last_change_ns: now_ns }),
    {
        DriveSession { controller: Controller::new(s), watch: TelemetryWatch::new(now_ns) }
    }

    /// One tick at `now_ns`, with the frame `t`, the settings `s` read
    /// this tick, the packet counter, the controller's own analog press,
    /// the readings of the frame the tick acts on and the rumble levels.
    /// Returns the reports to send, in order: a neutral one when
    /// telemetry has just been found lost, then the tick's effects.
    pub fn step(
        &mut self,
        t: &Telemetry,
        s: &Settings,
        packets: u64,
        idle_press: Option<(u8, u8)>,
        r: &FrameReadings,
        rumble: (u8, u8),
        now_ns: u64,
    ) -> (w: Vec<OutputWrite>)
        ensures
            final(self).watch == watch_after(old(self).watch, packets, now_ns),
            final(self).controller@ == tick(old(self).controller@, *t, *s, idle_press, *r, now_ns).0,
            w@ == tick_writes(
                watch_lost(old(self).watch, packets, now_ns),
                tick(old(self).controller@, *t, *s, idle_press, *r, now_ns).1,
                tick(old(self).controller@, *t, *s, idle_press, *r, now_ns).2,
                rumble,
            ),
    {
        let mut w: Vec<OutputWrite> = Vec::new();
        if self.watch.observe(packets, now_ns) {
            w.push(OutputWrite { l2: Effect::Off, r2: Effect::Off, rumble_heavy: 0, rumble_light: 0 });
        }
        let (l2, r2) = self.controller.update(t, s, idle_press, r, now_ns);
        w.push(OutputWrite { l2, r2, rumble_heavy: rumble.0, rumble_light: rumble.1 });
        proof {
            let lost = watch_lost(old(self).watch, packets, now_ns);
            assert(w@ =~= tick_writes(lost, l2, r2, rumble));
        }
        w
    }
}

/// Telemetry silence: once a positive packet count is recorded at `now0`,
/// a later tick at `now1` that finds the count unchanged sends a neutral
/// report and then its effects when more than a minute has passed, and
/// only its effects before that.
pub proof fn lemma_silence_neutral_write(
    w: TelemetryWatch,
    packets: u64,
    now0: u64,
    now1: u64,
    l2: Effect,
    r2: Effect,
    rumble: (u8, u8),
)
    requires
        packets != w.last_seen_packets,
        packets > 0,
        now0 <= now1,
    ensures
        now1 - now0 > TELEMETRY_LOST_AFTER_NANOS ==> tick_writes(
            watch_lost(watch_after(w, packets, now0), packets, now1),
            l2,
            r2,
            rumble,
        ) == seq![
            neutral_write(),
            OutputWrite { l2, r2, rumble_heavy: rumble.0, rumble_light: rumble.1 },
        ],
        now1 - now0 <= TELEMETRY_LOST_AFTER_NANOS ==> tick_writes(
            watch_lost(watch_after(w, packets, now0), packets, now1),
            l2,
            r2,
            rumble,
        ) == seq![OutputWrite { l2, r2, rumble_heavy: rumble.0, rumble_light: rumble.1 }],
{
    lemma_watch_silence(w, packets, now0, packets, now1);
}

/// What the worker publishes about its link to the controller.
#[derive(Debug)]
pub struct LinkStatus {
    pub status: HidStatus,
    pub transport: Option<Transport>,
    pub serial: String,
    pub error: String,
}

/// The published link status, with its text as character sequences.
pub struct LinkView {
    pub status: HidStatus,
    pub transport: Option<Transport>,
    pub serial: Seq<char>,
    pub error: Seq<char>,
}

impl View for LinkStatus {
    type V = LinkView;

    open spec fn view(&self) -> LinkView {
        LinkView {
            status: self.status,
            transport: self.transport,
            serial: self.serial@,
            error: self.error@,
        }
    }
}

/// What happened to the link since the last step.
#[derive(Debug)]
pub enum LinkEvent {
    /// The controller was found and opened.
    Opened { transport: Transport, serial: String },
    /// No controller could be opened.
    OpenFailed { error: String },
    /// The session on an open controller stopped with an error.
    SessionFailed { error: String },
    /// The session on an open controller is over.
    SessionEnded,
}

/// What the worker does next.
#[derive(Clone, Copy, Debug, PartialEq, Eq, Structural)]
pub enum LinkAction {
    /// Run a session on the controller just opened.
    Drive,
    /// Close the session that just stopped.
    Close,
    /// Wait `after_secs` seconds, then try to open the controller again.
    Reopen { after_secs: u64 },
}

/// The status published after `ev`: an opened controller is connected,
/// with its transport and serial and no error; a failed open is
/// disconnected with its message; a failed session is an error with its
/// message; an ended session is disconnected with no transport. Whatever
/// an event does not mention stays as it was.
pub open spec fn link_after(v: LinkView, ev: LinkEvent) -> LinkView {
    match ev {
        LinkEvent::Opened { transport, serial } => LinkView {
            status: HidStatus::Connected,
            transport: Some(transport),
            serial: serial@,
            error: Seq::empty(),
        },
        LinkEvent::OpenFailed { error } => LinkView {
            status: HidStatus::Disconnected,
            error: error@,
            ..v
        },
        LinkEvent::SessionFailed { error } => LinkView { status: HidStatus::Error, error: error@, ..v },
        LinkEvent::SessionEnded => LinkView { status: HidStatus::Disconnected, transport: None, ..v },
    }
}

/// The worker's next move after `ev`: drive an opened controller, close a
/// failed session, and otherwise wait the reconnect interval and try
/// again, forever.
pub open spec fn link_action(ev: LinkEvent) -> LinkAction {
    match ev {
        LinkEvent::Opened { .. } => LinkAction::Drive,
        LinkEvent::SessionFailed { .. } => LinkAction::Close,
        _ => LinkAction::Reopen { after_secs: RECONNECT_INTERVAL_SECS },
    }
}

/// One step of the reconnect supervisor: the status to publish after
/// `ev`, and what to do next.
pub fn link_step(s: LinkStatus, ev: LinkEvent) -> (r: (LinkStatus, LinkAction))
    ensures
        r.0@ == link_after(s@, ev),
        r.1 == link_action(ev),
{
    match ev {
        LinkEvent::Opened { transport, serial } => (
            LinkStatus {
                status: HidStatus::Connected,
                transport: Some(transport),
                serial,
                error: String::new(),
            },
            LinkAction::Drive,
        ),
        LinkEvent::OpenFailed { error } => (
            LinkStatus {
                status: HidStatus::Disconnected,
                transport: s.transport,
                serial: s.serial,
                error,
            },
            LinkAction::Reopen { after_secs: RECONNECT_INTERVAL_SECS },
        ),
        LinkEvent::SessionFailed { error } => (
            LinkStatus { status: HidStatus::Error, transport: s.transport, serial: s.serial, error },
            LinkAction::Close,
        ),
        LinkEvent::SessionEnded => (
            LinkStatus {
                status: HidStatus::Disconnected,
                transport: None,
                serial: s.serial,
                error: s.error,
            },
            LinkAction::Reopen { after_secs: RECONNECT_INTERVAL_SECS },
        ),
    }
}

/// Reconnect cycle: a session that fails is published as an error and,
/// once closed, as disconnected with no transport and its message kept;
/// the worker then waits the reconnect interval before the next attempt,
/// as it does after a failed open. Only an opened controller is driven.
pub proof fn lemma_link_reconnects(v: LinkView, error: String, ev: LinkEvent)
    ensures
        link_after(v, LinkEvent::SessionFailed { error }).status == HidStatus::Error,
        link_action(LinkEvent::SessionFailed { error }) == LinkAction::Close,
        link_after(link_after(v, LinkEvent::SessionFailed { error }), LinkEvent::SessionEnded)
            == (LinkView {
            status: HidStatus::Disconnected,
            transport: None,
            serial: v.serial,
            error: error@,
        }),
        link_action(LinkEvent::SessionEnded) == (LinkAction::Reopen {
            after_secs: RECONNECT_INTERVAL_SECS,
        }),
        link_action(LinkEvent::OpenFailed { error }) == (LinkAction::Reopen {
            after_secs: RECONNECT_INTERVAL_SECS,
        }),
        link_action(ev) == LinkAction::Drive <==> ev is Opened,
{
}

/// The optional startup pulse, so the user can feel the controller is
/// alive: a rigid effect at the configured force on both triggers.
pub fn startup_pulse(s: &Settings) -> (e: Option<Effect>)
    ensures
        s.enable_startup_pulse ==> e == Some(Effect::Rigid { force: s.startup_pulse_force }),
        !s.enable_startup_pulse ==> e is None,
{
    if s.enable_startup_pulse {
        Some(Effect::rigid_level(s.startup_pulse_force as i32))
    } else {
        None
    }
}

/// The trigger positions to show and track: the game's brake and
/// throttle while racing, otherwise the controller's own press (none
/// counts as no press).
pub fn live_press(t: &Telemetry, controller_press: Option<(u8, u8)>) -> (r: (u8, u8))
    ensures
        t.on ==> r == (t.brake, t.accel),
        !t.on ==> r == (match controller_press {
            Some(p) => p,
            None => (0u8, 0u8),
        }),
{
    if t.on {
        (t.brake, t.accel)
    } else {
        match controller_press {
            Some(p) => p,
            None => (0, 0),
        }
    }
}

/// The peak press seen so far on each trigger, raised by `press`.
pub fn raise_peaks(peaks: (u8, u8), press: (u8, u8)) -> (r: (u8, u8))
    ensures
        r.0 == (if press.0 > peaks.0 { press.0 } else { peaks.0 }),
        r.1 == (if press.1 > peaks.1 { press.1 } else { peaks.1 }),
{
    (
        if press.0 > peaks.0 {
            press.0
        } else {
            peaks.0
        },
        if press.1 > peaks.1 {
            press.1
        } else {
            peaks.1
        },
    )
}

} // verus!
