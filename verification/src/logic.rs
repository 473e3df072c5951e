//! The scan-cycle control engine.
//!
//! `Logic` is a deterministic state machine: `run` is called once per scan
//! with the current tick of a monotonic millisecond clock and computes the
//! output channels and fault flags from the inputs, the previous state and
//! the elapsed time. The whole transition is captured by the spec function
//! [`logic_step`], and `run` is proved to implement it exactly.
//!
//! Pressures are handled in microbar (thousandths of a millibar), so that
//! thresholds and conversions stay in integer arithmetic.

use vstd::prelude::*;

use crate::timers::{BaseTimer, ValueEq, base_after_run, elapsed_since, timer_done};

verus! {

/// All emotions a rustacean can feel.
#[derive(Debug, Clone, Copy, PartialEq, Eq, Structural)]
pub enum Emotion {
    Happy,
    Sad,
    Surprised,
    Angered,
    Neutral,
}

impl Default for Emotion {
    fn default() -> (r: Self)
        ensures
            r == Emotion::Happy,
    {
        Emotion::Happy
    }
}

impl ValueEq for Option<Emotion> {
    fn eq_value(&self, other: &Self) -> (r: bool)
        ensures
            r == (self == other),
    {
        match (self, other) {
            (None, None) => true,
            (Some(a), Some(b)) => *a == *b,
            _ => false,
        }
    }
}

/// The eleven physical output channels of the rig.
#[derive(Debug, Clone, Copy, PartialEq, Eq, Structural)]
pub struct Channels {
    // Outline
    pub bottom_front: bool,
    pub bottom_back: bool,
    pub spikes_left: bool,
    pub spikes_mid: bool,
    pub spikes_right: bool,
    // Eyes
    pub eyes: bool,
    pub pupil_top: bool,
    pub pupil_down: bool,
    // Mouth
    pub mouth_mid: bool,
    pub mouth_top: bool,
    pub mouth_bottom: bool,
}

/// Pressure alarm thresholds in microbar, expected ordered
/// `low_low <= low <= high <= high_high` (not enforced).
#[derive(Debug, Clone, Copy, PartialEq, Eq, Structural)]
pub struct PressureLimits {
    pub low_low: u32,
    pub low: u32,
    pub high: u32,
    pub high_high: u32,
}

impl Default for PressureLimits {
    fn default() -> (r: Self)
        ensures
            r == (PressureLimits { low_low: 20, low: 200, high: 450, high_high: 800 }),
    {
        Self { low_low: 20, low: 200, high: 450, high_high: 800 }
    }
}

/// One optional replacement per threshold, merged field by field.
#[derive(Debug, Clone, Copy, PartialEq, Eq, Structural)]
pub struct PressureLimitsUpdate {
    pub low_low: Option<u32>,
    pub low: Option<u32>,
    pub high: Option<u32>,
    pub high_high: Option<u32>,
}

#[derive(Debug, Clone, Copy)]
pub struct LogicInputs {
    pub emotion: Option<Emotion>,
    pub dc_ok: bool,
    /// Raw ADC counts, full scale 0..=65535; the low three bits are a
    /// reserved disconnected-sensor pattern.
    pub pressure_fullscale: u16,
    pub estop_active: bool,
    pub trigger_fan: bool,
    pub reset_fault: bool,
    pub pressure_limits: PressureLimits,
}

#[derive(Debug, Clone, Copy, PartialEq, Eq, Structural)]
pub struct LogicOutputs {
    pub channels: Channels,
    pub indicator_fault: bool,
    pub indicator_refill_air: bool,
    pub run_fan: bool,
}

/// What one scan observed, for the caller to log or export; the engine
/// itself performs no I/O.
#[derive(Debug, Clone, Copy, PartialEq, Eq, Structural)]
pub struct ScanEvents {
    /// The emotion input changed on this scan.
    pub emotion_changed: bool,
    /// The fan output went off -> on.
    pub fan_started: bool,
    /// The fan output went on -> off.
    pub fan_stopped: bool,
    /// Completed runtime, reported on the scan the fan stopped.
    pub fan_runtime_ms: Option<u64>,
    /// The periodic diagnostic pressure reading is due.
    pub pressure_info_due: bool,
}

pub const BLINK_OPEN_MS: u64 = 3000;

pub const BLINK_CLOSED_MS: u64 = 300;

pub const EMOTION_STABLE_MS: u64 = 10000;

pub const MOUTH_OPEN_MS: u64 = 10000;

pub const MOUTH_CLOSED_MS: u64 = 2000;

pub const FAN_MAX_RUNTIME_MS: u64 = 60000;

pub const FAN_COOLDOWN_MS: u64 = 10000;

pub const DEFLATED_DWELL_MS: u64 = 1800000;

pub const PRESSURE_INFO_PERIOD_MS: u64 = 60000;

pub const EMOTION_CHANGE_WINDOW_MS: u64 = 1;

/// The complete engine state: current inputs and outputs plus the internal
/// latches and timers.
#[derive(Debug, Clone, Copy)]
pub struct Logic {
    pub inp: LogicInputs,
    pub out: LogicOutputs,

    pub blink: bool,
    pub t_blink: BaseTimer<bool>,

    pub close_mouth: bool,
    pub t_close_mouth: BaseTimer<bool>,

    pub t_fan: BaseTimer<bool>,
    pub run_fan: bool,

    pub t_info: BaseTimer<bool>,
    pub t_emotion: BaseTimer<Option<Emotion>>,

    pub faulted: bool,
    pub reset_fault_last: bool,

    /// Pressure converted to microbar; `None` when no valid reading is
    /// available (disconnected sensor).
    pub pressure_ubar: Option<u32>,

    pub pressure_low_low: bool,
    pub pressure_low: bool,
    pub pressure_high: bool,
    pub pressure_high_high: bool,

    pub logic_initialized: bool,

    pub last_fan_start: Option<u64>,
}

/// The neutral rest pose: outline and eyes lit, pupils up, mouth open.
pub open spec fn base_channels() -> Channels {
    Channels {
        bottom_front: true,
        bottom_back: true,
        spikes_left: true,
        spikes_mid: true,
        spikes_right: true,
        eyes: true,
        pupil_top: true,
        pupil_down: false,
        mouth_top: false,
        mouth_mid: true,
        mouth_bottom: true,
    }
}

/// The fixed emotion-to-channel table. Happy and "no emotion" share the rest
/// pose.
pub open spec fn emotion_channels(emotion: Option<Emotion>) -> Channels {
    match emotion {
        Some(Emotion::Sad) => Channels {
            pupil_top: false,
            pupil_down: true,
            mouth_top: true,
            mouth_mid: false,
            mouth_bottom: false,
            ..base_channels()
        },
        Some(Emotion::Surprised) => Channels {
            mouth_top: true,
            mouth_mid: false,
            mouth_bottom: true,
            ..base_channels()
        },
        Some(Emotion::Angered) => Channels {
            mouth_top: true,
            mouth_mid: true,
            mouth_bottom: false,
            ..base_channels()
        },
        Some(Emotion::Neutral) => Channels {
            mouth_top: false,
            mouth_mid: true,
            mouth_bottom: false,
            ..base_channels()
        },
        _ => base_channels(),
    }
}

/// The blink overlay drives the pupil bits every scan: down while blinking,
/// up otherwise.
pub open spec fn overlay_blink(c: Channels, blink: bool) -> Channels {
    if blink {
        Channels { pupil_top: false, pupil_down: true, ..c }
    } else {
        Channels { pupil_top: true, pupil_down: false, ..c }
    }
}

/// The mouth-close overlay forces a closed pose while active.
pub open spec fn overlay_close_mouth(c: Channels, close_mouth: bool) -> Channels {
    if close_mouth {
        Channels { mouth_top: false, mouth_mid: true, mouth_bottom: false, ..c }
    } else {
        c
    }
}

/// The channel pattern published for a given emotion and overlay state.
pub open spec fn channels_for(emotion: Option<Emotion>, blink: bool, close_mouth: bool) -> Channels {
    overlay_close_mouth(overlay_blink(emotion_channels(emotion), blink), close_mouth)
}

/// Blink state machine: open for `BLINK_OPEN_MS`, then closed for
/// `BLINK_CLOSED_MS`.
pub open spec fn next_blink(blink: bool, change: Option<u64>, now: u64) -> bool {
    if !blink && timer_done(change, now, BLINK_OPEN_MS) {
        true
    } else if blink && timer_done(change, now, BLINK_CLOSED_MS) {
        false
    } else {
        blink
    }
}

/// Mouth-close state machine: inactive until the emotion has been stable for
/// `EMOTION_STABLE_MS`; then the mouth stays open for `MOUTH_OPEN_MS` and
/// closed for `MOUTH_CLOSED_MS`.
pub open spec fn next_close_mouth(
    close_mouth: bool,
    emotion_change: Option<u64>,
    mouth_change: Option<u64>,
    now: u64,
) -> bool {
    if !timer_done(emotion_change, now, EMOTION_STABLE_MS) {
        false
    } else if !close_mouth && timer_done(mouth_change, now, MOUTH_OPEN_MS) {
        true
    } else if close_mouth && timer_done(mouth_change, now, MOUTH_CLOSED_MS) {
        false
    } else {
        close_mouth
    }
}

/// A latched condition: stays set until a reset edge arrives while the
/// raw condition no longer holds.
pub open spec fn sticky(prev: bool, reset_edge: bool, cond: bool) -> bool {
    (prev && !reset_edge) || cond
}

/// A rising transition on the reset-fault input.
pub open spec fn spec_reset_edge(s: Logic) -> bool {
    s.inp.reset_fault && !s.reset_fault_last
}

/// The reserved disconnected-sensor pattern: any of the low three bits set.
pub open spec fn spec_pressure_fault(fullscale: u16) -> bool {
    fullscale & 7 != 0
}

/// Millibar = fullscale * 250 / 65535; scaled to microbar here.
pub open spec fn spec_fullscale_to_ubar(fullscale: u16) -> u32 {
    ((fullscale as int) * 250000 / 65535) as u32
}

pub fn fullscale_to_ubar(fullscale: u16) -> (r: u32)
    ensures
        r == spec_fullscale_to_ubar(fullscale),
{
    proof {
        assert((fullscale as int) * 250000 / 65535 <= 250000) by (nonlinear_arith);
        assert((fullscale as int) * 250000 / 65535 >= 0) by (nonlinear_arith);
    }
    (((fullscale as u64) * 250000) / 65535) as u32
}

/// The pressure reading after one scan: absent on a sensor fault.
pub open spec fn spec_pressure_after(s: Logic) -> Option<u32> {
    if spec_pressure_fault(s.inp.pressure_fullscale) {
        None
    } else {
        Some(spec_fullscale_to_ubar(s.inp.pressure_fullscale))
    }
}

/// The four alarm flags (low-low, low, high, high-high) after one scan.
/// Low-low and high-high are latched; a stale reading leaves all four
/// untouched.
pub open spec fn spec_alarms_after(s: Logic, reset_edge: bool) -> (bool, bool, bool, bool) {
    match spec_pressure_after(s) {
        Some(p) => (
            sticky(s.pressure_low_low, reset_edge, p <= s.inp.pressure_limits.low_low),
            p <= s.inp.pressure_limits.low,
            p >= s.inp.pressure_limits.high,
            sticky(s.pressure_high_high, reset_edge, p >= s.inp.pressure_limits.high_high),
        ),
        None => (s.pressure_low_low, s.pressure_low, s.pressure_high, s.pressure_high_high),
    }
}

/// The blink timer after this scan's feed.
pub open spec fn step_t_blink(s: Logic, now: u64) -> BaseTimer<bool> {
    base_after_run(s.t_blink, now, s.blink)
}

/// The mouth timer after this scan's feed.
pub open spec fn step_t_close_mouth(s: Logic, now: u64) -> BaseTimer<bool> {
    base_after_run(s.t_close_mouth, now, s.close_mouth)
}

/// The emotion timer after this scan's feed.
pub open spec fn step_t_emotion(s: Logic, now: u64) -> BaseTimer<Option<Emotion>> {
    base_after_run(s.t_emotion, now, s.inp.emotion)
}

/// The fan timer after this scan's feed.
pub open spec fn step_t_fan(s: Logic, now: u64) -> BaseTimer<bool> {
    base_after_run(s.t_fan, now, s.out.run_fan)
}

/// The blink latch after this scan.
pub open spec fn step_blink(s: Logic, now: u64) -> bool {
    next_blink(s.blink, step_t_blink(s, now).change, now)
}

/// The mouth-close latch after this scan.
pub open spec fn step_close_mouth(s: Logic, now: u64) -> bool {
    next_close_mouth(
        s.close_mouth,
        step_t_emotion(s, now).change,
        step_t_close_mouth(s, now).change,
        now,
    )
}

/// The fan has been running continuously for its maximum runtime.
pub open spec fn step_fan_overtime(s: Logic, now: u64) -> bool {
    s.out.run_fan && timer_done(step_t_fan(s, now).change, now, FAN_MAX_RUNTIME_MS)
}

/// A causal fault condition holds on this scan: disconnected sensor, fan
/// overtime, a latched pressure alarm, active e-stop, missing supply
/// voltage, or the engine not yet having completed a scan.
pub open spec fn fault_cause(s: Logic, now: u64) -> bool {
    spec_pressure_fault(s.inp.pressure_fullscale) || step_fan_overtime(s, now)
        || spec_alarms_after(s, spec_reset_edge(s)).3 || spec_alarms_after(s, spec_reset_edge(s)).0
        || s.inp.estop_active || !s.logic_initialized || !s.inp.dc_ok
}

/// The composite fault latch after this scan.
pub open spec fn step_faulted(s: Logic, now: u64) -> bool {
    sticky(s.faulted, spec_reset_edge(s), fault_cause(s, now))
}

/// The fan request latch after this scan: start on low pressure after a long
/// deflated dwell or on a manual trigger, gated by the cooldown; stop on
/// high pressure.
pub open spec fn step_run_fan(s: Logic, now: u64) -> bool {
    (s.run_fan || (((spec_alarms_after(s, spec_reset_edge(s)).1 && !s.out.run_fan && timer_done(
        step_t_fan(s, now).change,
        now,
        DEFLATED_DWELL_MS,
    )) || s.inp.trigger_fan) && !s.out.run_fan && timer_done(
        step_t_fan(s, now).change,
        now,
        FAN_COOLDOWN_MS,
    ))) && !spec_alarms_after(s, spec_reset_edge(s)).2
}

/// The fan output after this scan: the request latch gated by the fault
/// latch.
pub open spec fn step_out_run_fan(s: Logic, now: u64) -> bool {
    step_run_fan(s, now) && !step_faulted(s, now)
}

/// The periodic diagnostic reading is due on this scan.
pub open spec fn step_info_due(s: Logic, now: u64) -> bool {
    timer_done(s.t_info.change, now, PRESSURE_INFO_PERIOD_MS)
}

/// One scan of the engine: the new state and the events it reports.
pub open spec fn logic_step(s: Logic, now: u64) -> (Logic, ScanEvents) {
    (
        Logic {
            inp: s.inp,
            out: LogicOutputs {
                channels: channels_for(s.inp.emotion, step_blink(s, now), step_close_mouth(s, now)),
                indicator_fault: step_faulted(s, now),
                indicator_refill_air: step_run_fan(s, now),
                run_fan: step_out_run_fan(s, now),
            },
            blink: step_blink(s, now),
            t_blink: step_t_blink(s, now),
            close_mouth: step_close_mouth(s, now),
            t_close_mouth: step_t_close_mouth(s, now),
            t_fan: step_t_fan(s, now),
            run_fan: step_run_fan(s, now),
            t_info: if step_info_due(s, now) {
                BaseTimer { change: Some(now), last: s.t_info.last }
            } else {
                s.t_info
            },
            t_emotion: step_t_emotion(s, now),
            faulted: step_faulted(s, now),
            reset_fault_last: s.inp.reset_fault,
            pressure_ubar: spec_pressure_after(s),
            pressure_low_low: spec_alarms_after(s, spec_reset_edge(s)).0,
            pressure_low: spec_alarms_after(s, spec_reset_edge(s)).1,
            pressure_high: spec_alarms_after(s, spec_reset_edge(s)).2,
            pressure_high_high: spec_alarms_after(s, spec_reset_edge(s)).3,
            logic_initialized: true,
            last_fan_start: if step_out_run_fan(s, now) && !s.out.run_fan {
                Some(now)
            } else {
                s.last_fan_start
            },
        },
        ScanEvents {
            emotion_changed: !timer_done(step_t_emotion(s, now).change, now, EMOTION_CHANGE_WINDOW_MS),
            fan_started: step_out_run_fan(s, now) && !s.out.run_fan,
            fan_stopped: !step_out_run_fan(s, now) && s.out.run_fan,
            fan_runtime_ms: if !step_out_run_fan(s, now) && s.out.run_fan && s.last_fan_start is Some {
                Some(elapsed_since(s.last_fan_start, now))
            } else {
                None
            },
            pressure_info_due: step_info_due(s, now),
        },
    )
}

/// The startup state: everything cleared, default limits, no alarms; only
/// the one-scan "not yet initialized" condition is pending.
pub open spec fn logic_initial() -> Logic {
    Logic {
        inp: LogicInputs {
            emotion: None,
            dc_ok: false,
            pressure_fullscale: 0,
            estop_active: false,
            trigger_fan: false,
            reset_fault: false,
            pressure_limits: PressureLimits { low_low: 20, low: 200, high: 450, high_high: 800 },
        },
        out: LogicOutputs {
            channels: Channels {
                bottom_front: false,
                bottom_back: false,
                spikes_left: false,
                spikes_mid: false,
                spikes_right: false,
                eyes: false,
                pupil_top: false,
                pupil_down: false,
                mouth_top: false,
                mouth_mid: false,
                mouth_bottom: false,
            },
            indicator_fault: false,
            indicator_refill_air: false,
            run_fan: false,
        },
        blink: false,
        t_blink: BaseTimer { change: None, last: false },
        close_mouth: false,
        t_close_mouth: BaseTimer { change: None, last: false },
        t_fan: BaseTimer { change: None, last: false },
        run_fan: false,
        t_info: BaseTimer { change: None, last: false },
        t_emotion: BaseTimer { change: None, last: None },
        faulted: false,
        reset_fault_last: false,
        pressure_ubar: None,
        pressure_low_low: false,
        pressure_low: false,
        pressure_high: false,
        pressure_high_high: false,
        logic_initialized: false,
        last_fan_start: None,
    }
}

/// Exec counterpart of [`channels_for`].
fn channel_pose(emotion: Option<Emotion>, blink: bool, close_mouth: bool) -> (c: Channels)
    ensures
        c == channels_for(emotion, blink, close_mouth),
{
    let mut c = Channels {
        bottom_front: true,
        bottom_back: true,
        spikes_left: true,
        spikes_mid: true,
        spikes_right: true,
        eyes: true,
        pupil_top: true,
        pupil_down: false,
        mouth_top: false,
        mouth_mid: true,
        mouth_bottom: true,
    };
    match emotion {
        Some(Emotion::Sad) => {
            c.pupil_top = false;
            c.pupil_down = true;
            c.mouth_top = true;
            c.mouth_mid = false;
            c.mouth_bottom = false;
        },
        Some(Emotion::Surprised) => {
            c.mouth_top = true;
            c.mouth_mid = false;
            c.mouth_bottom = true;
        },
        Some(Emotion::Angered) => {
            c.mouth_top = true;
            c.mouth_mid = true;
            c.mouth_bottom = false;
        },
        Some(Emotion::Neutral) => {
            c.mouth_top = false;
            c.mouth_mid = true;
            c.mouth_bottom = false;
        },
        _ => {},
    }
    if blink {
        c.pupil_top = false;
        c.pupil_down = true;
    } else {
        c.pupil_top = true;
        c.pupil_down = false;
    }
    if close_mouth {
        c.mouth_top = false;
        c.mouth_bottom = false;
        c.mouth_mid = true;
    }
    c
}

impl Logic {
    pub fn new() -> (r: Self)
        ensures
            r == logic_initial(),
    {
        Self {
            inp: LogicInputs {
                emotion: None,
                dc_ok: false,
                pressure_fullscale: 0,
                estop_active: false,
                trigger_fan: false,
                reset_fault: false,
                pressure_limits: PressureLimits::default(),
            },
            out: LogicOutputs {
                channels: Channels {
                    bottom_front: false,
                    bottom_back: false,
                    spikes_left: false,
                    spikes_mid: false,
                    spikes_right: false,
                    eyes: false,
                    pupil_top: false,
                    pupil_down: false,
                    mouth_top: false,
                    mouth_mid: false,
                    mouth_bottom: false,
                },
                indicator_fault: false,
                indicator_refill_air: false,
                run_fan: false,
            },
            blink: false,
            t_blink: BaseTimer::new(false),
            close_mouth: false,
            t_close_mouth: BaseTimer::new(false),
            t_fan: BaseTimer::new(false),
            run_fan: false,
            t_info: BaseTimer::new(false),
            t_emotion: BaseTimer::new(None),
            faulted: false,
            reset_fault_last: false,
            pressure_ubar: None,
            pressure_low_low: false,
            pressure_low: false,
            pressure_high: false,
            pressure_high_high: false,
            logic_initialized: false,
            last_fan_start: None,
        }
    }

    pub fn inputs(&self) -> (r: &LogicInputs)
        ensures
            r == self.inp,
    {
        &self.inp
    }

    pub fn inputs_mut(&mut self) -> (r: &mut LogicInputs)
        ensures
            *r == old(self).inp,
            *final(self) == (Logic { inp: *final(r), ..*old(self) }),
    {
        &mut self.inp
    }

    pub fn outputs(&self) -> (r: &LogicOutputs)
        ensures
            r == self.out,
    {
        &self.out
    }

    /// One scan: feed the timers, compute the channel pattern, convert and
    /// classify the pressure, latch faults, and drive the fan.
    #[verifier::rlimit(100)]
    pub fn run(&mut self, now: u64) -> (ev: ScanEvents)
        ensures
            *final(self) == logic_step(*old(self), now).0,
            ev == logic_step(*old(self), now).1,
    {
        let ghost s0 = *self;

        let mut t_blink = self.t_blink;
        t_blink.run(now, self.blink);
        let mut t_close_mouth = self.t_close_mouth;
        t_close_mouth.run(now, self.close_mouth);
        let mut t_emotion = self.t_emotion;
        t_emotion.run(now, self.inp.emotion);
        let mut t_fan = self.t_fan;
        t_fan.run(now, self.out.run_fan);

        proof {
            assert(t_blink == step_t_blink(s0, now));
            assert(t_close_mouth == step_t_close_mouth(s0, now));
            assert(t_emotion == step_t_emotion(s0, now));
            assert(t_fan == step_t_fan(s0, now));
        }

        let emotion_changed = !t_emotion.timer(now, EMOTION_CHANGE_WINDOW_MS);

        let blink = if !self.blink && t_blink.timer(now, BLINK_OPEN_MS) {
            true
        } else if self.blink && t_blink.timer(now, BLINK_CLOSED_MS) {
            false
        } else {
            self.blink
        };

        let close_mouth = if !t_emotion.timer(now, EMOTION_STABLE_MS) {
            false
        } else if !self.close_mouth && t_close_mouth.timer(now, MOUTH_OPEN_MS) {
            true
        } else if self.close_mouth && t_close_mouth.timer(now, MOUTH_CLOSED_MS) {
            false
        } else {
            self.close_mouth
        };

        proof {
            assert(blink == step_blink(s0, now));
            assert(close_mouth == step_close_mouth(s0, now));
        }

        let channels = channel_pose(self.inp.emotion, blink, close_mouth);

        let reset_fault_edge = self.inp.reset_fault && !self.reset_fault_last;

        // Disconnected pressure sensor
        let pressure_fault = self.inp.pressure_fullscale & 7 != 0;
        let pressure_ubar = if !pressure_fault {
            Some(fullscale_to_ubar(self.inp.pressure_fullscale))
        } else {
            None
        };

        // The extreme alarms are latched and need to be cleared
        let (pressure_low_low, pressure_low, pressure_high, pressure_high_high) =
            match pressure_ubar {
                Some(p) => (
                    (self.pressure_low_low && !reset_fault_edge)
                        || p <= self.inp.pressure_limits.low_low,
                    p <= self.inp.pressure_limits.low,
                    p >= self.inp.pressure_limits.high,
                    (self.pressure_high_high && !reset_fault_edge)
                        || p >= self.inp.pressure_limits.high_high,
                ),
                None => (
                    self.pressure_low_low,
                    self.pressure_low,
                    self.pressure_high,
                    self.pressure_high_high,
                ),
            };

        proof {
            assert(pressure_ubar == spec_pressure_after(s0));
            assert(pressure_low_low == spec_alarms_after(s0, spec_reset_edge(s0)).0);
            assert(pressure_low == spec_alarms_after(s0, spec_reset_edge(s0)).1);
            assert(pressure_high == spec_alarms_after(s0, spec_reset_edge(s0)).2);
            assert(pressure_high_high == spec_alarms_after(s0, spec_reset_edge(s0)).3);
        }

        // Maximum fan runtime
        let fan_overtime = self.out.run_fan && t_fan.timer(now, FAN_MAX_RUNTIME_MS);

        let faulted = (self.faulted && !reset_fault_edge)
            || pressure_fault
            || fan_overtime
            || pressure_high_high
            || pressure_low_low
            || self.inp.estop_active
            || !self.logic_initialized
            || !self.inp.dc_ok;

        proof {
            assert(fan_overtime == step_fan_overtime(s0, now));
            assert(faulted == step_faulted(s0, now));
        }

        // Fan
        let fan_cooldown = !self.out.run_fan && t_fan.timer(now, FAN_COOLDOWN_MS);
        let deflated = !self.out.run_fan && t_fan.timer(now, DEFLATED_DWELL_MS);
        let start_fan = ((pressure_low && deflated) || self.inp.trigger_fan) && fan_cooldown;
        let run_fan = (self.run_fan || start_fan) && !pressure_high;
        let out_run_fan = run_fan && !faulted;

        proof {
            assert(run_fan == step_run_fan(s0, now));
            assert(out_run_fan == step_out_run_fan(s0, now));
        }

        let fan_started = out_run_fan != self.out.run_fan && out_run_fan;
        let fan_stopped = out_run_fan != self.out.run_fan && !out_run_fan;
        let last_fan_start = if fan_started {
            Some(now)
        } else {
            self.last_fan_start
        };
        let fan_runtime_ms = if fan_stopped {
            match self.last_fan_start {
                Some(start) => Some(
                    if start <= now {
                        now - start
                    } else {
                        0
                    },
                ),
                None => None,
            }
        } else {
            None
        };

        let mut t_info = self.t_info;
        let pressure_info_due = t_info.timer(now, PRESSURE_INFO_PERIOD_MS);
        if pressure_info_due {
            t_info.trigger(now);
        }

        let next = Logic {
            inp: self.inp,
            out: LogicOutputs {
                channels,
                indicator_fault: faulted,
                indicator_refill_air: run_fan,
                run_fan: out_run_fan,
            },
            blink,
            t_blink,
            close_mouth,
            t_close_mouth,
            t_fan,
            run_fan,
            t_info,
            t_emotion,
            faulted,
            reset_fault_last: self.inp.reset_fault,
            pressure_ubar,
            pressure_low_low,
            pressure_low,
            pressure_high,
            pressure_high_high,
            logic_initialized: true,
            last_fan_start,
        };
        let ev = ScanEvents {
            emotion_changed,
            fan_started,
            fan_stopped,
            fan_runtime_ms,
            pressure_info_due,
        };
        *self = next;

        proof {
            assert(*self == logic_step(s0, now).0);
            assert(ev == logic_step(s0, now).1);
        }

        ev
    }
}

/// Fail-safe sensor handling: a raw reading with any of its low three bits
/// set never yields a converted pressure and faults the engine on that very
/// scan, whatever the remaining bits hold.
pub proof fn lemma_sensor_fault_fail_safe(s: Logic, now: u64)
    requires
        s.inp.pressure_fullscale & 7 != 0,
    ensures
        logic_step(s, now).0.pressure_ubar is None,
        logic_step(s, now).0.faulted,
{
}

/// The fault latch is sticky: once set, it stays set through any scan that
/// carries no rising edge on the reset input, whatever the other inputs do.
pub proof fn lemma_fault_sticky(s: Logic, now: u64)
    requires
        s.faulted,
        !spec_reset_edge(s),
    ensures
        logic_step(s, now).0.faulted,
{
}

/// A rising reset edge clears the fault latch exactly when no causal
/// condition still holds on that scan; in particular a still-latched
/// pressure alarm keeps the engine faulted through the reset.
pub proof fn lemma_fault_reset(s: Logic, now: u64)
    requires
        spec_reset_edge(s),
    ensures
        logic_step(s, now).0.faulted <==> fault_cause(s, now),
{
}

/// Fault round trip: with the e-stop active the engine faults; releasing the
/// e-stop without a reset leaves the latch set; a later rising reset edge
/// clears it exactly when no causal condition still holds at that edge.
pub proof fn lemma_fault_latch_round_trip(
    s: Logic,
    inp2: LogicInputs,
    inp3: LogicInputs,
    now1: u64,
    now2: u64,
    now3: u64,
)
    requires
        s.inp.estop_active,
        inp2 == (LogicInputs { estop_active: false, reset_fault: false, ..s.inp }),
        inp3 == (LogicInputs { estop_active: false, reset_fault: true, ..s.inp }),
    ensures
        ({
            let s1 = logic_step(s, now1).0;
            let s2 = logic_step(Logic { inp: inp2, ..s1 }, now2).0;
            let at_reset = Logic { inp: inp3, ..s2 };
            let s3 = logic_step(at_reset, now3).0;
            s1.faulted && s2.faulted && spec_reset_edge(at_reset) && (s3.faulted
                <==> fault_cause(at_reset, now3))
        }),
{
}

/// While the fan output stays on across a scan, the fan timer's change
/// stamp does not move, so the overtime window keeps counting from the same
/// origin.
pub proof fn lemma_fan_on_interval_invariant(s: Logic, now: u64)
    requires
        s.out.run_fan,
        s.t_fan.last == true,
        logic_step(s, now).0.out.run_fan,
    ensures
        logic_step(s, now).0.t_fan.last == true,
        logic_step(s, now).0.t_fan.change == s.t_fan.change,
        logic_step(s, now).0.out.run_fan,
{
}

/// Bounded fan runtime: once the maximum runtime has elapsed since the fan
/// timer last saw a change, a scan with the fan still on faults the engine
/// and switches the fan output off. Together with
/// [`lemma_fan_on_interval_invariant`] this bounds any continuous on
/// interval by the maximum runtime plus one scan period (the stamp is taken
/// on the first scan after the output turned on).
pub proof fn lemma_fan_overtime_stops_fan(s: Logic, now: u64)
    requires
        s.out.run_fan,
        s.t_fan.last == true,
        timer_done(s.t_fan.change, now, FAN_MAX_RUNTIME_MS),
    ensures
        !logic_step(s, now).0.out.run_fan,
        logic_step(s, now).0.faulted,
{
}

} // verus!
