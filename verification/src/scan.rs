//! One scheduler iteration, without the pacing and the locks.
//!
//! The scheduler thread owns the `Logic` instance. Once per cycle it maps
//! the output channels of the previous scan into the output image, maps the
//! hardware bits and the pressure word out of the input image, folds in the
//! emotion snapshot, the drained one-shot triggers and at most one pending
//! limits update, and then steps the engine. Everything here is the pure
//! part of that iteration; the caller supplies the images and the clock and
//! publishes the resulting snapshot.

use vstd::prelude::*;

use crate::image::{set_bit, spec_bit, spec_word, tag_bit, tag_word};
use crate::logic::{
    Logic, LogicInputs, LogicOutputs, PressureLimits, PressureLimitsUpdate, ScanEvents, Emotion,
    logic_step,
};

verus! {

/// Size of the controller-side input process image.
pub const PII_SIZE: usize = 256;

/// Size of the controller-side output process image.
pub const PIQ_SIZE: usize = 256;

/// Map the hardware inputs out of the input image: supply-ok and e-stop
/// bits, and the big-endian pressure word.
pub fn read_hardware_inputs(inp: &mut LogicInputs, pii: &[u8])
    requires
        pii@.len() >= 4,
    ensures
        *final(inp) == (LogicInputs {
            dc_ok: spec_bit(pii@, 1, 0),
            estop_active: spec_bit(pii@, 1, 1),
            pressure_fullscale: spec_word(pii@, 2),
            ..*old(inp)
        }),
{
    inp.dc_ok = tag_bit(pii, 1, 0);
    inp.estop_active = tag_bit(pii, 1, 1);
    inp.pressure_fullscale = tag_word(pii, 2);
}

/// The limits after folding in one update message, field by field.
pub open spec fn merged_limits(cur: PressureLimits, upd: PressureLimitsUpdate) -> PressureLimits {
    PressureLimits {
        low_low: match upd.low_low {
            Some(v) => v,
            None => cur.low_low,
        },
        low: match upd.low {
            Some(v) => v,
            None => cur.low,
        },
        high: match upd.high {
            Some(v) => v,
            None => cur.high,
        },
        high_high: match upd.high_high {
            Some(v) => v,
            None => cur.high_high,
        },
    }
}

/// Fold one pending limits update into the current limits.
pub fn merge_limits(cur: &mut PressureLimits, upd: &PressureLimitsUpdate)
    ensures
        *final(cur) == merged_limits(*old(cur), *upd),
{
    if let Some(v) = upd.low_low {
        cur.low_low = v;
    }
    if let Some(v) = upd.low {
        cur.low = v;
    }
    if let Some(v) = upd.high {
        cur.high = v;
    }
    if let Some(v) = upd.high_high {
        cur.high_high = v;
    }
}

/// Map the output channels and indicators into the output image. The fault
/// indicator is wired inverted.
#[verifier::rlimit(100)]
pub fn write_outputs(piq: &mut Vec<u8>, out: &LogicOutputs)
    requires
        old(piq)@.len() >= 5,
    ensures
        final(piq)@.len() == old(piq)@.len(),
        spec_bit(final(piq)@, 0, 0) == out.channels.bottom_front,
        spec_bit(final(piq)@, 0, 1) == out.channels.bottom_back,
        spec_bit(final(piq)@, 0, 2) == out.channels.pupil_down,
        spec_bit(final(piq)@, 0, 3) == out.channels.pupil_top,
        spec_bit(final(piq)@, 1, 0) == out.channels.eyes,
        spec_bit(final(piq)@, 1, 1) == out.channels.mouth_mid,
        spec_bit(final(piq)@, 1, 2) == out.channels.mouth_bottom,
        spec_bit(final(piq)@, 1, 3) == out.channels.mouth_top,
        spec_bit(final(piq)@, 2, 0) == out.channels.spikes_left,
        spec_bit(final(piq)@, 2, 1) == out.channels.spikes_mid,
        spec_bit(final(piq)@, 2, 2) == out.channels.spikes_right,
        spec_bit(final(piq)@, 4, 0) == !out.indicator_fault,
        spec_bit(final(piq)@, 4, 1) == out.indicator_refill_air,
        spec_bit(final(piq)@, 4, 2) == out.run_fan,
        forall|a: int|
            0 <= a < old(piq)@.len() && a != 0 && a != 1 && a != 2 && a != 4
                ==> final(piq)@[a] == old(piq)@[a],
{
    set_bit(piq, 0, 0, out.channels.bottom_front);
    set_bit(piq, 0, 1, out.channels.bottom_back);
    set_bit(piq, 0, 2, out.channels.pupil_down);
    set_bit(piq, 0, 3, out.channels.pupil_top);

    set_bit(piq, 1, 0, out.channels.eyes);
    set_bit(piq, 1, 1, out.channels.mouth_mid);
    set_bit(piq, 1, 2, out.channels.mouth_bottom);
    set_bit(piq, 1, 3, out.channels.mouth_top);

    set_bit(piq, 2, 0, out.channels.spikes_left);
    set_bit(piq, 2, 1, out.channels.spikes_mid);
    set_bit(piq, 2, 2, out.channels.spikes_right);

    set_bit(piq, 4, 0, !out.indicator_fault);
    set_bit(piq, 4, 1, out.indicator_refill_air);
    set_bit(piq, 4, 2, out.run_fan);
}

/// The inputs one scan presents to the engine.
pub open spec fn scan_inputs(
    prev: LogicInputs,
    pii: Seq<u8>,
    emotion: Emotion,
    trigger_fan: bool,
    reset_fault: bool,
    update: Option<PressureLimitsUpdate>,
) -> LogicInputs {
    LogicInputs {
        emotion: Some(emotion),
        dc_ok: spec_bit(pii, 1, 0),
        pressure_fullscale: spec_word(pii, 2),
        estop_active: spec_bit(pii, 1, 1),
        trigger_fan,
        reset_fault,
        pressure_limits: match update {
            Some(u) => merged_limits(prev.pressure_limits, u),
            None => prev.pressure_limits,
        },
    }
}

/// One full scheduler iteration: publish the previous scan's outputs to the
/// output image, assemble this scan's inputs, and step the engine.
#[verifier::rlimit(100)]
pub fn scan_cycle(
    logic: &mut Logic,
    pii: &[u8],
    piq: &mut Vec<u8>,
    emotion: Emotion,
    trigger_fan: bool,
    reset_fault: bool,
    limits_update: Option<PressureLimitsUpdate>,
    now: u64,
) -> (ev: ScanEvents)
    requires
        pii@.len() >= 4,
        old(piq)@.len() >= 5,
    ensures
        ({
            let fed = Logic {
                inp: scan_inputs(
                    old(logic).inp,
                    pii@,
                    emotion,
                    trigger_fan,
                    reset_fault,
                    limits_update,
                ),
                ..*old(logic)
            };
            *final(logic) == logic_step(fed, now).0 && ev == logic_step(fed, now).1
        }),
        final(piq)@.len() == old(piq)@.len(),
        spec_bit(final(piq)@, 0, 0) == old(logic).out.channels.bottom_front,
        spec_bit(final(piq)@, 0, 1) == old(logic).out.channels.bottom_back,
        spec_bit(final(piq)@, 0, 2) == old(logic).out.channels.pupil_down,
        spec_bit(final(piq)@, 0, 3) == old(logic).out.channels.pupil_top,
        spec_bit(final(piq)@, 1, 0) == old(logic).out.channels.eyes,
        spec_bit(final(piq)@, 1, 1) == old(logic).out.channels.mouth_mid,
        spec_bit(final(piq)@, 1, 2) == old(logic).out.channels.mouth_bottom,
        spec_bit(final(piq)@, 1, 3) == old(logic).out.channels.mouth_top,
        spec_bit(final(piq)@, 2, 0) == old(logic).out.channels.spikes_left,
        spec_bit(final(piq)@, 2, 1) == old(logic).out.channels.spikes_mid,
        spec_bit(final(piq)@, 2, 2) == old(logic).out.channels.spikes_right,
        spec_bit(final(piq)@, 4, 0) == !old(logic).out.indicator_fault,
        spec_bit(final(piq)@, 4, 1) == old(logic).out.indicator_refill_air,
        spec_bit(final(piq)@, 4, 2) == old(logic).out.run_fan,
{
    write_outputs(piq, &logic.out);

    read_hardware_inputs(&mut logic.inp, pii);
    logic.inp.emotion = Some(emotion);
    logic.inp.trigger_fan = trigger_fan;
    logic.inp.reset_fault = reset_fault;
    if let Some(u) = limits_update {
        merge_limits(&mut logic.inp.pressure_limits, &u);
    }

    logic.run(now)
}

} // verus!
