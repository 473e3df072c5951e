use crab_control::logic::{Emotion, Logic, PressureLimits, fullscale_to_ubar};

/// Fullscale 64 converts to 244 microbar: inside the nominal band of the
/// default limits, and with the disconnected-sensor bits clear.
const NOMINAL_FULLSCALE: u16 = 64;

fn make_nominal(logic: &mut Logic) {
    let inp = logic.inputs_mut();
    inp.dc_ok = true;
    inp.estop_active = false;
    inp.trigger_fan = false;
    inp.reset_fault = false;
    inp.pressure_fullscale = NOMINAL_FULLSCALE;
}

/// Run until the startup fault is cleared: one scan to initialize, one scan
/// with a reset edge.
fn settled_logic() -> (Logic, u64) {
    let mut logic = Logic::new();
    make_nominal(&mut logic);
    logic.run(0);
    assert!(logic.outputs().indicator_fault);

    logic.inputs_mut().reset_fault = true;
    logic.run(50);
    logic.inputs_mut().reset_fault = false;
    assert!(!logic.outputs().indicator_fault);
    (logic, 50)
}

#[test]
fn pressure_conversion_exact() {
    assert_eq!(fullscale_to_ubar(0), 0);
    assert_eq!(fullscale_to_ubar(64), 244);
    assert_eq!(fullscale_to_ubar(240), 915);
    assert_eq!(fullscale_to_ubar(65528), 249_973);
}

#[test]
fn default_limits() {
    let limits = PressureLimits::default();
    assert_eq!(limits.low_low, 20);
    assert_eq!(limits.low, 200);
    assert_eq!(limits.high, 450);
    assert_eq!(limits.high_high, 800);
}

#[test]
fn disconnected_sensor_is_fail_safe() {
    // Any reading with one of its low three bits set yields no pressure and
    // a fault, whatever the remaining bits hold.
    for fullscale in [7u16, 1, 4, 0b1111_1111_1111_1111, 0x8001, 1033] {
        let (mut logic, now) = settled_logic();
        logic.inputs_mut().pressure_fullscale = fullscale;
        logic.run(now + 50);
        assert!(logic.pressure_ubar.is_none(), "fullscale {fullscale}");
        assert!(logic.faulted, "fullscale {fullscale}");
        assert!(logic.outputs().indicator_fault, "fullscale {fullscale}");
    }
}

#[test]
fn first_scan_faults_until_reset() {
    let mut logic = Logic::new();
    make_nominal(&mut logic);
    logic.run(0);
    // The one-scan "not yet initialized" condition latches the fault.
    assert!(logic.outputs().indicator_fault);

    // Without a reset edge the latch stays, though no cause remains.
    logic.run(50);
    assert!(logic.outputs().indicator_fault);

    // A rising reset edge with no remaining cause clears it.
    logic.inputs_mut().reset_fault = true;
    logic.run(100);
    assert!(!logic.outputs().indicator_fault);
}

#[test]
fn estop_fault_round_trip() {
    let (mut logic, now) = settled_logic();

    logic.inputs_mut().estop_active = true;
    logic.run(now + 50);
    assert!(logic.outputs().indicator_fault);

    // Releasing the e-stop does not clear the latch.
    logic.inputs_mut().estop_active = false;
    logic.run(now + 100);
    assert!(logic.outputs().indicator_fault);
    logic.run(now + 150);
    assert!(logic.outputs().indicator_fault);

    // A rising edge on reset_fault clears it, since no cause remains.
    logic.inputs_mut().reset_fault = true;
    logic.run(now + 200);
    assert!(!logic.outputs().indicator_fault);
}

#[test]
fn reset_does_not_clear_active_alarm() {
    let (mut logic, now) = settled_logic();

    // Fullscale 240 converts to 915 microbar, above the high-high limit.
    logic.inputs_mut().pressure_fullscale = 240;
    logic.run(now + 50);
    assert!(logic.pressure_high_high);
    assert!(logic.outputs().indicator_fault);

    // The raw condition still holds at the reset edge: the alarm re-latches
    // and the engine stays faulted.
    logic.inputs_mut().reset_fault = true;
    logic.run(now + 100);
    assert!(logic.pressure_high_high);
    assert!(logic.outputs().indicator_fault);

    // Pressure back to nominal, new reset edge: both clear.
    logic.inputs_mut().reset_fault = false;
    logic.inputs_mut().pressure_fullscale = NOMINAL_FULLSCALE;
    logic.run(now + 150);
    logic.inputs_mut().reset_fault = true;
    logic.run(now + 200);
    assert!(!logic.pressure_high_high);
    assert!(!logic.outputs().indicator_fault);
}

#[test]
fn low_low_alarm_is_sticky() {
    let (mut logic, now) = settled_logic();

    // Fullscale 0 converts to 0 microbar, below the low-low limit.
    logic.inputs_mut().pressure_fullscale = 0;
    logic.run(now + 50);
    assert!(logic.pressure_low_low);
    assert!(logic.outputs().indicator_fault);

    // Nominal again without a reset: the latch stays.
    logic.inputs_mut().pressure_fullscale = NOMINAL_FULLSCALE;
    logic.run(now + 100);
    assert!(logic.pressure_low_low);
    assert!(logic.outputs().indicator_fault);

    // Reset edge with the condition gone: cleared.
    logic.inputs_mut().reset_fault = true;
    logic.run(now + 150);
    assert!(!logic.pressure_low_low);
    assert!(!logic.outputs().indicator_fault);
}

#[test]
fn fan_runtime_bound() {
    let (mut logic, now) = settled_logic();

    // A manual trigger starts the fan: the cooldown is satisfied because
    // the fan timer never saw a change.
    logic.inputs_mut().trigger_fan = true;
    let ev = logic.run(now + 50);
    logic.inputs_mut().trigger_fan = false;
    assert!(logic.outputs().run_fan);
    assert!(ev.fan_started);

    // The fan keeps running while the maximum runtime has not elapsed. The
    // overtime window starts one scan after the output turned on.
    let ev = logic.run(now + 100);
    assert!(logic.outputs().run_fan);
    assert!(!ev.fan_started && !ev.fan_stopped);

    let ev = logic.run(now + 30_000);
    assert!(logic.outputs().run_fan);
    assert!(!ev.fan_stopped);

    // Once 60 s have elapsed since the window started, the fan stops and
    // the engine faults.
    let ev = logic.run(now + 100 + 60_000);
    assert!(!logic.outputs().run_fan);
    assert!(logic.outputs().indicator_fault);
    assert!(ev.fan_stopped);
    assert_eq!(ev.fan_runtime_ms, Some(60_050));
}

#[test]
fn fan_stops_on_high_pressure() {
    let (mut logic, now) = settled_logic();

    logic.inputs_mut().trigger_fan = true;
    logic.run(now + 50);
    logic.inputs_mut().trigger_fan = false;
    assert!(logic.outputs().run_fan);
    assert!(logic.outputs().indicator_refill_air);

    // Fullscale 128 converts to 488 microbar, above the high limit: the
    // fan stops at once, without a fault.
    logic.inputs_mut().pressure_fullscale = 128;
    let ev = logic.run(now + 100);
    assert!(!logic.outputs().run_fan);
    assert!(!logic.outputs().indicator_fault);
    assert!(ev.fan_stopped);
}

#[test]
fn emotion_poses() {
    // (emotion, pupil_top, pupil_down, mouth_top, mouth_mid, mouth_bottom),
    // before the blink and mouth-close overlays kick in.
    let table = [
        (Some(Emotion::Happy), false, true, false, true, true),
        (Some(Emotion::Sad), false, true, true, false, false),
        (Some(Emotion::Surprised), false, true, true, false, true),
        (Some(Emotion::Angered), false, true, true, true, false),
        (Some(Emotion::Neutral), false, true, false, true, false),
        // With no emotion ever set, the emotion-stable gate is already open
        // on the first scan, so the mouth-close overlay applies at once.
        (None, false, true, false, true, false),
    ];
    // On the very first scan the blink timer has never changed, so the
    // engine starts a blink at once: pupils read blinking on that scan.
    for (emotion, pupil_top, pupil_down, mouth_top, mouth_mid, mouth_bottom) in table {
        let mut logic = Logic::new();
        make_nominal(&mut logic);
        logic.inputs_mut().emotion = emotion;
        logic.run(0);
        let c = &logic.outputs().channels;
        assert!(c.bottom_front && c.bottom_back && c.eyes);
        assert!(c.spikes_left && c.spikes_mid && c.spikes_right);
        assert_eq!(c.pupil_top, pupil_top, "{emotion:?}");
        assert_eq!(c.pupil_down, pupil_down, "{emotion:?}");
        assert_eq!(c.mouth_top, mouth_top, "{emotion:?}");
        assert_eq!(c.mouth_mid, mouth_mid, "{emotion:?}");
        assert_eq!(c.mouth_bottom, mouth_bottom, "{emotion:?}");
    }
}

#[test]
fn blink_cycle() {
    let (mut logic, now) = settled_logic();
    logic.inputs_mut().emotion = Some(Emotion::Happy);

    // The blink latch toggled on the very first scan (never-changed timer)
    // and the second scan stamped that change at tick 50; from there the
    // rhythm is 300 ms closed, 3 s open.
    assert!(logic.blink);

    // Still blinking just before 300 ms have passed since the stamp.
    logic.run(now + 299);
    assert!(logic.blink);
    assert!(logic.outputs().channels.pupil_down);

    // Blink over at 300 ms.
    logic.run(now + 300);
    assert!(!logic.blink);
    assert!(logic.outputs().channels.pupil_top);

    // The next scan stamps the toggle; the eyes then stay open for 3 s
    // counted from that stamp.
    let opened_at = now + 350;
    logic.run(opened_at);
    logic.run(opened_at + 2_999);
    assert!(!logic.blink);
    logic.run(opened_at + 3_000);
    assert!(logic.blink);
}

#[test]
fn mouth_closes_after_stable_emotion() {
    let (mut logic, _) = settled_logic();

    // A fresh emotion restarts the stability gate and opens the mouth.
    logic.inputs_mut().emotion = Some(Emotion::Happy);
    logic.run(100);
    assert!(!logic.close_mouth);
    // The next scan stamps the mouth toggle at 150.
    logic.run(150);

    // Well before the emotion has been stable for 10 s, the mouth stays
    // open.
    logic.run(5_000);
    assert!(!logic.close_mouth);

    // Once the emotion has been stable for 10 s and the mouth timer has
    // been quiet for 10 s, the mouth closes into the closed pose.
    logic.run(10_150);
    assert!(logic.close_mouth);
    let c = &logic.outputs().channels;
    assert!(!c.mouth_top && c.mouth_mid && !c.mouth_bottom);

    // The toggle is stamped on the next scan; the closed phase then lasts
    // 2 s from that stamp.
    logic.run(10_200);
    logic.run(12_250);
    assert!(!logic.close_mouth);
}

#[test]
fn scan_events_reported() {
    let mut logic = Logic::new();
    make_nominal(&mut logic);
    logic.inputs_mut().emotion = Some(Emotion::Sad);

    // First scan: the emotion input changed, and the periodic pressure
    // diagnostic is due at once.
    let ev = logic.run(0);
    assert!(ev.emotion_changed);
    assert!(ev.pressure_info_due);

    // Unchanged emotion, diagnostic paced to once per minute.
    let ev = logic.run(50);
    assert!(!ev.emotion_changed);
    assert!(!ev.pressure_info_due);

    let ev = logic.run(59_000);
    assert!(!ev.pressure_info_due);
    let ev = logic.run(60_050);
    assert!(ev.pressure_info_due);

    // A new emotion is reported on the scan it arrives.
    logic.inputs_mut().emotion = Some(Emotion::Happy);
    let ev = logic.run(60_100);
    assert!(ev.emotion_changed);
}
