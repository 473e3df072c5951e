use crab_control::timers::{BaseTimer, PulseTimer, TimeExt, TimerOff, TimerOn};

const TIMESTEP: u64 = 10;
const PRESET: u64 = 20;

#[test]
fn timer_on() {
    let inp = [0, 1, 1, 1, 1, 0, 0, 0, 0, 1, 1, 0, 0, 1, 1, 1, 1, 0, 0];
    let done = [0, 0, 0, 1, 1, 0, 0, 0, 0, 0, 0, 0, 0, 0, 0, 1, 1, 0, 0];
    let timing = [0, 1, 1, 0, 0, 0, 0, 0, 0, 1, 1, 0, 0, 1, 1, 0, 0, 0, 0];

    let mut timer = TimerOn::new();
    let mut now: u64 = 0;

    for (i, ((inp, done), timing)) in inp
        .iter()
        .map(|i| *i != 0)
        .zip(done.iter().map(|i| *i != 0))
        .zip(timing.iter().map(|i| *i != 0))
        .enumerate()
    {
        let res = timer.run(now, inp, PRESET);
        assert_eq!(res.done, done, "`done` mismatch at timestep #{i}");
        assert_eq!(res.timing, timing, "`timing` mismatch at timestep #{i}");
        now += TIMESTEP;
    }
}

#[test]
fn timer_on_start() {
    let inp = [1, 1, 1, 1, 1, 0, 0, 0, 0, 1, 1, 0, 0, 1, 1, 1, 1, 0, 0];
    let done = [0, 0, 1, 1, 1, 0, 0, 0, 0, 0, 0, 0, 0, 0, 0, 1, 1, 0, 0];
    let timing = [1, 1, 0, 0, 0, 0, 0, 0, 0, 1, 1, 0, 0, 1, 1, 0, 0, 0, 0];

    let mut timer = TimerOn::new();
    let mut now: u64 = 0;

    for (i, ((inp, done), timing)) in inp
        .iter()
        .map(|i| *i != 0)
        .zip(done.iter().map(|i| *i != 0))
        .zip(timing.iter().map(|i| *i != 0))
        .enumerate()
    {
        let res = timer.run(now, inp, PRESET);
        assert_eq!(res.done, done, "`done` mismatch at timestep #{i}");
        assert_eq!(res.timing, timing, "`timing` mismatch at timestep #{i}");
        now += TIMESTEP;
    }
}

#[test]
fn timer_off() {
    let inp = [0, 1, 1, 1, 1, 0, 0, 0, 0, 1, 1, 0, 0, 1, 1, 1, 1, 0, 0, 0];
    let done = [0, 1, 1, 1, 1, 1, 1, 0, 0, 1, 1, 1, 1, 1, 1, 1, 1, 1, 1, 0];
    let timing = [0, 0, 0, 0, 0, 1, 1, 0, 0, 0, 0, 1, 1, 0, 0, 0, 0, 1, 1, 0];

    let mut timer = TimerOff::new();
    let mut now: u64 = 0;

    for (i, ((inp, done), timing)) in inp
        .iter()
        .map(|i| *i != 0)
        .zip(done.iter().map(|i| *i != 0))
        .zip(timing.iter().map(|i| *i != 0))
        .enumerate()
    {
        let res = timer.run(now, inp, PRESET);
        assert_eq!(res.done, done, "`done` mismatch at timestep #{i}");
        assert_eq!(res.timing, timing, "`timing` mismatch at timestep #{i}");
        now += TIMESTEP;
    }
}

#[test]
fn timer_off_start() {
    let inp = [1, 1, 1, 1, 1, 0, 0, 0, 0, 1, 1, 0, 0, 1, 1, 1, 1, 0, 0, 0];
    let done = [1, 1, 1, 1, 1, 1, 1, 0, 0, 1, 1, 1, 1, 1, 1, 1, 1, 1, 1, 0];
    let timing = [0, 0, 0, 0, 0, 1, 1, 0, 0, 0, 0, 1, 1, 0, 0, 0, 0, 1, 1, 0];

    let mut timer = TimerOff::new();
    let mut now: u64 = 0;

    for (i, ((inp, done), timing)) in inp
        .iter()
        .map(|i| *i != 0)
        .zip(done.iter().map(|i| *i != 0))
        .zip(timing.iter().map(|i| *i != 0))
        .enumerate()
    {
        let res = timer.run(now, inp, PRESET);
        assert_eq!(res.done, done, "`done` mismatch at timestep #{i}");
        assert_eq!(res.timing, timing, "`timing` mismatch at timestep #{i}");
        now += TIMESTEP;
    }
}

#[test]
fn timer_pulse() {
    let inp = [0, 1, 1, 1, 1, 0, 0, 0, 0, 1, 0, 1, 0, 1, 1, 1, 1, 0, 0, 0];
    let done = [0, 1, 1, 1, 0, 0, 0, 0, 0, 1, 1, 1, 0, 1, 1, 1, 0, 0, 0, 0];
    let timing = done.clone();

    let mut timer = PulseTimer::new();
    let mut now: u64 = 0;

    for (i, ((inp, done), timing)) in inp
        .iter()
        .map(|i| *i != 0)
        .zip(done.iter().map(|i| *i != 0))
        .zip(timing.iter().map(|i| *i != 0))
        .enumerate()
    {
        let res = timer.run(now, inp, 30);
        assert_eq!(res.done, done, "`done` mismatch at timestep #{i}");
        assert_eq!(res.timing, timing, "`timing` mismatch at timestep #{i}");
        now += TIMESTEP;
    }
}

#[test]
fn timer_pulse_start() {
    let inp = [1, 1, 1, 1, 1, 0, 0, 0, 0, 1, 0, 1, 0, 1, 1, 1, 1, 0, 0, 0];
    let done = [1, 1, 1, 0, 0, 0, 0, 0, 0, 1, 1, 1, 0, 1, 1, 1, 0, 0, 0, 0];
    let timing = done.clone();

    let mut timer = PulseTimer::new();
    let mut now: u64 = 0;

    for (i, ((inp, done), timing)) in inp
        .iter()
        .map(|i| *i != 0)
        .zip(done.iter().map(|i| *i != 0))
        .zip(timing.iter().map(|i| *i != 0))
        .enumerate()
    {
        let res = timer.run(now, inp, 30);
        assert_eq!(res.done, done, "`done` mismatch at timestep #{i}");
        assert_eq!(res.timing, timing, "`timing` mismatch at timestep #{i}");
        now += TIMESTEP;
    }
}

#[test]
fn base_timer_elapsed_before_any_change() {
    // A timer that has never recorded a change reports itself elapsed, for
    // any clock value and any preset.
    let timer: BaseTimer<bool> = BaseTimer::new(false);
    assert!(timer.timer(0, 0));
    assert!(timer.timer(0, 1_000_000));
    assert!(timer.timer(123_456, 60_000));

    // Running it with an unchanged value keeps it that way.
    let mut timer = BaseTimer::new(true);
    timer.run(500, true);
    assert!(timer.timer(500, 60_000));

    // A value change arms it.
    timer.run(600, false);
    assert!(!timer.timer(600, 60_000));
    assert!(timer.timer(60_600, 60_000));
}

#[test]
fn base_timer_value_and_trigger() {
    let mut timer = BaseTimer::new(false);
    assert_eq!(timer.timer_value(1_000), 0);

    timer.run(1_000, true);
    assert_eq!(timer.timer_value(1_250), 250);

    timer.trigger(2_000);
    assert_eq!(timer.timer_value(2_100), 100);

    // Re-baselining the value neither touches the change stamp nor counts
    // as an edge on the next run.
    timer.reset_value(false);
    assert_eq!(timer.timer_value(2_100), 100);
    timer.run(2_100, false);
    assert_eq!(timer.timer_value(2_100), 100);

    // A real edge restarts the measurement.
    timer.run(2_150, true);
    assert_eq!(timer.timer_value(2_150), 0);
}

#[test]
fn time_ext_conversions() {
    assert_eq!(300.millis(), 300);
    assert_eq!(3.secs(), 3_000);
    assert_eq!((30 * 60).secs(), 1_800_000);
    assert_eq!(0.millis(), 0);
}
