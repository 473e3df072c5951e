//! Control core for an animatronic rig.
//!
//! The heart is [`logic`]: a fixed-period, timer-driven scan engine that
//! turns an emotion set-point and raw sensor inputs into a deterministic
//! pattern of boolean actuator channels, while enforcing pressure alarms,
//! fan-runtime limits, e-stop and sensor-fault interlocks with latched,
//! operator-resettable fault state. Around it sit the [`timers`] the engine
//! is built from, the process-image addressing in [`image`], the per-cycle
//! wiring in [`scan`], the pure decision functions of the emotion store in
//! [`emotion`], the observer snapshots in [`mirror`], and the service-side
//! helpers in [`auth`], [`talk`] and [`puzzle`].
//!
//! Everything here is pure with respect to the outside world: time arrives
//! as a millisecond tick of a monotonic clock, images arrive as byte
//! buffers, and the surrounding process supplies threads, locks and I/O.

pub mod auth;
pub mod emotion;
pub mod image;
pub mod logic;
pub mod mirror;
pub mod puzzle;
pub mod scan;
pub mod talk;
pub mod timers;
