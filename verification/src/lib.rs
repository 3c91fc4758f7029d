//! Status-line composition engine for a tiling window manager's bar.
//!
//! The crate holds the logic of the bar: the fault barrier that keeps one
//! failing probe from taking down the whole line, the edge-triggered alert
//! state machine, the click-action registry, the polling scheduler's timing
//! and storage discipline, the render composition, and the volume-control
//! arithmetic. Hardware probes, subprocesses and the output stream live
//! outside, in the surrounding binary; they hand plain values in and take
//! plain values back.

pub mod alert;
pub mod barrier;
pub mod notify;
pub mod protocol;
pub mod registry;
pub mod sched;
pub mod segment;
pub mod segments;
pub mod text;
pub mod volume;
