//! A quality-gate engine: a fixed sequence of external checks is run one step
//! at a time, each step's progress is drawn on its own terminal row, and the
//! per-step outcomes are folded into a single verdict and exit code.
//!
//! Everything here is pure: the library decides what to run, what to draw and
//! what the verdict is. Spawning processes, writing log files, animating on a
//! background thread and talking to the terminal belong to the caller.

pub mod canvas;
pub mod runner;
pub mod gate;
pub mod presenter;
pub mod ecosystem;

pub use canvas::{ko, ok};
pub use ecosystem::{zuu_exit, Checked, Language, Zuu};
