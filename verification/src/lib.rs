//! The state behind a progress bar: its position and length, the samples its estimates are
//! taken from, the limit on how often it redraws, and what happens to it when it finishes.
//!
//! Nothing here reads a clock, draws or starts a thread. A caller passes the current
//! [`Instant`](time::Instant) in, and a method that wants the bar redrawn returns a
//! [`DrawRequest`](bar::DrawRequest).

pub mod bar;
pub mod estimator;
pub mod finish;
pub mod position;
pub mod progress;
pub mod text;
pub mod ticker;
pub mod time;

pub use crate::bar::{BarState, DrawRequest, DrawState, Reset, StyleTexts, Suspension};
pub use crate::estimator::{Estimator, Step};
pub use crate::finish::ProgressFinish;
pub use crate::position::AtomicPosition;
pub use crate::progress::{Fraction, ProgressState, Rate, Status};
pub use crate::ticker::{Spawn, Ticker};
pub use crate::time::{Duration, Instant};
