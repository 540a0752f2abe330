//! Decision logic for hiding windows from screen capture.
//!
//! The crate holds everything that is computed when windows are listed,
//! their icons are converted, and a hide or show request is carried out in
//! another process. It never talks to the operating system itself: callers
//! perform each operating-system step and hand the outcome back as plain
//! values.

pub mod error;
pub mod icon;
pub mod injector;
pub mod model;
pub mod payload;
pub mod targets;
pub mod window;
pub mod worker;
