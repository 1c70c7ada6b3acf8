//! A frame-pacing clock and the lifecycle of a graphics session, with the
//! rules of both stated as contracts and proved.
//!
//! [`step_timer::StepTimer`] turns readings of a hardware counter into a
//! cadence of simulation updates. [`game::Game`] owns the state of a rendering
//! session and decides, from what the rendering backend reports, what the host
//! has to ask of the backend next. Neither reads a clock nor talks to a
//! device: the host hands in counter readings and backend outcomes as plain
//! values and carries out the operations it is given.
pub mod backend;
pub mod game;
pub mod pacing;
pub mod session;
pub mod step_timer;
