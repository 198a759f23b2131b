//! The controller: input pipelines, their fusion, and the decisions of its
//! tasks.
pub mod button;
pub mod fusion;
pub mod joystick;
pub mod joystick_right;
pub mod mode;
pub mod radio;
pub mod rgb;
pub mod signal;
pub mod tilt;
