//! The car: motor chain, status lights and the decisions of its tasks.
pub mod diagnostic;
pub mod drive;
pub mod light;
pub mod motor;
pub mod motorbit;
pub mod pca9685;
pub mod radio;
pub mod rgb;
