//! Core of a divination installation: line classification of sensor windows,
//! symbol assembly, reaction dispatch, usage throttling and the session cycle.

pub mod classifier;
pub mod reaction;
pub mod leds;
pub mod symbol;
pub mod sensor;
pub mod throttle;
pub mod control;
pub mod machine;
