//! Tuner logic: notes around a detected pitch, the device list, the
//! key-driven state of the tuner screen and the geometry of what it draws.

pub mod text;

pub mod notes;
pub mod devices;
pub mod app;
pub mod ui;
