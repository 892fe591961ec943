//! The navigation core of a terminal note browser: which screen is
//! active, which notes were visited, and where each key goes.

pub mod app;
pub mod config;
pub mod message;
pub mod navigation;
pub mod screen;
pub mod terminal;
