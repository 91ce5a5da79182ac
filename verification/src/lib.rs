//! The rules of a terminal dashboard that shows, as one gauge per drive, how
//! full each drive is: how a measurement is classified and scaled, how the
//! screen is divided, how the answer of the time-series database becomes the
//! set of readings on display, how events are queued between their producers
//! and the loop, and what the loop does with each event.

pub mod app;
pub mod binary64;
pub mod event;
pub mod influx_db;
pub mod layout;
pub mod tone;
