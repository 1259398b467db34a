//! Event translation between `baseview` and `iced`.
//!
//! `baseview` opens windows for audio plugins and reports what happens to
//! them in a vocabulary of its own; `iced` expects mouse, keyboard and window
//! events in another. This crate is the translation between the two: a key
//! mapping table, a mapping of mouse buttons and scroll amounts, and an event
//! pump that also keeps track of the modifier keys and reports a change of
//! them once, ahead of the event that brought it.
//!
//! All of it is verified with Verus. The code calls into neither library
//! and works on plain values: [`foreign`] holds the events as the windowing
//! library delivers them, [`target`] holds them as the GUI framework expects
//! them, [`binary`] holds the numbers that come with them, and
//! [`conversion`] holds the translation and what is proved of it. Whoever
//! sits between the two libraries converts their values into these types and
//! back, field by field.

pub mod binary;
pub mod conversion;
pub mod foreign;
pub mod target;
