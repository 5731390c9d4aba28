//! A focus/break countdown timer ("pomodoro" style).
//!
//! The heart of the crate is the [`app::App`] state machine: it owns the two
//! stored durations, the tick-driven countdown, the focus/break mode switch
//! and the edit sub-state through which a user adjusts a duration. Around it
//! stand [`settings::Settings`], the persisted configuration record with its
//! parser and serializer, and [`utils::format_duration`], which renders a
//! duration as `M:SS` text.
//!
//! Everything here is plain state and arithmetic; reading the terminal,
//! drawing widgets and touching the file system are left to the surrounding
//! program, which hands this crate plain values and takes plain values back.

pub mod app;
pub mod settings;
pub mod utils;
