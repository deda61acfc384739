//! Decision core of the handheld's resident daemon: persisted volume and
//! brightness settings, menu-key chord classification, the supervisor that
//! owns the foreground and overlay child processes, and the clock widget.

pub mod clock;
pub mod input;
pub mod settings;
pub mod supervisor;
