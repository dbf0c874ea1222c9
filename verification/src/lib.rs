//! A message-driven composition core for a small interactive application.
//!
//! Independent feature slices (a counter, a theme selector, a system
//! information panel, an image framer and a folder picker) are composed under
//! one dispatcher. Every transition is a function from a state and a message
//! to a new state and a description of deferred work; the host loop performs
//! that work and feeds its completion back in as a message.

pub mod counter_app;
pub mod counter_themes;
pub mod effect;
pub mod features;
pub mod omni_app;
pub mod rust_fs;
pub mod scheduler;
pub mod system_info;
pub mod widgets;
