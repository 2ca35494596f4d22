//! The event-dispatch and page-navigation core of a terminal novel reader.
//!
//! The rules of this crate are verified; what they take on trust of the list
//! widget stands in [`cursor`]. The terminal, the timers and the background
//! loaders live outside the crate: they feed [`bus::EventBus`] with
//! [`events::Events`] and carry out the [`actions::Effect`] that each step of
//! [`session::App`] asks for.

pub mod actions;
pub mod bus;
pub mod confirm;
pub mod cursor;
pub mod events;
pub mod history;
pub mod invariants;
pub mod key;
pub mod list_item;
pub mod loading;
pub mod mode;
pub mod navigator;
pub mod read_novel;
pub mod select_file;
pub mod select_history;
pub mod select_novel;
pub mod session;
pub mod setting;
