//! The interactive session: its state, the messages that drive it, and the
//! protocol by which it reaches the store.

pub mod clients;
pub mod entries;
pub mod event;
pub mod invoicing;
pub mod lookup;
pub mod navigation;
pub mod pomodoro_screen;
pub mod projects;
pub mod protocol;
pub mod settings;
pub mod state;
pub mod timer;
pub mod update;
