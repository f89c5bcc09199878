//! Consulting-hours tracking: timers, Pomodoro intervals and invoices.

pub mod display;
pub mod driver;
pub mod identities;
pub mod invoice;
pub mod laws;
pub mod models;
pub mod pomodoro;
pub mod session;
pub mod store;
pub mod text;
pub mod time;
