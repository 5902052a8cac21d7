//! The records that the library reads and produces.

pub mod app_event;
pub mod book;
pub mod brightness;
pub mod dictionary;
pub mod event_type;
pub mod session;
pub mod correlated;
