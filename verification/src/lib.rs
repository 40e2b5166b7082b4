//! A small windowing layer: platform windows, their events, and the
//! queue through which an application receives them.
pub mod application;
pub mod event;
pub mod keys;
pub mod platform;

pub use application::App;
pub use event::{Event, EventDeque, EventManager};
pub use keys::Key;
