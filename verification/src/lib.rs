//! A bridge between one producer of position samples and many readers.
//!
//! A worker attached to a flight simulator appends samples to a [`Route`];
//! readers poll the route and fetch only the points they have not seen yet.
//! The route is tagged with a session id that changes when the route is
//! reset, so that a reader can tell when to discard what it holds.

pub mod api_key;
pub mod control;
pub mod handle;
pub mod hello;
pub mod point;
pub mod route;
pub mod worker;

pub use crate::api_key::api_key;
pub use crate::control::ControlMessage;
pub use crate::handle::{ConnectionHandle, SessionChange};
pub use crate::hello::hello_message;
pub use crate::point::PositionPoint;
pub use crate::route::{Route, RouteView};
pub use crate::worker::{Worker, WorkerAction, WorkerConfig, WorkerEvent, WorkerState};
