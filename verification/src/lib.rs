//! Broker: a real-time, insert-only event API.
//!
//! Users are created and log in; logged-in users insert events that carry a
//! collection, a name, a timestamp and JSON data; events whose time has come
//! are published to the event stream, and the latest event of each name is
//! kept as the current value of that name.

pub mod clock;
pub mod ids;
pub mod json;
pub mod model;
pub mod password;
pub mod text;
pub mod keys;
pub mod users;
pub mod auth;
pub mod events;
pub mod routes;
pub mod config;
pub mod method;
pub mod laws;
pub mod token;
