//! The backend that speaks to a bus driver through its client library.
//!
//! The driver emulates the controller; what is left here is the report that
//! is sent to it, the order in which its notifications reach the consumer,
//! and the meaning of its error codes.

pub mod api;
pub mod async_impl;
pub mod errors;
pub mod shared_impl;
pub mod sync_impl;
