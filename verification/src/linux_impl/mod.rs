//! The backend that speaks to the kernel's input-injection facility.

pub mod async_impl;
pub mod clock;
pub mod codes;
pub mod registry;
pub mod shared_impl;
pub mod sync_impl;
pub mod text;
pub mod types;
pub mod wire;
