//! Session and streaming manager for mobile device simulators: coordinate
//! mapping, touch command lines, the log fan-out bus, the session registry,
//! stream relay accounting, device listing and the install-and-launch flow.

pub mod coords;
pub mod devices;
pub mod discovery;
pub mod error;
pub mod events;
pub mod gestures;
pub mod launch;
pub mod logbus;
pub mod products;
pub mod proxy;
pub mod registry;
pub mod session;
pub mod text;
pub mod touch;
