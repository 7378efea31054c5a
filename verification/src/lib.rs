//! A client library for the management interface of a Teltonika router, and
//! a watcher that follows which devices are on its network.
//!
//! The library sends nothing itself. It words each call as a request, reads
//! each reply, and decides what comes next; the caller talks to the router.
//! Every function is verified against its contract.

pub mod bot;
pub mod client;
pub mod device;
pub mod directory;
pub mod error;
pub mod events;
pub mod identifier;
pub mod model;
pub mod presence;
pub mod session;
pub mod sms;
pub mod text;
pub mod user;
pub mod watcher;
