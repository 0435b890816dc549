//! Verified core of a small web calendar: users, their events, the pages
//! that the server answers with, the Moscow-time conversions of event dates,
//! error replies and the interrupt-driven shutdown protocol.

pub mod assets;
pub mod bindings;
pub mod errors;
pub mod laws;
pub mod listing;
pub mod model;
pub mod moscow_time;
pub mod pages;
pub mod shutdown;
pub mod store;
