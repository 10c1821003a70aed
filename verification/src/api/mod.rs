//! Wire types shared by client and server.

pub mod coord;
pub mod enums;
pub mod ids;
pub mod messages;
