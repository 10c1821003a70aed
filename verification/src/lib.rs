//! Open4X platform library: accounts, identity, sign-in tokens, wire types
//! and the text-command front end of the game client.

pub mod accounts;
pub mod api;
pub mod cli;
pub mod number;
pub mod text;
pub mod web;
