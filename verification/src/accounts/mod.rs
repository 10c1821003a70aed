//! Accounts and identities: player ids, linked sign-in identities, profile
//! preferences, and the sign-in token formats.

pub mod audit;
pub mod clock;
pub mod crypto;
pub mod friends;
pub mod games;
pub mod magic_link;
pub mod mailer;
pub mod oidc;
pub mod player;
pub mod presets;
pub mod search;
pub mod session;
pub mod storage;
