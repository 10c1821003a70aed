//! The browser client's pure helpers: tab navigation, map tile packing,
//! number formatting, terrain colours and glyphs, and reading the session
//! token from the page URL.

pub mod hud;
pub mod page;
pub mod terrain;
pub mod tabs;
