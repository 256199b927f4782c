//! Decision logic of the Shazam menu-bar companion: message formats, HTTP
//! framing, project-list extraction, daemon control plans and the menu view.

pub mod autostart;
pub mod daemon;
pub mod http;
pub mod icon;
pub mod json;
pub mod laws;
pub mod launch;
pub mod poll;
pub mod protocol;
pub mod quote;
pub mod state;
pub mod text;
pub mod tray;
