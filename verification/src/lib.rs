//! The verified core of the LastKey settings window.

pub mod figures;
pub mod header;
pub mod icons;
pub mod ipc_client;
pub mod keycap;
pub mod language;
pub mod mapping;
pub mod message;
pub mod motion;
pub mod preview;
pub mod profiles;
pub mod protocol;
pub mod settings;
pub mod state;
pub mod text;
pub mod theme;

