//! Pure logic of the Qingjian Windows shell: candidate-window and status-bar placement,
//! reconnect back-off of the text service, the protocol-mismatch latch, key routing,
//! text formatting of usage counters, logo recolouring roles and settings edits.

pub mod geometry;
pub mod placement;
pub mod status_bar;
pub mod connection;
pub mod mismatch;
pub mod wide;
pub mod logo;
pub mod text;
pub mod theme;
pub mod render_data;
pub mod key_input;
pub mod strings;
pub mod dictionaries;
pub mod settings;
pub mod mode_icon;
pub mod layered;
pub mod edit_anchor;
pub mod sink;
pub mod reload;
pub mod palette;
pub mod about;
pub mod log_export;
pub mod title_bar;
pub mod router_config;
