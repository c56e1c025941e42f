//! Verified core logic of the Warp terminal application: identifiers,
//! privacy settings, notification text, history suggestions, working
//! directory tracking and the small parsers the UI relies on.

pub mod alias;
pub mod app_state;
pub mod block_selection;
pub mod code;
pub mod context_chips;
pub mod context_menu;
pub mod history;
pub mod inline_banners;
pub mod input_sync;
pub mod interaction_mode;
pub mod linear;
pub mod notifications;
pub mod open_in_warp;
pub mod opened_files;
pub mod persistence;
pub mod privacy;
pub mod sync_ids;
pub mod terminal_events;
pub mod terminal_view;
pub mod text;
pub mod user_config;
pub mod working_directories;
