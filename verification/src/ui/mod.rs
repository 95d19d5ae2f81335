//! The decisions behind NovaDream's windows and dialogs: what each form
//! turns into, which choices are offered, what is shown. The widgets are the
//! caller's.
pub mod add_game;
pub mod game_settings;
pub mod login;
pub mod settings;
pub mod sidebar;
pub mod store;
