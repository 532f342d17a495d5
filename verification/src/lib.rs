pub mod ai;
pub mod bot;
pub mod events;
pub mod i18n;
pub mod infra;
pub mod laws;
pub mod moderation;
pub mod settings;
pub mod state;
pub mod store;
pub mod terminal;
pub mod text;
pub mod utility;
