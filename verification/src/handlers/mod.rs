//! Handlers for Steam services.

pub mod steam_user;

pub use steam_user::SteamUser;
