//! Verified core of the Friendolls desktop client: hotkeys, client
//! configuration, sprite recolouring, the friend projections, the
//! data-refresh scheduler and the sign-in flow.

pub mod accelerators;
pub mod active_app;
pub mod app_data;
pub mod app_events;
pub mod app_state;
pub mod app_windows;
pub mod auth;
pub mod auth_flow;
pub mod auth_storage;
pub mod client_config;
pub mod client_config_manager;
pub mod display;
pub mod friends;
pub mod gif_codec;
pub mod health;
pub mod icon_cache;
pub mod models;
pub mod neko_positions;
pub mod pet_sprite;
pub mod platform;
pub mod presence;
pub mod projections;
pub mod recolor;
pub mod scene;
pub mod session;
pub mod sprite;
pub mod sprite_recolor;
pub mod str_map;
pub mod text;
pub mod urls;
pub mod window_manager;
pub mod ws;
