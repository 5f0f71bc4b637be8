//! A verified model of the game-state logic of a Quake Live server extension:
//! the player and entity accessors, the item helpers, the decisions that the
//! engine hooks take around the scripting handlers, and the handling of the
//! messages of the match statistics feed.
#![allow(non_camel_case_types)]
#![allow(non_snake_case)]

pub mod quake_types;
pub mod text;
pub mod engine_error;
pub mod current_level;
pub mod game_client;
pub mod game_item;
pub mod game_entity;
pub mod player_info;
pub mod json;
pub mod stats_listener;
pub mod dispatchers;
pub mod client;
pub mod hooks;
pub mod patches;
pub mod python_types;
pub mod python_api;
pub mod entity_table;
pub mod item_commands;
pub mod player_state;
pub mod lifecycle;
