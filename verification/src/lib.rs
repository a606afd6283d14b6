//! Verified core of the emux list browser: list and item navigation,
//! search filtering, favorites, command selection and text utilities.

pub mod app;
pub mod commands;
pub mod config;
pub mod data;
pub mod events;
pub mod favorite;
pub mod launch;
pub mod links;
pub mod navigation;
pub mod order;
pub mod paths;
pub mod render;
pub mod scroll;
pub mod text;
pub mod ui;
pub mod urlcode;
