//! Integer and string core of a live map of agent activity: keyword placement,
//! neighbour grid, replay history, identity allocation, connection lifecycle,
//! and the display presets around them.

pub mod semantic;
pub mod text;
pub mod spatial;
pub mod time;
pub mod history;
pub mod event;
pub mod connection;
pub mod identity;
pub mod field;
pub mod layers;
pub mod display_mode;
pub mod symbols;
pub mod ui;
pub mod input;
pub mod animation;
pub mod demo;
pub mod config;
pub mod activity;
pub mod colors;
pub mod interpolation;
