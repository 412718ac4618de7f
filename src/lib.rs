//! Game state machine and actor model of a small arcade maze game.
//!
//! The library holds every decision the game makes: how actors move and which
//! sprite shows them, how the menu cursor moves and what it selects, how a
//! playground reacts to keys, and how the controller switches screens. Drawing,
//! loading textures and fonts, and polling the window stay with the caller,
//! which hands the library plain input events and draws the commands it gets
//! back.

pub mod game;
pub mod game_core;
pub mod graphics;
pub mod menu;
pub mod playground;
