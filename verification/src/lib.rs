//! Core logic of a tile-and-turn role-playing game client: the battle turn
//! scheduler, per-combatant state, countdown-driven animation timelines, and
//! the menu layer that bridges player input to combat actions.
//!
//! Everything here is deterministic and works on plain integer values; the
//! rendering, audio and input-capture shells around it feed in snapshots of
//! pressed keys and pre-drawn random numbers and read back sprite keys,
//! offsets and opacities to draw.

pub mod actions;
pub mod animation;
pub mod battle;
pub mod battle_menus;
pub mod character;
pub mod click_event;
pub mod data;
pub mod enemy;
pub mod input;
pub mod menu;
pub mod menus;
pub mod notification;
pub mod print_damage;
pub mod sfx;
pub mod state;
pub mod strings;
pub mod textbox;
pub mod tile;
pub mod transition;

pub use state::BattleState;
