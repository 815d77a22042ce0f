//! Deterministic per-tick gameplay simulation core.
//!
//! A tick runs the registered systems stage by stage; systems read and write the
//! components of the entities in the store and record structural changes as commands,
//! which are applied between stages. Every quantity is a fixed-point integer, every
//! pass visits the store in ascending order, and every function states its result
//! exactly, so identical inputs give identical worlds.
//!
//! - [`world`], [`entity`], [`components`], [`assets`], [`input`], [`math`], [`timer`]:
//!   the store and the plain data in it.
//! - [`schedule`], [`tick`], [`commands`]: stages, the run of a tick, the command queue.
//! - [`player_state`], [`walk`]: the player state machine and its walk state.
//! - [`item`], [`inventories`], [`item_throw`]: grabbing, dropping and throwing items.
//! - [`kick_bomb`], [`idle_bombs`], [`lit_bombs`], [`hydration`], [`lifetime`]: the kick
//!   bomb from map slot to explosion.
//! - [`kick_bomb_laws`], [`lit_pass`], [`tick_laws`], [`slot_laws`]: what is proved of
//!   bombs, passes and ticks.
//! - [`audio`], [`debug`]: what the host hears and draws.

pub mod assets;
pub mod audio;
pub mod commands;
pub mod components;
pub mod debug;
pub mod entity;
pub mod hydration;
pub mod idle_bombs;
pub mod input;
pub mod inventories;
pub mod item;
pub mod item_throw;
pub mod kick_bomb;
pub mod kick_bomb_laws;
pub mod lifetime;
pub mod lit_bombs;
pub mod lit_pass;
pub mod math;
pub mod player_state;
pub mod schedule;
pub mod slot_laws;
pub mod tick;
pub mod tick_laws;
pub mod timer;
pub mod walk;
pub mod world;
