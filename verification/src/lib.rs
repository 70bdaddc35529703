//! Deterministic simulation core for arena battles between spinning tops.
//!
//! Every quantity is a fixed-point number (see [`fixed::Fixed`]), so a tick
//! computes the same result on every machine. The crate holds the stat
//! resolver, the physics integrator, collision detection, the combat event
//! pipeline, zone effects and entity lifecycle; drawing, sound, menus and
//! the database live with the host application.
//!
//! A battle is a [`world::World`]. The host sets it up from a map and from
//! resolved builds, sets the intents of the controlled tops before each
//! tick, and calls [`world::World::step`]; afterwards the world's `events`
//! hold what happened in the tick.

pub mod arena;
pub mod collision;
pub mod combat;
pub mod components;
pub mod config;
pub mod design;
pub mod entity;
pub mod events;
pub mod filter;
pub mod fixed;
pub mod hooks;
pub mod intent;
pub mod map;
pub mod parts;
pub mod physics;
pub mod setup;
pub mod sqrt;
pub mod stats;
pub mod status;
pub mod storage;
pub mod vector;
pub mod weapons;
pub mod world;
pub mod zones;
