//! A small role-playing-game engine: entities that react to events through a
//! chain of behaviours, and inventories that store generated items under a
//! stacking and capacity discipline.

/// The structures used to build a character
pub mod character;
/// The structure of items
pub mod item;
/// A module for global type consistency
pub mod types;
/// The structure and mechanics of an inventory
pub mod inventory;
/// The behaviour of entities
pub mod behaviour;
/// The structure of events
pub mod event;
/// Everything regarding entities
pub mod entity;
/// Generate random items
pub mod item_generator;
/// The engine that runs the game
pub mod engine;
/// Structures for saving, loading and playing a game world
pub mod world;
/// Graphic assets
pub mod assets;
