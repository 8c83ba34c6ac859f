//! Aggregation of game controller input from a fixed-slot, poll-only backend
//! (XInput) and an event-driven backend (SDL) into one canonical snapshot
//! model: fifteen button slots and six axis slots per controller.
//!
//! The crate holds the rules only: how raw hardware values become canonical
//! ones, how backend events change the table of live devices, and how the
//! public snapshots are assembled. Talking to the hardware is the caller's
//! part; it hands over plain readings and events and carries out the actions
//! that the poll cycle asks for.

pub mod models;
pub mod utils;
pub mod guid;
pub mod xinput;
pub mod managers;
pub mod commands;
