//! Supervision engine for a set of operator-selected child processes.
//!
//! The engine decides; its caller performs. Every function here maps plain
//! values to plain values: a definition and a platform name to the command
//! to spawn, the outcome of a termination request to the handle's next
//! state, the lines read from a stream to the messages that are forwarded.
//! Spawning, waiting, reading and sending are left to the program that
//! drives the engine.

pub mod capture;
pub mod command;
pub mod dashboard;
pub mod db;
pub mod display;
pub mod error;
pub mod registry;
pub mod servers;
pub mod simulate;
pub mod text;

