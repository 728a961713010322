//! Core of a tracker that polls a game-statistics service for one user, keeps
//! the latest snapshot and republishes it to socket subscribers.
//!
//! Everything that waits on the network lives outside this crate; what is here
//! are the decisions taken between two waits, each with its contract.

pub mod acceptor;
pub mod cli;
pub mod config;
pub mod constants;
pub mod cycle;
pub mod format;
pub mod gui;
pub mod image;
pub mod outside;
pub mod poller;
pub mod registry;
pub mod respektive;
pub mod setup;
pub mod structs;
pub mod text;
pub mod types;
pub mod viewer;
