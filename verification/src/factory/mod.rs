//! The factory's verified core: the roster, configuration, the provider
//! seam's decisions, the wall contract and the Docker wall.
pub mod config;
pub mod docker;
pub mod engine;
pub mod executor;
pub mod gates;
pub mod git;
pub mod provider;
pub mod roster;
pub mod sandbox;
pub mod tools;
pub mod workflows;
pub mod worktree;
pub mod wall;
