//! A verified two-player tic-tac-toe engine over a persisted game record.
//!
//! The engine owns only the in-memory transition logic of one game record:
//! turn ownership, move legality, board mutation, and win/tie detection.
//! Storage, authentication and transport belong to the hosting collaborator,
//! which is required to serialize all mutations of a record.

pub mod board;
pub mod game;
pub mod laws;
pub mod player;
