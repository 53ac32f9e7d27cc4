//! Authoritative falling-block game server core: the grid and piece
//! primitives, the action wire codec, the game engine and the
//! per-connection session state machine, together with the value types and
//! decision rules of the surrounding account, persistence and admission
//! layers.

pub mod action;
pub mod builder;
pub mod config;
pub mod engine;
pub mod errors;
pub mod grid;
pub mod middleware;
pub mod models;
pub mod piece;
pub mod repository;
pub mod services;
pub mod session;
pub mod text;
