//! Fund records, the store requests that manage them, and the in-process event
//! queue through which newly created funds are checked for duplicates.

pub mod config;
pub mod controller;
pub mod db;
pub mod error;
pub mod event_loop;
pub mod events;
pub mod json;
pub mod model;
pub mod store;
pub mod text;
