//! Rendezvous broker and board logic for a two-player hexagonal chess game.

pub mod auth;
pub mod board;
pub mod buffer;
pub mod chat;
pub mod client;
pub mod clock;
pub mod connector;
pub mod controller;
pub mod db;
pub mod decimal;
pub mod directions;
pub mod game;
pub mod gc;
pub mod glue;
pub mod highlight;
pub mod interface;
pub mod laws;
pub mod meta;
pub mod packet;
pub mod piece;
pub mod poll;
pub mod room;
pub mod signal;
pub mod signal_client;
pub mod text;
pub mod utils;
