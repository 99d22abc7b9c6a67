//! A chess position and its moves.
//!
//! The library keeps a board as twelve sets of squares, finds the moves of
//! the player to move, plays a move and takes it back, and tells whether a
//! king is attacked. Around this core it reads moves in algebraic notation
//! and keeps a calendar date, a chess clock and the outcome of reading a
//! configuration. Every function states what it computes over a
//! mathematical model of its data, and is proved to compute it.

pub mod bitboard;
pub mod bits;
pub mod board;
pub mod castling_rights;
pub mod chess_moves;
pub mod clock;
pub mod config;
pub mod log_level;
pub mod log_settings;
pub mod move_data;
pub mod move_generation;
pub mod move_parser;
pub mod move_selection;
pub mod pieces;
pub mod position;
pub mod rules;
pub mod square;
pub mod text;
pub mod time;
