//! Rules of a two-player word duel.
//!
//! Two players share a room. In every turn each of them guesses the secret
//! word, then each hides one letter of the feedback that the opponent is
//! about to get. This crate holds what the server decides, with the proof
//! that it decides it as stated:
//!
//! - `hints`: the feedback for a guess;
//! - `room`: a room and its players, and what holds of every room;
//! - `messages`: the messages to the players and their queues;
//! - `game`: the turns and phases of a match, message by message;
//! - `game_laws`: what holds of the match whatever the players send;
//! - `connection`: what the loops that serve a connection decide, and the
//!   proof that every message is delivered once and in order;
//! - `registry`: the rooms of a server;
//! - `json`: incoming frames;
//! - `util`: join codes.
//!
//! Nothing here waits, reads a clock or touches the network: the time and
//! the frames come in as arguments, the texts to send go out as values.

pub mod text;
pub mod words;
pub mod hints;
pub mod room;
pub mod messages;
pub mod game;
pub mod game_laws;
pub mod connection;
pub mod registry;
pub mod util;
pub mod json;
