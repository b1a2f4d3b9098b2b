//! The values that travel between this client and the player's backend.
//!
//! Each type that owns text or a list has a view: the same value with every
//! `String` read as the sequence of its characters and every `Vec` as a
//! sequence. The contracts of the library speak of views only.

pub mod player;
pub mod playlist;
pub mod settings;
pub mod spotify;
