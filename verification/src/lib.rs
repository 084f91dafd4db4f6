//! A referee for correspondence chess played over a mail channel.
//!
//! The library holds the verified core: the message-field parser, the
//! game store with its matchup index and move evidence, the move
//! validator and state updater, the chained proof-input builder, the
//! settlement state machine and the poll-loop cursor.  Mail transport,
//! durable storage and the proving engine are outside collaborators,
//! reached through narrow trusted wrappers.

pub mod assoc;
pub mod codec;
pub mod engine;
pub mod game;
pub mod mail;
pub mod matchup;
pub mod parse;
pub mod poll;
pub mod rules;
pub mod settle;
pub mod store;
pub mod strutil;
