//! A drill generator for verb-conjugation practice.
//!
//! The crate holds the grammatical mutation engine, the dictionary of word
//! forms it works on, and the decisions of a practice session. Reading files
//! and talking to the terminal is left to the program around it.
//!
//! - `dictionary`: the feature vocabulary, the entry, the dictionary of a
//!   session, and the reading of a dictionary from its table;
//! - `mutation`: the mutation rules and their laws;
//! - `game`: rounds and the tally of a session;
//! - `schema`: how a row of the table reads as an entry;
//! - `render`: entries and mutations in words;
//! - `code`: the number by which a dictionary files an entry;
//! - `records`, `text`: what is taken on trust from the csv crate and from
//!   the standard library.

pub mod code;
pub mod dictionary;
pub mod game;
pub mod mutation;
pub mod records;
pub mod render;
pub mod schema;
pub mod text;
