//! A gift-exchange coordinator: users register, create and join games, and a
//! game's administrator runs it to hand out a random giver/receiver pairing.
//!
//! The repository (`runner`) keeps user and game records in a sled tree and
//! proves that every cross-record update keeps both sides consistent. The
//! dialogue engine (`scheme`) turns a session's messages into repository
//! operations, and `presents` draws the pairing.
use vstd::prelude::*;

pub mod utils;
pub mod errors;
pub mod codec;
pub mod store;
pub mod presents;
pub mod runner;
pub mod text;
pub mod scheme;
