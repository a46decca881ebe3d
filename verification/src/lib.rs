//! A reference-counted chain of nodes with strong forward links and weak
//! backward links, modelled as an index-addressed arena so that ownership,
//! reachability and truncation can be verified, together with a small
//! verified word-guessing game state.

pub mod chain;
pub mod hangman;
