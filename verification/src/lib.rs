//! Core of a flashcard quiz client: entities, deck cache, edit buffer,
//! quiz scoring, response classification, and the session state machine
//! that drives every screen transition and remote-call decision.

pub mod entities;
pub mod edit;
pub mod protocol;
pub mod quiz;
pub mod session;
pub mod store;
