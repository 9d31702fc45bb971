//! Rules engine of a cooperative disease-containment board game: the city
//! graph, the card decks, the phases of a player's turn and the game state
//! that one step of play changes.

pub mod game;
pub mod multiplayer;
pub mod util;
