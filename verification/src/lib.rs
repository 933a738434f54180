//! A trivia board game: players take turns rolling a die, moving around a
//! board of question categories and answering questions drawn from a deck.
pub mod category;
pub mod dice;
pub mod dummy_deck;
pub mod game;
pub mod laws;
pub mod observer;
pub mod text;

pub use crate::category::Category;
pub use crate::dice::Dice;
pub use crate::dummy_deck::DummyDeck;
pub use crate::game::Game;
pub use crate::observer::{Card, Deck, GameObserver};
pub use crate::text::decimal_string;
