//! A simplified Monopoly turn simulator: dice, a circular board position,
//! cyclic chance and community-chest decks, and the turn engine that ties
//! them together.

pub mod deck;
pub mod dice;
pub mod game;
pub mod space;

pub use deck::{Deck, Movement, SpaceType};
pub use dice::Dice;
pub use game::Game;
pub use space::Space;
