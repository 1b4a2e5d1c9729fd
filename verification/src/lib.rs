//! An ownership registry for digital collectible cards.
//!
//! A single admin identity may mint cards; token ids are handed out
//! sequentially starting at 1 and never reused. Anyone may look a card up,
//! the current owner of a token may transfer it, and any two minted cards
//! can be compared by their power (attack plus defense) to name a winner.

pub mod card;
pub mod laws;
pub mod registry;
