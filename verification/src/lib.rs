//! Playing cards for trick-taking games, packed into a single byte.
//!
//! A [`Card`] records its suit, the suit that was trump when it was made, and
//! its rank. Two cards compare as they would in a trick: within one suit the
//! higher rank wins, a trump beats any card of another suit, and two cards of
//! different plain suits have no order at all.

pub mod card;
pub mod decode;
pub mod deck;
pub mod laws;
pub mod order;
pub mod rank;
pub mod suit;
pub mod text;

pub use card::Card;
pub use decode::DecodeError;
pub use deck::Deck;
pub use rank::Rank;
pub use suit::Suit;
