//! A minimal turn-based RPG combat core: characters with stats, gear that
//! modifies those stats when equipped, and a deterministic attack formula.

pub mod gear;
pub mod character;

pub use character::Character;
pub use gear::{Gear, GearSlot};
