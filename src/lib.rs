//! Combat-resolution engine of a turn-based deck battle game: combatant
//! ledgers, the damage and block pipeline, card piles, persistent effects
//! and the turn state machine.

pub mod ledger;
pub mod player;
pub mod text;
pub mod damage;
pub mod card;
pub mod actions;
pub mod effects;
pub mod enemy;
pub mod game_state;
pub mod card_library;
