//! A chat bot's interaction handler that keeps no database: the shell game's
//! state lives in the text of the bot's own messages, and a player's past
//! score is vouched for by a salted digest spoken as a phrase.
use vstd::prelude::*;

pub mod auth;
pub mod chance;
pub mod game_of_life;
pub mod handlers;
pub mod hexcode;
pub mod interactions;
pub mod messages;
pub mod rules;
pub mod shells;
pub mod sselvish;
pub mod state;
pub mod text;
pub mod toys;

verus! {

} // verus!
