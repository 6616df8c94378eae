//! Scoring engine and per-turn state machine for the dice game Farkle.
//!
//! The verified core lives here: dice with their selection state, the pool of
//! six dice with its classification and pickability rules, scored selections,
//! players, and the turn state machine that ties them together.

mod die;
pub mod laws;
mod player;
mod roll;
pub mod rules;
mod selection;
mod state;
mod turn;

pub use die::{Die, DieValue};
pub use player::{hand_total, Player, PlayerView};
pub use roll::Roll;
pub use rules::DieView;
pub use selection::{Selection, SelectionView};
pub use state::{GameState, MoveType, RenderState, RollType, ToggleResult};
pub use turn::{after_roll, Turn, TurnEvent, TurnView};
