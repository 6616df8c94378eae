use vstd::prelude::*;

verus! {

/// Where a player's turn stands.
#[derive(Default, Debug, Clone, Copy, PartialEq, Eq, Structural)]
pub enum GameState {
    /// The turn has just started and nothing has been rolled yet.
    #[default]
    FirstRoll,
    /// A selection was confirmed: the player may roll again or bank.
    Rolling,
    /// A roll gave a simple result: the player must pick dice and confirm.
    Picking,
    /// The turn is over.
    TurnEnded,
}

/// The classification of a fresh roll.
#[derive(Debug, Clone, Copy, PartialEq, Eq, Structural)]
pub enum RollType {
    /// No die can be picked: the turn is lost.
    Farkle,
    /// Some dice can be picked by hand.
    Simple,
    /// Three pairs.
    TriplePair,
    /// All six faces, once each.
    Straight,
}

/// What came of toggling one die.
#[derive(Debug, Clone, Copy, PartialEq, Eq, Structural)]
pub enum ToggleResult {
    Picked,
    Unpicked,
    NotPickable,
    NotUnpickable,
}

/// The moves a player can ask for.
#[derive(Debug, Clone, Copy, PartialEq, Eq, Structural)]
pub enum MoveType {
    Roll,
    Bank,
    Exit,
    View,
    Pick,
    Help,
    Hand,
    Unpick,
}

/// How a die is to be drawn: during a game, with whether it may be picked,
/// or on the title screen.
#[derive(Debug, Clone, Copy, PartialEq, Eq, Structural)]
pub enum RenderState {
    InGame(bool),
    Splash,
}

impl RollType {
    /// The name under which a roll type is shown to players.
    pub fn label(&self) -> (r: &'static str)
        ensures
            *self is Farkle ==> r@ == "Farkle"@,
            *self is Simple ==> r@ == "Simple roll"@,
            *self is TriplePair ==> r@ == "Triple pair"@,
            *self is Straight ==> r@ == "Straight"@,
    {
        match self {
            RollType::Farkle => "Farkle",
            RollType::Simple => "Simple roll",
            RollType::TriplePair => "Triple pair",
            RollType::Straight => "Straight",
        }
    }
}

} // verus!
