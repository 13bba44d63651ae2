use vstd::prelude::*;

use crate::physics::Point;

verus! {

/// Which screen the application shows.
#[derive(Clone, Copy, Debug, PartialEq, Eq, Hash, Structural)]
pub enum AppState {
    MainMenu,
    SeedMenu,
    InGame,
}

/// Phase of a round: idle outside the game, drawing the layout, playing,
/// and the two endings.
#[derive(Clone, Copy, Debug, PartialEq, Eq, Hash, Structural)]
pub enum GameState {
    OutOfGame,
    SampleRandom,
    Game,
    Victory,
    GameOver,
}

/// Marks a pickup.
#[derive(Clone, Copy, Debug, PartialEq, Eq, Structural)]
pub struct IsGlod;

/// Marks an entity that the presentation layer has drawn once.
#[derive(Clone, Copy, Debug, PartialEq, Eq, Structural)]
pub struct Drawn;

/// Marks the friendly start zone.
#[derive(Clone, Copy, Debug, PartialEq, Eq, Structural)]
pub struct IsBase;

/// Marks the zone that holds the enemy until it is released.
#[derive(Clone, Copy, Debug, PartialEq, Eq, Structural)]
pub struct EnemyBase;

/// Where the player starts a round.
#[derive(Clone, Copy, Debug, PartialEq, Eq, Structural)]
pub struct FriendStartingPoint(pub Point);

/// Where the enemy starts a round.
#[derive(Clone, Copy, Debug, PartialEq, Eq, Structural)]
pub struct FoeStartingPoint(pub Point);

/// Pickups collected in the current round.
#[derive(Clone, Copy, Debug, PartialEq, Eq, Structural)]
pub struct Score(pub u8);

/// Best score of a won round since the process started.
#[derive(Clone, Copy, Debug, PartialEq, Eq, Structural)]
pub struct HighScore(pub u8);

pub open spec fn max_u8(a: u8, b: u8) -> u8 {
    if a >= b {
        a
    } else {
        b
    }
}

/// Sets the score back to zero, whatever it was.
pub fn reset_score(score: &mut Score)
    ensures
        final(score).0 == 0,
{
    *score = Score(0);
}

/// Raises the high score to the score if the score is higher.
pub fn update_high_score(score: &Score, high_score: &mut HighScore)
    ensures
        final(high_score).0 == max_u8(score.0, old(high_score).0),
{
    let best = if score.0 >= high_score.0 {
        score.0
    } else {
        high_score.0
    };
    *high_score = HighScore(best);
}

} // verus!
