use vstd::prelude::*;

use crate::physics::{
    BodyForce, ForceProfile, TorqueDirection, force_in_range, signed, HALF_TURN, UNIT,
};

verus! {

/// Whether the enemy is still held in its zone.
#[derive(Clone, Copy, Debug, PartialEq, Eq, Hash, Structural)]
pub enum EnemyState {
    Undefined,
    PreStart,
    Released,
}

/// Largest forward force of a craft.
pub const UNIT_MAX_FORWARD: i64 = 150;

/// Largest torque of a craft.
pub const UNIT_MAX_TORQUE: i64 = 3000;

/// Force profile of the player's and the enemy's craft.
pub fn unit_force_profile() -> (r: ForceProfile)
    ensures
        r == (ForceProfile { forward: UNIT_MAX_FORWARD, torque: UNIT_MAX_TORQUE }),
{
    ForceProfile { forward: UNIT_MAX_FORWARD, torque: UNIT_MAX_TORQUE }
}

/// Mass of a craft's hull, in thousandths.
pub const UNIT_MASS: u64 = 3000;

/// Largest steering fraction that the enemy uses: 0.4 in micro-units.
pub const ENEMY_MAX_TURN: i64 = 400_000;

/// Half the side of the square that the player may not leave, in pixels.
pub const MAP_EDGE: i64 = 342;

/// A carried weapon slot, at a fixed offset from the player's centre.
#[derive(Clone, Copy, Debug, PartialEq, Eq, Structural)]
pub struct WeaponSlot {
    pub id: u8,
    /// Offset along the craft's forward axis, in pixels.
    pub forward: i64,
    /// Offset along the craft's lateral axis, in pixels.
    pub lateral: i64,
}

/// The player's craft: its hull mass in thousandths and the weapons it still
/// carries.
#[derive(Clone, Debug, PartialEq, Eq)]
pub struct Playable {
    pub mass: u64,
    pub slots: Vec<WeaponSlot>,
}

/// Marks the enemy craft.
#[derive(Clone, Copy, Debug, PartialEq, Eq, Structural)]
pub struct IsEnemy;

pub open spec fn starting_slots() -> Seq<WeaponSlot> {
    seq![
        WeaponSlot { id: 0, forward: 4, lateral: 10 },
        WeaponSlot { id: 1, forward: 4, lateral: -10i64 },
    ]
}

impl Playable {
    /// A freshly spawned craft: bare hull mass and two carried weapons, one on
    /// each side.
    pub fn new() -> (r: Playable)
        ensures
            r.mass == UNIT_MASS,
            r.slots@ == starting_slots(),
    {
        let mut slots: Vec<WeaponSlot> = Vec::new();
        slots.push(WeaponSlot { id: 0, forward: 4, lateral: 10 });
        slots.push(WeaponSlot { id: 1, forward: 4, lateral: -10 });
        assert(slots@ =~= starting_slots());
        Playable { mass: UNIT_MASS, slots }
    }
}

/// Steering fraction from the arrow keys: left wins when both are held.
pub open spec fn player_torque(left: bool, right: bool) -> int {
    if left {
        UNIT as int
    } else if right {
        -UNIT
    } else {
        0
    }
}

/// The force that the player's keys ask for: full torque to the left or the
/// right, full thrust while forward is held.
pub fn unit_movement(left: bool, right: bool, up: bool) -> (r: BodyForce)
    ensures
        r.torque == player_torque(left, right) * UNIT_MAX_TORQUE,
        r.forward == (if up { UNIT as int } else { 0 }) * UNIT_MAX_FORWARD,
{
    let mut torque: i64 = 0;
    if left {
        torque = TorqueDirection::Left.mul(UNIT);
    } else if right {
        torque = TorqueDirection::Right.mul(UNIT);
    }
    let forward: i64 = if up {
        UNIT
    } else {
        0
    };
    BodyForce::new(torque, forward, unit_force_profile())
}

pub open spec fn min_int(a: int, b: int) -> int {
    if a <= b {
        a
    } else {
        b
    }
}

/// The force that the enemy applies towards the player, given the bearing
/// of the player and the throttle for that bearing: it turns towards the
/// player by at most `ENEMY_MAX_TURN`, and thrusts only once released.
pub fn enemy_movement(bearing: (TorqueDirection, i64), throttle: i64, state: EnemyState) -> (r:
    BodyForce)
    requires
        0 <= bearing.1 <= HALF_TURN,
        0 <= throttle <= UNIT,
    ensures
        r.torque == signed(bearing.0, min_int(bearing.1 as int, ENEMY_MAX_TURN as int))
            * UNIT_MAX_TORQUE,
        r.forward == (if state == EnemyState::Released {
            throttle as int
        } else {
            0
        }) * UNIT_MAX_FORWARD,
{
    let turn = if bearing.1 <= ENEMY_MAX_TURN {
        bearing.1
    } else {
        ENEMY_MAX_TURN
    };
    let forward = match state {
        EnemyState::Released => throttle,
        _ => 0,
    };
    let torque = bearing.0.mul(turn);
    assert(force_in_range(torque as int, forward as int));
    BodyForce::new(torque, forward, unit_force_profile())
}

pub open spec fn beyond_map_edge_spec(x: i64, y: i64) -> bool {
    x > MAP_EDGE || x < -MAP_EDGE || y > MAP_EDGE || y < -MAP_EDGE
}

/// Whether a position lies beyond the tolerated edge of the arena.
pub fn beyond_map_edge(x: i64, y: i64) -> (r: bool)
    ensures
        r == beyond_map_edge_spec(x, y),
{
    x > MAP_EDGE || x < -MAP_EDGE || y > MAP_EDGE || y < -MAP_EDGE
}

} // verus!
