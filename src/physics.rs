use vstd::prelude::*;

verus! {

/// Micro-units per whole unit: fractions, angles (microradians) and forces
/// are fixed-point integers on this scale.
pub const UNIT: i64 = 1_000_000;

/// Half a turn (pi) in microradians.
pub const HALF_TURN: i64 = 3_141_593;

/// A full turn (2 pi) in microradians.
pub const FULL_TURN: i64 = 6_283_186;

/// The layer that a collider belongs to.
#[derive(Clone, Copy, Debug, PartialEq, Eq, Structural)]
pub enum CollisionMemberships {
    FriendlyBase,
    Friend,
    Enemy,
    InertWeapon,
    KineticWeapon,
    Glod,
}

pub open spec fn membership_bits(m: CollisionMemberships) -> u32 {
    match m {
        CollisionMemberships::FriendlyBase => 0b1,
        CollisionMemberships::Friend => 0b10,
        CollisionMemberships::Enemy => 0b100,
        CollisionMemberships::InertWeapon => 0b1000,
        CollisionMemberships::KineticWeapon => 0b10000,
        CollisionMemberships::Glod => 0b100000,
    }
}

impl CollisionMemberships {
    /// The single bit of this layer.
    pub fn bits(&self) -> (r: u32)
        ensures
            r == membership_bits(*self),
    {
        match self {
            CollisionMemberships::FriendlyBase => 0b1,
            CollisionMemberships::Friend => 0b10,
            CollisionMemberships::Enemy => 0b100,
            CollisionMemberships::InertWeapon => 0b1000,
            CollisionMemberships::KineticWeapon => 0b10000,
            CollisionMemberships::Glod => 0b100000,
        }
    }
}

/// The set of layers that a collider may report contact with.
#[derive(Clone, Copy, Debug, PartialEq, Eq, Structural)]
pub enum CollisionFilters {
    Friend,
    Enemy,
    InertWeapon,
    KineticWeapon,
    /// Friendly bases and pickups: they touch the player's hull only.
    WithFriend,
}

pub open spec fn filter_bits(f: CollisionFilters) -> u32 {
    match f {
        CollisionFilters::Friend => 0b110101,
        CollisionFilters::Enemy => 0b10010,
        CollisionFilters::InertWeapon => 0b10000,
        CollisionFilters::KineticWeapon => 0b1110,
        CollisionFilters::WithFriend => 0b10,
    }
}

impl CollisionFilters {
    /// The union of the bits of the layers that this filter admits.
    pub fn bits(&self) -> (r: u32)
        ensures
            r == filter_bits(*self),
    {
        match self {
            CollisionFilters::Friend => 0b110101,
            CollisionFilters::Enemy => 0b10010,
            CollisionFilters::InertWeapon => 0b10000,
            CollisionFilters::KineticWeapon => 0b1110,
            CollisionFilters::WithFriend => 0b10,
        }
    }
}

/// Two colliders report contact when each one's filter admits the other's
/// membership.
pub open spec fn contact_reported_spec(
    m1: CollisionMemberships,
    f1: CollisionFilters,
    m2: CollisionMemberships,
    f2: CollisionFilters,
) -> bool {
    membership_bits(m1) & filter_bits(f2) != 0 && membership_bits(m2) & filter_bits(f1) != 0
}

/// Whether two colliders with these groups report contact to each other.
pub fn contact_reported(
    m1: CollisionMemberships,
    f1: CollisionFilters,
    m2: CollisionMemberships,
    f2: CollisionFilters,
) -> (r: bool)
    ensures
        r == contact_reported_spec(m1, f1, m2, f2),
{
    (m1.bits() & f2.bits()) != 0 && (m2.bits() & f1.bits()) != 0
}

/// Direction of a turn: `Left` is counter-clockwise (positive angles).
#[derive(Clone, Copy, Debug, PartialEq, Eq, Structural)]
pub enum TorqueDirection {
    Left,
    Right,
}

pub open spec fn direction_of(x: int) -> TorqueDirection {
    if x < 0 {
        TorqueDirection::Right
    } else {
        TorqueDirection::Left
    }
}

pub open spec fn signed(d: TorqueDirection, x: int) -> int {
    match d {
        TorqueDirection::Left => x,
        TorqueDirection::Right => -x,
    }
}

impl TorqueDirection {
    /// `Right` for a negative value, else `Left`.
    pub fn from(x: i64) -> (r: TorqueDirection)
        ensures
            r == direction_of(x as int),
    {
        if x < 0 {
            TorqueDirection::Right
        } else {
            TorqueDirection::Left
        }
    }

    /// The value with the sign of this direction: unchanged to the left,
    /// negated to the right.
    pub fn mul(self, rhs: i64) -> (r: i64)
        requires
            rhs != i64::MIN,
        ensures
            r as int == signed(self, rhs as int),
    {
        match self {
            TorqueDirection::Left => rhs,
            TorqueDirection::Right => -rhs,
        }
    }
}

pub open spec fn abs(x: int) -> int {
    if x < 0 {
        -x
    } else {
        x
    }
}

/// Steering error from `heading` towards `target`: the signed difference,
/// reflected once by a full turn when it exceeds half a turn.
pub open spec fn bearing_spec(heading: int, target: int) -> (TorqueDirection, int) {
    let diff = target - heading;
    if abs(diff) > HALF_TURN {
        let reflected = signed(direction_of(diff), abs(diff) - FULL_TURN);
        (direction_of(reflected), abs(reflected))
    } else {
        (direction_of(diff), abs(diff))
    }
}

/// Kinematic snapshot of a body: position in pixels, heading in
/// microradians, velocities in pixels and microradians per second.
#[derive(Clone, Copy, Debug, PartialEq, Eq, Structural)]
pub struct Body {
    pub x: i64,
    pub y: i64,
    pub heading: i64,
    pub vx: i64,
    pub vy: i64,
    pub angvel: i64,
}

/// A heading as a rotation reports it: at most a full turn either way.
pub open spec fn heading_ok(h: int) -> bool {
    -FULL_TURN <= h <= FULL_TURN
}

/// A bearing as `atan2` gives it: at most half a turn either way.
pub open spec fn bearing_ok(a: int) -> bool {
    -HALF_TURN <= a <= HALF_TURN
}

pub open spec fn distance_sq_spec(a: Body, b: Body) -> int {
    (b.x - a.x) * (b.x - a.x) + (b.y - a.y) * (b.y - a.y)
}

/// Coordinates that keep squared distances within `i64`.
pub open spec fn coord_ok(v: int) -> bool {
    -1_000_000_000 <= v <= 1_000_000_000
}

impl Body {
    /// A body at `(x, y)` with the given heading; no velocity is the same as
    /// zero velocity.
    pub fn new(x: i64, y: i64, heading: i64, vel: Option<(i64, i64, i64)>) -> (r: Body)
        ensures
            r.x == x && r.y == y && r.heading == heading,
            vel.is_none() ==> r.vx == 0 && r.vy == 0 && r.angvel == 0,
            vel.is_some() ==> (r.vx, r.vy, r.angvel) == vel.unwrap(),
    {
        let (vx, vy, angvel) = match vel {
            Some(v) => v,
            None => (0, 0, 0),
        };
        Body { x, y, heading, vx, vy, angvel }
    }

    /// Turn direction and absolute angle from this body's heading to the
    /// bearing `target` (the angle of the line towards the other body).
    pub fn bearing_of(&self, target: i64) -> (r: (TorqueDirection, i64))
        requires
            heading_ok(self.heading as int),
            bearing_ok(target as int),
        ensures
            (r.0, r.1 as int) == bearing_spec(self.heading as int, target as int),
            0 <= r.1 <= HALF_TURN,
    {
        let mut angle_diff: i64 = target - self.heading;
        let mut dir = TorqueDirection::from(angle_diff);
        angle_diff = if angle_diff < 0 { -angle_diff } else { angle_diff };
        if angle_diff > HALF_TURN {
            angle_diff = dir.mul(angle_diff - FULL_TURN);
            dir = TorqueDirection::from(angle_diff);
            angle_diff = if angle_diff < 0 { -angle_diff } else { angle_diff };
        }
        (dir, angle_diff)
    }

    /// Squared distance to another body, in square pixels.
    pub fn distance_sq(&self, other: &Body) -> (r: i64)
        requires
            coord_ok(self.x as int) && coord_ok(self.y as int),
            coord_ok(other.x as int) && coord_ok(other.y as int),
        ensures
            r == distance_sq_spec(*self, *other),
    {
        let dx = other.x - self.x;
        let dy = other.y - self.y;
        assert(dx * dx <= 4_000_000_000_000_000_000) by (nonlinear_arith)
            requires -2_000_000_000 <= dx <= 2_000_000_000;
        assert(dy * dy <= 4_000_000_000_000_000_000) by (nonlinear_arith)
            requires -2_000_000_000 <= dy <= 2_000_000_000;
        assert(dx * dx >= 0 && dy * dy >= 0) by (nonlinear_arith);
        dx * dx + dy * dy
    }
}

/// Whether a steering fraction lies in `[-1, 1]` and a thrust fraction in
/// `[0, 1]`, both in micro-units.
pub open spec fn force_in_range(torque: int, forward: int) -> bool {
    -UNIT <= torque <= UNIT && 0 <= forward <= UNIT
}

/// Largest forward force and torque of a kind of body.
#[derive(Clone, Copy, Debug, PartialEq, Eq, Structural)]
pub struct ForceProfile {
    pub forward: i64,
    pub torque: i64,
}

/// Bound on a profile's components that keeps scaled forces within `i64`.
pub open spec fn profile_ok(fp: ForceProfile) -> bool {
    0 <= fp.forward <= 1_000_000_000 && 0 <= fp.torque <= 1_000_000_000
}

/// A force to apply: torque and forward thrust, in micro-units of force.
#[derive(Clone, Copy, Debug, PartialEq, Eq, Structural)]
pub struct BodyForce {
    pub torque: i64,
    pub forward: i64,
}

impl BodyForce {
    /// Whether `new` accepts these fractions.
    pub fn valid(torque: i64, forward: i64) -> (r: bool)
        ensures
            r == force_in_range(torque as int, forward as int),
    {
        -UNIT <= torque && torque <= UNIT && 0 <= forward && forward <= UNIT
    }

    /// The force for fractions `torque` in `[-1, 1]` and `forward` in
    /// `[0, 1]` of the profile's maxima.
    pub fn new(torque: i64, forward: i64, fp: ForceProfile) -> (r: BodyForce)
        requires
            force_in_range(torque as int, forward as int),
            profile_ok(fp),
        ensures
            r.torque == torque * fp.torque,
            r.forward == forward * fp.forward,
    {
        assert(-1_000_000_000_000_000 <= torque * fp.torque <= 1_000_000_000_000_000)
            by (nonlinear_arith)
            requires
                -UNIT <= torque <= UNIT,
                0 <= fp.torque <= 1_000_000_000,
        ;
        assert(0 <= forward * fp.forward <= 1_000_000_000_000_000) by (nonlinear_arith)
            requires
                0 <= forward <= UNIT,
                0 <= fp.forward <= 1_000_000_000,
        ;
        BodyForce { torque: torque * fp.torque, forward: forward * fp.forward }
    }
}

/// Bearing normalization: the returned angle lies in `[0, pi]`, and the
/// signed angle that the direction gives it differs from `target - heading`
/// by a whole number of turns.
pub proof fn lemma_bearing_normalized(heading: int, target: int)
    requires
        heading_ok(heading),
        bearing_ok(target),
    ensures
        0 <= bearing_spec(heading, target).1 <= HALF_TURN,
        (signed(bearing_spec(heading, target).0, bearing_spec(heading, target).1) - (target
            - heading)) % (FULL_TURN as int) == 0,
{
}

} // verus!

verus! {

/// A position in the arena, in whole pixels.
#[derive(Clone, Copy, Debug, PartialEq, Eq, Structural)]
pub struct Point {
    pub x: i64,
    pub y: i64,
}

} // verus!
