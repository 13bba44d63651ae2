use vstd::prelude::*;

use crate::physics::{coord_ok, BodyForce, ForceProfile, Point, UNIT};

verus! {

/// Largest forward force of a torpedo; it never turns.
pub const WEAPON_MAX_FORWARD: i64 = 15;

/// Mass of a weapon, in thousandths.
pub const WEAPON_MASS: u64 = 100;

/// Time from launch to the explosion, in milliseconds.
pub const EXPLOSION_DELAY_MS: u64 = 2500;

/// Time from launch until a contact sets a torpedo off, in milliseconds.
pub const ARMING_DELAY_MS: u64 = 0;

/// Reach of an explosion, in pixels.
pub const EXPLOSION_RADIUS: i64 = 50;

/// Impulse of an explosion at its centre.
pub const EXPLOSION_IMPULSE: i64 = 3500;

/// Force profile of a torpedo.
pub fn weapon_force_profile() -> (r: ForceProfile)
    ensures
        r == (ForceProfile { forward: WEAPON_MAX_FORWARD, torque: 0 }),
{
    ForceProfile { forward: WEAPON_MAX_FORWARD, torque: 0 }
}

/// Marks an entity that explosions push.
#[derive(Clone, Copy, Debug, PartialEq, Eq, Structural)]
pub struct Explodee;

/// Marks a weapon, carried or launched.
#[derive(Clone, Copy, Debug, PartialEq, Eq, Structural)]
pub struct Weapon;

/// Marks a weapon still carried.
#[derive(Clone, Copy, Debug, PartialEq, Eq, Structural)]
pub struct WeaponPreLaunch;

/// Marks a launched weapon.
#[derive(Clone, Copy, Debug, PartialEq, Eq, Structural)]
pub struct WeaponLaunch;

/// An explosion: how far it reaches and the impulse at its centre.
#[derive(Clone, Copy, Debug, PartialEq, Eq, Structural)]
pub struct Explosion {
    pub radius: i64,
    pub origin_impulse: i64,
}

/// A launched torpedo: the slot it was carried in and the time on its two
/// timers, in milliseconds.
#[derive(Clone, Copy, Debug, PartialEq, Eq, Structural)]
pub struct Torpedo {
    pub slot: u8,
    pub explosion_elapsed: u64,
    pub active_elapsed: u64,
}

/// Time on a timer of `duration` after `delta` more: it stops at the
/// duration.
pub open spec fn timer_after(elapsed: int, delta: int, duration: int) -> int {
    if elapsed + delta >= duration {
        duration
    } else {
        elapsed + delta
    }
}

fn advance_timer(elapsed: u64, delta: u64, duration: u64) -> (r: u64)
    requires
        elapsed <= duration,
    ensures
        r == timer_after(elapsed as int, delta as int, duration as int),
{
    if delta >= duration - elapsed {
        duration
    } else {
        elapsed + delta
    }
}

/// A torpedo after `delta` more milliseconds on both timers.
pub open spec fn ticked(t: Torpedo, delta: u64) -> Torpedo {
    Torpedo {
        slot: t.slot,
        explosion_elapsed: timer_after(
            t.explosion_elapsed as int,
            delta as int,
            EXPLOSION_DELAY_MS as int,
        ) as u64,
        active_elapsed: timer_after(t.active_elapsed as int, delta as int, ARMING_DELAY_MS as int)
            as u64,
    }
}

/// What a torpedo does in the tick that brings it to `t`.
pub open spec fn order_for(t: Torpedo) -> TorpedoOrder {
    if t.explosion_elapsed >= EXPLOSION_DELAY_MS {
        TorpedoOrder::Explode(Explosion { radius: EXPLOSION_RADIUS, origin_impulse: EXPLOSION_IMPULSE })
    } else {
        TorpedoOrder::Thrust(BodyForce { torque: 0, forward: (UNIT * WEAPON_MAX_FORWARD) as i64 })
    }
}

impl Torpedo {
    pub open spec fn wf(&self) -> bool {
        self.explosion_elapsed <= EXPLOSION_DELAY_MS && self.active_elapsed <= ARMING_DELAY_MS
    }

    /// A torpedo just launched from `slot`.
    pub fn new(slot: u8) -> (r: Torpedo)
        ensures
            r.wf(),
            r == (Torpedo { slot, explosion_elapsed: 0, active_elapsed: 0 }),
    {
        Torpedo { slot, explosion_elapsed: 0, active_elapsed: 0 }
    }

    /// Advances both timers by `delta` milliseconds.
    pub fn tick(&mut self, delta: u64)
        requires
            old(self).wf(),
        ensures
            final(self).wf(),
            *final(self) == ticked(*old(self), delta),
            final(self).slot == old(self).slot,
            final(self).explosion_elapsed == timer_after(
                old(self).explosion_elapsed as int,
                delta as int,
                EXPLOSION_DELAY_MS as int,
            ),
            final(self).active_elapsed == timer_after(
                old(self).active_elapsed as int,
                delta as int,
                ARMING_DELAY_MS as int,
            ),
    {
        self.explosion_elapsed = advance_timer(self.explosion_elapsed, delta, EXPLOSION_DELAY_MS);
        self.active_elapsed = advance_timer(self.active_elapsed, delta, ARMING_DELAY_MS);
    }

    /// Whether the fuse has run out.
    pub fn fuse_done(&self) -> (r: bool)
        ensures
            r == (self.explosion_elapsed >= EXPLOSION_DELAY_MS),
    {
        self.explosion_elapsed >= EXPLOSION_DELAY_MS
    }

    /// Whether a contact sets the torpedo off.
    pub fn can_explode(&self) -> (r: bool)
        ensures
            r == (self.active_elapsed >= ARMING_DELAY_MS),
    {
        self.active_elapsed >= ARMING_DELAY_MS
    }

    /// The explosion that this torpedo makes.
    pub fn explode(&self) -> (r: Explosion)
        ensures
            r == (Explosion { radius: EXPLOSION_RADIUS, origin_impulse: EXPLOSION_IMPULSE }),
    {
        Explosion { radius: EXPLOSION_RADIUS, origin_impulse: EXPLOSION_IMPULSE }
    }
}

/// What a torpedo does in one tick.
#[derive(Clone, Copy, Debug, PartialEq, Eq, Structural)]
pub enum TorpedoOrder {
    /// Thrust straight ahead with this force.
    Thrust(BodyForce),
    /// Blow up: put this explosion where the torpedo is and remove it.
    Explode(Explosion),
}

/// One tick of a torpedo's flight: advance its timers, then explode if the
/// fuse has run out, else thrust at full forward force.
pub fn weapon_movement(torp: &mut Torpedo, delta: u64) -> (r: TorpedoOrder)
    requires
        old(torp).wf(),
    ensures
        final(torp).wf(),
        *final(torp) == ticked(*old(torp), delta),
        r == order_for(*final(torp)),
        final(torp).slot == old(torp).slot,
        final(torp).explosion_elapsed == timer_after(
            old(torp).explosion_elapsed as int,
            delta as int,
            EXPLOSION_DELAY_MS as int,
        ),
        final(torp).explosion_elapsed >= EXPLOSION_DELAY_MS ==> r == TorpedoOrder::Explode(
            Explosion { radius: EXPLOSION_RADIUS, origin_impulse: EXPLOSION_IMPULSE },
        ),
        final(torp).explosion_elapsed < EXPLOSION_DELAY_MS ==> r == TorpedoOrder::Thrust(
            BodyForce { torque: 0, forward: (UNIT * WEAPON_MAX_FORWARD) as i64 },
        ),
{
    torp.tick(delta);
    if torp.fuse_done() {
        TorpedoOrder::Explode(torp.explode())
    } else {
        TorpedoOrder::Thrust(BodyForce::new(0, UNIT, weapon_force_profile()))
    }
}

/// A contact that involves the torpedo sets it off once it is armed.
pub fn torpedo_impact(torp: &Torpedo) -> (r: Option<Explosion>)
    ensures
        r == (if torp.active_elapsed >= ARMING_DELAY_MS {
            Some(Explosion { radius: EXPLOSION_RADIUS, origin_impulse: EXPLOSION_IMPULSE })
        } else {
            None
        }),
{
    if torp.can_explode() {
        Some(torp.explode())
    } else {
        None
    }
}

pub open spec fn pow4(x: int) -> int {
    x * x * x * x
}

/// `s` is the integer fourth root of `n`.
pub open spec fn is_root4(n: int, s: int) -> bool {
    0 <= s && pow4(s) <= n < pow4(s + 1)
}

proof fn lemma_pow4_monotone(a: int, b: int)
    requires
        0 <= a <= b,
    ensures
        pow4(a) <= pow4(b),
{
    assert(a * a <= b * b) by (nonlinear_arith)
        requires
            0 <= a <= b,
    ;
    assert(a * a * a <= b * b * b) by (nonlinear_arith)
        requires
            0 <= a <= b,
            a * a <= b * b,
    ;
    assert(a * a * a * a <= b * b * b * b) by (nonlinear_arith)
        requires
            0 <= a <= b,
            a * a * a <= b * b * b,
    ;
}

proof fn lemma_root4_unique(n: int, s: int, t: int)
    requires
        is_root4(n, s),
        is_root4(n, t),
    ensures
        s == t,
{
    if s < t {
        lemma_pow4_monotone(s + 1, t);
    } else if t < s {
        lemma_pow4_monotone(t + 1, s);
    }
}

/// The integer fourth root of `n`.
pub open spec fn root4(n: int) -> int {
    choose|s: int| is_root4(n, s)
}

/// Fixed-point scale of a fourth root: `root4(d * ROOT_SCALE)` is the
/// square root of the distance `sqrt(d)` in micro-units.
pub const ROOT_SCALE: u128 = 1_000_000_000_000_000_000_000_000;

/// Impulse at squared distance `dist_sq` from an explosion whose centre
/// impulse is `origin`, in micro-units: `origin / (1 + sqrt(distance))`.
pub open spec fn falloff(origin: int, dist_sq: int) -> int {
    (origin * 1_000_000_000_000) / (1_000_000 + root4(dist_sq * ROOT_SCALE))
}

/// `s` is the integer square root of `n`.
pub open spec fn is_isqrt(n: int, s: int) -> bool {
    0 <= s && s * s <= n < (s + 1) * (s + 1)
}

/// Integer square root, for values below `2^100`.
fn isqrt(n: u128) -> (r: u128)
    requires
        n < 0x10000000000000000000000000,
    ensures
        is_isqrt(n as int, r as int),
{
    let mut lo: u128 = 0;
    let mut hi: u128 = 0x4000000000000;
    assert(hi * hi == 0x10000000000000000000000000);
    while hi - lo > 1
        invariant
            lo < hi <= 0x4000000000000,
            lo * lo <= n,
            n < hi * hi,
        decreases hi - lo,
    {
        let mid = lo + (hi - lo) / 2;
        assert(mid * mid <= 0x10000000000000000000000000) by (nonlinear_arith)
            requires
                mid <= 0x4000000000000,
        ;
        if mid * mid <= n {
            lo = mid;
        } else {
            hi = mid;
        }
    }
    assert(hi == lo + 1);
    lo
}

/// Integer fourth root, as the square root of the square root.
fn iroot4(n: u128) -> (r: u128)
    requires
        n < 0x10000000000000000000000000,
    ensures
        is_root4(n as int, r as int),
{
    let t = isqrt(n);
    assert(t < 0x10000000000000000000000000) by (nonlinear_arith)
        requires
            t * t <= n,
            n < 0x10000000000000000000000000,
            0 <= t,
    ;
    let s = isqrt(t);
    proof {
        let (ni, ti, si) = (n as int, t as int, s as int);
        assert(si * si * (si * si) <= ti * ti) by (nonlinear_arith)
            requires
                0 <= si * si <= ti,
        ;
        assert(ti + 1 <= (si + 1) * (si + 1));
        assert((ti + 1) * (ti + 1) <= (si + 1) * (si + 1) * ((si + 1) * (si + 1)))
            by (nonlinear_arith)
            requires
                0 <= ti + 1 <= (si + 1) * (si + 1),
        ;
        assert(pow4(si) == si * si * (si * si)) by (nonlinear_arith);
        assert(pow4(si + 1) == (si + 1) * (si + 1) * ((si + 1) * (si + 1))) by (nonlinear_arith);
    }
    s
}

/// Whether an explosion's figures keep its impulses within machine integers.
pub open spec fn explosion_ok(e: Explosion) -> bool {
    0 < e.radius <= 1000 && 0 <= e.origin_impulse <= 1_000_000
}

pub open spec fn dist_sq(a: Point, b: Point) -> int {
    (b.x - a.x) * (b.x - a.x) + (b.y - a.y) * (b.y - a.y)
}

/// The impulse that an explosion at `at` gives a target at `target`, in
/// micro-units: none at or beyond its radius.
pub open spec fn impulse_spec(e: Explosion, at: Point, target: Point) -> Option<int> {
    if dist_sq(at, target) < e.radius * e.radius {
        Some(falloff(e.origin_impulse as int, dist_sq(at, target)))
    } else {
        None
    }
}

fn squared_distance(a: Point, b: Point) -> (r: u64)
    requires
        coord_ok(a.x as int) && coord_ok(a.y as int),
        coord_ok(b.x as int) && coord_ok(b.y as int),
    ensures
        r == dist_sq(a, b),
{
    let dx = b.x - a.x;
    let dy = b.y - a.y;
    assert(0 <= dx * dx <= 4_000_000_000_000_000_000) by (nonlinear_arith)
        requires
            -2_000_000_000 <= dx <= 2_000_000_000,
    ;
    assert(0 <= dy * dy <= 4_000_000_000_000_000_000) by (nonlinear_arith)
        requires
            -2_000_000_000 <= dy <= 2_000_000_000,
    ;
    let ux = (dx * dx) as u64;
    let uy = (dy * dy) as u64;
    ux + uy
}

impl Explosion {
    /// The impulse magnitude that this explosion at `at` gives a target at
    /// `target`, in micro-units; `None` at or beyond its radius.
    pub fn impulse_magnitude(&self, at: Point, target: Point) -> (r: Option<u64>)
        requires
            explosion_ok(*self),
            coord_ok(at.x as int) && coord_ok(at.y as int),
            coord_ok(target.x as int) && coord_ok(target.y as int),
        ensures
            r.is_some() == impulse_spec(*self, at, target).is_some(),
            r.is_some() ==> r.unwrap() == impulse_spec(*self, at, target).unwrap(),
    {
        let d = squared_distance(at, target);
        assert(0 < self.radius * self.radius <= 1_000_000) by (nonlinear_arith)
            requires
                0 < self.radius <= 1000,
        ;
        let r2 = (self.radius * self.radius) as u64;
        if d < r2 {
            let n = (d as u128) * ROOT_SCALE;
            let s = iroot4(n);
            proof {
                if s >= 0x2000000 {
                    lemma_pow4_monotone(0x2000000, s as int);
                    assert(pow4(0x2000000) == 0x10000000000000000000000000);
                }
                lemma_root4_unique(n as int, s as int, root4(n as int));
            }
            let num = (self.origin_impulse as u128) * 1_000_000_000_000;
            let q = num / (1_000_000 + s);
            assert(q <= num);
            Some(q as u64)
        } else {
            None
        }
    }
}

/// Impulse that a target at `target` is left with after the explosions in
/// `es`, taken in order: each one in reach overwrites what came before. The
/// place of the explosion that counts comes with the magnitude.
pub open spec fn last_impulse(es: Seq<(Explosion, Point)>, target: Point) -> Option<(int, int)>
    decreases es.len(),
{
    if es.len() == 0 {
        None
    } else {
        match impulse_spec(es.last().0, es.last().1, target) {
            Some(m) => Some((es.len() - 1, m)),
            None => last_impulse(es.drop_last(), target),
        }
    }
}

pub open spec fn explosions_ok(es: Seq<(Explosion, Point)>) -> bool {
    forall|i: int|
        0 <= i < es.len() ==> explosion_ok(#[trigger] es[i].0) && coord_ok(es[i].1.x as int)
            && coord_ok(es[i].1.y as int)
}

/// A found impulse with plain integers.
pub open spec fn as_ints(v: Option<(usize, u64)>) -> Option<(int, int)> {
    match v {
        Some(p) => Some((p.0 as int, p.1 as int)),
        None => None,
    }
}

/// The impulse that each target receives this tick from the explosions, in
/// micro-units: the one of the last explosion that reaches it, with that
/// explosion's place, or none.
pub fn explosion_impact(explosions: &Vec<(Explosion, Point)>, targets: &Vec<Point>) -> (r: Vec<
    Option<(usize, u64)>,
>)
    requires
        explosions_ok(explosions@),
        forall|j: int|
            0 <= j < targets@.len() ==> coord_ok(#[trigger] targets@[j].x as int) && coord_ok(
                targets@[j].y as int,
            ),
    ensures
        r@.len() == targets@.len(),
        forall|j: int|
            0 <= j < targets@.len() ==> as_ints(#[trigger] r@[j]) == last_impulse(
                explosions@,
                targets@[j],
            ),
{
    let mut r: Vec<Option<(usize, u64)>> = Vec::new();
    let mut j: usize = 0;
    while j < targets.len()
        invariant
            explosions_ok(explosions@),
            forall|k: int|
                0 <= k < targets@.len() ==> coord_ok(#[trigger] targets@[k].x as int) && coord_ok(
                    targets@[k].y as int,
                ),
            j <= targets@.len(),
            r@.len() == j,
            forall|k: int|
                0 <= k < j ==> as_ints(#[trigger] r@[k]) == last_impulse(explosions@, targets@[k]),
        decreases targets@.len() - j,
    {
        let target = targets[j];
        let mut got: Option<(usize, u64)> = None;
        let mut i: usize = 0;
        while i < explosions.len()
            invariant
                explosions_ok(explosions@),
                coord_ok(target.x as int) && coord_ok(target.y as int),
                i <= explosions@.len(),
                as_ints(got) == last_impulse(explosions@.subrange(0, i as int), target),
            decreases explosions@.len() - i,
        {
            let (e, at) = explosions[i];
            assert(explosion_ok(explosions@[i as int].0));
            let m = e.impulse_magnitude(at, target);
            assert(explosions@.subrange(0, i + 1).drop_last() =~= explosions@.subrange(0, i as int));
            if let Some(v) = m {
                got = Some((i, v));
            }
            i = i + 1;
        }
        assert(explosions@.subrange(0, explosions@.len() as int) =~= explosions@);
        r.push(got);
        j = j + 1;
    }
    r
}

/// Explosion falloff: of two targets within reach, the nearer receives the
/// strictly larger impulse, and a target at or beyond the radius receives
/// none.
pub proof fn lemma_explosion_falloff(e: Explosion, at: Point, near: Point, far: Point)
    requires
        e == (Explosion { radius: EXPLOSION_RADIUS, origin_impulse: EXPLOSION_IMPULSE }),
        dist_sq(at, near) < dist_sq(at, far) < e.radius * e.radius,
    ensures
        impulse_spec(e, at, near).unwrap() > impulse_spec(e, at, far).unwrap(),
        forall|p: Point|
            dist_sq(at, p) >= e.radius * e.radius ==> (#[trigger] impulse_spec(e, at, p)).is_none(),
{
    let d1 = dist_sq(at, near);
    let d2 = dist_sq(at, far);
    assert(0 <= d1) by (nonlinear_arith)
        requires
            d1 == (near.x - at.x) * (near.x - at.x) + (near.y - at.y) * (near.y - at.y),
    ;
    assert(e.radius == 50);
    assert(e.radius * e.radius == 2500) by (nonlinear_arith)
        requires
            e.radius == 50,
    ;
    lemma_falloff_strict(d1, d2);
}

proof fn lemma_root4_exists(n: int, s: int)
    requires
        is_root4(n, s),
    ensures
        root4(n) == s,
{
    lemma_root4_unique(n, s, root4(n));
}

/// Fourth roots of values a full `ROOT_SCALE` apart differ, while both
/// distances are within the explosion's reach.
proof fn lemma_falloff_strict(d1: int, d2: int)
    requires
        0 <= d1 < d2 < 2500,
    ensures
        falloff(EXPLOSION_IMPULSE as int, d1) > falloff(EXPLOSION_IMPULSE as int, d2),
{
    let sc = ROOT_SCALE as int;
    let n1 = d1 * sc;
    let n2 = d2 * sc;
    assert(n1 + sc <= n2) by (nonlinear_arith)
        requires
            d1 + 1 <= d2,
            n1 == d1 * sc,
            n2 == d2 * sc,
            sc > 0,
    ;
    assert(n2 < 2500 * sc) by (nonlinear_arith)
        requires
            d2 < 2500,
            n2 == d2 * sc,
            sc > 0,
    ;
    assert(0 <= n1) by (nonlinear_arith)
        requires
            0 <= d1,
            n1 == d1 * sc,
            sc > 0,
    ;
    // Both roots exist: compute them as the executable code would.
    let s1 = root4_witness(n1);
    let s2 = root4_witness(n2);
    lemma_root4_exists(n1, s1);
    lemma_root4_exists(n2, s2);
    // The roots are below 8_000_000, since 8_000_000^4 exceeds 2500 * ROOT_SCALE.
    if s2 >= 8_000_000 {
        lemma_pow4_monotone(8_000_000, s2);
        assert(pow4(8_000_000) == 4_096_000_000_000_000_000_000_000_000);
    }
    assert(s1 <= s2) by {
        if s1 > s2 {
            lemma_pow4_monotone(s2 + 1, s1);
        }
    }
    // Going from s1 to s1 + 1 adds less than ROOT_SCALE to the fourth power.
    assert(pow4(s1 + 1) - pow4(s1) < sc) by (nonlinear_arith)
        requires
            0 <= s1 < 8_000_000,
            sc == 1_000_000_000_000_000_000_000_000,
    ;
    assert(s1 < s2) by {
        if s1 == s2 {
            assert(pow4(s1 + 1) <= n2);
        }
    }
    let a = EXPLOSION_IMPULSE as int * 1_000_000_000_000;
    let x1 = 1_000_000 + s1;
    let x2 = 1_000_000 + s2;
    assert(a / x1 > a / x2) by (nonlinear_arith)
        requires
            a == 3_500_000_000_000_000,
            1_000_000 <= x1 < x2 <= 9_000_000,
    ;
}

/// The fourth root of `n`, found by search: it exists for every `n` that an
/// explosion's reach allows.
proof fn root4_witness(n: int) -> (s: int)
    requires
        0 <= n < 2500 * ROOT_SCALE,
    ensures
        is_root4(n, s),
{
    assert(pow4(0) == 0);
    assert(pow4(10_000_000) == 10_000_000_000_000_000_000_000_000_000);
    root4_search(n, 0, 10_000_000)
}

proof fn root4_search(n: int, lo: int, hi: int) -> (s: int)
    requires
        0 <= lo < hi,
        pow4(lo) <= n < pow4(hi),
    ensures
        is_root4(n, s),
    decreases hi - lo,
{
    if hi - lo <= 1 {
        lo
    } else {
        let mid = lo + (hi - lo) / 2;
        if pow4(mid) <= n {
            root4_search(n, mid, hi)
        } else {
            root4_search(n, lo, mid)
        }
    }
}

} // verus!
