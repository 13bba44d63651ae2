use vstd::prelude::*;

use crate::physics::Point;
use rand::distributions::{Alphanumeric, DistString};
use rand::Rng;
use rand_pcg::Pcg64;
use rand_seeder::Seeder;

verus! {

/// Half the side of the square arena, in pixels.
pub const ARENA_HALF: i64 = 320;

/// Radius of a start zone, in pixels.
pub const START_RADIUS: i64 = 50;

/// Radius of a pickup, in pixels.
pub const GLOD_RADIUS: i64 = 2;

/// Number of pickups laid out for a round.
pub const GLOD_QUANTITY: usize = 50;

/// Length of a seed drawn at random.
pub const SEED_LEN: usize = 8;

/// Number of values drawn for one layout: two start points, then the pickups.
pub const LAYOUT_DRAWS: usize = 104;

/// The values that a `Pcg64` seeded (through `rand_seeder`) from the string
/// `seed` gives when asked in turn for one value in each half-open range.
pub uninterp spec fn seeded_draws_of(seed: Seq<char>, ranges: Seq<(i64, i64)>) -> Seq<i64>;

pub open spec fn is_alphanumeric(c: char) -> bool {
    ('a' <= c && c <= 'z') || ('A' <= c && c <= 'Z') || ('0' <= c && c <= '9')
}

/// Relies on rand's `Alphanumeric.sample_string` on the thread generator:
/// `SEED_LEN` characters, each an ASCII letter or digit.
#[verifier::external_body]
fn random_alphanumeric() -> (r: String)
    ensures
        r@.len() == SEED_LEN,
        forall|i: int| 0 <= i < r@.len() ==> is_alphanumeric(#[trigger] r@[i]),
{
    Alphanumeric.sample_string(&mut rand::thread_rng(), SEED_LEN)
}

/// Relies on `rand_seeder::Seeder::from(seed).make_rng::<Pcg64>()` and on
/// `Rng::gen_range(lo..hi)`, called once per range in order: each value lies
/// in its range, and the whole sequence depends on the seed and the ranges
/// alone.
#[verifier::external_body]
fn seeded_draws(seed: &String, ranges: &Vec<(i64, i64)>) -> (r: Vec<i64>)
    requires
        forall|i: int| 0 <= i < ranges@.len() ==> ranges@[i].0 < ranges@[i].1,
    ensures
        r@ == seeded_draws_of(seed@, ranges@),
        r@.len() == ranges@.len(),
        forall|i: int|
            0 <= i < r@.len() ==> ranges@[i].0 <= #[trigger] r@[i] && r@[i] < ranges@[i].1,
{
    let mut rng: Pcg64 = Seeder::from(seed.clone()).make_rng();
    ranges.iter().map(|r| rng.gen_range(r.0..r.1)).collect()
}

/// Relies on `String::push`: the character is appended.
pub assume_specification[ std::string::String::push ](s: &mut String, ch: char)
    ensures
        final(s)@ == old(s)@.push(ch),
;

/// Relies on `String::pop`: the last character is removed and returned,
/// `None` for an empty string.
pub assume_specification[ std::string::String::pop ](s: &mut String) -> (r: Option<char>)
    ensures
        old(s)@.len() == 0 ==> r.is_none() && final(s)@ == old(s)@,
        old(s)@.len() > 0 ==> r == Some(old(s)@.last()) && final(s)@ == old(s)@.drop_last(),
;

/// The seed from which a round's layout is generated.
#[derive(Clone, Debug, PartialEq, Eq, Hash)]
pub struct GameSeed(pub String);

impl GameSeed {
    /// Appends a typed character.
    pub fn push(&mut self, c: char)
        ensures
            final(self).0@ == old(self).0@.push(c),
    {
        self.0.push(c);
    }

    /// Removes the last character, if any.
    pub fn pop(&mut self)
        ensures
            old(self).0@.len() == 0 ==> final(self).0@ == old(self).0@,
            old(self).0@.len() > 0 ==> final(self).0@ == old(self).0@.drop_last(),
    {
        let _ = self.0.pop();
    }

    /// A fresh random seed of `SEED_LEN` letters and digits.
    pub fn random() -> (r: GameSeed)
        ensures
            r.0@.len() == SEED_LEN,
            forall|i: int| 0 <= i < r.0@.len() ==> is_alphanumeric(#[trigger] r.0@[i]),
    {
        GameSeed(random_alphanumeric())
    }
}

impl Default for GameSeed {
    fn default() -> (r: GameSeed)
        ensures
            r.0@.len() == SEED_LEN,
            forall|i: int| 0 <= i < r.0@.len() ==> is_alphanumeric(#[trigger] r.0@[i]),
    {
        GameSeed::random()
    }
}

/// The half-open range of the `i`-th value drawn for a layout: the friendly
/// start (lower-left quadrant), the enemy start (upper-right quadrant), then
/// pickup coordinates over the whole arena, each range kept clear of the
/// arena's edge by the radius of what is placed.
pub open spec fn layout_range(i: int) -> (i64, i64) {
    if i < 2 {
        ((-ARENA_HALF + START_RADIUS) as i64, (0 - START_RADIUS) as i64)
    } else if i < 4 {
        ((0 + START_RADIUS) as i64, (ARENA_HALF - START_RADIUS) as i64)
    } else {
        ((-ARENA_HALF + GLOD_RADIUS) as i64, (ARENA_HALF - GLOD_RADIUS) as i64)
    }
}

pub open spec fn layout_ranges() -> Seq<(i64, i64)> {
    Seq::new(LAYOUT_DRAWS as nat, |i: int| layout_range(i))
}

fn layout_range_vec() -> (r: Vec<(i64, i64)>)
    ensures
        r@ == layout_ranges(),
{
    let mut r: Vec<(i64, i64)> = Vec::new();
    let mut i: usize = 0;
    while i < LAYOUT_DRAWS
        invariant
            i <= LAYOUT_DRAWS,
            r@.len() == i,
            forall|j: int| 0 <= j < i ==> r@[j] == layout_range(j),
        decreases LAYOUT_DRAWS - i,
    {
        if i < 2 {
            r.push((-ARENA_HALF + START_RADIUS, 0 - START_RADIUS));
        } else if i < 4 {
            r.push((0 + START_RADIUS, ARENA_HALF - START_RADIUS));
        } else {
            r.push((-ARENA_HALF + GLOD_RADIUS, ARENA_HALF - GLOD_RADIUS));
        }
        i = i + 1;
    }
    assert(r@ =~= layout_ranges());
    r
}

/// A round's layout: the two start points and the pickup positions.
#[derive(Clone, Debug, PartialEq, Eq)]
pub struct GlodPoints {
    pub friend: Point,
    pub foe: Point,
    pub glods: Vec<Point>,
}

/// `l` is the layout that draws `d` give: the friendly start from the first
/// two, the enemy start from the next two, then one pickup per pair.
pub open spec fn layout_from_draws(d: Seq<i64>, l: GlodPoints) -> bool {
    &&& l.friend == (Point { x: d[0], y: d[1] })
    &&& l.foe == (Point { x: d[2], y: d[3] })
    &&& l.glods@.len() == GLOD_QUANTITY
    &&& forall|k: int|
        0 <= k < GLOD_QUANTITY ==> #[trigger] l.glods@[k] == (Point { x: d[4 + 2 * k], y: d[5 + 2 * k] })
}

/// `l` is the layout generated from `seed`.
pub open spec fn layout_of(seed: Seq<char>, l: GlodPoints) -> bool {
    layout_from_draws(seeded_draws_of(seed, layout_ranges()), l)
}

pub open spec fn in_box(p: Point, lo: int, hi: int) -> bool {
    lo <= p.x < hi && lo <= p.y < hi
}

/// Where generated positions lie: the friendly start in the lower-left
/// quadrant, the enemy start in the upper-right one, the pickups anywhere in
/// the arena, each clear of the edges by its radius.
pub open spec fn layout_in_range(l: GlodPoints) -> bool {
    &&& in_box(l.friend, -ARENA_HALF + START_RADIUS, 0 - START_RADIUS)
    &&& in_box(l.foe, 0 + START_RADIUS, ARENA_HALF - START_RADIUS)
    &&& forall|k: int|
        0 <= k < l.glods@.len() ==> in_box(
            #[trigger] l.glods@[k],
            -ARENA_HALF + GLOD_RADIUS,
            ARENA_HALF - GLOD_RADIUS,
        )
}

/// Lays out a round from the values drawn for it, in the order of
/// `layout_range`.
pub fn layout_from(d: &Vec<i64>) -> (r: GlodPoints)
    requires
        d@.len() == LAYOUT_DRAWS,
    ensures
        layout_from_draws(d@, r),
{
    let mut glods: Vec<Point> = Vec::new();
    let mut k: usize = 0;
    while k < GLOD_QUANTITY
        invariant
            d@.len() == LAYOUT_DRAWS,
            k <= GLOD_QUANTITY,
            glods@.len() == k,
            forall|j: int|
                0 <= j < k ==> #[trigger] glods@[j] == (Point { x: d@[4 + 2 * j], y: d@[5 + 2 * j] }),
        decreases GLOD_QUANTITY - k,
    {
        glods.push(Point { x: d[4 + 2 * k], y: d[5 + 2 * k] });
        k = k + 1;
    }
    GlodPoints {
        friend: Point { x: d[0], y: d[1] },
        foe: Point { x: d[2], y: d[3] },
        glods,
    }
}

/// Generates a round's layout from a seed: the same seed always gives the
/// same layout, and every position lies in its zone.
pub fn update_game_resources(seed: &GameSeed) -> (r: GlodPoints)
    ensures
        layout_of(seed.0@, r),
        layout_in_range(r),
{
    let ranges = layout_range_vec();
    let d = seeded_draws(&seed.0, &ranges);
    let r = layout_from(&d);
    assert forall|k: int| 0 <= k < r.glods@.len() implies in_box(
        #[trigger] r.glods@[k],
        -ARENA_HALF + GLOD_RADIUS,
        ARENA_HALF - GLOD_RADIUS,
    ) by {
        assert(ranges@[4 + 2 * k] == layout_range(4 + 2 * k));
        assert(ranges@[5 + 2 * k] == layout_range(5 + 2 * k));
        assert(ranges@[4 + 2 * k].0 <= d@[4 + 2 * k]);
        assert(ranges@[5 + 2 * k].0 <= d@[5 + 2 * k]);
    }
    assert(ranges@[0].0 <= d@[0] && ranges@[1].0 <= d@[1]);
    assert(ranges@[2].0 <= d@[2] && ranges@[3].0 <= d@[3]);
    r
}

/// Determinism: two layouts generated from one seed are the same, start
/// points and every pickup.
pub proof fn lemma_layout_deterministic(seed: Seq<char>, a: GlodPoints, b: GlodPoints)
    requires
        layout_of(seed, a),
        layout_of(seed, b),
    ensures
        a.friend == b.friend,
        a.foe == b.foe,
        a.glods@ == b.glods@,
{
    assert(a.glods@ =~= b.glods@);
}

} // verus!
