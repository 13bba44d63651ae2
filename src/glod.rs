use vstd::prelude::*;

use crate::physics::Point;
use crate::random::GLOD_QUANTITY;

verus! {

/// Mass that a pickup adds to the player's hull, in thousandths.
pub const GLOD_MASS: u64 = 2000;

/// Linear damping of a pickup's body, in thousandths.
pub const GLOD_DAMPING: u64 = 2000;

/// A pickup in play: its identity (the place of its position in the layout)
/// and its spawn position.
#[derive(Clone, Copy, Debug, PartialEq, Eq, Structural)]
pub struct Glod {
    pub id: usize,
    pub pos: Point,
}

/// Whether some pickup in `glods` has identity `id`.
pub open spec fn has_glod(glods: Seq<Glod>, id: usize) -> bool {
    exists|k: int| 0 <= k < glods.len() && (#[trigger] glods[k]).id == id
}

/// `k` is the first place in `glods` of a pickup with identity `id`.
pub open spec fn is_first_glod(glods: Seq<Glod>, id: usize, k: int) -> bool {
    &&& 0 <= k < glods.len()
    &&& glods[k].id == id
    &&& forall|j: int| 0 <= j < k ==> (#[trigger] glods[j]).id != id
}

/// The first place in `glods` of a pickup with identity `id`.
pub open spec fn first_glod(glods: Seq<Glod>, id: usize) -> int {
    choose|k: int| is_first_glod(glods, id, k)
}

proof fn lemma_first_glod_unique(glods: Seq<Glod>, id: usize, a: int, b: int)
    requires
        is_first_glod(glods, id, a),
        is_first_glod(glods, id, b),
    ensures
        a == b,
{
    if a < b {
        assert(glods[a].id == id);
    } else if b < a {
        assert(glods[b].id == id);
    }
}

/// Some pickup with identity `id` has a first place.
pub proof fn first_index_exists(glods: Seq<Glod>, id: usize, k: int) -> (f: int)
    requires
        0 <= k < glods.len(),
        glods[k].id == id,
    ensures
        is_first_glod(glods, id, f),
        f == first_glod(glods, id),
    decreases k,
{
    if exists|j: int| 0 <= j < k && (#[trigger] glods[j]).id == id {
        let j = choose|j: int| 0 <= j < k && (#[trigger] glods[j]).id == id;
        first_index_exists(glods, id, j)
    } else {
        assert(is_first_glod(glods, id, k));
        let c = choose|c: int| is_first_glod(glods, id, c);
        lemma_first_glod_unique(glods, id, c, k);
        k
    }
}

/// Where a pickup with identity `id` first stands in `glods`, if anywhere.
pub fn find_glod(glods: &Vec<Glod>, id: usize) -> (r: Option<usize>)
    ensures
        r.is_some() == has_glod(glods@, id),
        r.is_some() ==> r.unwrap() == first_glod(glods@, id),
        r.is_some() ==> is_first_glod(glods@, id, r.unwrap() as int),
{
    let mut i: usize = 0;
    while i < glods.len()
        invariant
            i <= glods@.len(),
            forall|j: int| 0 <= j < i ==> (#[trigger] glods@[j]).id != id,
        decreases glods@.len() - i,
    {
        if glods[i].id == id {
            proof {
                let k = choose|k: int| is_first_glod(glods@, id, k);
                assert(is_first_glod(glods@, id, i as int));
                lemma_first_glod_unique(glods@, id, k, i as int);
            }
            return Some(i);
        }
        i = i + 1;
    }
    None
}

/// The pickups of a round, one per layout position, identified by place.
pub open spec fn spawned_glods(points: Seq<Point>) -> Seq<Glod> {
    Seq::new(points.len(), |k: int| Glod { id: k as usize, pos: points[k] })
}

/// Spawns one pickup at each layout position.
pub fn spawn_glod(points: &Vec<Point>) -> (r: Vec<Glod>)
    requires
        points@.len() <= GLOD_QUANTITY,
    ensures
        r@ == spawned_glods(points@),
{
    let mut r: Vec<Glod> = Vec::new();
    let mut k: usize = 0;
    while k < points.len()
        invariant
            k <= points@.len() <= GLOD_QUANTITY,
            r@ =~= spawned_glods(points@.subrange(0, k as int)),
        decreases points@.len() - k,
    {
        r.push(Glod { id: k, pos: points[k] });
        k = k + 1;
        assert(r@ =~= spawned_glods(points@.subrange(0, k as int)));
    }
    assert(points@.subrange(0, k as int) =~= points@);
    r
}

} // verus!
