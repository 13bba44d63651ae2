use vstd::prelude::*;

use crate::glod::{find_glod, first_glod, has_glod, spawn_glod, spawned_glods, Glod, GLOD_MASS};
use crate::physics::Point;
use crate::random::{
    is_alphanumeric, layout_in_range, layout_of, update_game_resources, GameSeed, GlodPoints,
    GLOD_QUANTITY, SEED_LEN,
};
use crate::state::{max_u8, AppState, GameState, HighScore, Score};
use crate::unit::{beyond_map_edge, beyond_map_edge_spec, starting_slots, EnemyState, Playable, WeaponSlot, UNIT_MASS};
use crate::weapon::{
    order_for, ticked, ARMING_DELAY_MS, torpedo_impact, weapon_movement, Explosion, Torpedo, TorpedoOrder, EXPLOSION_DELAY_MS,
    EXPLOSION_IMPULSE, EXPLOSION_RADIUS,
};

verus! {

/// What the player's hull touched or stopped touching.
#[derive(Clone, Copy, Debug, PartialEq, Eq, Structural)]
pub enum Contact {
    /// The pickup with this identity.
    Glod(usize),
    Enemy,
    /// The friendly start zone.
    Base,
    Other,
}

/// A collision event on the player's hull.
#[derive(Clone, Copy, Debug, PartialEq, Eq, Structural)]
pub enum PlayerContact {
    Started(Contact),
    Stopped(Contact),
}

/// The ending that a tick asks for: the first request stands.
pub open spec fn request(pending: Option<GameState>, s: GameState) -> Option<GameState> {
    if pending.is_none() {
        Some(s)
    } else {
        pending
    }
}

/// What the collision rules act on: score, pickups in play, hull mass,
/// release phase of the enemy, and the ending asked for.
pub open spec fn contact_step(
    t: (int, Seq<Glod>, int, EnemyState, Option<GameState>),
    ev: PlayerContact,
) -> (int, Seq<Glod>, int, EnemyState, Option<GameState>) {
    match ev {
        PlayerContact::Started(Contact::Glod(id)) => {
            if has_glod(t.1, id) {
                (t.0 + 1, t.1.remove(first_glod(t.1, id)), t.2 + GLOD_MASS, t.3, t.4)
            } else {
                t
            }
        },
        PlayerContact::Started(Contact::Enemy) => (t.0, t.1, t.2, t.3, request(t.4, GameState::GameOver)),
        PlayerContact::Started(Contact::Base) => {
            if t.3 == EnemyState::Released {
                (t.0, t.1, t.2, t.3, request(t.4, GameState::Victory))
            } else {
                t
            }
        },
        PlayerContact::Stopped(Contact::Base) => (t.0, t.1, t.2, EnemyState::Released, t.4),
        _ => t,
    }
}

/// The collision rules applied to a tick's events in order.
pub open spec fn contacts_effect(
    t: (int, Seq<Glod>, int, EnemyState, Option<GameState>),
    evs: Seq<PlayerContact>,
) -> (int, Seq<Glod>, int, EnemyState, Option<GameState>)
    decreases evs.len(),
{
    if evs.len() == 0 {
        t
    } else {
        contact_step(contacts_effect(t, evs.drop_last()), evs.last())
    }
}

/// No two pickups share an identity.
pub open spec fn ids_unique(glods: Seq<Glod>) -> bool {
    forall|i: int, j: int|
        0 <= i < glods.len() && 0 <= j < glods.len() && i != j ==> (#[trigger] glods[i]).id
            != (#[trigger] glods[j]).id
}

/// The high score never falls, and changes only as a round is won.
pub open spec fn high_score_kept(old_w: World, new_w: World) -> bool {
    &&& new_w.high_score.0 >= old_w.high_score.0
    &&& new_w.high_score != old_w.high_score ==> new_w.game_state == GameState::Victory
}

/// The part of the state that the collision rules act on.
pub open spec fn tally(w: World, pending: Option<GameState>) -> (
    int,
    Seq<Glod>,
    int,
    EnemyState,
    Option<GameState>,
) {
    (w.score.0 as int, w.glods@, w.player_mass as int, w.enemy_state, pending)
}

proof fn lemma_remove_keeps_ids_unique(glods: Seq<Glod>, k: int)
    requires
        ids_unique(glods),
        0 <= k < glods.len(),
    ensures
        ids_unique(glods.remove(k)),
{
    let r = glods.remove(k);
    assert forall|i: int, j: int|
        0 <= i < r.len() && 0 <= j < r.len() && i != j implies (#[trigger] r[i]).id != (
        #[trigger] r[j]).id by {
        let oi = if i < k {
            i
        } else {
            i + 1
        };
        let oj = if j < k {
            j
        } else {
            j + 1
        };
        assert(r[i] == glods[oi]);
        assert(r[j] == glods[oj]);
    }
}

proof fn lemma_removed_id_gone(glods: Seq<Glod>, id: usize)
    requires
        ids_unique(glods),
        has_glod(glods, id),
    ensures
        !has_glod(glods.remove(first_glod(glods, id)), id),
        glods.remove(first_glod(glods, id)).len() == glods.len() - 1,
{
    let k0 = choose|k: int| 0 <= k < glods.len() && (#[trigger] glods[k]).id == id;
    let f = crate::glod::first_index_exists(glods, id, k0);
    let r = glods.remove(f);
    if has_glod(r, id) {
        let i = choose|i: int| 0 <= i < r.len() && (#[trigger] r[i]).id == id;
        let oi = if i < f {
            i
        } else {
            i + 1
        };
        assert(r[i] == glods[oi]);
        assert(glods[f].id == id);
    }
}

/// Pickup contact: touching a pickup that is in play adds one to the score
/// and one pickup's mass to the hull, and the pickup leaves play.
pub proof fn lemma_pickup_contact(
    t: (int, Seq<Glod>, int, EnemyState, Option<GameState>),
    id: usize,
)
    requires
        ids_unique(t.1),
        has_glod(t.1, id),
    ensures
        contact_step(t, PlayerContact::Started(Contact::Glod(id))).0 == t.0 + 1,
        contact_step(t, PlayerContact::Started(Contact::Glod(id))).2 == t.2 + GLOD_MASS,
        !has_glod(contact_step(t, PlayerContact::Started(Contact::Glod(id))).1, id),
        contact_step(t, PlayerContact::Started(Contact::Glod(id))).1.len() == t.1.len() - 1,
        contact_step(t, PlayerContact::Started(Contact::Glod(id))).3 == t.3,
        contact_step(t, PlayerContact::Started(Contact::Glod(id))).4 == t.4,
{
    lemma_removed_id_gone(t.1, id);
}

/// Release latch: once released the enemy stays released whatever events
/// follow; while held, only leaving the start zone releases it.
pub proof fn lemma_release_latch(
    t: (int, Seq<Glod>, int, EnemyState, Option<GameState>),
    evs: Seq<PlayerContact>,
)
    ensures
        t.3 == EnemyState::Released ==> contacts_effect(t, evs).3 == EnemyState::Released,
        t.3 == EnemyState::PreStart ==> (contacts_effect(t, evs).3 == EnemyState::Released
            <==> exists|i: int|
            0 <= i < evs.len() && #[trigger] evs[i] == PlayerContact::Stopped(Contact::Base)),
        t.3 == EnemyState::PreStart ==> contacts_effect(t, evs).3 != EnemyState::Undefined,
    decreases evs.len(),
{
    if evs.len() > 0 {
        lemma_release_latch(t, evs.drop_last());
        let pre = evs.drop_last();
        if t.3 == EnemyState::PreStart {
            if exists|i: int|
                0 <= i < pre.len() && #[trigger] pre[i] == PlayerContact::Stopped(Contact::Base) {
                let i = choose|i: int|
                    0 <= i < pre.len() && #[trigger] pre[i] == PlayerContact::Stopped(
                        Contact::Base,
                    );
                assert(evs[i] == pre[i]);
            }
            if exists|i: int|
                0 <= i < evs.len() && #[trigger] evs[i] == PlayerContact::Stopped(Contact::Base) {
                let i = choose|i: int|
                    0 <= i < evs.len() && #[trigger] evs[i] == PlayerContact::Stopped(
                        Contact::Base,
                    );
                if i < evs.len() - 1 {
                    assert(pre[i] == evs[i]);
                }
            }
        }
    }
}

/// The torpedoes still in flight after one tick of `delta` milliseconds:
/// each advanced, those whose fuse ran out gone.
pub open spec fn survivors(ts: Seq<Torpedo>, delta: u64) -> Seq<Torpedo>
    decreases ts.len(),
{
    if ts.len() == 0 {
        Seq::empty()
    } else {
        let rest = survivors(ts.drop_last(), delta);
        let t = ticked(ts.last(), delta);
        if t.explosion_elapsed >= EXPLOSION_DELAY_MS {
            rest
        } else {
            rest.push(t)
        }
    }
}

/// `k` is the first place in `ts` of a torpedo from slot `slot`.
pub open spec fn is_first_torpedo(ts: Seq<Torpedo>, slot: u8, k: int) -> bool {
    &&& 0 <= k < ts.len()
    &&& ts[k].slot == slot
    &&& forall|j: int| 0 <= j < k ==> (#[trigger] ts[j]).slot != slot
}

/// The whole state of the simulation between ticks.
pub struct World {
    pub app_state: AppState,
    pub game_state: GameState,
    pub enemy_state: EnemyState,
    pub score: Score,
    pub high_score: HighScore,
    pub seed: GameSeed,
    /// The seed was typed in and is to be used for the next round.
    pub keep_seed: bool,
    pub layout: GlodPoints,
    pub glods: Vec<Glod>,
    /// The player's craft is spawned.
    pub player: bool,
    /// Mass of the player's hull, in thousandths.
    pub player_mass: u64,
    /// Weapons that the player still carries.
    pub player_slots: Vec<WeaponSlot>,
    /// The enemy's craft is spawned.
    pub enemy: bool,
    /// The friendly start zone is spawned.
    pub friendly_base: bool,
    /// The zone that holds the enemy is spawned.
    pub enemy_base: bool,
    pub torpedoes: Vec<Torpedo>,
}

impl World {
    /// A round is being played.
    pub open spec fn live(&self) -> bool {
        self.game_state == GameState::Game
    }

    /// The invariant of the simulation: exactly one player, one enemy and
    /// one start zone while a round is played and none otherwise; the
    /// enemy's zone stands while it is held; score and pickups left never
    /// exceed what was laid out; the hull has gained one pickup's mass per
    /// point.
    pub open spec fn wf(&self) -> bool {
        &&& self.layout.glods@.len() == GLOD_QUANTITY
        &&& self.score.0 + self.glods@.len() <= GLOD_QUANTITY
        &&& ids_unique(self.glods@)
        &&& self.player == self.live()
        &&& self.enemy == self.live()
        &&& self.friendly_base == self.live()
        &&& self.enemy_base == (self.enemy_state == EnemyState::PreStart)
        &&& self.live() ==> self.enemy_state != EnemyState::Undefined
        &&& !self.live() ==> {
            &&& self.enemy_state == EnemyState::Undefined
            &&& self.glods@.len() == 0
            &&& self.torpedoes@.len() == 0
            &&& self.player_slots@.len() == 0
        }
        &&& self.live() ==> self.player_mass == UNIT_MASS + GLOD_MASS * self.score.0
        &&& self.player_slots@.len() <= 2
        &&& forall|i: int| 0 <= i < self.torpedoes@.len() ==> (#[trigger] self.torpedoes@[i]).wf()
    }

    /// Everything of the round and the scores is as in `other`.
    pub open spec fn same_round(&self, other: World) -> bool {
        &&& self.game_state == other.game_state
        &&& self.enemy_state == other.enemy_state
        &&& self.score == other.score
        &&& self.high_score == other.high_score
        &&& self.layout == other.layout
        &&& self.glods@ == other.glods@
        &&& self.player == other.player
        &&& self.player_mass == other.player_mass
        &&& self.player_slots@ == other.player_slots@
        &&& self.enemy == other.enemy
        &&& self.friendly_base == other.friendly_base
        &&& self.enemy_base == other.enemy_base
        &&& self.torpedoes@ == other.torpedoes@
    }

    /// Fields that outlive a round.
    pub open spec fn same_session(&self, other: World) -> bool {
        &&& self.app_state == other.app_state
        &&& self.seed == other.seed
        &&& self.keep_seed == other.keep_seed
        &&& self.layout == other.layout
    }

    /// The simulation at start-up: main menu, no round, zero scores and a
    /// random seed.
    pub fn new() -> (r: World)
        ensures
            r.wf(),
            r.app_state == AppState::MainMenu,
            r.game_state == GameState::OutOfGame,
            r.score.0 == 0 && r.high_score.0 == 0,
            r.seed.0@.len() == SEED_LEN,
            forall|i: int| 0 <= i < r.seed.0@.len() ==> is_alphanumeric(#[trigger] r.seed.0@[i]),
            !r.keep_seed,
    {
        let mut glods: Vec<Point> = Vec::new();
        let mut k: usize = 0;
        while k < GLOD_QUANTITY
            invariant
                k <= GLOD_QUANTITY,
                glods@.len() == k,
            decreases GLOD_QUANTITY - k,
        {
            glods.push(Point { x: 0, y: 0 });
            k = k + 1;
        }
        World {
            app_state: AppState::MainMenu,
            game_state: GameState::OutOfGame,
            enemy_state: EnemyState::Undefined,
            score: Score(0),
            high_score: HighScore(0),
            seed: GameSeed::default(),
            keep_seed: false,
            layout: GlodPoints { friend: Point { x: 0, y: 0 }, foe: Point { x: 0, y: 0 }, glods },
            glods: Vec::new(),
            player: false,
            player_mass: UNIT_MASS,
            player_slots: Vec::new(),
            enemy: false,
            friendly_base: false,
            enemy_base: false,
            torpedoes: Vec::new(),
        }
    }

    /// Entering play: score back to zero, start zones, pickups and both
    /// craft spawned from the layout, and the enemy held in its zone.
    fn spawn_round(&mut self)
        requires
            old(self).wf(),
            !old(self).live(),
        ensures
            final(self).wf(),
            final(self).same_session(*old(self)),
            final(self).high_score == old(self).high_score,
            final(self).game_state == GameState::Game,
            final(self).score.0 == 0,
            final(self).glods@ == spawned_glods(old(self).layout.glods@),
            final(self).player_mass == UNIT_MASS,
            final(self).player_slots@ == starting_slots(),
            final(self).enemy_state == EnemyState::PreStart,
            final(self).torpedoes@.len() == 0,
    {
        self.game_state = GameState::Game;
        self.score = Score(0);
        self.friendly_base = true;
        self.enemy_base = true;
        self.glods = spawn_glod(&self.layout.glods);
        let p = Playable::new();
        self.player = true;
        self.player_mass = p.mass;
        self.player_slots = p.slots;
        self.enemy = true;
        self.enemy_state = EnemyState::PreStart;
        self.torpedoes = Vec::new();
        assert(ids_unique(self.glods@));
    }

    /// Ending a round: the high score is raised on a win, and every entity
    /// of the round is removed.
    fn end_round(&mut self, outcome: GameState)
        requires
            old(self).wf(),
            outcome == GameState::Victory || outcome == GameState::GameOver,
        ensures
            final(self).wf(),
            final(self).same_session(*old(self)),
            final(self).game_state == outcome,
            final(self).score == old(self).score,
            outcome == GameState::Victory ==> final(self).high_score.0 == max_u8(
                old(self).score.0,
                old(self).high_score.0,
            ),
            outcome == GameState::GameOver ==> final(self).high_score == old(self).high_score,
    {
        if outcome == GameState::Victory {
            crate::state::update_high_score(&self.score, &mut self.high_score);
        }
        self.game_state = outcome;
        self.player = false;
        self.player_slots = Vec::new();
        self.enemy = false;
        self.friendly_base = false;
        self.enemy_base = false;
        self.enemy_state = EnemyState::Undefined;
        self.glods = Vec::new();
        self.torpedoes = Vec::new();
    }

    /// Main menu keys: confirm starts a new game with a fresh seed, the seed
    /// key opens the seed editor.
    pub fn main_menu_key_input(&mut self, enter: bool, seed_key: bool)
        requires
            old(self).wf(),
        ensures
            final(self).wf(),
            high_score_kept(*old(self), *final(self)),
            final(self).same_round(*old(self)),
            final(self).seed == old(self).seed,
            old(self).app_state == AppState::MainMenu && enter ==> final(self).app_state
                == AppState::InGame && !final(self).keep_seed,
            old(self).app_state == AppState::MainMenu && !enter && seed_key ==> final(self).app_state == AppState::SeedMenu && final(self).keep_seed == old(self).keep_seed,
            old(self).app_state != AppState::MainMenu || (!enter && !seed_key) ==> final(self).app_state == old(self).app_state && final(self).keep_seed == old(self).keep_seed,
    {
        if self.app_state == AppState::MainMenu {
            if enter {
                self.app_state = AppState::InGame;
                self.keep_seed = false;
            } else if seed_key {
                self.app_state = AppState::SeedMenu;
            }
        }
    }

    /// Seed editor keys: typed characters are appended, backspace removes
    /// the last one, and confirm starts the game with this seed kept.
    pub fn seed_menu_key_input(&mut self, typed: &Vec<char>, backspace: bool, enter: bool)
        requires
            old(self).wf(),
        ensures
            final(self).wf(),
            high_score_kept(*old(self), *final(self)),
            final(self).same_round(*old(self)),
            old(self).app_state != AppState::SeedMenu ==> final(self).app_state == old(self).app_state && final(self).seed == old(self).seed && final(self).keep_seed == old(self).keep_seed,
            old(self).app_state == AppState::SeedMenu ==> final(self).seed.0@ == (if backspace
                && (old(self).seed.0@ + typed@).len() > 0 {
                (old(self).seed.0@ + typed@).drop_last()
            } else {
                old(self).seed.0@ + typed@
            }),
            old(self).app_state == AppState::SeedMenu && enter ==> final(self).app_state
                == AppState::InGame && final(self).keep_seed,
            old(self).app_state == AppState::SeedMenu && !enter ==> final(self).app_state
                == AppState::SeedMenu && final(self).keep_seed == old(self).keep_seed,
    {
        if self.app_state == AppState::SeedMenu {
            let mut i: usize = 0;
            while i < typed.len()
                invariant
                    i <= typed@.len(),
                    self.seed.0@ == old(self).seed.0@ + typed@.subrange(0, i as int),
                    self.app_state == old(self).app_state,
                    self.game_state == old(self).game_state,
                    self.keep_seed == old(self).keep_seed,
                    self.same_round(*old(self)),
                    self.wf() == old(self).wf(),
                    old(self).wf(),
                decreases typed@.len() - i,
            {
                self.seed.push(typed[i]);
                i = i + 1;
                assert(self.seed.0@ =~= old(self).seed.0@ + typed@.subrange(0, i as int));
            }
            assert(typed@.subrange(0, typed@.len() as int) =~= typed@);
            if backspace {
                self.seed.pop();
            }
            if enter {
                self.app_state = AppState::InGame;
                self.keep_seed = true;
            }
        }
    }

    /// Leaving the idle phase once the game screen is on: the fresh seed
    /// replaces the current one unless a typed seed is kept, and the layout
    /// is generated from the seed.
    pub fn next_game_with_seed(&mut self, fresh: GameSeed)
        requires
            old(self).wf(),
        ensures
            final(self).wf(),
            high_score_kept(*old(self), *final(self)),
            final(self).app_state == old(self).app_state,
            old(self).game_state != GameState::OutOfGame || old(self).app_state
                != AppState::InGame ==> *final(self) == *old(self),
            old(self).game_state == GameState::OutOfGame && old(self).app_state
                == AppState::InGame ==> {
                &&& final(self).game_state == GameState::SampleRandom
                &&& final(self).seed == (if old(self).keep_seed {
                    old(self).seed
                } else {
                    fresh
                })
                &&& !final(self).keep_seed
                &&& layout_of(final(self).seed.0@, final(self).layout)
                &&& layout_in_range(final(self).layout)
            },
    {
        if self.game_state == GameState::OutOfGame && self.app_state == AppState::InGame {
            if !self.keep_seed {
                self.seed = fresh;
            }
            self.keep_seed = false;
            self.game_state = GameState::SampleRandom;
            self.layout = update_game_resources(&self.seed);
        }
    }

    /// `next_game_with_seed` with a seed drawn at random.
    pub fn next_game(&mut self)
        requires
            old(self).wf(),
        ensures
            final(self).wf(),
            high_score_kept(*old(self), *final(self)),
            final(self).app_state == old(self).app_state,
            old(self).game_state != GameState::OutOfGame || old(self).app_state
                != AppState::InGame ==> *final(self) == *old(self),
            old(self).game_state == GameState::OutOfGame && old(self).app_state
                == AppState::InGame ==> {
                &&& final(self).game_state == GameState::SampleRandom
                &&& old(self).keep_seed ==> final(self).seed == old(self).seed
                &&& !old(self).keep_seed ==> final(self).seed.0@.len() == SEED_LEN
                &&& layout_of(final(self).seed.0@, final(self).layout)
                &&& layout_in_range(final(self).layout)
            },
    {
        if self.game_state == GameState::OutOfGame && self.app_state == AppState::InGame {
            let fresh = GameSeed::random();
            self.next_game_with_seed(fresh);
        }
    }

    /// Once the layout is drawn, play starts.
    pub fn start_game(&mut self)
        requires
            old(self).wf(),
        ensures
            final(self).wf(),
            high_score_kept(*old(self), *final(self)),
            final(self).same_session(*old(self)),
            old(self).game_state != GameState::SampleRandom ==> *final(self) == *old(self),
            old(self).game_state == GameState::SampleRandom ==> {
                &&& final(self).game_state == GameState::Game
                &&& final(self).score.0 == 0
                &&& final(self).glods@ == spawned_glods(old(self).layout.glods@)
                &&& final(self).player_mass == UNIT_MASS
                &&& final(self).player_slots@ == starting_slots()
                &&& final(self).enemy_state == EnemyState::PreStart
            },
    {
        if self.game_state == GameState::SampleRandom {
            self.spawn_round();
        }
    }

    /// Keys on the end-of-round screen: confirm replays the same layout,
    /// escape returns to the main menu, the new-map key goes back to idle so
    /// that a new layout is drawn.
    pub fn end_game_key_input(&mut self, enter: bool, escape: bool, new_map: bool)
        requires
            old(self).wf(),
        ensures
            final(self).wf(),
            high_score_kept(*old(self), *final(self)),
            final(self).seed == old(self).seed,
            final(self).layout == old(self).layout,
            old(self).game_state != GameState::Victory && old(self).game_state
                != GameState::GameOver ==> *final(self) == *old(self),
            (old(self).game_state == GameState::Victory || old(self).game_state
                == GameState::GameOver) ==> {
                &&& enter ==> {
                    &&& final(self).game_state == GameState::Game
                    &&& final(self).app_state == old(self).app_state
                    &&& final(self).score.0 == 0
                    &&& final(self).glods@ == spawned_glods(old(self).layout.glods@)
                    &&& final(self).player_mass == UNIT_MASS
                    &&& final(self).player_slots@ == starting_slots()
                    &&& final(self).enemy_state == EnemyState::PreStart
                }
                &&& !enter && escape ==> final(self).app_state == AppState::MainMenu
                    && final(self).game_state == GameState::OutOfGame
                &&& !enter && !escape && new_map ==> final(self).app_state == old(self).app_state && final(self).game_state == GameState::OutOfGame
                &&& !enter && !escape && !new_map ==> *final(self) == *old(self)
            },
    {
        if self.game_state == GameState::Victory || self.game_state == GameState::GameOver {
            if enter {
                self.spawn_round();
            } else if escape {
                self.app_state = AppState::MainMenu;
                self.game_state = GameState::OutOfGame;
            } else if new_map {
                self.game_state = GameState::OutOfGame;
            }
        }
    }

    /// Applies the collision rules to the events of one tick on the
    /// player's hull, in order; an ending asked for by one of them (the
    /// first) then ends the round. Outside play nothing happens.
    pub fn handle_player_contacts(&mut self, events: &Vec<PlayerContact>)
        requires
            old(self).wf(),
        ensures
            final(self).wf(),
            high_score_kept(*old(self), *final(self)),
            final(self).same_session(*old(self)),
            !old(self).live() ==> *final(self) == *old(self),
            old(self).live() ==> ({
                let t = contacts_effect(tally(*old(self), None), events@);
                &&& final(self).score.0 == t.0
                &&& t.4.is_none() ==> tally(*final(self), None) == t && final(self).live()
                &&& t.4 == Some(GameState::Victory) ==> final(self).game_state
                    == GameState::Victory && final(self).high_score.0 == max_u8(
                    t.0 as u8,
                    old(self).high_score.0,
                )
                &&& t.4 == Some(GameState::GameOver) ==> final(self).game_state
                    == GameState::GameOver && final(self).high_score == old(self).high_score
            }),
    {
        if self.game_state != GameState::Game {
            return;
        }
        let ghost t0 = tally(*old(self), None);
        let mut pending: Option<GameState> = None;
        let mut i: usize = 0;
        while i < events.len()
            invariant
                old(self).wf(),
                old(self).live(),
                self.wf(),
                self.live(),
                self.same_session(*old(self)),
                self.high_score == old(self).high_score,
                i <= events@.len(),
                t0 == tally(*old(self), None),
                pending.is_none() || pending == Some(GameState::Victory) || pending == Some(
                    GameState::GameOver,
                ),
                tally(*self, pending) == contacts_effect(t0, events@.subrange(0, i as int)),
            decreases events@.len() - i,
        {
            let ev = events[i];
            match ev {
                PlayerContact::Started(Contact::Glod(id)) => {
                    let found = find_glod(&self.glods, id);
                    if let Some(k) = found {
                        proof {
                            lemma_remove_keeps_ids_unique(self.glods@, k as int);
                        }
                        self.glods.remove(k);
                        self.score = Score(self.score.0 + 1);
                        self.player_mass = self.player_mass + GLOD_MASS;
                    }
                },
                PlayerContact::Started(Contact::Enemy) => {
                    if pending.is_none() {
                        pending = Some(GameState::GameOver);
                    }
                },
                PlayerContact::Started(Contact::Base) => {
                    if self.enemy_state == EnemyState::Released && pending.is_none() {
                        pending = Some(GameState::Victory);
                    }
                },
                PlayerContact::Stopped(Contact::Base) => {
                    self.enemy_state = EnemyState::Released;
                    self.enemy_base = false;
                },
                _ => {},
            }
            proof {
                let sub = events@.subrange(0, i + 1);
                assert(sub.drop_last() =~= events@.subrange(0, i as int));
                assert(sub.last() == ev);
            }
            i = i + 1;
        }
        assert(events@.subrange(0, events@.len() as int) =~= events@);
        match pending {
            Some(outcome) => self.end_round(outcome),
            None => {},
        }
    }

    /// Leaving the tolerated square ends the round in defeat.
    pub fn map_edge(&mut self, x: i64, y: i64)
        requires
            old(self).wf(),
        ensures
            final(self).wf(),
            high_score_kept(*old(self), *final(self)),
            final(self).same_session(*old(self)),
            old(self).live() && beyond_map_edge_spec(x, y) ==> final(self).game_state
                == GameState::GameOver && final(self).score == old(self).score,
            !(old(self).live() && beyond_map_edge_spec(x, y)) ==> *final(self) == *old(self),
    {
        if self.game_state == GameState::Game && beyond_map_edge(x, y) {
            self.end_round(GameState::GameOver);
        }
    }

    /// Releasing the fire key launches the last weapon that the player
    /// still carries; the slot it left is returned.
    pub fn fire(&mut self, released: bool) -> (r: Option<WeaponSlot>)
        requires
            old(self).wf(),
        ensures
            final(self).wf(),
            high_score_kept(*old(self), *final(self)),
            final(self).same_session(*old(self)),
            final(self).game_state == old(self).game_state,
            r.is_some() == (old(self).live() && released && old(self).player_slots@.len() > 0),
            r.is_some() ==> {
                &&& r.unwrap() == old(self).player_slots@.last()
                &&& final(self).player_slots@ == old(self).player_slots@.drop_last()
                &&& final(self).torpedoes@ == old(self).torpedoes@.push(
                    Torpedo { slot: r.unwrap().id, explosion_elapsed: 0, active_elapsed: 0 },
                )
            },
            r.is_none() ==> *final(self) == *old(self),
    {
        if self.game_state == GameState::Game && released && self.player_slots.len() > 0 {
            let slot = self.player_slots.pop().unwrap();
            self.torpedoes.push(Torpedo::new(slot.id));
            Some(slot)
        } else {
            None
        }
    }

    /// One tick of flight for every torpedo: each one's order, by slot, in
    /// the order they were launched; those that explode leave the world.
    pub fn tick_weapons(&mut self, delta: u64) -> (r: Vec<(u8, TorpedoOrder)>)
        requires
            old(self).wf(),
        ensures
            final(self).wf(),
            high_score_kept(*old(self), *final(self)),
            final(self).same_session(*old(self)),
            final(self).game_state == old(self).game_state,
            !old(self).live() ==> *final(self) == *old(self) && r@.len() == 0,
            old(self).live() ==> {
                &&& r@.len() == old(self).torpedoes@.len()
                &&& forall|i: int|
                    0 <= i < r@.len() ==> #[trigger] r@[i] == (
                        old(self).torpedoes@[i].slot,
                        order_for(ticked(old(self).torpedoes@[i], delta)),
                    )
                &&& final(self).torpedoes@ == survivors(old(self).torpedoes@, delta)
            },
    {
        let mut r: Vec<(u8, TorpedoOrder)> = Vec::new();
        if self.game_state != GameState::Game {
            return r;
        }
        let mut kept: Vec<Torpedo> = Vec::new();
        let mut i: usize = 0;
        while i < self.torpedoes.len()
            invariant
                self == old(self),
                old(self).wf(),
                i <= self.torpedoes@.len(),
                r@.len() == i,
                forall|j: int|
                    0 <= j < i ==> #[trigger] r@[j] == (
                        self.torpedoes@[j].slot,
                        order_for(ticked(self.torpedoes@[j], delta)),
                    ),
                kept@ == survivors(self.torpedoes@.subrange(0, i as int), delta),
                forall|j: int| 0 <= j < kept@.len() ==> (#[trigger] kept@[j]).wf(),
            decreases self.torpedoes@.len() - i,
        {
            let mut t = self.torpedoes[i];
            assert(self.torpedoes@[i as int].wf());
            let order = weapon_movement(&mut t, delta);
            r.push((t.slot, order));
            proof {
                let sub = self.torpedoes@.subrange(0, i + 1);
                assert(sub.drop_last() =~= self.torpedoes@.subrange(0, i as int));
            }
            if !t.fuse_done() {
                kept.push(t);
            }
            i = i + 1;
        }
        assert(self.torpedoes@.subrange(0, self.torpedoes@.len() as int) =~= self.torpedoes@);
        self.torpedoes = kept;
        r
    }

    /// A contact that involves the torpedo from `slot` sets it off if it is
    /// armed: it leaves the world and its explosion is returned.
    pub fn torpedo_contact(&mut self, slot: u8) -> (r: Option<Explosion>)
        requires
            old(self).wf(),
        ensures
            final(self).wf(),
            high_score_kept(*old(self), *final(self)),
            final(self).same_session(*old(self)),
            final(self).game_state == old(self).game_state,
            r.is_some() == (old(self).live() && exists|k: int|
                is_first_torpedo(old(self).torpedoes@, slot, k)
                    && old(self).torpedoes@[k].active_elapsed >= ARMING_DELAY_MS),
            r.is_some() ==> r == Some(
                Explosion { radius: EXPLOSION_RADIUS, origin_impulse: EXPLOSION_IMPULSE },
            ) && exists|k: int|
                is_first_torpedo(old(self).torpedoes@, slot, k) && final(self).torpedoes@ == old(self).torpedoes@.remove(k),
            r.is_none() ==> *final(self) == *old(self),
    {
        if self.game_state != GameState::Game {
            return None;
        }
        let mut i: usize = 0;
        while i < self.torpedoes.len()
            invariant
                self == old(self),
                old(self).wf(),
                old(self).live(),
                i <= self.torpedoes@.len(),
                forall|j: int| 0 <= j < i ==> (#[trigger] self.torpedoes@[j]).slot != slot,
            decreases self.torpedoes@.len() - i,
        {
            if self.torpedoes[i].slot == slot {
                assert(is_first_torpedo(self.torpedoes@, slot, i as int));
                let hit = torpedo_impact(&self.torpedoes[i]);
                if hit.is_some() {
                    let ghost before = self.torpedoes@;
                    self.torpedoes.remove(i);
                    proof {
                        assert forall|j: int| 0 <= j < self.torpedoes@.len() implies (
                        #[trigger] self.torpedoes@[j]).wf() by {
                            if j < i {
                                assert(self.torpedoes@[j] == before[j]);
                            } else {
                                assert(self.torpedoes@[j] == before[j + 1]);
                            }
                        }
                    }
                } else {
                    proof {
                        assert forall|k: int| is_first_torpedo(self.torpedoes@, slot, k) implies k
                            == i by {
                            if k < i {
                            } else if k > i {
                                assert(self.torpedoes@[i as int].slot == slot);
                            }
                        }
                    }
                }
                return hit;
            }
            i = i + 1;
        }
        None
    }
}

} // verus!
