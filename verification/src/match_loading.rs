//! Match requests and the checks a match must pass before it starts.

use crate::fighter::animation::AnimKind;
use crate::fighter::baked_animation::{clip_of, BakedFighterAnimations};
use crate::fighter::manifest::{FighterId, FighterManifest};
use crate::math::scalar::FGi32;
use crate::math::vec::FGVec2;
use vstd::prelude::*;

verus! {

/// The stages of the game.
#[derive(Clone, Copy, PartialEq, Eq, Structural, Debug, Hash)]
pub enum StageId {
    TestStage,
}

/// One player of a match: its session handle and its fighter.
#[derive(Clone, Copy, PartialEq, Eq, Structural, Debug)]
pub struct MatchPlayer {
    pub handle: usize,
    pub fighter: FighterId,
}

/// A match that has been asked for.
#[derive(Clone, Debug)]
pub struct PendingMatch {
    pub stage: StageId,
    pub players: Vec<MatchPlayer>,
}

/// The default match: the test stage, and `player_count` players on the
/// test fighter with handles `0..player_count`.
pub fn default_match_request(player_count: usize) -> (r: PendingMatch)
    ensures
        r.stage == StageId::TestStage,
        r.players@.len() == player_count,
        forall|i: int|
            0 <= i < player_count ==> #[trigger] r.players@[i] == (MatchPlayer {
                handle: i as usize,
                fighter: FighterId::TestFighter,
            }),
{
    let mut players: Vec<MatchPlayer> = Vec::new();
    let mut handle: usize = 0;
    while handle < player_count
        invariant
            handle <= player_count,
            players@.len() == handle,
            forall|i: int|
                0 <= i < handle ==> #[trigger] players@[i] == (MatchPlayer {
                    handle: i as usize,
                    fighter: FighterId::TestFighter,
                }),
        decreases player_count - handle,
    {
        players.push(MatchPlayer { handle, fighter: FighterId::TestFighter });
        handle = handle + 1;
    }
    PendingMatch { stage: StageId::TestStage, players }
}

/// The handles are exactly `0..players.len()`, each once.
pub open spec fn handles_cover_range(players: Seq<MatchPlayer>) -> bool {
    &&& forall|i: int| 0 <= i < players.len() ==> (#[trigger] players[i]).handle < players.len()
    &&& forall|i: int, j: int| 0 <= i < j < players.len() ==> (#[trigger] players[i]).handle != (#[trigger] players[j]).handle
}

/// Whether the players' handles are exactly `0..players.len()`, each once,
/// as a session of that many players needs.
pub fn valid_player_handles(players: &[MatchPlayer]) -> (r: bool)
    ensures
        r == handles_cover_range(players@),
{
    let n = players.len();
    let mut seen: Vec<Option<usize>> = Vec::new();
    let mut k: usize = 0;
    while k < n
        invariant
            k <= n,
            seen@.len() == k,
            forall|h: int| 0 <= h < k ==> (#[trigger] seen@[h]) is None,
        decreases n - k,
    {
        seen.push(None);
        k = k + 1;
    }
    let mut i: usize = 0;
    while i < n
        invariant
            n == players@.len(),
            i <= n,
            seen@.len() == n,
            forall|a: int| 0 <= a < i ==> (#[trigger] players@[a]).handle < n,
            forall|a: int, b: int| 0 <= a < b < i ==> (#[trigger] players@[a]).handle != (#[trigger] players@[b]).handle,
            forall|h: int|
                0 <= h < n ==> match #[trigger] seen@[h] {
                    Some(a) => a < i && players@[a as int].handle == h,
                    None => forall|a: int| 0 <= a < i ==> players@[a].handle != h,
                },
        decreases n - i,
    {
        let h = players[i].handle;
        if h >= n {
            return false;
        }
        match seen[h] {
            Some(a) => {
                proof {
                    assert(players@[a as int].handle == players@[i as int].handle);
                }
                return false;
            },
            None => {},
        }
        seen.set(h, Some(i));
        i = i + 1;
    }
    true
}

/// Where the `index`-th of `player_count` fighters spawns: spread five
/// units apart around the centre, `12.5` above the ground.
pub open spec fn spawn_x(index: int, player_count: int) -> int {
    (index * 2 + 1 - player_count) * 5
}

/// Whether the `index`-th of `player_count` fighters has a spawn position
/// that Q16.16 can hold.
pub fn spawn_position_fits(index: usize, player_count: usize) -> (r: bool)
    ensures
        r == (index <= i32::MAX && player_count <= i32::MAX && -32768 <= spawn_x(
            index as int,
            player_count as int,
        ) < 32768),
{
    if index > i32::MAX as usize || player_count > i32::MAX as usize {
        return false;
    }
    let i = index as i64;
    let n = player_count as i64;
    let x: i64 = (i * 2 + 1 - n) * 5;
    -32768 <= x && x < 32768
}

pub fn spawn_position(index: usize, player_count: usize) -> (r: FGVec2)
    requires
        index <= i32::MAX,
        player_count <= i32::MAX,
        -32768 <= spawn_x(index as int, player_count as int) < 32768,
    ensures
        r.x.bits == spawn_x(index as int, player_count as int) * 65536,
        r.y.bits == 819200,
{
    let i = index as i64;
    let n = player_count as i64;
    let x: i64 = (i * 2 + 1 - n) * 5;
    FGVec2::new(FGi32::from_int(x as i32), FGi32::from_bits(819200))
}

/// What the match loaded for one player's character.
pub struct CharacterAssets<'a> {
    pub fighter: FighterId,
    /// The fighter's manifest, if still available.
    pub manifest: Option<&'a FighterManifest>,
    /// The names of the model's animation clips, if the model is available.
    pub model_clip_names: Option<Vec<String>>,
    /// Whether the model has a scene.
    pub model_has_scene: bool,
    /// The baked animations, if available.
    pub baked: Option<&'a BakedFighterAnimations>,
}

/// Why a match cannot start.
#[derive(Clone, Debug)]
pub enum MatchError {
    /// The handles do not cover `0..player_count` exactly once.
    InvalidPlayerHandles,
    /// The characters loaded do not match the players asked for.
    AssetCountMismatch,
    ManifestUnavailable,
    ModelUnavailable,
    BakedAnimationsUnavailable,
    NoScene,
    /// The manifest names a clip the model does not have.
    MissingClip(FighterId, String),
    /// The baked data lacks an animation the manifest lists.
    MissingBakedAnimation(FighterId, AnimKind),
    NoWaitAnimation,
}

/// The model has a clip of this name.
pub open spec fn has_clip(names: Seq<String>, name: Seq<char>) -> bool {
    exists|j: int| 0 <= j < names.len() && (#[trigger] names[j])@ == name
}

/// The first animation of the manifest, from position `i` on, whose clip
/// the model lacks or whose baked frames are missing, with which of the two.
pub open spec fn animation_problem(
    anims: Seq<(AnimKind, String)>,
    names: Seq<String>,
    baked: BakedFighterAnimations,
    i: int,
) -> Option<(int, bool)>
    decreases anims.len() - i,
{
    if i < 0 || i >= anims.len() {
        None
    } else if !has_clip(names, anims[i].1@) {
        Some((i, true))
    } else if clip_of(baked, anims[i].0) is None {
        Some((i, false))
    } else {
        animation_problem(anims, names, baked, i + 1)
    }
}

/// The manifest lists a Wait animation.
pub open spec fn lists_wait(anims: Seq<(AnimKind, String)>) -> bool {
    exists|j: int| 0 <= j < anims.len() && (#[trigger] anims[j]).0 == AnimKind::Wait
}

/// A character's assets are all there, as far as they are checked before
/// the fighter's animations are.
pub open spec fn assets_present(c: CharacterAssets) -> bool {
    &&& c.manifest is Some
    &&& c.model_clip_names is Some
    &&& c.baked is Some
    &&& c.model_has_scene
}

/// The first problem with one character's assets, given the fighters whose
/// animations are already checked: the manifest, the model, the baked
/// animations and the scene must be there; the first time a fighter is
/// met, each animation of its manifest needs a clip in the model and baked
/// frames, and Wait must be among them.
pub open spec fn character_problem_kind(c: CharacterAssets, done: Seq<FighterId>) -> Option<int> {
    if c.manifest is None {
        Some(0)
    } else if c.model_clip_names is None {
        Some(1)
    } else if c.baked is None {
        Some(2)
    } else if !c.model_has_scene {
        Some(3)
    } else if done.contains(c.fighter) {
        None
    } else if animation_problem(c.manifest->0.animations@, c.model_clip_names->0@, *c.baked->0, 0) is Some {
        Some(4)
    } else if !lists_wait(c.manifest->0.animations@) {
        Some(5)
    } else {
        None
    }
}

/// The fighters checked after the first `n` characters.
pub open spec fn checked_fighters(cs: Seq<CharacterAssets>, n: int) -> Seq<FighterId>
    decreases n,
{
    if n <= 0 {
        Seq::empty()
    } else {
        let done = checked_fighters(cs, n - 1);
        if done.contains(cs[n - 1].fighter) {
            done
        } else {
            done.push(cs[n - 1].fighter)
        }
    }
}

/// The first character, from the first `n`, that has a problem.
pub open spec fn first_problem_before(cs: Seq<CharacterAssets>, n: int) -> Option<int>
    decreases n,
{
    if n <= 0 {
        None
    } else if first_problem_before(cs, n - 1) is Some {
        first_problem_before(cs, n - 1)
    } else if character_problem_kind(cs[n - 1], checked_fighters(cs, n - 1)) is Some {
        Some(n - 1)
    } else {
        None
    }
}

/// `e` is the error that describes problem `kind` of character `c`.
pub open spec fn describes(e: MatchError, c: CharacterAssets, kind: int) -> bool {
    if kind == 0 {
        e is ManifestUnavailable
    } else if kind == 1 {
        e is ModelUnavailable
    } else if kind == 2 {
        e is BakedAnimationsUnavailable
    } else if kind == 3 {
        e is NoScene
    } else if kind == 4 {
        let anims = c.manifest->0.animations@;
        let (i, clip) = animation_problem(anims, c.model_clip_names->0@, *c.baked->0, 0)->0;
        if clip {
            e matches MatchError::MissingClip(f, name) && f == c.fighter && name@ == anims[i].1@
        } else {
            e == MatchError::MissingBakedAnimation(c.fighter, anims[i].0)
        }
    } else {
        e is NoWaitAnimation
    }
}

fn clip_present(names: &Vec<String>, name: &String) -> (r: bool)
    ensures
        r == has_clip(names@, name@),
{
    let mut i: usize = 0;
    while i < names.len()
        invariant
            i <= names@.len(),
            forall|k: int| 0 <= k < i ==> (#[trigger] names@[k])@ != name@,
        decreases names@.len() - i,
    {
        if names[i] == *name {
            return true;
        }
        i = i + 1;
    }
    false
}

fn check_animations(
    fighter: FighterId,
    anims: &Vec<(AnimKind, String)>,
    names: &Vec<String>,
    baked: &BakedFighterAnimations,
) -> (r: Result<(), MatchError>)
    ensures
        match animation_problem(anims@, names@, *baked, 0) {
            None => r is Ok,
            Some((i, clip)) => r matches Err(e) && if clip {
                e matches MatchError::MissingClip(f, name) && f == fighter && name@ == anims@[i].1@
            } else {
                e == MatchError::MissingBakedAnimation(fighter, anims@[i].0)
            },
        },
{
    let mut i: usize = 0;
    while i < anims.len()
        invariant
            i <= anims@.len(),
            animation_problem(anims@, names@, *baked, i as int) == animation_problem(anims@, names@, *baked, 0),
        decreases anims@.len() - i,
    {
        let (kind, name) = &anims[i];
        if !clip_present(names, name) {
            return Err(MatchError::MissingClip(fighter, name.clone()));
        }
        if baked.frame_count(*kind).is_none() {
            return Err(MatchError::MissingBakedAnimation(fighter, *kind));
        }
        i = i + 1;
    }
    Ok(())
}

fn lists_wait_exec(anims: &Vec<(AnimKind, String)>) -> (r: bool)
    ensures
        r == lists_wait(anims@),
{
    let mut i: usize = 0;
    while i < anims.len()
        invariant
            i <= anims@.len(),
            forall|k: int| 0 <= k < i ==> (#[trigger] anims@[k]).0 != AnimKind::Wait,
        decreases anims@.len() - i,
    {
        if anims[i].0 == AnimKind::Wait {
            return true;
        }
        i = i + 1;
    }
    false
}

fn fighters_contain(done: &Vec<FighterId>, f: FighterId) -> (r: bool)
    ensures
        r == done@.contains(f),
{
    let mut i: usize = 0;
    while i < done.len()
        invariant
            i <= done@.len(),
            forall|k: int| 0 <= k < i ==> done@[k] != f,
        decreases done@.len() - i,
    {
        if done[i] == f {
            return true;
        }
        i = i + 1;
    }
    false
}

/// Checks that a match can start: the player handles cover the session
/// range, there is one character per player, and each character's assets
/// pass `character_problem_kind`, the first failing character giving the
/// error.
pub fn check_match_assets(players: &Vec<MatchPlayer>, characters: &Vec<CharacterAssets>) -> (r: Result<(), MatchError>)
    ensures
        !handles_cover_range(players@) ==> r matches Err(MatchError::InvalidPlayerHandles),
        handles_cover_range(players@) && characters@.len() != players@.len() ==> r matches Err(
            MatchError::AssetCountMismatch,
        ),
        handles_cover_range(players@) && characters@.len() == players@.len() ==> match first_problem_before(
            characters@,
            characters@.len() as int,
        ) {
            None => r is Ok,
            Some(i) => r matches Err(e) && describes(
                e,
                characters@[i],
                character_problem_kind(characters@[i], checked_fighters(characters@, i))->0,
            ),
        },
{
    if !valid_player_handles(players.as_slice()) {
        return Err(MatchError::InvalidPlayerHandles);
    }
    if characters.len() != players.len() {
        return Err(MatchError::AssetCountMismatch);
    }
    let mut done: Vec<FighterId> = Vec::new();
    let mut i: usize = 0;
    while i < characters.len()
        invariant
            i <= characters@.len(),
            handles_cover_range(players@),
            characters@.len() == players@.len(),
            done@ == checked_fighters(characters@, i as int),
            first_problem_before(characters@, i as int) is None,
        decreases characters@.len() - i,
    {
        let c = &characters[i];
        let manifest = match c.manifest {
            Some(m) => m,
            None => {
                proof {
                    lemma_first_problem_sticks(characters@, i as int + 1, characters@.len() as int);
                }
                return Err(MatchError::ManifestUnavailable);
            },
        };
        let names = match &c.model_clip_names {
            Some(n) => n,
            None => {
                proof {
                    lemma_first_problem_sticks(characters@, i as int + 1, characters@.len() as int);
                }
                return Err(MatchError::ModelUnavailable);
            },
        };
        let baked = match c.baked {
            Some(b) => b,
            None => {
                proof {
                    lemma_first_problem_sticks(characters@, i as int + 1, characters@.len() as int);
                }
                return Err(MatchError::BakedAnimationsUnavailable);
            },
        };
        if !c.model_has_scene {
            proof {
                lemma_first_problem_sticks(characters@, i as int + 1, characters@.len() as int);
            }
            return Err(MatchError::NoScene);
        }
        if !fighters_contain(&done, c.fighter) {
            match check_animations(c.fighter, &manifest.animations, names, baked) {
                Ok(()) => {},
                Err(e) => {
                    proof {
                        lemma_first_problem_sticks(characters@, i as int + 1, characters@.len() as int);
                    }
                    return Err(e);
                },
            }
            if !lists_wait_exec(&manifest.animations) {
                proof {
                    lemma_first_problem_sticks(characters@, i as int + 1, characters@.len() as int);
                }
                return Err(MatchError::NoWaitAnimation);
            }
            done.push(c.fighter);
        }
        i = i + 1;
    }
    Ok(())
}

proof fn lemma_first_problem_sticks(cs: Seq<CharacterAssets>, i: int, n: int)
    requires
        0 <= i <= n,
        first_problem_before(cs, i) is Some,
    ensures
        first_problem_before(cs, n) == first_problem_before(cs, i),
    decreases n - i,
{
    if n > i {
        lemma_first_problem_sticks(cs, i, n - 1);
    }
}


/// The default match always passes the handle check.
pub proof fn default_match_handles_are_valid(player_count: usize, players: Seq<MatchPlayer>)
    requires
        players.len() == player_count,
        forall|i: int|
            0 <= i < player_count ==> #[trigger] players[i] == (MatchPlayer {
                handle: i as usize,
                fighter: FighterId::TestFighter,
            }),
    ensures
        handles_cover_range(players),
{
}

} // verus!
