//! Fighter manifests: the data that describes a fighter, and the checks a
//! set of them must pass before a match can use them.

use crate::fighter::animation::AnimKind;
use crate::fighter::attack::AttackKind;
use crate::fighter::attributes::FighterAttributes;
use crate::fighter::FighterCameraProfile;
use crate::math::scalar::FGi32;
use crate::math::vec3::FGVec3;
use crate::keyed::{entries_map, keys_unique};
use vstd::prelude::*;

verus! {

broadcast use vstd::string::group_string_axioms;

/// The fighters of the game.
#[derive(Clone, Copy, PartialEq, Eq, Structural, Debug, Hash)]
pub enum FighterId {
    TestFighter,
}

impl Default for FighterId {
    fn default() -> (r: FighterId)
        ensures
            r == FighterId::TestFighter,
    {
        FighterId::TestFighter
    }
}

/// Every fighter, in declaration order.
pub open spec fn all_fighter_ids() -> Seq<FighterId> {
    seq![FighterId::TestFighter]
}

impl FighterId {
    /// Every fighter, in declaration order.
    pub fn all() -> (r: Vec<FighterId>)
        ensures
            r@ == all_fighter_ids(),
    {
        let mut v: Vec<FighterId> = Vec::new();
        v.push(FighterId::TestFighter);
        v
    }
}

/// Every animation kind, in declaration order.
pub open spec fn all_anim_kinds() -> Seq<AnimKind> {
    seq![
        AnimKind::Wait,
        AnimKind::Walk,
        AnimKind::Run,
        AnimKind::Dash,
        AnimKind::JumpSquat,
        AnimKind::JumpForward,
        AnimKind::JumpBack,
        AnimKind::DoubleJump,
        AnimKind::Landing,
        AnimKind::AirDodge,
        AnimKind::Fall,
        AnimKind::Turn,
        AnimKind::AttackJab1,
        AnimKind::AttackUpTilt,
        AnimKind::AttackForwardTilt,
        AnimKind::AttackDownTilt,
    ]
}

impl AnimKind {
    /// Every animation kind, in declaration order.
    pub fn all() -> (r: Vec<AnimKind>)
        ensures
            r@ == all_anim_kinds(),
    {
        let v: Vec<AnimKind> = vec![
            AnimKind::Wait,
            AnimKind::Walk,
            AnimKind::Run,
            AnimKind::Dash,
            AnimKind::JumpSquat,
            AnimKind::JumpForward,
            AnimKind::JumpBack,
            AnimKind::DoubleJump,
            AnimKind::Landing,
            AnimKind::AirDodge,
            AnimKind::Fall,
            AnimKind::Turn,
            AnimKind::AttackJab1,
            AnimKind::AttackUpTilt,
            AnimKind::AttackForwardTilt,
            AnimKind::AttackDownTilt,
        ];
        assert(v@ =~= all_anim_kinds());
        v
    }
}

/// Whether `c` has the Unicode `White_Space` property, which is what
/// `char::is_whitespace` of std reports and what `str::trim` removes: the
/// 25 code points U+0009 to U+000D, U+0020, U+0085, U+00A0, U+1680, U+2000
/// to U+200A, U+2028, U+2029, U+202F, U+205F and U+3000.
pub open spec fn white_space(c: char) -> bool {
    let n = c as u32;
    ||| 0x9 <= n <= 0xD
    ||| n == 0x20
    ||| n == 0x85
    ||| n == 0xA0
    ||| n == 0x1680
    ||| 0x2000 <= n <= 0x200A
    ||| n == 0x2028
    ||| n == 0x2029
    ||| n == 0x202F
    ||| n == 0x205F
    ||| n == 0x3000
}

/// Whether `c` is white space.
fn char_is_whitespace(c: char) -> (r: bool)
    ensures
        r == white_space(c),
{
    let n = c as u32;
    (0x9 <= n && n <= 0xD) || n == 0x20 || n == 0x85 || n == 0xA0 || n == 0x1680 || (0x2000 <= n && n
        <= 0x200A) || n == 0x2028 || n == 0x2029 || n == 0x202F || n == 0x205F || n == 0x3000
}

/// Whether every character is white space: what trimming leaves empty.
pub open spec fn is_blank(s: Seq<char>) -> bool {
    forall|i: int| 0 <= i < s.len() ==> white_space(#[trigger] s[i])
}

/// Whether a string is empty once trimmed.
pub fn trimmed_is_empty(s: &str) -> (r: bool)
    ensures
        r == is_blank(s@),
{
    let mut blank = true;
    for c in it: s.chars()
        invariant
            it.seq() == s@,
            blank == forall|k: int| 0 <= k < it.index() ==> white_space(#[trigger] s@[k]),
    {
        if !char_is_whitespace(c) {
            blank = false;
        }
    }
    blank
}

/// A hurtbox: a capsule attached to a bone.
#[derive(Clone, Debug)]
pub struct FighterHurtbox {
    pub bone: String,
    pub offset: FGVec3,
    pub rotation: FGVec3,
    pub half_length: FGi32,
    pub radius: FGi32,
}

/// What is wrong with a hurtbox, if anything: a blank bone name, then a
/// radius that is not positive, then a negative half-length.
pub open spec fn hurtbox_problem(h: FighterHurtbox) -> Option<Seq<char>> {
    if is_blank(h.bone@) {
        Some("bone name is empty"@)
    } else if h.radius.bits <= 0 {
        Some("radius must be positive"@)
    } else if h.half_length.bits < 0 {
        Some("half-length must be non-negative"@)
    } else {
        None
    }
}

impl FighterHurtbox {
    /// Checks that the hurtbox names a bone and has a positive radius and a
    /// non-negative half-length.
    pub fn validate(&self) -> (r: Result<(), String>)
        ensures
            match r {
                Ok(()) => hurtbox_problem(*self) is None,
                Err(e) => hurtbox_problem(*self) == Some(e@),
            },
    {
        if trimmed_is_empty(self.bone.as_str()) {
            return Err("bone name is empty".to_string());
        }
        if self.radius.bits <= 0 {
            return Err("radius must be positive".to_string());
        }
        if self.half_length.bits < 0 {
            return Err("half-length must be non-negative".to_string());
        }
        Ok(())
    }
}

/// Everything that describes a fighter.
#[derive(Clone, Debug)]
pub struct FighterManifest {
    pub id: FighterId,
    pub model_path: String,
    pub model_scale: FGi32,
    pub baked_animation_path: String,
    pub attributes: FighterAttributes,
    pub camera: FighterCameraProfile,
    pub animations: Vec<(AnimKind, String)>,
    pub attack_scripts: Vec<(AttackKind, String)>,
    pub hurtboxes: Vec<FighterHurtbox>,
}

/// Why a set of fighter manifests cannot be used.
#[derive(Clone, Copy, PartialEq, Eq, Structural, Debug)]
pub enum ManifestError {
    /// A manifest that was asked for is not loaded.
    Unavailable,
    EmptyModelPath(FighterId),
    NonPositiveModelScale(FighterId),
    EmptyBakedAnimationPath(FighterId),
    MissingAnimation(FighterId, AnimKind),
    InvalidCameraProfile(FighterId),
    Duplicate(FighterId),
    /// No manifest describes this fighter.
    NotConfigured(FighterId),
}

/// The animation kinds that `animations` lists.
pub open spec fn has_animation(animations: Seq<(AnimKind, String)>, kind: AnimKind) -> bool {
    exists|j: int| 0 <= j < animations.len() && (#[trigger] animations[j]).0 == kind
}

impl FighterManifest {
    /// No animation kind and no attack is listed twice, as in maps from
    /// kind to clip name and from attack to script path.
    pub open spec fn keyed(&self) -> bool {
        keys_unique(self.animations@) && keys_unique(self.attack_scripts@)
    }
}

/// The kinds a manifest lists are the keys of the map its list stands for.
pub proof fn listed_animations_are_map_keys(animations: Seq<(AnimKind, String)>, kind: AnimKind)
    ensures
        has_animation(animations, kind) <==> entries_map(animations).contains_key(kind),
{
}

/// The first kind of `kinds`, from position `i` on, that `animations` lacks.
pub open spec fn first_missing_animation(
    animations: Seq<(AnimKind, String)>,
    kinds: Seq<AnimKind>,
    i: int,
) -> Option<AnimKind>
    decreases kinds.len() - i,
{
    if i >= kinds.len() || i < 0 {
        None
    } else if !has_animation(animations, kinds[i]) {
        Some(kinds[i])
    } else {
        first_missing_animation(animations, kinds, i + 1)
    }
}

/// The camera profile's extents are all non-negative.
pub open spec fn camera_valid(c: FighterCameraProfile) -> bool {
    c.forward_extent.bits >= 0 && c.backward_extent.bits >= 0 && c.upward_extent.bits >= 0
        && c.downward_extent.bits >= 0 && c.visibility_radius.bits >= 0
}

/// What is wrong with one manifest on its own, checked in order: its model
/// path, its model scale, its baked animation path, an animation it lacks,
/// its camera profile.
pub open spec fn manifest_problem(m: FighterManifest) -> Option<ManifestError> {
    if m.model_path@.len() == 0 {
        Some(ManifestError::EmptyModelPath(m.id))
    } else if m.model_scale.bits <= 0 {
        Some(ManifestError::NonPositiveModelScale(m.id))
    } else if m.baked_animation_path@.len() == 0 {
        Some(ManifestError::EmptyBakedAnimationPath(m.id))
    } else if first_missing_animation(m.animations@, all_anim_kinds(), 0) is Some {
        Some(ManifestError::MissingAnimation(m.id, first_missing_animation(m.animations@, all_anim_kinds(), 0)->0))
    } else if !camera_valid(m.camera) {
        Some(ManifestError::InvalidCameraProfile(m.id))
    } else {
        None
    }
}

/// Whether a registry has an entry for `id`.
pub open spec fn registered(reg: Seq<(FighterId, usize)>, id: FighterId) -> bool {
    exists|j: int| 0 <= j < reg.len() && (#[trigger] reg[j]).0 == id
}

/// The registry built from the first `n` manifests, one entry per manifest
/// in order, or the first problem met.
pub open spec fn registry_prefix(ms: Seq<Option<FighterManifest>>, n: int) -> Result<Seq<(FighterId, usize)>, ManifestError>
    decreases n,
{
    if n <= 0 {
        Ok(Seq::empty())
    } else {
        match registry_prefix(ms, n - 1) {
            Err(e) => Err(e),
            Ok(reg) => match ms[n - 1] {
                None => Err(ManifestError::Unavailable),
                Some(m) => if manifest_problem(m) is Some {
                    Err(manifest_problem(m)->0)
                } else if registered(reg, m.id) {
                    Err(ManifestError::Duplicate(m.id))
                } else {
                    Ok(reg.push((m.id, (n - 1) as usize)))
                },
            },
        }
    }
}

/// Once a prefix fails, every longer prefix fails the same way.
proof fn lemma_registry_error_sticks(ms: Seq<Option<FighterManifest>>, i: int, n: int)
    requires
        0 <= i <= n,
        registry_prefix(ms, i) is Err,
    ensures
        registry_prefix(ms, n) == registry_prefix(ms, i),
    decreases n - i,
{
    if n > i {
        lemma_registry_error_sticks(ms, i, n - 1);
    }
}

/// The first fighter, from position `i` of `ids` on, that the registry lacks.
pub open spec fn first_unconfigured(reg: Seq<(FighterId, usize)>, ids: Seq<FighterId>, i: int) -> Option<FighterId>
    decreases ids.len() - i,
{
    if i >= ids.len() || i < 0 {
        None
    } else if !registered(reg, ids[i]) {
        Some(ids[i])
    } else {
        first_unconfigured(reg, ids, i + 1)
    }
}

/// The registry of fighter manifests, by fighter, with the position of each
/// manifest in the loaded list; or why there is none.
pub open spec fn manifest_registry(ms: Seq<Option<FighterManifest>>) -> Result<Seq<(FighterId, usize)>, ManifestError> {
    match registry_prefix(ms, ms.len() as int) {
        Err(e) => Err(e),
        Ok(reg) => match first_unconfigured(reg, all_fighter_ids(), 0) {
            Some(id) => Err(ManifestError::NotConfigured(id)),
            None => Ok(reg),
        },
    }
}

fn animations_contain(animations: &Vec<(AnimKind, String)>, kind: AnimKind) -> (r: bool)
    ensures
        r == has_animation(animations@, kind),
{
    let mut i: usize = 0;
    while i < animations.len()
        invariant
            i <= animations@.len(),
            forall|k: int| 0 <= k < i ==> (#[trigger] animations@[k]).0 != kind,
        decreases animations@.len() - i,
    {
        if animations[i].0 == kind {
            return true;
        }
        i = i + 1;
    }
    false
}

fn missing_animation(animations: &Vec<(AnimKind, String)>) -> (r: Option<AnimKind>)
    ensures
        r == first_missing_animation(animations@, all_anim_kinds(), 0),
{
    let kinds = AnimKind::all();
    let mut i: usize = 0;
    while i < kinds.len()
        invariant
            kinds@ == all_anim_kinds(),
            i <= kinds@.len(),
            first_missing_animation(animations@, kinds@, i as int) == first_missing_animation(
                animations@,
                kinds@,
                0,
            ),
        decreases kinds@.len() - i,
    {
        if !animations_contain(animations, kinds[i]) {
            return Some(kinds[i]);
        }
        i = i + 1;
    }
    None
}

/// The first problem of one manifest on its own.
pub fn check_manifest(m: &FighterManifest) -> (r: Option<ManifestError>)
    ensures
        r == manifest_problem(*m),
{
    if m.model_path.as_str().is_empty() {
        return Some(ManifestError::EmptyModelPath(m.id));
    }
    if m.model_scale.bits <= 0 {
        return Some(ManifestError::NonPositiveModelScale(m.id));
    }
    if m.baked_animation_path.as_str().is_empty() {
        return Some(ManifestError::EmptyBakedAnimationPath(m.id));
    }
    if let Some(kind) = missing_animation(&m.animations) {
        return Some(ManifestError::MissingAnimation(m.id, kind));
    }
    if !m.camera.is_valid() {
        return Some(ManifestError::InvalidCameraProfile(m.id));
    }
    None
}

fn registry_contains(reg: &Vec<(FighterId, usize)>, id: FighterId) -> (r: bool)
    ensures
        r == registered(reg@, id),
{
    let mut i: usize = 0;
    while i < reg.len()
        invariant
            i <= reg@.len(),
            forall|k: int| 0 <= k < i ==> (#[trigger] reg@[k]).0 != id,
        decreases reg@.len() - i,
    {
        if reg[i].0 == id {
            return true;
        }
        i = i + 1;
    }
    false
}

/// The manifests that a list of lookups found.
pub open spec fn loaded_manifests(ms: Seq<Option<&FighterManifest>>) -> Seq<Option<FighterManifest>> {
    ms.map_values(|m: Option<&FighterManifest>| match m {
        Some(x) => Some(*x),
        None => None,
    })
}

/// Checks a set of loaded fighter manifests (`None` where one is not
/// available) and builds the registry: every manifest present and sound,
/// no fighter described twice, every fighter described.
pub fn prepare_fighter_manifests(manifests: &Vec<Option<&FighterManifest>>) -> (r: Result<FighterManifestRegistry, ManifestError>)
    ensures
        match r {
            Ok(reg) => manifest_registry(loaded_manifests(manifests@)) == Ok::<
                Seq<(FighterId, usize)>,
                ManifestError,
            >(reg.0@),
            Err(e) => manifest_registry(loaded_manifests(manifests@)) == Err::<
                Seq<(FighterId, usize)>,
                ManifestError,
            >(e),
        },
{
    let ghost ms = loaded_manifests(manifests@);
    let mut registry: Vec<(FighterId, usize)> = Vec::new();
    let mut i: usize = 0;
    while i < manifests.len()
        invariant
            i <= manifests@.len(),
            ms == loaded_manifests(manifests@),
            ms.len() == manifests@.len(),
            forall|k: int| 0 <= k < manifests@.len() ==> #[trigger] ms[k] == match manifests@[k] {
                Some(x) => Some(*x),
                None => None,
            },
            registry_prefix(ms, i as int) == Ok::<Seq<(FighterId, usize)>, ManifestError>(registry@),
        decreases manifests@.len() - i,
    {
        let m = match manifests[i] {
            Some(m) => m,
            None => {
                proof {
                    assert(ms[i as int] == None::<FighterManifest>);
                    assert(registry_prefix(ms, i + 1) == Err::<Seq<(FighterId, usize)>, ManifestError>(ManifestError::Unavailable));
                    lemma_registry_error_sticks(ms, i + 1, ms.len() as int);
                }
                return Err(ManifestError::Unavailable);
            },
        };
        proof {
            assert(ms[i as int] == Some(*m));
        }
        if let Some(e) = check_manifest(m) {
            proof {
                lemma_registry_error_sticks(ms, i + 1, ms.len() as int);
            }
            return Err(e);
        }
        if registry_contains(&registry, m.id) {
            proof {
                lemma_registry_error_sticks(ms, i + 1, ms.len() as int);
            }
            return Err(ManifestError::Duplicate(m.id));
        }
        registry.push((m.id, i));
        i = i + 1;
    }
    let ids = FighterId::all();
    let mut k: usize = 0;
    while k < ids.len()
        invariant
            ids@ == all_fighter_ids(),
            ms == loaded_manifests(manifests@),
            k <= ids@.len(),
            registry_prefix(ms, ms.len() as int) == Ok::<Seq<(FighterId, usize)>, ManifestError>(registry@),
            first_unconfigured(registry@, ids@, k as int) == first_unconfigured(registry@, ids@, 0),
        decreases ids@.len() - k,
    {
        if !registry_contains(&registry, ids[k]) {
            proof {
                assert(first_unconfigured(registry@, ids@, k as int) == Some(ids@[k as int]));
                assert(manifest_registry(ms) == Err::<Seq<(FighterId, usize)>, ManifestError>(ManifestError::NotConfigured(ids@[k as int])));
            }
            return Err(ManifestError::NotConfigured(ids[k]));
        }
        k = k + 1;
    }
    Ok(FighterManifestRegistry(registry))
}

/// The manifest of each fighter, by fighter, as positions in the loaded
/// list.
#[derive(Clone, Debug)]
pub struct FighterManifestRegistry(pub Vec<(FighterId, usize)>);

impl FighterManifestRegistry {
    /// The manifest of a fighter.
    pub fn get(&self, fighter: FighterId) -> (r: Option<usize>)
        ensures
            match r {
                Some(i) => exists|j: int| 0 <= j < self.0@.len() && self.0@[j] == (fighter, i) && forall|k: int|
                    0 <= k < j ==> (#[trigger] self.0@[k]).0 != fighter,
                None => !registered(self.0@, fighter),
            },
    {
        let mut i: usize = 0;
        while i < self.0.len()
            invariant
                i <= self.0@.len(),
                forall|k: int| 0 <= k < i ==> (#[trigger] self.0@[k]).0 != fighter,
            decreases self.0@.len() - i,
        {
            if self.0[i].0 == fighter {
                return Some(self.0[i].1);
            }
            i = i + 1;
        }
        None
    }
}


/// A registry that the checks accept describes every fighter, and each
/// one once.
pub proof fn accepted_registry_is_complete_and_unique(ms: Seq<Option<FighterManifest>>)
    requires
        manifest_registry(ms) is Ok,
    ensures
        forall|id: FighterId| all_fighter_ids().contains(id) ==> registered(manifest_registry(ms)->Ok_0, id),
        forall|i: int, j: int|
            0 <= i < j < manifest_registry(ms)->Ok_0.len() ==> (#[trigger] manifest_registry(ms)->Ok_0[i]).0
                != (#[trigger] manifest_registry(ms)->Ok_0[j]).0,
{
    lemma_prefix_unique(ms, ms.len() as int);
    let reg = registry_prefix(ms, ms.len() as int)->Ok_0;
    assert forall|id: FighterId| all_fighter_ids().contains(id) implies registered(reg, id) by {
        assert(id == FighterId::TestFighter);
        assert(first_unconfigured(reg, all_fighter_ids(), 0) is None);
        assert(first_unconfigured(reg, all_fighter_ids(), 1) is None);
    }
}

proof fn lemma_prefix_unique(ms: Seq<Option<FighterManifest>>, n: int)
    requires
        registry_prefix(ms, n) is Ok,
    ensures
        forall|i: int, j: int|
            0 <= i < j < registry_prefix(ms, n)->Ok_0.len() ==> (#[trigger] registry_prefix(ms, n)->Ok_0[i]).0
                != (#[trigger] registry_prefix(ms, n)->Ok_0[j]).0,
    decreases n,
{
    if n > 0 {
        lemma_prefix_unique(ms, n - 1);
        let reg = registry_prefix(ms, n - 1)->Ok_0;
        let m = ms[n - 1]->0;
        let all = registry_prefix(ms, n)->Ok_0;
        assert forall|i: int, j: int| 0 <= i < j < all.len() implies (#[trigger] all[i]).0 != (#[trigger] all[j]).0 by {
            if j == reg.len() {
                assert(all[i] == reg[i]);
                assert(!registered(reg, m.id));
                if all[i].0 == m.id {
                    assert(reg[i].0 == m.id);
                }
            } else {
                assert(all[i] == reg[i] && all[j] == reg[j]);
            }
        }
    }
}

} // verus!
