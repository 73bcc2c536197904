//! Attacks: hitboxes, their knockback, and which of them are active.

use crate::fighter::animation::AnimKind;
use crate::fighter::baked_animation::{
    lemma_product_is_mat4_product, mat4_mul_fits, mat4_product, name_position, rotation_translation,
    FighterBoneMatrices, FixedMat4,
};
use crate::fighter::hurtbox::FixedAffineCapsule;
use crate::fighter::manifest::{FighterHurtbox, FighterManifest};
use crate::fighter::motion::{fighter_transform, FighterTranslation};
use crate::fighter::FighterFacingDirection;
use crate::math::trig::to_radians_spec;
use crate::fighter::attributes::FighterAttributes;
use crate::math::scalar::{i32_fits, q16_div, q16_mul, FGi32};
use crate::math::vec3::FGVec3;
use std::collections::VecDeque;
use crate::keyed::{entries_map, entry_is_the_map_value, keys_unique, missing_key_is_not_mapped};
use vstd::prelude::*;

verus! {

/// Damage, in percent.
#[derive(Clone, Copy, PartialEq, Eq, Structural, Debug)]
pub struct FighterDamage(pub FGi32);

impl FighterDamage {
    /// Damage from a decimal literal such as `"12.5"`.
    pub fn lit(text: &str) -> (r: FighterDamage)
        requires
            crate::math::scalar::fixed_parse_q16(text@) is Some,
        ensures
            r.0.bits == crate::math::scalar::fixed_parse_q16(text@)->0,
    {
        FighterDamage(FGi32::lit(text))
    }
}

impl FighterDamage {
    /// Damage from a decimal literal; `None` unless it is valid.
    pub fn try_lit(text: &str) -> (r: Option<FighterDamage>)
        ensures
            match r {
                Some(d) => crate::math::scalar::fixed_parse_q16(text@) == Some(d.0.bits),
                None => crate::math::scalar::fixed_parse_q16(text@) is None,
            },
    {
        if FGi32::try_lit(text).is_some() {
            Some(FighterDamage::lit(text))
        } else {
            None
        }
    }
}

impl Default for FighterDamage {
    fn default() -> (r: FighterDamage)
        ensures
            r.0.bits == 0,
    {
        FighterDamage(FGi32::zero())
    }
}

/// Whether knockback grows with the receiver's damage.
#[derive(Clone, Copy, PartialEq, Eq, Structural, Debug)]
pub enum KnockbackType {
    Normal,
    Fixed,
}

impl KnockbackType {
    pub fn make_normal() -> (r: KnockbackType)
        ensures
            r == KnockbackType::Normal,
    {
        KnockbackType::Normal
    }

    pub fn make_fixed() -> (r: KnockbackType)
        ensures
            r == KnockbackType::Fixed,
    {
        KnockbackType::Fixed
    }
}

/// Knockback strength.
#[derive(Clone, Copy, PartialEq, Eq, Structural, Debug)]
pub struct Knockback(pub FGi32);

impl Knockback {
    /// Knockback from a decimal literal.
    pub fn lit(val: &str) -> (r: Knockback)
        requires
            crate::math::scalar::fixed_parse_q16(val@) is Some,
        ensures
            r.0.bits == crate::math::scalar::fixed_parse_q16(val@)->0,
    {
        Knockback(FGi32::lit(val))
    }
}

impl Knockback {
    /// Knockback from a decimal literal; `None` unless it is valid.
    pub fn try_lit(val: &str) -> (r: Option<Knockback>)
        ensures
            match r {
                Some(k) => crate::math::scalar::fixed_parse_q16(val@) == Some(k.0.bits),
                None => crate::math::scalar::fixed_parse_q16(val@) is None,
            },
    {
        if FGi32::try_lit(val).is_some() {
            Some(Knockback::lit(val))
        } else {
            None
        }
    }
}

impl Default for Knockback {
    fn default() -> (r: Knockback)
        ensures
            r.0.bits == 0,
    {
        Knockback(FGi32::zero())
    }
}

/// The launch angle of a hitbox, in degrees, or the angle that depends on
/// the knockback.
#[derive(Clone, Copy, PartialEq, Eq, Structural, Debug)]
pub enum AttackAngle {
    Normal(FGi32),
    Sakurai,
}

impl Default for AttackAngle {
    fn default() -> (r: AttackAngle)
        ensures
            r == AttackAngle::Normal(FGi32 { bits: 0 }),
    {
        AttackAngle::Normal(FGi32::zero())
    }
}

impl AttackAngle {
    pub fn make_normal(angle: FGi32) -> (r: AttackAngle)
        ensures
            r == AttackAngle::Normal(angle),
    {
        AttackAngle::Normal(angle)
    }

    pub fn make_sakurai() -> (r: AttackAngle)
        ensures
            r == AttackAngle::Sakurai,
    {
        AttackAngle::Sakurai
    }
}

/// The attacks a fighter can perform.
#[derive(Clone, Copy, PartialEq, Eq, Structural, Debug, Hash)]
pub enum AttackKind {
    NAir,
    Jab,
    UpTilt,
}

pub open spec fn attack_animation(a: AttackKind) -> AnimKind {
    match a {
        AttackKind::NAir => AnimKind::AttackJab1,
        AttackKind::Jab => AnimKind::AttackJab1,
        AttackKind::UpTilt => AnimKind::AttackUpTilt,
    }
}

impl AttackKind {
    /// The animation an attack plays.
    pub fn get_animation(&self) -> (r: AnimKind)
        ensures
            r == attack_animation(*self),
    {
        match self {
            AttackKind::NAir => AnimKind::AttackJab1,
            AttackKind::Jab => AnimKind::AttackJab1,
            AttackKind::UpTilt => AnimKind::AttackUpTilt,
        }
    }
}

/// One hitbox of an attack, attached to a bone and live for a range of
/// frames.
#[derive(Clone, Debug)]
pub struct AttackHitbox {
    pub id: u32,
    pub bone: String,
    pub damage: FighterDamage,
    pub offset: FGVec3,
    pub radius: FGi32,
    pub angle: AttackAngle,
    pub knockback_type: KnockbackType,
    pub knockback: Knockback,
    pub knockback_growth: FGi32,
    pub start_frame: u32,
    pub end_frame: u32,
}

/// The attacks a fighter used most recently, for move staling.
pub struct StaleMoveQueue(pub VecDeque<AttackKind>);

/// The hitboxes of one attack.
#[derive(Clone, Debug)]
pub struct FighterAttackScript {
    pub hitboxes: Vec<AttackHitbox>,
}

/// Weight that gives a weight modifier of exactly one (`100`).
pub const BASELINE_WEIGHT_BITS: i32 = 6553600;

/// Gain on the weight-scaled damage term (`1.4`).
pub const KB_GAIN_BITS: i32 = 91750;

/// Floor added to the damage term before growth scales it (`18`).
pub const KB_OFFSET_BITS: i32 = 1179648;

/// Knockback growth is authored in percent (`0.01`).
pub const KB_GROWTH_SCALE_BITS: i32 = 655;

/// Divisor of the receiver's damage in the damage term (`20`).
pub const DAMAGE_TERM_DIVISOR_BITS: i32 = 1310720;

/// Added to the attack's damage in the damage term (`2`).
pub const DAMAGE_BONUS_BITS: i32 = 131072;

/// Multiplier when the receiver's smash charge was interrupted (`1.2`).
pub const CHARGE_SMASH_INTERRUPTION_MODIFIER_BITS: i32 = 78643;

/// Multiplier when the receiver is crouching (`0.666667`).
pub const CROUCH_CANCEL_MODIFIER_BITS: i32 = 43691;

/// The modifier applied to the whole knockback.
pub open spec fn knockback_modifier(interrupted_smash_charge: bool, receiver_crouching: bool) -> int {
    if interrupted_smash_charge {
        78643
    } else if receiver_crouching {
        43691
    } else {
        65536
    }
}

/// The intermediate values of the knockback formula, each in Q16.16 bits:
/// `s` (scaled growth), `p` (receiver damage), `t` (damage over the divisor),
/// `db` (damage plus bonus), `dt` (damage term), `num` (damage term times
/// twice the baseline weight), `den` (weight plus baseline), `sc` (weight
/// scaled term), `g` (gained), `o` (plus offset), `gr` (times growth) and
/// `kb` (plus base knockback).
pub open spec fn knockback_terms(
    damage: int,
    growth: int,
    base: int,
    weight: int,
    receiver_damage: int,
    this_frame: int,
) -> Seq<int> {
    let s = q16_mul(655, growth);
    let p = (receiver_damage / 65536) * 65536 + this_frame;
    let t = q16_div(p, 1310720);
    let db = damage + 131072;
    let dt = q16_mul(t, db);
    let num = q16_mul(dt, 13107200);
    let den = weight + 6553600;
    let sc = q16_div(num, den);
    let g = q16_mul(sc, 91750);
    let o = g + 1179648;
    let gr = q16_mul(o, s);
    let kb = gr + base;
    seq![s, p, t, db, dt, num, den, sc, g, o, gr, kb]
}

/// Every step of the knockback formula fits in Q16.16 and nothing divides
/// by zero.
pub open spec fn knockback_fits(
    damage: int,
    growth: int,
    base: int,
    weight: int,
    receiver_damage: int,
    this_frame: int,
    modifier: int,
) -> bool {
    let v = knockback_terms(damage, growth, base, weight, receiver_damage, this_frame);
    &&& forall|i: int| 0 <= i < 12 ==> i32_fits(#[trigger] v[i])
    &&& v[6] != 0
    &&& i32_fits(q16_mul(modifier, v[11]))
}

/// The knockback, in Q16.16 bits.
pub open spec fn knockback_bits(
    damage: int,
    growth: int,
    base: int,
    weight: int,
    receiver_damage: int,
    this_frame: int,
    modifier: int,
) -> int {
    q16_mul(modifier, knockback_terms(damage, growth, base, weight, receiver_damage, this_frame)[11])
}

impl AttackHitbox {
    /// Knockback of this hitbox on a receiver:
    /// `modifier * (((p / 20) * (d + 2) * 200 / (weight + 100) * 1.4 + 18) * (growth * 0.01) + base)`,
    /// where `p` is the receiver's damage rounded down plus the damage it
    /// took this frame and `d` is this hitbox's damage.
    pub fn calculate_knockback(
        &self,
        attack: AttackKind,
        receiver_attribs: &FighterAttributes,
        receiver_damage: FighterDamage,
        total_damage_received_this_frame: FighterDamage,
        interrupted_smash_charge: bool,
        receiver_crouching: bool,
    ) -> (r: Knockback)
        requires
            knockback_fits(
                self.damage.0.bits as int,
                self.knockback_growth.bits as int,
                self.knockback.0.bits as int,
                receiver_attribs.weight.bits as int,
                receiver_damage.0.bits as int,
                total_damage_received_this_frame.0.bits as int,
                knockback_modifier(interrupted_smash_charge, receiver_crouching),
            ),
        ensures
            r.0.bits == knockback_bits(
                self.damage.0.bits as int,
                self.knockback_growth.bits as int,
                self.knockback.0.bits as int,
                receiver_attribs.weight.bits as int,
                receiver_damage.0.bits as int,
                total_damage_received_this_frame.0.bits as int,
                knockback_modifier(interrupted_smash_charge, receiver_crouching),
            ),
    {
        let ghost v = knockback_terms(
            self.damage.0.bits as int,
            self.knockback_growth.bits as int,
            self.knockback.0.bits as int,
            receiver_attribs.weight.bits as int,
            receiver_damage.0.bits as int,
            total_damage_received_this_frame.0.bits as int,
        );
        proof {
            assert(i32_fits(v[0]) && i32_fits(v[1]) && i32_fits(v[2]) && i32_fits(v[3]));
            assert(i32_fits(v[4]) && i32_fits(v[5]) && i32_fits(v[6]) && i32_fits(v[7]));
            assert(i32_fits(v[8]) && i32_fits(v[9]) && i32_fits(v[10]) && i32_fits(v[11]));
        }
        let baseline_weight = FGi32::from_bits(BASELINE_WEIGHT_BITS);
        let one = FGi32::one();
        let modifier = if interrupted_smash_charge {
            one.mul(FGi32::from_bits(CHARGE_SMASH_INTERRUPTION_MODIFIER_BITS))
        } else if receiver_crouching {
            one.mul(FGi32::from_bits(CROUCH_CANCEL_MODIFIER_BITS))
        } else {
            one
        };
        let s = FGi32::from_bits(KB_GROWTH_SCALE_BITS).mul(self.knockback_growth);
        let p = receiver_damage.0.floor().add(total_damage_received_this_frame.0);
        let d = self.damage.0;
        let t = p.div(FGi32::from_bits(DAMAGE_TERM_DIVISOR_BITS));
        let damage_term = t.mul(d.add(FGi32::from_bits(DAMAGE_BONUS_BITS)));
        let two_weights = FGi32::from_int(2).mul(baseline_weight);
        let num = damage_term.mul(two_weights);
        let scaled = num.div(receiver_attribs.weight.add(baseline_weight));
        let gained = scaled.mul(FGi32::from_bits(KB_GAIN_BITS)).add(FGi32::from_bits(KB_OFFSET_BITS));
        let kb = gained.mul(s).add(self.knockback.0);
        Knockback(modifier.mul(kb))
    }
}

/// Whether a hitbox is live on `frame`.
pub open spec fn hitbox_active(hb: AttackHitbox, frame: u32) -> bool {
    hb.start_frame <= frame && hb.end_frame > frame
}

/// The indices below `n` of the hitboxes live on `frame`, in order.
pub open spec fn active_hitbox_indices(hitboxes: Seq<AttackHitbox>, frame: u32, n: int) -> Seq<usize>
    decreases n,
{
    if n <= 0 {
        Seq::empty()
    } else {
        let rest = active_hitbox_indices(hitboxes, frame, n - 1);
        if hitbox_active(hitboxes[n - 1], frame) {
            rest.push((n - 1) as usize)
        } else {
            rest
        }
    }
}

/// Replaces `list` with the indices of the script's hitboxes that are live
/// on `frame`, in order.
pub fn update_active_hitbox_list(script: &FighterAttackScript, list: &mut Vec<usize>, frame: u32)
    ensures
        final(list)@ == active_hitbox_indices(script.hitboxes@, frame, script.hitboxes@.len() as int),
{
    let mut out: Vec<usize> = Vec::new();
    let mut i: usize = 0;
    while i < script.hitboxes.len()
        invariant
            i <= script.hitboxes@.len(),
            out@ == active_hitbox_indices(script.hitboxes@, frame, i as int),
        decreases script.hitboxes@.len() - i,
    {
        let hb = &script.hitboxes[i];
        if hb.start_frame <= frame && hb.end_frame > frame {
            out.push(i);
        }
        i = i + 1;
    }
    *list = out;
}


/// The attack scripts of a fighter, by attack.
#[derive(Clone, Debug)]
pub struct FighterAttackScriptAssets {
    pub scripts: Vec<(AttackKind, FighterAttackScript)>,
}

/// `j` is the first entry of `scripts` for `kind`.
pub open spec fn is_first_script(scripts: Seq<(AttackKind, FighterAttackScript)>, kind: AttackKind, j: int) -> bool {
    &&& 0 <= j < scripts.len()
    &&& scripts[j].0 == kind
    &&& forall|k: int| 0 <= k < j ==> (#[trigger] scripts[k]).0 != kind
}

/// The script of `kind`, as listed first.
pub open spec fn script_of(scripts: Seq<(AttackKind, FighterAttackScript)>, kind: AttackKind) -> Option<FighterAttackScript> {
    if exists|j: int| is_first_script(scripts, kind, j) {
        Some(scripts[choose|j: int| is_first_script(scripts, kind, j)].1)
    } else {
        None
    }
}

impl FighterAttackScriptAssets {
    /// No attack is listed twice, as in a map from attack to script.
    pub open spec fn keyed(&self) -> bool {
        keys_unique(self.scripts@)
    }
}

/// Where no attack is listed twice, the script listed first for an attack
/// is the one the map from attack to script holds.
pub proof fn script_lookup_is_map_lookup(scripts: Seq<(AttackKind, FighterAttackScript)>, kind: AttackKind)
    requires
        keys_unique(scripts),
    ensures
        script_of(scripts, kind) == (if entries_map(scripts).contains_key(kind) {
            Some(entries_map(scripts)[kind])
        } else {
            None
        }),
{
    if exists|j: int| is_first_script(scripts, kind, j) {
        let c = choose|j: int| is_first_script(scripts, kind, j);
        entry_is_the_map_value(scripts, kind, c);
    } else {
        assert forall|j: int| 0 <= j < scripts.len() implies (#[trigger] scripts[j]).0 != kind by {
            if scripts[j].0 == kind {
                assert forall|k: int| 0 <= k < j implies (#[trigger] scripts[k]).0 != kind by {
                    assert(scripts[k].0 != scripts[j].0);
                }
                assert(is_first_script(scripts, kind, j));
            }
        }
        missing_key_is_not_mapped(scripts, kind);
    }
}

impl FighterAttackScriptAssets {
    /// The script of an attack.
    pub fn get(&self, kind: AttackKind) -> (r: Option<&FighterAttackScript>)
        ensures
            match r {
                Some(s) => script_of(self.scripts@, kind) == Some(*s),
                None => script_of(self.scripts@, kind) is None,
            },
    {
        let mut i: usize = 0;
        while i < self.scripts.len()
            invariant
                i <= self.scripts@.len(),
                forall|k: int| 0 <= k < i ==> (#[trigger] self.scripts@[k]).0 != kind,
            decreases self.scripts@.len() - i,
        {
            if self.scripts[i].0 == kind {
                proof {
                    assert(is_first_script(self.scripts@, kind, i as int));
                    let c = choose|j: int| is_first_script(self.scripts@, kind, j);
                    if c < i {
                        assert(self.scripts@[c].0 != kind);
                    } else if c > i {
                        assert(self.scripts@[i as int].0 != kind);
                    }
                }
                return Some(&self.scripts[i].1);
            }
            i = i + 1;
        }
        proof {
            assert forall|j: int| !is_first_script(self.scripts@, kind, j) by {
                if 0 <= j < self.scripts@.len() {
                    assert(self.scripts@[j].0 != kind);
                }
            }
        }
        None
    }
}


/// A hurtbox of the manifest, placed in the world.
#[derive(Clone, Copy, PartialEq, Eq, Debug)]
pub struct FighterSolvedHurtbox {
    pub hurtbox_idx: usize,
    pub capsule: FixedAffineCapsule,
}

/// The hurtboxes of a fighter, placed in the world this frame.
#[derive(Clone, Debug)]
pub struct FighterSolvedHurtboxes(pub Vec<FighterSolvedHurtbox>);

/// The current model-space matrix of the first bone so named.
pub open spec fn bone_current(matrices: FighterBoneMatrices, bone: Seq<char>) -> Option<FixedMat4> {
    match name_position(matrices.names(), bone) {
        Some(i) => if i < matrices.current().len() {
            Some(matrices.current()[i])
        } else {
            None
        },
        None => None,
    }
}

/// The hurtbox's transform relative to its bone: its rotation (given in
/// degrees), then its offset.
pub open spec fn hurtbox_local(h: FighterHurtbox) -> FixedMat4 {
    rotation_translation(
        FGVec3 {
            x: FGi32 { bits: to_radians_spec(h.rotation.x.bits as int) as i32 },
            y: FGi32 { bits: to_radians_spec(h.rotation.y.bits as int) as i32 },
            z: FGi32 { bits: to_radians_spec(h.rotation.z.bits as int) as i32 },
        },
        h.offset,
    )
}

/// The world transform of a hurtbox on a bone whose model-space matrix is
/// `bone`.
pub open spec fn hurtbox_world(fighter: FixedMat4, bone: FixedMat4, h: FighterHurtbox) -> FixedMat4 {
    mat4_product(mat4_product(fighter, bone), hurtbox_local(h))
}

pub open spec fn hurtbox_world_fits(fighter: FixedMat4, bone: FixedMat4, h: FighterHurtbox) -> bool {
    mat4_mul_fits(fighter, bone) && mat4_mul_fits(mat4_product(fighter, bone), hurtbox_local(h))
}

/// The hurtboxes among the first `n` whose bone the pose has, placed in the
/// world, in order.
pub open spec fn solved_prefix(
    fighter: FixedMat4,
    matrices: FighterBoneMatrices,
    hurtboxes: Seq<FighterHurtbox>,
    n: int,
) -> Seq<FighterSolvedHurtbox>
    decreases n,
{
    if n <= 0 {
        Seq::empty()
    } else {
        let rest = solved_prefix(fighter, matrices, hurtboxes, n - 1);
        let h = hurtboxes[n - 1];
        match bone_current(matrices, h.bone@) {
            Some(bone) => rest.push(
                FighterSolvedHurtbox {
                    hurtbox_idx: (n - 1) as usize,
                    capsule: FixedAffineCapsule {
                        transform: hurtbox_world(fighter, bone, h),
                        half_length: h.half_length,
                        radius: h.radius,
                    },
                },
            ),
            None => rest,
        }
    }
}

/// Every hurtbox whose bone the pose has can be placed without overflow.
pub open spec fn solve_fits(fighter: FixedMat4, matrices: FighterBoneMatrices, hurtboxes: Seq<FighterHurtbox>) -> bool {
    forall|i: int|
        0 <= i < hurtboxes.len() ==> (#[trigger] bone_current(matrices, hurtboxes[i].bone@) matches Some(bone)
            ==> hurtbox_world_fits(fighter, bone, hurtboxes[i]))
}

/// Places a fighter's hurtboxes in the world from its pose, position and
/// facing; a hurtbox whose bone the pose lacks is left out.
pub fn solve_hurtboxes(
    matrices: &FighterBoneMatrices,
    translation: &FighterTranslation,
    facing_direction: &FighterFacingDirection,
    manifest: &FighterManifest,
    solved_hurtboxes: &mut FighterSolvedHurtboxes,
)
    requires
        solve_fits(fighter_transform(*translation, *facing_direction), *matrices, manifest.hurtboxes@),
    ensures
        final(solved_hurtboxes).0@ == solved_prefix(
            fighter_transform(*translation, *facing_direction),
            *matrices,
            manifest.hurtboxes@,
            manifest.hurtboxes@.len() as int,
        ),
{
    let fighter_trf = translation.get_3d_transform(facing_direction);
    solved_hurtboxes.0.clear();
    let mut i: usize = 0;
    while i < manifest.hurtboxes.len()
        invariant
            i <= manifest.hurtboxes@.len(),
            fighter_trf == fighter_transform(*translation, *facing_direction),
            solve_fits(fighter_trf, *matrices, manifest.hurtboxes@),
            solved_hurtboxes.0@ == solved_prefix(fighter_trf, *matrices, manifest.hurtboxes@, i as int),
        decreases manifest.hurtboxes@.len() - i,
    {
        let hurtbox = &manifest.hurtboxes[i];
        proof {
            assert(bone_current(*matrices, manifest.hurtboxes@[i as int].bone@) == bone_current(*matrices, hurtbox.bone@));
        }
        if let Some(bone_matrix) = matrices.get_current(hurtbox.bone.as_str()) {
            let to_global = fighter_trf.mul(bone_matrix);
            proof {
                lemma_product_is_mat4_product(to_global, fighter_trf, bone_matrix);
            }
            let hurtbox_trf = FixedMat4::from_rotation_translation(
                FGVec3::new(
                    hurtbox.rotation.x.to_radians(),
                    hurtbox.rotation.y.to_radians(),
                    hurtbox.rotation.z.to_radians(),
                ),
                hurtbox.offset,
            );
            let world = to_global.mul(hurtbox_trf);
            proof {
                lemma_product_is_mat4_product(world, to_global, hurtbox_trf);
            }
            solved_hurtboxes.0.push(
                FighterSolvedHurtbox {
                    hurtbox_idx: i,
                    capsule: FixedAffineCapsule::new(world, hurtbox.half_length, hurtbox.radius),
                },
            );
        }
        i = i + 1;
    }
}


/// The active list holds exactly the hitboxes live on the frame, each once,
/// in increasing order.
pub proof fn active_hitboxes_are_exactly_the_live_ones(hitboxes: Seq<AttackHitbox>, frame: u32, n: int)
    requires
        0 <= n <= hitboxes.len(),
        n <= usize::MAX,
    ensures
        forall|k: usize| active_hitbox_indices(hitboxes, frame, n).contains(k) <==> k < n && hitbox_active(hitboxes[k as int], frame),
        forall|i: int, j: int|
            0 <= i < j < active_hitbox_indices(hitboxes, frame, n).len() ==> active_hitbox_indices(hitboxes, frame, n)[i]
                < active_hitbox_indices(hitboxes, frame, n)[j],
        forall|i: int|
            0 <= i < active_hitbox_indices(hitboxes, frame, n).len() ==> active_hitbox_indices(hitboxes, frame, n)[i] < n,
    decreases n,
{
    if n > 0 {
        active_hitboxes_are_exactly_the_live_ones(hitboxes, frame, n - 1);
        let rest = active_hitbox_indices(hitboxes, frame, n - 1);
        let all = active_hitbox_indices(hitboxes, frame, n);
        if hitbox_active(hitboxes[n - 1], frame) {
            assert(all == rest.push((n - 1) as usize));
            assert forall|i: int, j: int| 0 <= i < j < all.len() implies all[i] < all[j] by {
                if j == rest.len() {
                    assert(all[i] == rest[i]);
                    assert(rest[i] < n - 1);
                } else {
                    assert(all[i] == rest[i] && all[j] == rest[j]);
                }
            }
            assert forall|i: int| 0 <= i < all.len() implies all[i] < n by {
                if i < rest.len() {
                    assert(all[i] == rest[i]);
                }
            }
            assert forall|k: usize| all.contains(k) <==> k < n && hitbox_active(hitboxes[k as int], frame) by {
                if all.contains(k) {
                    let q = choose|q: int| 0 <= q < all.len() && all[q] == k;
                    if q < rest.len() {
                        assert(rest[q] == k);
                        assert(rest.contains(k));
                    } else {
                        assert(k == n - 1);
                    }
                }
                if k < n && hitbox_active(hitboxes[k as int], frame) {
                    if k == n - 1 {
                        assert(all[rest.len() as int] == k);
                    } else {
                        assert(rest.contains(k));
                        let q = choose|q: int| 0 <= q < rest.len() && rest[q] == k;
                        assert(all[q] == k);
                    }
                }
            }
        } else {
            assert forall|k: usize| all.contains(k) <==> k < n && hitbox_active(hitboxes[k as int], frame) by {
                if k == n - 1 {
                    assert(!rest.contains(k));
                }
            }
        }
    }
}

} // verus!
