//! The bonus stat catalog: the closed set of stat kinds, the numeric range
//! each kind is rolled from, and the smaller range each upgrade adds from.
//!
//! Fractional kinds (percentages and per-second rates) carry their payload
//! in ten-thousandths of a unit, so that a share of `0.17` is stored as
//! `1700`; every generation and upgrade bound below is exact in that scale.
//! Flat kinds carry plain amounts, two of them (armor and magic resistance)
//! in 32 bits as the narrower balance data calls for.

use vstd::prelude::*;

verus! {

use crate::rng::RngSource;

/// How many ten-thousandths make one unit of a fractional payload.
pub const PERCENT_SCALE: u64 = 10_000;

/// How many stat kinds the catalog holds.  Every uniform draw over the
/// catalog ranges over exactly this many codes, so it must change in
/// lockstep with the enumeration below.
pub const BONUS_STAT_TYPE_COUNT: u64 = 16;

/// The closed set of bonus stat kinds, used as the unique key of a sub
/// stat.  The order here is the canonical order of the catalog.
#[derive(Clone, Copy, PartialEq, Eq, Structural, Debug, Hash)]
pub enum BonusStatType {
    MaxHealthFlat,
    MaxHealthPercent,
    HealthRegen,
    MaxManaFlat,
    MaxManaPercent,
    ManaRegen,
    AttackDamageFlat,
    AttackDamagePercent,
    AttackSpeed,
    MagicDamageFlat,
    MagicDamagePercent,
    ArmorFlat,
    ArmorPercent,
    MagicResistanceFlat,
    MagicResistancePercent,
    DodgeChance,
}

/// The position of a kind in the catalog's canonical order.
pub open spec fn type_index(t: BonusStatType) -> nat {
    match t {
        BonusStatType::MaxHealthFlat => 0,
        BonusStatType::MaxHealthPercent => 1,
        BonusStatType::HealthRegen => 2,
        BonusStatType::MaxManaFlat => 3,
        BonusStatType::MaxManaPercent => 4,
        BonusStatType::ManaRegen => 5,
        BonusStatType::AttackDamageFlat => 6,
        BonusStatType::AttackDamagePercent => 7,
        BonusStatType::AttackSpeed => 8,
        BonusStatType::MagicDamageFlat => 9,
        BonusStatType::MagicDamagePercent => 10,
        BonusStatType::ArmorFlat => 11,
        BonusStatType::ArmorPercent => 12,
        BonusStatType::MagicResistanceFlat => 13,
        BonusStatType::MagicResistancePercent => 14,
        BonusStatType::DodgeChance => 15,
    }
}

impl BonusStatType {
    /// The position of this kind in the catalog's canonical order.
    pub fn code(&self) -> (r: u64)
        ensures
            r == type_index(*self),
    {
        match self {
            BonusStatType::MaxHealthFlat => 0,
            BonusStatType::MaxHealthPercent => 1,
            BonusStatType::HealthRegen => 2,
            BonusStatType::MaxManaFlat => 3,
            BonusStatType::MaxManaPercent => 4,
            BonusStatType::ManaRegen => 5,
            BonusStatType::AttackDamageFlat => 6,
            BonusStatType::AttackDamagePercent => 7,
            BonusStatType::AttackSpeed => 8,
            BonusStatType::MagicDamageFlat => 9,
            BonusStatType::MagicDamagePercent => 10,
            BonusStatType::ArmorFlat => 11,
            BonusStatType::ArmorPercent => 12,
            BonusStatType::MagicResistanceFlat => 13,
            BonusStatType::MagicResistancePercent => 14,
            BonusStatType::DodgeChance => 15,
        }
    }

    /// The kind at a position of the catalog's canonical order.
    pub fn from_code(code: u64) -> (r: BonusStatType)
        requires
            code < BONUS_STAT_TYPE_COUNT,
        ensures
            type_index(r) == code,
    {
        if code == 0 {
            BonusStatType::MaxHealthFlat
        } else if code == 1 {
            BonusStatType::MaxHealthPercent
        } else if code == 2 {
            BonusStatType::HealthRegen
        } else if code == 3 {
            BonusStatType::MaxManaFlat
        } else if code == 4 {
            BonusStatType::MaxManaPercent
        } else if code == 5 {
            BonusStatType::ManaRegen
        } else if code == 6 {
            BonusStatType::AttackDamageFlat
        } else if code == 7 {
            BonusStatType::AttackDamagePercent
        } else if code == 8 {
            BonusStatType::AttackSpeed
        } else if code == 9 {
            BonusStatType::MagicDamageFlat
        } else if code == 10 {
            BonusStatType::MagicDamagePercent
        } else if code == 11 {
            BonusStatType::ArmorFlat
        } else if code == 12 {
            BonusStatType::ArmorPercent
        } else if code == 13 {
            BonusStatType::MagicResistanceFlat
        } else if code == 14 {
            BonusStatType::MagicResistancePercent
        } else {
            BonusStatType::DodgeChance
        }
    }

    /// A uniform pick over the whole catalog: each of the
    /// `BONUS_STAT_TYPE_COUNT` kinds has equal weight.
    pub fn random(rng: &mut RngSource) -> BonusStatType {
        let code = rng.pick_u64(0, BONUS_STAT_TYPE_COUNT);
        BonusStatType::from_code(code)
    }

    /// A uniform pick restricted to a caller-supplied set of candidates;
    /// nothing is picked from an empty set.
    pub fn random_from(candidates: &Vec<BonusStatType>, rng: &mut RngSource) -> (r: Option<
        BonusStatType,
    >)
        ensures
            r is Some <==> candidates@.len() > 0,
            r matches Some(t) ==> candidates@.contains(t),
    {
        if candidates.len() == 0 {
            None
        } else {
            let i = rng.pick_index(candidates.len());
            let t = candidates[i];
            proof {
                assert(candidates@.contains(candidates@[i as int]));
            }
            Some(t)
        }
    }
}

/// One rolled bonus stat: the variant is its kind, the payload its amount.
/// Fractional kinds hold ten-thousandths of a unit.
#[derive(Clone, Copy, PartialEq, Eq, Structural, Debug)]
pub enum BonusStat {
    MaxHealthFlat(u64),
    MaxHealthPercent(u64),
    HealthRegen(u64),
    MaxManaFlat(u64),
    MaxManaPercent(u64),
    ManaRegen(u64),
    AttackDamageFlat(u64),
    AttackDamagePercent(u64),
    AttackSpeed(u64),
    MagicDamageFlat(u64),
    MagicDamagePercent(u64),
    ArmorFlat(u32),
    ArmorPercent(u64),
    MagicResistanceFlat(u32),
    MagicResistancePercent(u64),
    DodgeChance(u64),
}

/// The kind a rolled stat belongs to.
pub open spec fn tag_of(s: BonusStat) -> BonusStatType {
    match s {
        BonusStat::MaxHealthFlat(_) => BonusStatType::MaxHealthFlat,
        BonusStat::MaxHealthPercent(_) => BonusStatType::MaxHealthPercent,
        BonusStat::HealthRegen(_) => BonusStatType::HealthRegen,
        BonusStat::MaxManaFlat(_) => BonusStatType::MaxManaFlat,
        BonusStat::MaxManaPercent(_) => BonusStatType::MaxManaPercent,
        BonusStat::ManaRegen(_) => BonusStatType::ManaRegen,
        BonusStat::AttackDamageFlat(_) => BonusStatType::AttackDamageFlat,
        BonusStat::AttackDamagePercent(_) => BonusStatType::AttackDamagePercent,
        BonusStat::AttackSpeed(_) => BonusStatType::AttackSpeed,
        BonusStat::MagicDamageFlat(_) => BonusStatType::MagicDamageFlat,
        BonusStat::MagicDamagePercent(_) => BonusStatType::MagicDamagePercent,
        BonusStat::ArmorFlat(_) => BonusStatType::ArmorFlat,
        BonusStat::ArmorPercent(_) => BonusStatType::ArmorPercent,
        BonusStat::MagicResistanceFlat(_) => BonusStatType::MagicResistanceFlat,
        BonusStat::MagicResistancePercent(_) => BonusStatType::MagicResistancePercent,
        BonusStat::DodgeChance(_) => BonusStatType::DodgeChance,
    }
}

/// The numeric payload of a rolled stat.
pub open spec fn value_of(s: BonusStat) -> nat {
    match s {
        BonusStat::MaxHealthFlat(v) => v as nat,
        BonusStat::MaxHealthPercent(v) => v as nat,
        BonusStat::HealthRegen(v) => v as nat,
        BonusStat::MaxManaFlat(v) => v as nat,
        BonusStat::MaxManaPercent(v) => v as nat,
        BonusStat::ManaRegen(v) => v as nat,
        BonusStat::AttackDamageFlat(v) => v as nat,
        BonusStat::AttackDamagePercent(v) => v as nat,
        BonusStat::AttackSpeed(v) => v as nat,
        BonusStat::MagicDamageFlat(v) => v as nat,
        BonusStat::MagicDamagePercent(v) => v as nat,
        BonusStat::ArmorFlat(v) => v as nat,
        BonusStat::ArmorPercent(v) => v as nat,
        BonusStat::MagicResistanceFlat(v) => v as nat,
        BonusStat::MagicResistancePercent(v) => v as nat,
        BonusStat::DodgeChance(v) => v as nat,
    }
}

/// The largest payload a kind can carry: 32 bits for the two narrow flat
/// kinds, 64 bits for the rest.
pub open spec fn payload_max(t: BonusStatType) -> nat {
    match t {
        BonusStatType::ArmorFlat => 0xFFFF_FFFF,
        BonusStatType::MagicResistanceFlat => 0xFFFF_FFFF,
        _ => 0xFFFF_FFFF_FFFF_FFFF,
    }
}

/// A payload never exceeds the width of the variant that carries it.
pub proof fn lemma_value_bounded(s: BonusStat)
    ensures
        value_of(s) <= payload_max(tag_of(s)),
{
}

/// The inclusive lower bound a kind's initial value is rolled from.
pub open spec fn gen_low(t: BonusStatType) -> nat {
    match t {
        BonusStatType::MaxHealthFlat => 77,
        BonusStatType::MaxHealthPercent => 1700,
        BonusStatType::HealthRegen => 200,
        BonusStatType::MaxManaFlat => 27,
        BonusStatType::MaxManaPercent => 1700,
        BonusStatType::ManaRegen => 200,
        BonusStatType::AttackDamageFlat => 17,
        BonusStatType::AttackDamagePercent => 1700,
        BonusStatType::AttackSpeed => 200,
        BonusStatType::MagicDamageFlat => 17,
        BonusStatType::MagicDamagePercent => 1700,
        BonusStatType::ArmorFlat => 17,
        BonusStatType::ArmorPercent => 1700,
        BonusStatType::MagicResistanceFlat => 17,
        BonusStatType::MagicResistancePercent => 1700,
        BonusStatType::DodgeChance => 200,
    }
}

/// The exclusive upper bound a kind's initial value is rolled from.
pub open spec fn gen_high(t: BonusStatType) -> nat {
    match t {
        BonusStatType::MaxHealthFlat => 137,
        BonusStatType::MaxHealthPercent => 3700,
        BonusStatType::HealthRegen => 700,
        BonusStatType::MaxManaFlat => 57,
        BonusStatType::MaxManaPercent => 3700,
        BonusStatType::ManaRegen => 700,
        BonusStatType::AttackDamageFlat => 47,
        BonusStatType::AttackDamagePercent => 3700,
        BonusStatType::AttackSpeed => 700,
        BonusStatType::MagicDamageFlat => 47,
        BonusStatType::MagicDamagePercent => 3700,
        BonusStatType::ArmorFlat => 47,
        BonusStatType::ArmorPercent => 3700,
        BonusStatType::MagicResistanceFlat => 47,
        BonusStatType::MagicResistancePercent => 3700,
        BonusStatType::DodgeChance => 700,
    }
}

/// The inclusive lower bound a kind's upgrade increment is rolled from.
pub open spec fn upgrade_low(t: BonusStatType) -> nat {
    match t {
        BonusStatType::MaxHealthFlat => 27,
        BonusStatType::MaxHealthPercent => 700,
        BonusStatType::HealthRegen => 100,
        BonusStatType::MaxManaFlat => 12,
        BonusStatType::MaxManaPercent => 700,
        BonusStatType::ManaRegen => 100,
        BonusStatType::AttackDamageFlat => 7,
        BonusStatType::AttackDamagePercent => 700,
        BonusStatType::AttackSpeed => 100,
        BonusStatType::MagicDamageFlat => 7,
        BonusStatType::MagicDamagePercent => 1000,
        BonusStatType::ArmorFlat => 7,
        BonusStatType::ArmorPercent => 1000,
        BonusStatType::MagicResistanceFlat => 7,
        BonusStatType::MagicResistancePercent => 700,
        BonusStatType::DodgeChance => 100,
    }
}

/// The exclusive upper bound a kind's upgrade increment is rolled from.
pub open spec fn upgrade_high(t: BonusStatType) -> nat {
    match t {
        BonusStatType::MaxHealthFlat => 57,
        BonusStatType::MaxHealthPercent => 2200,
        BonusStatType::HealthRegen => 400,
        BonusStatType::MaxManaFlat => 37,
        BonusStatType::MaxManaPercent => 2200,
        BonusStatType::ManaRegen => 400,
        BonusStatType::AttackDamageFlat => 27,
        BonusStatType::AttackDamagePercent => 2200,
        BonusStatType::AttackSpeed => 400,
        BonusStatType::MagicDamageFlat => 27,
        BonusStatType::MagicDamagePercent => 2200,
        BonusStatType::ArmorFlat => 27,
        BonusStatType::ArmorPercent => 2200,
        BonusStatType::MagicResistanceFlat => 27,
        BonusStatType::MagicResistancePercent => 2200,
        BonusStatType::DodgeChance => 400,
    }
}

/// The generation bounds of a kind, as machine words.
fn gen_bounds(t: BonusStatType) -> (r: (u64, u64))
    ensures
        r.0 == gen_low(t),
        r.1 == gen_high(t),
        r.0 < r.1,
{
    match t {
        BonusStatType::MaxHealthFlat => (77, 137),
        BonusStatType::MaxHealthPercent => (1700, 3700),
        BonusStatType::HealthRegen => (200, 700),
        BonusStatType::MaxManaFlat => (27, 57),
        BonusStatType::MaxManaPercent => (1700, 3700),
        BonusStatType::ManaRegen => (200, 700),
        BonusStatType::AttackDamageFlat => (17, 47),
        BonusStatType::AttackDamagePercent => (1700, 3700),
        BonusStatType::AttackSpeed => (200, 700),
        BonusStatType::MagicDamageFlat => (17, 47),
        BonusStatType::MagicDamagePercent => (1700, 3700),
        BonusStatType::ArmorFlat => (17, 47),
        BonusStatType::ArmorPercent => (1700, 3700),
        BonusStatType::MagicResistanceFlat => (17, 47),
        BonusStatType::MagicResistancePercent => (1700, 3700),
        BonusStatType::DodgeChance => (200, 700),
    }
}

/// The upgrade bounds of a kind, as machine words.
fn upgrade_bounds(t: BonusStatType) -> (r: (u64, u64))
    ensures
        r.0 == upgrade_low(t),
        r.1 == upgrade_high(t),
        r.0 < r.1,
{
    match t {
        BonusStatType::MaxHealthFlat => (27, 57),
        BonusStatType::MaxHealthPercent => (700, 2200),
        BonusStatType::HealthRegen => (100, 400),
        BonusStatType::MaxManaFlat => (12, 37),
        BonusStatType::MaxManaPercent => (700, 2200),
        BonusStatType::ManaRegen => (100, 400),
        BonusStatType::AttackDamageFlat => (7, 27),
        BonusStatType::AttackDamagePercent => (700, 2200),
        BonusStatType::AttackSpeed => (100, 400),
        BonusStatType::MagicDamageFlat => (7, 27),
        BonusStatType::MagicDamagePercent => (1000, 2200),
        BonusStatType::ArmorFlat => (7, 27),
        BonusStatType::ArmorPercent => (1000, 2200),
        BonusStatType::MagicResistanceFlat => (7, 27),
        BonusStatType::MagicResistancePercent => (700, 2200),
        BonusStatType::DodgeChance => (100, 400),
    }
}

/// The one producer of a rolled stat value: the variant always matches the
/// kind.
fn make_stat(t: BonusStatType, v: u64) -> (s: BonusStat)
    requires
        v <= payload_max(t),
    ensures
        tag_of(s) == t,
        value_of(s) == v,
{
    match t {
        BonusStatType::MaxHealthFlat => BonusStat::MaxHealthFlat(v),
        BonusStatType::MaxHealthPercent => BonusStat::MaxHealthPercent(v),
        BonusStatType::HealthRegen => BonusStat::HealthRegen(v),
        BonusStatType::MaxManaFlat => BonusStat::MaxManaFlat(v),
        BonusStatType::MaxManaPercent => BonusStat::MaxManaPercent(v),
        BonusStatType::ManaRegen => BonusStat::ManaRegen(v),
        BonusStatType::AttackDamageFlat => BonusStat::AttackDamageFlat(v),
        BonusStatType::AttackDamagePercent => BonusStat::AttackDamagePercent(v),
        BonusStatType::AttackSpeed => BonusStat::AttackSpeed(v),
        BonusStatType::MagicDamageFlat => BonusStat::MagicDamageFlat(v),
        BonusStatType::MagicDamagePercent => BonusStat::MagicDamagePercent(v),
        BonusStatType::ArmorFlat => BonusStat::ArmorFlat(v as u32),
        BonusStatType::ArmorPercent => BonusStat::ArmorPercent(v),
        BonusStatType::MagicResistanceFlat => BonusStat::MagicResistanceFlat(v as u32),
        BonusStatType::MagicResistancePercent => BonusStat::MagicResistancePercent(v),
        BonusStatType::DodgeChance => BonusStat::DodgeChance(v),
    }
}

impl BonusStat {
    /// The kind this stat belongs to.
    pub fn stat_kind(&self) -> (t: BonusStatType)
        ensures
            t == tag_of(*self),
    {
        match self {
            BonusStat::MaxHealthFlat(_) => BonusStatType::MaxHealthFlat,
            BonusStat::MaxHealthPercent(_) => BonusStatType::MaxHealthPercent,
            BonusStat::HealthRegen(_) => BonusStatType::HealthRegen,
            BonusStat::MaxManaFlat(_) => BonusStatType::MaxManaFlat,
            BonusStat::MaxManaPercent(_) => BonusStatType::MaxManaPercent,
            BonusStat::ManaRegen(_) => BonusStatType::ManaRegen,
            BonusStat::AttackDamageFlat(_) => BonusStatType::AttackDamageFlat,
            BonusStat::AttackDamagePercent(_) => BonusStatType::AttackDamagePercent,
            BonusStat::AttackSpeed(_) => BonusStatType::AttackSpeed,
            BonusStat::MagicDamageFlat(_) => BonusStatType::MagicDamageFlat,
            BonusStat::MagicDamagePercent(_) => BonusStatType::MagicDamagePercent,
            BonusStat::ArmorFlat(_) => BonusStatType::ArmorFlat,
            BonusStat::ArmorPercent(_) => BonusStatType::ArmorPercent,
            BonusStat::MagicResistanceFlat(_) => BonusStatType::MagicResistanceFlat,
            BonusStat::MagicResistancePercent(_) => BonusStatType::MagicResistancePercent,
            BonusStat::DodgeChance(_) => BonusStatType::DodgeChance,
        }
    }

    /// The numeric payload, widened to 64 bits where it is narrower.
    pub fn amount(&self) -> (v: u64)
        ensures
            v == value_of(*self),
    {
        match self {
            BonusStat::MaxHealthFlat(v) => *v,
            BonusStat::MaxHealthPercent(v) => *v,
            BonusStat::HealthRegen(v) => *v,
            BonusStat::MaxManaFlat(v) => *v,
            BonusStat::MaxManaPercent(v) => *v,
            BonusStat::ManaRegen(v) => *v,
            BonusStat::AttackDamageFlat(v) => *v,
            BonusStat::AttackDamagePercent(v) => *v,
            BonusStat::AttackSpeed(v) => *v,
            BonusStat::MagicDamageFlat(v) => *v,
            BonusStat::MagicDamagePercent(v) => *v,
            BonusStat::ArmorFlat(v) => *v as u64,
            BonusStat::ArmorPercent(v) => *v,
            BonusStat::MagicResistanceFlat(v) => *v as u64,
            BonusStat::MagicResistancePercent(v) => *v,
            BonusStat::DodgeChance(v) => *v,
        }
    }

    /// An initial roll of the given kind: a uniform draw from the kind's
    /// generation range.
    pub fn from_type(t: BonusStatType, rng: &mut RngSource) -> (s: BonusStat)
        ensures
            tag_of(s) == t,
            gen_low(t) <= value_of(s) < gen_high(t),
    {
        let bounds = gen_bounds(t);
        let v = rng.pick_u64(bounds.0, bounds.1);
        make_stat(t, v)
    }

    /// One reinforcement: a uniform draw from the kind's upgrade range,
    /// added onto the payload in place.  The kind never changes, the
    /// payload never shrinks, and an addition past the payload's width
    /// saturates there.
    pub fn upgrade(&mut self, rng: &mut RngSource)
        ensures
            tag_of(*final(self)) == tag_of(*old(self)),
            value_of(*final(self)) >= value_of(*old(self)),
            value_of(*final(self)) < value_of(*old(self)) + upgrade_high(tag_of(*old(self))),
            value_of(*old(self)) + upgrade_low(tag_of(*old(self))) <= payload_max(
                tag_of(*old(self)),
            ) ==> value_of(*final(self)) >= value_of(*old(self)) + upgrade_low(
                tag_of(*old(self)),
            ),
            value_of(*old(self)) + upgrade_low(tag_of(*old(self))) > payload_max(
                tag_of(*old(self)),
            ) ==> value_of(*final(self)) == payload_max(tag_of(*old(self))),
    {
        let t = self.stat_kind();
        let bounds = upgrade_bounds(t);
        let d = rng.pick_u64(bounds.0, bounds.1);
        let v = self.amount();
        let cap = match t {
            BonusStatType::ArmorFlat => 0xFFFF_FFFFu64,
            BonusStatType::MagicResistanceFlat => 0xFFFF_FFFFu64,
            _ => 0xFFFF_FFFF_FFFF_FFFFu64,
        };
        proof {
            assert(value_of(*self) <= payload_max(tag_of(*self)));
        }
        let nv = if v > cap - d {
            cap
        } else {
            v + d
        };
        *self = make_stat(t, nv);
    }
}

} // verus!
