//! Armor: a leveled item whose main stat is drawn from the defensive
//! kinds, with milestone side effects every five and ten levels.

use vstd::prelude::*;

verus! {

use crate::ident::new_id;
use crate::rng::RngSource;
use crate::xp_curve::XpCurve;
use crate::xp_curve::xp_required;
use crate::xp_curve::lemma_xp_required_at_least;
use crate::items::bonus_stats::BonusStat;
use crate::items::bonus_stats::BonusStatType;
use crate::items::bonus_stats::value_of;
use crate::items::bonus_stats::gen_low;
use crate::items::bonus_stats::gen_high;
use crate::items::gear::GearState;
use crate::items::gear::MilestonePolicy;
use crate::items::gear::advanced;
use crate::items::gear::capped_count;
use crate::items::gear::unlock_milestones;
use crate::items::gear::growth_bounds;
use crate::items::gear::sub_stats_growth;
use crate::items::gear::has_stat_type;
use crate::items::material::Material;
use crate::items::material::grant_of;
use crate::items::material::total_xp;

/// The kinds an armor piece may roll as its main stat.
pub open spec fn defensive_type(t: BonusStatType) -> bool {
    ||| t == BonusStatType::ArmorFlat
    ||| t == BonusStatType::ArmorPercent
    ||| t == BonusStatType::MagicResistanceFlat
    ||| t == BonusStatType::MagicResistancePercent
}

/// A piece of armor: identity, a name, and the progression state.
pub struct Armor {
    pub id: uuid::Uuid,
    pub name: String,
    pub state: GearState,
    pub policy: MilestonePolicy,
}

impl Armor {
    /// The structural invariant, including armor's milestone intervals:
    /// reinforcement every five levels, an unlock every ten.
    pub open spec fn wf(self) -> bool {
        &&& self.state.wf()
        &&& defensive_type(self.state.main_stat_type)
        &&& self.policy == (MilestonePolicy { reinforce_every: 5, unlock_every: 10 })
    }

    /// A fresh piece of armor at level one with an empty bar, no sub
    /// stats, and a main stat rolled from a uniformly drawn defensive
    /// kind.
    pub fn new(name: &str, rng: &mut RngSource) -> (a: Armor)
        ensures
            a.wf(),
            a.name@ == name@,
            a.state.level == 1,
            a.state.xp == 0,
            a.state.sub_stats@.len() == 0,
            gen_low(a.state.main_stat_type) <= value_of(a.state.main_stat) < gen_high(
                a.state.main_stat_type,
            ),
    {
        let mut candidates: Vec<BonusStatType> = Vec::new();
        candidates.push(BonusStatType::ArmorFlat);
        candidates.push(BonusStatType::ArmorPercent);
        candidates.push(BonusStatType::MagicResistanceFlat);
        candidates.push(BonusStatType::MagicResistancePercent);
        let t = match BonusStatType::random_from(&candidates, rng) {
            Some(t) => t,
            None => {
                proof {
                    assert(false);
                }
                BonusStatType::ArmorFlat
            },
        };
        proof {
            let i = choose|i: int| 0 <= i < candidates@.len() && candidates@[i] == t;
            assert(defensive_type(t));
        }
        let main_stat = BonusStat::from_type(t, rng);
        proof {
            lemma_xp_required_at_least(1);
        }
        Armor {
            id: new_id(),
            name: name.to_owned(),
            state: GearState {
                level: 1,
                xp: 0,
                main_stat_type: t,
                main_stat,
                sub_stats: Vec::new(),
            },
            policy: MilestonePolicy { reinforce_every: 5, unlock_every: 10 },
        }
    }

    /// The sole mutator: one atomic grant of experience, advanced as the
    /// shared algorithm says.
    pub fn advance(&mut self, grant: u64, rng: &mut RngSource)
        requires
            old(self).wf(),
        ensures
            final(self).wf(),
            final(self).name@ == old(self).name@,
            (final(self).state.level as nat, final(self).state.xp as nat) == advanced(
                old(self).state.level as nat,
                old(self).state.xp as nat,
                grant as nat,
            ),
            final(self).state.main_stat_type == old(self).state.main_stat_type,
            value_of(final(self).state.main_stat) >= value_of(old(self).state.main_stat),
            forall|u: BonusStatType|
                has_stat_type(old(self).state.sub_stats@, u) ==> has_stat_type(
                    final(self).state.sub_stats@,
                    u,
                ),
            final(self).state.level == old(self).state.level ==> final(self).state.main_stat
                == old(self).state.main_stat && final(self).state.sub_stats@ == old(
                self,
            ).state.sub_stats@,
            growth_bounds(
                old(self).state.main_stat_type,
                value_of(old(self).state.main_stat),
                value_of(final(self).state.main_stat),
                (final(self).state.level - old(self).state.level) as nat,
            ),
            sub_stats_growth(
                old(self).state.sub_stats@,
                final(self).state.sub_stats@,
                (final(self).state.level - old(self).state.level) as nat,
            ),
            final(self).state.sub_stats@.len() == capped_count(
                old(self).state.sub_stats@.len(),
                unlock_milestones(
                    old(self).state.level as nat,
                    old(self).state.xp as nat,
                    grant as nat,
                    10,
                ),
            ),
            grant == 0 ==> final(self).state.level == old(self).state.level
                && final(self).state.xp == old(self).state.xp,
            final(self).id == old(self).id,
            final(self).policy == old(self).policy,
    {
        let policy = self.policy;
        self.state.advance(&policy, grant, rng);
    }

    /// A batch of materials, summed and applied as one grant.
    pub fn upgrade(&mut self, xp_sources: &Vec<Material>, rng: &mut RngSource)
        requires
            old(self).wf(),
        ensures
            final(self).wf(),
            final(self).name@ == old(self).name@,
            (final(self).state.level as nat, final(self).state.xp as nat) == advanced(
                old(self).state.level as nat,
                old(self).state.xp as nat,
                grant_of(xp_sources@),
            ),
            final(self).state.main_stat_type == old(self).state.main_stat_type,
            value_of(final(self).state.main_stat) >= value_of(old(self).state.main_stat),
            forall|u: BonusStatType|
                has_stat_type(old(self).state.sub_stats@, u) ==> has_stat_type(
                    final(self).state.sub_stats@,
                    u,
                ),
            final(self).state.level == old(self).state.level ==> final(self).state.main_stat
                == old(self).state.main_stat && final(self).state.sub_stats@ == old(
                self,
            ).state.sub_stats@,
            growth_bounds(
                old(self).state.main_stat_type,
                value_of(old(self).state.main_stat),
                value_of(final(self).state.main_stat),
                (final(self).state.level - old(self).state.level) as nat,
            ),
            sub_stats_growth(
                old(self).state.sub_stats@,
                final(self).state.sub_stats@,
                (final(self).state.level - old(self).state.level) as nat,
            ),
            final(self).state.sub_stats@.len() == capped_count(
                old(self).state.sub_stats@.len(),
                unlock_milestones(
                    old(self).state.level as nat,
                    old(self).state.xp as nat,
                    grant_of(xp_sources@),
                    10,
                ),
            ),
            grant_of(xp_sources@) == 0 ==> final(self).state.level == old(self).state.level
                && final(self).state.xp == old(self).state.xp,
            final(self).id == old(self).id,
            final(self).policy == old(self).policy,
    {
        let grant = total_xp(xp_sources);
        self.advance(grant, rng);
    }

    /// The current level.
    pub fn level(&self) -> (r: u32)
        ensures
            r == self.state.level,
    {
        self.state.level
    }

    /// The experience accumulated toward the next level.
    pub fn xp(&self) -> (r: u64)
        ensures
            r == self.state.xp,
    {
        self.state.xp
    }

    /// The kind of the main stat, fixed at creation.
    pub fn main_stat_type(&self) -> (r: BonusStatType)
        ensures
            r == self.state.main_stat_type,
    {
        self.state.main_stat_type
    }

    /// The main stat.
    pub fn main_stat(&self) -> (r: BonusStat)
        ensures
            r == self.state.main_stat,
    {
        self.state.main_stat
    }

    /// How many sub stats are unlocked.
    pub fn sub_stat_count(&self) -> (r: usize)
        ensures
            r == self.state.sub_stats@.len(),
    {
        self.state.sub_stats.len()
    }

    /// The sub stat at a position of the catalog-ordered enumeration.
    pub fn sub_stat_at(&self, i: usize) -> (r: (BonusStatType, BonusStat))
        requires
            i < self.state.sub_stats@.len(),
        ensures
            r == self.state.sub_stats@[i as int],
    {
        self.state.sub_stats[i]
    }
}

impl XpCurve for Armor {
    open spec fn curve_level(&self) -> nat {
        self.state.level as nat
    }

    fn xp_to_next_level(&self) -> (r: u64) {
        xp_required(self.state.level)
    }
}

} // verus!
