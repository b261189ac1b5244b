//! The progression state every leveled item carries, and the advancement
//! algorithm that applies a batch of experience to it.
//!
//! Advancement loops level by level: it fills the experience bar, and each
//! time the bar is exactly filled the level rises by one, the bar empties,
//! and the level-up side effects fire — the main stat always upgrades, and
//! at milestone levels a sub stat is reinforced or a new one unlocked.
//! The milestone intervals are configuration, one pair per item kind.

use vstd::prelude::*;

verus! {

use crate::rng::RngSource;
use crate::xp_curve::xp_required_spec;
use crate::xp_curve::xp_required;
use crate::xp_curve::lemma_xp_required_at_least;
use crate::items::bonus_stats::BonusStat;
use crate::items::bonus_stats::BonusStatType;
use crate::items::bonus_stats::BONUS_STAT_TYPE_COUNT;
use crate::items::bonus_stats::tag_of;
use crate::items::bonus_stats::value_of;
use crate::items::bonus_stats::type_index;
use crate::items::bonus_stats::upgrade_low;
use crate::items::bonus_stats::upgrade_high;
use crate::items::bonus_stats::payload_max;
use crate::items::bonus_stats::lemma_value_bounded;

/// How often, in levels, milestone side effects fire for one item kind:
/// every `reinforce_every` levels an existing sub stat is reinforced, and
/// every `unlock_every` levels a new one is unlocked.
#[derive(Clone, Copy, PartialEq, Eq, Structural, Debug)]
pub struct MilestonePolicy {
    pub reinforce_every: u32,
    pub unlock_every: u32,
}

impl MilestonePolicy {
    /// Both intervals are positive.
    pub open spec fn wf(self) -> bool {
        self.reinforce_every >= 1 && self.unlock_every >= 1
    }
}

/// Each sub stat entry pairs its kind — the unique key — with its rolled
/// value, whose variant matches the key.  Entries stand in strictly
/// ascending catalog order, so no key repeats.
pub open spec fn sub_stats_wf(s: Seq<(BonusStatType, BonusStat)>) -> bool {
    &&& (forall|i: int| 0 <= i < s.len() ==> tag_of(#[trigger] s[i].1) == s[i].0)
    &&& (forall|i: int, j: int|
        0 <= i < j < s.len() ==> type_index(#[trigger] s[i].0) < type_index(#[trigger] s[j].0))
}

/// Whether a kind is present among the sub stat keys.
pub open spec fn has_stat_type(s: Seq<(BonusStatType, BonusStat)>, t: BonusStatType) -> bool {
    exists|i: int| 0 <= i < s.len() && (#[trigger] s[i]).0 == t
}

/// The level and experience reached from `(level, xp)` after granting
/// `grant` experience points: the bar fills toward `xp_required_spec` of
/// the current level, and each exact fill raises the level and empties the
/// bar, so one grant may cross several levels.  At the largest
/// representable level the surplus is discarded and the bar parks just
/// under full.
pub open spec fn advanced(level: nat, xp: nat, grant: nat) -> (nat, nat)
    decreases grant,
{
    if grant == 0 || xp_required_spec(level) <= xp {
        (level, xp)
    } else {
        let needed = (xp_required_spec(level) - xp) as nat;
        if grant < needed {
            (level, (xp + grant) as nat)
        } else if level >= 0xFFFF_FFFF {
            (level, (xp_required_spec(level) - 1) as nat)
        } else {
            advanced(level + 1, 0, (grant - needed) as nat)
        }
    }
}

/// How many unlock milestones a grant crosses: the number of levels the
/// advancement from `(level, xp)` reaches that are divisible by `every`.
pub open spec fn unlock_milestones(level: nat, xp: nat, grant: nat, every: nat) -> nat
    decreases grant,
{
    if grant == 0 || xp_required_spec(level) <= xp || every == 0 {
        0
    } else {
        let needed = (xp_required_spec(level) - xp) as nat;
        if grant < needed {
            0
        } else if level >= 0xFFFF_FFFF {
            0
        } else {
            (if (level + 1) % every == 0 {
                1nat
            } else {
                0nat
            }) + unlock_milestones(level + 1, 0, (grant - needed) as nat, every)
        }
    }
}

/// The least a payload can be after `g` upgrades from `v`, each adding at
/// least `low`, saturating at the payload's width `cap`.
pub open spec fn grown_floor(v: nat, g: nat, low: nat, cap: nat) -> nat {
    if v + g * low <= cap {
        (v + g * low) as nat
    } else {
        cap
    }
}

/// After `g` upgrades of a kind, the payload has moved from `v0` to `v1`:
/// it rose by less than `g` high increments and by at least `g` low
/// increments, saturating at the kind's width.
pub open spec fn growth_bounds(t: BonusStatType, v0: nat, v1: nat, g: nat) -> bool {
    &&& v1 + g <= v0 + g * upgrade_high(t)
    &&& v1 >= grown_floor(v0, g, upgrade_low(t), payload_max(t))
}

/// Between two sub stat tables, every kept key's value did not shrink and
/// rose by less than `g` upgrade increments of its kind: one grant crosses
/// `g` levels and reinforces any one key at most once per crossing.
pub open spec fn sub_stats_growth(
    before: Seq<(BonusStatType, BonusStat)>,
    after: Seq<(BonusStatType, BonusStat)>,
    g: nat,
) -> bool {
    forall|i: int, j: int|
        0 <= i < before.len() && 0 <= j < after.len() && (#[trigger] before[i]).0 == (
        #[trigger] after[j]).0 ==> value_of(before[i].1) <= value_of(after[j].1) && value_of(
            after[j].1,
        ) + g <= value_of(before[i].1) + g * upgrade_high(before[i].0)
}

/// Every kind's upgrade range starts at one or above.
proof fn lemma_upgrade_high_positive(t: BonusStatType)
    ensures
        upgrade_high(t) >= 1,
{
}

/// A well-formed table grows by nothing from itself.
proof fn lemma_sub_stats_growth_refl(s: Seq<(BonusStatType, BonusStat)>, g: nat)
    requires
        sub_stats_wf(s),
    ensures
        sub_stats_growth(s, s, g),
{
    assert forall|i: int, j: int|
        0 <= i < s.len() && 0 <= j < s.len() && (#[trigger] s[i]).0 == (
        #[trigger] s[j]).0 implies value_of(s[i].1) <= value_of(s[j].1) && value_of(s[j].1) + g
        <= value_of(s[i].1) + g * upgrade_high(s[i].0) by {
        if i != j {
            assert(type_index(s[i].0) != type_index(s[j].0));
        }
        lemma_upgrade_high_positive(s[i].0);
        assert(g * upgrade_high(s[i].0) >= g * 1) by (nonlinear_arith)
            requires
                upgrade_high(s[i].0) >= 1,
        ;
        assert(g * 1 == g) by (nonlinear_arith);
    }
}

/// Growth bounds compose: the increments of two stages add.
proof fn lemma_sub_stats_growth_trans(
    a: Seq<(BonusStatType, BonusStat)>,
    b: Seq<(BonusStatType, BonusStat)>,
    c: Seq<(BonusStatType, BonusStat)>,
    g1: nat,
    g2: nat,
)
    requires
        sub_stats_growth(a, b, g1),
        sub_stats_growth(b, c, g2),
        forall|u: BonusStatType| has_stat_type(a, u) ==> has_stat_type(b, u),
    ensures
        sub_stats_growth(a, c, g1 + g2),
{
    assert forall|i: int, j: int|
        0 <= i < a.len() && 0 <= j < c.len() && (#[trigger] a[i]).0 == (
        #[trigger] c[j]).0 implies value_of(a[i].1) <= value_of(c[j].1) && value_of(c[j].1) + (g1
        + g2) <= value_of(a[i].1) + (g1 + g2) * upgrade_high(a[i].0) by {
        let u = a[i].0;
        assert(has_stat_type(a, u));
        assert(has_stat_type(b, u));
        let k = choose|k: int| 0 <= k < b.len() && (#[trigger] b[k]).0 == u;
        assert(value_of(a[i].1) <= value_of(b[k].1) && value_of(b[k].1) + g1 <= value_of(a[i].1)
            + g1 * upgrade_high(u));
        assert(value_of(b[k].1) <= value_of(c[j].1) && value_of(c[j].1) + g2 <= value_of(b[k].1)
            + g2 * upgrade_high(u));
        assert((g1 + g2) * upgrade_high(u) == g1 * upgrade_high(u) + g2 * upgrade_high(
            u,
        )) by (nonlinear_arith);
    }
}

/// A sub stat count after some unlocks, saturating at the catalog size.
pub open spec fn capped_count(len: nat, unlocks: nat) -> nat {
    if len + unlocks <= 16 {
        len + unlocks
    } else {
        16
    }
}

/// In well-formed sub stats the catalog position of an entry is at least
/// its position in the sequence.
proof fn lemma_sorted_index_at_least(s: Seq<(BonusStatType, BonusStat)>, i: int)
    requires
        sub_stats_wf(s),
        0 <= i < s.len(),
    ensures
        type_index(s[i].0) >= i,
    decreases i,
{
    if i > 0 {
        lemma_sorted_index_at_least(s, i - 1);
    }
}

/// Every kind sits below the catalog size.
proof fn lemma_type_index_range(t: BonusStatType)
    ensures
        type_index(t) < 16,
{
}

/// Well-formed sub stats never outnumber the catalog.
pub proof fn lemma_sub_stats_len_bound(s: Seq<(BonusStatType, BonusStat)>)
    requires
        sub_stats_wf(s),
    ensures
        s.len() <= 16,
{
    if s.len() > 16 {
        lemma_sorted_index_at_least(s, 16);
        lemma_type_index_range(s[16].0);
    }
}

/// The mutable progression core of a leveled item: level, experience, the
/// main stat fixed at creation, and the unique-keyed sub stats.
pub struct GearState {
    pub level: u32,
    pub xp: u64,
    pub main_stat_type: BonusStatType,
    pub main_stat: BonusStat,
    pub sub_stats: Vec<(BonusStatType, BonusStat)>,
}

impl GearState {
    /// The structural invariant: the level is at least one, the bar is
    /// strictly under the cost of leaving the level, the main stat's
    /// variant matches its fixed kind, and the sub stats are well formed.
    pub open spec fn wf(self) -> bool {
        &&& 1 <= self.level
        &&& (self.xp as nat) < xp_required_spec(self.level as nat)
        &&& tag_of(self.main_stat) == self.main_stat_type
        &&& sub_stats_wf(self.sub_stats@)
    }

    /// Whether a kind is already present as a sub stat key.
    pub fn has_sub_stat(&self, t: BonusStatType) -> (r: bool)
        ensures
            r == has_stat_type(self.sub_stats@, t),
    {
        let mut i: usize = 0;
        while i < self.sub_stats.len()
            invariant
                i <= self.sub_stats@.len(),
                forall|j: int| 0 <= j < i ==> (#[trigger] self.sub_stats@[j]).0 != t,
            decreases self.sub_stats@.len() - i,
        {
            if self.sub_stats[i].0.code() == t.code() {
                proof {
                    lemma_type_index_injective(self.sub_stats@[i as int].0, t);
                }
                return true;
            }
            i += 1;
        }
        false
    }

    /// Insertion of a fresh sub stat at its place in the catalog order.
    fn insert_sub_stat(&mut self, t: BonusStatType, s: BonusStat)
        requires
            sub_stats_wf(old(self).sub_stats@),
            !has_stat_type(old(self).sub_stats@, t),
            tag_of(s) == t,
        ensures
            sub_stats_wf(final(self).sub_stats@),
            final(self).level == old(self).level,
            final(self).xp == old(self).xp,
            final(self).main_stat_type == old(self).main_stat_type,
            final(self).main_stat == old(self).main_stat,
            final(self).sub_stats@.len() == old(self).sub_stats@.len() + 1,
            has_stat_type(final(self).sub_stats@, t),
            forall|u: BonusStatType|
                has_stat_type(old(self).sub_stats@, u) ==> has_stat_type(
                    final(self).sub_stats@,
                    u,
                ),
            forall|i: int, j: int|
                0 <= i < old(self).sub_stats@.len() && 0 <= j < final(self).sub_stats@.len()
                    && (#[trigger] old(self).sub_stats@[i]).0 == (
                #[trigger] final(self).sub_stats@[j]).0 ==> final(self).sub_stats@[j].1 == old(
                    self,
                ).sub_stats@[i].1,
    {
        let ghost old_sub = self.sub_stats@;
        let tc = t.code();
        let mut p: usize = 0;
        loop
            invariant_except_break
                p <= self.sub_stats@.len(),
                self.sub_stats@ == old_sub,
                tc == type_index(t),
                forall|i: int|
                    0 <= i < p ==> type_index((#[trigger] self.sub_stats@[i]).0) < type_index(t),
            ensures
                p <= old_sub.len(),
                self.sub_stats@ == old_sub,
                forall|i: int|
                    0 <= i < p ==> type_index((#[trigger] self.sub_stats@[i]).0) < type_index(t),
                p < old_sub.len() ==> type_index(self.sub_stats@[p as int].0) >= type_index(t),
            decreases self.sub_stats@.len() - p,
        {
            if p >= self.sub_stats.len() {
                break ;
            }
            if self.sub_stats[p].0.code() >= tc {
                break ;
            }
            p += 1;
        }
        proof {
            if p < old_sub.len() {
                assert(type_index(old_sub[p as int].0) >= type_index(t));
                if type_index(old_sub[p as int].0) == type_index(t) {
                    lemma_type_index_injective(old_sub[p as int].0, t);
                    assert(old_sub[p as int].0 == t);
                    assert(has_stat_type(old_sub, t));
                }
                assert(type_index(old_sub[p as int].0) > type_index(t));
            }
        }
        self.sub_stats.insert(p, (t, s));
        proof {
            let ns = self.sub_stats@;
            assert(ns == old_sub.insert(p as int, (t, s)));
            assert forall|i: int| 0 <= i < ns.len() implies tag_of((#[trigger] ns[i]).1)
                == ns[i].0 by {
                if i < p {
                    assert(ns[i] == old_sub[i]);
                } else if i == p {
                } else {
                    assert(ns[i] == old_sub[i - 1]);
                }
            }
            assert forall|i: int, j: int| 0 <= i < j < ns.len() implies type_index(
                (#[trigger] ns[i]).0,
            ) < type_index((#[trigger] ns[j]).0) by {
                if i < p {
                    assert(ns[i] == old_sub[i]);
                } else if i == p {
                } else {
                    assert(ns[i] == old_sub[i - 1]);
                }
                if j < p {
                    assert(ns[j] == old_sub[j]);
                } else if j == p {
                } else {
                    assert(ns[j] == old_sub[j - 1]);
                }
                if i < p && j == p {
                } else if i == p && j > p {
                    assert(type_index(old_sub[j - 1].0) >= type_index(t));
                } else if i < p && j > p {
                    if p < old_sub.len() {
                    }
                }
            }
            assert(ns[p as int].0 == t);
            assert(has_stat_type(ns, t));
            assert forall|u: BonusStatType| has_stat_type(old_sub, u) implies has_stat_type(
                ns,
                u,
            ) by {
                let i = choose|i: int| 0 <= i < old_sub.len() && (#[trigger] old_sub[i]).0 == u;
                if i < p {
                    assert(ns[i] == old_sub[i]);
                } else {
                    assert(ns[i + 1] == old_sub[i]);
                }
            }
            assert forall|i: int, j: int|
                0 <= i < old_sub.len() && 0 <= j < ns.len() && (#[trigger] old_sub[i]).0 == (
                #[trigger] ns[j]).0 implies ns[j].1 == old_sub[i].1 by {
                if j < p {
                    assert(ns[j] == old_sub[j]);
                    if i != j {
                        assert(type_index(old_sub[i].0) != type_index(old_sub[j].0));
                    }
                } else if j == p {
                    assert(has_stat_type(old_sub, t));
                } else {
                    assert(ns[j] == old_sub[j - 1]);
                    if i != j - 1 {
                        assert(type_index(old_sub[i].0) != type_index(old_sub[j - 1].0));
                    }
                }
            }
        }
    }

    /// The side effects of one level-up, evaluated against the new level:
    /// the main stat upgrades unconditionally; at a reinforcement milestone
    /// one existing sub stat, picked uniformly, upgrades; at an unlock
    /// milestone a kind not yet present is drawn and a fresh roll of it
    /// inserted — when every kind is already present the unlock is skipped
    /// silently.
    #[verifier::rlimit(100)]
    fn level_up_effects(&mut self, policy: &MilestonePolicy, rng: &mut RngSource)
        requires
            old(self).wf(),
            policy.wf(),
        ensures
            final(self).wf(),
            final(self).level == old(self).level,
            final(self).xp == old(self).xp,
            final(self).main_stat_type == old(self).main_stat_type,
            value_of(final(self).main_stat) >= value_of(old(self).main_stat),
            forall|u: BonusStatType|
                has_stat_type(old(self).sub_stats@, u) ==> has_stat_type(
                    final(self).sub_stats@,
                    u,
                ),
            old(self).level % policy.unlock_every == 0 && old(self).sub_stats@.len() < 16
                ==> final(self).sub_stats@.len() == old(self).sub_stats@.len() + 1,
            old(self).level % policy.unlock_every != 0 || old(self).sub_stats@.len() >= 16
                ==> final(self).sub_stats@.len() == old(self).sub_stats@.len(),
            value_of(final(self).main_stat) + 1 <= value_of(old(self).main_stat) + upgrade_high(
                old(self).main_stat_type,
            ),
            value_of(old(self).main_stat) + upgrade_low(old(self).main_stat_type) <= payload_max(
                old(self).main_stat_type,
            ) ==> value_of(final(self).main_stat) >= value_of(old(self).main_stat)
                + upgrade_low(old(self).main_stat_type),
            value_of(old(self).main_stat) + upgrade_low(old(self).main_stat_type) > payload_max(
                old(self).main_stat_type,
            ) ==> value_of(final(self).main_stat) == payload_max(old(self).main_stat_type),
            sub_stats_growth(old(self).sub_stats@, final(self).sub_stats@, 1),
    {
        proof {
            lemma_sub_stats_growth_refl(old(self).sub_stats@, 1);
        }
        self.main_stat.upgrade(rng);
        let n = self.sub_stats.len();
        if n > 0 && self.level % policy.reinforce_every == 0 {
            let ghost before = self.sub_stats@;
            let idx = rng.pick_index(n);
            let mut pair = self.sub_stats.remove(idx);
            pair.1.upgrade(rng);
            self.sub_stats.insert(idx, pair);
            proof {
                let after = self.sub_stats@;
                assert(after =~= before.update(idx as int, (before[idx as int].0, pair.1)));
                assert forall|i: int| 0 <= i < after.len() implies (#[trigger] after[i]).0
                    == before[i].0 by {}
                assert forall|u: BonusStatType| has_stat_type(before, u) implies has_stat_type(
                    after,
                    u,
                ) by {
                    let i = choose|i: int|
                        0 <= i < before.len() && (#[trigger] before[i]).0 == u;
                    assert(after[i].0 == u);
                }
                assert forall|i: int, j: int|
                    0 <= i < before.len() && 0 <= j < after.len() && (#[trigger] before[i]).0
                        == (#[trigger] after[j]).0 implies value_of(before[i].1) <= value_of(
                    after[j].1,
                ) && value_of(after[j].1) + 1 <= value_of(before[i].1) + 1 * upgrade_high(
                    before[i].0,
                ) by {
                    if i != j {
                        assert(type_index(before[i].0) != type_index(before[j].0));
                    }
                    lemma_upgrade_high_positive(before[i].0);
                    assert(1 * upgrade_high(before[i].0) == upgrade_high(
                        before[i].0,
                    )) by (nonlinear_arith);
                }
                assert(sub_stats_growth(before, after, 1));
            }
        }
        if self.level % policy.unlock_every == 0 {
            let mut absent: Vec<BonusStatType> = Vec::new();
            let mut k: usize = 0;
            let mut c: u64 = 0;
            while c < BONUS_STAT_TYPE_COUNT
                invariant
                    c <= 16,
                    k <= self.sub_stats@.len(),
                    sub_stats_wf(self.sub_stats@),
                    absent@.len() + k == c,
                    forall|i: int|
                        0 <= i < k ==> type_index((#[trigger] self.sub_stats@[i]).0) < c,
                    forall|i: int|
                        k <= i < self.sub_stats@.len() ==> type_index(
                            (#[trigger] self.sub_stats@[i]).0,
                        ) >= c,
                    forall|i: int|
                        0 <= i < absent@.len() ==> !has_stat_type(
                            self.sub_stats@,
                            #[trigger] absent@[i],
                        ),
                decreases BONUS_STAT_TYPE_COUNT - c,
            {
                let t = BonusStatType::from_code(c);
                let mut found = false;
                if k < self.sub_stats.len() {
                    if self.sub_stats[k].0.code() == c {
                        found = true;
                    }
                }
                if found {
                    k += 1;
                } else {
                    proof {
                        assert forall|i: int| 0 <= i < self.sub_stats@.len() implies (
                        #[trigger] self.sub_stats@[i]).0 != t by {
                            if i < k {
                            } else if i == k {
                            } else {
                                assert(type_index(self.sub_stats@[k as int].0) < type_index(
                                    self.sub_stats@[i].0,
                                ));
                            }
                            if self.sub_stats@[i].0 == t {
                                assert(type_index(self.sub_stats@[i].0) == c);
                                assert(false);
                            }
                        }
                        assert(!has_stat_type(self.sub_stats@, t));
                    }
                    absent.push(t);
                }
                c += 1;
            }
            proof {
                if k < self.sub_stats@.len() {
                    lemma_type_index_range(self.sub_stats@[k as int].0);
                }
                assert(absent@.len() + self.sub_stats@.len() == 16);
            }
            match BonusStatType::random_from(&absent, rng) {
                Some(t) => {
                    proof {
                        assert(absent@.contains(t));
                        let i = choose|i: int| 0 <= i < absent@.len() && absent@[i] == t;
                        assert(!has_stat_type(self.sub_stats@, absent@[i]));
                    }
                    let ghost mid = self.sub_stats@;
                    let s = BonusStat::from_type(t, rng);
                    self.insert_sub_stat(t, s);
                    proof {
                        let after = self.sub_stats@;
                        assert forall|i: int, j: int|
                            0 <= i < mid.len() && 0 <= j < after.len() && (#[trigger] mid[i]).0
                                == (#[trigger] after[j]).0 implies value_of(mid[i].1)
                            <= value_of(after[j].1) && value_of(after[j].1) + 0 <= value_of(
                            mid[i].1,
                        ) + 0 * upgrade_high(mid[i].0) by {
                            assert(after[j].1 == mid[i].1);
                            assert(0 * upgrade_high(mid[i].0) == 0) by (nonlinear_arith);
                        }
                        assert(sub_stats_growth(mid, after, 0));
                        lemma_sub_stats_growth_trans(old(self).sub_stats@, mid, after, 1, 0);
                    }
                },
                None => {},
            }
        }
    }

    /// The sole mutator: one atomic grant of experience.  The level and
    /// the bar move exactly as `advanced` says; the main stat's kind never
    /// changes and its payload never shrinks; every sub stat key present
    /// before is present after; and a zero grant changes nothing.
    pub fn advance(&mut self, policy: &MilestonePolicy, grant: u64, rng: &mut RngSource)
        requires
            old(self).wf(),
            policy.wf(),
        ensures
            final(self).wf(),
            (final(self).level as nat, final(self).xp as nat) == advanced(
                old(self).level as nat,
                old(self).xp as nat,
                grant as nat,
            ),
            final(self).main_stat_type == old(self).main_stat_type,
            value_of(final(self).main_stat) >= value_of(old(self).main_stat),
            forall|u: BonusStatType|
                has_stat_type(old(self).sub_stats@, u) ==> has_stat_type(
                    final(self).sub_stats@,
                    u,
                ),
            final(self).level == old(self).level ==> final(self).main_stat == old(
                self,
            ).main_stat && final(self).sub_stats@ == old(self).sub_stats@,
            grant == 0 ==> final(self).level == old(self).level && final(self).xp == old(
                self,
            ).xp,
            final(self).sub_stats@.len() == capped_count(
                old(self).sub_stats@.len(),
                unlock_milestones(
                    old(self).level as nat,
                    old(self).xp as nat,
                    grant as nat,
                    policy.unlock_every as nat,
                ),
            ),
            growth_bounds(
                old(self).main_stat_type,
                value_of(old(self).main_stat),
                value_of(final(self).main_stat),
                (final(self).level - old(self).level) as nat,
            ),
            sub_stats_growth(
                old(self).sub_stats@,
                final(self).sub_stats@,
                (final(self).level - old(self).level) as nat,
            ),
    {
        proof {
            lemma_sub_stats_len_bound(old(self).sub_stats@);
            lemma_sub_stats_growth_refl(old(self).sub_stats@, 0);
            lemma_value_bounded(old(self).main_stat);
            let lw = upgrade_low(old(self).main_stat_type);
            let hg = upgrade_high(old(self).main_stat_type);
            assert(0 * lw == 0) by (nonlinear_arith);
            assert(0 * hg == 0) by (nonlinear_arith);
        }
        let mut remaining: u64 = grant;
        while remaining > 0
            invariant
                self.wf(),
                policy.wf(),
                advanced(old(self).level as nat, old(self).xp as nat, grant as nat) == advanced(
                    self.level as nat,
                    self.xp as nat,
                    remaining as nat,
                ),
                self.main_stat_type == old(self).main_stat_type,
                value_of(self.main_stat) >= value_of(old(self).main_stat),
                forall|u: BonusStatType|
                    has_stat_type(old(self).sub_stats@, u) ==> has_stat_type(
                        self.sub_stats@,
                        u,
                    ),
                self.level == old(self).level ==> self.main_stat == old(self).main_stat
                    && self.sub_stats@ == old(self).sub_stats@,
                self.level >= old(self).level,
                self.sub_stats@.len() <= 16,
                growth_bounds(
                    old(self).main_stat_type,
                    value_of(old(self).main_stat),
                    value_of(self.main_stat),
                    (self.level - old(self).level) as nat,
                ),
                sub_stats_growth(
                    old(self).sub_stats@,
                    self.sub_stats@,
                    (self.level - old(self).level) as nat,
                ),
                capped_count(
                    old(self).sub_stats@.len(),
                    unlock_milestones(
                        old(self).level as nat,
                        old(self).xp as nat,
                        grant as nat,
                        policy.unlock_every as nat,
                    ),
                ) == capped_count(
                    self.sub_stats@.len(),
                    unlock_milestones(
                        self.level as nat,
                        self.xp as nat,
                        remaining as nat,
                        policy.unlock_every as nat,
                    ),
                ),
            decreases remaining,
        {
            let req = xp_required(self.level);
            proof {
                lemma_xp_required_at_least(self.level as nat);
            }
            let needed = req - self.xp;
            if remaining < needed {
                self.xp = self.xp + remaining;
                remaining = 0;
            } else {
                remaining = remaining - needed;
                if self.level == 0xFFFF_FFFFu32 {
                    self.xp = req - 1;
                    remaining = 0;
                } else {
                    self.level = self.level + 1;
                    self.xp = 0;
                    proof {
                        lemma_xp_required_at_least(self.level as nat);
                    }
                    let ghost v_before = value_of(self.main_stat);
                    let ghost sub_before = self.sub_stats@;
                    let ghost g_before = (self.level - 1 - old(self).level) as nat;
                    self.level_up_effects(policy, rng);
                    proof {
                        lemma_sub_stats_len_bound(self.sub_stats@);
                        lemma_sub_stats_growth_trans(
                            old(self).sub_stats@,
                            sub_before,
                            self.sub_stats@,
                            g_before,
                            1,
                        );
                        lemma_value_bounded(self.main_stat);
                        let t0 = old(self).main_stat_type;
                        let v0 = value_of(old(self).main_stat);
                        let v1 = value_of(self.main_stat);
                        let g1 = (self.level - old(self).level) as nat;
                        assert(g1 == g_before + 1);
                        assert(g1 * upgrade_high(t0) == g_before * upgrade_high(t0)
                            + upgrade_high(t0)) by (nonlinear_arith)
                            requires
                                g1 == g_before + 1,
                        ;
                        assert(g1 * upgrade_low(t0) == g_before * upgrade_low(t0) + upgrade_low(
                            t0,
                        )) by (nonlinear_arith)
                            requires
                                g1 == g_before + 1,
                        ;
                        let cap = payload_max(t0);
                        let low = upgrade_low(t0);
                        if v_before + low <= cap {
                            assert(v1 >= v_before + low);
                        } else {
                            assert(v1 == cap);
                        }
                        assert(v1 >= grown_floor(v0, g1, low, cap));
                    }
                }
            }
        }
    }
}

/// Key uniqueness: well-formed sub stats never repeat a kind, however many
/// unlock events have run.
pub proof fn lemma_sub_stat_keys_unique(s: Seq<(BonusStatType, BonusStat)>)
    requires
        sub_stats_wf(s),
    ensures
        forall|i: int, j: int|
            0 <= i < j < s.len() ==> (#[trigger] s[i]).0 != (#[trigger] s[j]).0,
{
}

/// Multi-level correctness: from a fresh state at level one with an empty
/// bar, granting the cost of level one, the cost of level two, and five
/// points more — all in one call — lands at level three with exactly five
/// points on the bar.
pub proof fn lemma_multi_level_advancement()
    ensures
        advanced(1, 0, xp_required_spec(1) + xp_required_spec(2) + 5) == (3nat, 5nat),
{
    let r1 = xp_required_spec(1);
    let r2 = xp_required_spec(2);
    crate::xp_curve::lemma_xp_required_at_one();
    crate::xp_curve::lemma_xp_required_strictly_increases(1);
    crate::xp_curve::lemma_xp_required_strictly_increases(2);
    assert(advanced(1, 0, (r1 + r2 + 5) as nat) == advanced(2, 0, (r2 + 5) as nat));
    assert(advanced(2, 0, (r2 + 5) as nat) == advanced(3, 0, 5));
    assert(advanced(3, 0, 5) == (3nat, 5nat));
}

/// Two kinds at the same catalog position are the same kind.
pub proof fn lemma_type_index_injective(a: BonusStatType, b: BonusStatType)
    requires
        type_index(a) == type_index(b),
    ensures
        a == b,
{
}

} // verus!
