//! Stake-based tiers and pro-rata allocation caps.
//!
//! A [`TierRegistry`] holds one [`TierConfig`] per [`Tier`], ordered by
//! strictly increasing minimum stake. [`TierRegistry::tier_for`] assigns the
//! highest tier whose threshold the stake reaches (the boundary is
//! inclusive), and [`TierRegistry::allocation_cap`] turns a tier's weight
//! share of the pool into that tier's purchase cap.

use vstd::prelude::*;

use crate::errors::Error;

verus! {

/// Number of tiers, the untiered `Tier0` included.
pub const NUM_TIERS: usize = 8;

/// Denominator of the minimum-cap rate: a rate of `r` means `r / 1000`.
pub const DENO: u32 = 1000;

/// A stake-based eligibility bracket. `Tier0` stands for "untiered": it is
/// the default of every new sale record and is never assigned as a
/// qualifying tier.
#[derive(Clone, Copy, Debug, PartialEq, Eq, Hash, Structural)]
pub enum Tier {
    Tier0,
    Tier1,
    Tier2,
    Tier3,
    Tier4,
    Tier5,
    Tier6,
    Tier7,
}

/// Position of a tier in the registry's table.
pub open spec fn tier_index(t: Tier) -> int {
    match t {
        Tier::Tier0 => 0,
        Tier::Tier1 => 1,
        Tier::Tier2 => 2,
        Tier::Tier3 => 3,
        Tier::Tier4 => 4,
        Tier::Tier5 => 5,
        Tier::Tier6 => 6,
        Tier::Tier7 => 7,
    }
}

/// The tier that sits at a table position.
pub open spec fn tier_of_index(i: int) -> Tier {
    if i == 1 {
        Tier::Tier1
    } else if i == 2 {
        Tier::Tier2
    } else if i == 3 {
        Tier::Tier3
    } else if i == 4 {
        Tier::Tier4
    } else if i == 5 {
        Tier::Tier5
    } else if i == 6 {
        Tier::Tier6
    } else if i == 7 {
        Tier::Tier7
    } else {
        Tier::Tier0
    }
}

impl Tier {
    /// Position of this tier in the registry's table.
    pub fn index(&self) -> (i: usize)
        ensures
            i == tier_index(*self),
            i < NUM_TIERS,
    {
        match self {
            Tier::Tier0 => 0,
            Tier::Tier1 => 1,
            Tier::Tier2 => 2,
            Tier::Tier3 => 3,
            Tier::Tier4 => 4,
            Tier::Tier5 => 5,
            Tier::Tier6 => 6,
            Tier::Tier7 => 7,
        }
    }

    /// The tier that sits at a table position.
    pub fn from_index(i: usize) -> (t: Tier)
        requires
            i < NUM_TIERS,
        ensures
            t == tier_of_index(i as int),
            tier_index(t) == i,
    {
        if i == 1 {
            Tier::Tier1
        } else if i == 2 {
            Tier::Tier2
        } else if i == 3 {
            Tier::Tier3
        } else if i == 4 {
            Tier::Tier4
        } else if i == 5 {
            Tier::Tier5
        } else if i == 6 {
            Tier::Tier6
        } else if i == 7 {
            Tier::Tier7
        } else {
            Tier::Tier0
        }
    }
}

/// Configuration of one tier.
#[derive(Clone, Copy, Debug, PartialEq, Eq, Structural)]
pub struct TierConfig {
    /// Minimum stake that qualifies for this tier (inclusive).
    pub min_point: u128,
    /// Relative weight of this tier in the allocation formula.
    pub pool_weight: u32,
    /// Number of participants registered into this tier so far.
    pub number_of_participants: u32,
}

impl TierConfig {
    pub fn new(min_point: u128, pool_weight: u32, number_of_participants: u32) -> (c: TierConfig)
        ensures
            c == (TierConfig { min_point, pool_weight, number_of_participants }),
    {
        TierConfig { min_point, pool_weight, number_of_participants }
    }

    /// The fixed table the registry starts from: thresholds in whole tokens
    /// of 18 decimals, strictly increasing, with the untiered row first.
    pub fn get_default_tier_configs() -> (v: Vec<TierConfig>)
        ensures
            v@ == default_tier_table(),
            tier_table_wf(v@),
    {
        let e18: u128 = 1_000_000_000_000_000_000;
        let mut config: Vec<TierConfig> = Vec::new();
        config.push(TierConfig::new(0, 0, 0));
        config.push(TierConfig::new(2_000 * e18, 1, 0));
        config.push(TierConfig::new(4_000 * e18, 2, 0));
        config.push(TierConfig::new(10_000 * e18, 5, 0));
        config.push(TierConfig::new(17_500 * e18, 9, 0));
        config.push(TierConfig::new(35_000 * e18, 16, 0));
        config.push(TierConfig::new(90_000 * e18, 32, 0));
        config.push(TierConfig::new(175_000 * e18, 52, 0));
        proof {
            assert(config@ =~= default_tier_table());
            lemma_default_tier_table_wf();
        }
        config
    }
}

/// The default table as a mathematical sequence.
pub open spec fn default_tier_table() -> Seq<TierConfig> {
    seq![
        TierConfig { min_point: 0, pool_weight: 0, number_of_participants: 0 },
        TierConfig {
            min_point: 2_000_000_000_000_000_000_000,
            pool_weight: 1,
            number_of_participants: 0,
        },
        TierConfig {
            min_point: 4_000_000_000_000_000_000_000,
            pool_weight: 2,
            number_of_participants: 0,
        },
        TierConfig {
            min_point: 10_000_000_000_000_000_000_000,
            pool_weight: 5,
            number_of_participants: 0,
        },
        TierConfig {
            min_point: 17_500_000_000_000_000_000_000,
            pool_weight: 9,
            number_of_participants: 0,
        },
        TierConfig {
            min_point: 35_000_000_000_000_000_000_000,
            pool_weight: 16,
            number_of_participants: 0,
        },
        TierConfig {
            min_point: 90_000_000_000_000_000_000_000,
            pool_weight: 32,
            number_of_participants: 0,
        },
        TierConfig {
            min_point: 175_000_000_000_000_000_000_000,
            pool_weight: 52,
            number_of_participants: 0,
        },
    ]
}

/// Well-formedness of a tier table: one row per tier, the untiered row
/// first with threshold and weight zero, thresholds strictly increasing.
pub open spec fn tier_table_wf(s: Seq<TierConfig>) -> bool {
    &&& s.len() == NUM_TIERS
    &&& s[0].min_point == 0
    &&& s[0].pool_weight == 0
    &&& forall|i: int, j: int|
        0 <= i < j < s.len() ==> #[trigger] s[i].min_point < #[trigger] s[j].min_point
}

pub proof fn lemma_default_tier_table_wf()
    ensures
        tier_table_wf(default_tier_table()),
{
    let s = default_tier_table();
    assert forall|i: int, j: int| 0 <= i < j < s.len() implies #[trigger] s[i].min_point
        < #[trigger] s[j].min_point by {
        assert(s[i].min_point < s[j].min_point);
    }
}

/// Index of the highest tier whose threshold the stake reaches, scanning the
/// table from the top down; `0` where no row below the top qualifies.
pub open spec fn highest_qualifying(s: Seq<TierConfig>, stake: u128) -> int
    decreases s.len(),
{
    if s.len() == 0 {
        0
    } else if stake >= s.last().min_point {
        s.len() - 1
    } else {
        highest_qualifying(s.drop_last(), stake)
    }
}

/// Sum over the table of `participants * weight`.
pub open spec fn total_weight(s: Seq<TierConfig>) -> int
    decreases s.len(),
{
    if s.len() == 0 {
        0
    } else {
        total_weight(s.drop_last()) + s.last().number_of_participants * s.last().pool_weight
    }
}

/// What `highest_qualifying` returns: an index into the table whose
/// threshold the stake reaches, and above which no threshold is reached.
pub proof fn lemma_highest_qualifying_props(s: Seq<TierConfig>, stake: u128)
    requires
        s.len() > 0,
        s[0].min_point == 0,
    ensures
        0 <= highest_qualifying(s, stake) < s.len(),
        stake >= s[highest_qualifying(s, stake)].min_point,
        forall|j: int| highest_qualifying(s, stake) < j < s.len() ==> stake < #[trigger] s[j].min_point,
    decreases s.len(),
{
    let h = highest_qualifying(s, stake);
    if stake >= s.last().min_point {
    } else {
        if s.len() == 1 {
        } else {
            let s2 = s.drop_last();
            assert(s2[0] == s[0]);
            lemma_highest_qualifying_props(s2, stake);
            assert(s2[h] == s[h]);
            assert forall|j: int| h < j < s.len() implies stake < #[trigger] s[j].min_point by {
                if j < s.len() - 1 {
                    assert(s2[j] == s[j]);
                }
            }
        }
    }
}

/// The tier boundary is inclusive: a stake exactly equal to a tier's
/// threshold is assigned that tier, not the one below it.
pub proof fn lemma_tier_boundary_inclusive(s: Seq<TierConfig>, i: int)
    requires
        tier_table_wf(s),
        0 <= i < s.len(),
    ensures
        highest_qualifying(s, s[i].min_point) == i,
{
    let stake = s[i].min_point;
    let h = highest_qualifying(s, stake);
    lemma_highest_qualifying_props(s, stake);
    if h < i {
        assert(stake < s[i].min_point);
    }
    if h > i {
        assert(s[i].min_point < s[h].min_point);
    }
}

/// A table in which every tier has zero participants has zero total weight,
/// so no allocation cap can be computed from it.
pub proof fn lemma_no_participants_zero_weight(s: Seq<TierConfig>)
    requires
        forall|i: int| 0 <= i < s.len() ==> #[trigger] s[i].number_of_participants == 0,
    ensures
        total_weight(s) == 0,
    decreases s.len(),
{
    if s.len() > 0 {
        lemma_no_participants_zero_weight(s.drop_last());
    }
}

/// Each summand of `total_weight` is a product of two `u32` values, so the
/// whole sum is bounded by the table's length times `u32::MAX` squared.
pub proof fn lemma_total_weight_bounds(s: Seq<TierConfig>)
    ensures
        0 <= total_weight(s) <= s.len() * (u32::MAX as int) * (u32::MAX as int),
    decreases s.len(),
{
    if s.len() == 0 {
    } else {
        lemma_total_weight_bounds(s.drop_last());
        let p = s.last().number_of_participants as int;
        let w = s.last().pool_weight as int;
        assert(p * w <= (u32::MAX as int) * (u32::MAX as int)) by (nonlinear_arith)
            requires
                0 <= p <= u32::MAX as int,
                0 <= w <= u32::MAX as int,
        ;
        assert((s.len() - 1) * (u32::MAX as int) * (u32::MAX as int) + (u32::MAX as int) * (
        u32::MAX as int) == s.len() * (u32::MAX as int) * (u32::MAX as int)) by (nonlinear_arith);
    }
}

/// The proportional cap of a tier: the pool divided by the total weight,
/// times the tier's own weight. Meaningful only when the total weight is
/// positive.
pub open spec fn spec_allocation_cap(s: Seq<TierConfig>, t: Tier, pool: u128) -> int {
    (pool as int / total_weight(s)) * s[tier_index(t)].pool_weight
}

/// The ordered tier table with its participant counts.
pub struct TierRegistry {
    pub configs: Vec<TierConfig>,
}

impl TierRegistry {
    /// Well-formedness: see [`tier_table_wf`].
    pub open spec fn wf(self) -> bool {
        tier_table_wf(self.configs@)
    }

    /// A registry holding the default table.
    pub fn new_default() -> (r: TierRegistry)
        ensures
            r.wf(),
            r.configs@ == default_tier_table(),
    {
        TierRegistry { configs: TierConfig::get_default_tier_configs() }
    }

    /// Assigns the highest tier whose minimum stake the given stake reaches;
    /// the comparison is inclusive, and `Tier0` catches every stake below
    /// the lowest qualifying threshold.
    pub fn tier_for(&self, stake: u128) -> (t: Tier)
        requires
            self.wf(),
        ensures
            tier_index(t) == highest_qualifying(self.configs@, stake),
    {
        let ghost s = self.configs@;
        proof {
            assert(s.take(NUM_TIERS as int) =~= s);
        }
        let mut i: usize = NUM_TIERS - 1;
        while i > 0
            invariant
                self.wf(),
                0 <= i < NUM_TIERS,
                s == self.configs@,
                highest_qualifying(s, stake) == highest_qualifying(s.take(i + 1), stake),
                forall|j: int| i < j < NUM_TIERS ==> stake < #[trigger] s[j].min_point,
            decreases i,
        {
            if stake >= self.configs[i].min_point {
                proof {
                    assert(s.take(i + 1).last() == s[i as int]);
                }
                return Tier::from_index(i);
            }
            proof {
                assert(s.take(i + 1).drop_last() =~= s.take(i as int));
            }
            i = i - 1;
        }
        proof {
            assert(s.take(1).last() == s[0]);
        }
        Tier::Tier0
    }

    /// Sum over the table of `participants * weight`, as an executable value.
    pub fn compute_total_weight(&self) -> (w: u128)
        requires
            self.wf(),
        ensures
            w == total_weight(self.configs@),
    {
        let ghost s = self.configs@;
        let mut acc: u128 = 0;
        let mut i: usize = 0;
        proof {
            assert(s.take(0) =~= Seq::<TierConfig>::empty());
        }
        while i < NUM_TIERS
            invariant
                self.wf(),
                0 <= i <= NUM_TIERS,
                s == self.configs@,
                acc == total_weight(s.take(i as int)),
            decreases NUM_TIERS - i,
        {
            let c = self.configs[i];
            proof {
                lemma_total_weight_bounds(s.take(i as int));
                assert((c.number_of_participants as int) * (c.pool_weight as int) <= (
                u32::MAX as int) * (u32::MAX as int)) by (nonlinear_arith)
                    requires
                        0 <= c.number_of_participants as int <= u32::MAX as int,
                        0 <= c.pool_weight as int <= u32::MAX as int,
                ;
                assert(s.take(i + 1).drop_last() =~= s.take(i as int));
                assert(s.take(i + 1).last() == s[i as int]);
            }
            acc = acc + (c.number_of_participants as u128) * (c.pool_weight as u128);
            i = i + 1;
        }
        proof {
            assert(s.take(NUM_TIERS as int) =~= s);
        }
        acc
    }

    /// The tier's proportional share of the pool: `floor(pool / total
    /// weight) * weight`. Fails `NoParticipants` when the total weight is
    /// zero and `ArithmeticOverflow` when the product leaves `u128`.
    pub fn allocation_cap(&self, tier: Tier, total_pool: u128) -> (r: Result<u128, Error>)
        requires
            self.wf(),
        ensures
            total_weight(self.configs@) == 0 ==> r == Err::<u128, Error>(Error::NoParticipants),
            total_weight(self.configs@) != 0 && spec_allocation_cap(self.configs@, tier, total_pool)
                > u128::MAX ==> r == Err::<u128, Error>(Error::ArithmeticOverflow),
            total_weight(self.configs@) != 0 && spec_allocation_cap(self.configs@, tier, total_pool)
                <= u128::MAX ==> r == Ok::<u128, Error>(
                spec_allocation_cap(self.configs@, tier, total_pool) as u128,
            ),
    {
        let w = self.compute_total_weight();
        if w == 0 {
            return Err(Error::NoParticipants);
        }
        let quotient = total_pool / w;
        let tier_weight = self.configs[tier.index()].pool_weight;
        match quotient.checked_mul(tier_weight as u128) {
            Some(cap) => Ok(cap),
            None => Err(Error::ArithmeticOverflow),
        }
    }

    /// The minimum cap of a tier: the allocation cap scaled by `rate /
    /// 1000`. Fails exactly as [`Self::allocation_cap`] does, and with
    /// `ArithmeticOverflow` when the scaling product leaves `u128`.
    pub fn min_allocation_cap(&self, tier: Tier, total_pool: u128, rate: u32) -> (r: Result<
        u128,
        Error,
    >)
        requires
            self.wf(),
        ensures
            ({
                let cap = spec_allocation_cap(self.configs@, tier, total_pool);
                &&& total_weight(self.configs@) == 0 ==> r == Err::<u128, Error>(
                    Error::NoParticipants,
                )
                &&& total_weight(self.configs@) != 0 && cap > u128::MAX ==> r == Err::<u128, Error>(
                    Error::ArithmeticOverflow,
                )
                &&& total_weight(self.configs@) != 0 && cap <= u128::MAX && cap * rate > u128::MAX
                    ==> r == Err::<u128, Error>(Error::ArithmeticOverflow)
                &&& total_weight(self.configs@) != 0 && cap <= u128::MAX && cap * rate <= u128::MAX
                    ==> r == Ok::<u128, Error>(((cap * rate) / (DENO as int)) as u128)
            }),
    {
        let cap = match self.allocation_cap(tier, total_pool) {
            Ok(c) => c,
            Err(e) => {
                return Err(e);
            },
        };
        proof {
            let w = total_weight(self.configs@);
            let q = total_pool as int / w;
            let pw = self.configs@[tier_index(tier)].pool_weight as int;
            lemma_total_weight_bounds(self.configs@);
            assert(q >= 0) by (nonlinear_arith)
                requires
                    w > 0,
                    total_pool >= 0,
                    q == total_pool as int / w,
            ;
            assert(q * pw >= 0) by (nonlinear_arith)
                requires
                    q >= 0,
                    pw >= 0,
            ;
        }
        match cap.checked_mul(rate as u128) {
            Some(scaled) => Ok(scaled / (DENO as u128)),
            None => Err(Error::ArithmeticOverflow),
        }
    }

    /// Counts one more participant into the tier; called exactly once per
    /// successful registration.
    pub fn record_participant(&mut self, tier: Tier) -> (r: Result<(), Error>)
        requires
            old(self).wf(),
        ensures
            final(self).wf(),
            ({
                let i = tier_index(tier);
                let c = old(self).configs@[i];
                if c.number_of_participants == u32::MAX {
                    r == Err::<(), Error>(Error::ArithmeticOverflow) && final(self).configs@ == old(
                        self,
                    ).configs@
                } else {
                    r == Ok::<(), Error>(()) && final(self).configs@ == old(self).configs@.update(
                        i,
                        TierConfig {
                            number_of_participants: (c.number_of_participants + 1) as u32,
                            ..c
                        },
                    )
                }
            }),
    {
        let i = tier.index();
        let c = self.configs[i];
        if c.number_of_participants == u32::MAX {
            return Err(Error::ArithmeticOverflow);
        }
        self.configs[i] = TierConfig { number_of_participants: c.number_of_participants + 1, ..c };
        proof {
            assert forall|p: int, q: int| 0 <= p < q < self.configs@.len() implies #[trigger] self
                .configs@[p].min_point < #[trigger] self.configs@[q].min_point by {
                assert(old(self).configs@[p].min_point < old(self).configs@[q].min_point);
            }
        }
        Ok(())
    }
}

} // verus!
