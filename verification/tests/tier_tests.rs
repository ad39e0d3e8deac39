use vesting_ido::errors::Error;
use vesting_ido::tier::Tier;
use vesting_ido::tier::TierConfig;
use vesting_ido::tier::TierRegistry;

const E18: u128 = 1_000_000_000_000_000_000;

#[test]
fn tier_config_new_sets_fields() {
    let c = TierConfig::new(7, 3, 1);
    assert_eq!(c.min_point, 7);
    assert_eq!(c.pool_weight, 3);
    assert_eq!(c.number_of_participants, 1);
}

#[test]
fn default_tier_configs_table() {
    let t = TierConfig::get_default_tier_configs();
    assert_eq!(t.len(), 8);
    assert_eq!(t[0].min_point, 0);
    assert_eq!(t[0].pool_weight, 0);
    assert_eq!(t[1].min_point, 2_000 * E18);
    assert_eq!(t[1].pool_weight, 1);
    assert_eq!(t[2].min_point, 4_000 * E18);
    assert_eq!(t[2].pool_weight, 2);
    assert_eq!(t[3].min_point, 10_000 * E18);
    assert_eq!(t[3].pool_weight, 5);
    assert_eq!(t[4].min_point, 17_500 * E18);
    assert_eq!(t[4].pool_weight, 9);
    assert_eq!(t[5].min_point, 35_000 * E18);
    assert_eq!(t[5].pool_weight, 16);
    assert_eq!(t[6].min_point, 90_000 * E18);
    assert_eq!(t[6].pool_weight, 32);
    assert_eq!(t[7].min_point, 175_000 * E18);
    assert_eq!(t[7].pool_weight, 52);
    for c in t.iter() {
        assert_eq!(c.number_of_participants, 0);
    }
}

#[test]
fn tier_boundary_is_inclusive() {
    let r = TierRegistry::new_default();
    // A stake exactly equal to a threshold qualifies for that tier,
    // not the one below it.
    assert_eq!(r.tier_for(2_000 * E18), Tier::Tier1);
    assert_eq!(r.tier_for(4_000 * E18), Tier::Tier2);
    assert_eq!(r.tier_for(175_000 * E18), Tier::Tier7);
    // Just below the threshold falls to the tier below.
    assert_eq!(r.tier_for(2_000 * E18 - 1), Tier::Tier0);
    assert_eq!(r.tier_for(4_000 * E18 - 1), Tier::Tier1);
    // Extremes.
    assert_eq!(r.tier_for(0), Tier::Tier0);
    assert_eq!(r.tier_for(u128::MAX), Tier::Tier7);
}

#[test]
fn allocation_cap_fails_without_participants() {
    let r = TierRegistry::new_default();
    assert_eq!(r.allocation_cap(Tier::Tier1, 1_000_000), Err(Error::NoParticipants));
    assert_eq!(r.min_allocation_cap(Tier::Tier1, 1_000_000, 200), Err(Error::NoParticipants));
}

#[test]
fn allocation_cap_is_pro_rata() {
    let mut r = TierRegistry::new_default();
    r.record_participant(Tier::Tier1).unwrap();
    r.record_participant(Tier::Tier1).unwrap();
    r.record_participant(Tier::Tier2).unwrap();
    // total weight = 2 * 1 + 1 * 2 = 4; pool 1000 -> 250 per weight unit.
    assert_eq!(r.allocation_cap(Tier::Tier1, 1_000), Ok(250));
    assert_eq!(r.allocation_cap(Tier::Tier2, 1_000), Ok(500));
    assert_eq!(r.allocation_cap(Tier::Tier0, 1_000), Ok(0));
    // Minimum cap scales the maximum by rate / 1000.
    assert_eq!(r.min_allocation_cap(Tier::Tier1, 1_000, 200), Ok(50));
    assert_eq!(r.min_allocation_cap(Tier::Tier2, 1_000, 200), Ok(100));
}

#[test]
fn record_participant_counts() {
    let mut r = TierRegistry::new_default();
    assert_eq!(r.record_participant(Tier::Tier3), Ok(()));
    assert_eq!(r.record_participant(Tier::Tier3), Ok(()));
    assert_eq!(r.configs[3].number_of_participants, 2);
    assert_eq!(r.configs[1].number_of_participants, 0);
}

#[test]
fn tier_index_round_trip() {
    let tiers = [
        Tier::Tier0,
        Tier::Tier1,
        Tier::Tier2,
        Tier::Tier3,
        Tier::Tier4,
        Tier::Tier5,
        Tier::Tier6,
        Tier::Tier7,
    ];
    for (i, t) in tiers.iter().enumerate() {
        assert_eq!(t.index(), i);
        assert_eq!(Tier::from_index(i), *t);
    }
}
