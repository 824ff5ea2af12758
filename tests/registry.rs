use risk_score::{RiskError, RiskTierContract, RiskTierData, Tier, UserId};

const ALICE: UserId = UserId(1);
const BOB: UserId = UserId(2);

#[test]
fn score_out_of_range_is_refused_and_changes_nothing() {
    let mut reg = RiskTierContract::new();
    assert_eq!(reg.set_risk_tier(ALICE, 40, Tier::Tier2, Tier::Tier1, 100), Ok(()));
    assert_eq!(
        reg.set_risk_tier(ALICE, 101, Tier::Tier1, Tier::Tier1, 200),
        Err(RiskError::ValidationError)
    );
    assert_eq!(
        reg.set_risk_tier(BOB, u32::MAX, Tier::Tier1, Tier::Tier1, 200),
        Err(RiskError::ValidationError)
    );
    assert_eq!(
        reg.get_risk_tier(ALICE),
        Some(RiskTierData { score: 40, tier: Tier::Tier2, timestamp: 100, chosen_tier: Tier::Tier1 })
    );
    assert_eq!(reg.get_risk_tier(BOB), None);
    assert!(reg.get_tier_users(Tier::Tier1).is_empty());
}

#[test]
fn score_bounds_are_inclusive() {
    let mut reg = RiskTierContract::new();
    assert_eq!(reg.set_risk_tier(ALICE, 0, Tier::Tier1, Tier::Tier1, 1), Ok(()));
    assert_eq!(reg.set_risk_tier(BOB, 100, Tier::Tier3, Tier::Tier3, 1), Ok(()));
    assert_eq!(reg.get_score(ALICE), 0);
    assert_eq!(reg.get_score(BOB), 100);
}

#[test]
fn unknown_tier_names_are_refused() {
    let mut reg = RiskTierContract::new();
    for (tier, chosen) in [("TIER_4", "TIER_1"), ("TIER_1", "tier_2"), ("", "TIER_3"), ("TIER_11", "TIER_1")] {
        assert_eq!(
            reg.set_risk_tier_by_name(ALICE, 10, tier, chosen, 5),
            Err(RiskError::ValidationError)
        );
    }
    assert_eq!(reg.get_risk_tier(ALICE), None);
    assert_eq!(Tier::from_name("TIER_0"), Err(RiskError::ValidationError));
    assert_eq!(Tier::from_name("TIER_2"), Ok(Tier::Tier2));
}

#[test]
fn set_by_name_stores_the_named_tiers() {
    let mut reg = RiskTierContract::new();
    assert_eq!(reg.set_risk_tier_by_name(ALICE, 25, "TIER_1", "TIER_2", 7), Ok(()));
    assert_eq!(
        reg.get_risk_tier(ALICE),
        Some(RiskTierData { score: 25, tier: Tier::Tier1, timestamp: 7, chosen_tier: Tier::Tier2 })
    );
    assert_eq!(
        reg.set_risk_tier_by_name(ALICE, 101, "TIER_1", "TIER_1", 8),
        Err(RiskError::ValidationError)
    );
    assert_eq!(reg.get_score(ALICE), 25);
}

#[test]
fn set_then_get_returns_the_record() {
    let mut reg = RiskTierContract::new();
    assert_eq!(reg.set_risk_tier(ALICE, 55, Tier::Tier2, Tier::Tier3, 1_700_000_000), Ok(()));
    let data = reg.get_risk_tier(ALICE).unwrap();
    assert_eq!(data.score, 55);
    assert_eq!(data.tier, Tier::Tier2);
    assert_eq!(data.chosen_tier, Tier::Tier3);
    assert!(data.timestamp >= 1_700_000_000);
    assert_eq!(reg.get_chosen_tier(ALICE), Tier::Tier3);
}

#[test]
fn reassessment_replaces_the_whole_record() {
    let mut reg = RiskTierContract::new();
    reg.set_risk_tier(ALICE, 80, Tier::Tier3, Tier::Tier3, 10).unwrap();
    reg.set_risk_tier(ALICE, 20, Tier::Tier1, Tier::Tier2, 20).unwrap();
    assert_eq!(
        reg.get_risk_tier(ALICE),
        Some(RiskTierData { score: 20, tier: Tier::Tier1, timestamp: 20, chosen_tier: Tier::Tier2 })
    );
    assert_eq!(reg.get_chosen_tier(ALICE), Tier::Tier2);
}

#[test]
fn unknown_user_defaults() {
    let reg = RiskTierContract::new();
    assert_eq!(reg.get_score(ALICE), 0);
    assert_eq!(reg.get_chosen_tier(ALICE), Tier::Tier3);
    assert_eq!(reg.get_risk_tier(ALICE), None);
    assert!(!reg.can_access_tier(ALICE, Tier::Tier3));
    assert!(reg.get_tier_users(Tier::Tier2).is_empty());
}

#[test]
fn member_listed_once_after_repeated_assessment() {
    let mut reg = RiskTierContract::new();
    reg.set_risk_tier(ALICE, 50, Tier::Tier2, Tier::Tier2, 1).unwrap();
    reg.set_risk_tier(ALICE, 60, Tier::Tier2, Tier::Tier3, 2).unwrap();
    reg.set_risk_tier(ALICE, 40, Tier::Tier2, Tier::Tier1, 3).unwrap();
    assert_eq!(reg.get_tier_users(Tier::Tier2), vec![ALICE]);
}

#[test]
fn tier_lists_keep_order_of_first_assessment() {
    let mut reg = RiskTierContract::new();
    reg.set_risk_tier(BOB, 50, Tier::Tier2, Tier::Tier2, 1).unwrap();
    reg.set_risk_tier(ALICE, 50, Tier::Tier2, Tier::Tier2, 2).unwrap();
    reg.set_risk_tier(BOB, 45, Tier::Tier2, Tier::Tier2, 3).unwrap();
    assert_eq!(reg.get_tier_users(Tier::Tier2), vec![BOB, ALICE]);
}

#[test]
fn reassessed_user_stays_listed_under_old_tier() {
    let mut reg = RiskTierContract::new();
    reg.set_risk_tier(ALICE, 50, Tier::Tier2, Tier::Tier2, 1).unwrap();
    reg.set_risk_tier(ALICE, 90, Tier::Tier3, Tier::Tier3, 2).unwrap();
    assert_eq!(reg.get_tier_users(Tier::Tier2), vec![ALICE]);
    assert_eq!(reg.get_tier_users(Tier::Tier3), vec![ALICE]);
    let stats = reg.get_tier_stats();
    assert_eq!((stats.tier_1, stats.tier_2, stats.tier_3), (0, 1, 1));
}

#[test]
fn high_risk_user_cannot_choose_lower_tier() {
    let mut reg = RiskTierContract::new();
    reg.set_risk_tier(ALICE, 71, Tier::Tier2, Tier::Tier3, 10).unwrap();
    assert_eq!(reg.update_chosen_tier(ALICE, Tier::Tier2, 20), Err(RiskError::AccessDeniedError));
    assert_eq!(reg.update_chosen_tier(ALICE, Tier::Tier1, 20), Err(RiskError::AccessDeniedError));
    let data = reg.get_risk_tier(ALICE).unwrap();
    assert_eq!(data.chosen_tier, Tier::Tier3);
    assert_eq!(data.timestamp, 10);
    assert_eq!(reg.get_chosen_tier(ALICE), Tier::Tier3);
}

#[test]
fn high_risk_user_may_choose_top_tier_and_timestamp_moves() {
    let mut reg = RiskTierContract::new();
    reg.set_risk_tier(ALICE, 95, Tier::Tier3, Tier::Tier3, 10).unwrap();
    assert_eq!(reg.update_chosen_tier(ALICE, Tier::Tier3, 25), Ok(()));
    let data = reg.get_risk_tier(ALICE).unwrap();
    assert_eq!(data.chosen_tier, Tier::Tier3);
    assert_eq!(data.timestamp, 25);
    assert!(data.timestamp > 10);
    assert_eq!(data.score, 95);
}

#[test]
fn creation_accepts_any_chosen_tier_even_for_high_risk() {
    let mut reg = RiskTierContract::new();
    assert_eq!(reg.set_risk_tier(ALICE, 90, Tier::Tier3, Tier::Tier1, 1), Ok(()));
    assert_eq!(reg.get_chosen_tier(ALICE), Tier::Tier1);
}

#[test]
fn threshold_score_seventy_may_choose_any_tier() {
    let mut reg = RiskTierContract::new();
    reg.set_risk_tier(ALICE, 70, Tier::Tier2, Tier::Tier2, 1).unwrap();
    assert_eq!(reg.update_chosen_tier(ALICE, Tier::Tier1, 2), Ok(()));
    assert_eq!(reg.get_chosen_tier(ALICE), Tier::Tier1);
    assert_eq!(
        reg.get_risk_tier(ALICE),
        Some(RiskTierData { score: 70, tier: Tier::Tier2, timestamp: 2, chosen_tier: Tier::Tier1 })
    );
    assert_eq!(reg.get_tier_users(Tier::Tier1), vec![]);
}

#[test]
fn update_without_record_does_nothing() {
    let mut reg = RiskTierContract::new();
    assert_eq!(reg.update_chosen_tier(ALICE, Tier::Tier1, 5), Ok(()));
    assert_eq!(reg.get_risk_tier(ALICE), None);
    assert_eq!(reg.get_chosen_tier(ALICE), Tier::Tier3);
}

#[test]
fn access_follows_score_thresholds() {
    let mut reg = RiskTierContract::new();
    let low = UserId(10);
    let mid = UserId(11);
    let edge = UserId(12);
    let high = UserId(13);
    reg.set_risk_tier(low, 30, Tier::Tier1, Tier::Tier1, 1).unwrap();
    reg.set_risk_tier(mid, 31, Tier::Tier2, Tier::Tier2, 1).unwrap();
    reg.set_risk_tier(edge, 70, Tier::Tier2, Tier::Tier2, 1).unwrap();
    reg.set_risk_tier(high, 71, Tier::Tier3, Tier::Tier1, 1).unwrap();
    assert!(reg.can_access_tier(low, Tier::Tier1));
    assert!(!reg.can_access_tier(mid, Tier::Tier1));
    assert!(reg.can_access_tier(mid, Tier::Tier2));
    assert!(reg.can_access_tier(edge, Tier::Tier2));
    assert!(!reg.can_access_tier(high, Tier::Tier2));
    assert!(!reg.can_access_tier(high, Tier::Tier1));
    for u in [low, mid, edge, high] {
        assert!(reg.can_access_tier(u, Tier::Tier3));
    }
    assert!(!reg.can_access_tier(UserId(99), Tier::Tier3));
}

#[test]
fn stats_match_tier_user_lists() {
    let mut reg = RiskTierContract::new();
    reg.set_risk_tier(UserId(1), 10, Tier::Tier1, Tier::Tier1, 1).unwrap();
    reg.set_risk_tier(UserId(2), 20, Tier::Tier1, Tier::Tier1, 1).unwrap();
    reg.set_risk_tier(UserId(3), 50, Tier::Tier2, Tier::Tier2, 1).unwrap();
    reg.set_risk_tier(UserId(1), 15, Tier::Tier1, Tier::Tier2, 2).unwrap();
    let stats = reg.get_tier_stats();
    assert_eq!(stats.tier_1, reg.get_tier_users(Tier::Tier1).len());
    assert_eq!(stats.tier_2, reg.get_tier_users(Tier::Tier2).len());
    assert_eq!(stats.tier_3, reg.get_tier_users(Tier::Tier3).len());
    assert_eq!((stats.tier_1, stats.tier_2, stats.tier_3), (2, 1, 0));
}

#[test]
fn stats_of_empty_registry_are_zero() {
    let reg = RiskTierContract::new();
    let stats = reg.get_tier_stats();
    assert_eq!((stats.tier_1, stats.tier_2, stats.tier_3), (0, 0, 0));
}

#[test]
fn alice_high_risk_cannot_drop_to_tier_one() {
    let mut reg = RiskTierContract::new();
    let alice = UserId(7);
    assert_eq!(reg.set_risk_tier_by_name(alice, 85, "TIER_3", "TIER_3", 1000), Ok(()));
    assert_eq!(reg.update_chosen_tier(alice, Tier::Tier1, 1001), Err(RiskError::AccessDeniedError));
    assert_eq!(reg.get_chosen_tier(alice), Tier::Tier3);
}

#[test]
fn tier_rules_on_scores() {
    assert!(Tier::Tier1.admits_score(0));
    assert!(Tier::Tier1.admits_score(30));
    assert!(!Tier::Tier1.admits_score(31));
    assert!(Tier::Tier2.admits_score(70));
    assert!(!Tier::Tier2.admits_score(71));
    assert!(Tier::Tier3.admits_score(100));
    assert!(risk_score::tier::may_choose_tier(70, Tier::Tier1));
    assert!(!risk_score::tier::may_choose_tier(71, Tier::Tier2));
    assert!(risk_score::tier::may_choose_tier(71, Tier::Tier3));
}
