use governance::error::GovernanceError;
use governance::instructions::initialize::add_committee_member;
use governance::instructions::initialize::initialize_governance;
use governance::instructions::initialize::remove_committee_member;
use governance::instructions::initialize::update_governance_config;
use governance::instructions::initialize::update_proposal_counter;
use governance::instructions::initialize::update_total_voting_power;
use governance::state::governance::GovernanceConfig;
use governance::state::governance::GovernanceConfigUpdate;

const AUTHORITY: u64 = 1;
const MINT: u64 = 2;

fn fresh_config() -> GovernanceConfig {
    initialize_governance(AUTHORITY, MINT, 6, 100, 1209600, 4000, 5000, 3000, 1000, false, 1000)
        .expect("valid parameters")
}

fn no_update() -> GovernanceConfigUpdate {
    GovernanceConfigUpdate {
        proposal_deposit: None,
        voting_period: None,
        participation_threshold: None,
        approval_threshold: None,
        veto_threshold: None,
        fee_rate: None,
        test_mode: None,
    }
}

#[test]
fn initialize_scales_the_deposit_and_zeroes_counters() {
    let c = fresh_config();
    assert_eq!(c.authority, AUTHORITY);
    assert_eq!(c.committee_token_mint, MINT);
    assert_eq!(c.proposal_deposit, 100_000_000);
    assert_eq!(c.voting_period, 1209600);
    assert_eq!(c.participation_threshold, 4000);
    assert_eq!(c.approval_threshold, 5000);
    assert_eq!(c.veto_threshold, 3000);
    assert_eq!(c.fee_rate, 1000);
    assert_eq!(c.total_voting_power, 0);
    assert_eq!(c.proposal_counter, 0);
    assert_eq!(c.committee_member_count, 0);
    assert_eq!(c.created_at, 1000);
    assert_eq!(c.updated_at, 1000);
    assert!(!c.test_mode);
    assert!(c.get_committee_members().is_empty());
}

#[test]
fn initialize_rejects_bad_parameters() {
    let init = |pt: u16, fee: u16, period: u64, test: bool| {
        initialize_governance(AUTHORITY, MINT, 6, 100, period, pt, 5000, 3000, fee, test, 1000)
    };
    assert_eq!(
        init(10001, 1000, 1209600, false).unwrap_err(),
        GovernanceError::InvalidThreshold
    );
    assert_eq!(
        init(4000, 10001, 1209600, false).unwrap_err(),
        GovernanceError::InvalidFeeRate
    );
    // Production mode requires at least one day.
    assert_eq!(
        init(4000, 1000, 86399, false).unwrap_err(),
        GovernanceError::InvalidVotingPeriod
    );
    // Test mode allows thirty seconds.
    assert!(init(4000, 1000, 30, true).is_ok());
    assert_eq!(
        init(4000, 1000, 29, true).unwrap_err(),
        GovernanceError::InvalidVotingPeriod
    );
    // Both modes cap at thirty days.
    assert_eq!(
        init(4000, 1000, 2592001, false).unwrap_err(),
        GovernanceError::InvalidVotingPeriod
    );
    // Scaling the raw deposit must not overflow.
    assert_eq!(
        initialize_governance(
            AUTHORITY, MINT, 6, u64::MAX, 1209600, 4000, 5000, 3000, 1000, false, 1000
        )
        .unwrap_err(),
        GovernanceError::MathOverflow
    );
}

#[test]
fn config_update_is_validated_and_applied_whole() {
    let mut c = fresh_config();
    let update = GovernanceConfigUpdate {
        proposal_deposit: Some(50_000_000),
        voting_period: Some(86400),
        participation_threshold: Some(2000),
        approval_threshold: None,
        veto_threshold: None,
        fee_rate: Some(500),
        test_mode: None,
    };
    assert_eq!(update_governance_config(&mut c, AUTHORITY, &update, 2000), Ok(()));
    assert_eq!(c.proposal_deposit, 50_000_000);
    assert_eq!(c.voting_period, 86400);
    assert_eq!(c.participation_threshold, 2000);
    assert_eq!(c.approval_threshold, 5000);
    assert_eq!(c.fee_rate, 500);
    assert_eq!(c.updated_at, 2000);

    let bad = GovernanceConfigUpdate { fee_rate: Some(10001), ..no_update() };
    assert_eq!(
        update_governance_config(&mut c, AUTHORITY, &bad, 3000),
        Err(GovernanceError::InvalidFeeRate)
    );
    assert_eq!(c.fee_rate, 500);
    assert_eq!(c.updated_at, 2000);

    assert_eq!(
        update_governance_config(&mut c, 99, &no_update(), 3000),
        Err(GovernanceError::Unauthorized)
    );
}

#[test]
fn config_update_period_bounds_follow_the_new_mode() {
    let mut c = fresh_config();
    // Switching to test mode allows a one-hour window at most.
    let ok = GovernanceConfigUpdate {
        voting_period: Some(3600),
        test_mode: Some(true),
        ..no_update()
    };
    assert!(update_governance_config(&mut c, AUTHORITY, &ok, 2000).is_ok());
    let too_long_for_test = GovernanceConfigUpdate {
        voting_period: Some(3601),
        ..no_update()
    };
    assert_eq!(
        update_governance_config(&mut c, AUTHORITY, &too_long_for_test, 2100),
        Err(GovernanceError::InvalidVotingPeriod)
    );
    // Back to production: a full day is needed again.
    let back = GovernanceConfigUpdate {
        voting_period: Some(86400),
        test_mode: Some(false),
        ..no_update()
    };
    assert!(update_governance_config(&mut c, AUTHORITY, &back, 2200).is_ok());
}

#[test]
fn total_voting_power_and_counter_updates_are_authorized() {
    let mut c = fresh_config();
    assert_eq!(update_total_voting_power(&mut c, AUTHORITY, 777, 2000), Ok(()));
    assert_eq!(c.total_voting_power, 777);
    assert_eq!(
        update_total_voting_power(&mut c, 99, 888, 2100),
        Err(GovernanceError::Unauthorized)
    );
    assert_eq!(c.total_voting_power, 777);

    assert_eq!(update_proposal_counter(&mut c, AUTHORITY, 5, 2200), Ok(()));
    assert_eq!(c.proposal_counter, 5);
    // The counter never goes backwards.
    assert_eq!(
        update_proposal_counter(&mut c, AUTHORITY, 4, 2300),
        Err(GovernanceError::InvalidThreshold)
    );
    assert_eq!(c.proposal_counter, 5);
}

#[test]
fn roster_fills_first_empty_slot_and_reuses_freed_ones() {
    let mut c = fresh_config();
    for m in [10u64, 11, 12] {
        assert_eq!(add_committee_member(&mut c, AUTHORITY, m, 2000), Ok(()));
    }
    assert_eq!(c.committee_member_count, 3);
    assert_eq!(c.get_committee_members(), vec![10, 11, 12]);
    assert!(c.is_committee_member(11));

    assert_eq!(
        add_committee_member(&mut c, AUTHORITY, 11, 2100),
        Err(GovernanceError::MemberAlreadyExists)
    );
    assert_eq!(
        add_committee_member(&mut c, 99, 13, 2100),
        Err(GovernanceError::Unauthorized)
    );

    assert_eq!(remove_committee_member(&mut c, AUTHORITY, 11, 2200), Ok(()));
    assert_eq!(c.committee_member_count, 2);
    assert!(!c.is_committee_member(11));
    assert_eq!(
        remove_committee_member(&mut c, AUTHORITY, 11, 2300),
        Err(GovernanceError::MemberNotFound)
    );

    // The freed slot is the first empty one, so the next member lands there.
    assert_eq!(add_committee_member(&mut c, AUTHORITY, 14, 2400), Ok(()));
    assert_eq!(c.get_committee_members(), vec![10, 14, 12]);
}

#[test]
fn roster_capacity_is_ten() {
    let mut c = fresh_config();
    for m in 10u64..20 {
        assert_eq!(add_committee_member(&mut c, AUTHORITY, m, 2000), Ok(()));
    }
    assert_eq!(c.committee_member_count, 10);
    assert_eq!(
        add_committee_member(&mut c, AUTHORITY, 99, 2100),
        Err(GovernanceError::CommitteeFull)
    );
}

#[test]
fn fee_and_refund_split_the_amount() {
    let c = fresh_config();
    // Fee rate 10%: the committee keeps a tenth, the proposer gets the rest.
    assert_eq!(c.calculate_committee_fee(100_000_000), 10_000_000);
    assert_eq!(c.calculate_proposer_refund(100_000_000), 90_000_000);
    // Truncating division: the refund takes the rounding benefit.
    assert_eq!(c.calculate_committee_fee(19), 1);
    assert_eq!(c.calculate_proposer_refund(19), 18);
}

#[test]
fn proposal_ids_are_assigned_in_order() {
    let mut c = fresh_config();
    assert_eq!(c.next_proposal_id(), 1);
    assert_eq!(c.next_proposal_id(), 2);
    assert_eq!(c.proposal_counter, 2);
}
