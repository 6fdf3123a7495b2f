use governance::state::proposal::ProposalStatus;
use governance::state::proposal::VoteType;
use governance::state::vote::Vote;
use governance::state::vote::VoteDelegation;
use governance::state::vote::VoteLedger;
use governance::state::vote::VoteStats;
use governance::state::vote::VotingPowerCalculator;
use governance::error::GovernanceError;

fn stats(total: u64, yes: u64, no: u64, abstain: u64, veto: u64) -> VoteStats {
    VoteStats {
        total_votes: total,
        yes_votes: yes,
        no_votes: no,
        abstain_votes: abstain,
        veto_votes: veto,
        voter_count: 0,
    }
}

#[test]
fn power_counts_whole_tokens_only() {
    assert_eq!(VotingPowerCalculator::calculate_voting_power(5_500_000, 6), 5);
    assert_eq!(VotingPowerCalculator::calculate_voting_power(999_999, 6), 0);
    assert_eq!(VotingPowerCalculator::calculate_voting_power(42, 0), 42);
    assert_eq!(
        VotingPowerCalculator::calculate_voting_power(u64::MAX, 19),
        1
    );
}

#[test]
fn minimum_power_is_one_whole_token() {
    assert_eq!(VotingPowerCalculator::minimum_voting_power(0), 1);
    assert_eq!(VotingPowerCalculator::minimum_voting_power(6), 1_000_000);
    assert_eq!(
        VotingPowerCalculator::minimum_voting_power(19),
        10_000_000_000_000_000_000
    );
}

#[test]
fn claimed_power_is_checked_against_balance() {
    assert!(VotingPowerCalculator::validate_voting_power(5, 5_000_000, 6));
    assert!(!VotingPowerCalculator::validate_voting_power(6, 5_000_000, 6));
}

#[test]
fn worked_fixture_resolves_to_passed() {
    // total_voting_power 100; yes 55, no 0, abstain 0, veto 20.
    let s = stats(75, 55, 0, 0, 20);
    assert_eq!(s.calculate_participation_rate(100), 7500);
    assert_eq!(s.calculate_approval_rate(), 7333);
    assert_eq!(s.calculate_veto_rate(), 2666);
    // veto 2666 < 3000, participation 7500 >= 4000, approval 7333 > 5000.
    assert_eq!(
        s.determine_proposal_status(100, 4000, 5000, 3000),
        ProposalStatus::Passed
    );
}

#[test]
fn veto_overrides_high_approval() {
    // Approval share 70% would pass, but the veto share reaches 30%.
    let s = stats(100, 70, 0, 0, 30);
    assert_eq!(s.calculate_approval_rate(), 7000);
    assert_eq!(s.calculate_veto_rate(), 3000);
    assert!(s.is_vetoed(3000));
    assert_eq!(
        s.determine_proposal_status(100, 4000, 5000, 3000),
        ProposalStatus::Vetoed
    );
}

#[test]
fn low_participation_rejects_even_all_yes() {
    // Every cast vote is a yes, but only 10 of 100 power voted.
    let s = stats(10, 10, 0, 0, 0);
    assert_eq!(s.calculate_participation_rate(100), 1000);
    assert!(!s.meets_participation_threshold(100, 4000));
    assert_eq!(
        s.determine_proposal_status(100, 4000, 5000, 3000),
        ProposalStatus::Rejected
    );
}

#[test]
fn approval_rate_equal_to_threshold_rejects() {
    let s = stats(100, 50, 50, 0, 0);
    assert_eq!(s.calculate_approval_rate(), 5000);
    assert!(!s.is_approved(5000));
    assert!(s.is_approved(4999));
    assert_eq!(
        s.determine_proposal_status(100, 4000, 5000, 3000),
        ProposalStatus::Rejected
    );
}

#[test]
fn resolution_is_always_terminal_and_deterministic() {
    let samples = [
        stats(0, 0, 0, 0, 0),
        stats(75, 55, 0, 0, 20),
        stats(100, 70, 0, 0, 30),
        stats(10, 10, 0, 0, 0),
        stats(100, 50, 50, 0, 0),
        stats(1, 0, 1, 0, 0),
        stats(u64::MAX, u64::MAX, 0, 0, 0),
    ];
    for s in samples.iter() {
        for tvp in [0u64, 1, 100, u64::MAX] {
            let first = s.determine_proposal_status(tvp, 4000, 5000, 3000);
            let again = s.determine_proposal_status(tvp, 4000, 5000, 3000);
            assert_eq!(first, again);
            assert!(matches!(
                first,
                ProposalStatus::Passed | ProposalStatus::Rejected | ProposalStatus::Vetoed
            ));
        }
    }
}

#[test]
fn zero_divisors_give_zero_rates() {
    let empty = stats(0, 0, 0, 0, 0);
    assert_eq!(empty.calculate_participation_rate(0), 0);
    assert_eq!(empty.calculate_approval_rate(), 0);
    assert_eq!(empty.calculate_veto_rate(), 0);
    // With no votes the veto rate is 0, so a zero veto threshold still fires.
    assert_eq!(
        empty.determine_proposal_status(100, 4000, 5000, 0),
        ProposalStatus::Vetoed
    );
    // With a positive veto threshold an empty vote set fails participation.
    assert_eq!(
        empty.determine_proposal_status(100, 4000, 5000, 3000),
        ProposalStatus::Rejected
    );
}

#[test]
fn default_stats_are_empty() {
    let d = VoteStats::default();
    assert_eq!(d, stats(0, 0, 0, 0, 0));
}

#[test]
fn vote_records_freeze_the_snapshot() {
    let v = Vote::new(7, 11, VoteType::Yes, 3_000_000, 500);
    assert_eq!(v.proposal_id, 7);
    assert_eq!(v.voter, 11);
    assert_eq!(v.vote_type, VoteType::Yes);
    assert_eq!(v.timestamp, 500);
    assert_eq!(v.token_balance_snapshot, 3_000_000);
    assert!(!v.is_revoked);
    assert_eq!(v.revoked_at, None);
    assert!(v.is_valid());
    assert_eq!(v.calculate_voting_power(6), 3);
}

#[test]
fn revoked_or_empty_votes_carry_no_power() {
    let mut v = Vote::new(7, 11, VoteType::No, 3_000_000, 500);
    assert_eq!(v.revoke(600), Ok(()));
    assert!(v.is_revoked);
    assert_eq!(v.revoked_at, Some(600));
    assert!(!v.is_valid());
    assert_eq!(v.calculate_voting_power(6), 0);
    assert_eq!(v.revoke(700), Err(GovernanceError::VoteAlreadyRevoked));

    let zero = Vote::new(7, 12, VoteType::Yes, 0, 500);
    assert!(!zero.is_valid());
    assert_eq!(zero.calculate_voting_power(6), 0);
}

#[test]
fn ledger_rejects_second_vote_per_pair() {
    let mut ledger = VoteLedger::new();
    let first = Vote::new(1, 10, VoteType::Yes, 2_000_000, 100);
    assert_eq!(ledger.insert(first), Ok(()));
    // A second vote by the same voter on the same proposal fails with the
    // duplicate-key condition, whatever its stance.
    let second = Vote::new(1, 10, VoteType::NoWithVeto, 2_000_000, 150);
    assert_eq!(ledger.insert(second), Err(GovernanceError::AlreadyVoted));
    // Other proposals and other voters are unaffected.
    assert_eq!(
        ledger.insert(Vote::new(2, 10, VoteType::No, 2_000_000, 160)),
        Ok(())
    );
    assert_eq!(
        ledger.insert(Vote::new(1, 11, VoteType::Abstain, 2_000_000, 170)),
        Ok(())
    );
    assert!(ledger.has_vote(1, 10));
    assert!(!ledger.has_vote(3, 10));
}

#[test]
fn ledger_read_all_filters_by_proposal() {
    let mut ledger = VoteLedger::new();
    ledger.insert(Vote::new(1, 10, VoteType::Yes, 100, 1)).unwrap();
    ledger.insert(Vote::new(2, 10, VoteType::No, 100, 2)).unwrap();
    ledger.insert(Vote::new(1, 11, VoteType::Abstain, 100, 3)).unwrap();
    let votes = ledger.read_all(1);
    assert_eq!(votes.len(), 2);
    assert_eq!(votes[0].voter, 10);
    assert_eq!(votes[1].voter, 11);
    assert!(ledger.read_all(9).is_empty());
}

#[test]
fn delegation_window_and_revocation() {
    let mut d = VoteDelegation {
        delegator: 1,
        delegate: 2,
        delegated_power: 50,
        start_time: 100,
        end_time: Some(200),
        is_active: true,
    };
    assert!(!d.is_valid(99));
    assert!(d.is_valid(100));
    assert!(d.is_valid(200));
    assert!(!d.is_valid(201));
    d.revoke();
    assert!(!d.is_valid(150));

    let permanent = VoteDelegation { end_time: None, ..d.clone() };
    let active = VoteDelegation { is_active: true, ..permanent };
    assert!(active.is_valid(i64::MAX));
}
