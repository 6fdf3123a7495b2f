use governance::error::GovernanceError;
use governance::instructions::initialize::add_committee_member;
use governance::instructions::initialize::initialize_governance;
use governance::instructions::proposal::calculate_voting_results_from_votes;
use governance::instructions::proposal::cast_vote;
use governance::instructions::proposal::create_proposal;
use governance::instructions::proposal::execute_proposal;
use governance::instructions::proposal::finalize_proposal;
use governance::instructions::proposal::settle_deposit;
use governance::instructions::proposal::DepositDisposition;
use governance::instructions::proposal::LedgerEntry;
use governance::instructions::proposal::TokenBalance;
use governance::instructions::query::query_voting_power;
use governance::state::governance::GovernanceConfig;
use governance::state::proposal::Proposal;
use governance::state::proposal::ProposalStatus;
use governance::state::proposal::ProposalType;
use governance::state::proposal::VoteType;
use governance::state::vote::Vote;
use governance::state::vote::VoteLedger;
use governance::state::vote::VotingPowerCalculator;

const AUTHORITY: u64 = 1;
const MINT: u64 = 2;
const ALICE: u64 = 10;
const BOB: u64 = 11;
const DECIMALS: u8 = 0;

/// A config in test mode with a 60-second window, a zero-decimal committee
/// token, and a configured minimum deposit of 100 raw units.
fn committee_config() -> GovernanceConfig {
    let mut c = initialize_governance(
        AUTHORITY, MINT, 0, 100, 60, 4000, 5000, 3000, 1000, true, 1000,
    )
    .expect("valid parameters");
    add_committee_member(&mut c, AUTHORITY, ALICE, 1000).unwrap();
    add_committee_member(&mut c, AUTHORITY, BOB, 1000).unwrap();
    c
}

fn open_proposal(c: &mut GovernanceConfig, now: i64) -> Proposal {
    create_proposal(
        c,
        ALICE,
        "Sanction merchant X".to_string(),
        "Evidence attached".to_string(),
        ProposalType::SlashMerchant,
        None,
        None,
        now,
    )
    .expect("valid proposal")
}

fn token(owner: u64, amount: u64) -> LedgerEntry {
    LedgerEntry::Token(TokenBalance { owner, mint: MINT, amount })
}

#[test]
fn create_assigns_ids_and_opens_the_window() {
    let mut c = committee_config();
    let p = open_proposal(&mut c, 1000);
    assert_eq!(p.id, 1);
    assert_eq!(c.proposal_counter, 1);
    assert_eq!(p.proposer, ALICE);
    assert_eq!(p.deposit_amount, 100);
    assert_eq!(p.created_at, 1000);
    assert_eq!(p.voting_start, 1000);
    assert_eq!(p.voting_end, 1060);
    assert_eq!(p.status, ProposalStatus::Pending);
    assert_eq!(p.total_votes, 0);
    assert!(p.can_vote(1060));
    assert!(!p.can_vote(1061));
    assert!(!p.is_voting_ended(1060));
    assert!(p.is_voting_ended(1061));
    let q = open_proposal(&mut c, 1100);
    assert_eq!(q.id, 2);
}

#[test]
fn create_validates_texts_and_custom_deposit() {
    let mut c = committee_config();
    let create = |c: &mut GovernanceConfig, title: String, desc: String, custom: Option<u64>| {
        create_proposal(
            c,
            ALICE,
            title,
            desc,
            ProposalType::RuleUpdate,
            None,
            custom,
            1000,
        )
    };
    assert_eq!(
        create(&mut c, "t".repeat(101), "d".to_string(), None).unwrap_err(),
        GovernanceError::InvalidProposalTitleLength
    );
    assert_eq!(
        create(&mut c, "t".to_string(), "d".repeat(801), None).unwrap_err(),
        GovernanceError::InvalidProposalDescriptionLength
    );
    assert_eq!(c.proposal_counter, 0);
    // A custom deposit is given in raw units and scaled by the deposit
    // token's nine decimals; it must cover the configured minimum.
    let p = create(&mut c, "t".to_string(), "d".to_string(), Some(3)).unwrap();
    assert_eq!(p.deposit_amount, 3_000_000_000);
    assert_eq!(
        create(&mut c, "t".to_string(), "d".to_string(), Some(u64::MAX)).unwrap_err(),
        GovernanceError::MathOverflow
    );
    // A custom deposit below the configured minimum is rejected.
    let mut pricey = committee_config();
    pricey.proposal_deposit = 10_000_000_000;
    assert_eq!(
        create(&mut pricey, "t".to_string(), "d".to_string(), Some(9)).unwrap_err(),
        GovernanceError::InsufficientProposalDeposit
    );
}

#[test]
fn cast_checks_membership_window_and_balance() {
    let mut c = committee_config();
    let p = open_proposal(&mut c, 1000);
    let mut ledger = VoteLedger::new();

    assert_eq!(
        cast_vote(&mut ledger, &p, &c, p.id, 99, VoteType::Yes, 50, DECIMALS, 1010),
        Err(GovernanceError::NotCommitteeMember)
    );
    assert_eq!(
        cast_vote(&mut ledger, &p, &c, p.id, ALICE, VoteType::Yes, 0, DECIMALS, 1010),
        Err(GovernanceError::InsufficientVotingPower)
    );
    // The window closes strictly after voting_end.
    assert_eq!(
        cast_vote(&mut ledger, &p, &c, p.id, ALICE, VoteType::Yes, 50, DECIMALS, 1061),
        Err(GovernanceError::VotingPeriodEnded)
    );
    assert_eq!(
        cast_vote(&mut ledger, &p, &c, p.id, ALICE, VoteType::Yes, 55, DECIMALS, 1060),
        Ok(())
    );
    // A second vote by the same voter fails whatever its stance.
    assert_eq!(
        cast_vote(&mut ledger, &p, &c, p.id, ALICE, VoteType::No, 55, DECIMALS, 1060),
        Err(GovernanceError::AlreadyVoted)
    );
    let records = ledger.read_all(p.id);
    assert_eq!(records.len(), 1);
    assert_eq!(records[0].token_balance_snapshot, 55);
    assert_eq!(records[0].timestamp, 1060);
}

/// The worked fixture: total live power 100, yes 55, veto 20.
fn fixture_entries(ledger: &VoteLedger, pid: u64) -> Vec<LedgerEntry> {
    let mut entries = vec![token(ALICE, 55), token(BOB, 45)];
    for v in ledger.read_all(pid) {
        entries.push(LedgerEntry::VoteRecord(v));
    }
    entries
}

fn voted_fixture() -> (GovernanceConfig, Proposal, VoteLedger) {
    let mut c = committee_config();
    let p = open_proposal(&mut c, 1000);
    let mut ledger = VoteLedger::new();
    cast_vote(&mut ledger, &p, &c, p.id, ALICE, VoteType::Yes, 55, DECIMALS, 1010).unwrap();
    cast_vote(&mut ledger, &p, &c, p.id, BOB, VoteType::NoWithVeto, 20, DECIMALS, 1020).unwrap();
    (c, p, ledger)
}

#[test]
fn tally_reads_roster_block_then_votes() {
    let (c, p, ledger) = voted_fixture();
    let entries = fixture_entries(&ledger, p.id);
    let (tvp, (yes, no, abstain, veto)) =
        calculate_voting_results_from_votes(&c, MINT, DECIMALS, &entries, p.id).unwrap();
    assert_eq!(tvp, 100);
    assert_eq!((yes, no, abstain, veto), (55, 0, 0, 20));
}

#[test]
fn tally_skips_foreign_and_mismatched_records() {
    let (c, p, ledger) = voted_fixture();
    let votes: Vec<LedgerEntry> =
        ledger.read_all(p.id).into_iter().map(LedgerEntry::VoteRecord).collect();
    // Wrong owner in Alice's slot, wrong mint in Bob's: both contribute 0.
    let mut entries = vec![
        token(BOB, 55),
        LedgerEntry::Token(TokenBalance { owner: BOB, mint: 77, amount: 45 }),
    ];
    entries.extend(votes.iter().cloned());
    let (tvp, buckets) =
        calculate_voting_results_from_votes(&c, MINT, DECIMALS, &entries, p.id).unwrap();
    assert_eq!(tvp, 0);
    assert_eq!(buckets, (55, 0, 0, 20));

    // A vote for another proposal and a revoked vote are not counted.
    let mut stray = vec![token(ALICE, 55), token(BOB, 45)];
    stray.push(LedgerEntry::VoteRecord(Vote::new(9, ALICE, VoteType::Yes, 55, 1010)));
    let mut revoked = Vote::new(p.id, BOB, VoteType::Yes, 20, 1020);
    revoked.revoke(1030).unwrap();
    stray.push(LedgerEntry::VoteRecord(revoked));
    stray.push(LedgerEntry::Other);
    let (tvp, buckets) =
        calculate_voting_results_from_votes(&c, MINT, DECIMALS, &stray, p.id).unwrap();
    assert_eq!(tvp, 100);
    assert_eq!(buckets, (0, 0, 0, 0));

    // A shorter enumeration simply undercounts.
    let (tvp, _) =
        calculate_voting_results_from_votes(&c, MINT, DECIMALS, &vec![token(ALICE, 55)], p.id)
            .unwrap();
    assert_eq!(tvp, 55);
}

#[test]
fn tally_rejects_malformed_roster_records() {
    let (c, p, _) = voted_fixture();
    let entries = vec![token(ALICE, 55), LedgerEntry::BadToken];
    assert_eq!(
        calculate_voting_results_from_votes(&c, MINT, DECIMALS, &entries, p.id).unwrap_err(),
        GovernanceError::InvalidAccountData
    );
}

#[test]
fn finalize_applies_the_fixture_and_splits_the_deposit() {
    let (c, mut p, ledger) = voted_fixture();
    let pid = p.id;
    let entries = fixture_entries(&ledger, pid);
    // Before the window closes finalization is refused.
    assert_eq!(
        finalize_proposal(&mut p, &c, MINT, DECIMALS, &entries, pid, 1060).unwrap_err(),
        GovernanceError::VotingPeriodNotEnded
    );
    assert_eq!(p.status, ProposalStatus::Pending);

    let disposition =
        finalize_proposal(&mut p, &c, MINT, DECIMALS, &entries, pid, 1061).unwrap();
    assert_eq!(p.status, ProposalStatus::Passed);
    assert_eq!(p.yes_votes, 55);
    assert_eq!(p.no_votes, 0);
    assert_eq!(p.abstain_votes, 0);
    assert_eq!(p.veto_votes, 20);
    assert_eq!(p.total_votes, 75);
    assert_eq!(disposition, DepositDisposition::Split { refund: 90, fee: 10 });

    // The Pending edge cannot be retraversed.
    assert_eq!(
        finalize_proposal(&mut p, &c, MINT, DECIMALS, &entries, pid, 1062).unwrap_err(),
        GovernanceError::ProposalNotActive
    );
}

#[test]
fn vetoed_proposal_forfeits_the_whole_deposit() {
    let mut c = committee_config();
    let mut p = open_proposal(&mut c, 1000);
    let pid = p.id;
    let mut ledger = VoteLedger::new();
    cast_vote(&mut ledger, &p, &c, pid, ALICE, VoteType::Yes, 55, DECIMALS, 1010).unwrap();
    cast_vote(&mut ledger, &p, &c, pid, BOB, VoteType::NoWithVeto, 45, DECIMALS, 1020).unwrap();
    let entries = fixture_entries(&ledger, pid);
    let disposition =
        finalize_proposal(&mut p, &c, MINT, DECIMALS, &entries, pid, 1061).unwrap();
    // veto rate 4500 >= 3000: vetoed, deposit stays in custody.
    assert_eq!(p.status, ProposalStatus::Vetoed);
    assert_eq!(disposition, DepositDisposition::Forfeit { retained: 100 });
}

#[test]
fn deposit_split_follows_the_status() {
    assert_eq!(
        settle_deposit(ProposalStatus::Passed, 100_000_000),
        DepositDisposition::Split { refund: 90_000_000, fee: 10_000_000 }
    );
    assert_eq!(
        settle_deposit(ProposalStatus::Rejected, 100_000_000),
        DepositDisposition::Split { refund: 90_000_000, fee: 10_000_000 }
    );
    assert_eq!(
        settle_deposit(ProposalStatus::Executed, 100_000_000),
        DepositDisposition::Split { refund: 90_000_000, fee: 10_000_000 }
    );
    assert_eq!(
        settle_deposit(ProposalStatus::Vetoed, 100_000_000),
        DepositDisposition::Forfeit { retained: 100_000_000 }
    );
    assert_eq!(
        settle_deposit(ProposalStatus::Pending, 100_000_000),
        DepositDisposition::Untouched
    );
    // The retained fee is the ceiling of ten percent.
    assert_eq!(
        settle_deposit(ProposalStatus::Passed, 19),
        DepositDisposition::Split { refund: 17, fee: 2 }
    );
}

#[test]
fn execute_records_a_summary_and_is_terminal() {
    let (c, mut p, ledger) = voted_fixture();
    let pid = p.id;
    let entries = fixture_entries(&ledger, pid);
    assert_eq!(
        execute_proposal(&mut p, pid, 1100).unwrap_err(),
        GovernanceError::ProposalNotExecutable
    );
    finalize_proposal(&mut p, &c, MINT, DECIMALS, &entries, pid, 1061).unwrap();
    assert_eq!(p.status, ProposalStatus::Passed);
    assert!(p.can_execute());

    assert_eq!(execute_proposal(&mut p, pid, 1100), Ok(()));
    assert_eq!(p.status, ProposalStatus::Executed);
    assert_eq!(
        p.execution_result.as_deref(),
        Some("Proposal 1 executed at timestamp 1100. Type: SlashMerchant")
    );
    assert_eq!(
        execute_proposal(&mut p, pid, 1200).unwrap_err(),
        GovernanceError::ProposalNotExecutable
    );
}

#[test]
fn query_reports_counts_and_rates() {
    let (c, p, ledger) = voted_fixture();
    let entries = fixture_entries(&ledger, p.id);
    let q = query_voting_power(&c, MINT, DECIMALS, &entries, p.id, 1061).unwrap();
    assert_eq!(q.proposal_id, p.id);
    assert_eq!(q.total_voting_power, 100);
    assert_eq!(q.yes_votes, 55);
    assert_eq!(q.no_votes, 0);
    assert_eq!(q.abstain_votes, 0);
    assert_eq!(q.veto_votes, 20);
    assert_eq!(q.total_votes, 75);
    assert_eq!(q.participation_rate, 7500);
    assert_eq!(q.approval_rate, 7333);
    assert_eq!(q.veto_rate, 2666);
    assert_eq!(q.timestamp, 1061);
}

#[test]
fn mark_executed_requires_passed() {
    let mut c = committee_config();
    let mut p = open_proposal(&mut c, 1000);
    assert_eq!(
        p.mark_executed("done".to_string()),
        Err(GovernanceError::ProposalNotExecutable)
    );
    p.status = ProposalStatus::Passed;
    assert_eq!(p.mark_executed("done".to_string()), Ok(()));
    assert_eq!(p.status, ProposalStatus::Executed);
    assert_eq!(p.execution_result.as_deref(), Some("done"));
}

#[test]
fn committee_power_requires_membership_and_a_whole_token() {
    let c = committee_config();
    assert_eq!(
        VotingPowerCalculator::calculate_committee_voting_power(ALICE, &c, 55, DECIMALS),
        Ok(55)
    );
    assert_eq!(
        VotingPowerCalculator::calculate_committee_voting_power(99, &c, 55, DECIMALS),
        Err(GovernanceError::NotCommitteeMember)
    );
    assert_eq!(
        VotingPowerCalculator::calculate_committee_voting_power(ALICE, &c, 900_000, 6),
        Err(GovernanceError::InsufficientVotingPower)
    );
}

#[test]
fn tally_overflow_is_reported_not_wrapped() {
    let (c, p, _) = voted_fixture();
    // Two members whose live balances sum past the machine width.
    let entries = vec![token(ALICE, u64::MAX), token(BOB, u64::MAX)];
    assert_eq!(
        calculate_voting_results_from_votes(&c, MINT, DECIMALS, &entries, p.id).unwrap_err(),
        GovernanceError::ArithmeticOverflow
    );
}
