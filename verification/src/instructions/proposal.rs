use crate::error::GovernanceError;
use crate::instructions::common::validate_proposal_content;
use crate::state::governance::spec_is_member;
use crate::state::governance::GovernanceConfig;
use crate::state::proposal::ExecutionData;
use crate::state::proposal::Proposal;
use crate::state::proposal::ProposalStatus;
use crate::state::proposal::ProposalType;
use crate::state::proposal::VoteType;
use crate::state::proposal::MAX_DESCRIPTION_LEN;
use crate::state::proposal::MAX_EXECUTION_RESULT_LEN;
use crate::state::proposal::MAX_TITLE_LEN;
use crate::state::vote::pow10;
use crate::state::vote::pow10_u64;
use crate::state::vote::spec_has_vote;
use crate::state::vote::spec_resolve_status;
use crate::state::vote::Vote;
use crate::state::vote::VoteLedger;
use crate::state::vote::VoteStats;
use crate::state::vote::VotingPowerCalculator;
use crate::state::vote::MAX_TOKEN_DECIMALS;
use crate::AccountId;
use vstd::prelude::*;
use vstd::utf8::encode_utf8;

verus! {

/// Decimal precision of the deposit token, used to scale a caller-supplied
/// raw deposit amount.
pub const DEPOSIT_TOKEN_DECIMALS: u8 = 9;

/// A parsed token-account record: who owns it, which mint it belongs to,
/// and how much it holds.
#[derive(Clone, Copy, Debug, PartialEq, Eq, Structural)]
pub struct TokenBalance {
    /// The account's owner.
    pub owner: AccountId,
    /// The token mint the balance is denominated in.
    pub mint: AccountId,
    /// The raw token quantity held.
    pub amount: u64,
}

/// One record in the caller-supplied enumeration that feeds the tally.
/// The caller passes one entry per committee roster slot first, then the
/// vote records, exactly as the records sit on the surrounding ledger; the
/// engine does not discover records on its own, so an incomplete or
/// misordered enumeration silently produces an undercounted tally.
#[derive(Clone, Copy, Debug, PartialEq, Eq, Structural)]
pub enum LedgerEntry {
    /// A record that parsed as a token account.
    Token(TokenBalance),
    /// A record claiming to be a token account that failed to parse.
    BadToken,
    /// A record that parsed as a vote.
    VoteRecord(Vote),
    /// Anything else: wrong owner, wrong size, or not parseable as a vote.
    Other,
}

/// Voting power that roster slot `i` contributes: the whole tokens in the
/// supplied balance record, provided it belongs to the slot's member and to
/// the committee mint. Absent, foreign or mismatched records contribute
/// nothing.
pub open spec fn spec_slot_power(
    members: Seq<Option<AccountId>>,
    entries: Seq<LedgerEntry>,
    mint: AccountId,
    token_decimals: u8,
    i: int,
) -> nat {
    match members[i] {
        Some(m) => if 0 <= i < entries.len() {
            match entries[i] {
                LedgerEntry::Token(tb) => if tb.owner == m && tb.mint == mint {
                    tb.amount as nat / pow10(token_decimals as nat)
                } else {
                    0
                },
                _ => 0,
            }
        } else {
            0
        },
        None => 0,
    }
}

/// Sum of the slot powers of the roster slots below `n`.
pub open spec fn spec_total_power_upto(
    members: Seq<Option<AccountId>>,
    entries: Seq<LedgerEntry>,
    mint: AccountId,
    token_decimals: u8,
    n: int,
) -> nat
    decreases n,
{
    if n <= 0 {
        0
    } else {
        spec_total_power_upto(members, entries, mint, token_decimals, n - 1) + spec_slot_power(
            members,
            entries,
            mint,
            token_decimals,
            n - 1,
        )
    }
}

/// Total live voting power: the sum over every roster slot of the power its
/// supplied balance record carries.
pub open spec fn spec_total_power(
    members: Seq<Option<AccountId>>,
    entries: Seq<LedgerEntry>,
    mint: AccountId,
    token_decimals: u8,
) -> nat {
    spec_total_power_upto(members, entries, mint, token_decimals, members.len() as int)
}

/// Slot `i` is occupied but its supplied record claims to be a token
/// account and does not parse.
pub open spec fn spec_bad_slot(
    members: Seq<Option<AccountId>>,
    entries: Seq<LedgerEntry>,
    i: int,
) -> bool {
    members[i] is Some && 0 <= i < entries.len() && entries[i] is BadToken
}

/// Some occupied roster slot carries a malformed token-account record.
pub open spec fn spec_any_bad_slot(
    members: Seq<Option<AccountId>>,
    entries: Seq<LedgerEntry>,
) -> bool {
    exists|i: int| 0 <= i < members.len() && spec_bad_slot(members, entries, i)
}

/// Voting power entry `e` contributes to the `vt` bucket of proposal `pid`:
/// the whole tokens of the frozen snapshot of a valid matching vote record.
pub open spec fn spec_entry_vote_power(
    e: LedgerEntry,
    pid: u64,
    token_decimals: u8,
    vt: VoteType,
) -> nat {
    match e {
        LedgerEntry::VoteRecord(v) => if v.proposal_id == pid && v.spec_is_valid() && v.vote_type
            == vt {
            v.token_balance_snapshot as nat / pow10(token_decimals as nat)
        } else {
            0
        },
        _ => 0,
    }
}

/// Sum of the `vt`-bucket powers of the entries in `[start, n)`.
pub open spec fn spec_vote_power_upto(
    entries: Seq<LedgerEntry>,
    start: int,
    n: int,
    pid: u64,
    token_decimals: u8,
    vt: VoteType,
) -> nat
    decreases n - start,
{
    if n <= start {
        0
    } else {
        spec_vote_power_upto(entries, start, n - 1, pid, token_decimals, vt)
            + spec_entry_vote_power(entries[n - 1], pid, token_decimals, vt)
    }
}

/// The `vt` bucket of proposal `pid`: the summed power of the matching
/// valid vote records among the supplied entries after the roster block.
pub open spec fn spec_vote_power(
    entries: Seq<LedgerEntry>,
    start: int,
    pid: u64,
    token_decimals: u8,
    vt: VoteType,
) -> nat {
    spec_vote_power_upto(entries, start, entries.len() as int, pid, token_decimals, vt)
}

/// All five tally aggregates fit the machine width of a vote count.
pub open spec fn spec_tally_fits(
    members: Seq<Option<AccountId>>,
    entries: Seq<LedgerEntry>,
    mint: AccountId,
    token_decimals: u8,
    pid: u64,
    start: int,
) -> bool {
    &&& spec_total_power(members, entries, mint, token_decimals) <= u64::MAX
    &&& spec_vote_power(entries, start, pid, token_decimals, VoteType::Yes) <= u64::MAX
    &&& spec_vote_power(entries, start, pid, token_decimals, VoteType::No) <= u64::MAX
    &&& spec_vote_power(entries, start, pid, token_decimals, VoteType::Abstain) <= u64::MAX
    &&& spec_vote_power(entries, start, pid, token_decimals, VoteType::NoWithVeto) <= u64::MAX
}

/// Compute the tally for one proposal from the caller-supplied enumeration:
/// first the live total voting power over the roster block, then the four
/// vote buckets from the frozen snapshots of the valid vote records. The
/// vote block starts at the index equal to the roster's member count, as
/// the records are positioned by the caller.
pub fn calculate_voting_results_from_votes(
    governance_config: &GovernanceConfig,
    committee_token_mint: AccountId,
    token_decimals: u8,
    entries: &Vec<LedgerEntry>,
    proposal_id: u64,
) -> (r: Result<(u64, (u64, u64, u64, u64)), GovernanceError>)
    requires
        governance_config.wf(),
        token_decimals <= MAX_TOKEN_DECIMALS,
    ensures
        ({
            let members = governance_config.committee_members@;
            let start = governance_config.committee_member_count as int;
            let bad = spec_any_bad_slot(members, entries@);
            let tvp = spec_total_power(members, entries@, committee_token_mint, token_decimals);
            let yes = spec_vote_power(entries@, start, proposal_id, token_decimals, VoteType::Yes);
            let no = spec_vote_power(entries@, start, proposal_id, token_decimals, VoteType::No);
            let abstain = spec_vote_power(
                entries@,
                start,
                proposal_id,
                token_decimals,
                VoteType::Abstain,
            );
            let veto = spec_vote_power(
                entries@,
                start,
                proposal_id,
                token_decimals,
                VoteType::NoWithVeto,
            );
            let fits = spec_tally_fits(
                members,
                entries@,
                committee_token_mint,
                token_decimals,
                proposal_id,
                start,
            );
            match r {
                Ok(t) => !bad && fits && t.0 == tvp && t.1.0 == yes && t.1.1 == no && t.1.2
                    == abstain && t.1.3 == veto,
                Err(GovernanceError::InvalidAccountData) => bad,
                Err(GovernanceError::ArithmeticOverflow) => !bad && !fits,
                Err(_) => false,
            }
        }),
{
    let ghost members = governance_config.committee_members@;
    let mut total: u128 = 0;
    let mut i: usize = 0;
    while i < governance_config.committee_members.len()
        invariant
            governance_config.wf(),
            token_decimals <= MAX_TOKEN_DECIMALS,
            members == governance_config.committee_members@,
            i <= members.len(),
            total == spec_total_power_upto(
                members,
                entries@,
                committee_token_mint,
                token_decimals,
                i as int,
            ),
            total <= i * 0xffff_ffff_ffff_ffff,
            forall|k: int| 0 <= k < i ==> !spec_bad_slot(members, entries@, k),
        decreases members.len() - i,
    {
        let slot: Option<AccountId> = governance_config.committee_members[i];
        match slot {
            Some(member) => {
                if i < entries.len() {
                    let entry: LedgerEntry = entries[i];
                    match entry {
                        LedgerEntry::Token(tb) => {
                            if tb.owner == member && tb.mint == committee_token_mint {
                                let p = VotingPowerCalculator::calculate_voting_power(
                                    tb.amount,
                                    token_decimals,
                                );
                                total = total + (p as u128);
                            }
                        },
                        LedgerEntry::BadToken => {
                            assert(spec_bad_slot(members, entries@, i as int));
                            return Err(GovernanceError::InvalidAccountData);
                        },
                        _ => {},
                    }
                }
            },
            None => {},
        }
        i = i + 1;
    }
    if total > 0xffff_ffff_ffff_ffffu128 {
        return Err(GovernanceError::ArithmeticOverflow);
    }
    let total_voting_power: u64 = total as u64;

    let start = governance_config.committee_member_count as usize;
    let ghost gstart = start as int;
    let mut yes: u128 = 0;
    let mut no: u128 = 0;
    let mut abstain: u128 = 0;
    let mut veto: u128 = 0;
    let mut j: usize = start;
    while j < entries.len()
        invariant
            token_decimals <= MAX_TOKEN_DECIMALS,
            gstart == start as int,
            start <= j,
            j <= entries@.len() || j == start,
            yes == spec_vote_power_upto(
                entries@,
                gstart,
                j as int,
                proposal_id,
                token_decimals,
                VoteType::Yes,
            ),
            no == spec_vote_power_upto(
                entries@,
                gstart,
                j as int,
                proposal_id,
                token_decimals,
                VoteType::No,
            ),
            abstain == spec_vote_power_upto(
                entries@,
                gstart,
                j as int,
                proposal_id,
                token_decimals,
                VoteType::Abstain,
            ),
            veto == spec_vote_power_upto(
                entries@,
                gstart,
                j as int,
                proposal_id,
                token_decimals,
                VoteType::NoWithVeto,
            ),
            yes <= (j - start) * 0xffff_ffff_ffff_ffff,
            no <= (j - start) * 0xffff_ffff_ffff_ffff,
            abstain <= (j - start) * 0xffff_ffff_ffff_ffff,
            veto <= (j - start) * 0xffff_ffff_ffff_ffff,
        decreases entries@.len() - j,
    {
        let entry: LedgerEntry = entries[j];
        match entry {
            LedgerEntry::VoteRecord(v) => {
                if v.proposal_id == proposal_id && v.is_valid() {
                    let p = v.calculate_voting_power(token_decimals);
                    match v.vote_type {
                        VoteType::Yes => {
                            yes = yes + (p as u128);
                        },
                        VoteType::No => {
                            no = no + (p as u128);
                        },
                        VoteType::Abstain => {
                            abstain = abstain + (p as u128);
                        },
                        VoteType::NoWithVeto => {
                            veto = veto + (p as u128);
                        },
                    }
                }
            },
            _ => {},
        }
        j = j + 1;
    }
    if yes > 0xffff_ffff_ffff_ffffu128 || no > 0xffff_ffff_ffff_ffffu128 || abstain
        > 0xffff_ffff_ffff_ffffu128 || veto > 0xffff_ffff_ffff_ffffu128 {
        return Err(GovernanceError::ArithmeticOverflow);
    }
    Ok((total_voting_power, (yes as u64, no as u64, abstain as u64, veto as u64)))
}

/// How the locked deposit is divided once a proposal reaches a terminal
/// status.
#[derive(Clone, Copy, Debug, PartialEq, Eq, Structural)]
pub enum DepositDisposition {
    /// Passed or rejected: the refund goes back to the proposer and the fee
    /// stays in custody for the committee.
    Split { refund: u64, fee: u64 },
    /// Vetoed: the whole deposit stays in custody.
    Forfeit { retained: u64 },
    /// No terminal status was reached; the deposit is not touched.
    Untouched,
}

/// The deposit split for a status: a passed, rejected or executed proposal
/// refunds nine tenths (rounded down) to the proposer and keeps the rest as
/// the committee fee; a vetoed proposal forfeits the whole deposit.
pub open spec fn spec_settle_deposit(status: ProposalStatus, deposit: u64) -> DepositDisposition {
    match status {
        ProposalStatus::Passed | ProposalStatus::Rejected | ProposalStatus::Executed
            => DepositDisposition::Split {
            refund: ((deposit * 90) / 100) as u64,
            fee: (deposit - (deposit * 90) / 100) as u64,
        },
        ProposalStatus::Vetoed => DepositDisposition::Forfeit { retained: deposit },
        ProposalStatus::Pending => DepositDisposition::Untouched,
    }
}

/// Settle a deposit for a finalized proposal; see [`spec_settle_deposit`].
/// The surrounding platform performs the refund transfer; the retained
/// share never leaves custody, so no transfer is needed for it.
pub fn settle_deposit(status: ProposalStatus, deposit_amount: u64) -> (r: DepositDisposition)
    ensures
        r == spec_settle_deposit(status, deposit_amount),
        r matches DepositDisposition::Split { refund, fee } ==> refund + fee == deposit_amount
            && refund <= deposit_amount,
{
    proof {
        assert(deposit_amount * 90 / 100 <= deposit_amount) by (nonlinear_arith)
            requires
                deposit_amount >= 0,
        ;
        assert(deposit_amount * 90 / 100 >= 0) by (nonlinear_arith)
            requires
                deposit_amount >= 0,
        ;
    }
    match status {
        ProposalStatus::Passed | ProposalStatus::Rejected | ProposalStatus::Executed => {
            let refund: u64 = (((deposit_amount as u128) * 90) / 100) as u64;
            let fee: u64 = deposit_amount - refund;
            DepositDisposition::Split { refund, fee }
        },
        ProposalStatus::Vetoed => DepositDisposition::Forfeit { retained: deposit_amount },
        ProposalStatus::Pending => DepositDisposition::Untouched,
    }
}

/// The deposit a new proposal locks: a caller-supplied raw amount is scaled
/// by the deposit token's precision and must cover the configured minimum;
/// without one the configured default applies.
pub open spec fn spec_requested_deposit(config: GovernanceConfig, custom_deposit_raw: Option<u64>) -> Result<
    u64,
    GovernanceError,
> {
    match custom_deposit_raw {
        Some(raw) => if raw * pow10(DEPOSIT_TOKEN_DECIMALS as nat) > u64::MAX {
            Err(GovernanceError::MathOverflow)
        } else if raw * pow10(DEPOSIT_TOKEN_DECIMALS as nat) < config.proposal_deposit {
            Err(GovernanceError::InsufficientProposalDeposit)
        } else {
            Ok((raw * pow10(DEPOSIT_TOKEN_DECIMALS as nat)) as u64)
        },
        None => Ok(config.proposal_deposit),
    }
}

/// Open a proposal: validate the texts, fix the deposit, assign the next
/// id and set the voting window. The returned record starts `Pending` with
/// zeroed tallies; the platform must move the deposit amount from the
/// proposer into custody when this returns successfully.
pub fn create_proposal(
    config: &mut GovernanceConfig,
    proposer: AccountId,
    title: String,
    description: String,
    proposal_type: ProposalType,
    execution_data: Option<ExecutionData>,
    custom_deposit_raw: Option<u64>,
    now: i64,
) -> (r: Result<Proposal, GovernanceError>)
    requires
        old(config).wf(),
        old(config).proposal_counter < u64::MAX,
        now + old(config).voting_period <= i64::MAX,
    ensures
        final(config).wf(),
        ({
            let title_ok = encode_utf8(title@).len() <= MAX_TITLE_LEN;
            let desc_ok = encode_utf8(description@).len() <= MAX_DESCRIPTION_LEN;
            match r {
                Ok(p) => {
                    &&& title_ok && desc_ok
                    &&& spec_requested_deposit(*old(config), custom_deposit_raw) is Ok
                    &&& p == (Proposal {
                        id: (old(config).proposal_counter + 1) as u64,
                        proposer,
                        proposal_type,
                        title,
                        description,
                        deposit_amount: spec_requested_deposit(
                            *old(config),
                            custom_deposit_raw,
                        )->Ok_0,
                        created_at: now,
                        voting_start: now,
                        voting_end: (now + old(config).voting_period) as i64,
                        status: ProposalStatus::Pending,
                        yes_votes: 0,
                        no_votes: 0,
                        abstain_votes: 0,
                        veto_votes: 0,
                        total_votes: 0,
                        execution_data,
                        execution_result: None,
                    })
                    &&& p.wf()
                    &&& *final(config) == (GovernanceConfig {
                        proposal_counter: p.id,
                        ..*old(config)
                    })
                },
                Err(e) => {
                    &&& *final(config) == *old(config)
                    &&& if !title_ok {
                        e == GovernanceError::InvalidProposalTitleLength
                    } else if !desc_ok {
                        e == GovernanceError::InvalidProposalDescriptionLength
                    } else {
                        spec_requested_deposit(*old(config), custom_deposit_raw) == Err::<
                            u64,
                            GovernanceError,
                        >(e)
                    }
                },
            }
        }),
{
    match validate_proposal_content(title.as_str(), description.as_str()) {
        Ok(()) => {},
        Err(e) => {
            return Err(e);
        },
    }
    let actual_deposit: u64 = match custom_deposit_raw {
        Some(raw) => {
            let factor = pow10_u64(DEPOSIT_TOKEN_DECIMALS);
            let scaled = match raw.checked_mul(factor) {
                Some(d) => d,
                None => {
                    return Err(GovernanceError::MathOverflow);
                },
            };
            if scaled < config.proposal_deposit {
                return Err(GovernanceError::InsufficientProposalDeposit);
            }
            scaled
        },
        None => config.proposal_deposit,
    };
    let proposal_id = config.next_proposal_id();
    Ok(
        Proposal {
            id: proposal_id,
            proposer,
            proposal_type,
            title,
            description,
            deposit_amount: actual_deposit,
            created_at: now,
            voting_start: now,
            voting_end: now + (config.voting_period as i64),
            status: ProposalStatus::Pending,
            yes_votes: 0,
            no_votes: 0,
            abstain_votes: 0,
            veto_votes: 0,
            total_votes: 0,
            execution_data,
            execution_result: None,
        },
    )
}

/// Cast a vote: the voter must be a committee member holding at least one
/// whole committee token, the proposal must still be pending with its
/// window open, and one vote per (proposal, voter) pair is ever recorded —
/// a second cast fails with the duplicate-key condition whatever its
/// stance. The recorded vote freezes the voter's raw balance.
pub fn cast_vote(
    ledger: &mut VoteLedger,
    proposal: &Proposal,
    governance_config: &GovernanceConfig,
    proposal_id: u64,
    voter: AccountId,
    vote_type: VoteType,
    token_balance: u64,
    token_decimals: u8,
    now: i64,
) -> (r: Result<(), GovernanceError>)
    requires
        old(ledger).wf(),
        proposal.id == proposal_id,
        token_decimals <= MAX_TOKEN_DECIMALS,
    ensures
        final(ledger).wf(),
        ({
            let dup = spec_has_vote(old(ledger).records@, proposal_id, voter);
            let member = spec_is_member(governance_config.committee_members@, voter);
            let pending = proposal.status == ProposalStatus::Pending;
            let open = now <= proposal.voting_end;
            let funded = token_balance >= pow10(token_decimals as nat);
            match r {
                Ok(()) => !dup && member && pending && open && funded && final(ledger).records@
                    == old(ledger).records@.push(
                    Vote {
                        proposal_id,
                        voter,
                        vote_type,
                        timestamp: now,
                        token_balance_snapshot: token_balance,
                        is_revoked: false,
                        revoked_at: None,
                    },
                ),
                Err(GovernanceError::AlreadyVoted) => dup,
                Err(GovernanceError::NotCommitteeMember) => !dup && !member,
                Err(GovernanceError::ProposalNotActive) => !dup && member && !pending,
                Err(GovernanceError::VotingPeriodEnded) => !dup && member && pending && !open,
                Err(GovernanceError::InsufficientVotingPower) => !dup && member && pending && open
                    && !funded,
                Err(_) => false,
            }
        }),
        r is Err ==> *final(ledger) == *old(ledger),
{
    if ledger.has_vote(proposal_id, voter) {
        return Err(GovernanceError::AlreadyVoted);
    }
    if !governance_config.is_committee_member(voter) {
        return Err(GovernanceError::NotCommitteeMember);
    }
    if !(proposal.status == ProposalStatus::Pending) {
        return Err(GovernanceError::ProposalNotActive);
    }
    if now > proposal.voting_end {
        return Err(GovernanceError::VotingPeriodEnded);
    }
    let minimum = VotingPowerCalculator::minimum_voting_power(token_decimals);
    if token_balance < minimum {
        return Err(GovernanceError::InsufficientVotingPower);
    }
    ledger.insert(Vote::new(proposal_id, voter, vote_type, token_balance, now))
}

/// Finalize a proposal: tally the caller-supplied records, write the five
/// vote counts onto the proposal, resolve the terminal status through the
/// three-tier rule and settle the deposit, all in one step. This is the
/// sole path to settlement, and since it is the only edge out of `Pending`
/// it can run at most once per proposal. Fails without touching anything
/// when a roster record is malformed, an aggregate overflows, the window
/// has not closed, or the proposal is not pending.
pub fn finalize_proposal(
    proposal: &mut Proposal,
    governance_config: &GovernanceConfig,
    committee_token_mint: AccountId,
    token_decimals: u8,
    entries: &Vec<LedgerEntry>,
    proposal_id: u64,
    now: i64,
) -> (r: Result<DepositDisposition, GovernanceError>)
    requires
        governance_config.wf(),
        old(proposal).id == proposal_id,
        token_decimals <= MAX_TOKEN_DECIMALS,
    ensures
        old(proposal).wf() ==> final(proposal).wf(),
        ({
            let members = governance_config.committee_members@;
            let start = governance_config.committee_member_count as int;
            let bad = spec_any_bad_slot(members, entries@);
            let tvp = spec_total_power(members, entries@, committee_token_mint, token_decimals);
            let yes = spec_vote_power(entries@, start, proposal_id, token_decimals, VoteType::Yes);
            let no = spec_vote_power(entries@, start, proposal_id, token_decimals, VoteType::No);
            let abstain = spec_vote_power(
                entries@,
                start,
                proposal_id,
                token_decimals,
                VoteType::Abstain,
            );
            let veto = spec_vote_power(
                entries@,
                start,
                proposal_id,
                token_decimals,
                VoteType::NoWithVeto,
            );
            let fits = spec_tally_fits(
                members,
                entries@,
                committee_token_mint,
                token_decimals,
                proposal_id,
                start,
            ) && yes + no + abstain + veto <= u64::MAX;
            let ended = now > old(proposal).voting_end;
            let pending = old(proposal).status == ProposalStatus::Pending;
            match r {
                Ok(d) => {
                    let stats = VoteStats {
                        total_votes: (yes + no + abstain + veto) as u64,
                        yes_votes: yes as u64,
                        no_votes: no as u64,
                        abstain_votes: abstain as u64,
                        veto_votes: veto as u64,
                        voter_count: 0,
                    };
                    let status = spec_resolve_status(
                        stats,
                        tvp as u64,
                        governance_config.participation_threshold,
                        governance_config.approval_threshold,
                        governance_config.veto_threshold,
                    );
                    &&& !bad && fits && ended && pending
                    &&& (status == ProposalStatus::Passed || status == ProposalStatus::Rejected
                        || status == ProposalStatus::Vetoed)
                    &&& *final(proposal) == (Proposal {
                        yes_votes: yes as u64,
                        no_votes: no as u64,
                        abstain_votes: abstain as u64,
                        veto_votes: veto as u64,
                        total_votes: (yes + no + abstain + veto) as u64,
                        status,
                        ..*old(proposal)
                    })
                    &&& d == spec_settle_deposit(status, old(proposal).deposit_amount)
                },
                Err(GovernanceError::InvalidAccountData) => bad
                    && *final(proposal) == *old(proposal),
                Err(GovernanceError::ArithmeticOverflow) => !bad && !fits
                    && *final(proposal) == *old(proposal),
                Err(GovernanceError::VotingPeriodNotEnded) => !bad && fits && !ended
                    && *final(proposal) == *old(proposal),
                Err(GovernanceError::ProposalNotActive) => !bad && fits && ended && !pending
                    && *final(proposal) == *old(proposal),
                Err(_) => false,
            }
        }),
{
    let tally = match calculate_voting_results_from_votes(
        governance_config,
        committee_token_mint,
        token_decimals,
        entries,
        proposal_id,
    ) {
        Ok(t) => t,
        Err(e) => {
            return Err(e);
        },
    };
    let (total_voting_power, vote_results) = tally;
    let (yes, rest) = (vote_results.0, (vote_results.1, vote_results.2, vote_results.3));
    let (no, abstain, veto) = rest;
    let total_u128: u128 = (yes as u128) + (no as u128) + (abstain as u128) + (veto as u128);
    if total_u128 > 0xffff_ffff_ffff_ffffu128 {
        return Err(GovernanceError::ArithmeticOverflow);
    }
    let total_votes: u64 = total_u128 as u64;
    if now <= proposal.voting_end {
        return Err(GovernanceError::VotingPeriodNotEnded);
    }
    if !(proposal.status == ProposalStatus::Pending) {
        return Err(GovernanceError::ProposalNotActive);
    }
    proposal.yes_votes = yes;
    proposal.no_votes = no;
    proposal.abstain_votes = abstain;
    proposal.veto_votes = veto;
    proposal.total_votes = total_votes;
    match proposal.finalize(governance_config, total_voting_power, now) {
        Ok(()) => {},
        Err(e) => {
            return Err(e);
        },
    }
    Ok(settle_deposit(proposal.status, proposal.deposit_amount))
}

/// The character of one decimal digit.
pub open spec fn spec_digit_char(d: int) -> char {
    if d == 0 {
        '0'
    } else if d == 1 {
        '1'
    } else if d == 2 {
        '2'
    } else if d == 3 {
        '3'
    } else if d == 4 {
        '4'
    } else if d == 5 {
        '5'
    } else if d == 6 {
        '6'
    } else if d == 7 {
        '7'
    } else if d == 8 {
        '8'
    } else {
        '9'
    }
}

/// The decimal digits of a non-negative number, most significant first.
pub open spec fn spec_decimal_digits(n: int) -> Seq<char>
    decreases n,
{
    if n < 10 {
        seq![spec_digit_char(n)]
    } else {
        spec_decimal_digits(n / 10).push(spec_digit_char(n % 10))
    }
}

/// The decimal rendering of a number, with a leading minus when negative.
pub open spec fn spec_signed_decimal(n: int) -> Seq<char> {
    if n < 0 {
        seq!['-'] + spec_decimal_digits(-n)
    } else {
        spec_decimal_digits(n)
    }
}

/// The name of a proposal type's variant.
pub open spec fn spec_proposal_type_label(t: ProposalType) -> Seq<char> {
    match t {
        ProposalType::SlashMerchant => "SlashMerchant"@,
        ProposalType::DisputeArbitration => "DisputeArbitration"@,
        ProposalType::RuleUpdate => "RuleUpdate"@,
        ProposalType::ConfigUpdate => "ConfigUpdate"@,
    }
}

/// The summary text recorded when a proposal is executed.
pub open spec fn spec_execution_summary(proposal_id: u64, now: i64, t: ProposalType) -> Seq<char> {
    "Proposal "@ + spec_decimal_digits(proposal_id as int) + " executed at timestamp "@
        + spec_signed_decimal(now as int) + ". Type: "@ + spec_proposal_type_label(t)
}

/// Renders the execution summary. Relies on the standard library's
/// `format!`: `Display` for the integers prints their decimal digits with a
/// leading minus when negative, and the derived `Debug` for a fieldless
/// enum variant prints the variant's name. The output is ASCII and at most
/// 98 bytes, far below the stored-result bound.
#[verifier::external_body]
fn render_execution_summary(proposal_id: u64, now: i64, proposal_type: &ProposalType) -> (r:
    String)
    ensures
        r@ == spec_execution_summary(proposal_id, now, *proposal_type),
        encode_utf8(r@).len() <= MAX_EXECUTION_RESULT_LEN,
{
    format!("Proposal {} executed at timestamp {}. Type: {:?}", proposal_id, now, proposal_type)
}

/// Execute a passed proposal: record a human-readable summary and move it
/// to `Executed`, which is terminal. The action the payload describes is
/// not performed; only completion is marked. Fails off `Passed`.
pub fn execute_proposal(proposal: &mut Proposal, proposal_id: u64, now: i64) -> (r: Result<
    (),
    GovernanceError,
>)
    requires
        old(proposal).id == proposal_id,
    ensures
        old(proposal).wf() ==> final(proposal).wf(),
        r is Ok <==> old(proposal).status == ProposalStatus::Passed,
        r is Ok ==> *final(proposal) == (Proposal {
            status: ProposalStatus::Executed,
            execution_result: final (proposal).execution_result,
            ..*old(proposal)
        }) && (match final (proposal).execution_result {
            Some(s) => s@ == spec_execution_summary(proposal_id, now, old(proposal).proposal_type),
            None => false,
        }),
        r is Err ==> r == Err::<(), GovernanceError>(GovernanceError::ProposalNotExecutable)
            && *final(proposal) == *old(proposal),
{
    if !proposal.can_execute() {
        return Err(GovernanceError::ProposalNotExecutable);
    }
    let execution_result = render_execution_summary(proposal_id, now, &proposal.proposal_type);
    proposal.mark_executed(execution_result)
}

} // verus!
