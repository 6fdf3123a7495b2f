use crate::error::GovernanceError;
use crate::state::governance::spec_is_member;
use crate::state::governance::GovernanceConfig;
use crate::state::proposal::ProposalStatus;
use crate::state::proposal::VoteType;
use crate::AccountId;
use vstd::prelude::*;

verus! {

/// `pow10(e)` is `10^e`, the scaling factor between a raw token quantity
/// with `e` decimal places and whole tokens.
pub open spec fn pow10(e: nat) -> nat
    decreases e,
{
    if e == 0 {
        1
    } else {
        10 * pow10((e - 1) as nat)
    }
}

pub proof fn lemma_pow10_positive(e: nat)
    ensures
        pow10(e) >= 1,
    decreases e,
{
    if e > 0 {
        lemma_pow10_positive((e - 1) as nat);
    }
}

pub proof fn lemma_pow10_monotonic(a: nat, b: nat)
    requires
        a <= b,
    ensures
        pow10(a) <= pow10(b),
    decreases b,
{
    if a < b {
        lemma_pow10_monotonic(a, (b - 1) as nat);
        lemma_pow10_positive((b - 1) as nat);
    }
}

/// The largest accepted scaling factor still fits in a `u64`.
pub proof fn lemma_pow10_19_value()
    ensures
        pow10(19) == 10_000_000_000_000_000_000,
{
    reveal_with_fuel(pow10, 20);
}

/// The largest decimal precision the engine accepts; `10^19` already
/// exceeds `u64::MAX`, so higher precisions cannot be scaled in `u64`.
pub const MAX_TOKEN_DECIMALS: u8 = 19;

/// `10^e` as a machine integer, for decimal precisions up to 19.
pub fn pow10_u64(e: u8) -> (r: u64)
    requires
        e <= MAX_TOKEN_DECIMALS,
    ensures
        r == pow10(e as nat),
{
    let mut r: u64 = 1;
    let mut i: u8 = 0;
    while i < e
        invariant
            i <= e <= 19,
            r == pow10(i as nat),
        decreases e - i,
    {
        proof {
            lemma_pow10_monotonic((i + 1) as nat, 19);
            lemma_pow10_19_value();
        }
        r = r * 10;
        i = i + 1;
    }
    r
}

/// Derives voting power from token holdings: one whole committee token is
/// one unit of voting power, fractional holdings contribute nothing.
pub struct VotingPowerCalculator;

impl VotingPowerCalculator {
    /// Voting power of a raw token balance with the given decimal precision:
    /// the number of whole tokens held.
    pub fn calculate_voting_power(token_balance: u64, token_decimals: u8) -> (r: u64)
        requires
            token_decimals <= MAX_TOKEN_DECIMALS,
        ensures
            r == token_balance as nat / pow10(token_decimals as nat),
    {
        proof {
            lemma_pow10_positive(token_decimals as nat);
        }
        token_balance / pow10_u64(token_decimals)
    }

    /// A claimed voting power is acceptable when the balance covers it.
    pub fn validate_voting_power(claimed_power: u64, token_balance: u64, token_decimals: u8) -> (r:
        bool)
        requires
            token_decimals <= MAX_TOKEN_DECIMALS,
        ensures
            r == (claimed_power as nat <= token_balance as nat / pow10(token_decimals as nat)),
    {
        let calculated_power = Self::calculate_voting_power(token_balance, token_decimals);
        claimed_power <= calculated_power
    }

    /// The minimum raw balance needed to vote: one whole committee token.
    pub fn minimum_voting_power(token_decimals: u8) -> (r: u64)
        requires
            token_decimals <= MAX_TOKEN_DECIMALS,
        ensures
            r == pow10(token_decimals as nat),
            r >= 1,
    {
        proof {
            lemma_pow10_positive(token_decimals as nat);
        }
        pow10_u64(token_decimals)
    }

    /// Voting power of a committee member's balance. Fails when the identity
    /// is not in the roster or holds less than one whole token.
    pub fn calculate_committee_voting_power(
        member: AccountId,
        governance_config: &GovernanceConfig,
        token_balance: u64,
        token_decimals: u8,
    ) -> (r: Result<u64, GovernanceError>)
        requires
            token_decimals <= MAX_TOKEN_DECIMALS,
        ensures
            ({
                let is_member = spec_is_member(governance_config.committee_members@, member);
                let power = token_balance as nat / pow10(token_decimals as nat);
                match r {
                    Ok(p) => is_member && power > 0 && p == power,
                    Err(GovernanceError::NotCommitteeMember) => !is_member,
                    Err(GovernanceError::InsufficientVotingPower) => is_member && power == 0,
                    Err(_) => false,
                }
            }),
    {
        if !governance_config.is_committee_member(member) {
            return Err(GovernanceError::NotCommitteeMember);
        }
        let voting_power = Self::calculate_voting_power(token_balance, token_decimals);
        if voting_power == 0 {
            return Err(GovernanceError::InsufficientVotingPower);
        }
        Ok(voting_power)
    }
}

/// Aggregated voting power for one proposal, bucketed by vote type.
#[derive(Clone, Copy, Debug, PartialEq, Eq, Structural)]
pub struct VoteStats {
    /// Sum of the four buckets.
    pub total_votes: u64,
    /// Voting power cast as yes.
    pub yes_votes: u64,
    /// Voting power cast as no.
    pub no_votes: u64,
    /// Voting power cast as abstain.
    pub abstain_votes: u64,
    /// Voting power cast as veto.
    pub veto_votes: u64,
    /// Number of participating voters.
    pub voter_count: u32,
}

impl Default for VoteStats {
    /// An empty tally.
    fn default() -> (r: Self)
        ensures
            r == (VoteStats {
                total_votes: 0,
                yes_votes: 0,
                no_votes: 0,
                abstain_votes: 0,
                veto_votes: 0,
                voter_count: 0,
            }),
    {
        VoteStats {
            total_votes: 0,
            yes_votes: 0,
            no_votes: 0,
            abstain_votes: 0,
            veto_votes: 0,
            voter_count: 0,
        }
    }
}

/// Share of the total voting power that was cast, in basis points, truncated
/// to the machine width of a rate; 0 when no power exists.
pub open spec fn spec_participation_rate(stats: VoteStats, total_voting_power: u64) -> u16 {
    if total_voting_power == 0 {
        0u16
    } else {
        (((stats.total_votes * 10000) / (total_voting_power as int)) % 0x10000) as u16
    }
}

/// Share of the cast power voting yes, in basis points; 0 when nothing was
/// cast.
pub open spec fn spec_approval_rate(stats: VoteStats) -> u16 {
    if stats.total_votes == 0 {
        0u16
    } else {
        (((stats.yes_votes * 10000) / (stats.total_votes as int)) % 0x10000) as u16
    }
}

/// Share of the cast power voting veto, in basis points; 0 when nothing was
/// cast.
pub open spec fn spec_veto_rate(stats: VoteStats) -> u16 {
    if stats.total_votes == 0 {
        0u16
    } else {
        (((stats.veto_votes * 10000) / (stats.total_votes as int)) % 0x10000) as u16
    }
}

/// The three-tier decision rule, first match wins: the veto tier overrides
/// everything, then insufficient turnout rejects, then the approval share
/// must strictly exceed its threshold to pass.
pub open spec fn spec_resolve_status(
    stats: VoteStats,
    total_voting_power: u64,
    participation_threshold: u16,
    approval_threshold: u16,
    veto_threshold: u16,
) -> ProposalStatus {
    if spec_veto_rate(stats) >= veto_threshold {
        ProposalStatus::Vetoed
    } else if spec_participation_rate(stats, total_voting_power) < participation_threshold {
        ProposalStatus::Rejected
    } else if spec_approval_rate(stats) > approval_threshold {
        ProposalStatus::Passed
    } else {
        ProposalStatus::Rejected
    }
}

impl VoteStats {
    /// Participation rate in basis points; see [`spec_participation_rate`].
    pub fn calculate_participation_rate(&self, total_voting_power: u64) -> (r: u16)
        ensures
            r == spec_participation_rate(*self, total_voting_power),
    {
        if total_voting_power == 0 {
            return 0;
        }
        let scaled: u128 = (self.total_votes as u128) * 10000;
        ((scaled / (total_voting_power as u128)) % 0x10000) as u16
    }

    /// Approval rate in basis points; see [`spec_approval_rate`].
    pub fn calculate_approval_rate(&self) -> (r: u16)
        ensures
            r == spec_approval_rate(*self),
    {
        if self.total_votes == 0 {
            return 0;
        }
        let scaled: u128 = (self.yes_votes as u128) * 10000;
        ((scaled / (self.total_votes as u128)) % 0x10000) as u16
    }

    /// Veto rate in basis points; see [`spec_veto_rate`].
    pub fn calculate_veto_rate(&self) -> (r: u16)
        ensures
            r == spec_veto_rate(*self),
    {
        if self.total_votes == 0 {
            return 0;
        }
        let scaled: u128 = (self.veto_votes as u128) * 10000;
        ((scaled / (self.total_votes as u128)) % 0x10000) as u16
    }

    /// The turnout reaches the participation threshold.
    pub fn meets_participation_threshold(&self, total_voting_power: u64, threshold: u16) -> (r:
        bool)
        ensures
            r == (spec_participation_rate(*self, total_voting_power) >= threshold),
    {
        self.calculate_participation_rate(total_voting_power) >= threshold
    }

    /// The approval share strictly exceeds the threshold; equality does not
    /// pass.
    pub fn is_approved(&self, threshold: u16) -> (r: bool)
        ensures
            r == (spec_approval_rate(*self) > threshold),
    {
        self.calculate_approval_rate() > threshold
    }

    /// The veto share reaches the threshold.
    pub fn is_vetoed(&self, threshold: u16) -> (r: bool)
        ensures
            r == (spec_veto_rate(*self) >= threshold),
    {
        self.calculate_veto_rate() >= threshold
    }

    /// Resolve the proposal's terminal status; see [`spec_resolve_status`].
    pub fn determine_proposal_status(
        &self,
        total_voting_power: u64,
        participation_threshold: u16,
        approval_threshold: u16,
        veto_threshold: u16,
    ) -> (r: ProposalStatus)
        ensures
            r == spec_resolve_status(
                *self,
                total_voting_power,
                participation_threshold,
                approval_threshold,
                veto_threshold,
            ),
    {
        if self.is_vetoed(veto_threshold) {
            return ProposalStatus::Vetoed;
        }
        if !self.meets_participation_threshold(total_voting_power, participation_threshold) {
            return ProposalStatus::Rejected;
        }
        if self.is_approved(approval_threshold) {
            ProposalStatus::Passed
        } else {
            ProposalStatus::Rejected
        }
    }
}

/// Resolution is total and deterministic: for every vote set, total voting
/// power and threshold configuration it lands in exactly one of the three
/// terminal outcomes, and being a function of those inputs alone it returns
/// the same outcome for the same inputs.
pub proof fn lemma_resolution_is_terminal(
    stats: VoteStats,
    total_voting_power: u64,
    participation_threshold: u16,
    approval_threshold: u16,
    veto_threshold: u16,
)
    ensures
        ({
            let s = spec_resolve_status(
                stats,
                total_voting_power,
                participation_threshold,
                approval_threshold,
                veto_threshold,
            );
            ||| s == ProposalStatus::Passed
            ||| s == ProposalStatus::Rejected
            ||| s == ProposalStatus::Vetoed
        }),
{
}

/// Veto precedence: when anything was cast and the veto share reaches its
/// threshold, the outcome is `Vetoed`, whatever the approval and
/// participation shares say.
pub proof fn lemma_veto_precedence(
    stats: VoteStats,
    total_voting_power: u64,
    participation_threshold: u16,
    approval_threshold: u16,
    veto_threshold: u16,
)
    requires
        stats.total_votes > 0,
        stats.veto_votes <= stats.total_votes,
        stats.veto_votes * 10000 / (stats.total_votes as int) >= veto_threshold,
    ensures
        spec_resolve_status(
            stats,
            total_voting_power,
            participation_threshold,
            approval_threshold,
            veto_threshold,
        ) == ProposalStatus::Vetoed,
{
    assert(stats.veto_votes * 10000 / (stats.total_votes as int) <= 10000
        && stats.veto_votes * 10000 / (stats.total_votes as int) >= 0) by (nonlinear_arith)
        requires
            stats.total_votes > 0,
            0 <= stats.veto_votes <= stats.total_votes,
    ;
}

/// Participation gate: when the veto tier does not fire and the cast power
/// falls short of the participation threshold, the outcome is `Rejected` —
/// in particular even when every cast vote was a yes.
pub proof fn lemma_participation_gate(
    stats: VoteStats,
    total_voting_power: u64,
    participation_threshold: u16,
    approval_threshold: u16,
    veto_threshold: u16,
)
    requires
        spec_veto_rate(stats) < veto_threshold,
        total_voting_power > 0 ==> stats.total_votes * 10000 / (total_voting_power as int)
            < participation_threshold,
        total_voting_power == 0 ==> participation_threshold > 0,
    ensures
        spec_resolve_status(
            stats,
            total_voting_power,
            participation_threshold,
            approval_threshold,
            veto_threshold,
        ) == ProposalStatus::Rejected,
{
    if total_voting_power > 0 {
        assert(stats.total_votes * 10000 / (total_voting_power as int) >= 0) by (nonlinear_arith)
            requires
                total_voting_power > 0,
                stats.total_votes >= 0,
        ;
        assert(stats.total_votes * 10000 / (total_voting_power as int) % 0x10000
            == stats.total_votes * 10000 / (total_voting_power as int));
    }
}

/// The participation gate for a unanimous yes: when no veto power was cast
/// and the veto threshold is positive, falling short of the participation
/// threshold rejects the proposal even though every cast vote was a yes.
/// A zero veto threshold is excluded: the veto tier then fires on any vote
/// set, including this one.
pub proof fn lemma_participation_gate_all_yes(
    stats: VoteStats,
    total_voting_power: u64,
    participation_threshold: u16,
    approval_threshold: u16,
    veto_threshold: u16,
)
    requires
        stats.veto_votes == 0,
        veto_threshold > 0,
        total_voting_power > 0 ==> stats.total_votes * 10000 / (total_voting_power as int)
            < participation_threshold,
        total_voting_power == 0 ==> participation_threshold > 0,
    ensures
        spec_resolve_status(
            stats,
            total_voting_power,
            participation_threshold,
            approval_threshold,
            veto_threshold,
        ) == ProposalStatus::Rejected,
{
    assert(spec_veto_rate(stats) == 0);
    lemma_participation_gate(
        stats,
        total_voting_power,
        participation_threshold,
        approval_threshold,
        veto_threshold,
    );
}

/// Approval strictness: when the veto tier does not fire, the turnout is
/// sufficient and the approval share lands exactly on the threshold, the
/// outcome is `Rejected`, not `Passed`.
pub proof fn lemma_equal_approval_rejects(
    stats: VoteStats,
    total_voting_power: u64,
    participation_threshold: u16,
    approval_threshold: u16,
    veto_threshold: u16,
)
    requires
        spec_veto_rate(stats) < veto_threshold,
        spec_participation_rate(stats, total_voting_power) >= participation_threshold,
        spec_approval_rate(stats) == approval_threshold,
    ensures
        spec_resolve_status(
            stats,
            total_voting_power,
            participation_threshold,
            approval_threshold,
            veto_threshold,
        ) == ProposalStatus::Rejected,
{
}

/// One committee member's vote on one proposal, with the balance frozen at
/// cast time. The (proposal, voter) pair is the record's unique key.
#[derive(Clone, Copy, Debug, PartialEq, Eq, Structural)]
pub struct Vote {
    /// Proposal voted on.
    pub proposal_id: u64,
    /// Who cast the vote.
    pub voter: AccountId,
    /// The stance taken.
    pub vote_type: VoteType,
    /// When the vote was cast.
    pub timestamp: i64,
    /// The voter's raw token balance at cast time, frozen thereafter.
    pub token_balance_snapshot: u64,
    /// The vote was revoked and no longer counts.
    pub is_revoked: bool,
    /// When the vote was revoked.
    pub revoked_at: Option<i64>,
}

impl Vote {
    /// A fresh, unrevoked vote record stamped with the supplied time.
    pub fn new(
        proposal_id: u64,
        voter: AccountId,
        vote_type: VoteType,
        token_balance_snapshot: u64,
        now: i64,
    ) -> (r: Self)
        ensures
            r == (Vote {
                proposal_id,
                voter,
                vote_type,
                timestamp: now,
                token_balance_snapshot,
                is_revoked: false,
                revoked_at: None,
            }),
    {
        Vote {
            proposal_id,
            voter,
            vote_type,
            timestamp: now,
            token_balance_snapshot,
            is_revoked: false,
            revoked_at: None,
        }
    }

    /// Revoke the vote. Fails when it was already revoked.
    pub fn revoke(&mut self, now: i64) -> (r: Result<(), GovernanceError>)
        ensures
            match r {
                Ok(()) => !old(self).is_revoked && *final(self) == (Vote {
                    is_revoked: true,
                    revoked_at: Some(now),
                    ..*old(self)
                }),
                Err(e) => e == GovernanceError::VoteAlreadyRevoked && old(self).is_revoked
                    && *final(self) == *old(self),
            },
    {
        if self.is_revoked {
            return Err(GovernanceError::VoteAlreadyRevoked);
        }
        self.is_revoked = true;
        self.revoked_at = Some(now);
        Ok(())
    }

    /// A vote counts while it is not revoked and froze a positive balance.
    pub open spec fn spec_is_valid(self) -> bool {
        !self.is_revoked && self.token_balance_snapshot > 0
    }

    /// See [`Self::spec_is_valid`].
    pub fn is_valid(&self) -> (r: bool)
        ensures
            r == self.spec_is_valid(),
    {
        !self.is_revoked && self.token_balance_snapshot > 0
    }

    /// The voting power this vote carries, derived from the frozen snapshot;
    /// an invalid vote carries none.
    pub open spec fn spec_voting_power(self, token_decimals: u8) -> nat {
        if self.spec_is_valid() {
            self.token_balance_snapshot as nat / pow10(token_decimals as nat)
        } else {
            0
        }
    }

    /// See [`Self::spec_voting_power`].
    pub fn calculate_voting_power(&self, token_decimals: u8) -> (r: u64)
        requires
            token_decimals <= MAX_TOKEN_DECIMALS,
        ensures
            r == self.spec_voting_power(token_decimals),
    {
        if self.is_valid() {
            VotingPowerCalculator::calculate_voting_power(self.token_balance_snapshot,
                token_decimals)
        } else {
            0
        }
    }
}

/// A recorded vote for `pid` by `voter` exists.
pub open spec fn spec_has_vote(records: Seq<Vote>, pid: u64, voter: AccountId) -> bool {
    exists|i: int|
        0 <= i < records.len() && records[i].proposal_id == pid && records[i].voter == voter
}

/// The vote records for one proposal, in recording order.
pub open spec fn spec_votes_for(records: Seq<Vote>, pid: u64) -> Seq<Vote>
    decreases records.len(),
{
    if records.len() == 0 {
        Seq::empty()
    } else {
        let rest = spec_votes_for(records.drop_last(), pid);
        if records.last().proposal_id == pid {
            rest.push(records.last())
        } else {
            rest
        }
    }
}

/// The store of vote records, keyed by (proposal, voter): at most one record
/// per pair ever exists, which is what makes double voting impossible.
#[derive(Debug)]
pub struct VoteLedger {
    /// All recorded votes, across proposals.
    pub records: Vec<Vote>,
}

impl VoteLedger {
    /// Key uniqueness: no two records share (proposal, voter).
    pub open spec fn wf(self) -> bool {
        forall|i: int, j: int|
            0 <= i < self.records@.len() && 0 <= j < self.records@.len() && i != j ==> !(
            self.records@[i].proposal_id == self.records@[j].proposal_id && self.records@[i].voter
                == self.records@[j].voter)
    }

    /// An empty ledger.
    pub fn new() -> (r: Self)
        ensures
            r.wf(),
            r.records@.len() == 0,
    {
        VoteLedger { records: Vec::new() }
    }

    /// Record a vote. Fails with the duplicate-key condition when a record
    /// for the same (proposal, voter) pair already exists, whatever its
    /// stance.
    pub fn insert(&mut self, vote: Vote) -> (r: Result<(), GovernanceError>)
        requires
            old(self).wf(),
        ensures
            final(self).wf(),
            r is Ok <==> !spec_has_vote(old(self).records@, vote.proposal_id, vote.voter),
            r is Ok ==> final(self).records@ == old(self).records@.push(vote),
            r is Err ==> r == Err::<(), GovernanceError>(GovernanceError::AlreadyVoted)
                && *final(self) == *old(self),
    {
        if self.has_vote(vote.proposal_id, vote.voter) {
            return Err(GovernanceError::AlreadyVoted);
        }
        self.records.push(vote);
        Ok(())
    }

    /// A vote for `pid` by `voter` was recorded.
    pub fn has_vote(&self, pid: u64, voter: AccountId) -> (r: bool)
        ensures
            r == spec_has_vote(self.records@, pid, voter),
    {
        let mut i: usize = 0;
        while i < self.records.len()
            invariant
                i <= self.records@.len(),
                forall|k: int|
                    0 <= k < i ==> !(self.records@[k].proposal_id == pid && self.records@[k].voter
                        == voter),
            decreases self.records@.len() - i,
        {
            let rec = self.records[i];
            if rec.proposal_id == pid && rec.voter == voter {
                assert(self.records@[i as int].proposal_id == pid);
                return true;
            }
            i = i + 1;
        }
        false
    }

    /// Every vote record for one proposal, in recording order; the valid
    /// ones among them feed the tally.
    pub fn read_all(&self, pid: u64) -> (r: Vec<Vote>)
        ensures
            r@ == spec_votes_for(self.records@, pid),
    {
        let mut r: Vec<Vote> = Vec::new();
        let mut i: usize = 0;
        while i < self.records.len()
            invariant
                i <= self.records@.len(),
                r@ == spec_votes_for(self.records@.take(i as int), pid),
            decreases self.records@.len() - i,
        {
            proof {
                let s = self.records@;
                assert(s.take(i + 1).drop_last() =~= s.take(i as int));
                assert(s.take(i + 1).last() == s[i as int]);
            }
            let rec = self.records[i];
            if rec.proposal_id == pid {
                r.push(rec);
            }
            i = i + 1;
        }
        proof {
            assert(self.records@.take(self.records@.len() as int) =~= self.records@);
        }
        r
    }
}

/// A delegation of voting power from one member to another. The data shape
/// exists for a future feature; no operation consumes it.
#[derive(Clone, Copy, Debug, PartialEq, Eq, Structural)]
pub struct VoteDelegation {
    /// Who delegates.
    pub delegator: AccountId,
    /// Who receives the power.
    pub delegate: AccountId,
    /// How much power is delegated.
    pub delegated_power: u64,
    /// When the delegation starts.
    pub start_time: i64,
    /// When the delegation ends; `None` means it is permanent.
    pub end_time: Option<i64>,
    /// The delegation is in force.
    pub is_active: bool,
}

impl VoteDelegation {
    /// The delegation applies at `current_time`.
    pub fn is_valid(&self, current_time: i64) -> (r: bool)
        ensures
            r == (self.is_active && current_time >= self.start_time && (match self.end_time {
                Some(end) => current_time <= end,
                None => true,
            })),
    {
        self.is_active && current_time >= self.start_time && (match self.end_time {
            Some(end) => current_time <= end,
            None => true,
        })
    }

    /// Withdraw the delegation.
    pub fn revoke(&mut self)
        ensures
            *final(self) == (VoteDelegation { is_active: false, ..*old(self) }),
    {
        self.is_active = false;
    }
}

} // verus!
