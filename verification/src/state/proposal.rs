use crate::error::GovernanceError;
use crate::state::governance::GovernanceConfig;
use crate::state::governance::GovernanceConfigUpdate;
use crate::state::rules::RuleDocument;
use crate::state::vote::spec_resolve_status;
use crate::state::vote::VoteStats;
use crate::AccountId;
use vstd::prelude::*;
use vstd::utf8::encode_utf8;

verus! {

/// Longest accepted proposal title, in bytes.
pub const MAX_TITLE_LEN: usize = 100;

/// Longest accepted proposal description, in bytes.
pub const MAX_DESCRIPTION_LEN: usize = 800;

/// Longest stored execution result, in bytes.
pub const MAX_EXECUTION_RESULT_LEN: usize = 500;

/// What a proposal asks the committee to decide.
#[derive(Clone, Copy, Debug, PartialEq, Eq, Structural)]
pub enum ProposalType {
    /// Sanction a merchant for an illegal product.
    SlashMerchant,
    /// Arbitrate a trade dispute.
    DisputeArbitration,
    /// Change the rule documents.
    RuleUpdate,
    /// Change the governance configuration.
    ConfigUpdate,
}

/// Lifecycle state of a proposal. `Pending` moves to one of the three
/// terminal outcomes at finalization; `Passed` may later move to `Executed`.
#[derive(Clone, Copy, Debug, PartialEq, Eq, Structural)]
pub enum ProposalStatus {
    /// Voting in progress.
    Pending,
    /// Approved by the committee.
    Passed,
    /// Turned down, by vote or by insufficient participation.
    Rejected,
    /// Overridden by the veto tier.
    Vetoed,
    /// A passed proposal whose execution was recorded.
    Executed,
}

/// The stance a single vote takes.
#[derive(Clone, Copy, Debug, PartialEq, Eq, Structural)]
pub enum VoteType {
    Yes,
    No,
    Abstain,
    NoWithVeto,
}

/// Typed payload describing what a passed proposal would do.
#[derive(Clone, Debug)]
pub enum ExecutionData {
    /// Slash proposal data.
    Slash(SlashProposalData),
    /// Dispute arbitration data.
    Dispute(DisputeProposalData),
    /// Rule update data.
    RuleUpdate(RuleUpdateData),
    /// Configuration update data.
    ConfigUpdate(ConfigUpdateData),
}

/// Payload of a merchant-sanction proposal.
#[derive(Clone, Debug)]
pub struct SlashProposalData {
    /// Merchant to sanction.
    pub merchant_address: AccountId,
    /// Offending product, when one is singled out.
    pub product_address: Option<AccountId>,
    /// Offending order, when one is singled out.
    pub order_address: Option<AccountId>,
    /// Kind of violation alleged.
    pub violation_type: String,
    /// Evidence file URLs.
    pub evidence_urls: Vec<String>,
    /// Amount to slash.
    pub slash_amount: u64,
}

/// Payload of a trade-dispute arbitration proposal.
#[derive(Clone, Debug)]
pub struct DisputeProposalData {
    /// User side of the dispute.
    pub user_address: AccountId,
    /// Merchant side of the dispute.
    pub merchant_address: AccountId,
    /// Disputed order.
    pub order_address: AccountId,
    /// Kind of dispute.
    pub dispute_type: String,
    /// Evidence file URLs.
    pub evidence_urls: Vec<String>,
    /// Resolution the opener asks for.
    pub requested_resolution: String,
    /// Decision, filled in after voting.
    pub arbitration_decision: Option<ArbitrationDecision>,
}

/// Outcome of a dispute arbitration.
#[derive(Clone, Copy, Debug, PartialEq, Eq, Structural)]
pub enum ArbitrationDecision {
    /// Support the user, full refund.
    RefundUser,
    /// Support the merchant, no refund.
    SupportMerchant,
    /// Partial refund of the given amount.
    PartialRefund(u64),
    /// Require offline resolution.
    RequireOfflineResolution,
}

/// Payload of a rule-update proposal.
#[derive(Clone, Debug)]
pub struct RuleUpdateData {
    /// Which registry operation to perform.
    pub operation: RuleOperation,
    /// Document index, for update and remove.
    pub document_index: Option<u32>,
    /// New document data, for add and update.
    pub document_data: Option<RuleDocument>,
}

/// Registry operation requested by a rule-update proposal.
#[derive(Clone, Copy, Debug, PartialEq, Eq, Structural)]
pub enum RuleOperation {
    Add,
    Update,
    Remove,
}

/// Payload of a configuration-update proposal.
#[derive(Clone, Debug)]
pub struct ConfigUpdateData {
    /// Configuration fields to change.
    pub config_update: GovernanceConfigUpdate,
}

/// One proposal put before the committee, together with its locked deposit,
/// its voting window and the tallies written at finalization.
#[derive(Debug)]
pub struct Proposal {
    /// Unique, monotonically assigned identifier.
    pub id: u64,
    /// Who opened the proposal.
    pub proposer: AccountId,
    /// What the proposal asks for.
    pub proposal_type: ProposalType,
    /// Short human-readable title.
    pub title: String,
    /// Longer human-readable description.
    pub description: String,
    /// Deposit locked at creation, settled at finalization.
    pub deposit_amount: u64,
    /// When the proposal was created.
    pub created_at: i64,
    /// When voting opened.
    pub voting_start: i64,
    /// When voting closes.
    pub voting_end: i64,
    /// Lifecycle state.
    pub status: ProposalStatus,
    /// Voting power accumulated for yes, written at finalization.
    pub yes_votes: u64,
    /// Voting power accumulated for no, written at finalization.
    pub no_votes: u64,
    /// Voting power accumulated for abstain, written at finalization.
    pub abstain_votes: u64,
    /// Voting power accumulated for veto, written at finalization.
    pub veto_votes: u64,
    /// Sum of the four buckets, written at finalization.
    pub total_votes: u64,
    /// What a passed proposal would do.
    pub execution_data: Option<ExecutionData>,
    /// Human-readable execution summary, written by `mark_executed`.
    pub execution_result: Option<String>,
}

impl Proposal {
    /// Structural bounds every stored proposal satisfies.
    pub open spec fn wf(self) -> bool {
        &&& encode_utf8(self.title@).len() <= MAX_TITLE_LEN
        &&& encode_utf8(self.description@).len() <= MAX_DESCRIPTION_LEN
        &&& match self.execution_result {
            Some(r) => encode_utf8(r@).len() <= MAX_EXECUTION_RESULT_LEN,
            None => true,
        }
    }

    /// Voting is allowed while the proposal is pending and the window is open.
    pub fn can_vote(&self, now: i64) -> (r: bool)
        ensures
            r == (self.status == ProposalStatus::Pending && now <= self.voting_end),
    {
        self.status == ProposalStatus::Pending && now <= self.voting_end
    }

    /// The voting window has closed.
    pub fn is_voting_ended(&self, now: i64) -> (r: bool)
        ensures
            r == (now > self.voting_end),
    {
        now > self.voting_end
    }

    /// Only a passed proposal can be executed.
    pub fn can_execute(&self) -> (r: bool)
        ensures
            r == (self.status == ProposalStatus::Passed),
    {
        self.status == ProposalStatus::Passed
    }

    /// The tallies recorded on the proposal, as vote statistics. The voter
    /// count is not tracked on the proposal record and reads zero.
    pub open spec fn spec_recorded_stats(self) -> VoteStats {
        VoteStats {
            total_votes: self.total_votes,
            yes_votes: self.yes_votes,
            no_votes: self.no_votes,
            abstain_votes: self.abstain_votes,
            veto_votes: self.veto_votes,
            voter_count: 0,
        }
    }

    /// Resolve the recorded tallies into a terminal status once the voting
    /// window has closed. This is the only edge out of `Pending`, so it can
    /// be traversed at most once. Fails with a not-ended condition while the
    /// window is open, and with a not-active condition off `Pending`.
    pub fn finalize(
        &mut self,
        governance_config: &GovernanceConfig,
        total_voting_power: u64,
        now: i64,
    ) -> (r: Result<(), GovernanceError>)
        ensures
            r is Ok <==> (now > old(self).voting_end && old(self).status
                == ProposalStatus::Pending),
            r is Ok ==> *final(self) == (Proposal {
                status: spec_resolve_status(
                    old(self).spec_recorded_stats(),
                    total_voting_power,
                    governance_config.participation_threshold,
                    governance_config.approval_threshold,
                    governance_config.veto_threshold,
                ),
                ..*old(self)
            }),
            now <= old(self).voting_end ==> r == Err::<(), GovernanceError>(
                GovernanceError::VotingPeriodNotEnded,
            ),
            now > old(self).voting_end && old(self).status != ProposalStatus::Pending ==> r
                == Err::<(), GovernanceError>(GovernanceError::ProposalNotActive),
            r is Err ==> *final(self) == *old(self),
            old(self).wf() ==> final(self).wf(),
    {
        if !self.is_voting_ended(now) {
            return Err(GovernanceError::VotingPeriodNotEnded);
        }
        if !(self.status == ProposalStatus::Pending) {
            return Err(GovernanceError::ProposalNotActive);
        }
        let vote_stats = VoteStats {
            total_votes: self.total_votes,
            yes_votes: self.yes_votes,
            no_votes: self.no_votes,
            abstain_votes: self.abstain_votes,
            veto_votes: self.veto_votes,
            voter_count: 0,
        };
        self.status = governance_config.determine_proposal_status_with_vote_stats(
            &vote_stats,
            total_voting_power,
        );
        Ok(())
    }

    /// Records an execution summary and moves `Passed` to `Executed`.
    /// Fails on any other status and changes nothing.
    pub fn mark_executed(&mut self, result: String) -> (r: Result<(), GovernanceError>)
        requires
            encode_utf8(result@).len() <= MAX_EXECUTION_RESULT_LEN,
    ensures
            match r {
                Ok(()) => old(self).status == ProposalStatus::Passed && *final(self) == (Proposal {
                    status: ProposalStatus::Executed,
                    execution_result: Some(result),
                    ..*old(self)
                }),
                Err(e) => e == GovernanceError::ProposalNotExecutable && old(self).status
                    != ProposalStatus::Passed && *final(self) == *old(self),
            },
            old(self).wf() ==> final(self).wf(),
    {
        if !(self.status == ProposalStatus::Passed) {
            return Err(GovernanceError::ProposalNotExecutable);
        }
        self.status = ProposalStatus::Executed;
        self.execution_result = Some(result);
        Ok(())
    }
}

} // verus!
