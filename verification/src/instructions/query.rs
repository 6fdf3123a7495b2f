use crate::error::GovernanceError;
use crate::instructions::proposal::calculate_voting_results_from_votes;
use crate::instructions::proposal::spec_any_bad_slot;
use crate::instructions::proposal::spec_tally_fits;
use crate::instructions::proposal::spec_total_power;
use crate::instructions::proposal::spec_vote_power;
use crate::instructions::proposal::LedgerEntry;
use crate::state::governance::GovernanceConfig;
use crate::state::proposal::VoteType;
use crate::state::vote::spec_approval_rate;
use crate::state::vote::spec_participation_rate;
use crate::state::vote::spec_veto_rate;
use crate::state::vote::VoteStats;
use crate::state::vote::MAX_TOKEN_DECIMALS;
use crate::AccountId;
use vstd::prelude::*;

verus! {

/// What a voting-power query reports about one proposal: the live total
/// voting power, the per-type vote counts and the three computed rates.
#[derive(Clone, Copy, Debug, PartialEq, Eq, Structural)]
pub struct VotingPowerQueried {
    /// Proposal the report is about.
    pub proposal_id: u64,
    /// Live total voting power over the roster.
    pub total_voting_power: u64,
    /// Voting power cast as yes.
    pub yes_votes: u64,
    /// Voting power cast as no.
    pub no_votes: u64,
    /// Voting power cast as abstain.
    pub abstain_votes: u64,
    /// Voting power cast as veto.
    pub veto_votes: u64,
    /// Sum of the four buckets.
    pub total_votes: u64,
    /// Turnout share, in basis points.
    pub participation_rate: u16,
    /// Approval share, in basis points.
    pub approval_rate: u16,
    /// Veto share, in basis points.
    pub veto_rate: u16,
    /// When the query ran.
    pub timestamp: i64,
}

/// Read-only query: tally the caller-supplied records with the same rules
/// that finalization uses and report the counts together with the three
/// rates. Nothing is modified.
pub fn query_voting_power(
    governance_config: &GovernanceConfig,
    committee_token_mint: AccountId,
    token_decimals: u8,
    entries: &Vec<LedgerEntry>,
    proposal_id: u64,
    now: i64,
) -> (r: Result<VotingPowerQueried, GovernanceError>)
    requires
        governance_config.wf(),
        token_decimals <= MAX_TOKEN_DECIMALS,
    ensures
        ({
            let members = governance_config.committee_members@;
            let start = governance_config.committee_member_count as int;
            let bad = spec_any_bad_slot(members, entries@);
            let tvp = spec_total_power(members, entries@, committee_token_mint, token_decimals);
            let yes = spec_vote_power(entries@, start, proposal_id, token_decimals, VoteType::Yes);
            let no = spec_vote_power(entries@, start, proposal_id, token_decimals, VoteType::No);
            let abstain = spec_vote_power(
                entries@,
                start,
                proposal_id,
                token_decimals,
                VoteType::Abstain,
            );
            let veto = spec_vote_power(
                entries@,
                start,
                proposal_id,
                token_decimals,
                VoteType::NoWithVeto,
            );
            let fits = spec_tally_fits(
                members,
                entries@,
                committee_token_mint,
                token_decimals,
                proposal_id,
                start,
            ) && yes + no + abstain + veto <= u64::MAX;
            match r {
                Ok(q) => {
                    let stats = VoteStats {
                        total_votes: (yes + no + abstain + veto) as u64,
                        yes_votes: yes as u64,
                        no_votes: no as u64,
                        abstain_votes: abstain as u64,
                        veto_votes: veto as u64,
                        voter_count: 0,
                    };
                    &&& !bad && fits
                    &&& q == (VotingPowerQueried {
                        proposal_id,
                        total_voting_power: tvp as u64,
                        yes_votes: yes as u64,
                        no_votes: no as u64,
                        abstain_votes: abstain as u64,
                        veto_votes: veto as u64,
                        total_votes: (yes + no + abstain + veto) as u64,
                        participation_rate: spec_participation_rate(stats, tvp as u64),
                        approval_rate: spec_approval_rate(stats),
                        veto_rate: spec_veto_rate(stats),
                        timestamp: now,
                    })
                },
                Err(GovernanceError::InvalidAccountData) => bad,
                Err(GovernanceError::ArithmeticOverflow) => !bad && !fits,
                Err(_) => false,
            }
        }),
{
    let tally = match calculate_voting_results_from_votes(
        governance_config,
        committee_token_mint,
        token_decimals,
        entries,
        proposal_id,
    ) {
        Ok(t) => t,
        Err(e) => {
            return Err(e);
        },
    };
    let (total_voting_power, vote_results) = tally;
    let (yes_votes, no_votes, abstain_votes, veto_votes) = vote_results;
    let total_u128: u128 = (yes_votes as u128) + (no_votes as u128) + (abstain_votes as u128) + (
    veto_votes as u128);
    if total_u128 > 0xffff_ffff_ffff_ffffu128 {
        return Err(GovernanceError::ArithmeticOverflow);
    }
    let total_votes: u64 = total_u128 as u64;
    let stats = VoteStats {
        total_votes,
        yes_votes,
        no_votes,
        abstain_votes,
        veto_votes,
        voter_count: 0,
    };
    Ok(
        VotingPowerQueried {
            proposal_id,
            total_voting_power,
            yes_votes,
            no_votes,
            abstain_votes,
            veto_votes,
            total_votes,
            participation_rate: stats.calculate_participation_rate(total_voting_power),
            approval_rate: stats.calculate_approval_rate(),
            veto_rate: stats.calculate_veto_rate(),
            timestamp: now,
        },
    )
}

} // verus!
