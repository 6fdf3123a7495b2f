use vstd::prelude::*;

verus! {

/// Error kinds surfaced by the governance engine. Every operation is
/// all-or-nothing: when one of these is returned, no record was modified.
#[derive(Clone, Copy, Debug, PartialEq, Eq, Structural)]
pub enum GovernanceError {
    /// The caller is not the configured authority.
    Unauthorized,
    /// A basis-point threshold is outside [0, 10000].
    InvalidThreshold,
    /// The fee rate is outside [0, 10000].
    InvalidFeeRate,
    /// The voting period is outside the allowed range for the current mode.
    InvalidVotingPeriod,
    /// Scaling a raw deposit by the token's decimal factor overflowed.
    MathOverflow,
    /// The proposal is not in the `Pending` state.
    ProposalNotActive,
    /// The proposal is not in the `Passed` state.
    ProposalNotExecutable,
    /// The voting window has already closed.
    VotingPeriodEnded,
    /// The voting window has not closed yet.
    VotingPeriodNotEnded,
    /// The proposal title is longer than allowed.
    InvalidProposalTitleLength,
    /// The proposal description is longer than allowed.
    InvalidProposalDescriptionLength,
    /// A custom deposit is below the configured minimum.
    InsufficientProposalDeposit,
    /// A vote by this voter on this proposal already exists.
    AlreadyVoted,
    /// The vote was already revoked.
    VoteAlreadyRevoked,
    /// The voter's balance is below one whole committee token.
    InsufficientVotingPower,
    /// The voter is not in the committee roster.
    NotCommitteeMember,
    /// The committee roster has no free slot.
    CommitteeFull,
    /// The member is already in the committee roster.
    MemberAlreadyExists,
    /// The member is not in the committee roster.
    MemberNotFound,
    /// No rule document exists at the given index.
    RuleDocumentNotFound,
    /// A rule document with the same category and title already exists.
    DuplicateRuleDocument,
    /// The rule registry is full.
    TooManyRuleDocuments,
    /// The rule category is longer than allowed.
    InvalidCategoryLength,
    /// The rule title is longer than allowed.
    InvalidTitleLength,
    /// The rule URL is longer than allowed.
    InvalidUrlLength,
    /// The rule hash is longer than allowed.
    InvalidHashLength,
    /// The rule URL does not start with an accepted scheme.
    InvalidUrlFormat,
    /// The rule hash is not a 64-digit hexadecimal string.
    InvalidHashFormat,
    /// An externally supplied record failed to parse as the expected shape.
    InvalidAccountData,
    /// An aggregate exceeded the range of its machine integer.
    ArithmeticOverflow,
}

} // verus!
