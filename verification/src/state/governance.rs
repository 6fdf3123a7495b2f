use crate::error::GovernanceError;
use crate::instructions::common::MAX_VOTING_PERIOD;
use crate::instructions::common::MIN_TEST_VOTING_PERIOD;
use crate::instructions::common::PERCENTAGE_BASE;
use crate::instructions::common::TimestampUpdatable;
use crate::state::proposal::ProposalStatus;
use crate::state::vote::spec_resolve_status;
use crate::state::vote::VoteStats;
use crate::AccountId;
use vstd::prelude::*;

verus! {

/// Number of slots in the committee roster.
pub const COMMITTEE_CAPACITY: usize = 10;

/// Number of occupied slots in a roster.
pub open spec fn spec_occupied(s: Seq<Option<AccountId>>) -> nat
    decreases s.len(),
{
    if s.len() == 0 {
        0
    } else {
        spec_occupied(s.drop_last()) + (if s.last() is Some {
            1nat
        } else {
            0nat
        })
    }
}

/// `m` sits in some slot of the roster.
pub open spec fn spec_is_member(s: Seq<Option<AccountId>>, m: AccountId) -> bool {
    exists|i: int| 0 <= i < s.len() && s[i] == Some(m)
}

/// No identity occupies two slots.
pub open spec fn spec_distinct_members(s: Seq<Option<AccountId>>) -> bool {
    forall|i: int, j: int|
        0 <= i < s.len() && 0 <= j < s.len() && i != j && s[i] is Some ==> s[i] != s[j]
}

/// Index of the first empty slot, or -1 when the roster is full.
pub open spec fn spec_first_free(s: Seq<Option<AccountId>>) -> int
    decreases s.len(),
{
    if s.len() == 0 {
        -1
    } else if s[0] is None {
        0
    } else {
        let r = spec_first_free(s.drop_first());
        if r < 0 {
            -1
        } else {
            r + 1
        }
    }
}

/// Index of the first slot holding `m`, or -1 when `m` is absent.
pub open spec fn spec_member_slot(s: Seq<Option<AccountId>>, m: AccountId) -> int
    decreases s.len(),
{
    if s.len() == 0 {
        -1
    } else if s[0] == Some(m) {
        0
    } else {
        let r = spec_member_slot(s.drop_first(), m);
        if r < 0 {
            -1
        } else {
            r + 1
        }
    }
}

/// The identities in the roster, in slot order.
pub open spec fn spec_roster(s: Seq<Option<AccountId>>) -> Seq<AccountId>
    decreases s.len(),
{
    if s.len() == 0 {
        Seq::empty()
    } else {
        let rest = spec_roster(s.drop_last());
        match s.last() {
            Some(m) => rest.push(m),
            None => rest,
        }
    }
}

pub proof fn lemma_occupied_all_some(s: Seq<Option<AccountId>>)
    requires
        forall|i: int| 0 <= i < s.len() ==> s[i] is Some,
    ensures
        spec_occupied(s) == s.len(),
    decreases s.len(),
{
    if s.len() > 0 {
        lemma_occupied_all_some(s.drop_last());
    }
}

pub proof fn lemma_occupied_all_none(s: Seq<Option<AccountId>>)
    requires
        forall|i: int| 0 <= i < s.len() ==> s[i] is None,
    ensures
        spec_occupied(s) == 0,
    decreases s.len(),
{
    if s.len() > 0 {
        lemma_occupied_all_none(s.drop_last());
    }
}

pub proof fn lemma_occupied_update_to_some(s: Seq<Option<AccountId>>, i: int, m: AccountId)
    requires
        0 <= i < s.len(),
        s[i] is None,
    ensures
        spec_occupied(s.update(i, Some(m))) == spec_occupied(s) + 1,
    decreases s.len(),
{
    let t = s.update(i, Some(m));
    if i == s.len() - 1 {
        assert(t.drop_last() =~= s.drop_last());
    } else {
        assert(t.drop_last() =~= s.drop_last().update(i, Some(m)));
        lemma_occupied_update_to_some(s.drop_last(), i, m);
    }
}

pub proof fn lemma_occupied_update_to_none(s: Seq<Option<AccountId>>, i: int)
    requires
        0 <= i < s.len(),
        s[i] is Some,
    ensures
        spec_occupied(s) >= 1,
        spec_occupied(s.update(i, None)) == spec_occupied(s) - 1,
    decreases s.len(),
{
    let t = s.update(i, None);
    if i == s.len() - 1 {
        assert(t.drop_last() =~= s.drop_last());
    } else {
        assert(t.drop_last() =~= s.drop_last().update(i, None));
        lemma_occupied_update_to_none(s.drop_last(), i);
    }
}

proof fn lemma_first_free_at(s: Seq<Option<AccountId>>, i: int)
    requires
        0 <= i < s.len(),
        s[i] is None,
        forall|k: int| 0 <= k < i ==> s[k] is Some,
    ensures
        spec_first_free(s) == i,
    decreases s.len(),
{
    if i > 0 {
        let d = s.drop_first();
        assert(forall|k: int| 0 <= k < i - 1 ==> d[k] is Some);
        lemma_first_free_at(d, i - 1);
    }
}

proof fn lemma_member_slot_at(s: Seq<Option<AccountId>>, m: AccountId, i: int)
    requires
        0 <= i < s.len(),
        s[i] == Some(m),
        forall|k: int| 0 <= k < i ==> s[k] != Some(m),
    ensures
        spec_member_slot(s, m) == i,
    decreases s.len(),
{
    if i > 0 {
        let d = s.drop_first();
        assert(forall|k: int| 0 <= k < i - 1 ==> d[k] != Some(m));
        lemma_member_slot_at(d, m, i - 1);
    }
}

/// The governance configuration: a singleton record owned by the authority
/// and read by every operation.
#[derive(Debug)]
pub struct GovernanceConfig {
    /// Administrator identity.
    pub authority: AccountId,
    /// Mint of the committee token whose holdings weigh votes.
    pub committee_token_mint: AccountId,
    /// Committee roster: a fixed arena of nullable slots.
    pub committee_members: Vec<Option<AccountId>>,
    /// Number of occupied roster slots.
    pub committee_member_count: u8,
    /// Deposit locked when a proposal is created.
    pub proposal_deposit: u64,
    /// Length of the voting window, in seconds.
    pub voting_period: u64,
    /// Minimum turnout, in basis points.
    pub participation_threshold: u16,
    /// Minimum approval share, in basis points; equality does not pass.
    pub approval_threshold: u16,
    /// Veto override share, in basis points.
    pub veto_threshold: u16,
    /// Committee fee rate, in basis points.
    pub fee_rate: u16,
    /// Cached total voting power, maintained by the authority.
    pub total_voting_power: u64,
    /// Number of proposals ever created; never decreases.
    pub proposal_counter: u64,
    /// Creation time.
    pub created_at: i64,
    /// Last update time.
    pub updated_at: i64,
    /// Test mode relaxes the voting-period bounds.
    pub test_mode: bool,
}

impl GovernanceConfig {
    /// Structural invariant every stored configuration satisfies.
    pub open spec fn wf(self) -> bool {
        &&& self.committee_members@.len() == COMMITTEE_CAPACITY
        &&& self.committee_member_count as nat == spec_occupied(self.committee_members@)
        &&& spec_distinct_members(self.committee_members@)
        &&& self.participation_threshold <= PERCENTAGE_BASE
        &&& self.approval_threshold <= PERCENTAGE_BASE
        &&& self.veto_threshold <= PERCENTAGE_BASE
        &&& self.fee_rate <= PERCENTAGE_BASE
        &&& MIN_TEST_VOTING_PERIOD <= self.voting_period <= MAX_VOTING_PERIOD
    }

    /// Assign the next proposal id: the counter is bumped and never reused.
    pub fn next_proposal_id(&mut self) -> (r: u64)
        requires
            old(self).proposal_counter < u64::MAX,
        ensures
            r == old(self).proposal_counter + 1,
            *final(self) == (GovernanceConfig { proposal_counter: r, ..*old(self) }),
    {
        self.proposal_counter = self.proposal_counter + 1;
        self.proposal_counter
    }

    /// The committee's cut of `amount` at the configured fee rate.
    pub fn calculate_committee_fee(&self, amount: u64) -> (r: u64)
        requires
            self.fee_rate <= PERCENTAGE_BASE,
            amount * self.fee_rate <= u64::MAX,
        ensures
            r == (amount * self.fee_rate) / (PERCENTAGE_BASE as int),
            r <= amount,
    {
        proof {
            assert((amount * self.fee_rate) / (PERCENTAGE_BASE as int) <= amount)
                by (nonlinear_arith)
                requires
                    self.fee_rate <= PERCENTAGE_BASE,
                    PERCENTAGE_BASE == 10000,
            ;
        }
        (amount * (self.fee_rate as u64)) / (PERCENTAGE_BASE as u64)
    }

    /// What the proposer gets back from a deposit after the committee fee.
    pub fn calculate_proposer_refund(&self, deposit: u64) -> (r: u64)
        requires
            self.fee_rate <= PERCENTAGE_BASE,
            deposit * self.fee_rate <= u64::MAX,
        ensures
            r == deposit - (deposit * self.fee_rate) / (PERCENTAGE_BASE as int),
    {
        deposit - self.calculate_committee_fee(deposit)
    }

    /// Resolve a proposal's terminal status from vote statistics using the
    /// configured thresholds.
    pub fn determine_proposal_status_with_vote_stats(
        &self,
        vote_stats: &VoteStats,
        total_voting_power: u64,
    ) -> (r: ProposalStatus)
        ensures
            r == spec_resolve_status(
                *vote_stats,
                total_voting_power,
                self.participation_threshold,
                self.approval_threshold,
                self.veto_threshold,
            ),
    {
        vote_stats.determine_proposal_status(
            total_voting_power,
            self.participation_threshold,
            self.approval_threshold,
            self.veto_threshold,
        )
    }

    /// Insert `member` into the first empty roster slot. Fails when the
    /// roster is full or the member is already present.
    pub fn add_committee_member(&mut self, member: AccountId, now: i64) -> (r: Result<
        (),
        GovernanceError,
    >)
        requires
            old(self).wf(),
        ensures
            final(self).wf(),
            r is Ok <==> (old(self).committee_member_count < COMMITTEE_CAPACITY
                && !spec_is_member(old(self).committee_members@, member)),
            r is Ok ==> ({
                let i = spec_first_free(old(self).committee_members@);
                &&& 0 <= i < COMMITTEE_CAPACITY
                &&& *final(self) == (GovernanceConfig {
                    committee_members: final (self).committee_members,
                    committee_member_count: (old(self).committee_member_count + 1) as u8,
                    updated_at: now,
                    ..*old(self)
                })
                &&& final (self).committee_members@ == old(self).committee_members@.update(
                    i,
                    Some(member),
                )
                &&& spec_is_member(final (self).committee_members@, member)
            }),
            old(self).committee_member_count >= COMMITTEE_CAPACITY ==> r == Err::<
                (),
                GovernanceError,
            >(GovernanceError::CommitteeFull),
            old(self).committee_member_count < COMMITTEE_CAPACITY && spec_is_member(
                old(self).committee_members@,
                member,
            ) ==> r == Err::<(), GovernanceError>(GovernanceError::MemberAlreadyExists),
            r is Err ==> *final(self) == *old(self),
    {
        if self.committee_member_count as usize >= COMMITTEE_CAPACITY {
            return Err(GovernanceError::CommitteeFull);
        }
        if self.is_committee_member(member) {
            return Err(GovernanceError::MemberAlreadyExists);
        }
        let mut i: usize = 0;
        while i < self.committee_members.len()
            invariant
                *self == *old(self),
                old(self).wf(),
                old(self).committee_member_count < COMMITTEE_CAPACITY,
                !spec_is_member(old(self).committee_members@, member),
                i <= COMMITTEE_CAPACITY,
                forall|k: int| 0 <= k < i ==> self.committee_members@[k] is Some,
            decreases self.committee_members@.len() - i,
        {
            let slot: Option<AccountId> = self.committee_members[i];
            if slot.is_none() {
                proof {
                    lemma_first_free_at(self.committee_members@, i as int);
                    lemma_occupied_update_to_some(self.committee_members@, i as int, member);
                }
                self.committee_members[i] = Some(member);
                self.committee_member_count = self.committee_member_count + 1;
                self.updated_at = now;
                proof {
                    let s = old(self).committee_members@;
                    let t = self.committee_members@;
                    assert forall|a: int, b: int|
                        0 <= a < t.len() && 0 <= b < t.len() && a != b && t[a] is Some implies t[a]
                        != t[b] by {
                        if a == i {
                            assert(s[b] != Some(member));
                        } else if b == i {
                            assert(s[a] != Some(member));
                        }
                    }
                    assert(t[i as int] == Some(member));
                }
                return Ok(());
            }
            i = i + 1;
        }
        proof {
            lemma_occupied_all_some(self.committee_members@);
        }
        Err(GovernanceError::CommitteeFull)
    }

    /// Empty the slot holding `member`. Fails when the member is absent.
    pub fn remove_committee_member(&mut self, member: AccountId, now: i64) -> (r: Result<
        (),
        GovernanceError,
    >)
        requires
            old(self).wf(),
        ensures
            final(self).wf(),
            r is Ok <==> spec_is_member(old(self).committee_members@, member),
            r is Ok ==> ({
                let i = spec_member_slot(old(self).committee_members@, member);
                &&& 0 <= i < COMMITTEE_CAPACITY
                &&& old(self).committee_members@[i] == Some(member)
                &&& *final(self) == (GovernanceConfig {
                    committee_members: final (self).committee_members,
                    committee_member_count: (old(self).committee_member_count - 1) as u8,
                    updated_at: now,
                    ..*old(self)
                })
                &&& final (self).committee_members@ == old(self).committee_members@.update(i, None)
            }),
            r is Err ==> r == Err::<(), GovernanceError>(GovernanceError::MemberNotFound)
                && *final(self) == *old(self),
    {
        let mut i: usize = 0;
        while i < self.committee_members.len()
            invariant
                *self == *old(self),
                old(self).wf(),
                i <= COMMITTEE_CAPACITY,
                forall|k: int| 0 <= k < i ==> self.committee_members@[k] != Some(member),
            decreases self.committee_members@.len() - i,
        {
            let slot: Option<AccountId> = self.committee_members[i];
            match slot {
                Some(existing) => {
                    if existing == member {
                        proof {
                            lemma_member_slot_at(self.committee_members@, member, i as int);
                            lemma_occupied_update_to_none(self.committee_members@, i as int);
                        }
                        self.committee_members[i] = None;
                        self.committee_member_count = self.committee_member_count - 1;
                        self.updated_at = now;
                        return Ok(());
                    }
                },
                None => {},
            }
            i = i + 1;
        }
        Err(GovernanceError::MemberNotFound)
    }

    /// `member` currently sits in the roster.
    pub fn is_committee_member(&self, member: AccountId) -> (r: bool)
        ensures
            r == spec_is_member(self.committee_members@, member),
    {
        let mut i: usize = 0;
        while i < self.committee_members.len()
            invariant
                i <= self.committee_members@.len(),
                forall|k: int| 0 <= k < i ==> self.committee_members@[k] != Some(member),
            decreases self.committee_members@.len() - i,
        {
            let slot: Option<AccountId> = self.committee_members[i];
            match slot {
                Some(existing) => {
                    if existing == member {
                        assert(self.committee_members@[i as int] == Some(member));
                        return true;
                    }
                },
                None => {},
            }
            i = i + 1;
        }
        false
    }

    /// The identities in the roster, in slot order.
    pub fn get_committee_members(&self) -> (r: Vec<AccountId>)
        ensures
            r@ == spec_roster(self.committee_members@),
    {
        let mut r: Vec<AccountId> = Vec::new();
        let mut i: usize = 0;
        while i < self.committee_members.len()
            invariant
                i <= self.committee_members@.len(),
                r@ == spec_roster(self.committee_members@.take(i as int)),
            decreases self.committee_members@.len() - i,
        {
            proof {
                let s = self.committee_members@;
                assert(s.take(i + 1).drop_last() =~= s.take(i as int));
                assert(s.take(i + 1).last() == s[i as int]);
            }
            let slot: Option<AccountId> = self.committee_members[i];
            match slot {
                Some(existing) => {
                    r.push(existing);
                },
                None => {},
            }
            i = i + 1;
        }
        proof {
            assert(self.committee_members@.take(self.committee_members@.len() as int)
                =~= self.committee_members@);
        }
        r
    }
}

impl TimestampUpdatable for GovernanceConfig {
    open spec fn spec_updated_at(&self) -> i64 {
        self.updated_at
    }

    fn set_updated_at(&mut self, timestamp: i64) {
        self.updated_at = timestamp;
    }
}

/// A partial update of the governance configuration: `Some` fields replace
/// the current value, `None` fields leave it alone.
#[derive(Clone, Copy, Debug)]
pub struct GovernanceConfigUpdate {
    pub proposal_deposit: Option<u64>,
    pub voting_period: Option<u64>,
    pub participation_threshold: Option<u16>,
    pub approval_threshold: Option<u16>,
    pub veto_threshold: Option<u16>,
    pub fee_rate: Option<u16>,
    pub test_mode: Option<bool>,
}

impl GovernanceConfigUpdate {
    /// Outcome of validating this update against the current test mode:
    /// thresholds and fee rate must stay within the percentage base, and a
    /// new voting period must fit the bounds of the mode that will be in
    /// effect (short windows in test mode, one day to thirty days in
    /// production).
    pub open spec fn spec_validate(self, current_test_mode: bool) -> Result<(), GovernanceError> {
        if (match self.participation_threshold {
            Some(t) => t > PERCENTAGE_BASE,
            None => false,
        }) {
            Err(GovernanceError::InvalidThreshold)
        } else if (match self.approval_threshold {
            Some(t) => t > PERCENTAGE_BASE,
            None => false,
        }) {
            Err(GovernanceError::InvalidThreshold)
        } else if (match self.veto_threshold {
            Some(t) => t > PERCENTAGE_BASE,
            None => false,
        }) {
            Err(GovernanceError::InvalidThreshold)
        } else if (match self.fee_rate {
            Some(f) => f > PERCENTAGE_BASE,
            None => false,
        }) {
            Err(GovernanceError::InvalidFeeRate)
        } else if (match self.voting_period {
            Some(vp) => {
                let tm = match self.test_mode {
                    Some(t) => t,
                    None => current_test_mode,
                };
                if tm {
                    vp < 30 || vp > 3600
                } else {
                    vp < 86400 || vp > 2592000
                }
            },
            None => false,
        }) {
            Err(GovernanceError::InvalidVotingPeriod)
        } else {
            Ok(())
        }
    }

    /// Validate the update parameters; see [`Self::spec_validate`].
    pub fn validate(&self, current_test_mode: bool) -> (r: Result<(), GovernanceError>)
        ensures
            r == self.spec_validate(current_test_mode),
    {
        match self.participation_threshold {
            Some(t) => if t > PERCENTAGE_BASE {
                return Err(GovernanceError::InvalidThreshold);
            },
            None => {},
        }
        match self.approval_threshold {
            Some(t) => if t > PERCENTAGE_BASE {
                return Err(GovernanceError::InvalidThreshold);
            },
            None => {},
        }
        match self.veto_threshold {
            Some(t) => if t > PERCENTAGE_BASE {
                return Err(GovernanceError::InvalidThreshold);
            },
            None => {},
        }
        match self.fee_rate {
            Some(f) => if f > PERCENTAGE_BASE {
                return Err(GovernanceError::InvalidFeeRate);
            },
            None => {},
        }
        match self.voting_period {
            Some(vp) => {
                let tm = match self.test_mode {
                    Some(t) => t,
                    None => current_test_mode,
                };
                if tm {
                    // Test mode: between thirty seconds and one hour.
                    if vp < 30 || vp > 3600 {
                        return Err(GovernanceError::InvalidVotingPeriod);
                    }
                } else {
                    // Production mode: between one day and thirty days.
                    if vp < 86400 || vp > 2592000 {
                        return Err(GovernanceError::InvalidVotingPeriod);
                    }
                }
            },
            None => {},
        }
        Ok(())
    }

    /// The configuration after this update: each `Some` field replaces the
    /// current value and the update time is stamped.
    pub open spec fn spec_apply(self, config: GovernanceConfig, now: i64) -> GovernanceConfig {
        GovernanceConfig {
            proposal_deposit: match self.proposal_deposit {
                Some(v) => v,
                None => config.proposal_deposit,
            },
            voting_period: match self.voting_period {
                Some(v) => v,
                None => config.voting_period,
            },
            participation_threshold: match self.participation_threshold {
                Some(v) => v,
                None => config.participation_threshold,
            },
            approval_threshold: match self.approval_threshold {
                Some(v) => v,
                None => config.approval_threshold,
            },
            veto_threshold: match self.veto_threshold {
                Some(v) => v,
                None => config.veto_threshold,
            },
            fee_rate: match self.fee_rate {
                Some(v) => v,
                None => config.fee_rate,
            },
            test_mode: match self.test_mode {
                Some(v) => v,
                None => config.test_mode,
            },
            updated_at: now,
            ..config
        }
    }

    /// Apply a validated update; see [`Self::spec_apply`].
    pub fn apply_to(&self, config: &mut GovernanceConfig, now: i64)
        requires
            old(config).wf(),
            self.spec_validate(old(config).test_mode) is Ok,
        ensures
            final(config).wf(),
            *final(config) == self.spec_apply(*old(config), now),
    {
        match self.proposal_deposit {
            Some(v) => {
                config.proposal_deposit = v;
            },
            None => {},
        }
        match self.voting_period {
            Some(v) => {
                config.voting_period = v;
            },
            None => {},
        }
        match self.participation_threshold {
            Some(v) => {
                config.participation_threshold = v;
            },
            None => {},
        }
        match self.approval_threshold {
            Some(v) => {
                config.approval_threshold = v;
            },
            None => {},
        }
        match self.veto_threshold {
            Some(v) => {
                config.veto_threshold = v;
            },
            None => {},
        }
        match self.fee_rate {
            Some(v) => {
                config.fee_rate = v;
            },
            None => {},
        }
        match self.test_mode {
            Some(v) => {
                config.test_mode = v;
            },
            None => {},
        }
        config.updated_at = now;
    }
}

/// Default voting period: fourteen days, in seconds.
pub const DEFAULT_VOTING_PERIOD: u64 = 1209600;

/// Default participation threshold: 40%.
pub const DEFAULT_PARTICIPATION_THRESHOLD: u16 = 4000;

/// Default approval threshold: 50%.
pub const DEFAULT_APPROVAL_THRESHOLD: u16 = 5000;

/// Default veto threshold: 30%.
pub const DEFAULT_VETO_THRESHOLD: u16 = 3000;

/// Default committee fee rate: 10%.
pub const DEFAULT_FEE_RATE: u16 = 1000;

/// Default proposal deposit: one hundred deposit tokens at six decimals.
pub const DEFAULT_PROPOSAL_DEPOSIT: u64 = 100_000_000;

/// Basis-point denominator: 100% is 10000 basis points.
pub const BASIS_POINTS_DENOMINATOR: u64 = 10000;

} // verus!
