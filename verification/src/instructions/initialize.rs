use crate::error::GovernanceError;
use crate::instructions::common::validate_voting_period;
use crate::instructions::common::MAX_VOTING_PERIOD;
use crate::instructions::common::MIN_TEST_VOTING_PERIOD;
use crate::instructions::common::MIN_VOTING_PERIOD;
use crate::instructions::common::PERCENTAGE_BASE;
use crate::state::governance::lemma_occupied_all_none;
use crate::state::governance::spec_first_free;
use crate::state::governance::spec_is_member;
use crate::state::governance::spec_member_slot;
use crate::state::governance::GovernanceConfig;
use crate::state::governance::GovernanceConfigUpdate;
use crate::state::governance::COMMITTEE_CAPACITY;
use crate::state::vote::pow10;
use crate::state::vote::pow10_u64;
use crate::state::vote::MAX_TOKEN_DECIMALS;
use crate::AccountId;
use vstd::prelude::*;

verus! {

/// Build a fresh governance configuration. The raw deposit is scaled by the
/// deposit token's decimal precision; thresholds and fee rate must stay
/// within the percentage base and the voting period within the bounds of
/// the chosen mode. The roster starts empty and the proposal counter at
/// zero.
pub fn initialize_governance(
    authority: AccountId,
    committee_token_mint: AccountId,
    deposit_token_decimals: u8,
    proposal_deposit_raw: u64,
    voting_period: u64,
    participation_threshold: u16,
    approval_threshold: u16,
    veto_threshold: u16,
    fee_rate: u16,
    test_mode: bool,
    now: i64,
) -> (r: Result<GovernanceConfig, GovernanceError>)
    requires
        deposit_token_decimals <= MAX_TOKEN_DECIMALS,
    ensures
        ({
            let deposit_fits = proposal_deposit_raw * pow10(deposit_token_decimals as nat) <= u64::MAX;
            let thresholds_ok = participation_threshold <= PERCENTAGE_BASE && approval_threshold
                <= PERCENTAGE_BASE && veto_threshold <= PERCENTAGE_BASE;
            let fee_ok = fee_rate <= PERCENTAGE_BASE;
            let period_ok = if test_mode {
                MIN_TEST_VOTING_PERIOD <= voting_period <= MAX_VOTING_PERIOD
            } else {
                MIN_VOTING_PERIOD <= voting_period <= MAX_VOTING_PERIOD
            };
            match r {
                Ok(c) => {
                    &&& deposit_fits && thresholds_ok && fee_ok && period_ok
                    &&& c.wf()
                    &&& c.authority == authority
                    &&& c.committee_token_mint == committee_token_mint
                    &&& c.committee_members@.len() == COMMITTEE_CAPACITY
                    &&& forall|k: int|
                        0 <= k < COMMITTEE_CAPACITY ==> c.committee_members@[k] is None
                    &&& c.committee_member_count == 0
                    &&& c.proposal_deposit == proposal_deposit_raw * pow10(deposit_token_decimals as nat)
                    &&& c.voting_period == voting_period
                    &&& c.participation_threshold == participation_threshold
                    &&& c.approval_threshold == approval_threshold
                    &&& c.veto_threshold == veto_threshold
                    &&& c.fee_rate == fee_rate
                    &&& c.total_voting_power == 0
                    &&& c.proposal_counter == 0
                    &&& c.created_at == now
                    &&& c.updated_at == now
                    &&& c.test_mode == test_mode
                },
                Err(GovernanceError::MathOverflow) => !deposit_fits,
                Err(GovernanceError::InvalidThreshold) => deposit_fits && !thresholds_ok,
                Err(GovernanceError::InvalidFeeRate) => deposit_fits && thresholds_ok && !fee_ok,
                Err(GovernanceError::InvalidVotingPeriod) => deposit_fits && thresholds_ok && fee_ok
                    && !period_ok,
                Err(_) => false,
            }
        }),
{
    let factor = pow10_u64(deposit_token_decimals);
    let proposal_deposit = match proposal_deposit_raw.checked_mul(factor) {
        Some(d) => d,
        None => {
            return Err(GovernanceError::MathOverflow);
        },
    };
    if participation_threshold > PERCENTAGE_BASE {
        return Err(GovernanceError::InvalidThreshold);
    }
    if approval_threshold > PERCENTAGE_BASE {
        return Err(GovernanceError::InvalidThreshold);
    }
    if veto_threshold > PERCENTAGE_BASE {
        return Err(GovernanceError::InvalidThreshold);
    }
    if fee_rate > PERCENTAGE_BASE {
        return Err(GovernanceError::InvalidFeeRate);
    }
    match validate_voting_period(voting_period, test_mode) {
        Ok(()) => {},
        Err(e) => {
            return Err(e);
        },
    }
    let mut committee_members: Vec<Option<AccountId>> = Vec::new();
    let mut i: usize = 0;
    while i < COMMITTEE_CAPACITY
        invariant
            i <= COMMITTEE_CAPACITY,
            committee_members@.len() == i,
            forall|k: int| 0 <= k < i ==> committee_members@[k] is None,
        decreases COMMITTEE_CAPACITY - i,
    {
        committee_members.push(None);
        i = i + 1;
    }
    proof {
        lemma_occupied_all_none(committee_members@);
    }
    Ok(
        GovernanceConfig {
            authority,
            committee_token_mint,
            committee_members,
            committee_member_count: 0,
            proposal_deposit,
            voting_period,
            participation_threshold,
            approval_threshold,
            veto_threshold,
            fee_rate,
            total_voting_power: 0,
            proposal_counter: 0,
            created_at: now,
            updated_at: now,
            test_mode,
        },
    )
}

/// Apply a partial configuration update on the authority's behalf: the
/// update is validated first and either lands in full or not at all.
pub fn update_governance_config(
    config: &mut GovernanceConfig,
    authority: AccountId,
    config_update: &GovernanceConfigUpdate,
    now: i64,
) -> (r: Result<(), GovernanceError>)
    requires
        old(config).wf(),
    ensures
        final(config).wf(),
        authority != old(config).authority ==> r == Err::<(), GovernanceError>(
            GovernanceError::Unauthorized,
        ) && *final(config) == *old(config),
        authority == old(config).authority ==> match config_update.spec_validate(
            old(config).test_mode,
        ) {
            Ok(()) => r is Ok && *final(config) == config_update.spec_apply(*old(config), now),
            Err(e) => r == Err::<(), GovernanceError>(e) && *final(config) == *old(config),
        },
{
    if authority != config.authority {
        return Err(GovernanceError::Unauthorized);
    }
    match config_update.validate(config.test_mode) {
        Ok(()) => {},
        Err(e) => {
            return Err(e);
        },
    }
    config_update.apply_to(config, now);
    Ok(())
}

/// Overwrite the cached total voting power on the authority's behalf.
pub fn update_total_voting_power(
    config: &mut GovernanceConfig,
    authority: AccountId,
    new_total_voting_power: u64,
    now: i64,
) -> (r: Result<(), GovernanceError>)
    requires
        old(config).wf(),
    ensures
        final(config).wf(),
        r is Ok <==> authority == old(config).authority,
        r is Ok ==> *final(config) == (GovernanceConfig {
            total_voting_power: new_total_voting_power,
            updated_at: now,
            ..*old(config)
        }),
        r is Err ==> r == Err::<(), GovernanceError>(GovernanceError::Unauthorized)
            && *final(config) == *old(config),
{
    if authority != config.authority {
        return Err(GovernanceError::Unauthorized);
    }
    config.total_voting_power = new_total_voting_power;
    config.updated_at = now;
    Ok(())
}

/// Overwrite the proposal counter on the authority's behalf. Only
/// non-decreasing updates are allowed, so no id is ever reassigned.
pub fn update_proposal_counter(
    config: &mut GovernanceConfig,
    authority: AccountId,
    new_counter: u64,
    now: i64,
) -> (r: Result<(), GovernanceError>)
    requires
        old(config).wf(),
    ensures
        final(config).wf(),
        r is Ok <==> (authority == old(config).authority && new_counter >= old(
            config,
        ).proposal_counter),
        r is Ok ==> *final(config) == (GovernanceConfig {
            proposal_counter: new_counter,
            updated_at: now,
            ..*old(config)
        }),
        authority != old(config).authority ==> r == Err::<(), GovernanceError>(
            GovernanceError::Unauthorized,
        ),
        authority == old(config).authority && new_counter < old(config).proposal_counter ==> r
            == Err::<(), GovernanceError>(GovernanceError::InvalidThreshold),
        r is Err ==> *final(config) == *old(config),
{
    if authority != config.authority {
        return Err(GovernanceError::Unauthorized);
    }
    if new_counter < config.proposal_counter {
        // A rollback reuses the threshold error kind rather than adding one.
        return Err(GovernanceError::InvalidThreshold);
    }
    config.proposal_counter = new_counter;
    config.updated_at = now;
    Ok(())
}

/// Add a committee member on the authority's behalf; the member lands in
/// the first empty roster slot.
pub fn add_committee_member(
    config: &mut GovernanceConfig,
    authority: AccountId,
    member: AccountId,
    now: i64,
) -> (r: Result<(), GovernanceError>)
    requires
        old(config).wf(),
    ensures
        final(config).wf(),
        authority != old(config).authority ==> r == Err::<(), GovernanceError>(
            GovernanceError::Unauthorized,
        ) && *final(config) == *old(config),
        authority == old(config).authority ==> {
            &&& r is Ok <==> (old(config).committee_member_count < COMMITTEE_CAPACITY
                && !spec_is_member(old(config).committee_members@, member))
            &&& r is Ok ==> ({
                let i = spec_first_free(old(config).committee_members@);
                &&& 0 <= i < COMMITTEE_CAPACITY
                &&& *final(config) == (GovernanceConfig {
                    committee_members: final (config).committee_members,
                    committee_member_count: (old(config).committee_member_count + 1) as u8,
                    updated_at: now,
                    ..*old(config)
                })
                &&& final (config).committee_members@ == old(config).committee_members@.update(
                    i,
                    Some(member),
                )
            })
            &&& old(config).committee_member_count >= COMMITTEE_CAPACITY ==> r == Err::<
                (),
                GovernanceError,
            >(GovernanceError::CommitteeFull)
            &&& old(config).committee_member_count < COMMITTEE_CAPACITY && spec_is_member(
                old(config).committee_members@,
                member,
            ) ==> r == Err::<(), GovernanceError>(GovernanceError::MemberAlreadyExists)
            &&& r is Err ==> *final(config) == *old(config)
        },
{
    if authority != config.authority {
        return Err(GovernanceError::Unauthorized);
    }
    config.add_committee_member(member, now)
}

/// Remove a committee member on the authority's behalf, freeing the slot.
pub fn remove_committee_member(
    config: &mut GovernanceConfig,
    authority: AccountId,
    member: AccountId,
    now: i64,
) -> (r: Result<(), GovernanceError>)
    requires
        old(config).wf(),
    ensures
        final(config).wf(),
        authority != old(config).authority ==> r == Err::<(), GovernanceError>(
            GovernanceError::Unauthorized,
        ) && *final(config) == *old(config),
        authority == old(config).authority ==> {
            &&& r is Ok <==> spec_is_member(old(config).committee_members@, member)
            &&& r is Ok ==> ({
                let i = spec_member_slot(old(config).committee_members@, member);
                &&& 0 <= i < COMMITTEE_CAPACITY
                &&& old(config).committee_members@[i] == Some(member)
                &&& *final(config) == (GovernanceConfig {
                    committee_members: final (config).committee_members,
                    committee_member_count: (old(config).committee_member_count - 1) as u8,
                    updated_at: now,
                    ..*old(config)
                })
                &&& final (config).committee_members@ == old(config).committee_members@.update(
                    i,
                    None,
                )
            })
            &&& r is Err ==> r == Err::<(), GovernanceError>(GovernanceError::MemberNotFound)
                && *final(config) == *old(config)
        },
{
    if authority != config.authority {
        return Err(GovernanceError::Unauthorized);
    }
    config.remove_committee_member(member, now)
}

} // verus!
