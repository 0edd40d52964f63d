use vstd::prelude::*;
use crate::pubkey::Pubkey;
use crate::staking::error::ErrorCode;
use crate::staking::lazy_vector::{Element, LazyVector, LazyVectorView};
use crate::staking::state::{StakingInfo, StakingTokenAuthority, UserInfo, DAYS_IN_WINDOW, SEC_PER_DAY};
use crate::staking::utils::{
    calculate_user_reward_with_unspent_rewards, spec_user_reward, lemma_amount_get,
};

verus! {

/// The staking interval, as given by its creator in unix time.
#[derive(Clone, Copy, Debug)]
pub struct InitializeArgs {
    pub start_time: u64,
    pub end_time: u64,
}

impl InitializeArgs {
    pub fn start_day(&self) -> (r: u64)
        ensures
            r == self.start_time / SEC_PER_DAY,
    {
        self.start_time / SEC_PER_DAY
    }

    pub fn end_day(&self) -> (r: u64)
        ensures
            r == self.end_time / SEC_PER_DAY,
    {
        self.end_time / SEC_PER_DAY
    }

    /// Days in the interval, which must not end before it starts (the
    /// program panics there).
    pub fn days_amount(&self) -> (r: usize)
        requires
            self.end_time / SEC_PER_DAY >= self.start_time / SEC_PER_DAY,
        ensures
            r == (self.end_time / SEC_PER_DAY - self.start_time / SEC_PER_DAY) as usize,
    {
        let days: u64 = self.end_day() - self.start_day();
        days as usize
    }
}

/// A transfer of `amount` SPL tokens from the token account `from` to `to`,
/// authorized by `authority`. Where `signer_seeds` holds a staking account's
/// address and a bump, the authority is the staking interval's token
/// authority, the program address of those seeds, and the program signs for
/// it with them.
#[derive(Clone, Copy, Debug)]
pub struct TokenTransfer {
    pub from: Pubkey,
    pub to: Pubkey,
    pub authority: Pubkey,
    pub amount: u64,
    pub signer_seeds: Option<(Pubkey, u8)>,
}

/// A transfer that the owner of the token account `from` signs.
pub open spec fn deposit(from: Pubkey, to: Pubkey, authority: Pubkey, amount: u64) -> TokenTransfer {
    TokenTransfer { from, to, authority, amount, signer_seeds: None }
}

/// A transfer out of the staking token account, which the staking interval's
/// token authority signs with the seeds of the staking account and its bump.
pub open spec fn payout(
    staking_token_account: Pubkey,
    to: Pubkey,
    staking_token_authority: Pubkey,
    staking_info_key: Pubkey,
    bump: u8,
    amount: u64,
) -> TokenTransfer {
    TokenTransfer {
        from: staking_token_account,
        to,
        authority: staking_token_authority,
        amount,
        signer_seeds: Some((staking_info_key, bump)),
    }
}

/// The accounts of a user and of the staking interval once a stake that has
/// run its window is closed: the reward is credited, the stake goes back to
/// pending, and the unspent part of the reward is recorded.
pub open spec fn accounts_after_reward(
    user_info: UserInfo,
    staking_info: StakingInfo,
    reward: int,
    unspent_amount: int,
) -> (UserInfo, StakingInfo) {
    (
        UserInfo {
            start_day: None,
            total_rewarded_amount: (user_info.total_rewarded_amount + reward) as u64,
            rewarded_amount: (user_info.rewarded_amount + reward) as u64,
            pending_amount: (user_info.pending_amount + user_info.staked_amount) as u64,
            staked_amount: 0,
            ..user_info
        },
        StakingInfo {
            active_stakes_number: (staking_info.active_stakes_number - 1) as u64,
            total_unspent_amount: (staking_info.total_unspent_amount + unspent_amount) as u64,
            total_rewarded_amount: (staking_info.total_rewarded_amount + reward) as u64,
            ..staking_info
        },
    )
}

/// The user's reward computation, as the staking accounts give its inputs.
pub open spec fn stake_reward(
    user_info: UserInfo,
    staking_info: StakingInfo,
    staked_amounts: LazyVectorView,
    user_boosted_days: LazyVectorView,
) -> Option<Result<(u64, u64), ErrorCode>> {
    spec_user_reward(
        user_info.staked_amount,
        user_info.start_day->0 - staking_info.start_day,
        user_boosted_days,
        staked_amounts,
        staking_info.end_day - staking_info.start_day,
        user_info.daily_staking_reward,
    )
}

/// The program panics unless: the stake did not start after `current_day`;
/// and, for a stake that has run its window, the interval does not end
/// before it starts, the stake does not start before it, the reward
/// computation does not panic, and the updated counters fit.
pub open spec fn update_can_proceed(
    user_info: UserInfo,
    staking_info: StakingInfo,
    current_day: u64,
    staked_amounts: LazyVectorView,
    user_boosted_days: LazyVectorView,
) -> bool {
    &&& user_info.start_day matches Some(start) ==> start <= current_day
    &&& user_info.spec_has_ended_stake(current_day) ==> {
        &&& staking_info.end_day >= staking_info.start_day
        &&& user_info.start_day->0 >= staking_info.start_day
        &&& stake_reward(user_info, staking_info, staked_amounts, user_boosted_days) is Some
        &&& stake_reward(user_info, staking_info, staked_amounts, user_boosted_days) matches Some(
            Ok((reward, unspent)),
        ) ==> {
            &&& user_info.total_rewarded_amount + reward <= u64::MAX
            &&& user_info.rewarded_amount + reward <= u64::MAX
            &&& user_info.pending_amount + user_info.staked_amount <= u64::MAX
            &&& staking_info.active_stakes_number >= 1
            &&& staking_info.total_unspent_amount + unspent <= u64::MAX
            &&& staking_info.total_rewarded_amount + reward <= u64::MAX
        }
    }
}

/// What `update_state_accounts` leaves: the accounts unchanged while the
/// stake runs, else the accounts with the reward credited, or the error of
/// the reward computation.
pub open spec fn spec_update_state_accounts(
    user_info: UserInfo,
    staking_info: StakingInfo,
    current_day: u64,
    staked_amounts: LazyVectorView,
    user_boosted_days: LazyVectorView,
) -> Result<(UserInfo, StakingInfo), ErrorCode> {
    if !user_info.spec_has_ended_stake(current_day) {
        Ok((user_info, staking_info))
    } else {
        match stake_reward(user_info, staking_info, staked_amounts, user_boosted_days)->0 {
            Ok((reward, unspent)) => Ok(
                accounts_after_reward(user_info, staking_info, reward as int, unspent as int),
            ),
            Err(e) => Err(e),
        }
    }
}

/// Closes a stake that has run its window: computes its reward and credits
/// it to the user; leaves the accounts as they are while the stake runs.
pub fn update_state_accounts(
    user_info: &mut UserInfo,
    staking_info: &mut StakingInfo,
    current_day: u64,
    staked_amounts: &LazyVector<u64>,
    user_boosted_days: &LazyVector<bool>,
) -> (r: Result<(), ErrorCode>)
    requires
        staked_amounts@.wf(),
        user_boosted_days@.wf(),
        update_can_proceed(
            *old(user_info),
            *old(staking_info),
            current_day,
            staked_amounts@,
            user_boosted_days@,
        ),
    ensures
        match spec_update_state_accounts(
            *old(user_info),
            *old(staking_info),
            current_day,
            staked_amounts@,
            user_boosted_days@,
        ) {
            Ok((u, s)) => r is Ok && *final(user_info) == u && *final(staking_info) == s,
            Err(e) => r == Err::<(), ErrorCode>(e) && *final(user_info) == *old(user_info)
                && *final(staking_info) == *old(staking_info),
        },
{
    let user_has_ended_stake = user_info.has_ended_stake(current_day);
    if !user_has_ended_stake {
        return Ok(());
    }
    let total_days = staking_info.total_days();
    let staking_start_day = staking_info.start_day;
    let user_start_day = match user_info.start_day {
        Some(d) => d,
        None => {
            return Ok(());
        },
    };
    let user_staked_amount = user_info.staked_amount;
    let daily_staking_reward = user_info.daily_staking_reward;
    let user_start_day_index = user_start_day - staking_start_day;
    let (reward, unspent_amount) = match calculate_user_reward_with_unspent_rewards(
        user_staked_amount,
        user_start_day_index,
        user_boosted_days,
        staked_amounts,
        total_days,
        daily_staking_reward,
    ) {
        Ok(x) => x,
        Err(e) => {
            return Err(e);
        },
    };
    user_info.start_day = None;
    user_info.total_rewarded_amount = user_info.total_rewarded_amount + reward;
    user_info.rewarded_amount = user_info.rewarded_amount + reward;
    user_info.pending_amount = user_info.pending_amount + user_info.staked_amount;
    user_info.staked_amount = 0;
    staking_info.active_stakes_number = staking_info.active_stakes_number - 1;
    staking_info.total_unspent_amount = staking_info.total_unspent_amount + unspent_amount;
    staking_info.total_rewarded_amount = staking_info.total_rewarded_amount + reward;
    Ok(())
}

/// Creates the staking interval's account and its token authority.
pub fn initialize(
    args: &InitializeArgs,
    primary_wallet: Pubkey,
    chill_mint: Pubkey,
    bump: u8,
) -> (r: (StakingInfo, StakingTokenAuthority))
    ensures
        r.0.primary_wallet == primary_wallet,
        r.0.mint == chill_mint,
        r.0.start_day == args.start_time / SEC_PER_DAY,
        r.0.end_day == args.end_time / SEC_PER_DAY,
        r.0.counters_are_zero(),
        r.1.bump == bump,
{
    let mut staking_info = StakingInfo::zeroed();
    staking_info.primary_wallet = primary_wallet;
    staking_info.start_day = args.start_day();
    staking_info.end_day = args.end_day();
    staking_info.mint = chill_mint;
    (staking_info, StakingTokenAuthority { bump })
}

/// Adds reward tokens to the interval before it ends: they move from
/// `token_account`, which `token_authority` signs for, to the staking token
/// account.
pub fn add_reward_tokens(
    staking_info: &mut StakingInfo,
    token_account: Pubkey,
    staking_token_account: Pubkey,
    token_authority: Pubkey,
    amount: u64,
    current_day: u64,
) -> (r: Result<TokenTransfer, ErrorCode>)
    requires
        old(staking_info).end_day > current_day ==> old(staking_info).reward_tokens_amount + amount
            <= u64::MAX,
    ensures
        r is Ok <==> old(staking_info).end_day > current_day,
        r is Err ==> r == Err::<TokenTransfer, ErrorCode>(ErrorCode::StakingIsFinished) && *final(staking_info) == *old(staking_info),
        r is Ok ==> *final(staking_info) == (StakingInfo {
            reward_tokens_amount: (old(staking_info).reward_tokens_amount + amount) as u64,
            ..*old(staking_info)
        }) && r == Ok::<TokenTransfer, ErrorCode>(
            deposit(token_account, staking_token_account, token_authority, amount),
        ),
{
    match staking_info.assert_not_finished(current_day) {
        Ok(()) => {},
        Err(e) => {
            return Err(e);
        },
    }
    staking_info.reward_tokens_amount = staking_info.reward_tokens_amount + amount;
    Ok(
        TokenTransfer {
            from: token_account,
            to: staking_token_account,
            authority: token_authority,
            amount,
            signer_seeds: None,
        },
    )
}

/// Once the interval is over, the reward tokens left go back: the whole
/// balance of the staking token account, `staking_token_balance`, moves to
/// `recipient_token_account`, signed by the staking interval's token
/// authority.
pub fn redeem_remaining_reward_tokens(
    staking_info: &mut StakingInfo,
    staking_info_key: Pubkey,
    staking_token_account: Pubkey,
    staking_token_balance: u64,
    staking_token_authority: Pubkey,
    authority_bump: u8,
    recipient_token_account: Pubkey,
    current_day: u64,
) -> (r: Result<TokenTransfer, ErrorCode>)
    ensures
        r is Ok <==> current_day >= old(staking_info).end_day,
        r is Err ==> r == Err::<TokenTransfer, ErrorCode>(ErrorCode::StakingIsNotFinished) && *final(staking_info) == *old(staking_info),
        r is Ok ==> *final(staking_info) == (StakingInfo {
            reward_tokens_amount: 0,
            ..*old(staking_info)
        }) && r == Ok::<TokenTransfer, ErrorCode>(
            payout(
                staking_token_account,
                recipient_token_account,
                staking_token_authority,
                staking_info_key,
                authority_bump,
                staking_token_balance,
            ),
        ),
{
    match staking_info.assert_finished(current_day) {
        Ok(()) => {},
        Err(e) => {
            return Err(e);
        },
    }
    staking_info.reward_tokens_amount = 0;
    Ok(
        TokenTransfer {
            from: staking_token_account,
            to: recipient_token_account,
            authority: staking_token_authority,
            amount: staking_token_balance,
            signer_seeds: Some((staking_info_key, authority_bump)),
        },
    )
}

/// The accounts after a stake of `amount` on `current_day`, or the error that
/// refuses it.
pub open spec fn stake_outcome(
    user_info: UserInfo,
    staking_info: StakingInfo,
    staked_amounts: LazyVectorView,
    user_boosted_days: LazyVectorView,
    user: Pubkey,
    staking_info_key: Pubkey,
    bump: u8,
    amount: u64,
    current_day: u64,
) -> Result<(UserInfo, StakingInfo, LazyVectorView, LazyVectorView), ErrorCode> {
    if staking_info.end_day <= current_day {
        Err(ErrorCode::StakingIsFinished)
    } else {
        match spec_update_state_accounts(
            user_info,
            staking_info,
            current_day,
            staked_amounts,
            user_boosted_days,
        ) {
            Err(e) => Err(e),
            Ok((u1, s1)) => {
                let u2 = UserInfo { user, staking_info: staking_info_key, bump, ..u1 };
                if u2.start_day is Some {
                    if amount == 0 {
                        Err(ErrorCode::AddZeroTokensToPendingAmount)
                    } else {
                        Ok(
                            (
                                UserInfo {
                                    pending_amount: (u2.pending_amount + amount) as u64,
                                    ..u2
                                },
                                s1,
                                staked_amounts,
                                user_boosted_days,
                            ),
                        )
                    }
                } else {
                    let new_staked = u2.staked_amount + u2.pending_amount + amount;
                    if new_staked == 0 {
                        Err(ErrorCode::StakeZeroTokens)
                    } else if current_day < s1.start_day {
                        Err(ErrorCode::StakingIsNotStarted)
                    } else {
                        let day = current_day - s1.start_day;
                        match staked_amounts.get::<u64>(day) {
                            Err(e) => Err(e),
                            Ok(previous) => {
                                if staked_amounts.elem_size != 8 {
                                    Err(ErrorCode::RequireEqViolated)
                                } else {
                                    Ok(
                                        (
                                            UserInfo {
                                                pending_amount: 0,
                                                staked_amount: new_staked as u64,
                                                start_day: Some(current_day),
                                                total_staked_amount: (u2.total_staked_amount
                                                    + new_staked) as u64,
                                                ..u2
                                            },
                                            StakingInfo {
                                                days_with_new_stake: if previous == 0 {
                                                    (s1.days_with_new_stake + 1) as u64
                                                } else {
                                                    s1.days_with_new_stake
                                                },
                                                total_stakes_number: (s1.total_stakes_number
                                                    + 1) as u64,
                                                total_staked_amount: (s1.total_staked_amount
                                                    + new_staked) as u64,
                                                ..s1
                                            },
                                            staked_amounts.with_slot(
                                                day,
                                                ((previous + new_staked) as u64).spec_encode(),
                                            ),
                                            user_boosted_days.cleared(),
                                        ),
                                    )
                                }
                            },
                        }
                    }
                }
            },
        }
    }
}

/// The program panics unless the reward update can proceed and the counters
/// that a stake adds to fit in 64 bits.
pub open spec fn stake_can_proceed(
    user_info: UserInfo,
    staking_info: StakingInfo,
    staked_amounts: LazyVectorView,
    user_boosted_days: LazyVectorView,
    amount: u64,
    current_day: u64,
) -> bool {
    staking_info.end_day > current_day ==> {
        &&& update_can_proceed(
            user_info,
            staking_info,
            current_day,
            staked_amounts,
            user_boosted_days,
        )
        &&& spec_update_state_accounts(
            user_info,
            staking_info,
            current_day,
            staked_amounts,
            user_boosted_days,
        ) matches Ok((u1, s1)) ==> {
            &&& u1.pending_amount + amount <= u64::MAX
            &&& u1.start_day is None ==> {
                let new_staked = u1.staked_amount + u1.pending_amount + amount;
                &&& new_staked <= u64::MAX
                &&& u1.total_staked_amount + new_staked <= u64::MAX
                &&& (current_day >= s1.start_day && staked_amounts.get::<u64>(
                    current_day - s1.start_day,
                ) is Ok) ==> {
                    &&& staked_amounts.get::<u64>(current_day - s1.start_day)->Ok_0 + new_staked
                        <= u64::MAX
                    &&& s1.days_with_new_stake + 1 <= u64::MAX
                    &&& s1.total_stakes_number + 1 <= u64::MAX
                    &&& s1.total_staked_amount + new_staked <= u64::MAX
                }
            }
        }
    }
}

/// Stakes `amount` tokens for `user` on `current_day`. A stake still running
/// takes the tokens as pending; otherwise the pending tokens and `amount`
/// start a new stake on that day, which is added to the day's staked amount.
/// The result is the transfer of `amount` from the user's token account to
/// the staking token account, signed by the user. On an error nothing
/// changes and nothing moves.
pub fn stake(
    user_info: &mut UserInfo,
    staking_info: &mut StakingInfo,
    staked_amounts: &mut LazyVector<u64>,
    user_boosted_days: &mut LazyVector<bool>,
    user: Pubkey,
    staking_info_key: Pubkey,
    bump: u8,
    user_token_account: Pubkey,
    staking_token_account: Pubkey,
    amount: u64,
    current_day: u64,
) -> (r: Result<TokenTransfer, ErrorCode>)
    requires
        old(staked_amounts)@.wf(),
        old(user_boosted_days)@.wf(),
        stake_can_proceed(
            *old(user_info),
            *old(staking_info),
            old(staked_amounts)@,
            old(user_boosted_days)@,
            amount,
            current_day,
        ),
    ensures
        final(staked_amounts)@.wf(),
        final(user_boosted_days)@.wf(),
        match stake_outcome(
            *old(user_info),
            *old(staking_info),
            old(staked_amounts)@,
            old(user_boosted_days)@,
            user,
            staking_info_key,
            bump,
            amount,
            current_day,
        ) {
            Ok((u, s, av, bv)) => r == Ok::<TokenTransfer, ErrorCode>(
                deposit(user_token_account, staking_token_account, user, amount),
            ) && *final(user_info) == u && *final(staking_info) == s && final(staked_amounts)@
                == av && final(user_boosted_days)@ == bv,
            Err(e) => r == Err::<TokenTransfer, ErrorCode>(e) && *final(user_info) == *old(
                user_info,
            ) && *final(staking_info) == *old(staking_info) && final(staked_amounts)@ == old(
                staked_amounts,
            )@ && final(user_boosted_days)@ == old(user_boosted_days)@,
        },
{
    match staking_info.assert_not_finished(current_day) {
        Ok(()) => {},
        Err(e) => {
            return Err(e);
        },
    }
    let mut u = *user_info;
    let mut s = *staking_info;
    match update_state_accounts(&mut u, &mut s, current_day, staked_amounts, user_boosted_days) {
        Ok(()) => {},
        Err(e) => {
            return Err(e);
        },
    }
    u.user = user;
    u.staking_info = staking_info_key;
    u.bump = bump;
    if u.has_active_stake() {
        if amount == 0 {
            return Err(ErrorCode::AddZeroTokensToPendingAmount);
        }
        u.pending_amount = u.pending_amount + amount;
        *user_info = u;
        *staking_info = s;
        return Ok(
            TokenTransfer {
                from: user_token_account,
                to: staking_token_account,
                authority: user,
                amount,
                signer_seeds: None,
            },
        );
    }
    let increase = u.pending_amount + amount;
    u.pending_amount = 0;
    u.staked_amount = u.staked_amount + increase;
    if u.staked_amount == 0 {
        return Err(ErrorCode::StakeZeroTokens);
    }
    u.start_day = Some(current_day);
    u.total_staked_amount = u.total_staked_amount + u.staked_amount;
    let day_index = match s.day_index(current_day) {
        Ok(d) => d,
        Err(e) => {
            return Err(e);
        },
    };
    proof {
        lemma_amount_get(staked_amounts@, day_index as int);
    }
    let previous_amount = match staked_amounts.get_at(day_index) {
        Ok(x) => x,
        Err(e) => {
            return Err(e);
        },
    };
    let new_amount = previous_amount + u.staked_amount;
    if staked_amounts.elem_size() != 8 {
        return Err(ErrorCode::RequireEqViolated);
    }
    proof {
        vstd::bytes::lemma_auto_spec_u64_to_from_le_bytes();
        assert(new_amount.spec_encode().len() == 8);
    }
    user_boosted_days.clear();
    let ghost av = staked_amounts@;
    let n = staked_amounts.len();
    assert(day_index < n);
    let index = day_index as usize;
    assert(index as int == day_index as int);
    match staked_amounts.set(index, &new_amount) {
        Ok(()) => {},
        Err(e) => {
            return Err(e);
        },
    }
    assert(staked_amounts@ == av.with_slot(day_index as int, new_amount.spec_encode()));
    if previous_amount == 0 {
        s.days_with_new_stake = s.days_with_new_stake + 1;
    }
    s.total_stakes_number = s.total_stakes_number + 1;
    s.total_staked_amount = s.total_staked_amount + u.staked_amount;
    *user_info = u;
    *staking_info = s;
    Ok(
        TokenTransfer {
            from: user_token_account,
            to: staking_token_account,
            authority: user,
            amount,
            signer_seeds: None,
        },
    )
}

/// The accounts after a claim of `amount` reward tokens, or the error that
/// refuses it.
pub open spec fn claim_outcome(
    user_info: UserInfo,
    staking_info: StakingInfo,
    staked_amounts: LazyVectorView,
    user_boosted_days: LazyVectorView,
    amount: u64,
    current_day: u64,
) -> Result<(UserInfo, StakingInfo), ErrorCode> {
    if amount == 0 {
        Err(ErrorCode::WithdrawZeroTokens)
    } else {
        match spec_update_state_accounts(
            user_info,
            staking_info,
            current_day,
            staked_amounts,
            user_boosted_days,
        ) {
            Err(e) => Err(e),
            Ok((u1, s1)) => Ok(
                (
                    UserInfo {
                        rewarded_amount: (u1.rewarded_amount - amount) as u64,
                        total_rewarded_amount: (u1.total_rewarded_amount + amount) as u64,
                        ..u1
                    },
                    StakingInfo {
                        total_rewarded_amount: (s1.total_rewarded_amount + amount) as u64,
                        ..s1
                    },
                ),
            ),
        }
    }
}

/// The program panics unless the reward update can proceed, the user has
/// earned at least `amount`, and the totals fit in 64 bits.
pub open spec fn claim_can_proceed(
    user_info: UserInfo,
    staking_info: StakingInfo,
    staked_amounts: LazyVectorView,
    user_boosted_days: LazyVectorView,
    amount: u64,
    current_day: u64,
) -> bool {
    amount != 0 ==> {
        &&& update_can_proceed(
            user_info,
            staking_info,
            current_day,
            staked_amounts,
            user_boosted_days,
        )
        &&& spec_update_state_accounts(
            user_info,
            staking_info,
            current_day,
            staked_amounts,
            user_boosted_days,
        ) matches Ok((u1, s1)) ==> {
            &&& u1.rewarded_amount >= amount
            &&& u1.total_rewarded_amount + amount <= u64::MAX
            &&& s1.total_rewarded_amount + amount <= u64::MAX
        }
    }
}

/// Pays out `amount` of the user's earned reward: the result is the transfer
/// of `amount` from the staking token account to `recipient_token_account`,
/// signed by the staking interval's token authority. On an error nothing
/// changes and nothing moves.
pub fn claim(
    user_info: &mut UserInfo,
    staking_info: &mut StakingInfo,
    staked_amounts: &LazyVector<u64>,
    user_boosted_days: &LazyVector<bool>,
    staking_info_key: Pubkey,
    staking_token_account: Pubkey,
    staking_token_authority: Pubkey,
    authority_bump: u8,
    recipient_token_account: Pubkey,
    amount: u64,
    current_day: u64,
) -> (r: Result<TokenTransfer, ErrorCode>)
    requires
        staked_amounts@.wf(),
        user_boosted_days@.wf(),
        claim_can_proceed(
            *old(user_info),
            *old(staking_info),
            staked_amounts@,
            user_boosted_days@,
            amount,
            current_day,
        ),
    ensures
        match claim_outcome(
            *old(user_info),
            *old(staking_info),
            staked_amounts@,
            user_boosted_days@,
            amount,
            current_day,
        ) {
            Ok((u, s)) => r == Ok::<TokenTransfer, ErrorCode>(
                payout(
                    staking_token_account,
                    recipient_token_account,
                    staking_token_authority,
                    staking_info_key,
                    authority_bump,
                    amount,
                ),
            ) && *final(user_info) == u && *final(staking_info) == s,
            Err(e) => r == Err::<TokenTransfer, ErrorCode>(e) && *final(user_info) == *old(
                user_info,
            ) && *final(staking_info) == *old(staking_info),
        },
{
    if amount == 0 {
        return Err(ErrorCode::WithdrawZeroTokens);
    }
    let mut u = *user_info;
    let mut s = *staking_info;
    match update_state_accounts(&mut u, &mut s, current_day, staked_amounts, user_boosted_days) {
        Ok(()) => {},
        Err(e) => {
            return Err(e);
        },
    }
    u.rewarded_amount = u.rewarded_amount - amount;
    u.total_rewarded_amount = u.total_rewarded_amount + amount;
    s.total_rewarded_amount = s.total_rewarded_amount + amount;
    *user_info = u;
    *staking_info = s;
    Ok(
        TokenTransfer {
            from: staking_token_account,
            to: recipient_token_account,
            authority: staking_token_authority,
            amount,
            signer_seeds: Some((staking_info_key, authority_bump)),
        },
    )
}

/// The accounts after the user boosts `current_day` of the running stake, or
/// the error that refuses it.
pub open spec fn boost_outcome(
    user_info: UserInfo,
    staking_info: StakingInfo,
    staked_amounts: LazyVectorView,
    user_boosted_days: LazyVectorView,
    current_day: u64,
) -> Result<(UserInfo, StakingInfo, LazyVectorView), ErrorCode> {
    match spec_update_state_accounts(
        user_info,
        staking_info,
        current_day,
        staked_amounts,
        user_boosted_days,
    ) {
        Err(e) => Err(e),
        Ok((u1, s1)) => {
            if u1.start_day is None {
                Err(ErrorCode::NoActiveStake)
            } else {
                let index = current_day - u1.start_day->0;
                match user_boosted_days.get::<bool>(index) {
                    Err(e) => Err(e),
                    Ok(boosted) => {
                        if boosted {
                            Err(ErrorCode::AlreadyBoosted)
                        } else if user_boosted_days.elem_size != 1 {
                            Err(ErrorCode::RequireEqViolated)
                        } else {
                            Ok(
                                (
                                    UserInfo {
                                        total_boost_amount: (u1.total_boost_amount + 1) as u64,
                                        ..u1
                                    },
                                    StakingInfo {
                                        total_boost_amount: (s1.total_boost_amount + 1) as u64,
                                        ..s1
                                    },
                                    user_boosted_days.with_slot(index, true.spec_encode()),
                                ),
                            )
                        }
                    },
                }
            }
        },
    }
}

/// The program panics unless the reward update can proceed and the boost
/// counters fit in 64 bits.
pub open spec fn boost_can_proceed(
    user_info: UserInfo,
    staking_info: StakingInfo,
    staked_amounts: LazyVectorView,
    user_boosted_days: LazyVectorView,
    current_day: u64,
) -> bool {
    &&& update_can_proceed(
        user_info,
        staking_info,
        current_day,
        staked_amounts,
        user_boosted_days,
    )
    &&& spec_update_state_accounts(
        user_info,
        staking_info,
        current_day,
        staked_amounts,
        user_boosted_days,
    ) matches Ok((u1, s1)) ==> {
        &&& u1.total_boost_amount + 1 <= u64::MAX
        &&& s1.total_boost_amount + 1 <= u64::MAX
    }
}

/// Boosts the current day of the user's running stake, which doubles that
/// day's reward. On an error nothing changes.
pub fn boost(
    user_info: &mut UserInfo,
    staking_info: &mut StakingInfo,
    staked_amounts: &LazyVector<u64>,
    user_boosted_days: &mut LazyVector<bool>,
    current_day: u64,
) -> (r: Result<(), ErrorCode>)
    requires
        staked_amounts@.wf(),
        old(user_boosted_days)@.wf(),
        boost_can_proceed(
            *old(user_info),
            *old(staking_info),
            staked_amounts@,
            old(user_boosted_days)@,
            current_day,
        ),
    ensures
        final(user_boosted_days)@.wf(),
        match boost_outcome(
            *old(user_info),
            *old(staking_info),
            staked_amounts@,
            old(user_boosted_days)@,
            current_day,
        ) {
            Ok((u, s, bv)) => r is Ok && *final(user_info) == u && *final(staking_info) == s
                && final(user_boosted_days)@ == bv,
            Err(e) => r == Err::<(), ErrorCode>(e) && *final(user_info) == *old(user_info)
                && *final(staking_info) == *old(staking_info) && final(user_boosted_days)@ == old(user_boosted_days)@,
        },
{
    let mut u = *user_info;
    let mut s = *staking_info;
    match update_state_accounts(&mut u, &mut s, current_day, staked_amounts, user_boosted_days) {
        Ok(()) => {},
        Err(e) => {
            return Err(e);
        },
    }
    let start_day = match u.start_day {
        Some(d) => d,
        None => {
            return Err(ErrorCode::NoActiveStake);
        },
    };
    let index = current_day - start_day;
    let boosted = match user_boosted_days.get_at(index) {
        Ok(b) => b,
        Err(e) => {
            return Err(e);
        },
    };
    if boosted {
        return Err(ErrorCode::AlreadyBoosted);
    }
    if user_boosted_days.elem_size() != 1 {
        return Err(ErrorCode::RequireEqViolated);
    }
    let n = user_boosted_days.len();
    assert(index < n);
    let slot = index as usize;
    match user_boosted_days.set(slot, &true) {
        Ok(()) => {},
        Err(e) => {
            return Err(e);
        },
    }
    u.total_boost_amount = u.total_boost_amount + 1;
    s.total_boost_amount = s.total_boost_amount + 1;
    *user_info = u;
    *staking_info = s;
    Ok(())
}

/// The amount staked on day `index` of the interval.
pub fn view_staking_amount_in_day(staked_amounts: &LazyVector<u64>, index: u64) -> (r: Result<
    u64,
    ErrorCode,
>)
    requires
        staked_amounts@.wf(),
    ensures
        r == staked_amounts@.get::<u64>(index as int),
{
    staked_amounts.get_at(index)
}

/// The interval's daily staking reward, brought up to date.
pub fn view_daily_staking_reward(staking_info: &mut StakingInfo, current_day: u64) -> (r: Result<
    u64,
    ErrorCode,
>)
    requires
        old(staking_info).daily_reward_computable(current_day),
    ensures
        old(staking_info).last_update_day == current_day ==> r == Ok::<u64, ErrorCode>(
            old(staking_info).last_daily_reward,
        ) && *final(staking_info) == *old(staking_info),
        old(staking_info).last_update_day != current_day && current_day < old(staking_info).start_day
            ==> r == Err::<u64, ErrorCode>(ErrorCode::StakingIsNotStarted) && *final(staking_info)
            == *old(staking_info),
        old(staking_info).last_update_day != current_day && current_day >= old(staking_info).start_day
            ==> {
            let (daily, free) = old(staking_info).new_daily_reward(current_day);
            &&& r == Ok::<u64, ErrorCode>(daily as u64)
            &&& *final(staking_info) == (StakingInfo {
                last_update_day: current_day,
                rewarded_free_amount: (old(staking_info).rewarded_free_amount + free) as u64,
                last_daily_reward: daily as u64,
                ..*old(staking_info)
            })
        },
{
    staking_info.daily_staking_reward(current_day)
}

/// Whether each day of the user's staking window is boosted; every day must
/// be readable (the program panics otherwise).
pub fn view_boosted_days_list(user_boosted_days: &LazyVector<bool>) -> (r: Vec<bool>)
    requires
        user_boosted_days@.wf(),
        forall|i: int|
            0 <= i < DAYS_IN_WINDOW ==> (#[trigger] user_boosted_days@.get::<bool>(i)) is Ok,
    ensures
        r@.len() == DAYS_IN_WINDOW,
        forall|i: int|
            0 <= i < DAYS_IN_WINDOW ==> user_boosted_days@.get::<bool>(i) == Ok::<bool, ErrorCode>(
                #[trigger] r@[i],
            ),
{
    let mut r: Vec<bool> = Vec::new();
    let mut i: u64 = 0;
    while i < DAYS_IN_WINDOW
        invariant
            0 <= i <= DAYS_IN_WINDOW,
            r@.len() == i,
            user_boosted_days@.wf(),
            forall|k: int|
                0 <= k < DAYS_IN_WINDOW ==> (#[trigger] user_boosted_days@.get::<bool>(k)) is Ok,
            forall|k: int|
                0 <= k < i ==> user_boosted_days@.get::<bool>(k) == Ok::<bool, ErrorCode>(
                    #[trigger] r@[k],
                ),
        decreases DAYS_IN_WINDOW - i,
    {
        let day = match user_boosted_days.get_at(i) {
            Ok(b) => b,
            Err(_) => false,
        };
        r.push(day);
        i = i + 1;
    }
    r
}

/// Staking never loses tokens: once the user's account is settled, a stake
/// that adds to a running stake keeps it and adds `amount` to the pending
/// tokens; a stake that starts a new one puts the settled staked tokens, all
/// the pending tokens and `amount` into it, leaves nothing pending, starts it
/// on `current_day`, and adds the whole new stake to that day's staked
/// amount and to the interval's total. Either way the user's staked and
/// pending tokens together grow by exactly `amount`.
pub proof fn lemma_stake_conserves_tokens(
    user_info: UserInfo,
    staking_info: StakingInfo,
    staked_amounts: LazyVectorView,
    user_boosted_days: LazyVectorView,
    user: Pubkey,
    staking_info_key: Pubkey,
    bump: u8,
    amount: u64,
    current_day: u64,
)
    requires
        staked_amounts.wf(),
        stake_can_proceed(
            user_info,
            staking_info,
            staked_amounts,
            user_boosted_days,
            amount,
            current_day,
        ),
    ensures
        ({
            let settled = spec_update_state_accounts(
                user_info,
                staking_info,
                current_day,
                staked_amounts,
                user_boosted_days,
            );
            let outcome = stake_outcome(
                user_info,
                staking_info,
                staked_amounts,
                user_boosted_days,
                user,
                staking_info_key,
                bump,
                amount,
                current_day,
            );
            settled matches Ok((u1, s1)) ==> outcome matches Ok((u, s, av, bv)) ==> {
                &&& u.staked_amount + u.pending_amount == u1.staked_amount + u1.pending_amount
                    + amount
                &&& u1.start_day is Some ==> {
                    &&& u.staked_amount == u1.staked_amount
                    &&& u.pending_amount == u1.pending_amount + amount
                    &&& u.start_day == u1.start_day
                    &&& s == s1
                    &&& av == staked_amounts
                }
                &&& u1.start_day is None ==> {
                    &&& u.pending_amount == 0
                    &&& u.staked_amount == u1.staked_amount + u1.pending_amount + amount
                    &&& u.start_day == Some(current_day)
                    &&& s.total_staked_amount == s1.total_staked_amount + u.staked_amount
                    &&& av.get::<u64>(current_day - s1.start_day) == Ok::<u64, ErrorCode>(
                        (staked_amounts.get::<u64>(current_day - s1.start_day)->Ok_0
                            + u.staked_amount) as u64,
                    )
                }
            }
        }),
{
    let settled = spec_update_state_accounts(
        user_info,
        staking_info,
        current_day,
        staked_amounts,
        user_boosted_days,
    );
    let outcome = stake_outcome(
        user_info,
        staking_info,
        staked_amounts,
        user_boosted_days,
        user,
        staking_info_key,
        bump,
        amount,
        current_day,
    );
    match settled {
        Ok((u1, s1)) => match outcome {
            Ok((u, s, av, bv)) => {
                assert(u.staked_amount + u.pending_amount == u1.staked_amount + u1.pending_amount
                    + amount);
                if u1.start_day is None {
                    let day = current_day - s1.start_day;
                    let previous = staked_amounts.get::<u64>(day)->Ok_0;
                    let total = (previous + u.staked_amount) as u64;
                    lemma_amount_get(staked_amounts, day);
                    vstd::bytes::lemma_auto_spec_u64_to_from_le_bytes();
                    crate::staking::lazy_vector::lemma_get_after_set::<u64>(
                        staked_amounts,
                        day,
                        total,
                    );
                    assert(u.pending_amount == 0);
                    assert(u.start_day == Some(current_day));
                    assert(u.staked_amount == u1.staked_amount + u1.pending_amount + amount);
                    assert(s.total_staked_amount == s1.total_staked_amount + u.staked_amount);
                    assert(av.get::<u64>(day) == Ok::<u64, ErrorCode>(total));
                } else {
                    assert(s == s1);
                    assert(u.staked_amount == u1.staked_amount);
                    assert(u.pending_amount == u1.pending_amount + amount);
                    assert(u.start_day == u1.start_day);
                    assert(av == staked_amounts);
                }
            },
            Err(_) => {},
        },
        Err(_) => {},
    }
}

/// Settling a user's account never loses staked tokens: while the stake runs
/// nothing changes; once it has run its window, all its tokens go back to
/// pending, nothing stays staked, the stake is closed, and the same reward is
/// added to what the user may claim, to the user's total and to the
/// interval's total, with one active stake fewer.
pub proof fn lemma_settlement_conserves_tokens(
    user_info: UserInfo,
    staking_info: StakingInfo,
    current_day: u64,
    staked_amounts: LazyVectorView,
    user_boosted_days: LazyVectorView,
)
    requires
        update_can_proceed(user_info, staking_info, current_day, staked_amounts, user_boosted_days),
    ensures
        spec_update_state_accounts(
            user_info,
            staking_info,
            current_day,
            staked_amounts,
            user_boosted_days,
        ) matches Ok((u, s)) ==> {
            &&& u.staked_amount + u.pending_amount == user_info.staked_amount
                + user_info.pending_amount
            &&& !user_info.spec_has_ended_stake(current_day) ==> u == user_info && s
                == staking_info
            &&& user_info.spec_has_ended_stake(current_day) ==> {
                &&& u.staked_amount == 0
                &&& u.start_day is None
                &&& u.rewarded_amount - user_info.rewarded_amount == u.total_rewarded_amount
                    - user_info.total_rewarded_amount
                &&& u.rewarded_amount - user_info.rewarded_amount == s.total_rewarded_amount
                    - staking_info.total_rewarded_amount
                &&& u.rewarded_amount >= user_info.rewarded_amount
                &&& s.active_stakes_number + 1 == staking_info.active_stakes_number
                &&& s.total_staked_amount == staking_info.total_staked_amount
            }
        },
{
}

/// Claiming pays out of what the user has earned: once the account is
/// settled, the claimable reward falls by exactly `amount` and the user's and
/// the interval's totals of rewards grow by exactly `amount`; the stake, the
/// pending tokens and the staked amounts are untouched.
pub proof fn lemma_claim_pays_from_reward(
    user_info: UserInfo,
    staking_info: StakingInfo,
    staked_amounts: LazyVectorView,
    user_boosted_days: LazyVectorView,
    amount: u64,
    current_day: u64,
)
    requires
        claim_can_proceed(
            user_info,
            staking_info,
            staked_amounts,
            user_boosted_days,
            amount,
            current_day,
        ),
    ensures
        spec_update_state_accounts(
            user_info,
            staking_info,
            current_day,
            staked_amounts,
            user_boosted_days,
        ) matches Ok((u1, s1)) ==> claim_outcome(
            user_info,
            staking_info,
            staked_amounts,
            user_boosted_days,
            amount,
            current_day,
        ) matches Ok((u, s)) ==> {
            &&& amount > 0
            &&& u.rewarded_amount + amount == u1.rewarded_amount
            &&& u.total_rewarded_amount == u1.total_rewarded_amount + amount
            &&& s.total_rewarded_amount == s1.total_rewarded_amount + amount
            &&& u.staked_amount == u1.staked_amount
            &&& u.pending_amount == u1.pending_amount
            &&& u.start_day == u1.start_day
            &&& s.total_staked_amount == s1.total_staked_amount
        },
{
}

/// Boosting marks exactly the current day of the running stake: that slot of
/// the user's boosted days becomes true, every other slot keeps its value,
/// and each boost count grows by one.
pub proof fn lemma_boost_marks_today(
    user_info: UserInfo,
    staking_info: StakingInfo,
    staked_amounts: LazyVectorView,
    user_boosted_days: LazyVectorView,
    current_day: u64,
    other: int,
)
    requires
        user_boosted_days.wf(),
        boost_can_proceed(user_info, staking_info, staked_amounts, user_boosted_days, current_day),
    ensures
        spec_update_state_accounts(
            user_info,
            staking_info,
            current_day,
            staked_amounts,
            user_boosted_days,
        ) matches Ok((u1, s1)) ==> boost_outcome(
            user_info,
            staking_info,
            staked_amounts,
            user_boosted_days,
            current_day,
        ) matches Ok((u, s, bv)) ==> {
            let today = current_day - u1.start_day->0;
            &&& u1.start_day is Some
            &&& user_boosted_days.get::<bool>(today) == Ok::<bool, ErrorCode>(false)
            &&& bv.get::<bool>(today) == Ok::<bool, ErrorCode>(true)
            &&& other != today ==> bv.get::<bool>(other) == user_boosted_days.get::<bool>(other)
            &&& u.total_boost_amount == u1.total_boost_amount + 1
            &&& s.total_boost_amount == s1.total_boost_amount + 1
            &&& u.staked_amount == u1.staked_amount
            &&& u.pending_amount == u1.pending_amount
            &&& u.rewarded_amount == u1.rewarded_amount
        },
{
    match spec_update_state_accounts(
        user_info,
        staking_info,
        current_day,
        staked_amounts,
        user_boosted_days,
    ) {
        Ok((u1, s1)) => {
            if u1.start_day is Some {
                let today = current_day - u1.start_day->0;
                if 0 <= today < user_boosted_days.size && user_boosted_days.elem_size == 1 {
                    assert(true.spec_encode().len() == 1);
                    crate::staking::lazy_vector::lemma_get_after_set::<bool>(
                        user_boosted_days,
                        today,
                        true,
                    );
                    if other != today {
                        crate::staking::lazy_vector::lemma_set_keeps_other_slots::<bool>(
                            user_boosted_days,
                            today,
                            true,
                            other,
                        );
                    }
                }
            }
        },
        Err(_) => {},
    }
}

} // verus!
