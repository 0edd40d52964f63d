use vstd::prelude::*;
use crate::pubkey::Pubkey;
use crate::staking::error::ErrorCode;
use crate::staking::lazy_vector::{LazyVector, LazyVectorView};
use crate::staking::utils::{calculate_daily_staking_reward, spec_daily_staking_reward};

verus! {

/// Length of the account discriminator that precedes every account's fields.
pub const DESCRIMINATOR_LEN: usize = 8;

/// Length of a vector's length prefix.
pub const VECTOR_SIZE_LEN: usize = 4;

/// Days that one stake lasts, and the width of the staking window.
pub const DAYS_IN_WINDOW: u64 = 7;

/// Seconds in one staking day.
pub const SEC_PER_DAY: u64 = 86400;

/// The account whose address signs transfers out of the staking token account.
#[derive(Clone, Copy, Debug)]
pub struct StakingTokenAuthority {
    pub bump: u8,
}

impl StakingTokenAuthority {
    pub const LEN: usize = 9;
}

/// The state of one staking interval. The amounts staked per day follow
/// these fields in the account's data, as a `LazyVector<u64>` at offset
/// `StakingInfo::LEN`.
#[derive(Clone, Copy, Debug)]
pub struct StakingInfo {
    pub primary_wallet: Pubkey,
    pub mint: Pubkey,
    /// Staking interval = [start_day; end_day)
    pub start_day: u64,
    pub end_day: u64,
    pub reward_tokens_amount: u64,
    /// Daily reward
    pub last_daily_reward: u64,
    pub last_update_day: u64,
    pub days_with_new_stake: u64,
    pub unspent_boosted_rewards: u64,
    pub rewarded_free_amount: u64,
    /// Statistics
    pub total_stakes_number: u64,
    pub total_boost_amount: u64,
    pub total_staked_amount: u64,
    pub total_rewarded_amount: u64,
    pub active_stakes_number: u64,
    pub total_unspent_amount: u64,
}

impl StakingInfo {
    pub const LEN: usize = 168;

    /// The fields of a freshly created account: all zero.
    pub fn zeroed() -> (r: StakingInfo)
        ensures
            r.is_zeroed(),
    {
        StakingInfo {
            primary_wallet: Pubkey::zero(),
            mint: Pubkey::zero(),
            start_day: 0,
            end_day: 0,
            reward_tokens_amount: 0,
            last_daily_reward: 0,
            last_update_day: 0,
            days_with_new_stake: 0,
            unspent_boosted_rewards: 0,
            rewarded_free_amount: 0,
            total_stakes_number: 0,
            total_boost_amount: 0,
            total_staked_amount: 0,
            total_rewarded_amount: 0,
            active_stakes_number: 0,
            total_unspent_amount: 0,
        }
    }

    pub open spec fn is_zeroed(self) -> bool {
        &&& self.primary_wallet@ == Pubkey::zero_bytes()
        &&& self.mint@ == Pubkey::zero_bytes()
        &&& self.start_day == 0
        &&& self.end_day == 0
        &&& self.counters_are_zero()
    }

    /// Every amount and counter is zero.
    pub open spec fn counters_are_zero(self) -> bool {
        &&& self.reward_tokens_amount == 0
        &&& self.last_daily_reward == 0
        &&& self.last_update_day == 0
        &&& self.days_with_new_stake == 0
        &&& self.unspent_boosted_rewards == 0
        &&& self.rewarded_free_amount == 0
        &&& self.total_stakes_number == 0
        &&& self.total_boost_amount == 0
        &&& self.total_staked_amount == 0
        &&& self.total_rewarded_amount == 0
        &&& self.active_stakes_number == 0
        &&& self.total_unspent_amount == 0
    }

    /// `StakingIsFinished` once `current_day` reaches the end day.
    pub fn assert_not_finished(&self, current_day: u64) -> (r: Result<(), ErrorCode>)
        ensures
            r is Ok <==> self.end_day > current_day,
            r is Err ==> r == Err::<(), ErrorCode>(ErrorCode::StakingIsFinished),
    {
        if self.end_day > current_day {
            Ok(())
        } else {
            Err(ErrorCode::StakingIsFinished)
        }
    }

    /// `StakingIsNotFinished` before `current_day` reaches the end day.
    pub fn assert_finished(&self, current_day: u64) -> (r: Result<(), ErrorCode>)
        ensures
            r is Ok <==> current_day >= self.end_day,
            r is Err ==> r == Err::<(), ErrorCode>(ErrorCode::StakingIsNotFinished),
    {
        if current_day >= self.end_day {
            Ok(())
        } else {
            Err(ErrorCode::StakingIsNotFinished)
        }
    }

    /// Days since the start day; `StakingIsNotStarted` before it.
    pub fn day_index(&self, current_day: u64) -> (r: Result<u64, ErrorCode>)
        ensures
            r is Ok <==> current_day >= self.start_day,
            r matches Ok(d) ==> d == current_day - self.start_day,
            r is Err ==> r == Err::<u64, ErrorCode>(ErrorCode::StakingIsNotStarted),
    {
        if current_day >= self.start_day {
            Ok(current_day - self.start_day)
        } else {
            Err(ErrorCode::StakingIsNotStarted)
        }
    }

    /// Days in the staking interval.
    pub fn total_days(&self) -> (r: u64)
        requires
            self.end_day >= self.start_day,
        ensures
            r == self.end_day - self.start_day,
    {
        self.end_day - self.start_day
    }

    /// The daily reward and unspent share for `current_day`, when the day
    /// changed since the last update.
    pub open spec fn new_daily_reward(self, current_day: u64) -> (int, int) {
        spec_daily_staking_reward(
            current_day - self.start_day,
            self.end_day - self.start_day,
            self.unspent_boosted_rewards as int,
            self.rewarded_free_amount as int,
            self.reward_tokens_amount as int,
        )
    }

    /// The program panics where the day changed, the staking interval has
    /// started, and the daily reward cannot be computed: the interval is
    /// over or empty, more free amount was handed out than was unspent, or
    /// the free amount handed out passes `u64::MAX`.
    pub open spec fn daily_reward_computable(self, current_day: u64) -> bool {
        self.last_update_day != current_day && current_day >= self.start_day ==> {
            &&& self.end_day >= self.start_day
            &&& current_day < self.end_day
            &&& self.rewarded_free_amount <= self.unspent_boosted_rewards
            &&& self.rewarded_free_amount + self.new_daily_reward(current_day).1 <= u64::MAX
        }
    }

    /// The daily staking reward, brought up to date once per day: on a new
    /// day it is recomputed from the reward tokens and the unspent amount,
    /// and the unspent share of the day is added to the free amount handed
    /// out.
    pub fn daily_staking_reward(&mut self, current_day: u64) -> (r: Result<u64, ErrorCode>)
        requires
            old(self).daily_reward_computable(current_day),
        ensures
            old(self).last_update_day == current_day ==> r == Ok::<u64, ErrorCode>(
                old(self).last_daily_reward,
            ) && *final(self) == *old(self),
            old(self).last_update_day != current_day && current_day < old(self).start_day ==> r
                == Err::<u64, ErrorCode>(ErrorCode::StakingIsNotStarted) && *final(self) == *old(
                self,
            ),
            old(self).last_update_day != current_day && current_day >= old(self).start_day ==> {
                let (daily, free) = old(self).new_daily_reward(current_day);
                &&& r == Ok::<u64, ErrorCode>(daily as u64)
                &&& *final(self) == (StakingInfo {
                    last_update_day: current_day,
                    rewarded_free_amount: (old(self).rewarded_free_amount + free) as u64,
                    last_daily_reward: daily as u64,
                    ..*old(self)
                })
            },
    {
        if self.last_update_day != current_day {
            let day_index = match self.day_index(current_day) {
                Ok(d) => d,
                Err(e) => {
                    return Err(e);
                },
            };
            let total_days = self.total_days();
            self.last_update_day = current_day;
            let (new_daily_reward, free_amount) = calculate_daily_staking_reward(
                day_index,
                total_days,
                self.unspent_boosted_rewards,
                self.rewarded_free_amount,
                self.reward_tokens_amount,
            );
            self.rewarded_free_amount = self.rewarded_free_amount + free_amount;
            self.last_daily_reward = new_daily_reward;
        }
        Ok(self.last_daily_reward)
    }
}

/// The state of one user's stake. The user's boosted days follow these
/// fields in the account's data, as a `LazyVector<bool>` of `DAYS_IN_WINDOW`
/// slots at offset `UserInfo::LEN`.
#[derive(Clone, Copy, Debug)]
pub struct UserInfo {
    pub user: Pubkey,
    pub staking_info: Pubkey,
    pub bump: u8,
    pub start_day: Option<u64>,
    pub staked_amount: u64,
    pub pending_amount: u64,
    pub rewarded_amount: u64,
    pub daily_staking_reward: u64,
    /// Statistics
    pub total_staked_amount: u64,
    pub total_rewarded_amount: u64,
    pub total_boost_amount: u64,
}

impl UserInfo {
    pub const LEN: usize = 130;

    /// The fields of a freshly created account: all zero, no stake.
    pub fn zeroed() -> (r: UserInfo)
        ensures
            r.is_zeroed(),
    {
        UserInfo {
            user: Pubkey::zero(),
            staking_info: Pubkey::zero(),
            bump: 0,
            start_day: None,
            staked_amount: 0,
            pending_amount: 0,
            rewarded_amount: 0,
            daily_staking_reward: 0,
            total_staked_amount: 0,
            total_rewarded_amount: 0,
            total_boost_amount: 0,
        }
    }

    pub open spec fn is_zeroed(self) -> bool {
        &&& self.user@ == Pubkey::zero_bytes()
        &&& self.staking_info@ == Pubkey::zero_bytes()
        &&& self.bump == 0
        &&& self.start_day is None
        &&& self.staked_amount == 0
        &&& self.pending_amount == 0
        &&& self.rewarded_amount == 0
        &&& self.daily_staking_reward == 0
        &&& self.total_staked_amount == 0
        &&& self.total_rewarded_amount == 0
        &&& self.total_boost_amount == 0
    }

    pub fn has_active_stake(&self) -> (r: bool)
        ensures
            r == self.start_day is Some,
    {
        self.start_day.is_some()
    }

    /// Whether a stake has run its whole window by `current_day`.
    pub open spec fn spec_has_ended_stake(self, current_day: u64) -> bool {
        match self.start_day {
            Some(start) => current_day - start >= DAYS_IN_WINDOW,
            None => false,
        }
    }

    /// Whether the stake has run its whole window; `current_day` must not be
    /// before the stake's start day (the program panics there).
    pub fn has_ended_stake(&self, current_day: u64) -> (r: bool)
        requires
            self.start_day matches Some(start) ==> start <= current_day,
        ensures
            r == self.spec_has_ended_stake(current_day),
    {
        match self.start_day {
            Some(start_day) => current_day - start_day >= DAYS_IN_WINDOW,
            None => false,
        }
    }
}

impl StakingInfo {
    /// The staked amount of each day of the interval, stored after the
    /// account's fields in `data`: `end_day - start_day` slots of 8 bytes at
    /// `StakingInfo::LEN`. The interval must not run backwards nor the data
    /// be shorter than the fields (the program panics there).
    pub fn get_vector(&self, data: Vec<u8>) -> (r: Result<LazyVector<u64>, ErrorCode>)
        requires
            self.start_day <= self.end_day,
            self.end_day - self.start_day <= usize::MAX,
            StakingInfo::LEN <= data@.len(),
        ensures
            r is Ok <==> self.end_day - self.start_day <= (data@.len() - StakingInfo::LEN) / 8,
            r matches Ok(v) ==> v@ == (LazyVectorView {
                offset: StakingInfo::LEN as nat,
                size: (self.end_day - self.start_day) as nat,
                elem_size: 8,
                data: data@,
            }),
            r matches Err(e) ==> e == ErrorCode::WrongVectorSize,
    {
        let days_amount = (self.end_day - self.start_day) as usize;
        LazyVector::new(StakingInfo::LEN, days_amount, 8, data)
    }
}

impl UserInfo {
    /// The boosted flag of each day of the user's stake window, stored after
    /// the account's fields in `data`: `DAYS_IN_WINDOW` slots of one byte at
    /// `UserInfo::LEN`. The data must not be shorter than the fields (the
    /// program panics there).
    pub fn get_vector(&self, data: Vec<u8>) -> (r: Result<LazyVector<bool>, ErrorCode>)
        requires
            UserInfo::LEN <= data@.len(),
        ensures
            r is Ok <==> DAYS_IN_WINDOW <= data@.len() - UserInfo::LEN,
            r matches Ok(v) ==> v@ == (LazyVectorView {
                offset: UserInfo::LEN as nat,
                size: DAYS_IN_WINDOW as nat,
                elem_size: 1,
                data: data@,
            }),
            r matches Err(e) ==> e == ErrorCode::WrongVectorSize,
    {
        LazyVector::new(UserInfo::LEN, DAYS_IN_WINDOW as usize, 1, data)
    }
}

} // verus!
