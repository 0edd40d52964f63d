use vstd::prelude::*;
use vstd::arithmetic::div_mod::{lemma_div_denominator, lemma_fundamental_div_mod, lemma_fundamental_div_mod_converse, lemma_div_multiples_vanish_quotient};
use crate::staking::error::ErrorCode;
use crate::staking::lazy_vector::{LazyVector, LazyVectorView};
use crate::staking::state::{DAYS_IN_WINDOW, SEC_PER_DAY};
use solana_program::program_error::ProgramError;
use solana_program::sysvar::Sysvar;

verus! {

/// 2^64: the modulus of a conversion to `u64` that keeps the low 64 bits.
pub open spec fn u64_modulus() -> int {
    0x1_0000_0000_0000_0000
}

/// The share of `reward_tokens_amount` that falls to `days_with_no_reward` of
/// `total_days`, rounded down and kept to its low 64 bits.
pub fn calculate_unspent_amount_from_days_with_no_reward(
    days_with_no_reward: u64,
    total_days: u64,
    reward_tokens_amount: u64,
) -> (r: u64)
    requires
        total_days > 0,
    ensures
        r == (reward_tokens_amount * days_with_no_reward / total_days as int) % u64_modulus(),
{
    proof {
        assert((reward_tokens_amount as int) * (days_with_no_reward as int) <= u64::MAX * u64::MAX)
            by (nonlinear_arith)
            requires
                reward_tokens_amount <= u64::MAX,
                days_with_no_reward <= u64::MAX,
        ;
    }
    let product: u128 = (reward_tokens_amount as u128) * (days_with_no_reward as u128);
    let quotient: u128 = product / (total_days as u128);
    (quotient % 0x1_0000_0000_0000_0000u128) as u64
}

/// Halving a sum of two halves: `(a + b) / 2` from the parts of `a` and `b`.
proof fn lemma_half_of_sum(a: int, b: int)
    requires
        a >= 0,
        b >= 0,
    ensures
        (a + b) / 2 == a / 2 + b / 2 + (a % 2 + b % 2) / 2,
{
    lemma_fundamental_div_mod(a, 2);
    lemma_fundamental_div_mod(b, 2);
    let c = a % 2 + b % 2;
    if c < 2 {
        lemma_fundamental_div_mod_converse(a + b, 2, a / 2 + b / 2, c);
        lemma_fundamental_div_mod_converse(c, 2, 0, c);
    } else {
        lemma_fundamental_div_mod_converse(a + b, 2, a / 2 + b / 2 + 1, 0);
        lemma_fundamental_div_mod_converse(c, 2, 1, 0);
    }
}

/// The daily reward and the daily share of unspent rewards on day
/// `day_index` of `total_days`: the reward tokens not yet due, plus the
/// unspent amount not yet given back, spread over the remaining days.
pub open spec fn spec_daily_staking_reward(
    day_index: int,
    total_days: int,
    unspent_amount: int,
    total_rewarded_free_amount: int,
    reward_tokens_amount: int,
) -> (int, int) {
    let remaining_days = total_days - day_index;
    let free_amount_x_total_days = unspent_amount * total_days - total_rewarded_free_amount
        * total_days;
    (
        (reward_tokens_amount * total_days + free_amount_x_total_days - reward_tokens_amount
            * day_index) / (remaining_days * 2 * total_days),
        free_amount_x_total_days / (remaining_days * total_days),
    )
}

/// The reward of one day and the unspent amount that day gives back.
/// The program panics where `day_index >= total_days` or more free amount
/// was handed out than was unspent; those inputs are excluded.
pub fn calculate_daily_staking_reward(
    day_index: u64,
    total_days: u64,
    unspent_amount: u64,
    total_rewarded_free_amount: u64,
    reward_tokens_amount: u64,
) -> (r: (u64, u64))
    requires
        day_index < total_days,
        total_rewarded_free_amount <= unspent_amount,
    ensures
        (r.0 as int, r.1 as int) == spec_daily_staking_reward(
            day_index as int,
            total_days as int,
            unspent_amount as int,
            total_rewarded_free_amount as int,
            reward_tokens_amount as int,
        ),
{
    let remaining_days: u64 = total_days - day_index;
    let free: u64 = unspent_amount - total_rewarded_free_amount;
    let ghost (t, m, v, rw) = (
        total_days as int,
        remaining_days as int,
        free as int,
        reward_tokens_amount as int,
    );
    proof {
        assert(rw * m <= u64::MAX * u64::MAX) by (nonlinear_arith)
            requires
                0 <= rw <= u64::MAX,
                0 <= m <= u64::MAX,
        ;
        assert(v * t <= u64::MAX * u64::MAX) by (nonlinear_arith)
            requires
                0 <= v <= u64::MAX,
                0 <= t <= u64::MAX,
        ;
        assert(m * t <= u64::MAX * u64::MAX) by (nonlinear_arith)
            requires
                0 <= m <= u64::MAX,
                0 <= t <= u64::MAX,
        ;
        assert(m * t >= 1) by (nonlinear_arith)
            requires
                m >= 1,
                t >= 1,
        ;
    }
    let a: u128 = (reward_tokens_amount as u128) * (remaining_days as u128);
    let b: u128 = (free as u128) * (total_days as u128);
    let half: u128 = a / 2 + b / 2 + (a % 2 + b % 2) / 2;
    let days_product: u128 = (remaining_days as u128) * (total_days as u128);
    let daily: u128 = half / days_product;
    let daily_unspent: u64 = free / remaining_days;
    proof {
        let spec = spec_daily_staking_reward(
            day_index as int,
            t,
            unspent_amount as int,
            total_rewarded_free_amount as int,
            rw,
        );
        // the numerator is a + b, the denominator 2 * m * t
        assert(rw * t + (unspent_amount * t - total_rewarded_free_amount * t) - rw * day_index
            == a + b) by (nonlinear_arith)
            requires
                a == rw * m,
                b == v * t,
                m == t - day_index,
                v == unspent_amount - total_rewarded_free_amount,
        ;
        assert(m * 2 * t == 2 * (m * t)) by (nonlinear_arith);
        lemma_half_of_sum(a as int, b as int);
        lemma_div_denominator(a + b, 2, m * t);
        assert(spec.0 == daily);
        // the daily reward fits in 64 bits
        assert(a + b < 2 * u64_modulus() * (m * t)) by (nonlinear_arith)
            requires
                a == rw * m,
                b == v * t,
                0 <= rw < u64_modulus(),
                0 <= v < u64_modulus(),
                m >= 1,
                t >= 1,
        {
            assert(rw * m <= rw * (m * t));
            assert(v * t <= v * (m * t));
        }
        lemma_div_denominator(a + b, 2, m * t);
        lemma_fundamental_div_mod((a + b) / 2, m * t);
        assert(daily < u64_modulus()) by (nonlinear_arith)
            requires
                half == (a + b) / 2,
                (a + b) / 2 == (m * t) * daily + (half as int) % (m * t),
                (half as int) % (m * t) >= 0,
                a + b < 2 * u64_modulus() * (m * t),
                m * t >= 1,
        ;
        // the unspent share: (v * t) / (m * t) == v / m
        assert(unspent_amount * t - total_rewarded_free_amount * t == t * v) by (nonlinear_arith)
            requires
                v == unspent_amount - total_rewarded_free_amount,
        ;
        assert(m * t == t * m) by (nonlinear_arith);
        lemma_div_multiples_vanish_quotient(t, v, m);
        assert(spec.1 == daily_unspent);
    }
    (daily as u64, daily_unspent)
}

/// First day of the staking window that ends just before `day`.
pub open spec fn window_start(day: int) -> int {
    if day >= DAYS_IN_WINDOW {
        day - DAYS_IN_WINDOW + 1
    } else {
        0
    }
}

/// The amount staked on day `index`, as the vector holds it (zero where
/// the slot cannot be read).
pub open spec fn amount_at(amounts: LazyVectorView, index: int) -> int {
    match amounts.get::<u64>(index) {
        Ok(x) => x as int,
        Err(_) => 0,
    }
}

/// The amounts staked on the days `from .. to`.
pub open spec fn amounts_sum(amounts: LazyVectorView, from: int, to: int) -> int
    decreases to - from,
{
    if to <= from {
        0
    } else {
        amounts_sum(amounts, from, to - 1) + amount_at(amounts, to - 1)
    }
}

/// Reading an amount succeeds exactly before the end of the vector and where
/// its slots are wide enough for a `u64`.
pub proof fn lemma_amount_get(amounts: LazyVectorView, index: int)
    requires
        amounts.wf(),
        0 <= index,
    ensures
        amounts.get::<u64>(index) is Ok <==> (index < amounts.size && amounts.elem_size >= 8),
        index >= amounts.size ==> amounts.get::<u64>(index) == Err::<u64, ErrorCode>(
            ErrorCode::OutOfBounds,
        ),
        index < amounts.size && amounts.elem_size < 8 ==> amounts.get::<u64>(index) == Err::<
            u64,
            ErrorCode,
        >(ErrorCode::ElementDidNotDeserialize),
        amounts.get::<u64>(index) is Ok ==> amounts.get::<u64>(index) == Ok::<u64, ErrorCode>(
            amount_at(amounts, index) as u64,
        ),
{
    if index < amounts.size {
        crate::staking::lazy_vector::lemma_slot_in_bounds(amounts, index);
        assert(amounts.slot(index).len() == amounts.elem_size);
    }
}

pub proof fn lemma_amounts_sum_nonneg(amounts: LazyVectorView, from: int, to: int)
    ensures
        amounts_sum(amounts, from, to) >= 0,
    decreases to - from,
{
    if to > from {
        lemma_amounts_sum_nonneg(amounts, from, to - 1);
    }
}

/// A sum over more days is no smaller.
pub proof fn lemma_amounts_sum_monotone(amounts: LazyVectorView, from: int, t1: int, t2: int)
    requires
        t1 <= t2,
    ensures
        amounts_sum(amounts, from, t1) <= amounts_sum(amounts, from, t2),
    decreases t2 - t1,
{
    if t1 < t2 {
        lemma_amounts_sum_monotone(amounts, from, t1, t2 - 1);
        if t2 - 1 < from {
        }
    }
}

/// A sum splits off its first day.
pub proof fn lemma_amounts_sum_front(amounts: LazyVectorView, from: int, to: int)
    requires
        from < to,
    ensures
        amounts_sum(amounts, from, to) == amount_at(amounts, from) + amounts_sum(
            amounts,
            from + 1,
            to,
        ),
    decreases to - from,
{
    if from + 1 < to {
        lemma_amounts_sum_front(amounts, from, to - 1);
    } else {
        assert(amounts_sum(amounts, from, from) == 0);
        assert(amounts_sum(amounts, from + 1, to) == 0);
    }
}

/// From one day to the next the staking window slides by one day: the
/// amount of the day just ended comes in and, once the window is full, the
/// amount of its first day goes out.
pub proof fn lemma_window_slides(amounts: LazyVectorView, day: int)
    requires
        day >= 0,
    ensures
        amounts_sum(amounts, window_start(day + 1), day + 1) == amounts_sum(
            amounts,
            window_start(day),
            day,
        ) + amount_at(amounts, day) - (if day + 1 >= DAYS_IN_WINDOW {
            amount_at(amounts, window_start(day))
        } else {
            0
        }),
{
    let from = window_start(day);
    assert(amounts_sum(amounts, from, day + 1) == amounts_sum(amounts, from, day) + amount_at(
        amounts,
        day,
    ));
    if day + 1 >= DAYS_IN_WINDOW {
        assert(window_start(day + 1) == from + 1);
        lemma_amounts_sum_front(amounts, from, day + 1);
    } else {
        assert(window_start(day + 1) == from);
    }
}

/// What `calculate_total_staked_amount_before_day` returns: the amounts
/// staked on the days of the window that ends just before `day`, or the
/// error of the first slot that cannot be read.
pub open spec fn spec_total_staked_amount_before_day(amounts: LazyVectorView, day: int) -> Result<
    u64,
    ErrorCode,
> {
    let from = window_start(day);
    if from >= day {
        Ok(0)
    } else if from >= amounts.size {
        Err(ErrorCode::OutOfBounds)
    } else if amounts.elem_size < 8 {
        Err(ErrorCode::ElementDidNotDeserialize)
    } else if day > amounts.size {
        Err(ErrorCode::OutOfBounds)
    } else {
        Ok(amounts_sum(amounts, from, day) as u64)
    }
}

/// Whether the running total of the window stays within `u64::MAX` (the
/// program panics otherwise).
pub open spec fn total_staked_amount_fits(amounts: LazyVectorView, day: int) -> bool {
    amounts.elem_size >= 8 ==> amounts_sum(
        amounts,
        window_start(day),
        if day <= amounts.size {
            day
        } else {
            amounts.size as int
        },
    ) <= u64::MAX
}

/// The amount staked during the window of days that ends just before
/// `day_index`.
pub fn calculate_total_staked_amount_before_day(
    day_index: u64,
    staked_amounts: &LazyVector<u64>,
) -> (r: Result<u64, ErrorCode>)
    requires
        staked_amounts@.wf(),
        total_staked_amount_fits(staked_amounts@, day_index as int),
    ensures
        r == spec_total_staked_amount_before_day(staked_amounts@, day_index as int),
{
    let ghost v = staked_amounts@;
    let mut total_staked: u64 = 0;
    let from_index: u64 = if day_index >= DAYS_IN_WINDOW {
        day_index - DAYS_IN_WINDOW + 1
    } else {
        0
    };
    let mut index: u64 = from_index;
    while index < day_index
        invariant
            staked_amounts@ == v,
            v.wf(),
            total_staked_amount_fits(v, day_index as int),
            from_index == window_start(day_index as int),
            from_index <= index <= day_index,
            index > from_index ==> index <= v.size && v.elem_size >= 8,
            total_staked == amounts_sum(v, from_index as int, index as int),
        decreases day_index - index,
    {
        proof {
            lemma_amount_get(v, index as int);
        }
        let stake_amount = match staked_amounts.get_at(index) {
            Ok(x) => x,
            Err(e) => {
                return Err(e);
            },
        };
        proof {
            let lim = if day_index <= v.size {
                day_index as int
            } else {
                v.size as int
            };
            lemma_amounts_sum_monotone(v, from_index as int, index + 1, lim);
        }
        total_staked = total_staked + stake_amount;
        index = index + 1;
    }
    proof {
        if from_index < day_index {
            assert(day_index <= v.size);
        }
    }
    Ok(total_staked)
}

/// One day's reward of a stake of `user_staked_amount` out of `total`
/// staked in the window, doubled on a boosted day, rounded down and kept to
/// its low 64 bits.
pub open spec fn reward_increase(
    user_staked_amount: u64,
    daily_staking_reward: u64,
    boost: bool,
    total: int,
) -> int {
    (daily_staking_reward * user_staked_amount * (if boost {
        2int
    } else {
        1int
    }) / total) % u64_modulus()
}

/// The steps of the reward computation from `day` on: `None` where the
/// program panics, else what it returns. `total` is the amount staked in
/// the window, `reward` and `remainings` what has been counted so far.
pub open spec fn reward_steps(
    user_staked_amount: u64,
    start: int,
    boosted_days: LazyVectorView,
    amounts: LazyVectorView,
    daily_staking_reward: u64,
    day: int,
    to: int,
    total: int,
    reward: int,
    remainings: int,
) -> Option<Result<(u64, u64), ErrorCode>>
    decreases to - day,
{
    if day >= to {
        Some(Ok((reward as u64, remainings as u64)))
    } else {
        match amounts.get::<u64>(day) {
            Err(e) => Some(Err(e)),
            Ok(amount) => {
                let total1 = total + amount;
                if total1 > u64::MAX {
                    None
                } else {
                    match boosted_days.get::<bool>(day - start) {
                        Err(e) => Some(Err(e)),
                        Ok(boost) => {
                            if total1 == 0 {
                                None
                            } else {
                                let increase = reward_increase(
                                    user_staked_amount,
                                    daily_staking_reward,
                                    boost,
                                    total1,
                                );
                                let remainings1 = if boost {
                                    remainings
                                } else {
                                    remainings + increase
                                };
                                let reward1 = reward + increase;
                                if remainings1 > u64::MAX || reward1 > u64::MAX {
                                    None
                                } else if day + 1 >= DAYS_IN_WINDOW {
                                    match amounts.get::<u64>(day + 1 - DAYS_IN_WINDOW) {
                                        Err(e) => Some(Err(e)),
                                        Ok(leaving) => {
                                            if total1 - leaving < 0 {
                                                None
                                            } else {
                                                reward_steps(
                                                    user_staked_amount,
                                                    start,
                                                    boosted_days,
                                                    amounts,
                                                    daily_staking_reward,
                                                    day + 1,
                                                    to,
                                                    total1 - leaving,
                                                    reward1,
                                                    remainings1,
                                                )
                                            }
                                        },
                                    }
                                } else {
                                    reward_steps(
                                        user_staked_amount,
                                        start,
                                        boosted_days,
                                        amounts,
                                        daily_staking_reward,
                                        day + 1,
                                        to,
                                        total1,
                                        reward1,
                                        remainings1,
                                    )
                                }
                            }
                        },
                    }
                }
            },
        }
    }
}

/// The last day (exclusive) on which a stake that starts on `start` earns:
/// the end of its window or of the staking interval, whichever is first.
pub open spec fn reward_end(start: int, total_days: int) -> int {
    if total_days <= start + DAYS_IN_WINDOW {
        total_days
    } else {
        start + DAYS_IN_WINDOW
    }
}

/// The whole reward computation: `None` where the program panics, else
/// what it returns.
pub open spec fn spec_user_reward(
    user_staked_amount: u64,
    start: int,
    boosted_days: LazyVectorView,
    amounts: LazyVectorView,
    total_days: int,
    daily_staking_reward: u64,
) -> Option<Result<(u64, u64), ErrorCode>> {
    if !total_staked_amount_fits(amounts, start) {
        None
    } else {
        match spec_total_staked_amount_before_day(amounts, start) {
            Err(e) => Some(Err(e)),
            Ok(total) => {
                if start + DAYS_IN_WINDOW > u64::MAX {
                    None
                } else {
                    reward_steps(
                        user_staked_amount,
                        start,
                        boosted_days,
                        amounts,
                        daily_staking_reward,
                        start,
                        reward_end(start, total_days),
                        total as int,
                        0,
                        0,
                    )
                }
            },
        }
    }
}

/// Whether day `index` of the stake is boosted (false where unreadable).
pub open spec fn boost_at(boosted_days: LazyVectorView, index: int) -> bool {
    match boosted_days.get::<bool>(index) {
        Ok(b) => b,
        Err(_) => false,
    }
}

/// The amount staked in the window of days that ends on `day`.
pub open spec fn window_total(amounts: LazyVectorView, day: int) -> int {
    amounts_sum(amounts, window_start(day), day + 1)
}

/// The rewards of the days `start .. to`; with `unboosted_only`, of the days
/// that were not boosted.
pub open spec fn rewards_sum(
    user_staked_amount: u64,
    start: int,
    boosted_days: LazyVectorView,
    amounts: LazyVectorView,
    daily_staking_reward: u64,
    to: int,
    unboosted_only: bool,
) -> int
    decreases to - start,
{
    if to <= start {
        0
    } else {
        let day = to - 1;
        let boost = boost_at(boosted_days, day - start);
        rewards_sum(
            user_staked_amount,
            start,
            boosted_days,
            amounts,
            daily_staking_reward,
            day,
            unboosted_only,
        ) + if unboosted_only && boost {
            0
        } else {
            reward_increase(
                user_staked_amount,
                daily_staking_reward,
                boost,
                window_total(amounts, day),
            )
        }
    }
}

/// Every slot that the reward computation reads can be read.
pub open spec fn reward_inputs_readable(
    start: int,
    boosted_days: LazyVectorView,
    amounts: LazyVectorView,
    to: int,
) -> bool {
    &&& amounts.elem_size >= 8
    &&& start <= amounts.size
    &&& to <= amounts.size
    &&& to - start <= boosted_days.size
    &&& forall|j: int| 0 <= j < to - start ==> (#[trigger] boosted_days.get::<bool>(j)) is Ok
}

/// `2 * p / t` from the quotient and remainder of `p / t`.
proof fn lemma_double_div(p: int, t: int)
    requires
        p >= 0,
        t > 0,
    ensures
        (2 * p) / t == 2 * (p / t) + (2 * (p % t)) / t,
        (2 * (p % t)) / t <= 1,
{
    lemma_fundamental_div_mod(p, t);
    lemma_fundamental_div_mod(2 * (p % t), t);
    let q2 = (2 * (p % t)) / t;
    let r2 = (2 * (p % t)) % t;
    assert(2 * p == (2 * (p / t) + q2) * t + r2) by (nonlinear_arith)
        requires
            p == t * (p / t) + p % t,
            2 * (p % t) == t * q2 + r2,
    ;
    lemma_fundamental_div_mod_converse(2 * p, t, 2 * (p / t) + q2, r2);
    assert(q2 <= 1) by (nonlinear_arith)
        requires
            2 * (p % t) == t * q2 + r2,
            0 <= r2,
            p % t < t,
            t > 0,
    ;
}

/// Keeping the low 64 bits of `2 * q + c` only needs those of `q`.
proof fn lemma_low_bits_double(q: int, c: int)
    ensures
        (2 * q + c) % u64_modulus() == (2 * (q % u64_modulus()) + c) % u64_modulus(),
{
    let m = u64_modulus();
    lemma_fundamental_div_mod(q, m);
    let k = q / m;
    assert(2 * q + c == (2 * (q % m) + c) + m * (2 * k)) by (nonlinear_arith)
        requires
            q == m * k + q % m,
    ;
    vstd::arithmetic::div_mod::lemma_mod_multiples_vanish(2 * k, 2 * (q % m) + c, m);
}

/// The reward of one day, computed exactly, as in 256 bits.
fn day_reward_increase(
    user_staked_amount: u64,
    daily_staking_reward: u64,
    boost: bool,
    total: u64,
) -> (r: u64)
    requires
        total > 0,
    ensures
        r == reward_increase(user_staked_amount, daily_staking_reward, boost, total as int),
{
    proof {
        assert((daily_staking_reward as int) * (user_staked_amount as int) <= u64::MAX * u64::MAX)
            by (nonlinear_arith)
            requires
                daily_staking_reward <= u64::MAX,
                user_staked_amount <= u64::MAX,
        ;
    }
    let product: u128 = (daily_staking_reward as u128) * (user_staked_amount as u128);
    let quotient: u128 = product / (total as u128);
    if boost {
        let rest: u128 = product % (total as u128);
        let carry: u128 = (2 * rest) / (total as u128);
        proof {
            lemma_double_div(product as int, total as int);
            lemma_low_bits_double(quotient as int, carry as int);
            assert(daily_staking_reward * user_staked_amount * 2int == 2 * product);
        }
        (((quotient % 0x1_0000_0000_0000_0000u128) * 2 + carry) % 0x1_0000_0000_0000_0000u128) as u64
    } else {
        proof {
            assert(daily_staking_reward * user_staked_amount * 1int == product);
        }
        (quotient % 0x1_0000_0000_0000_0000u128) as u64
    }
}

/// The reward of a stake of `user_staked_amount` that starts on day
/// `user_start_day_index`, and the part of it earned on days that were not
/// boosted. Each day of the stake's window earns the daily reward in the
/// proportion of the stake to the amount staked in that day's window,
/// doubled on a boosted day.
pub fn calculate_user_reward_with_unspent_rewards(
    user_staked_amount: u64,
    user_start_day_index: u64,
    user_boosted_days: &LazyVector<bool>,
    staked_amounts: &LazyVector<u64>,
    total_days: u64,
    daily_staking_reward: u64,
) -> (r: Result<(u64, u64), ErrorCode>)
    requires
        user_boosted_days@.wf(),
        staked_amounts@.wf(),
        spec_user_reward(
            user_staked_amount,
            user_start_day_index as int,
            user_boosted_days@,
            staked_amounts@,
            total_days as int,
            daily_staking_reward,
        ) is Some,
    ensures
        Some(r) == spec_user_reward(
            user_staked_amount,
            user_start_day_index as int,
            user_boosted_days@,
            staked_amounts@,
            total_days as int,
            daily_staking_reward,
        ),
        reward_inputs_readable(
            user_start_day_index as int,
            user_boosted_days@,
            staked_amounts@,
            reward_end(user_start_day_index as int, total_days as int),
        ) ==> r == Ok::<(u64, u64), ErrorCode>(
            (
                rewards_sum(
                    user_staked_amount,
                    user_start_day_index as int,
                    user_boosted_days@,
                    staked_amounts@,
                    daily_staking_reward,
                    reward_end(user_start_day_index as int, total_days as int),
                    false,
                ) as u64,
                rewards_sum(
                    user_staked_amount,
                    user_start_day_index as int,
                    user_boosted_days@,
                    staked_amounts@,
                    daily_staking_reward,
                    reward_end(user_start_day_index as int, total_days as int),
                    true,
                ) as u64,
            ),
        ),
{
    let ghost start = user_start_day_index as int;
    let ghost bv = user_boosted_days@;
    let ghost av = staked_amounts@;
    let ghost outcome = spec_user_reward(
        user_staked_amount,
        start,
        bv,
        av,
        total_days as int,
        daily_staking_reward,
    );
    let ghost to_spec = reward_end(start, total_days as int);
    let ghost clean = reward_inputs_readable(start, bv, av, to_spec);
    let mut total_staked_at_day_index = match calculate_total_staked_amount_before_day(
        user_start_day_index,
        staked_amounts,
    ) {
        Ok(t) => t,
        Err(e) => {
            return Err(e);
        },
    };
    proof {
        lemma_amounts_sum_nonneg(av, window_start(start), start);
        if clean {
            lemma_amount_get(av, window_start(start));
            assert(total_staked_amount_fits(av, start));
        }
    }
    let last_stake_day = user_start_day_index + DAYS_IN_WINDOW;
    let to = if total_days <= last_stake_day {
        total_days
    } else {
        last_stake_day
    };
    let mut reward: u64 = 0;
    let mut remainings: u64 = 0;
    let mut day_index: u64 = user_start_day_index;
    while day_index < to
        invariant
            user_boosted_days@ == bv,
            staked_amounts@ == av,
            bv.wf(),
            av.wf(),
            to == to_spec,
            start == user_start_day_index,
            start <= day_index,
            day_index <= to || day_index == start,
            outcome is Some,
            outcome == spec_user_reward(
                user_staked_amount,
                user_start_day_index as int,
                user_boosted_days@,
                staked_amounts@,
                total_days as int,
                daily_staking_reward,
            ),
            reward_steps(
                user_staked_amount,
                start,
                bv,
                av,
                daily_staking_reward,
                day_index as int,
                to as int,
                total_staked_at_day_index as int,
                reward as int,
                remainings as int,
            ) == outcome,
            clean == reward_inputs_readable(start, bv, av, to_spec),
            to_spec == reward_end(user_start_day_index as int, total_days as int),
            clean ==> total_staked_at_day_index == amounts_sum(
                av,
                window_start(day_index as int),
                day_index as int,
            ),
            clean ==> reward == rewards_sum(
                user_staked_amount,
                start,
                bv,
                av,
                daily_staking_reward,
                day_index as int,
                false,
            ),
            clean ==> remainings == rewards_sum(
                user_staked_amount,
                start,
                bv,
                av,
                daily_staking_reward,
                day_index as int,
                true,
            ),
        decreases to - day_index,
    {
        let ghost day = day_index as int;
        proof {
            lemma_amount_get(av, day);
        }
        let staked_amount = match staked_amounts.get_at(day_index) {
            Ok(x) => x,
            Err(e) => {
                return Err(e);
            },
        };
        let total1: u64 = total_staked_at_day_index + staked_amount;
        let boosted_day_index = day_index - user_start_day_index;
        proof {
            if clean {
                assert(bv.get::<bool>(boosted_day_index as int) is Ok);
            }
        }
        let boost = match user_boosted_days.get_at(boosted_day_index) {
            Ok(b) => b,
            Err(e) => {
                assert(av.get::<u64>(day) == Ok::<u64, ErrorCode>(staked_amount));
                assert(bv.get::<bool>(day - start) == Err::<bool, ErrorCode>(e));
                assert(reward_steps(
                    user_staked_amount,
                    start,
                    bv,
                    av,
                    daily_staking_reward,
                    day,
                    to as int,
                    total_staked_at_day_index as int,
                    reward as int,
                    remainings as int,
                ) == Some(Err::<(u64, u64), ErrorCode>(e)));
                return Err(e);
            },
        };
        let increase = day_reward_increase(user_staked_amount, daily_staking_reward, boost, total1);
        if !boost {
            remainings = remainings + increase;
        }
        reward = reward + increase;
        proof {
            if clean {
                assert(boost_at(bv, day - start) == boost);
                assert(total1 == window_total(av, day));
            }
        }
        if day_index + 1 >= DAYS_IN_WINDOW {
            let leaving_index = day_index + 1 - DAYS_IN_WINDOW;
            proof {
                lemma_amount_get(av, leaving_index as int);
            }
            let leaving = match staked_amounts.get_at(leaving_index) {
                Ok(x) => x,
                Err(e) => {
                    return Err(e);
                },
            };
            total_staked_at_day_index = total1 - leaving;
            proof {
                if clean {
                    lemma_amounts_sum_front(av, window_start(day), day + 1);
                }
            }
        } else {
            total_staked_at_day_index = total1;
        }
        day_index = day_index + 1;
    }
    Ok((reward, remainings))
}

#[verifier::external_type_specification]
#[verifier::external_body]
pub struct ExProgramError(ProgramError);

/// Reads the `unix_timestamp` of `solana_program::clock::Clock::get()`, the
/// clock sysvar. Nothing is claimed of the time read; off-chain the sysvar
/// is unavailable and an error comes back.
#[verifier::external_body]
fn clock_unix_timestamp() -> (r: Result<i64, ProgramError>) {
    solana_program::clock::Clock::get().map(|clock| clock.unix_timestamp)
}

/// The day that a unix timestamp falls in.
pub open spec fn spec_day_of_timestamp(unix_timestamp: i64) -> u64 {
    ((unix_timestamp as u64) / SEC_PER_DAY) as u64
}

/// The day that a unix timestamp falls in.
pub fn day_of_timestamp(unix_timestamp: i64) -> (r: u64)
    ensures
        r == spec_day_of_timestamp(unix_timestamp),
{
    (unix_timestamp as u64) / SEC_PER_DAY
}

/// The current day by the cluster's clock.
pub fn current_day() -> (r: Result<u64, ErrorCode>)
    ensures
        r matches Ok(day) ==> exists|ts: i64| day == #[trigger] spec_day_of_timestamp(ts),
        r is Err ==> r == Err::<u64, ErrorCode>(ErrorCode::ClockUnavailable),
{
    match clock_unix_timestamp() {
        Ok(ts) => Ok(day_of_timestamp(ts)),
        Err(_) => Err(ErrorCode::ClockUnavailable),
    }
}

} // verus!
