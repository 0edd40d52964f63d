use vstd::prelude::*;
use vstd::arithmetic::div_mod::{lemma_div_multiples_vanish_quotient, lemma_fundamental_div_mod};
use crate::staking::utils::spec_daily_staking_reward;

verus! {

/// The free amount handed out after `n` days of paying out, from day
/// `first_day` on, the daily share of unspent rewards that each day's reward
/// computation gives, starting from nothing handed out.
pub open spec fn free_amount_paid(
    first_day: int,
    total_days: int,
    unspent_amount: int,
    reward_tokens_amount: int,
    n: nat,
) -> int
    decreases n,
{
    if n == 0 {
        0
    } else {
        let paid = free_amount_paid(
            first_day,
            total_days,
            unspent_amount,
            reward_tokens_amount,
            (n - 1) as nat,
        );
        paid + spec_daily_staking_reward(
            first_day + n - 1,
            total_days,
            unspent_amount,
            paid,
            reward_tokens_amount,
        ).1
    }
}

/// `c / e <= a / b` where `c / e <= a / b` holds of the fractions.
proof fn lemma_floor_le(a: int, b: int, c: int, e: int)
    requires
        b > 0,
        e > 0,
        a >= 0,
        c >= 0,
        c * b <= a * e,
    ensures
        c / e <= a / b,
{
    lemma_fundamental_div_mod(c, e);
    lemma_fundamental_div_mod(a, b);
    let k = c / e;
    let q = a / b;
    assert(k <= q) by (nonlinear_arith)
        requires
            c == e * k + c % e,
            0 <= c % e,
            a == b * q + a % b,
            a % b < b,
            c * b <= a * e,
            b > 0,
            e > 0,
    {
        assert(k * e * b <= c * b);
        assert(k * b * e <= a * e);
        assert(k * b <= a);
        if k > q {
            assert(k >= q + 1);
            assert(k * b >= (q + 1) * b);
        }
    }
}

/// `a / b <= c / e + 1` where the fraction `a / b` passes `c / e` by at most
/// a half.
proof fn lemma_floor_within_one(a: int, b: int, c: int, e: int)
    requires
        b > 0,
        e > 0,
        a >= 0,
        c >= 0,
        2 * a * e <= 2 * c * b + b * e,
    ensures
        a / b <= c / e + 1,
{
    lemma_fundamental_div_mod(c, e);
    lemma_fundamental_div_mod(a, b);
    let k = c / e;
    let q = a / b;
    assert(q <= k + 1) by (nonlinear_arith)
        requires
            c == e * k + c % e,
            c % e < e,
            a == b * q + a % b,
            0 <= a % b,
            2 * a * e <= 2 * c * b + b * e,
            b > 0,
            e > 0,
    {
        assert(c < (k + 1) * e);
        assert(2 * c * b < 2 * (k + 1) * e * b);
        assert(2 * a * e < (2 * (k + 1) + 1) * b * e);
        assert(2 * a < (2 * k + 3) * b);
        assert(b * q <= a);
        if q >= k + 2 {
            assert(2 * b * q >= (2 * k + 4) * b);
        }
    }
}

/// The daily reward on a day with `d` days left and `free` of the unspent
/// amount not yet handed out, as the reward computation gives it.
spec fn daily_of(r: int, t: int, d: int, free: int) -> int {
    (r * d + free * t) / (d * 2 * t)
}

/// The reward computation on day `day` with `paid` handed out, in terms of
/// the days left and the amount not yet handed out.
proof fn lemma_daily_in_terms(day: int, t: int, u: int, paid: int, r: int)
    requires
        0 <= day < t,
        0 <= paid <= u,
        r >= 0,
    ensures
        spec_daily_staking_reward(day, t, u, paid, r).0 == daily_of(r, t, t - day, u - paid),
        spec_daily_staking_reward(day, t, u, paid, r).1 == (u - paid) / (t - day),
{
    let d = t - day;
    let free = u - paid;
    assert(r * t + (u * t - paid * t) - r * day == r * d + free * t) by (nonlinear_arith)
        requires
            d == t - day,
            free == u - paid,
    ;
    assert(d * 2 * t == d * 2 * t);
    assert(u * t - paid * t == t * free) by (nonlinear_arith)
        requires
            free == u - paid,
    ;
    assert(d * t == t * d) by (nonlinear_arith);
    lemma_div_multiples_vanish_quotient(t, free, d);
}

/// The bounds that hold while the free amount is paid out: with `d0` days
/// left at the start and `d` now, nothing more is handed out than was
/// unspent, the amount left per day left has not fallen, and it is at most
/// one more than its starting quotient.
spec fn paying_out(u: int, d0: int, d: int, free: int) -> bool {
    &&& 0 <= free <= u
    &&& free * d0 >= u * d
    &&& free <= (u / d0 + 1) * d
}

/// One day of paying out keeps the bounds.
proof fn lemma_paying_out_step(u: int, d0: int, d: int, free: int)
    requires
        d >= 2,
        d0 >= d,
        u >= 0,
        paying_out(u, d0, d, free),
    ensures
        paying_out(u, d0, d - 1, free - free / d),
{
    lemma_fundamental_div_mod(free, d);
    let q = free / d;
    let rem = free % d;
    let big_q = u / d0;
    let next = free - q;
    assert(0 <= q <= free) by (nonlinear_arith)
        requires
            free == d * q + rem,
            0 <= rem < d,
            free >= 0,
            d >= 2,
    {
        if q < 0 {
            assert(d * q <= -d);
        }
        if q > free {
            assert(d * q > free);
        }
    }
    assert(next * d0 >= u * (d - 1)) by (nonlinear_arith)
        requires
            free == d * q + rem,
            0 <= rem,
            next == free - q,
            free * d0 >= u * d,
            d >= 2,
            d0 >= 1,
            u >= 0,
    {
        assert(next * d >= free * (d - 1));
        assert(next * d * d0 >= free * (d - 1) * d0);
        assert(free * d0 * (d - 1) >= u * d * (d - 1));
        assert(next * d0 * d >= u * (d - 1) * d);
    }
    assert(next <= (big_q + 1) * (d - 1)) by (nonlinear_arith)
        requires
            free == d * q + rem,
            0 <= rem < d,
            next == free - q,
            free <= (big_q + 1) * d,
            d >= 2,
    {
        assert(next == q * (d - 1) + rem);
        if q <= big_q {
            assert(q * (d - 1) <= big_q * (d - 1));
        } else {
            assert(q * d >= (big_q + 1) * d);
            assert(rem == 0);
            assert(q * d <= (big_q + 1) * d);
            assert(q <= big_q + 1);
            assert(q == big_q + 1);
        }
    }
}

/// The cross products of the two days' fractions differ by a multiple of the
/// difference of their amounts per day left.
proof fn lemma_cross_products(r: int, t: int, d: int, d0: int, free: int, u: int)
    ensures
        (r * d + free * t) * (d0 * 2 * t) - (r * d0 + u * t) * (d * 2 * t) == 2 * (t * t) * (
        free * d0 - u * d),
        (d * 2 * t) * (d0 * 2 * t) == 4 * (t * t) * (d * d0),
{
    let tt = t * t;
    assert((r * d + free * t) * (d0 * 2 * t) == (r * d) * (d0 * 2 * t) + (free * t) * (d0 * 2 * t))
        by (nonlinear_arith);
    assert((r * d0 + u * t) * (d * 2 * t) == (r * d0) * (d * 2 * t) + (u * t) * (d * 2 * t))
        by (nonlinear_arith);
    assert((r * d) * (d0 * 2 * t) == (r * d0) * (d * 2 * t)) by (nonlinear_arith);
    assert((free * t) * (d0 * 2 * t) == 2 * tt * (free * d0)) by (nonlinear_arith)
        requires
            tt == t * t,
    ;
    assert((u * t) * (d * 2 * t) == 2 * tt * (u * d)) by (nonlinear_arith)
        requires
            tt == t * t,
    ;
    assert(2 * tt * (free * d0) - 2 * tt * (u * d) == 2 * tt * (free * d0 - u * d))
        by (nonlinear_arith);
    assert((d * 2 * t) * (d0 * 2 * t) == 4 * tt * (d * d0)) by (nonlinear_arith)
        requires
            tt == t * t,
    ;
}

/// Scaling by a positive factor keeps an order.
proof fn lemma_scaled_le(k: int, x: int, y: int)
    by (nonlinear_arith)
    requires
        k > 0,
        x <= y,
    ensures
        k * x <= k * y,
{
}

/// The daily reward within the bounds of paying out is at least the first
/// day's and at most one more.
proof fn lemma_daily_bounds(r: int, t: int, u: int, d0: int, d: int, free: int)
    requires
        t >= 1,
        d >= 1,
        d0 >= 1,
        r >= 0,
        u >= 0,
        paying_out(u, d0, d, free),
    ensures
        daily_of(r, t, d0, u) <= daily_of(r, t, d, free) <= daily_of(r, t, d0, u) + 1,
{
    let a = r * d + free * t;
    let b = d * 2 * t;
    let c = r * d0 + u * t;
    let e = d0 * 2 * t;
    lemma_fundamental_div_mod(u, d0);
    let big_q = u / d0;
    assert(a >= 0 && c >= 0 && b > 0 && e > 0) by (nonlinear_arith)
        requires
            r >= 0,
            d >= 1,
            d0 >= 1,
            free >= 0,
            u >= 0,
            t >= 1,
            a == r * d + free * t,
            b == d * 2 * t,
            c == r * d0 + u * t,
            e == d0 * 2 * t,
    ;
    let x = free * d0 - u * d;
    lemma_cross_products(r, t, d, d0, free, u);
    assert(t * t >= 1) by (nonlinear_arith)
        requires
            t >= 1,
    ;
    lemma_scaled_le(2 * (t * t), 0, x);
    lemma_floor_le(a, b, c, e);
    assert(x <= d * d0) by (nonlinear_arith)
        requires
            x == free * d0 - u * d,
            free <= (big_q + 1) * d,
            u == d0 * big_q + u % d0,
            0 <= u % d0,
            d >= 1,
            d0 >= 1,
    {
        assert(free * d0 <= (big_q + 1) * d * d0);
        assert(big_q * d0 <= u);
        assert(d * (big_q * d0) <= d * u);
        assert((big_q + 1) * d * d0 == d * (big_q * d0) + d * d0);
    }
    lemma_scaled_le(2 * (t * t), x, d * d0);
    assert(2 * a * e == 2 * (a * e) && 2 * c * b == 2 * (c * b)) by (nonlinear_arith);
    assert(b * e == 2 * (2 * (t * t) * (d * d0))) by (nonlinear_arith)
        requires
            b * e == 4 * (t * t) * (d * d0),
    ;
    lemma_floor_within_one(a, b, c, e);
}

/// The bounds of paying out hold on every day.
proof fn lemma_paying_out_holds(first_day: int, t: int, u: int, r: int, n: nat)
    requires
        0 <= first_day,
        first_day + n < t,
        u >= 0,
        r >= 0,
    ensures
        paying_out(
            u,
            t - first_day,
            t - first_day - n,
            u - free_amount_paid(first_day, t, u, r, n),
        ),
    decreases n,
{
    let d0 = t - first_day;
    if n == 0 {
        lemma_fundamental_div_mod(u, d0);
        assert(u <= (u / d0 + 1) * d0) by (nonlinear_arith)
            requires
                u == d0 * (u / d0) + u % d0,
                u % d0 < d0,
        ;
    } else {
        let m = (n - 1) as nat;
        lemma_paying_out_holds(first_day, t, u, r, m);
        let paid = free_amount_paid(first_day, t, u, r, m);
        let d = t - first_day - m;
        lemma_daily_in_terms(first_day + m, t, u, paid, r);
        lemma_paying_out_step(u, d0, d, u - paid);
        assert(u - free_amount_paid(first_day, t, u, r, n) == (u - paid) - (u - paid) / d);
    }
}

/// While the unspent rewards are paid out day by day from day `first_day`,
/// each day's computation handing out its daily share, the daily reward
/// never falls below the first day's and never rises more than one token
/// above it; and the free amount handed out never passes the unspent amount,
/// so that each day's computation is defined.
pub proof fn lemma_daily_reward_steady(
    first_day: int,
    total_days: int,
    unspent_amount: int,
    reward_tokens_amount: int,
    n: nat,
)
    requires
        0 <= first_day,
        first_day + n < total_days,
        unspent_amount >= 0,
        reward_tokens_amount >= 0,
    ensures
        ({
            let paid = free_amount_paid(
                first_day,
                total_days,
                unspent_amount,
                reward_tokens_amount,
                n,
            );
            let first = spec_daily_staking_reward(
                first_day,
                total_days,
                unspent_amount,
                0,
                reward_tokens_amount,
            ).0;
            let today = spec_daily_staking_reward(
                first_day + n,
                total_days,
                unspent_amount,
                paid,
                reward_tokens_amount,
            ).0;
            &&& 0 <= paid <= unspent_amount
            &&& first <= today <= first + 1
        }),
{
    let t = total_days;
    let u = unspent_amount;
    let r = reward_tokens_amount;
    let d0 = t - first_day;
    lemma_paying_out_holds(first_day, t, u, r, n);
    let paid = free_amount_paid(first_day, t, u, r, n);
    let d = t - first_day - n;
    lemma_daily_in_terms(first_day, t, u, 0, r);
    lemma_daily_in_terms(first_day + n, t, u, paid, r);
    lemma_daily_bounds(r, t, u, d0, d, u - paid);
}

} // verus!
