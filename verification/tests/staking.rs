use chill::staking::error::ErrorCode;
use chill::staking::lazy_vector::LazyVector;
use chill::staking::utils::{
    calculate_daily_staking_reward, calculate_total_staked_amount_before_day,
    calculate_unspent_amount_from_days_with_no_reward, calculate_user_reward_with_unspent_rewards,
    current_day, day_of_timestamp,
};

fn pseudo_random(seed: &mut u64) -> u64 {
    *seed = seed.wrapping_mul(6364136223846793005).wrapping_add(1442695040888963407);
    *seed ^ (*seed >> 29)
}

#[test]
fn daily_staking_reward() {
    let start_day = 500;
    let end_day = start_day + 100;
    let total_days = end_day - start_day;

    let reward_tokens_amount = 100_000_000;

    let mut total_rewarded_free_amount = 0;
    for i in 0..total_days {
        let (daily_reward, rewarded_free_amount) = calculate_daily_staking_reward(
            i,
            total_days,
            0,
            total_rewarded_free_amount,
            reward_tokens_amount,
        );

        total_rewarded_free_amount += rewarded_free_amount;
        assert_eq!(daily_reward, 500_000);
    }

    // 1 day without stake
    // 100_000_000 / 99 / 2 = 505050
    let mut total_rewarded_free_amount = 0;
    for i in 1..total_days {
        let (daily_reward, rewarded_free_amount) = calculate_daily_staking_reward(
            i,
            total_days,
            1_000_000,
            total_rewarded_free_amount,
            reward_tokens_amount,
        );

        total_rewarded_free_amount += rewarded_free_amount;
        assert_eq!(50505, daily_reward / 10);
    }

    // 2 days without stake
    // 100_000_000 / 98 / 2 = 510204
    let mut total_rewarded_free_amount = 0;
    for i in 2..total_days {
        let (daily_reward, rewarded_free_amount) = calculate_daily_staking_reward(
            i,
            total_days,
            2_000_000,
            total_rewarded_free_amount,
            reward_tokens_amount,
        );

        total_rewarded_free_amount += rewarded_free_amount;
        assert_eq!(51020, daily_reward / 10);
    }

    // 10 days without stake
    // 100_000_000 / 90 / 2 = 555555
    let mut total_rewarded_free_amount = 0;
    for i in (10..total_days).step_by(2) {
        let (daily_reward, rewarded_free_amount) = calculate_daily_staking_reward(
            i,
            total_days,
            10_000_000,
            total_rewarded_free_amount,
            reward_tokens_amount,
        );

        total_rewarded_free_amount += 2 * rewarded_free_amount;
        assert_eq!(55555, daily_reward / 10);
    }

    // 1 day without boost
    // 99_500_000 / 99 / 2 = 502525
    let mut total_rewarded_free_amount = 0;
    for i in 1..total_days {
        let (daily_reward, rewarded_free_amount) = calculate_daily_staking_reward(
            i,
            total_days,
            500_000,
            total_rewarded_free_amount,
            reward_tokens_amount,
        );

        total_rewarded_free_amount += rewarded_free_amount;
        assert_eq!(50252, daily_reward / 10);
    }

    // 2 days without boost
    // 99_000_000 / 98 / 2 = 505102
    let mut total_rewarded_free_amount = 0;
    for i in 2..total_days {
        let (daily_reward, rewarded_free_amount) = calculate_daily_staking_reward(
            i,
            total_days,
            1_000_000,
            total_rewarded_free_amount,
            reward_tokens_amount,
        );

        total_rewarded_free_amount += rewarded_free_amount;
        assert_eq!(50510, daily_reward / 10);
    }

    // 1 day without stake
    // 1 days without boost
    // 99_500_000 / 98 / 2 = 507653
    let mut total_rewarded_free_amount = 0;
    for i in 2..total_days {
        let (daily_reward, rewarded_free_amount) = calculate_daily_staking_reward(
            i,
            total_days,
            1_500_000,
            total_rewarded_free_amount,
            reward_tokens_amount,
        );

        total_rewarded_free_amount += rewarded_free_amount;
        assert_eq!(50765, daily_reward / 10);
    }
}

#[test]
fn total_staked_amount_before() {
    let staked_amounts_buffer = vec![0u8; 144];
    let mut staked_amounts = LazyVector::new(0, 18, 8, staked_amounts_buffer).unwrap();

    staked_amounts.set(0, &1000).unwrap();
    staked_amounts.set(2, &2000).unwrap();
    staked_amounts.set(4, &2500).unwrap();
    staked_amounts.set(7, &2000).unwrap();
    staked_amounts.set(9, &5000).unwrap();
    staked_amounts.set(10, &200).unwrap();

    let expected_values = vec![
        0, 1000, 1000, 3000, 3000, 5500, 5500, 4500, 6500, 4500, 9500, 7200, 7200, 7200, 5200,
        5200, 200, 0, 0,
    ];

    for (index, expected_value) in expected_values.iter().enumerate() {
        let actual_value =
            calculate_total_staked_amount_before_day(index as u64, &staked_amounts).unwrap();

        assert_eq!(actual_value, *expected_value, "Index: {}", index);
    }
}

#[test]
fn user_reward() {
    let total_days = 12;
    let daily_staking_reward = 100;

    let staked_amounts_buffer = vec![0u8; 96];
    let mut staked_amounts = LazyVector::new(0, 12, 8, staked_amounts_buffer).unwrap();

    // User 1 staked 500 tokens in day 0
    staked_amounts.set(0, &500).unwrap();

    // User 2 staked 1500 tokens in day 2
    // User 3 staked 500 tokens in day 2
    staked_amounts.set(2, &2000).unwrap();

    // User 4 staked 2500 tokens in day 4
    staked_amounts.set(4, &2500).unwrap();

    // User 5 staked 1000 tokens in day 8
    staked_amounts.set(8, &1000).unwrap();

    let boosted_days_buffer = vec![0u8; 7];
    let mut boosted_days = LazyVector::new(0, 7, 1, boosted_days_buffer).unwrap();

    boosted_days.set(0, &true).unwrap();
    boosted_days.set(1, &true).unwrap();
    boosted_days.set(3, &true).unwrap();
    boosted_days.set(4, &true).unwrap();
    boosted_days.set(6, &true).unwrap();

    let (reward, remainings) = calculate_user_reward_with_unspent_rewards(
        500,
        0,
        &boosted_days,
        &staked_amounts,
        total_days,
        daily_staking_reward,
    )
    .unwrap();

    assert_eq!(reward, 510);
    assert_eq!(remainings, 30);

    boosted_days.clear();

    let (reward, remainings) = calculate_user_reward_with_unspent_rewards(
        1500,
        2,
        &boosted_days,
        &staked_amounts,
        total_days,
        daily_staking_reward,
    )
    .unwrap();

    assert_eq!(reward, 270);
    assert_eq!(remainings, 270);

    let (reward, remainings) = calculate_user_reward_with_unspent_rewards(
        500,
        2,
        &boosted_days,
        &staked_amounts,
        total_days,
        daily_staking_reward,
    )
    .unwrap();

    assert_eq!(reward, 90);
    assert_eq!(remainings, 90);

    let (reward, remainings) = calculate_user_reward_with_unspent_rewards(
        2500,
        4,
        &boosted_days,
        &staked_amounts,
        total_days,
        daily_staking_reward,
    )
    .unwrap();

    assert_eq!(reward, 392);
    assert_eq!(remainings, 392);

    let (reward, remainings) = calculate_user_reward_with_unspent_rewards(
        1000,
        8,
        &boosted_days,
        &staked_amounts,
        total_days,
        daily_staking_reward,
    )
    .unwrap();

    assert_eq!(reward, 174);
    assert_eq!(remainings, 174);

    // Reward after staking period
    let (reward, remainings) = calculate_user_reward_with_unspent_rewards(
        1000,
        12,
        &boosted_days,
        &staked_amounts,
        total_days,
        daily_staking_reward,
    )
    .unwrap();
    assert_eq!(reward, 0);
    assert_eq!(remainings, 0);
}

#[test]
fn lazy_vector_with_shift() {
    let mut seed = 7u64;
    let buffer = vec![0u8; 1024];
    let from = 924;

    // 1024 - 924 = 100
    // 100 / 8 = 12
    let vec = (0..12)
        .map(|_| pseudo_random(&mut seed) % u64::MAX)
        .collect::<Vec<_>>();

    assert!(LazyVector::<u64>::new(from, 13, 8, buffer.clone()).is_err());
    let mut lazy_vector = LazyVector::new(from, 12, 8, buffer).unwrap();

    for (index, item) in vec.iter().enumerate() {
        lazy_vector.set(index, item).unwrap();
    }

    for (index, item) in vec.iter().enumerate() {
        assert_eq!(*item, lazy_vector.get(index).unwrap())
    }

    let buffer = lazy_vector.into_data();
    for (index, item) in vec.iter().enumerate() {
        let value = u64::from_le_bytes(
            buffer[from + 8 * index..from + 8 * (index + 1)]
                .try_into()
                .unwrap(),
        );

        assert_eq!(*item, value)
    }
}

#[test]
fn clear() {
    let vector: Vec<u8> = vec![0, 1, 2, 3, 4, 5];

    let mut lazy_vector = LazyVector::<u8>::new(2, 3, 1, vector).unwrap();
    assert_eq!(lazy_vector.get(0).unwrap(), 2);
    assert_eq!(lazy_vector.get(1).unwrap(), 3);
    assert_eq!(lazy_vector.get(2).unwrap(), 4);
    assert!(lazy_vector.get(3).is_err());

    lazy_vector.clear();
    assert_eq!(lazy_vector.get(0).unwrap(), 0);
    assert_eq!(lazy_vector.get(1).unwrap(), 0);
    assert_eq!(lazy_vector.get(2).unwrap(), 0);
    assert!(lazy_vector.get(3).is_err());

    let vector = lazy_vector.into_data();
    assert_eq!(vector[0], 0);
    assert_eq!(vector[1], 1);
    assert_eq!(vector[2], 0);
    assert_eq!(vector[3], 0);
    assert_eq!(vector[4], 0);
    assert_eq!(vector[5], 5);
}

#[test]
fn lazy_vector_errors() {
    // slots that do not fit
    assert_eq!(
        LazyVector::<u64>::new(0, 2, 8, vec![0u8; 15]).err(),
        Some(ErrorCode::WrongVectorSize)
    );
    // an element that does not fill its slot
    let mut v = LazyVector::<u64>::new(0, 2, 9, vec![0u8; 18]).unwrap();
    assert_eq!(v.set(0, &5), Err(ErrorCode::RequireEqViolated));
    assert_eq!(v.set(2, &5), Err(ErrorCode::OutOfBounds));
    // slots too narrow to read an element
    let v = LazyVector::<u64>::new(0, 2, 4, vec![0u8; 8]).unwrap();
    assert_eq!(v.get(0), Err(ErrorCode::ElementDidNotDeserialize));
    // bytes that are no bool
    let v = LazyVector::<bool>::new(0, 2, 1, vec![1u8, 2u8]).unwrap();
    assert_eq!(v.get(0), Ok(true));
    assert_eq!(v.get(1), Err(ErrorCode::ElementDidNotDeserialize));
}

#[test]
fn set_keeps_other_slots() {
    let mut v = LazyVector::<u64>::new(3, 3, 8, vec![0xAAu8; 30]).unwrap();
    v.set(1, &0x0102030405060708).unwrap();
    assert_eq!(v.get(1), Ok(0x0102030405060708));
    assert_eq!(v.get(0), Ok(0xAAAAAAAAAAAAAAAA));
    assert_eq!(v.get(2), Ok(0xAAAAAAAAAAAAAAAA));
    let data = v.into_data();
    assert_eq!(&data[0..3], &[0xAA, 0xAA, 0xAA]);
    assert_eq!(&data[11..19], &[8, 7, 6, 5, 4, 3, 2, 1]);
    assert_eq!(&data[27..30], &[0xAA, 0xAA, 0xAA]);
}

#[test]
fn total_staked_amount_errors() {
    let v = LazyVector::<u64>::new(0, 3, 8, vec![0u8; 24]).unwrap();
    assert_eq!(calculate_total_staked_amount_before_day(5, &v), Err(ErrorCode::OutOfBounds));
    assert_eq!(calculate_total_staked_amount_before_day(3, &v), Ok(0));
    let narrow = LazyVector::<u64>::new(0, 3, 4, vec![0u8; 12]).unwrap();
    assert_eq!(
        calculate_total_staked_amount_before_day(2, &narrow),
        Err(ErrorCode::ElementDidNotDeserialize)
    );
}

#[test]
fn user_reward_window_totals() {
    // one stake of 300 on day 0 alone in a 10-day interval, boosted on day 1
    let mut amounts = LazyVector::<u64>::new(0, 10, 8, vec![0u8; 80]).unwrap();
    amounts.set(0, &300).unwrap();
    let mut boosted = LazyVector::<bool>::new(0, 7, 1, vec![0u8; 7]).unwrap();
    boosted.set(1, &true).unwrap();
    let (reward, remainings) =
        calculate_user_reward_with_unspent_rewards(300, 0, &boosted, &amounts, 10, 70).unwrap();
    // every day the whole window is the user's: 70 a day, 140 on the boosted day
    assert_eq!(reward, 6 * 70 + 140);
    assert_eq!(remainings, 6 * 70);
    // a window that runs past the end of the amounts
    let mut short = LazyVector::<u64>::new(0, 5, 8, vec![0u8; 40]).unwrap();
    short.set(0, &300).unwrap();
    assert_eq!(
        calculate_user_reward_with_unspent_rewards(300, 0, &boosted, &short, 20, 70),
        Err(ErrorCode::OutOfBounds)
    );
}

#[test]
fn unspent_amount_from_days_with_no_reward() {
    assert_eq!(calculate_unspent_amount_from_days_with_no_reward(3, 100, 100_000_000), 3_000_000);
    assert_eq!(calculate_unspent_amount_from_days_with_no_reward(1, 3, 10), 3);
    // the product passes 64 bits and the quotient keeps only its low 64 bits
    assert_eq!(
        calculate_unspent_amount_from_days_with_no_reward(u64::MAX, 1, 2),
        u64::MAX - 1
    );
}

#[test]
fn daily_reward_exact_values() {
    // (R*T + U*T - F*T - R*d) / (2*(T-d)*T) and (U*T - F*T) / ((T-d)*T)
    assert_eq!(calculate_daily_staking_reward(0, 10, 0, 0, 1000), (50, 0));
    assert_eq!(calculate_daily_staking_reward(3, 10, 700, 0, 1000), (100, 100));
    // near the top of the 64-bit range
    let r = calculate_daily_staking_reward(0, 1, u64::MAX, 0, u64::MAX);
    assert_eq!(r, (u64::MAX, u64::MAX));
}

#[test]
fn timestamps_to_days() {
    assert_eq!(day_of_timestamp(0), 0);
    assert_eq!(day_of_timestamp(86_399), 0);
    assert_eq!(day_of_timestamp(86_400 * 19_000 + 5), 19_000);
}

#[test]
fn clock_off_chain() {
    // outside a validator the clock sysvar cannot be read
    assert_eq!(current_day(), Err(ErrorCode::ClockUnavailable));
}

#[test]
fn daily_reward_within_one_of_the_first_day() {
    for &(total_days, first_day, unspent, reward) in &[
        (7u64, 0u64, 10u64, 3u64),
        (7, 2, 11, 100),
        (30, 5, 1_000, 7_777),
        (100, 1, 1_000_000, 100_000_000),
        (13, 12, 5, 1),
    ] {
        let first = calculate_daily_staking_reward(first_day, total_days, unspent, 0, reward).0;
        let mut paid = 0;
        for day in first_day..total_days {
            assert!(paid <= unspent);
            let (daily, share) = calculate_daily_staking_reward(day, total_days, unspent, paid, reward);
            assert!(first <= daily && daily <= first + 1, "day {} of {:?}", day, (total_days, first_day, unspent, reward));
            paid += share;
        }
    }
}

#[test]
fn error_numbers() {
    assert_eq!(ErrorCode::WrongVectorSize.number(), 6000);
    assert_eq!(ErrorCode::WithdrawZeroTokens.number(), 6007);
    assert_eq!(ErrorCode::RequireEqViolated.number(), 2501);
    assert_eq!(ErrorCode::RequireEqViolated.message(), "A require_eq expression was violated");
    assert_eq!(ErrorCode::ClockUnavailable.number(), 6012);
}

#[test]
fn window_totals_slide_by_a_day() {
    let amounts: Vec<u64> = vec![5, 0, 7, 1, 9, 3, 4, 8, 2, 6, 11];
    let mut data = vec![0u8; 8 * amounts.len()];
    for (i, a) in amounts.iter().enumerate() {
        data[8 * i..8 * i + 8].copy_from_slice(&a.to_le_bytes());
    }
    let v: LazyVector<u64> = LazyVector::new(0, amounts.len(), 8, data).unwrap();
    for day in 0..amounts.len() as u64 {
        let today = calculate_total_staked_amount_before_day(day, &v).unwrap();
        let next = calculate_total_staked_amount_before_day(day + 1, &v).unwrap();
        let leaving = if day + 1 >= 7 { amounts[(day + 1 - 7) as usize] } else { 0 };
        assert_eq!(next, today + amounts[day as usize] - leaving);
    }
}
