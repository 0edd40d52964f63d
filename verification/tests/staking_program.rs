use chill::pubkey::Pubkey;
use chill::staking::error::ErrorCode;
use chill::staking::lazy_vector::LazyVector;
use chill::staking::program::{
    add_reward_tokens, boost, claim, initialize, redeem_remaining_reward_tokens, stake,
    update_state_accounts, view_boosted_days_list, view_daily_staking_reward,
    view_staking_amount_in_day, InitializeArgs,
};
use chill::staking::state::{StakingInfo, UserInfo, DAYS_IN_WINDOW, SEC_PER_DAY};
use chill::staking::utils::calculate_daily_staking_reward;

const START_DAY: u64 = 100;
const TOKENS: Pubkey = Pubkey([20; 32]);
const VAULT: Pubkey = Pubkey([21; 32]);
const AUTHORITY: Pubkey = Pubkey([22; 32]);
const RECIPIENT: Pubkey = Pubkey([23; 32]);
const INFO: Pubkey = Pubkey([24; 32]);
const END_DAY: u64 = 110;

fn staking_accounts() -> (StakingInfo, LazyVector<u64>) {
    let args = InitializeArgs {
        start_time: START_DAY * SEC_PER_DAY + 5,
        end_time: END_DAY * SEC_PER_DAY + 10,
    };
    let (info, authority) = initialize(&args, Pubkey([1; 32]), Pubkey([2; 32]), 254);
    assert_eq!(authority.bump, 254);
    let data = vec![0u8; StakingInfo::LEN + 8 * (END_DAY - START_DAY) as usize];
    let amounts = info.get_vector(data).unwrap();
    (info, amounts)
}

fn user_accounts() -> (UserInfo, LazyVector<bool>) {
    let user = UserInfo::zeroed();
    let data = vec![0u8; UserInfo::LEN + DAYS_IN_WINDOW as usize];
    let days = user.get_vector(data).unwrap();
    (user, days)
}

#[test]
fn initialize_sets_interval_in_days() {
    let args = InitializeArgs { start_time: 3 * SEC_PER_DAY + 1, end_time: 13 * SEC_PER_DAY - 1 };
    assert_eq!(args.start_day(), 3);
    assert_eq!(args.end_day(), 12);
    assert_eq!(args.days_amount(), 9);
    let (info, _) = initialize(&args, Pubkey([7; 32]), Pubkey([8; 32]), 1);
    assert_eq!(info.primary_wallet.0, [7; 32]);
    assert_eq!(info.mint.0, [8; 32]);
    assert_eq!(info.start_day, 3);
    assert_eq!(info.end_day, 12);
    assert_eq!(info.total_days(), 9);
    assert_eq!(info.reward_tokens_amount, 0);
}

#[test]
fn reward_tokens_added_and_redeemed() {
    let (mut info, _) = staking_accounts();
    let t = add_reward_tokens(&mut info, TOKENS, VAULT, AUTHORITY, 500, START_DAY).unwrap();
    assert_eq!((t.from, t.to, t.authority, t.amount, t.signer_seeds), (TOKENS, VAULT, AUTHORITY, 500, None));
    assert!(add_reward_tokens(&mut info, TOKENS, VAULT, AUTHORITY, 250, END_DAY - 1).is_ok());
    assert_eq!(info.reward_tokens_amount, 750);
    assert_eq!(add_reward_tokens(&mut info, TOKENS, VAULT, AUTHORITY, 1, END_DAY).err(), Some(ErrorCode::StakingIsFinished));
    assert_eq!(info.reward_tokens_amount, 750);

    assert_eq!(redeem_remaining_reward_tokens(&mut info, INFO, VAULT, 740, AUTHORITY, 254, RECIPIENT, END_DAY - 1).err(), Some(ErrorCode::StakingIsNotFinished));
    assert_eq!(info.reward_tokens_amount, 750);
    // the whole balance of the staking token account goes back
    let t = redeem_remaining_reward_tokens(&mut info, INFO, VAULT, 740, AUTHORITY, 254, RECIPIENT, END_DAY)
        .unwrap();
    assert_eq!((t.from, t.to, t.authority, t.amount), (VAULT, RECIPIENT, AUTHORITY, 740));
    assert_eq!(t.signer_seeds, Some((INFO, 254)));
    assert_eq!(info.reward_tokens_amount, 0);
}

#[test]
fn stake_boost_and_claim() {
    let (mut info, mut amounts) = staking_accounts();
    let (mut user, mut days) = user_accounts();
    let user_key = Pubkey([3; 32]);
    let info_key = Pubkey([4; 32]);

    // A first stake starts on its day and is added to that day's amount.
    let t = stake(&mut user, &mut info, &mut amounts, &mut days, user_key, info_key, 9, TOKENS, VAULT, 1000, 102)
        .unwrap();
    assert_eq!((t.from, t.to, t.authority, t.amount, t.signer_seeds), (TOKENS, VAULT, user_key, 1000, None));
    assert_eq!(user.user.0, user_key.0);
    assert_eq!(user.staking_info.0, info_key.0);
    assert_eq!(user.bump, 9);
    assert_eq!(user.start_day, Some(102));
    assert_eq!(user.staked_amount, 1000);
    assert_eq!(user.pending_amount, 0);
    assert_eq!(user.total_staked_amount, 1000);
    assert_eq!(info.days_with_new_stake, 1);
    assert_eq!(info.total_stakes_number, 1);
    assert_eq!(info.total_staked_amount, 1000);
    assert_eq!(view_staking_amount_in_day(&amounts, 2), Ok(1000));
    assert_eq!(view_staking_amount_in_day(&amounts, 3), Ok(0));
    assert_eq!(view_staking_amount_in_day(&amounts, 10), Err(ErrorCode::OutOfBounds));

    // While the stake runs, more tokens wait as pending.
    let t = stake(&mut user, &mut info, &mut amounts, &mut days, user_key, info_key, 9, TOKENS, VAULT, 500, 103)
        .unwrap();
    assert_eq!((t.from, t.to, t.authority, t.amount), (TOKENS, VAULT, user_key, 500));
    assert_eq!(user.pending_amount, 500);
    assert_eq!(user.staked_amount, 1000);
    assert_eq!(info.total_stakes_number, 1);
    assert_eq!(stake(&mut user, &mut info, &mut amounts, &mut days, user_key, info_key, 9, TOKENS, VAULT, 0, 103).err(), Some(ErrorCode::AddZeroTokensToPendingAmount));
    assert_eq!(user.pending_amount, 500);

    // Boosting the fourth day of the stake, once.
    assert!(boost(&mut user, &mut info, &amounts, &mut days, 104).is_ok());
    assert_eq!(user.total_boost_amount, 1);
    assert_eq!(info.total_boost_amount, 1);
    assert_eq!(boost(&mut user, &mut info, &amounts, &mut days, 104), Err(ErrorCode::AlreadyBoosted));
    assert_eq!(user.total_boost_amount, 1);
    assert_eq!(
        view_boosted_days_list(&days),
        vec![false, false, true, false, false, false, false]
    );

    // Before the window is over nothing is credited.
    user.daily_staking_reward = 70;
    info.active_stakes_number = 1;
    let (before_user, before_info) = (user, info);
    assert!(update_state_accounts(&mut user, &mut info, 108, &amounts, &days).is_ok());
    assert_eq!(user.start_day, before_user.start_day);
    assert_eq!(user.rewarded_amount, before_user.rewarded_amount);
    assert_eq!(info.active_stakes_number, before_info.active_stakes_number);

    // The window is over: seven days of 70, the boosted day doubled; the
    // unboosted days are recorded as unspent.
    assert_eq!(claim(&mut user, &mut info, &amounts, &days, INFO, VAULT, AUTHORITY, 254, RECIPIENT, 0, 109).err(), Some(ErrorCode::WithdrawZeroTokens));
    let t = claim(&mut user, &mut info, &amounts, &days, INFO, VAULT, AUTHORITY, 254, RECIPIENT, 100, 109).unwrap();
    assert_eq!((t.from, t.to, t.authority, t.amount), (VAULT, RECIPIENT, AUTHORITY, 100));
    assert_eq!(t.signer_seeds, Some((INFO, 254)));
    assert_eq!(user.start_day, None);
    assert_eq!(user.staked_amount, 0);
    assert_eq!(user.pending_amount, 1500);
    assert_eq!(user.rewarded_amount, 560 - 100);
    assert_eq!(user.total_rewarded_amount, 560 + 100);
    assert_eq!(info.active_stakes_number, 0);
    assert_eq!(info.total_unspent_amount, 6 * 70);
    assert_eq!(info.total_rewarded_amount, 560 + 100);

    // With no stake running there is nothing to boost.
    assert_eq!(boost(&mut user, &mut info, &amounts, &mut days, 109), Err(ErrorCode::NoActiveStake));
}

#[test]
fn stake_errors_leave_accounts_unchanged() {
    let (mut info, mut amounts) = staking_accounts();
    let (mut user, mut days) = user_accounts();
    let key = Pubkey([5; 32]);

    assert_eq!(stake(&mut user, &mut info, &mut amounts, &mut days, key, key, 1, TOKENS, VAULT, 10, END_DAY).err(), Some(ErrorCode::StakingIsFinished));
    assert_eq!(stake(&mut user, &mut info, &mut amounts, &mut days, key, key, 1, TOKENS, VAULT, 0, START_DAY).err(), Some(ErrorCode::StakeZeroTokens));
    assert_eq!(stake(&mut user, &mut info, &mut amounts, &mut days, key, key, 1, TOKENS, VAULT, 10, START_DAY - 1).err(), Some(ErrorCode::StakingIsNotStarted));
    assert_eq!(user.user.0, [0; 32]);
    assert_eq!(user.start_day, None);
    assert_eq!(info.total_stakes_number, 0);
    assert_eq!(view_staking_amount_in_day(&amounts, 0), Ok(0));
}

#[test]
fn second_stake_on_a_day_keeps_new_stake_days() {
    let (mut info, mut amounts) = staking_accounts();
    let (mut first, mut first_days) = user_accounts();
    let (mut second, mut second_days) = user_accounts();
    let key = Pubkey([6; 32]);
    assert!(stake(&mut first, &mut info, &mut amounts, &mut first_days, key, key, 1, TOKENS, VAULT, 300, 101)
        .is_ok());
    assert!(stake(&mut second, &mut info, &mut amounts, &mut second_days, key, key, 1, TOKENS, VAULT, 200, 101)
        .is_ok());
    assert_eq!(view_staking_amount_in_day(&amounts, 1), Ok(500));
    assert_eq!(info.days_with_new_stake, 1);
    assert_eq!(info.total_stakes_number, 2);
    assert_eq!(info.total_staked_amount, 500);
}

#[test]
fn daily_reward_view_updates_once_a_day() {
    let (mut info, _) = staking_accounts();
    info.reward_tokens_amount = 1_000_000;
    assert_eq!(view_daily_staking_reward(&mut info, START_DAY - 1), Err(ErrorCode::StakingIsNotStarted));
    let expected = calculate_daily_staking_reward(3, END_DAY - START_DAY, 0, 0, 1_000_000);
    assert_eq!(view_daily_staking_reward(&mut info, START_DAY + 3), Ok(expected.0));
    assert_eq!(info.last_update_day, START_DAY + 3);
    assert_eq!(info.last_daily_reward, expected.0);
    info.reward_tokens_amount = 5;
    assert_eq!(view_daily_staking_reward(&mut info, START_DAY + 3), Ok(expected.0));
}

#[test]
fn staking_state_checks() {
    let (info, _) = staking_accounts();
    assert_eq!(info.assert_not_finished(END_DAY - 1), Ok(()));
    assert_eq!(info.assert_not_finished(END_DAY), Err(ErrorCode::StakingIsFinished));
    assert_eq!(info.assert_finished(END_DAY), Ok(()));
    assert_eq!(info.assert_finished(START_DAY), Err(ErrorCode::StakingIsNotFinished));
    assert_eq!(info.day_index(START_DAY + 4), Ok(4));
    assert_eq!(info.day_index(START_DAY - 1), Err(ErrorCode::StakingIsNotStarted));
    assert_eq!(info.get_vector(vec![0u8; StakingInfo::LEN + 79]).err(), Some(ErrorCode::WrongVectorSize));

    let mut user = UserInfo::zeroed();
    assert!(!user.has_active_stake());
    assert!(!user.has_ended_stake(50));
    user.start_day = Some(10);
    assert!(user.has_active_stake());
    assert!(!user.has_ended_stake(16));
    assert!(user.has_ended_stake(17));
    assert_eq!(user.get_vector(vec![0u8; UserInfo::LEN + 6]).err(), Some(ErrorCode::WrongVectorSize));
}
