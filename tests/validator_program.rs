use memory_ledger::memory_validator::{
    claim_rewards, initialize, process_validation, register_validator, submit_validation,
    unstake, update_validator_config, ErrorCode, ErrorKind, TokenAccount, Validation, Validator,
    ValidatorConfig, DEFAULT_MIN_STAKE_AMOUNT, DEFAULT_REWARD_PER_VALIDATION,
    DEFAULT_VALIDATION_THRESHOLD,
};
use memory_ledger::pubkey::Pubkey;

fn key(b: u8) -> Pubkey {
    Pubkey::new([b; 32])
}

fn admin() -> Pubkey {
    key(1)
}

fn config_address() -> Pubkey {
    key(2)
}

fn fresh_config() -> ValidatorConfig {
    initialize(admin(), key(3), key(4))
}

fn staking_account(owner: Pubkey) -> TokenAccount {
    TokenAccount { mint: key(3), owner }
}

fn reward_account(owner: Pubkey) -> TokenAccount {
    TokenAccount { mint: key(4), owner }
}

fn register(config: &mut ValidatorConfig, owner: Pubkey, stake: u64) -> Result<Validator, ErrorCode> {
    register_validator(config, config_address(), owner, staking_account(owner), stake)
}

fn registered(config: &mut ValidatorConfig, owner: Pubkey, stake: u64) -> Validator {
    register(config, owner, stake).unwrap()
}

fn claim(config: &ValidatorConfig, validator: &mut Validator, signer: Pubkey) -> Result<u64, ErrorCode> {
    claim_rewards(config, config_address(), validator, signer, reward_account(signer))
}

fn leave(config: &ValidatorConfig, validator: &mut Validator, signer: Pubkey) -> Result<u64, ErrorCode> {
    unstake(config, config_address(), validator, signer, staking_account(signer))
}

fn submit(validator: &mut Validator, owner: Pubkey, score: u8) -> Result<(u64, Validation), ErrorCode> {
    submit_validation(validator, key(50), config_address(), owner, key(60), true, score, 1_700_000_000)
}

#[test]
fn initialize_sets_defaults() {
    let c = fresh_config();
    assert!(c.authority == admin());
    assert!(c.staking_token_mint == key(3));
    assert!(c.reward_token_mint == key(4));
    assert_eq!(c.validator_count, 0);
    assert_eq!(c.min_stake_amount, 1000);
    assert_eq!(c.reward_per_validation, 10);
    assert_eq!(c.validation_threshold, 3);
    assert_eq!(DEFAULT_MIN_STAKE_AMOUNT, 1000);
    assert_eq!(DEFAULT_REWARD_PER_VALIDATION, 10);
    assert_eq!(DEFAULT_VALIDATION_THRESHOLD, 3);
}

#[test]
fn example_scenario_full_lifecycle() {
    let mut c = fresh_config();
    update_validator_config(&mut c, admin(), Some(1000), Some(10), None).unwrap();
    let a = key(10);
    let mut v = register(&mut c, a, 1500).unwrap();
    assert_eq!(v.stake_amount, 1500);
    assert!(v.is_active);
    assert_eq!(c.validator_count, 1);

    let (seq, mut record) = submit(&mut v, a, 7).unwrap();
    assert_eq!(seq, 0);
    assert_eq!(v.validations_performed, 1);
    assert_eq!(record.quality_score, 7);
    assert!(!record.is_processed);

    let paid = process_validation(&c, config_address(), &mut v, key(50), &mut record, admin()).unwrap();
    assert_eq!(paid, 10);
    assert_eq!(v.rewards_earned, 10);
    assert!(record.is_processed);

    let again = process_validation(&c, config_address(), &mut v, key(50), &mut record, admin());
    assert_eq!(again, Err(ErrorCode::AlreadyProcessed));
    assert_eq!(again.unwrap_err().kind(), ErrorKind::InvalidState);
    assert_eq!(v.rewards_earned, 10);

    assert_eq!(claim(&c, &mut v, a), Ok(10));
    assert_eq!(v.rewards_earned, 0);

    assert_eq!(leave(&c, &mut v, a), Ok(1500));
    assert!(!v.is_active);
    assert_eq!(v.stake_amount, 0);

    assert_eq!(submit(&mut v, a, 5).map(|r| r.0), Err(ErrorCode::ValidatorInactive));
    assert_eq!(v.validations_performed, 1);
}

#[test]
fn registration_below_minimum_is_rejected() {
    let mut c = fresh_config();
    let r = register(&mut c, key(10), 999);
    assert_eq!(r.map(|v| v.stake_amount), Err(ErrorCode::InsufficientStake));
    assert_eq!(ErrorCode::InsufficientStake.kind(), ErrorKind::ValidationFailed);
    assert_eq!(c.validator_count, 0);
    let ok = register(&mut c, key(10), 1000).unwrap();
    assert_eq!(ok.stake_amount, 1000);
    assert!(ok.validator_config == config_address());
    assert!(ok.authority == key(10));
    assert_eq!(ok.validations_performed, 0);
    assert_eq!(ok.rewards_earned, 0);
    assert_eq!(ok.last_validation, 0);
}

#[test]
fn validator_count_equals_number_of_registrations() {
    let mut c = fresh_config();
    for i in 0..25u8 {
        let _ = register(&mut c, key(100 + i), 500);
        registered(&mut c, key(100 + i), 2000);
        assert_eq!(c.validator_count, (i as u64) + 1);
    }
    update_validator_config(&mut c, admin(), Some(5), Some(6), Some(7)).unwrap();
    assert_eq!(c.validator_count, 25);
}

#[test]
fn validator_count_overflow_is_an_error() {
    let mut c = fresh_config();
    c.validator_count = u64::MAX - 1;
    registered(&mut c, key(10), 1000);
    assert_eq!(c.validator_count, u64::MAX);
    let r = register(&mut c, key(11), 1000);
    assert_eq!(r.map(|v| v.stake_amount), Err(ErrorCode::ArithmeticOverflow));
    assert_eq!(ErrorCode::ArithmeticOverflow.kind(), ErrorKind::ArithmeticOverflow);
    assert_eq!(c.validator_count, u64::MAX);
}

#[test]
fn sequence_numbers_are_consecutive() {
    let mut c = fresh_config();
    let a = key(10);
    let mut v = registered(&mut c, a, 1000);
    for expected in 0..10u64 {
        let (seq, record) = submit(&mut v, a, 3).unwrap();
        assert_eq!(seq, expected);
        assert_eq!(v.validations_performed, expected + 1);
        assert!(record.validator == key(50));
        assert!(record.validator_config == config_address());
        assert!(record.memory_id == key(60));
    }
    let _ = submit(&mut v, a, 11);
    let (seq, _) = submit(&mut v, a, 0).unwrap();
    assert_eq!(seq, 10);
}

#[test]
fn quality_score_boundaries() {
    let mut c = fresh_config();
    let a = key(10);
    let mut v = registered(&mut c, a, 1000);
    assert!(submit(&mut v, a, 0).is_ok());
    assert!(submit(&mut v, a, 10).is_ok());
    assert_eq!(submit(&mut v, a, 11).map(|r| r.0), Err(ErrorCode::InvalidQualityScore));
    assert_eq!(v.validations_performed, 2);
}

#[test]
fn submission_records_timestamp() {
    let mut c = fresh_config();
    let a = key(10);
    let mut v = registered(&mut c, a, 1000);
    let (_, record) = submit_validation(&mut v, key(50), config_address(), a, key(61), false, 4, -5).unwrap();
    assert_eq!(v.last_validation, -5);
    assert_eq!(record.timestamp, -5);
    assert!(!record.is_valid);
}

#[test]
fn submission_by_stranger_is_unauthorized() {
    let mut c = fresh_config();
    let mut v = registered(&mut c, key(10), 1000);
    assert_eq!(submit(&mut v, key(11), 5).map(|r| r.0), Err(ErrorCode::NotAuthorized));
    assert_eq!(ErrorCode::NotAuthorized.kind(), ErrorKind::Unauthorized);
    assert_eq!(v.validations_performed, 0);
}

#[test]
fn submission_against_other_configuration_is_rejected() {
    let mut c = fresh_config();
    let a = key(10);
    let mut v = registered(&mut c, a, 1000);
    let r = submit_validation(&mut v, key(50), key(99), a, key(60), true, 5, 0);
    assert_eq!(r.map(|r| r.0), Err(ErrorCode::AccountMismatch));
}

#[test]
fn processing_requires_the_administrator() {
    let mut c = fresh_config();
    let a = key(10);
    let mut v = registered(&mut c, a, 1000);
    let (_, mut record) = submit(&mut v, a, 5).unwrap();
    let r = process_validation(&c, config_address(), &mut v, key(50), &mut record, a);
    assert_eq!(r, Err(ErrorCode::NotAuthorized));
    assert!(!record.is_processed);
    assert_eq!(v.rewards_earned, 0);
}

#[test]
fn processing_checks_record_links() {
    let mut c = fresh_config();
    let a = key(10);
    let mut v = registered(&mut c, a, 1000);
    let (_, mut record) = submit(&mut v, a, 5).unwrap();
    let r = process_validation(&c, config_address(), &mut v, key(51), &mut record, admin());
    assert_eq!(r, Err(ErrorCode::AccountMismatch));
    let r = process_validation(&c, key(98), &mut v, key(50), &mut record, admin());
    assert_eq!(r, Err(ErrorCode::AccountMismatch));
    assert!(!record.is_processed);
}

#[test]
fn processing_reward_overflow_is_an_error() {
    let mut c = fresh_config();
    let a = key(10);
    let mut v = registered(&mut c, a, 1000);
    let (_, mut record) = submit(&mut v, a, 5).unwrap();
    v.rewards_earned = u64::MAX - 5;
    let r = process_validation(&c, config_address(), &mut v, key(50), &mut record, admin());
    assert_eq!(r, Err(ErrorCode::ArithmeticOverflow));
    assert!(!record.is_processed);
    assert_eq!(v.rewards_earned, u64::MAX - 5);
}

#[test]
fn inactive_validator_records_can_still_be_processed_and_claimed() {
    let mut c = fresh_config();
    let a = key(10);
    let mut v = registered(&mut c, a, 1200);
    let (_, mut record) = submit(&mut v, a, 9).unwrap();
    assert_eq!(leave(&c, &mut v, a), Ok(1200));
    assert_eq!(leave(&c, &mut v, a), Err(ErrorCode::ValidatorInactive));
    assert_eq!(process_validation(&c, config_address(), &mut v, key(50), &mut record, admin()), Ok(10));
    assert_eq!(claim(&c, &mut v, a), Ok(10));
}

#[test]
fn claim_with_nothing_earned_fails() {
    let mut c = fresh_config();
    let a = key(10);
    let mut v = registered(&mut c, a, 1000);
    assert_eq!(claim(&c, &mut v, a), Err(ErrorCode::NoRewardsToClaim));
    assert_eq!(ErrorCode::NoRewardsToClaim.kind(), ErrorKind::InvalidState);
    v.rewards_earned = 37;
    assert_eq!(claim(&c, &mut v, key(11)), Err(ErrorCode::NotAuthorized));
    assert_eq!(claim(&c, &mut v, a), Ok(37));
    assert_eq!(v.rewards_earned, 0);
}

#[test]
fn unstake_by_stranger_is_unauthorized() {
    let mut c = fresh_config();
    let mut v = registered(&mut c, key(10), 1000);
    assert_eq!(leave(&c, &mut v, key(11)), Err(ErrorCode::NotAuthorized));
    assert!(v.is_active);
    assert_eq!(v.stake_amount, 1000);
}

#[test]
fn update_config_changes_only_given_fields() {
    let mut c = fresh_config();
    update_validator_config(&mut c, admin(), None, Some(25), None).unwrap();
    assert_eq!(c.min_stake_amount, 1000);
    assert_eq!(c.reward_per_validation, 25);
    assert_eq!(c.validation_threshold, 3);
    update_validator_config(&mut c, admin(), Some(0), None, Some(200)).unwrap();
    assert_eq!(c.min_stake_amount, 0);
    assert_eq!(c.reward_per_validation, 25);
    assert_eq!(c.validation_threshold, 200);
    assert_eq!(
        update_validator_config(&mut c, key(9), Some(7), Some(7), Some(7)),
        Err(ErrorCode::NotAuthorized)
    );
    assert_eq!(c.min_stake_amount, 0);
}

#[test]
fn processed_reward_follows_current_configuration() {
    let mut c = fresh_config();
    let a = key(10);
    let mut v = registered(&mut c, a, 1000);
    let (_, mut first) = submit(&mut v, a, 5).unwrap();
    let (_, mut second) = submit(&mut v, a, 6).unwrap();
    assert_eq!(process_validation(&c, config_address(), &mut v, key(50), &mut first, admin()), Ok(10));
    update_validator_config(&mut c, admin(), None, Some(32), None).unwrap();
    assert_eq!(process_validation(&c, config_address(), &mut v, key(50), &mut second, admin()), Ok(32));
    assert_eq!(v.rewards_earned, 42);
}

#[test]
fn error_messages_are_distinct() {
    assert_eq!(ErrorCode::InvalidQualityScore.message(), "Invalid quality score (must be 0-10)");
    assert_eq!(ErrorCode::NotAuthorized.message(), "Not authorized to perform this action");
    assert_ne!(ErrorCode::AlreadyProcessed.message(), ErrorCode::NoRewardsToClaim.message());
}

#[test]
fn keys_compare_by_bytes() {
    let mut bytes = [7u8; 32];
    let a = Pubkey::new(bytes);
    bytes[31] = 8;
    let b = Pubkey::new(bytes);
    assert!(a.same_as(&a));
    assert!(!a.same_as(&b));
    assert!(a != b);
    assert!(a == Pubkey::new([7u8; 32]));
}

#[test]
fn registration_from_wrong_token_account_is_rejected() {
    let mut c = fresh_config();
    let a = key(10);
    let foreign_asset = TokenAccount { mint: key(4), owner: a };
    let r = register_validator(&mut c, config_address(), a, foreign_asset, 5000);
    assert_eq!(r.map(|v| v.stake_amount), Err(ErrorCode::AccountMismatch));
    let someone_elses = staking_account(key(11));
    let r = register_validator(&mut c, config_address(), a, someone_elses, 5000);
    assert_eq!(r.map(|v| v.stake_amount), Err(ErrorCode::AccountMismatch));
    assert_eq!(c.validator_count, 0);
}

#[test]
fn unstake_and_claim_check_token_accounts() {
    let mut c = fresh_config();
    let a = key(10);
    let mut v = registered(&mut c, a, 1000);
    v.rewards_earned = 5;
    assert_eq!(unstake(&c, config_address(), &mut v, a, reward_account(a)), Err(ErrorCode::AccountMismatch));
    assert_eq!(claim_rewards(&c, config_address(), &mut v, a, staking_account(a)), Err(ErrorCode::AccountMismatch));
    assert_eq!(unstake(&c, key(97), &mut v, a, staking_account(a)), Err(ErrorCode::AccountMismatch));
    assert!(v.is_active);
    assert_eq!(v.rewards_earned, 5);
}
