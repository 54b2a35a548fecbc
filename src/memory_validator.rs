use vstd::prelude::*;
use crate::pubkey::Pubkey;

verus! {

/// Minimum stake of a fresh configuration.
pub const DEFAULT_MIN_STAKE_AMOUNT: u64 = 1000;

/// Reward credited per processed validation in a fresh configuration.
pub const DEFAULT_REWARD_PER_VALIDATION: u64 = 10;

/// Quorum threshold of a fresh configuration. It is stored and may be updated,
/// but no settlement step consults it: settlement is an administrator decision
/// taken per validation.
pub const DEFAULT_VALIDATION_THRESHOLD: u8 = 3;

/// Highest quality score that a validation may carry.
pub const MAX_QUALITY_SCORE: u8 = 10;

/// The broad category of an error.
#[derive(Clone, Copy, Debug, PartialEq, Eq, Structural)]
pub enum ErrorKind {
    Unauthorized,
    ValidationFailed,
    InvalidState,
    ArithmeticOverflow,
}

#[derive(Clone, Copy, Debug, PartialEq, Eq, Structural)]
pub enum ErrorCode {
    /// The caller lacks the administrator or ownership capability.
    NotAuthorized,
    /// The stake is below the configured minimum.
    InsufficientStake,
    /// The validator has unstaked.
    ValidatorInactive,
    /// The quality score is above the maximum.
    InvalidQualityScore,
    /// The validation has been processed already.
    AlreadyProcessed,
    /// The validator has no rewards to claim.
    NoRewardsToClaim,
    /// A record does not reference the records it is operated on with.
    AccountMismatch,
    /// A counter or a balance would exceed its range.
    ArithmeticOverflow,
}

impl ErrorCode {
    pub open spec fn spec_kind(self) -> ErrorKind {
        match self {
            ErrorCode::NotAuthorized => ErrorKind::Unauthorized,
            ErrorCode::InsufficientStake => ErrorKind::ValidationFailed,
            ErrorCode::InvalidQualityScore => ErrorKind::ValidationFailed,
            ErrorCode::AccountMismatch => ErrorKind::ValidationFailed,
            ErrorCode::ValidatorInactive => ErrorKind::InvalidState,
            ErrorCode::AlreadyProcessed => ErrorKind::InvalidState,
            ErrorCode::NoRewardsToClaim => ErrorKind::InvalidState,
            ErrorCode::ArithmeticOverflow => ErrorKind::ArithmeticOverflow,
        }
    }

    pub fn kind(&self) -> (k: ErrorKind)
        ensures
            k == self.spec_kind(),
    {
        match self {
            ErrorCode::NotAuthorized => ErrorKind::Unauthorized,
            ErrorCode::InsufficientStake => ErrorKind::ValidationFailed,
            ErrorCode::InvalidQualityScore => ErrorKind::ValidationFailed,
            ErrorCode::AccountMismatch => ErrorKind::ValidationFailed,
            ErrorCode::ValidatorInactive => ErrorKind::InvalidState,
            ErrorCode::AlreadyProcessed => ErrorKind::InvalidState,
            ErrorCode::NoRewardsToClaim => ErrorKind::InvalidState,
            ErrorCode::ArithmeticOverflow => ErrorKind::ArithmeticOverflow,
        }
    }

    pub fn message(&self) -> &'static str {
        match self {
            ErrorCode::NotAuthorized => "Not authorized to perform this action",
            ErrorCode::InsufficientStake => "Insufficient stake amount",
            ErrorCode::ValidatorInactive => "Validator is not active",
            ErrorCode::InvalidQualityScore => "Invalid quality score (must be 0-10)",
            ErrorCode::AlreadyProcessed => "Validation has already been processed",
            ErrorCode::NoRewardsToClaim => "No rewards to claim",
            ErrorCode::AccountMismatch => "Record does not belong to this configuration or validator",
            ErrorCode::ArithmeticOverflow => "Arithmetic overflow",
        }
    }
}

/// The singleton configuration of a deployment.
#[derive(Clone, Copy, Debug)]
pub struct ValidatorConfig {
    pub authority: Pubkey,
    pub staking_token_mint: Pubkey,
    pub reward_token_mint: Pubkey,
    pub validator_count: u64,
    pub min_stake_amount: u64,
    pub reward_per_validation: u64,
    pub validation_threshold: u8,
}

/// The record of one registered validator.
#[derive(Clone, Copy, Debug)]
pub struct Validator {
    pub authority: Pubkey,
    pub stake_amount: u64,
    pub validations_performed: u64,
    pub rewards_earned: u64,
    pub is_active: bool,
    pub last_validation: i64,
    pub validator_config: Pubkey,
}

/// The parts of a token account that the checks read: the asset that it
/// holds and the identity that owns it.
#[derive(Clone, Copy, Debug)]
pub struct TokenAccount {
    pub mint: Pubkey,
    pub owner: Pubkey,
}

/// One submitted attestation. Only `is_processed` ever changes after creation.
#[derive(Clone, Copy, Debug)]
pub struct Validation {
    pub validator: Pubkey,
    pub memory_id: Pubkey,
    pub is_valid: bool,
    pub quality_score: u8,
    pub timestamp: i64,
    pub is_processed: bool,
    pub validator_config: Pubkey,
}

pub open spec fn initial_config(
    authority: Pubkey,
    staking_token_mint: Pubkey,
    reward_token_mint: Pubkey,
) -> ValidatorConfig {
    ValidatorConfig {
        authority,
        staking_token_mint,
        reward_token_mint,
        validator_count: 0,
        min_stake_amount: DEFAULT_MIN_STAKE_AMOUNT,
        reward_per_validation: DEFAULT_REWARD_PER_VALIDATION,
        validation_threshold: DEFAULT_VALIDATION_THRESHOLD,
    }
}

/// The first failing precondition of a registration, if any.
pub open spec fn register_error(
    config: ValidatorConfig,
    authority: Pubkey,
    staking_token_account: TokenAccount,
    stake_amount: u64,
) -> Option<ErrorCode> {
    if !holds_asset(staking_token_account, config.staking_token_mint, authority) {
        Some(ErrorCode::AccountMismatch)
    } else if stake_amount < config.min_stake_amount {
        Some(ErrorCode::InsufficientStake)
    } else if config.validator_count == u64::MAX {
        Some(ErrorCode::ArithmeticOverflow)
    } else {
        None
    }
}

/// Whether `account` holds the asset `mint` and is owned by `owner`.
pub open spec fn holds_asset(account: TokenAccount, mint: Pubkey, owner: Pubkey) -> bool {
    account.mint@ == mint@ && account.owner@ == owner@
}

/// The configuration after one more registration.
pub open spec fn registered_config(config: ValidatorConfig) -> ValidatorConfig {
    ValidatorConfig { validator_count: (config.validator_count + 1) as u64, ..config }
}

/// `after` is `before` with one successful registration applied.
pub open spec fn registers(before: ValidatorConfig, after: ValidatorConfig) -> bool {
    before.validator_count < u64::MAX && after == registered_config(before)
}

pub open spec fn new_validator(
    authority: Pubkey,
    stake_amount: u64,
    config_address: Pubkey,
) -> Validator {
    Validator {
        authority,
        stake_amount,
        validations_performed: 0,
        rewards_earned: 0,
        is_active: true,
        last_validation: 0,
        validator_config: config_address,
    }
}

/// The first failing precondition of a submission, if any.
pub open spec fn submit_error(
    validator: Validator,
    config_address: Pubkey,
    signer: Pubkey,
    quality_score: u8,
) -> Option<ErrorCode> {
    if signer@ != validator.authority@ {
        Some(ErrorCode::NotAuthorized)
    } else if validator.validator_config@ != config_address@ {
        Some(ErrorCode::AccountMismatch)
    } else if !validator.is_active {
        Some(ErrorCode::ValidatorInactive)
    } else if quality_score > MAX_QUALITY_SCORE {
        Some(ErrorCode::InvalidQualityScore)
    } else if validator.validations_performed == u64::MAX {
        Some(ErrorCode::ArithmeticOverflow)
    } else {
        None
    }
}

/// The validator after a submission stamped `timestamp`.
pub open spec fn submitted_validator(validator: Validator, timestamp: i64) -> Validator {
    Validator {
        validations_performed: (validator.validations_performed + 1) as u64,
        last_validation: timestamp,
        ..validator
    }
}

/// `after` is `before` with one successful submission applied.
pub open spec fn submits(before: Validator, after: Validator) -> bool {
    &&& before.validations_performed < u64::MAX
    &&& after == submitted_validator(before, after.last_validation)
}

pub open spec fn new_validation(
    validator_address: Pubkey,
    config_address: Pubkey,
    memory_id: Pubkey,
    is_valid: bool,
    quality_score: u8,
    timestamp: i64,
) -> Validation {
    Validation {
        validator: validator_address,
        memory_id,
        is_valid,
        quality_score,
        timestamp,
        is_processed: false,
        validator_config: config_address,
    }
}

/// Whether the validator and the validation reference each other and the configuration.
pub open spec fn records_linked(
    config_address: Pubkey,
    validator: Validator,
    validator_address: Pubkey,
    validation: Validation,
) -> bool {
    &&& validator.validator_config@ == config_address@
    &&& validation.validator@ == validator_address@
    &&& validation.validator_config@ == config_address@
}

/// The first failing precondition of a settlement, if any.
pub open spec fn process_error(
    config: ValidatorConfig,
    config_address: Pubkey,
    validator: Validator,
    validator_address: Pubkey,
    validation: Validation,
    signer: Pubkey,
) -> Option<ErrorCode> {
    if signer@ != config.authority@ {
        Some(ErrorCode::NotAuthorized)
    } else if !records_linked(config_address, validator, validator_address, validation) {
        Some(ErrorCode::AccountMismatch)
    } else if validation.is_processed {
        Some(ErrorCode::AlreadyProcessed)
    } else if validator.rewards_earned + config.reward_per_validation > u64::MAX {
        Some(ErrorCode::ArithmeticOverflow)
    } else {
        None
    }
}

/// The validator after `reward` has been credited.
pub open spec fn rewarded_validator(validator: Validator, reward: u64) -> Validator {
    Validator { rewards_earned: (validator.rewards_earned + reward) as u64, ..validator }
}

pub open spec fn processed_validation(validation: Validation) -> Validation {
    Validation { is_processed: true, ..validation }
}

pub open spec fn updated_config(
    config: ValidatorConfig,
    min_stake_amount: Option<u64>,
    reward_per_validation: Option<u64>,
    validation_threshold: Option<u8>,
) -> ValidatorConfig {
    ValidatorConfig {
        min_stake_amount: match min_stake_amount {
            Some(v) => v,
            None => config.min_stake_amount,
        },
        reward_per_validation: match reward_per_validation {
            Some(v) => v,
            None => config.reward_per_validation,
        },
        validation_threshold: match validation_threshold {
            Some(v) => v,
            None => config.validation_threshold,
        },
        ..config
    }
}

/// `after` is `before` with some change of its economic parameters applied.
pub open spec fn reconfigures(before: ValidatorConfig, after: ValidatorConfig) -> bool {
    after == updated_config(
        before,
        Some(after.min_stake_amount),
        Some(after.reward_per_validation),
        Some(after.validation_threshold),
    )
}

/// The first failing precondition of an unstake, if any.
pub open spec fn unstake_error(
    config: ValidatorConfig,
    config_address: Pubkey,
    validator: Validator,
    signer: Pubkey,
    staking_token_account: TokenAccount,
) -> Option<ErrorCode> {
    if signer@ != validator.authority@ {
        Some(ErrorCode::NotAuthorized)
    } else if validator.validator_config@ != config_address@ || !holds_asset(
        staking_token_account,
        config.staking_token_mint,
        signer,
    ) {
        Some(ErrorCode::AccountMismatch)
    } else if !validator.is_active {
        Some(ErrorCode::ValidatorInactive)
    } else {
        None
    }
}

/// The first failing precondition of a claim, if any.
pub open spec fn claim_error(
    config: ValidatorConfig,
    config_address: Pubkey,
    validator: Validator,
    signer: Pubkey,
    reward_token_account: TokenAccount,
) -> Option<ErrorCode> {
    if signer@ != validator.authority@ {
        Some(ErrorCode::NotAuthorized)
    } else if validator.validator_config@ != config_address@ || !holds_asset(
        reward_token_account,
        config.reward_token_mint,
        signer,
    ) {
        Some(ErrorCode::AccountMismatch)
    } else if validator.rewards_earned == 0 {
        Some(ErrorCode::NoRewardsToClaim)
    } else {
        None
    }
}

/// The validator after unstaking.
pub open spec fn unstaked_validator(validator: Validator) -> Validator {
    Validator { is_active: false, stake_amount: 0, ..validator }
}

/// The validator after claiming its rewards.
pub open spec fn claimed_validator(validator: Validator) -> Validator {
    Validator { rewards_earned: 0, ..validator }
}

/// `after` follows from `before` by one successful operation that writes the
/// configuration: a registration or a change of parameters.
pub open spec fn config_step(before: ValidatorConfig, after: ValidatorConfig) -> bool {
    registers(before, after) || reconfigures(before, after)
}

/// `after` follows from `before` by one successful operation that writes the
/// validator record: a submission, a reward credit, an unstake or a claim.
pub open spec fn validator_step(before: Validator, after: Validator) -> bool {
    ||| submits(before, after)
    ||| (exists|reward: u64|
        {
            &&& before.rewards_earned + reward <= u64::MAX
            &&& after == #[trigger] rewarded_validator(before, reward)
        })
    ||| (before.is_active && after == unstaked_validator(before))
    ||| (before.rewards_earned > 0 && after == claimed_validator(before))
}

/// Creates the configuration with the default economic parameters and no validators.
pub fn initialize(
    authority: Pubkey,
    staking_token_mint: Pubkey,
    reward_token_mint: Pubkey,
) -> (config: ValidatorConfig)
    ensures
        config == initial_config(authority, staking_token_mint, reward_token_mint),
{
    ValidatorConfig {
        authority,
        staking_token_mint,
        reward_token_mint,
        validator_count: 0,
        min_stake_amount: DEFAULT_MIN_STAKE_AMOUNT,
        reward_per_validation: DEFAULT_REWARD_PER_VALIDATION,
        validation_threshold: DEFAULT_VALIDATION_THRESHOLD,
    }
}

/// Registers `authority` as a validator locking `stake_amount` from
/// `staking_token_account`, and returns its new record. The caller moves the
/// stake into escrow.
pub fn register_validator(
    config: &mut ValidatorConfig,
    config_address: Pubkey,
    authority: Pubkey,
    staking_token_account: TokenAccount,
    stake_amount: u64,
) -> (r: Result<Validator, ErrorCode>)
    ensures
        match register_error(*old(config), authority, staking_token_account, stake_amount) {
            Some(e) => r == Err::<Validator, ErrorCode>(e) && *final(config) == *old(config),
            None => {
                &&& r == Ok::<Validator, ErrorCode>(
                    new_validator(authority, stake_amount, config_address),
                )
                &&& registers(*old(config), *final(config))
            },
        },
        r is Ok ==> stake_amount >= old(config).min_stake_amount,
        stake_amount < old(config).min_stake_amount ==> {
            &&& r is Err
            &&& *final(config) == *old(config)
        },
        r is Ok ==> config_step(*old(config), *final(config)),
{
    if !staking_token_account.mint.same_as(&config.staking_token_mint)
        || !staking_token_account.owner.same_as(&authority) {
        return Err(ErrorCode::AccountMismatch);
    }
    if stake_amount < config.min_stake_amount {
        return Err(ErrorCode::InsufficientStake);
    }
    let count = match config.validator_count.checked_add(1) {
        Some(c) => c,
        None => return Err(ErrorCode::ArithmeticOverflow),
    };
    config.validator_count = count;
    Ok(
        Validator {
            authority,
            stake_amount,
            validations_performed: 0,
            rewards_earned: 0,
            is_active: true,
            last_validation: 0,
            validator_config: config_address,
        },
    )
}

/// Records an attestation by `validator` about `memory_id`. Returns the sequence
/// number that addresses the new validation (the counter's value before the
/// call) and the new record; the counter then moves on by one.
pub fn submit_validation(
    validator: &mut Validator,
    validator_address: Pubkey,
    config_address: Pubkey,
    signer: Pubkey,
    memory_id: Pubkey,
    is_valid: bool,
    quality_score: u8,
    timestamp: i64,
) -> (r: Result<(u64, Validation), ErrorCode>)
    ensures
        match submit_error(*old(validator), config_address, signer, quality_score) {
            Some(e) => {
                &&& r == Err::<(u64, Validation), ErrorCode>(e)
                &&& *final(validator) == *old(validator)
            },
            None => {
                &&& r == Ok::<(u64, Validation), ErrorCode>(
                    (
                        old(validator).validations_performed,
                        new_validation(
                            validator_address,
                            config_address,
                            memory_id,
                            is_valid,
                            quality_score,
                            timestamp,
                        ),
                    ),
                )
                &&& *final(validator) == submitted_validator(*old(validator), timestamp)
                &&& submits(*old(validator), *final(validator))
            },
        },
        r is Ok ==> validator_step(*old(validator), *final(validator)),
{
    if !signer.same_as(&validator.authority) {
        return Err(ErrorCode::NotAuthorized);
    }
    if !validator.validator_config.same_as(&config_address) {
        return Err(ErrorCode::AccountMismatch);
    }
    if !validator.is_active {
        return Err(ErrorCode::ValidatorInactive);
    }
    if quality_score > MAX_QUALITY_SCORE {
        return Err(ErrorCode::InvalidQualityScore);
    }
    let sequence = validator.validations_performed;
    let next = match sequence.checked_add(1) {
        Some(n) => n,
        None => return Err(ErrorCode::ArithmeticOverflow),
    };
    let validation = Validation {
        validator: validator_address,
        memory_id,
        is_valid,
        quality_score,
        timestamp,
        is_processed: false,
        validator_config: config_address,
    };
    validator.validations_performed = next;
    validator.last_validation = timestamp;
    Ok((sequence, validation))
}

/// Settles one validation: marks it processed and credits the configured reward
/// to its validator. Returns the amount credited.
pub fn process_validation(
    config: &ValidatorConfig,
    config_address: Pubkey,
    validator: &mut Validator,
    validator_address: Pubkey,
    validation: &mut Validation,
    signer: Pubkey,
) -> (r: Result<u64, ErrorCode>)
    ensures
        match process_error(
            *config,
            config_address,
            *old(validator),
            validator_address,
            *old(validation),
            signer,
        ) {
            Some(e) => {
                &&& r == Err::<u64, ErrorCode>(e)
                &&& *final(validator) == *old(validator)
                &&& *final(validation) == *old(validation)
            },
            None => {
                &&& r == Ok::<u64, ErrorCode>(config.reward_per_validation)
                &&& *final(validator) == rewarded_validator(
                    *old(validator),
                    config.reward_per_validation,
                )
                &&& *final(validation) == processed_validation(*old(validation))
            },
        },
        old(validation).is_processed ==> r is Err,
        r is Ok ==> validator_step(*old(validator), *final(validator)),
{
    if !signer.same_as(&config.authority) {
        return Err(ErrorCode::NotAuthorized);
    }
    if !validator.validator_config.same_as(&config_address) || !validation.validator.same_as(
        &validator_address,
    ) || !validation.validator_config.same_as(&config_address) {
        return Err(ErrorCode::AccountMismatch);
    }
    if validation.is_processed {
        return Err(ErrorCode::AlreadyProcessed);
    }
    let reward = config.reward_per_validation;
    let total = match validator.rewards_earned.checked_add(reward) {
        Some(t) => t,
        None => return Err(ErrorCode::ArithmeticOverflow),
    };
    validation.is_processed = true;
    validator.rewards_earned = total;
    assert(*final(validator) == rewarded_validator(*old(validator), reward));
    Ok(reward)
}

/// Overrides each economic parameter that is given; leaves the others as they were.
pub fn update_validator_config(
    config: &mut ValidatorConfig,
    signer: Pubkey,
    min_stake_amount: Option<u64>,
    reward_per_validation: Option<u64>,
    validation_threshold: Option<u8>,
) -> (r: Result<(), ErrorCode>)
    ensures
        signer@ != old(config).authority@ ==> {
            &&& r == Err::<(), ErrorCode>(ErrorCode::NotAuthorized)
            &&& *final(config) == *old(config)
        },
        signer@ == old(config).authority@ ==> {
            &&& r is Ok
            &&& *final(config) == updated_config(
                *old(config),
                min_stake_amount,
                reward_per_validation,
                validation_threshold,
            )
        },
        r is Ok ==> config_step(*old(config), *final(config)),
{
    if !signer.same_as(&config.authority) {
        return Err(ErrorCode::NotAuthorized);
    }
    if let Some(min_stake) = min_stake_amount {
        config.min_stake_amount = min_stake;
    }
    if let Some(reward) = reward_per_validation {
        config.reward_per_validation = reward;
    }
    if let Some(threshold) = validation_threshold {
        config.validation_threshold = threshold;
    }
    Ok(())
}

/// Deactivates the validator and releases its stake. Returns the amount that
/// the caller returns to `staking_token_account`.
pub fn unstake(
    config: &ValidatorConfig,
    config_address: Pubkey,
    validator: &mut Validator,
    signer: Pubkey,
    staking_token_account: TokenAccount,
) -> (r: Result<u64, ErrorCode>)
    ensures
        match unstake_error(*config, config_address, *old(validator), signer, staking_token_account) {
            Some(e) => r == Err::<u64, ErrorCode>(e) && *final(validator) == *old(validator),
            None => {
                &&& r == Ok::<u64, ErrorCode>(old(validator).stake_amount)
                &&& *final(validator) == unstaked_validator(*old(validator))
            },
        },
        r is Ok ==> !final(validator).is_active && final(validator).stake_amount == 0,
        r is Ok ==> validator_step(*old(validator), *final(validator)),
{
    if !signer.same_as(&validator.authority) {
        return Err(ErrorCode::NotAuthorized);
    }
    if !validator.validator_config.same_as(&config_address)
        || !staking_token_account.mint.same_as(&config.staking_token_mint)
        || !staking_token_account.owner.same_as(&signer) {
        return Err(ErrorCode::AccountMismatch);
    }
    if !validator.is_active {
        return Err(ErrorCode::ValidatorInactive);
    }
    let returned = validator.stake_amount;
    validator.is_active = false;
    validator.stake_amount = 0;
    Ok(returned)
}

/// Pays out the accrued rewards. Returns the amount that the caller transfers
/// to `reward_token_account`. An inactive validator may still claim.
pub fn claim_rewards(
    config: &ValidatorConfig,
    config_address: Pubkey,
    validator: &mut Validator,
    signer: Pubkey,
    reward_token_account: TokenAccount,
) -> (r: Result<u64, ErrorCode>)
    ensures
        match claim_error(*config, config_address, *old(validator), signer, reward_token_account) {
            Some(e) => r == Err::<u64, ErrorCode>(e) && *final(validator) == *old(validator),
            None => {
                &&& r == Ok::<u64, ErrorCode>(old(validator).rewards_earned)
                &&& *final(validator) == claimed_validator(*old(validator))
            },
        },
        r is Ok ==> final(validator).rewards_earned == 0,
        old(validator).rewards_earned == 0 ==> r is Err,
        r is Ok ==> validator_step(*old(validator), *final(validator)),
{
    if !signer.same_as(&validator.authority) {
        return Err(ErrorCode::NotAuthorized);
    }
    if !validator.validator_config.same_as(&config_address)
        || !reward_token_account.mint.same_as(&config.reward_token_mint)
        || !reward_token_account.owner.same_as(&signer) {
        return Err(ErrorCode::AccountMismatch);
    }
    let rewards = validator.rewards_earned;
    if rewards == 0 {
        return Err(ErrorCode::NoRewardsToClaim);
    }
    validator.rewards_earned = 0;
    Ok(rewards)
}

} // verus!
