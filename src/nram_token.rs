use vstd::prelude::*;
use crate::pubkey::Pubkey;

verus! {

#[derive(Clone, Copy, Debug, PartialEq, Eq, Structural)]
pub enum ErrorCode {
    /// The caller is not the token's authority.
    NotAuthorized,
    /// The circulating supply would exceed the range of `u64`.
    SupplyOverflow,
    /// More would be burned than circulates.
    SupplyUnderflow,
    /// Minting would take the circulating supply above the total supply.
    ExceedsTotalSupply,
}

impl ErrorCode {
    pub fn message(&self) -> &'static str {
        match self {
            ErrorCode::NotAuthorized => "Not authorized to perform this action",
            ErrorCode::SupplyOverflow => "Arithmetic overflow when calculating new supply",
            ErrorCode::SupplyUnderflow => "Arithmetic underflow when calculating new supply",
            ErrorCode::ExceedsTotalSupply => "Mint would exceed total supply",
        }
    }
}

/// Supply bookkeeping of the token.
#[derive(Clone, Copy, Debug)]
pub struct TokenConfig {
    pub authority: Pubkey,
    pub mint: Pubkey,
    pub total_supply: u64,
    pub circulating_supply: u64,
    pub staking_enabled: bool,
    pub governance_enabled: bool,
}

/// The first failing precondition of a mint, if any.
pub open spec fn mint_error(config: TokenConfig, signer: Pubkey, amount: u64) -> Option<ErrorCode> {
    if signer@ != config.authority@ {
        Some(ErrorCode::NotAuthorized)
    } else if config.circulating_supply + amount > u64::MAX {
        Some(ErrorCode::SupplyOverflow)
    } else if config.circulating_supply + amount > config.total_supply {
        Some(ErrorCode::ExceedsTotalSupply)
    } else {
        None
    }
}

/// Creates the bookkeeping of a token with nothing in circulation.
pub fn initialize(authority: Pubkey, mint: Pubkey, total_supply: u64) -> (config: TokenConfig)
    ensures
        config == (TokenConfig {
            authority,
            mint,
            total_supply,
            circulating_supply: 0,
            staking_enabled: false,
            governance_enabled: false,
        }),
{
    TokenConfig {
        authority,
        mint,
        total_supply,
        circulating_supply: 0,
        staking_enabled: false,
        governance_enabled: false,
    }
}

/// Puts `amount` more into circulation, up to the total supply.
pub fn mint_tokens(config: &mut TokenConfig, signer: Pubkey, amount: u64) -> (r: Result<
    (),
    ErrorCode,
>)
    ensures
        match mint_error(*old(config), signer, amount) {
            Some(e) => r == Err::<(), ErrorCode>(e) && *final(config) == *old(config),
            None => {
                &&& r is Ok
                &&& *final(config) == (TokenConfig {
                    circulating_supply: (old(config).circulating_supply + amount) as u64,
                    ..*old(config)
                })
            },
        },
        r is Ok ==> final(config).circulating_supply <= final(config).total_supply,
{
    if !signer.same_as(&config.authority) {
        return Err(ErrorCode::NotAuthorized);
    }
    let new_circulating = match config.circulating_supply.checked_add(amount) {
        Some(n) => n,
        None => return Err(ErrorCode::SupplyOverflow),
    };
    if new_circulating > config.total_supply {
        return Err(ErrorCode::ExceedsTotalSupply);
    }
    config.circulating_supply = new_circulating;
    Ok(())
}

/// Takes `amount` out of circulation.
pub fn burn_tokens(config: &mut TokenConfig, amount: u64) -> (r: Result<(), ErrorCode>)
    ensures
        amount > old(config).circulating_supply ==> {
            &&& r == Err::<(), ErrorCode>(ErrorCode::SupplyUnderflow)
            &&& *final(config) == *old(config)
        },
        amount <= old(config).circulating_supply ==> {
            &&& r is Ok
            &&& *final(config) == (TokenConfig {
                circulating_supply: (old(config).circulating_supply - amount) as u64,
                ..*old(config)
            })
        },
{
    match config.circulating_supply.checked_sub(amount) {
        Some(n) => {
            config.circulating_supply = n;
            Ok(())
        },
        None => Err(ErrorCode::SupplyUnderflow),
    }
}

/// Turns staking on or off.
pub fn enable_staking(config: &mut TokenConfig, signer: Pubkey, enabled: bool) -> (r: Result<
    (),
    ErrorCode,
>)
    ensures
        signer@ != old(config).authority@ ==> {
            &&& r == Err::<(), ErrorCode>(ErrorCode::NotAuthorized)
            &&& *final(config) == *old(config)
        },
        signer@ == old(config).authority@ ==> {
            &&& r is Ok
            &&& *final(config) == (TokenConfig { staking_enabled: enabled, ..*old(config) })
        },
{
    if !signer.same_as(&config.authority) {
        return Err(ErrorCode::NotAuthorized);
    }
    config.staking_enabled = enabled;
    Ok(())
}

/// Turns governance on or off.
pub fn enable_governance(config: &mut TokenConfig, signer: Pubkey, enabled: bool) -> (r: Result<
    (),
    ErrorCode,
>)
    ensures
        signer@ != old(config).authority@ ==> {
            &&& r == Err::<(), ErrorCode>(ErrorCode::NotAuthorized)
            &&& *final(config) == *old(config)
        },
        signer@ == old(config).authority@ ==> {
            &&& r is Ok
            &&& *final(config) == (TokenConfig { governance_enabled: enabled, ..*old(config) })
        },
{
    if !signer.same_as(&config.authority) {
        return Err(ErrorCode::NotAuthorized);
    }
    config.governance_enabled = enabled;
    Ok(())
}

/// Hands the authority over to `new_authority`.
pub fn transfer_authority(
    config: &mut TokenConfig,
    signer: Pubkey,
    new_authority: Pubkey,
) -> (r: Result<(), ErrorCode>)
    ensures
        signer@ != old(config).authority@ ==> {
            &&& r == Err::<(), ErrorCode>(ErrorCode::NotAuthorized)
            &&& *final(config) == *old(config)
        },
        signer@ == old(config).authority@ ==> {
            &&& r is Ok
            &&& *final(config) == (TokenConfig { authority: new_authority, ..*old(config) })
        },
{
    if !signer.same_as(&config.authority) {
        return Err(ErrorCode::NotAuthorized);
    }
    config.authority = new_authority;
    Ok(())
}

} // verus!
