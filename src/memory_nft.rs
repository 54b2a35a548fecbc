use vstd::prelude::*;
use crate::pubkey::Pubkey;

verus! {

/// Lowest quality grade that a memory may carry.
pub const MIN_MEMORY_QUALITY: u8 = 1;

/// Highest quality grade that a memory may carry.
pub const MAX_MEMORY_QUALITY: u8 = 4;

#[derive(Clone, Copy, Debug, PartialEq, Eq, Structural)]
pub enum ErrorCode {
    EmptyUri,
    EmptyName,
    EmptySymbol,
    /// The quality grade is outside 1 to 4.
    InvalidQuality,
    EmptyFingerprint,
    /// The caller does not own the memory.
    NotMemoryOwner,
    /// The memory's owner has locked it against transfer.
    NonTransferable,
    /// The memory count would exceed the range of `u64`.
    ArithmeticOverflow,
}

impl ErrorCode {
    pub fn message(&self) -> &'static str {
        match self {
            ErrorCode::EmptyUri => "URI cannot be empty",
            ErrorCode::EmptyName => "Name cannot be empty",
            ErrorCode::EmptySymbol => "Symbol cannot be empty",
            ErrorCode::InvalidQuality => "Invalid memory quality (must be 1-4)",
            ErrorCode::EmptyFingerprint => "Neural fingerprint cannot be empty",
            ErrorCode::NotMemoryOwner => "Not the owner of this memory NFT",
            ErrorCode::NonTransferable => "This memory NFT is not transferable",
            ErrorCode::ArithmeticOverflow => "Memory count overflow",
        }
    }
}

/// The registry's singleton record.
#[derive(Clone, Copy, Debug)]
pub struct MemoryData {
    pub authority: Pubkey,
    pub memory_count: u64,
}

/// One minted memory.
#[derive(Clone, Debug)]
pub struct Memory {
    pub owner: Pubkey,
    pub mint: Pubkey,
    pub memory_type: String,
    pub quality: u8,
    pub neural_fingerprint: String,
    pub created_at: i64,
    pub is_transferable: bool,
    pub memory_data: Pubkey,
}

/// The first failing precondition of a mint, if any.
pub open spec fn mint_error(
    data: MemoryData,
    uri: Seq<char>,
    name: Seq<char>,
    symbol: Seq<char>,
    memory_quality: u8,
    neural_fingerprint: Seq<char>,
) -> Option<ErrorCode> {
    if uri.len() == 0 {
        Some(ErrorCode::EmptyUri)
    } else if name.len() == 0 {
        Some(ErrorCode::EmptyName)
    } else if symbol.len() == 0 {
        Some(ErrorCode::EmptySymbol)
    } else if !(MIN_MEMORY_QUALITY <= memory_quality <= MAX_MEMORY_QUALITY) {
        Some(ErrorCode::InvalidQuality)
    } else if neural_fingerprint.len() == 0 {
        Some(ErrorCode::EmptyFingerprint)
    } else if data.memory_count == u64::MAX {
        Some(ErrorCode::ArithmeticOverflow)
    } else {
        None
    }
}

/// Creates the registry with no memories.
pub fn initialize(authority: Pubkey) -> (data: MemoryData)
    ensures
        data == (MemoryData { authority, memory_count: 0 }),
{
    MemoryData { authority, memory_count: 0 }
}

/// Mints a memory owned by `authority` and returns its record, transferable at
/// first. `uri`, `name` and `symbol` describe the token and are only checked here.
pub fn mint_memory(
    data: &mut MemoryData,
    data_address: Pubkey,
    authority: Pubkey,
    mint: Pubkey,
    uri: &str,
    name: &str,
    symbol: &str,
    memory_type: String,
    memory_quality: u8,
    neural_fingerprint: String,
    timestamp: i64,
) -> (r: Result<Memory, ErrorCode>)
    ensures
        match mint_error(*old(data), uri@, name@, symbol@, memory_quality, neural_fingerprint@) {
            Some(e) => r == Err::<Memory, ErrorCode>(e) && *final(data) == *old(data),
            None => {
                &&& *final(data) == (MemoryData {
                    memory_count: (old(data).memory_count + 1) as u64,
                    ..*old(data)
                })
                &&& r == Ok::<Memory, ErrorCode>(
                    Memory {
                        owner: authority,
                        mint,
                        memory_type,
                        quality: memory_quality,
                        neural_fingerprint,
                        created_at: timestamp,
                        is_transferable: true,
                        memory_data: data_address,
                    },
                )
            },
        },
{
    if uri.is_empty() {
        return Err(ErrorCode::EmptyUri);
    }
    if name.is_empty() {
        return Err(ErrorCode::EmptyName);
    }
    if symbol.is_empty() {
        return Err(ErrorCode::EmptySymbol);
    }
    if !(MIN_MEMORY_QUALITY <= memory_quality && memory_quality <= MAX_MEMORY_QUALITY) {
        return Err(ErrorCode::InvalidQuality);
    }
    if neural_fingerprint.as_str().is_empty() {
        return Err(ErrorCode::EmptyFingerprint);
    }
    let count = match data.memory_count.checked_add(1) {
        Some(c) => c,
        None => return Err(ErrorCode::ArithmeticOverflow),
    };
    data.memory_count = count;
    Ok(
        Memory {
            owner: authority,
            mint,
            memory_type,
            quality: memory_quality,
            neural_fingerprint,
            created_at: timestamp,
            is_transferable: true,
            memory_data: data_address,
        },
    )
}

/// Hands the memory over to `new_owner`, if its owner allows transfers.
pub fn transfer_memory(memory: &mut Memory, signer: Pubkey, new_owner: Pubkey) -> (r: Result<
    (),
    ErrorCode,
>)
    ensures
        signer@ != old(memory).owner@ ==> r == Err::<(), ErrorCode>(ErrorCode::NotMemoryOwner),
        signer@ == old(memory).owner@ && !old(memory).is_transferable ==> r == Err::<
            (),
            ErrorCode,
        >(ErrorCode::NonTransferable),
        r is Err ==> *final(memory) == *old(memory),
        signer@ == old(memory).owner@ && old(memory).is_transferable ==> {
            &&& r is Ok
            &&& *final(memory) == (Memory { owner: new_owner, ..*old(memory) })
        },
{
    if !signer.same_as(&memory.owner) {
        return Err(ErrorCode::NotMemoryOwner);
    }
    if !memory.is_transferable {
        return Err(ErrorCode::NonTransferable);
    }
    memory.owner = new_owner;
    Ok(())
}

/// Lets the owner allow or forbid transfers of the memory.
pub fn toggle_transferable(memory: &mut Memory, signer: Pubkey, is_transferable: bool) -> (r:
    Result<(), ErrorCode>)
    ensures
        signer@ != old(memory).owner@ ==> {
            &&& r == Err::<(), ErrorCode>(ErrorCode::NotMemoryOwner)
            &&& *final(memory) == *old(memory)
        },
        signer@ == old(memory).owner@ ==> {
            &&& r is Ok
            &&& *final(memory) == (Memory { is_transferable, ..*old(memory) })
        },
{
    if !signer.same_as(&memory.owner) {
        return Err(ErrorCode::NotMemoryOwner);
    }
    memory.is_transferable = is_transferable;
    Ok(())
}

} // verus!
