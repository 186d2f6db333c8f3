use vstd::prelude::*;

use crate::key::Key;
use crate::state::SwapError;
use solana_program::program_error::ProgramError;
use solana_program::program_pack::Pack;

verus! {

/// What the logic reads of an asset-holding account.
#[derive(Clone, Copy, Debug)]
pub struct TokenHolding {
    pub mint: Key,
    pub owner: Key,
    pub amount: u64,
}

/// Little-endian value of a byte string.
pub open spec fn le_value(s: Seq<u8>) -> nat
    decreases s.len(),
{
    if s.len() == 0 {
        0
    } else {
        s[0] as nat + 256 * le_value(s.drop_first())
    }
}

/// A four-byte optional tag as the token program writes it: 0 or 1, then zeros.
pub open spec fn option_tag_ok(d: Seq<u8>, at: int) -> bool {
    (d[at] == 0 || d[at] == 1) && d[at + 1] == 0 && d[at + 2] == 0 && d[at + 3] == 0
}

pub const TOKEN_ACCOUNT_LEN: usize = 165;

pub const MINT_LEN: usize = 82;

/// Why the bytes of an asset-holding account do not read as an initialized
/// one, if they do not.
pub open spec fn token_account_fault(d: Seq<u8>) -> Option<SwapError> {
    if d.len() != TOKEN_ACCOUNT_LEN {
        Some(SwapError::InvalidAccountData)
    } else if !option_tag_ok(d, 72) || d[108] > 2 || !option_tag_ok(d, 109) || !option_tag_ok(
        d,
        129,
    ) {
        Some(SwapError::InvalidAccountData)
    } else if d[108] == 0 {
        Some(SwapError::AccountNotInitialized)
    } else {
        None
    }
}

pub open spec fn holding_mint(d: Seq<u8>) -> Seq<u8> {
    d.subrange(0, 32)
}

pub open spec fn holding_owner(d: Seq<u8>) -> Seq<u8> {
    d.subrange(32, 64)
}

pub open spec fn holding_amount(d: Seq<u8>) -> nat {
    le_value(d.subrange(64, 72))
}

/// Why the bytes of an asset-type account do not read as an initialized one,
/// if they do not.
pub open spec fn mint_fault(d: Seq<u8>) -> Option<SwapError> {
    if d.len() != MINT_LEN {
        Some(SwapError::InvalidAccountData)
    } else if !option_tag_ok(d, 0) || d[45] > 1 || !option_tag_ok(d, 46) {
        Some(SwapError::InvalidAccountData)
    } else if d[45] == 0 {
        Some(SwapError::AccountNotInitialized)
    } else {
        None
    }
}

/// Decimal precision recorded in an asset-type account.
pub open spec fn mint_decimals(d: Seq<u8>) -> u8 {
    d[44]
}

/// Relies on spl_token::state::Account::unpack: a 165-byte layout of mint,
/// owner and little-endian amount, with tagged optional fields and a state
/// byte; uninitialized accounts are refused.
#[verifier::external_body]
pub(crate) fn unpack_token_account(data: &Vec<u8>) -> (r: Result<TokenHolding, SwapError>)
    ensures
        r is Ok <==> token_account_fault(data@) is None,
        r matches Err(e) ==> token_account_fault(data@) == Some(e),
        r matches Ok(h) ==> h.mint@ == holding_mint(data@) && h.owner@ == holding_owner(data@)
            && h.amount == holding_amount(data@),
{
    match spl_token::state::Account::unpack(data.as_slice()) {
        Ok(a) => Ok(
            TokenHolding {
                mint: Key::new(a.mint.to_bytes()),
                owner: Key::new(a.owner.to_bytes()),
                amount: a.amount,
            },
        ),
        Err(ProgramError::UninitializedAccount) => Err(SwapError::AccountNotInitialized),
        Err(_) => Err(SwapError::InvalidAccountData),
    }
}

/// Relies on spl_token::state::Mint::unpack: an 82-byte layout whose byte 44
/// is the decimal precision and byte 45 the initialized flag.
#[verifier::external_body]
pub(crate) fn unpack_mint_decimals(data: &Vec<u8>) -> (r: Result<u8, SwapError>)
    ensures
        r is Ok <==> mint_fault(data@) is None,
        r matches Err(e) ==> mint_fault(data@) == Some(e),
        r matches Ok(dec) ==> dec == mint_decimals(data@),
{
    match spl_token::state::Mint::unpack(data.as_slice()) {
        Ok(m) => Ok(m.decimals),
        Err(ProgramError::UninitializedAccount) => Err(SwapError::AccountNotInitialized),
        Err(_) => Err(SwapError::InvalidAccountData),
    }
}

/// The token program's identity, TokenkegQfeZyiNwAJbNbGKPFXCWuBvf9Ss623VQ5DA.
pub open spec fn token_program_bytes() -> Seq<u8> {
    seq![
        6u8, 221, 246, 225, 215, 101, 161, 147, 217, 203, 225, 70, 206, 235, 121, 172,
        28, 180, 133, 237, 95, 91, 55, 145, 58, 140, 245, 133, 126, 255, 0, 169,
    ]
}

/// The system program's identity, 11111111111111111111111111111111: all zeros.
pub open spec fn system_program_bytes() -> Seq<u8> {
    Seq::new(32, |i: int| 0u8)
}

/// Relies on spl_token::id(): the token program's declared identity.
#[verifier::external_body]
pub(crate) fn token_program_id() -> (r: Key)
    ensures
        r@ == token_program_bytes(),
{
    Key::new(spl_token::id().to_bytes())
}

/// Relies on solana_program::system_program::ID: the system program's
/// declared identity.
#[verifier::external_body]
#[allow(deprecated)]
pub(crate) fn system_program_id() -> (r: Key)
    ensures
        r@ == system_program_bytes(),
{
    Key::new(solana_program::system_program::ID.to_bytes())
}

} // verus!
