//! What the program has from the host's libraries: the derivation of the
//! authority address, and the token program's account format and
//! instructions.
//!
//! The functions of `solana_program` and `spl_token` are called here and
//! nowhere else. Each call stands in a small function of its own whose
//! contract is taken on trust from the library's source; nothing in this
//! module is proved.
use crate::address::Address;
use crate::error::RoyaltyDistributorError;
use solana_program::program_error::ProgramError;
use solana_program::program_pack::Pack;
use solana_program::pubkey::Pubkey;
use spl_token::instruction::AuthorityType;
use vstd::prelude::*;

verus! {

/// One account of a call to another program.
#[derive(Copy, Clone, Debug, PartialEq, Eq)]
pub struct CpiAccount {
    /// The account's address.
    pub pubkey: Address,
    /// Whether the call needs the account's signature.
    pub is_signer: bool,
    /// Whether the called program may change the account.
    pub is_writable: bool,
}

/// What a [`CpiAccount`] stands for.
pub struct CpiAccountView {
    pub pubkey: Seq<u8>,
    pub is_signer: bool,
    pub is_writable: bool,
}

impl View for CpiAccount {
    type V = CpiAccountView;

    open spec fn view(&self) -> CpiAccountView {
        CpiAccountView {
            pubkey: self.pubkey@,
            is_signer: self.is_signer,
            is_writable: self.is_writable,
        }
    }
}

/// A call to another program, as the host issues it.
#[derive(Clone, Debug, PartialEq, Eq)]
pub struct CpiInstruction {
    /// The program that is called.
    pub program_id: Address,
    /// The accounts that the call names, in order.
    pub accounts: Vec<CpiAccount>,
    /// The instruction bytes handed to the program.
    pub data: Vec<u8>,
}

/// What a [`CpiInstruction`] stands for.
pub struct CpiInstructionView {
    pub program_id: Seq<u8>,
    pub accounts: Seq<CpiAccountView>,
    pub data: Seq<u8>,
}

impl View for CpiInstruction {
    type V = CpiInstructionView;

    open spec fn view(&self) -> CpiInstructionView {
        CpiInstructionView {
            program_id: self.program_id@,
            accounts: Seq::new(self.accounts@.len(), |i: int| self.accounts@[i]@),
            data: self.data@,
        }
    }
}

/// The address of the token program.
pub open spec fn token_program_id() -> Seq<u8> {
    seq![
        6u8, 221u8, 246u8, 225u8, 215u8, 101u8, 161u8, 147u8,
        217u8, 203u8, 225u8, 70u8, 206u8, 235u8, 121u8, 172u8,
        28u8, 180u8, 133u8, 237u8, 95u8, 91u8, 55u8, 145u8,
        58u8, 140u8, 245u8, 133u8, 126u8, 255u8, 0u8, 169u8,
    ]
}

/// The eight little-endian bytes of `value`.
pub open spec fn le_u64(value: u64) -> Seq<u8> {
    seq![
        (value % 0x100) as u8,
        (value / 0x100 % 0x100) as u8,
        (value / 0x1_0000 % 0x100) as u8,
        (value / 0x100_0000 % 0x100) as u8,
        (value / 0x1_0000_0000 % 0x100) as u8,
        (value / 0x100_0000_0000 % 0x100) as u8,
        (value / 0x1_0000_0000_0000 % 0x100) as u8,
        (value / 0x100_0000_0000_0000 % 0x100) as u8,
    ]
}

/// An account that the called program may change and that does not sign.
pub open spec fn writable_account(pubkey: Seq<u8>) -> CpiAccountView {
    CpiAccountView { pubkey, is_signer: false, is_writable: true }
}

/// An account that the called program only reads.
pub open spec fn readonly_account(pubkey: Seq<u8>, is_signer: bool) -> CpiAccountView {
    CpiAccountView { pubkey, is_signer, is_writable: false }
}

/// The token program's instruction that moves `amount` tokens from `source`
/// to `destination` on the word of `authority`, which signs the call.
///
/// Its data is the tag `3` and the amount. It names the source and the
/// destination as writable, and the authority twice: once as the owner or
/// delegate of the source, once as the signer.
pub open spec fn transfer_instruction(
    token_program: Seq<u8>,
    source: Seq<u8>,
    destination: Seq<u8>,
    authority: Seq<u8>,
    amount: u64,
) -> CpiInstructionView {
    CpiInstructionView {
        program_id: token_program,
        accounts: seq![
            writable_account(source),
            writable_account(destination),
            readonly_account(authority, false),
            readonly_account(authority, true),
        ],
        data: seq![3u8] + le_u64(amount),
    }
}

/// The token program's instruction that makes `new_owner` the owner of the
/// token account `account`, on the word of `owner`, which signs the call.
///
/// Its data is the tag `6`, the authority type (`2`, the account's owner),
/// the mark `1` of a new authority that is present, and its address. It names
/// the account as writable, and the present owner twice: once as the
/// authority, once as the signer.
pub open spec fn set_owner_instruction(
    token_program: Seq<u8>,
    account: Seq<u8>,
    new_owner: Seq<u8>,
    owner: Seq<u8>,
) -> CpiInstructionView {
    CpiInstructionView {
        program_id: token_program,
        accounts: seq![
            writable_account(account),
            readonly_account(owner, false),
            readonly_account(owner, true),
        ],
        data: seq![6u8, 2u8, 1u8] + new_owner,
    }
}

/// The address that the host derives for the program `program_id` from the
/// one seed `seed`, with the bump seed that makes it valid; `None` where the
/// host finds none.
pub uninterp spec fn program_derived_address(seed: Seq<u8>, program_id: Seq<u8>) -> Option<
    (Seq<u8>, u8),
>;

/// The balance that the token program reads from the data of a token account,
/// or the error with which it refuses the data.
pub uninterp spec fn token_account_amount(data: Seq<u8>) -> Result<u64, RoyaltyDistributorError>;

/// Calls `Pubkey::try_find_program_address` with the one seed `seed`.
///
/// Taken on trust: the outcome depends on the seed and the program id alone.
/// The search hashes the seed, a bump seed and the program id, and keeps the
/// first hash, counting the bump down from 255, that is no point of the
/// ed25519 curve; none of that is restated here.
#[verifier::external_body]
pub(crate) fn find_program_address(seed: &[u8], program_id: &Address) -> (found: Option<
    (Address, u8),
>)
    ensures
        match found {
            Some((address, bump)) => program_derived_address(seed@, program_id@) == Some(
                (address@, bump),
            ),
            None => program_derived_address(seed@, program_id@) is None,
        },
{
    let program_id = Pubkey::new_from_array(*program_id);
    match Pubkey::try_find_program_address(&[seed], &program_id) {
        Some((address, bump)) => Some((address.to_bytes(), bump)),
        None => None,
    }
}

/// Calls `spl_token::id`.
///
/// Taken on trust: the token program's address is the constant that
/// [`token_program_id`] spells out.
#[verifier::external_body]
pub(crate) fn token_program_address() -> (id: Address)
    ensures
        id@ == token_program_id(),
{
    spl_token::id().to_bytes()
}

/// Calls `spl_token::state::Account::unpack` and picks the amount.
///
/// Taken on trust: the outcome depends on the data alone. The token program
/// refuses data that is not a token account (`InvalidAccountData`) and an
/// account that was never set up (`UninitializedAccount`).
#[verifier::external_body]
pub(crate) fn read_token_amount(data: &[u8]) -> (amount: Result<u64, RoyaltyDistributorError>)
    ensures
        amount == token_account_amount(data@),
{
    match spl_token::state::Account::unpack(data) {
        Ok(account) => Ok(account.amount),
        Err(ProgramError::UninitializedAccount) => Err(
            RoyaltyDistributorError::UninitializedAccount,
        ),
        Err(_) => Err(RoyaltyDistributorError::InvalidAccountData),
    }
}

/// Calls `spl_token::instruction::transfer` with `authority` as the one
/// signer.
///
/// Taken on trust: the call fails exactly if `token_program` is not the token
/// program's address, and else builds the instruction that
/// [`transfer_instruction`] describes.
#[verifier::external_body]
pub(crate) fn build_transfer(
    token_program: &Address,
    source: &Address,
    destination: &Address,
    authority: &Address,
    amount: u64,
) -> (built: Option<CpiInstruction>)
    ensures
        built is Some <==> token_program@ == token_program_id(),
        built matches Some(instruction) ==> instruction@ == transfer_instruction(
            token_program@,
            source@,
            destination@,
            authority@,
            amount,
        ),
{
    let program = Pubkey::new_from_array(*token_program);
    let from = Pubkey::new_from_array(*source);
    let to = Pubkey::new_from_array(*destination);
    let signer = Pubkey::new_from_array(*authority);
    let ix = spl_token::instruction::transfer(&program, &from, &to, &signer, &[&signer], amount)
        .ok()?;
    let accounts = ix.accounts.iter().map(|a| CpiAccount {
        pubkey: a.pubkey.to_bytes(),
        is_signer: a.is_signer,
        is_writable: a.is_writable,
    }).collect();
    Some(CpiInstruction { program_id: ix.program_id.to_bytes(), accounts, data: ix.data })
}

/// Calls `spl_token::instruction::set_authority` for the authority type
/// `AccountOwner`, with a new authority and with `owner` as the one signer.
///
/// Taken on trust: the call fails exactly if `token_program` is not the token
/// program's address, and else builds the instruction that
/// [`set_owner_instruction`] describes.
#[verifier::external_body]
pub(crate) fn build_set_owner(
    token_program: &Address,
    account: &Address,
    new_owner: &Address,
    owner: &Address,
) -> (built: Option<CpiInstruction>)
    ensures
        built is Some <==> token_program@ == token_program_id(),
        built matches Some(instruction) ==> instruction@ == set_owner_instruction(
            token_program@,
            account@,
            new_owner@,
            owner@,
        ),
{
    let program = Pubkey::new_from_array(*token_program);
    let owned = Pubkey::new_from_array(*account);
    let new = Pubkey::new_from_array(*new_owner);
    let signer = Pubkey::new_from_array(*owner);
    let (role, by) = (AuthorityType::AccountOwner, [&signer]);
    let ix = spl_token::instruction::set_authority(&program, &owned, Some(&new), role, &signer, &by)
        .ok()?;
    let accounts = ix.accounts.iter().map(|a| CpiAccount {
        pubkey: a.pubkey.to_bytes(),
        is_signer: a.is_signer,
        is_writable: a.is_writable,
    }).collect();
    Some(CpiInstruction { program_id: ix.program_id.to_bytes(), accounts, data: ix.data })
}

} // verus!
