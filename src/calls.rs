use vstd::prelude::*;
use crate::accounts::{AccountRef, Key};
use crate::config::{text_field, text_fits, u64_le};
use solana_program::instruction::Instruction;
use solana_program::program_error::ProgramError;
use solana_program::pubkey::Pubkey;

verus! {

#[verifier::external_type_specification]
#[verifier::external_body]
pub struct ExInstruction(Instruction);

#[verifier::external_type_specification]
#[verifier::external_body]
pub struct ExProgramError(ProgramError);

/// An account as an invocation lists it: address and flags.
pub struct MetaView {
    pub key: Seq<u8>,
    pub is_signer: bool,
    pub is_writable: bool,
}

impl View for AccountRef {
    type V = MetaView;

    open spec fn view(&self) -> MetaView {
        MetaView { key: self.key.bytes@, is_signer: self.is_signer, is_writable: self.is_writable }
    }
}

/// A request to another program: its id, the accounts it reads or writes,
/// and its instruction data.
#[derive(Debug)]
pub struct Invocation {
    pub program_id: Key,
    pub accounts: Vec<AccountRef>,
    pub data: Vec<u8>,
}

pub struct InvocationView {
    pub program_id: Seq<u8>,
    pub accounts: Seq<MetaView>,
    pub data: Seq<u8>,
}

impl View for Invocation {
    type V = InvocationView;

    open spec fn view(&self) -> InvocationView {
        InvocationView {
            program_id: self.program_id.bytes@,
            accounts: self.accounts@.map_values(|a: AccountRef| a@),
            data: self.data@,
        }
    }
}

pub open spec fn meta(key: Seq<u8>, is_signer: bool, is_writable: bool) -> MetaView {
    MetaView { key, is_signer, is_writable }
}

/// Address of the token program, `TokenkegQfeZyiNwAJbNbGKPFXCWuBvf9Ss623VQ5DA`.
pub open spec fn token_program_id() -> Seq<u8> {
    seq![
        6u8, 221, 246, 225, 215, 101, 161, 147, 217, 203, 225, 70, 206, 235, 121, 172,
        28, 180, 133, 237, 95, 91, 55, 145, 58, 140, 245, 133, 126, 255, 0, 169,
    ]
}

/// Address of the rent sysvar, `SysvarRent111111111111111111111111111111111`.
pub open spec fn rent_sysvar_id() -> Seq<u8> {
    seq![
        6u8, 167, 213, 23, 25, 44, 92, 81, 33, 140, 201, 76, 61, 74, 241, 127,
        88, 218, 238, 8, 155, 161, 253, 68, 227, 219, 217, 138, 0, 0, 0, 0,
    ]
}

/// Address of the metadata program, `metaqbxxUerdq28cj1RbAWkYQm3ybzjb6a8bt518x1s`.
pub open spec fn metadata_program_id() -> Seq<u8> {
    seq![
        11u8, 112, 101, 177, 227, 209, 124, 69, 56, 157, 82, 127, 107, 4, 195, 205,
        88, 184, 108, 115, 26, 160, 253, 181, 73, 182, 209, 188, 3, 248, 41, 70,
    ]
}

/// Address of the system program: 32 zero bytes.
pub open spec fn system_program_id() -> Seq<u8> {
    Seq::new(32, |i: int| 0u8)
}

pub open spec fn u16_le(v: u16) -> Seq<u8> {
    seq![(v % 256) as u8, (v / 256) as u8]
}

pub open spec fn flag_byte(b: bool) -> u8 {
    if b { 1u8 } else { 0u8 }
}

/// The token program's `InitializeMint`: tag 0, decimals, mint authority and
/// an optional freeze authority (tag 1 and the address, or tag 0).
pub open spec fn initialize_mint_call(
    mint: Seq<u8>,
    authority: Seq<u8>,
    freeze: Seq<u8>,
    decimals: u8,
) -> InvocationView {
    InvocationView {
        program_id: token_program_id(),
        accounts: seq![meta(mint, false, true), meta(rent_sysvar_id(), false, false)],
        data: seq![0u8, decimals] + authority + seq![1u8] + freeze,
    }
}

/// The token program's `MintTo` with a single signing authority: tag 7 and
/// the amount.
pub open spec fn mint_to_call(
    mint: Seq<u8>,
    recipient: Seq<u8>,
    authority: Seq<u8>,
    amount: u64,
) -> InvocationView {
    InvocationView {
        program_id: token_program_id(),
        accounts: seq![
            meta(mint, false, true),
            meta(recipient, false, true),
            meta(authority, true, false),
        ],
        data: seq![7u8] + u64_le(amount),
    }
}

/// The metadata program's `CreateMetadataAccountV3` (variant 33) with no
/// creators, collection, uses or collection details.
pub open spec fn create_metadata_call(
    metadata: Seq<u8>,
    mint: Seq<u8>,
    mint_authority: Seq<u8>,
    payer: Seq<u8>,
    update_authority: Seq<u8>,
    name: Seq<char>,
    symbol: Seq<char>,
    uri: Seq<char>,
    seller_fee_basis_points: u16,
    update_authority_is_signer: bool,
    is_mutable: bool,
) -> InvocationView {
    InvocationView {
        program_id: metadata_program_id(),
        accounts: seq![
            meta(metadata, false, true),
            meta(mint, false, false),
            meta(mint_authority, true, false),
            meta(payer, true, true),
            meta(update_authority, update_authority_is_signer, false),
            meta(system_program_id(), false, false),
        ],
        data: seq![33u8] + text_field(name) + text_field(symbol) + text_field(uri) + u16_le(
            seller_fee_basis_points,
        ) + seq![0u8, 0u8, 0u8, flag_byte(is_mutable), 0u8],
    }
}

/// The address of the metadata record that the metadata program derives
/// from a mint address.
pub uninterp spec fn metadata_address_of(mint: Seq<u8>) -> Seq<u8>;

/// Carries an `Instruction` over to an `Invocation`, field by field, using
/// `Pubkey::to_bytes` for each address.
#[verifier::external_body]
fn invocation_of(ix: Instruction) -> Invocation {
    Invocation {
        program_id: Key { bytes: ix.program_id.to_bytes() },
        accounts: ix.accounts.iter().map(|m| AccountRef {
            key: Key { bytes: m.pubkey.to_bytes() },
            is_signer: m.is_signer,
            is_writable: m.is_writable,
        }).collect(),
        data: ix.data,
    }
}

/// Relies on `spl_token::instruction::initialize_mint`: given the token
/// program's own id it returns `Ok` with the mint (writable) and the rent
/// sysvar as accounts, and the packed `InitializeMint` as data.
#[verifier::external_body]
pub(crate) fn initialize_mint_instruction(mint: &Key, authority: &Key, freeze: &Key, decimals: u8) -> (r:
    Result<Invocation, ProgramError>)
    ensures
        r is Ok,
        r.unwrap()@ == initialize_mint_call(mint.bytes@, authority.bytes@, freeze.bytes@, decimals),
{
    let freeze = Pubkey::new_from_array(freeze.bytes);
    spl_token::instruction::initialize_mint(
        &spl_token::id(),
        &Pubkey::new_from_array(mint.bytes),
        &Pubkey::new_from_array(authority.bytes),
        Some(&freeze),
        decimals,
    ).map(invocation_of)
}

/// Relies on `spl_token::instruction::mint_to` with no multisignature
/// signers: given the token program's own id it returns `Ok` with the mint
/// and recipient (writable) and the authority (signer) as accounts, and the
/// packed `MintTo` as data.
#[verifier::external_body]
pub(crate) fn mint_to_instruction(mint: &Key, recipient: &Key, authority: &Key, amount: u64) -> (r: Result<
    Invocation,
    ProgramError,
>)
    ensures
        r is Ok,
        r.unwrap()@ == mint_to_call(mint.bytes@, recipient.bytes@, authority.bytes@, amount),
{
    spl_token::instruction::mint_to(
        &spl_token::id(),
        &Pubkey::new_from_array(mint.bytes),
        &Pubkey::new_from_array(recipient.bytes),
        &Pubkey::new_from_array(authority.bytes),
        &[],
        amount,
    ).map(invocation_of)
}

/// Relies on `mpl_token_metadata::pda::find_metadata_account`: the address
/// is derived from the mint address alone. It panics only when no bump seed
/// gives an address off the curve, which `Pubkey::find_program_address`
/// documents as statistically improbable.
#[verifier::external_body]
pub(crate) fn metadata_address(mint: &Key) -> (r: Key)
    ensures
        r.bytes@ == metadata_address_of(mint.bytes@),
{
    Key { bytes: mpl_token_metadata::pda::find_metadata_account(&Pubkey::new_from_array(mint.bytes)).0.to_bytes() }
}

/// Relies on `mpl_token_metadata::instruction::create_metadata_accounts_v3`
/// with no creators, collection, uses or collection details: the accounts
/// in the order the metadata program reads them and the Borsh-encoded
/// `CreateMetadataAccountV3` as data. The encoding panics on a text longer
/// than `u32::MAX` bytes.
#[verifier::external_body]
pub(crate) fn create_metadata_instruction(
    metadata: &Key,
    mint: &Key,
    mint_authority: &Key,
    payer: &Key,
    update_authority: &Key,
    name: String,
    symbol: String,
    uri: String,
    seller_fee_basis_points: u16,
    update_authority_is_signer: bool,
    is_mutable: bool,
) -> (r: Invocation)
    requires
        text_fits(name@),
        text_fits(symbol@),
        text_fits(uri@),
    ensures
        r@ == create_metadata_call(
            metadata.bytes@,
            mint.bytes@,
            mint_authority.bytes@,
            payer.bytes@,
            update_authority.bytes@,
            name@,
            symbol@,
            uri@,
            seller_fee_basis_points,
            update_authority_is_signer,
            is_mutable,
        ),
{
    let k = |k: &Key| Pubkey::new_from_array(k.bytes);
    invocation_of(mpl_token_metadata::instruction::create_metadata_accounts_v3(
        mpl_token_metadata::ID, k(metadata), k(mint), k(mint_authority), k(payer),
        k(update_authority), name, symbol, uri, None, seller_fee_basis_points,
        update_authority_is_signer, is_mutable, None, None, None,
    ))
}

} // verus!
