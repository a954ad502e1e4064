use vstd::prelude::*;

verus! {

/// A ledger address: 32 raw bytes.
#[derive(Clone, Copy, Debug, PartialEq, Eq)]
pub struct Key {
    pub bytes: [u8; 32],
}

/// An account handed to an invocation, with the flags the runtime checks.
#[derive(Clone, Copy, Debug, PartialEq, Eq)]
pub struct AccountRef {
    pub key: Key,
    pub is_signer: bool,
    pub is_writable: bool,
}

/// The six accounts of an issuance, by role.
#[derive(Clone, Copy, Debug)]
pub struct IssuanceAccounts {
    /// Pre-allocated account that becomes the mint.
    pub mint: AccountRef,
    /// Signer that becomes mint, freeze and update authority.
    pub owner: AccountRef,
    /// The rent sysvar.
    pub rent: AccountRef,
    /// The token program.
    pub token_program: AccountRef,
    /// Holding account that receives the initial supply.
    pub recipient: AccountRef,
    /// Signer that funds the metadata account.
    pub payer: AccountRef,
}

/// The roles that a list of at least six accounts binds, by position.
pub open spec fn roles_of(list: Seq<AccountRef>) -> IssuanceAccounts
    recommends
        list.len() >= 6,
{
    IssuanceAccounts {
        mint: list[0],
        owner: list[1],
        rent: list[2],
        token_program: list[3],
        recipient: list[4],
        payer: list[5],
    }
}

/// Binds the positional account list to named roles. Fails when fewer than
/// six accounts are given; accounts past the sixth are ignored.
pub fn bind_accounts(list: &[AccountRef]) -> (r: Option<IssuanceAccounts>)
    ensures
        r is Some <==> list@.len() >= 6,
        r matches Some(a) ==> a == roles_of(list@),
{
    if list.len() < 6 {
        return None;
    }
    Some(IssuanceAccounts {
        mint: list[0],
        owner: list[1],
        rent: list[2],
        token_program: list[3],
        recipient: list[4],
        payer: list[5],
    })
}

} // verus!
