//! Issues a fungible token in one transition: a mint, an initial supply and
//! descriptive metadata, requested from the token and metadata programs in a
//! fixed order.

pub mod accounts;
pub mod config;
pub mod calls;
pub mod issuance;

pub use accounts::{bind_accounts, AccountRef, IssuanceAccounts, Key};
pub use config::{decode_config, encode_config, MintConfig};
pub use calls::Invocation;
pub use issuance::{
    create_token_metadata, process_instruction, IssueError, Issuance, IssuancePlan, Stage, Step,
    MINT_DECIMALS,
};
