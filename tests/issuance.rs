use kiboko_dao_token::{
    bind_accounts, create_token_metadata, decode_config, encode_config, process_instruction,
    AccountRef, IssueError, Issuance, Key, MintConfig, Stage, Step, MINT_DECIMALS,
};
use solana_program::pubkey::Pubkey;

fn key(b: u8) -> Key {
    Key { bytes: [b; 32] }
}

fn account(b: u8, is_signer: bool, is_writable: bool) -> AccountRef {
    AccountRef { key: key(b), is_signer, is_writable }
}

fn six_accounts() -> Vec<AccountRef> {
    vec![
        account(1, false, true),
        account(2, true, false),
        account(3, false, false),
        account(4, false, false),
        account(5, false, true),
        account(6, true, true),
    ]
}

fn kiboko() -> MintConfig {
    MintConfig {
        initial_supply: 1_000_000_000,
        token_name: "Kiboko".to_string(),
        token_symbol: "KIBO".to_string(),
        token_uri: "ipfs://abc123".to_string(),
    }
}

fn text_field(s: &str) -> Vec<u8> {
    let mut v = (s.len() as u32).to_le_bytes().to_vec();
    v.extend_from_slice(s.as_bytes());
    v
}

fn started(accounts: &[AccountRef]) -> Issuance {
    let data = encode_config(&kiboko()).unwrap();
    process_instruction(&key(9), accounts, &data).unwrap()
}

#[test]
fn encoding_has_supply_then_length_prefixed_texts() {
    let c = MintConfig {
        initial_supply: 0x0102_0304_0506_0708,
        token_name: "A".to_string(),
        token_symbol: "".to_string(),
        token_uri: "\u{e9}".to_string(),
    };
    let bytes = encode_config(&c).unwrap();
    let expected: Vec<u8> = vec![
        8, 7, 6, 5, 4, 3, 2, 1, 1, 0, 0, 0, b'A', 0, 0, 0, 0, 2, 0, 0, 0, 0xc3, 0xa9,
    ];
    assert_eq!(bytes, expected);
}

#[test]
fn decoding_an_encoding_gives_the_config_back() {
    let c = kiboko();
    let bytes = encode_config(&c).unwrap();
    let d = decode_config(&bytes).unwrap();
    assert_eq!(d.initial_supply, 1_000_000_000);
    assert_eq!(d.token_name, "Kiboko");
    assert_eq!(d.token_symbol, "KIBO");
    assert_eq!(d.token_uri, "ipfs://abc123");
}

#[test]
fn decoding_rejects_truncated_extended_and_invalid_payloads() {
    let bytes = encode_config(&kiboko()).unwrap();
    assert!(decode_config(&bytes[..bytes.len() - 1]).is_none());
    let mut longer = bytes.clone();
    longer.push(0);
    assert!(decode_config(&longer).is_none());
    assert!(decode_config(&[]).is_none());
    let mut bad_utf8 = vec![0u8; 8];
    bad_utf8.extend_from_slice(&[1, 0, 0, 0, 0xff]);
    bad_utf8.extend_from_slice(&[0, 0, 0, 0, 0, 0, 0, 0]);
    assert!(decode_config(&bad_utf8).is_none());
}

#[test]
fn binding_needs_six_accounts() {
    let list = six_accounts();
    let roles = bind_accounts(&list).unwrap();
    assert_eq!(roles.mint, list[0]);
    assert_eq!(roles.owner, list[1]);
    assert_eq!(roles.recipient, list[4]);
    assert_eq!(roles.payer, list[5]);
    assert!(bind_accounts(&list[..5]).is_none());
}

#[test]
fn scenario_kiboko_issuance_plan() {
    let iss = started(&six_accounts());
    assert_eq!(iss.stage, Stage::Decoded);
    let token_program = spl_token::id().to_bytes();

    let init = &iss.plan.initialize_mint;
    assert_eq!(init.program_id.bytes, token_program);
    assert_eq!(init.data[0], 0);
    assert_eq!(init.data[1], 9);
    assert_eq!(MINT_DECIMALS, 9);
    assert_eq!(&init.data[2..34], &[2u8; 32]);
    assert_eq!(init.data[34], 1);
    assert_eq!(&init.data[35..67], &[2u8; 32]);
    assert_eq!(init.accounts[0], account(1, false, true));
    assert_eq!(init.accounts[1].key.bytes, solana_program::sysvar::rent::id().to_bytes());

    let supply = &iss.plan.mint_supply;
    assert_eq!(supply.program_id.bytes, token_program);
    let mut expected = vec![7u8];
    expected.extend_from_slice(&1_000_000_000u64.to_le_bytes());
    assert_eq!(supply.data, expected);
    assert_eq!(supply.accounts, vec![account(1, false, true), account(5, false, true), account(2, true, false)]);

    let meta = &iss.plan.attach_metadata;
    assert_eq!(meta.program_id.bytes, mpl_token_metadata::ID.to_bytes());
    let mut expected = vec![33u8];
    expected.extend(text_field("Kiboko"));
    expected.extend(text_field("KIBO"));
    expected.extend(text_field("ipfs://abc123"));
    expected.extend_from_slice(&[0, 0, 0, 0, 0, 1, 0]);
    assert_eq!(meta.data, expected);
    let (pda, _) = mpl_token_metadata::pda::find_metadata_account(&Pubkey::new_from_array([1; 32]));
    assert_eq!(meta.accounts[0], AccountRef { key: Key { bytes: pda.to_bytes() }, is_signer: false, is_writable: true });
    assert_eq!(meta.accounts[1], account(1, false, false));
    assert_eq!(meta.accounts[2], account(2, true, false));
    assert_eq!(meta.accounts[3], account(6, true, true));
    assert_eq!(meta.accounts[4], account(2, true, false));
    assert_eq!(meta.accounts[5], account(0, false, false));
}

#[test]
fn scenario_all_steps_succeed() {
    let mut iss = started(&six_accounts());
    assert_eq!(iss.pending(), Some(Step::InitializeMint));
    iss.record(true);
    assert_eq!(iss.pending(), Some(Step::MintSupply));
    iss.record(true);
    assert_eq!(iss.pending(), Some(Step::AttachMetadata));
    iss.record(true);
    assert_eq!(iss.pending(), None);
    assert!(iss.is_complete());
    assert_eq!(iss.stage, Stage::MetadataAttached);
}

#[test]
fn scenario_supply_step_fails_and_nothing_follows() {
    let mut iss = started(&six_accounts());
    iss.record(true);
    assert_eq!(iss.pending(), Some(Step::MintSupply));
    iss.record(false);
    assert_eq!(iss.stage, Stage::Aborted);
    assert_eq!(iss.pending(), None);
    assert!(!iss.is_complete());
    iss.record(true);
    assert_eq!(iss.stage, Stage::Aborted);
}

#[test]
fn metadata_step_failure_aborts() {
    let mut iss = started(&six_accounts());
    iss.record(true);
    iss.record(true);
    iss.record(false);
    assert_eq!(iss.stage, Stage::Aborted);
    assert!(!iss.is_complete());
}

#[test]
fn invocation_follows_the_step() {
    let iss = started(&six_accounts());
    assert_eq!(iss.invocation(Step::InitializeMint).data, iss.plan.initialize_mint.data);
    assert_eq!(iss.invocation(Step::MintSupply).data, iss.plan.mint_supply.data);
    assert_eq!(iss.invocation(Step::AttachMetadata).data, iss.plan.attach_metadata.data);
}

#[test]
fn malformed_payload_is_a_decode_error() {
    let r = process_instruction(&key(9), &six_accounts(), &[1, 2, 3]);
    assert!(matches!(r, Err(IssueError::DecodeError)));
    let r = process_instruction(&key(9), &[], &[1, 2, 3]);
    assert!(matches!(r, Err(IssueError::DecodeError)));
}

#[test]
fn too_few_accounts_is_a_precondition_violation() {
    let data = encode_config(&kiboko()).unwrap();
    let list = six_accounts();
    let r = process_instruction(&key(9), &list[..5], &data);
    assert!(matches!(r, Err(IssueError::PreconditionViolation)));
}

#[test]
fn extra_accounts_are_ignored() {
    let mut list = six_accounts();
    list.push(account(7, false, false));
    let iss = started(&list);
    assert_eq!(iss.plan.mint_supply.accounts[1], account(5, false, true));
}

#[test]
fn metadata_request_binds_the_derived_record() {
    let inv = create_token_metadata(
        &key(1),
        &key(2),
        &key(6),
        "N".to_string(),
        "S".to_string(),
        "U".to_string(),
    );
    assert_ne!(inv.accounts[0].key, key(1));
    let (pda, _) = mpl_token_metadata::pda::find_metadata_account(&Pubkey::new_from_array([1; 32]));
    assert_eq!(inv.accounts[0].key.bytes, pda.to_bytes());
    assert_eq!(inv.data, vec![33, 1, 0, 0, 0, b'N', 1, 0, 0, 0, b'S', 1, 0, 0, 0, b'U', 0, 0, 0, 0, 0, 1, 0]);
}

#[test]
fn longest_metadata_texts_are_passed_through() {
    let name = "n".repeat(32);
    let symbol = "s".repeat(10);
    let uri = "u".repeat(200);
    let inv = create_token_metadata(&key(1), &key(2), &key(6), name.clone(), symbol.clone(), uri.clone());
    let mut expected = vec![33u8];
    expected.extend(text_field(&name));
    expected.extend(text_field(&symbol));
    expected.extend(text_field(&uri));
    expected.extend_from_slice(&[0, 0, 0, 0, 0, 1, 0]);
    assert_eq!(inv.data, expected);
}

#[test]
fn texts_beyond_the_metadata_bounds_are_left_to_the_metadata_program() {
    let name = "n".repeat(33);
    let symbol = "s".repeat(11);
    let uri = "u".repeat(201);
    let inv = create_token_metadata(&key(1), &key(2), &key(6), name.clone(), symbol.clone(), uri.clone());
    assert_eq!(inv.data.len(), 1 + 4 + 33 + 4 + 11 + 4 + 201 + 7);
    assert_eq!(&inv.data[5..38], name.as_bytes());
}
