use vstd::prelude::*;
use crate::accounts::{bind_accounts, roles_of, AccountRef, IssuanceAccounts, Key};
use crate::calls::{
    create_metadata_call, create_metadata_instruction, initialize_mint_call,
    initialize_mint_instruction, metadata_address, metadata_address_of, mint_to_call,
    mint_to_instruction, Invocation, InvocationView,
};
use crate::config::{decode_config, decode_spec, text_field, text_fits, MintConfigView};
use solana_program::program_error::ProgramError;

verus! {

/// Decimal precision of every mint issued, as the native unit's.
pub const MINT_DECIMALS: u8 = 9;

/// Royalty on secondary sales, in basis points: none.
pub const SELLER_FEE_BASIS_POINTS: u16 = 0;

/// Whether the metadata record stays updatable by its update authority.
pub const METADATA_IS_MUTABLE: bool = true;

/// Whether the update authority co-signs the metadata creation.
pub const UPDATE_AUTHORITY_IS_SIGNER: bool = true;

/// Why an issuance did not happen.
#[derive(Debug)]
pub enum IssueError {
    /// The payload is not an encoded configuration.
    DecodeError,
    /// A program invoked along the way refused its request.
    ExternalRejection(ProgramError),
    /// Fewer than six accounts were supplied.
    PreconditionViolation,
}

/// The metadata request for a mint: the record at the mint's derived
/// address, the authority as mint and update authority, the payer funding
/// it, and the fixed policy (no royalty, no creators, co-signed, mutable).
pub open spec fn metadata_call_for(
    mint: Seq<u8>,
    authority: Seq<u8>,
    payer: Seq<u8>,
    name: Seq<char>,
    symbol: Seq<char>,
    uri: Seq<char>,
) -> InvocationView {
    create_metadata_call(
        metadata_address_of(mint),
        mint,
        authority,
        payer,
        authority,
        name,
        symbol,
        uri,
        SELLER_FEE_BASIS_POINTS,
        UPDATE_AUTHORITY_IS_SIGNER,
        METADATA_IS_MUTABLE,
    )
}

/// Builds the request that attaches name, symbol and URI to a mint.
pub fn create_token_metadata(
    mint_pubkey: &Key,
    mint_authority: &Key,
    payer: &Key,
    token_name: String,
    token_symbol: String,
    token_uri: String,
) -> (r: Invocation)
    requires
        text_fits(token_name@),
        text_fits(token_symbol@),
        text_fits(token_uri@),
    ensures
        r@ == metadata_call_for(
            mint_pubkey.bytes@,
            mint_authority.bytes@,
            payer.bytes@,
            token_name@,
            token_symbol@,
            token_uri@,
        ),
{
    let metadata = metadata_address(mint_pubkey);
    create_metadata_instruction(
        &metadata,
        mint_pubkey,
        mint_authority,
        payer,
        mint_authority,
        token_name,
        token_symbol,
        token_uri,
        SELLER_FEE_BASIS_POINTS,
        UPDATE_AUTHORITY_IS_SIGNER,
        METADATA_IS_MUTABLE,
    )
}

/// The three requests of an issuance, in the order they are made.
#[derive(Debug)]
pub struct IssuancePlan {
    pub initialize_mint: Invocation,
    pub mint_supply: Invocation,
    pub attach_metadata: Invocation,
}

pub struct PlanView {
    pub initialize_mint: InvocationView,
    pub mint_supply: InvocationView,
    pub attach_metadata: InvocationView,
}

impl View for IssuancePlan {
    type V = PlanView;

    open spec fn view(&self) -> PlanView {
        PlanView {
            initialize_mint: self.initialize_mint@,
            mint_supply: self.mint_supply@,
            attach_metadata: self.attach_metadata@,
        }
    }
}

/// What an issuance requests for the given accounts and configuration: a
/// mint with the owner as mint and freeze authority, the supply credited to
/// the recipient, and the metadata paid for by the payer.
pub open spec fn plan_for(a: IssuanceAccounts, c: MintConfigView) -> PlanView {
    PlanView {
        initialize_mint: initialize_mint_call(
            a.mint.key.bytes@,
            a.owner.key.bytes@,
            a.owner.key.bytes@,
            MINT_DECIMALS,
        ),
        mint_supply: mint_to_call(
            a.mint.key.bytes@,
            a.recipient.key.bytes@,
            a.owner.key.bytes@,
            c.initial_supply,
        ),
        attach_metadata: metadata_call_for(
            a.mint.key.bytes@,
            a.owner.key.bytes@,
            a.payer.key.bytes@,
            c.token_name,
            c.token_symbol,
            c.token_uri,
        ),
    }
}

/// One request of an issuance.
#[derive(Clone, Copy, Debug, PartialEq, Eq)]
pub enum Step {
    InitializeMint,
    MintSupply,
    AttachMetadata,
}

/// How far an issuance has got. Only `MetadataAttached` is success; from
/// `Aborted` the whole transition is rolled back by the runtime.
#[derive(Clone, Copy, Debug, PartialEq, Eq)]
pub enum Stage {
    Decoded,
    MintInitialized,
    SupplyMinted,
    MetadataAttached,
    Aborted,
}

/// The request due at a stage, if any.
pub open spec fn pending_spec(s: Stage) -> Option<Step> {
    match s {
        Stage::Decoded => Some(Step::InitializeMint),
        Stage::MintInitialized => Some(Step::MintSupply),
        Stage::SupplyMinted => Some(Step::AttachMetadata),
        _ => None,
    }
}

/// The stage after the due request succeeded or failed. A failure aborts;
/// a finished issuance stays as it is.
pub open spec fn advance_spec(s: Stage, succeeded: bool) -> Stage {
    match s {
        Stage::MetadataAttached => Stage::MetadataAttached,
        Stage::Aborted => Stage::Aborted,
        _ => if !succeeded {
            Stage::Aborted
        } else {
            match s {
                Stage::Decoded => Stage::MintInitialized,
                Stage::MintInitialized => Stage::SupplyMinted,
                _ => Stage::MetadataAttached,
            }
        },
    }
}

pub open spec fn plan_call(p: PlanView, step: Step) -> InvocationView {
    match step {
        Step::InitializeMint => p.initialize_mint,
        Step::MintSupply => p.mint_supply,
        Step::AttachMetadata => p.attach_metadata,
    }
}

/// An issuance under way: its requests and how far it has got.
#[derive(Debug)]
pub struct Issuance {
    pub plan: IssuancePlan,
    pub stage: Stage,
}

impl Issuance {
    /// The request to make next, if the issuance has not finished.
    pub fn pending(&self) -> (r: Option<Step>)
        ensures
            r == pending_spec(self.stage),
    {
        match self.stage {
            Stage::Decoded => Some(Step::InitializeMint),
            Stage::MintInitialized => Some(Step::MintSupply),
            Stage::SupplyMinted => Some(Step::AttachMetadata),
            _ => None,
        }
    }

    /// The invocation that carries out a step.
    pub fn invocation(&self, step: Step) -> (r: &Invocation)
        ensures
            r@ == plan_call(self.plan@, step),
    {
        match step {
            Step::InitializeMint => &self.plan.initialize_mint,
            Step::MintSupply => &self.plan.mint_supply,
            Step::AttachMetadata => &self.plan.attach_metadata,
        }
    }

    /// Records whether the due request succeeded.
    pub fn record(&mut self, succeeded: bool)
        ensures
            final(self).plan == old(self).plan,
            final(self).stage == advance_spec(old(self).stage, succeeded),
    {
        self.stage = match self.stage {
            Stage::MetadataAttached => Stage::MetadataAttached,
            Stage::Aborted => Stage::Aborted,
            Stage::Decoded => if succeeded {
                Stage::MintInitialized
            } else {
                Stage::Aborted
            },
            Stage::MintInitialized => if succeeded {
                Stage::SupplyMinted
            } else {
                Stage::Aborted
            },
            Stage::SupplyMinted => if succeeded {
                Stage::MetadataAttached
            } else {
                Stage::Aborted
            },
        };
    }

    /// Whether the mint, its supply and its metadata all exist.
    pub fn is_complete(&self) -> (r: bool)
        ensures
            r == (self.stage == Stage::MetadataAttached),
    {
        match self.stage {
            Stage::MetadataAttached => true,
            _ => false,
        }
    }
}

/// The stage reached from `s` when the due requests meet `outcomes` in turn.
pub open spec fn run(s: Stage, outcomes: Seq<bool>) -> Stage
    decreases outcomes.len(),
{
    if outcomes.len() == 0 {
        s
    } else {
        run(advance_spec(s, outcomes[0]), outcomes.drop_first())
    }
}

/// The requests made from `s` when they meet `outcomes` in turn.
pub open spec fn issued(s: Stage, outcomes: Seq<bool>) -> Seq<Step>
    decreases outcomes.len(),
{
    if outcomes.len() == 0 {
        Seq::empty()
    } else {
        match pending_spec(s) {
            Some(step) => seq![step] + issued(advance_spec(s, outcomes[0]), outcomes.drop_first()),
            None => Seq::empty(),
        }
    }
}

/// The order in which an issuance makes its requests.
pub open spec fn step_order() -> Seq<Step> {
    seq![Step::InitializeMint, Step::MintSupply, Step::AttachMetadata]
}

proof fn lemma_finished_stays(s: Stage, outcomes: Seq<bool>)
    requires
        pending_spec(s) is None,
    ensures
        run(s, outcomes) == s,
        issued(s, outcomes) == Seq::<Step>::empty(),
    decreases outcomes.len(),
{
    if outcomes.len() > 0 {
        lemma_finished_stays(s, outcomes.drop_first());
    }
}

/// Requests are made in the fixed order and each only after the one before
/// it succeeded: the supply is never minted before the mint is initialized,
/// nor the metadata attached before both.
pub proof fn lemma_requests_in_order(outcomes: Seq<bool>)
    ensures
        issued(Stage::Decoded, outcomes).len() <= 3,
        issued(Stage::Decoded, outcomes) == step_order().take(
            issued(Stage::Decoded, outcomes).len() as int,
        ),
        forall|i: int|
            0 < i < issued(Stage::Decoded, outcomes).len() ==> #[trigger] outcomes[i - 1],
{
    lemma_run_cases(outcomes);
}

/// The runs from the start, case by case on the first three outcomes.
proof fn lemma_run_cases(o: Seq<bool>)
    ensures
        o.len() == 0 ==> issued(Stage::Decoded, o) =~= step_order().take(0)
            && run(Stage::Decoded, o) == Stage::Decoded,
        o.len() >= 1 && !o[0] ==> issued(Stage::Decoded, o) =~= step_order().take(1)
            && run(Stage::Decoded, o) == Stage::Aborted,
        o.len() == 1 && o[0] ==> issued(Stage::Decoded, o) =~= step_order().take(1)
            && run(Stage::Decoded, o) == Stage::MintInitialized,
        o.len() >= 2 && o[0] && !o[1] ==> issued(Stage::Decoded, o) =~= step_order().take(2)
            && run(Stage::Decoded, o) == Stage::Aborted,
        o.len() == 2 && o[0] && o[1] ==> issued(Stage::Decoded, o) =~= step_order().take(2)
            && run(Stage::Decoded, o) == Stage::SupplyMinted,
        o.len() >= 3 && o[0] && o[1] ==> issued(Stage::Decoded, o) =~= step_order().take(3)
            && run(Stage::Decoded, o) == (if o[2] {
            Stage::MetadataAttached
        } else {
            Stage::Aborted
        }),
{
    if o.len() == 0 {
        return;
    }
    let o1 = o.drop_first();
    let s1 = advance_spec(Stage::Decoded, o[0]);
    assert(issued(Stage::Decoded, o) == seq![Step::InitializeMint] + issued(s1, o1));
    assert(run(Stage::Decoded, o) == run(s1, o1));
    if !o[0] {
        lemma_finished_stays(Stage::Aborted, o1);
        return;
    }
    if o1.len() == 0 {
        assert(issued(s1, o1) == Seq::<Step>::empty());
        return;
    }
    let o2 = o1.drop_first();
    let s2 = advance_spec(s1, o1[0]);
    assert(o1[0] == o[1]);
    assert(issued(s1, o1) == seq![Step::MintSupply] + issued(s2, o2));
    assert(run(s1, o1) == run(s2, o2));
    if !o1[0] {
        lemma_finished_stays(Stage::Aborted, o2);
        return;
    }
    if o2.len() == 0 {
        assert(issued(s2, o2) == Seq::<Step>::empty());
        return;
    }
    let o3 = o2.drop_first();
    let s3 = advance_spec(s2, o2[0]);
    assert(o2[0] == o[2]);
    assert(issued(s2, o2) == seq![Step::AttachMetadata] + issued(s3, o3));
    assert(run(s2, o2) == run(s3, o3));
    lemma_finished_stays(s3, o3);
}

/// An issuance succeeds exactly when all three requests succeed; a failed
/// request aborts it, and nothing after the failure is requested.
pub proof fn lemma_all_or_nothing(outcomes: Seq<bool>)
    ensures
        run(Stage::Decoded, outcomes) == Stage::MetadataAttached <==> outcomes.len() >= 3
            && outcomes[0] && outcomes[1] && outcomes[2],
        forall|i: int|
            0 <= i < issued(Stage::Decoded, outcomes).len() && !#[trigger] outcomes[i] ==> run(
                Stage::Decoded,
                outcomes,
            ) == Stage::Aborted && issued(Stage::Decoded, outcomes).len() == i + 1,
{
    lemma_run_cases(outcomes);
}

/// Every issuance uses the fixed policy: nine decimals, the owner as mint
/// and freeze authority and as the signer of the supply, and metadata with
/// a zero seller fee and no creators.
pub proof fn lemma_fixed_policy(a: IssuanceAccounts, c: MintConfigView)
    ensures
        ({
            let p = plan_for(a, c);
            let n = (1 + text_field(c.token_name).len() + text_field(c.token_symbol).len()
                + text_field(c.token_uri).len()) as int;
            &&& p.initialize_mint.data[1] == 9
            &&& p.initialize_mint.data.subrange(2, 34) == a.owner.key.bytes@
            &&& p.initialize_mint.data.subrange(35, 67) == a.owner.key.bytes@
            &&& p.mint_supply.accounts[2].key == a.owner.key.bytes@
            &&& p.mint_supply.accounts[2].is_signer
            &&& p.attach_metadata.data.len() == n + 7
            &&& p.attach_metadata.data[n] == 0 && p.attach_metadata.data[n + 1] == 0
            &&& p.attach_metadata.data[n + 2] == 0
        }),
{
    let p = plan_for(a, c);
    let owner = a.owner.key.bytes@;
    assert(owner.len() == 32);
    assert(p.initialize_mint.data.subrange(2, 34) =~= owner);
    assert(p.initialize_mint.data.subrange(35, 67) =~= owner);
    let d = p.attach_metadata.data;
    let f = seq![33u8] + text_field(c.token_name) + text_field(c.token_symbol) + text_field(
        c.token_uri,
    );
    assert(d == f + seq![0u8, 0u8] + seq![0u8, 0u8, 0u8, 1u8, 0u8]);
    let m: int = f.len() as int;
    assert(d[m] == 0 && d[m + 1] == 0 && d[m + 2] == 0);
}

/// Starts an issuance: decodes the payload, binds the accounts to their
/// roles and builds the three requests. A malformed payload is reported
/// before the accounts are looked at.
pub fn process_instruction(
    program_id: &Key,
    accounts: &[AccountRef],
    instruction_data: &[u8],
) -> (r: Result<Issuance, IssueError>)
    ensures
        r matches Err(IssueError::DecodeError) <==> decode_spec(instruction_data@) is None,
        r matches Err(IssueError::PreconditionViolation) <==> decode_spec(instruction_data@) is Some
            && accounts@.len() < 6,
        r is Ok <==> decode_spec(instruction_data@) is Some && accounts@.len() >= 6,
        r matches Ok(iss) ==> iss.stage == Stage::Decoded && iss.plan@ == plan_for(
            roles_of(accounts@),
            decode_spec(instruction_data@).unwrap(),
        ),
{
    let config = match decode_config(instruction_data) {
        Some(c) => c,
        None => return Err(IssueError::DecodeError),
    };
    let roles = match bind_accounts(accounts) {
        Some(a) => a,
        None => return Err(IssueError::PreconditionViolation),
    };
    let mint = roles.mint.key;
    let owner = roles.owner.key;
    let initialize_mint = match initialize_mint_instruction(&mint, &owner, &owner, MINT_DECIMALS) {
        Ok(i) => i,
        Err(e) => return Err(IssueError::ExternalRejection(e)),
    };
    let mint_supply = match mint_to_instruction(
        &mint,
        &roles.recipient.key,
        &owner,
        config.initial_supply,
    ) {
        Ok(i) => i,
        Err(e) => return Err(IssueError::ExternalRejection(e)),
    };
    let attach_metadata = create_token_metadata(
        &mint,
        &owner,
        &roles.payer.key,
        config.token_name,
        config.token_symbol,
        config.token_uri,
    );
    Ok(Issuance { plan: IssuancePlan { initialize_mint, mint_supply, attach_metadata }, stage: Stage::Decoded })
}

} // verus!
