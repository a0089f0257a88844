use vstd::prelude::*;
use crate::address::{
    Address, addr_eq, matches_derivation, derive_address, opt_view, program_address_of,
    endpoint_seeds, custody_seeds, custody_signer_seeds, mint_signer_seeds, wrapped_meta_seeds,
    wrapped_mint_seeds, endpoint_seeds_of, custody_seeds_of, custody_signer_seeds_of,
    mint_signer_seeds_of, wrapped_meta_seeds_of, wrapped_mint_seeds_of, config_seeds,
    config_seeds_of,
};
use crate::amount::{settlement, settle_amounts, local_value, lemma_amount_conservation};
use crate::claim::{ClaimLedger, MessageId};
use crate::error::BridgeError;

verus! {

/// The chain id of the chain this bridge runs on.
pub const LOCAL_CHAIN: u16 = 1;

/// The program whose namespace all derived addresses live in.
#[derive(Clone, Copy, Debug)]
pub struct ExecutionContext {
    pub program_id: Address,
}

/// An attested transfer with a payload, already checked for its signatures.
#[derive(Clone, Debug)]
pub struct TransferMessage {
    pub emitter_chain: u16,
    pub emitter_address: Address,
    pub sequence: u64,
    /// The token's address on its origin chain.
    pub token_address: Address,
    /// The token's origin chain.
    pub token_chain: u16,
    /// Canonical amount, at eight decimal places.
    pub amount: u128,
    /// Canonical fee, at eight decimal places.
    pub fee: u128,
    pub to: Address,
    pub to_chain: u16,
    pub from_address: Address,
    pub payload: Vec<u8>,
}

impl TransferMessage {
    pub open spec fn id_view(&self) -> (u16, Seq<u8>, u64) {
        (self.emitter_chain, self.emitter_address@, self.sequence)
    }

    /// The identity under which the message is claimed.
    pub fn id(&self) -> (r: MessageId)
        ensures
            r@ == self.id_view(),
    {
        MessageId {
            emitter_chain: self.emitter_chain,
            emitter_address: self.emitter_address,
            sequence: self.sequence,
        }
    }
}

/// A token account as the bridge reads it.
#[derive(Clone, Copy, Debug)]
pub struct TokenAccount {
    pub address: Address,
    pub mint: Address,
    pub owner: Address,
}

/// A mint as the bridge reads it.
#[derive(Clone, Copy, Debug)]
pub struct MintAccount {
    pub address: Address,
    pub decimals: u8,
}

/// The record of a wrapped asset: the origin of the asset that a local mint stands for.
#[derive(Clone, Copy, Debug)]
pub struct WrappedMeta {
    pub address: Address,
    pub chain: u16,
    pub token_address: Address,
}

/// The registration of a trusted emitter, created once per remote chain by
/// an administrative action and only read here.
#[derive(Clone, Copy, Debug)]
pub struct EndpointRecord {
    pub address: Address,
    pub chain: u16,
    pub emitter_address: Address,
}

/// The bridge's configuration account.
#[derive(Clone, Copy, Debug)]
pub struct ConfigRecord {
    pub address: Address,
    pub wormhole_bridge: Address,
}

/// One value movement that the ledger is to execute.
#[derive(Clone, Copy, Debug, PartialEq, Eq)]
pub enum TokenMovement {
    /// Move `amount` from `source` to `destination`, signed by `authority`.
    Transfer { source: Address, destination: Address, authority: Address, amount: u64 },
    /// Mint `amount` of `mint` to `destination`, signed by `authority`.
    MintTo { mint: Address, destination: Address, authority: Address, amount: u64 },
}

/// The accounts of a release of a natively issued token from custody.
#[derive(Clone, Debug)]
pub struct CompleteNativeWithPayload {
    pub payer: Address,
    pub config: Option<ConfigRecord>,
    pub vaa: TransferMessage,
    pub chain_registration: Option<EndpointRecord>,
    pub to: TokenAccount,
    pub to_owner: Address,
    pub to_fees: TokenAccount,
    pub custody: TokenAccount,
    pub mint: MintAccount,
    pub custody_signer: Address,
}

/// Instruction data of a native release; it carries nothing.
#[derive(Clone, Copy, Debug, Default)]
pub struct CompleteNativeWithPayloadData {}

/// The accounts of a mint of a wrapped token.
#[derive(Clone, Debug)]
pub struct CompleteWrappedWithPayload {
    pub payer: Address,
    pub config: Option<ConfigRecord>,
    pub vaa: TransferMessage,
    pub chain_registration: Option<EndpointRecord>,
    pub to: TokenAccount,
    pub to_owner: Address,
    pub to_fees: TokenAccount,
    pub mint: MintAccount,
    pub wrapped_meta: WrappedMeta,
    pub mint_authority: Address,
}

/// Instruction data of a wrapped mint; it carries nothing.
#[derive(Clone, Copy, Debug, Default)]
pub struct CompleteWrappedWithPayloadData {}

/// The addresses derived for the roles of a native release.
#[derive(Clone, Copy, Debug)]
pub struct NativeDerivations {
    pub registration: Option<Address>,
    pub config: Option<Address>,
    pub custody: Option<Address>,
    pub custody_signer: Option<Address>,
}

/// The addresses derived for the roles of a wrapped mint.
#[derive(Clone, Copy, Debug)]
pub struct WrappedDerivations {
    pub registration: Option<Address>,
    pub config: Option<Address>,
    pub mint: Option<Address>,
    pub wrapped_meta: Option<Address>,
    pub mint_authority: Option<Address>,
}

/// The emitter of the message is registered: its registration record exists,
/// sits at the address derived from the emitter, and names that emitter.
pub open spec fn endpoint_ok(
    vaa: TransferMessage,
    registration: Option<Seq<u8>>,
    chain_registration: Option<EndpointRecord>,
) -> bool {
    match chain_registration {
        Some(rec) => registration == Some(rec.address@) && rec.chain == vaa.emitter_chain
            && rec.emitter_address@ == vaa.emitter_address@,
        None => false,
    }
}

/// The configuration account exists and sits at its derived address.
pub open spec fn config_ok(config: Option<ConfigRecord>, derived: Option<Seq<u8>>) -> bool {
    match config {
        Some(c) => derived == Some(c.address@),
        None => false,
    }
}

/// Checks shared by both kinds of completion, in order: the emitter is a
/// registered endpoint, the message is for this chain, it names the presented
/// recipient, and the recipient owns the receiving token account.
pub open spec fn common_error(
    vaa: TransferMessage,
    registration: Option<Seq<u8>>,
    chain_registration: Option<EndpointRecord>,
    to: TokenAccount,
    to_owner: Address,
) -> Option<BridgeError> {
    if !endpoint_ok(vaa, registration, chain_registration) {
        Some(BridgeError::UntrustedEmitter)
    } else if vaa.to_chain != LOCAL_CHAIN {
        Some(BridgeError::WrongDestinationChain)
    } else if vaa.to@ != to_owner@ {
        Some(BridgeError::RecipientMismatch)
    } else if to.owner@ != to_owner@ {
        Some(BridgeError::OwnerMismatch)
    } else {
        None
    }
}

/// The presented accounts describe the native asset of the message.
pub open spec fn native_asset_ok(accs: CompleteNativeWithPayload) -> bool {
    &&& accs.vaa.token_chain == LOCAL_CHAIN
    &&& accs.vaa.token_address@ == accs.mint.address@
    &&& accs.to.mint@ == accs.mint.address@
    &&& accs.to_fees.mint@ == accs.mint.address@
    &&& accs.custody.mint@ == accs.mint.address@
}

/// The configuration, the custody account and its signer are the derived
/// ones, and the signer owns custody.
pub open spec fn native_roles_ok(
    accs: CompleteNativeWithPayload,
    config: Option<Seq<u8>>,
    custody: Option<Seq<u8>>,
    signer: Option<Seq<u8>>,
) -> bool {
    &&& config_ok(accs.config, config)
    &&& custody == Some(accs.custody.address@)
    &&& signer == Some(accs.custody_signer@)
    &&& accs.custody.owner@ == accs.custody_signer@
}

/// The two transfers out of custody: the net amount to the recipient, the fee to the collector.
pub open spec fn native_movements(accs: CompleteNativeWithPayload, net: nat, fee: nat) -> Seq<TokenMovement> {
    seq![
        TokenMovement::Transfer {
            source: accs.custody.address,
            destination: accs.to.address,
            authority: accs.custody_signer,
            amount: net as u64,
        },
        TokenMovement::Transfer {
            source: accs.custody.address,
            destination: accs.to_fees.address,
            authority: accs.custody_signer,
            amount: fee as u64,
        },
    ]
}

/// What a native release yields, given the derived addresses of its roles and
/// the identities already consumed.
pub open spec fn native_outcome(
    accs: CompleteNativeWithPayload,
    registration: Option<Seq<u8>>,
    config: Option<Seq<u8>>,
    custody: Option<Seq<u8>>,
    signer: Option<Seq<u8>>,
    claimed: Set<(u16, Seq<u8>, u64)>,
) -> Result<Seq<TokenMovement>, BridgeError> {
    match common_error(accs.vaa, registration, accs.chain_registration, accs.to, accs.to_owner) {
        Some(e) => Err(e),
        None => if !native_asset_ok(accs) {
            Err(BridgeError::AssetMismatch)
        } else if !native_roles_ok(accs, config, custody, signer) {
            Err(BridgeError::DerivationMismatch)
        } else if claimed.contains(accs.vaa.id_view()) {
            Err(BridgeError::AlreadyClaimed)
        } else {
            match settlement(accs.vaa.amount as nat, accs.vaa.fee as nat, accs.mint.decimals as nat) {
                Err(e) => Err(e),
                Ok((n, f)) => Ok(native_movements(accs, n, f)),
            }
        },
    }
}

/// The presented accounts describe the wrapped asset of the message: a
/// foreign token whose mint is derived from its origin, and whose derived
/// record holds that origin.
pub open spec fn wrapped_asset_ok(accs: CompleteWrappedWithPayload, mint: Option<Seq<u8>>, meta: Option<Seq<u8>>) -> bool {
    &&& accs.vaa.token_chain != LOCAL_CHAIN
    &&& mint == Some(accs.mint.address@)
    &&& meta == Some(accs.wrapped_meta.address@)
    &&& accs.wrapped_meta.token_address@ == accs.vaa.token_address@
    &&& accs.wrapped_meta.chain == accs.vaa.token_chain
    &&& accs.to.mint@ == accs.mint.address@
    &&& accs.to_fees.mint@ == accs.mint.address@
}

/// The two mints: the net amount to the recipient, the fee to the collector.
pub open spec fn wrapped_movements(accs: CompleteWrappedWithPayload, net: nat, fee: nat) -> Seq<TokenMovement> {
    seq![
        TokenMovement::MintTo {
            mint: accs.mint.address,
            destination: accs.to.address,
            authority: accs.mint_authority,
            amount: net as u64,
        },
        TokenMovement::MintTo {
            mint: accs.mint.address,
            destination: accs.to_fees.address,
            authority: accs.mint_authority,
            amount: fee as u64,
        },
    ]
}

/// What a wrapped mint yields, given the derived addresses of its roles and
/// the identities already consumed.
pub open spec fn wrapped_outcome(
    accs: CompleteWrappedWithPayload,
    registration: Option<Seq<u8>>,
    config: Option<Seq<u8>>,
    mint: Option<Seq<u8>>,
    meta: Option<Seq<u8>>,
    authority: Option<Seq<u8>>,
    claimed: Set<(u16, Seq<u8>, u64)>,
) -> Result<Seq<TokenMovement>, BridgeError> {
    match common_error(accs.vaa, registration, accs.chain_registration, accs.to, accs.to_owner) {
        Some(e) => Err(e),
        None => if !wrapped_asset_ok(accs, mint, meta) {
            Err(BridgeError::AssetMismatch)
        } else if !config_ok(accs.config, config) || authority != Some(accs.mint_authority@) {
            Err(BridgeError::DerivationMismatch)
        } else if claimed.contains(accs.vaa.id_view()) {
            Err(BridgeError::AlreadyClaimed)
        } else {
            match settlement(accs.vaa.amount as nat, accs.vaa.fee as nat, accs.mint.decimals as nat) {
                Err(e) => Err(e),
                Ok((n, f)) => Ok(wrapped_movements(accs, n, f)),
            }
        },
    }
}

/// The view of a completion's result.
pub open spec fn result_view(r: Result<Vec<TokenMovement>, BridgeError>) -> Result<Seq<TokenMovement>, BridgeError> {
    match r {
        Ok(v) => Ok(v@),
        Err(e) => Err(e),
    }
}

/// The identities consumed after a completion that yielded `r`: the message's
/// identity joins them on success only.
pub open spec fn claimed_after(
    claimed: Set<(u16, Seq<u8>, u64)>,
    id: (u16, Seq<u8>, u64),
    r: Result<Seq<TokenMovement>, BridgeError>,
) -> Set<(u16, Seq<u8>, u64)> {
    if r is Ok {
        claimed.insert(id)
    } else {
        claimed
    }
}

fn check_endpoint(
    vaa: &TransferMessage,
    registration: &Option<Address>,
    chain_registration: &Option<EndpointRecord>,
) -> (r: bool)
    ensures
        r == endpoint_ok(*vaa, opt_view(*registration), *chain_registration),
{
    match chain_registration {
        Some(rec) => matches_derivation(*registration, &rec.address) && rec.chain == vaa.emitter_chain
            && addr_eq(&rec.emitter_address, &vaa.emitter_address),
        None => false,
    }
}

fn check_config(config: &Option<ConfigRecord>, derived: &Option<Address>) -> (r: bool)
    ensures
        r == config_ok(*config, opt_view(*derived)),
{
    match config {
        Some(c) => matches_derivation(*derived, &c.address),
        None => false,
    }
}

fn check_common(
    vaa: &TransferMessage,
    registration: &Option<Address>,
    chain_registration: &Option<EndpointRecord>,
    to: &TokenAccount,
    to_owner: &Address,
) -> (r: Option<BridgeError>)
    ensures
        r == common_error(*vaa, opt_view(*registration), *chain_registration, *to, *to_owner),
{
    if !check_endpoint(vaa, registration, chain_registration) {
        Some(BridgeError::UntrustedEmitter)
    } else if vaa.to_chain != LOCAL_CHAIN {
        Some(BridgeError::WrongDestinationChain)
    } else if !addr_eq(&vaa.to, to_owner) {
        Some(BridgeError::RecipientMismatch)
    } else if !addr_eq(&to.owner, to_owner) {
        Some(BridgeError::OwnerMismatch)
    } else {
        None
    }
}

/// Validates a native release against the derived addresses of its roles,
/// claims the message, and returns the transfers out of custody. On any
/// failure the ledger is left as it was.
pub fn settle_native(
    accs: &CompleteNativeWithPayload,
    derived: &NativeDerivations,
    ledger: &mut ClaimLedger,
) -> (r: Result<Vec<TokenMovement>, BridgeError>)
    ensures
        result_view(r) == native_outcome(
            *accs,
            opt_view(derived.registration),
            opt_view(derived.config),
            opt_view(derived.custody),
            opt_view(derived.custody_signer),
            old(ledger)@.dom(),
        ),
        final(ledger)@.dom() == claimed_after(old(ledger)@.dom(), accs.vaa.id_view(), result_view(r)),
        r is Ok ==> final(ledger)@ == old(ledger)@.insert(accs.vaa.id_view(), accs.payer@),
        r is Err ==> final(ledger)@ == old(ledger)@,
{
    if let Some(e) = check_common(&accs.vaa, &derived.registration, &accs.chain_registration, &accs.to, &accs.to_owner) {
        return Err(e);
    }
    let mint = &accs.mint.address;
    if !(accs.vaa.token_chain == LOCAL_CHAIN && addr_eq(&accs.vaa.token_address, mint)
        && addr_eq(&accs.to.mint, mint) && addr_eq(&accs.to_fees.mint, mint) && addr_eq(&accs.custody.mint, mint)) {
        return Err(BridgeError::AssetMismatch);
    }
    if !(check_config(&accs.config, &derived.config)
        && matches_derivation(derived.custody, &accs.custody.address)
        && matches_derivation(derived.custody_signer, &accs.custody_signer)
        && addr_eq(&accs.custody.owner, &accs.custody_signer)) {
        return Err(BridgeError::DerivationMismatch);
    }
    let id = accs.vaa.id();
    if ledger.is_claimed(&id) {
        return Err(BridgeError::AlreadyClaimed);
    }
    let (net, fee) = match settle_amounts(accs.vaa.amount, accs.vaa.fee, accs.mint.decimals) {
        Ok(p) => p,
        Err(e) => {
            return Err(e);
        },
    };
    let _ = ledger.claim(id, accs.payer);
    let v = vec![
        TokenMovement::Transfer {
            source: accs.custody.address,
            destination: accs.to.address,
            authority: accs.custody_signer,
            amount: net,
        },
        TokenMovement::Transfer {
            source: accs.custody.address,
            destination: accs.to_fees.address,
            authority: accs.custody_signer,
            amount: fee,
        },
    ];
    assert(v@ =~= native_movements(*accs, net as nat, fee as nat));
    Ok(v)
}

/// Validates a wrapped mint against the derived addresses of its roles,
/// claims the message, and returns the mints. On any failure the ledger is
/// left as it was.
pub fn settle_wrapped(
    accs: &CompleteWrappedWithPayload,
    derived: &WrappedDerivations,
    ledger: &mut ClaimLedger,
) -> (r: Result<Vec<TokenMovement>, BridgeError>)
    ensures
        result_view(r) == wrapped_outcome(
            *accs,
            opt_view(derived.registration),
            opt_view(derived.config),
            opt_view(derived.mint),
            opt_view(derived.wrapped_meta),
            opt_view(derived.mint_authority),
            old(ledger)@.dom(),
        ),
        final(ledger)@.dom() == claimed_after(old(ledger)@.dom(), accs.vaa.id_view(), result_view(r)),
        r is Ok ==> final(ledger)@ == old(ledger)@.insert(accs.vaa.id_view(), accs.payer@),
        r is Err ==> final(ledger)@ == old(ledger)@,
{
    if let Some(e) = check_common(&accs.vaa, &derived.registration, &accs.chain_registration, &accs.to, &accs.to_owner) {
        return Err(e);
    }
    let mint = &accs.mint.address;
    if !(accs.vaa.token_chain != LOCAL_CHAIN
        && matches_derivation(derived.mint, mint)
        && matches_derivation(derived.wrapped_meta, &accs.wrapped_meta.address)
        && addr_eq(&accs.wrapped_meta.token_address, &accs.vaa.token_address)
        && accs.wrapped_meta.chain == accs.vaa.token_chain
        && addr_eq(&accs.to.mint, mint) && addr_eq(&accs.to_fees.mint, mint)) {
        return Err(BridgeError::AssetMismatch);
    }
    if !(check_config(&accs.config, &derived.config)
        && matches_derivation(derived.mint_authority, &accs.mint_authority)) {
        return Err(BridgeError::DerivationMismatch);
    }
    let id = accs.vaa.id();
    if ledger.is_claimed(&id) {
        return Err(BridgeError::AlreadyClaimed);
    }
    let (net, fee) = match settle_amounts(accs.vaa.amount, accs.vaa.fee, accs.mint.decimals) {
        Ok(p) => p,
        Err(e) => {
            return Err(e);
        },
    };
    let _ = ledger.claim(id, accs.payer);
    let v = vec![
        TokenMovement::MintTo {
            mint: accs.mint.address,
            destination: accs.to.address,
            authority: accs.mint_authority,
            amount: net,
        },
        TokenMovement::MintTo {
            mint: accs.mint.address,
            destination: accs.to_fees.address,
            authority: accs.mint_authority,
            amount: fee,
        },
    ];
    assert(v@ =~= wrapped_movements(*accs, net as nat, fee as nat));
    Ok(v)
}

/// Completes the release of a natively issued token: derives the address of
/// each role under the program's namespace and settles against them.
pub fn complete_native_with_payload(
    ctx: &ExecutionContext,
    accs: &CompleteNativeWithPayload,
    data: CompleteNativeWithPayloadData,
    ledger: &mut ClaimLedger,
) -> (r: Result<Vec<TokenMovement>, BridgeError>)
    ensures
        result_view(r) == native_outcome(
            *accs,
            program_address_of(endpoint_seeds(accs.vaa.emitter_chain, accs.vaa.emitter_address@), ctx.program_id@),
            program_address_of(config_seeds(), ctx.program_id@),
            program_address_of(custody_seeds(accs.mint.address@), ctx.program_id@),
            program_address_of(custody_signer_seeds(), ctx.program_id@),
            old(ledger)@.dom(),
        ),
        final(ledger)@.dom() == claimed_after(old(ledger)@.dom(), accs.vaa.id_view(), result_view(r)),
        r is Ok ==> final(ledger)@ == old(ledger)@.insert(accs.vaa.id_view(), accs.payer@),
        r is Err ==> final(ledger)@ == old(ledger)@,
{
    let derived = NativeDerivations {
        registration: derive_address(&ctx.program_id, &endpoint_seeds_of(accs.vaa.emitter_chain, &accs.vaa.emitter_address)),
        config: derive_address(&ctx.program_id, &config_seeds_of()),
        custody: derive_address(&ctx.program_id, &custody_seeds_of(&accs.mint.address)),
        custody_signer: derive_address(&ctx.program_id, &custody_signer_seeds_of()),
    };
    settle_native(accs, &derived, ledger)
}

/// Completes the mint of a wrapped token: derives the address of each role
/// under the program's namespace and settles against them.
pub fn complete_wrapped_with_payload(
    ctx: &ExecutionContext,
    accs: &CompleteWrappedWithPayload,
    data: CompleteWrappedWithPayloadData,
    ledger: &mut ClaimLedger,
) -> (r: Result<Vec<TokenMovement>, BridgeError>)
    ensures
        result_view(r) == wrapped_outcome(
            *accs,
            program_address_of(endpoint_seeds(accs.vaa.emitter_chain, accs.vaa.emitter_address@), ctx.program_id@),
            program_address_of(config_seeds(), ctx.program_id@),
            program_address_of(wrapped_mint_seeds(accs.vaa.token_chain, accs.vaa.token_address@), ctx.program_id@),
            program_address_of(wrapped_meta_seeds(accs.mint.address@), ctx.program_id@),
            program_address_of(mint_signer_seeds(), ctx.program_id@),
            old(ledger)@.dom(),
        ),
        final(ledger)@.dom() == claimed_after(old(ledger)@.dom(), accs.vaa.id_view(), result_view(r)),
        r is Ok ==> final(ledger)@ == old(ledger)@.insert(accs.vaa.id_view(), accs.payer@),
        r is Err ==> final(ledger)@ == old(ledger)@,
{
    let derived = WrappedDerivations {
        registration: derive_address(&ctx.program_id, &endpoint_seeds_of(accs.vaa.emitter_chain, &accs.vaa.emitter_address)),
        config: derive_address(&ctx.program_id, &config_seeds_of()),
        mint: derive_address(&ctx.program_id, &wrapped_mint_seeds_of(accs.vaa.token_chain, &accs.vaa.token_address)),
        wrapped_meta: derive_address(&ctx.program_id, &wrapped_meta_seeds_of(&accs.mint.address)),
        mint_authority: derive_address(&ctx.program_id, &mint_signer_seeds_of()),
    };
    settle_wrapped(accs, &derived, ledger)
}

/// Completing the same native release twice: if the first call succeeds the
/// second fails with `AlreadyClaimed`, and if the first fails it consumes
/// nothing and the second fails alike. At most one of the two moves funds.
pub proof fn lemma_exactly_once_native(
    accs: CompleteNativeWithPayload,
    registration: Option<Seq<u8>>,
    config: Option<Seq<u8>>,
    custody: Option<Seq<u8>>,
    signer: Option<Seq<u8>>,
    claimed: Set<(u16, Seq<u8>, u64)>,
)
    ensures
        ({
            let r1 = native_outcome(accs, registration, config, custody, signer, claimed);
            let r2 = native_outcome(accs, registration, config, custody, signer, claimed_after(claimed, accs.vaa.id_view(), r1));
            &&& r1 is Ok ==> r2 == Err::<Seq<TokenMovement>, BridgeError>(BridgeError::AlreadyClaimed)
            &&& r1 is Err ==> r2 == r1
            &&& !(r1 is Ok && r2 is Ok)
        }),
{
}

/// Completing the same wrapped mint twice: if the first call succeeds the
/// second fails with `AlreadyClaimed`, and if the first fails it consumes
/// nothing and the second fails alike. At most one of the two moves funds.
pub proof fn lemma_exactly_once_wrapped(
    accs: CompleteWrappedWithPayload,
    registration: Option<Seq<u8>>,
    config: Option<Seq<u8>>,
    mint: Option<Seq<u8>>,
    meta: Option<Seq<u8>>,
    authority: Option<Seq<u8>>,
    claimed: Set<(u16, Seq<u8>, u64)>,
)
    ensures
        ({
            let r1 = wrapped_outcome(accs, registration, config, mint, meta, authority, claimed);
            let r2 = wrapped_outcome(accs, registration, config, mint, meta, authority, claimed_after(claimed, accs.vaa.id_view(), r1));
            &&& r1 is Ok ==> r2 == Err::<Seq<TokenMovement>, BridgeError>(BridgeError::AlreadyClaimed)
            &&& r1 is Err ==> r2 == r1
            &&& !(r1 is Ok && r2 is Ok)
        }),
{
}

/// A native release whose checks before the replay claim all pass, and whose
/// fee is no larger than its amount, which fits in 64 bits once normalized.
pub open spec fn native_ready(
    accs: CompleteNativeWithPayload,
    registration: Option<Seq<u8>>,
    config: Option<Seq<u8>>,
    custody: Option<Seq<u8>>,
    signer: Option<Seq<u8>>,
) -> bool {
    &&& common_error(accs.vaa, registration, accs.chain_registration, accs.to, accs.to_owner) is None
    &&& native_asset_ok(accs)
    &&& native_roles_ok(accs, config, custody, signer)
    &&& accs.vaa.fee <= accs.vaa.amount
    &&& local_value(accs.vaa.amount as nat, accs.mint.decimals as nat) <= u64::MAX
}

/// A wrapped mint whose checks before the replay claim all pass, and whose
/// fee is no larger than its amount, which fits in 64 bits once normalized.
pub open spec fn wrapped_ready(
    accs: CompleteWrappedWithPayload,
    registration: Option<Seq<u8>>,
    config: Option<Seq<u8>>,
    mint: Option<Seq<u8>>,
    meta: Option<Seq<u8>>,
    authority: Option<Seq<u8>>,
) -> bool {
    &&& common_error(accs.vaa, registration, accs.chain_registration, accs.to, accs.to_owner) is None
    &&& wrapped_asset_ok(accs, mint, meta)
    &&& config_ok(accs.config, config)
    &&& authority == Some(accs.mint_authority@)
    &&& accs.vaa.fee <= accs.vaa.amount
    &&& local_value(accs.vaa.amount as nat, accs.mint.decimals as nat) <= u64::MAX
}

/// The amount a movement carries.
pub open spec fn movement_amount(m: TokenMovement) -> u64 {
    match m {
        TokenMovement::Transfer { amount, .. } => amount,
        TokenMovement::MintTo { amount, .. } => amount,
    }
}

/// Two native releases of messages with one identity, by any payers, one
/// after the other on a ledger that has not seen it: the first succeeds, the
/// second fails with `AlreadyClaimed`, and the identity is consumed once.
pub proof fn lemma_exactly_one_native(
    a1: CompleteNativeWithPayload,
    a2: CompleteNativeWithPayload,
    reg1: Option<Seq<u8>>,
    config1: Option<Seq<u8>>,
    custody1: Option<Seq<u8>>,
    signer1: Option<Seq<u8>>,
    reg2: Option<Seq<u8>>,
    config2: Option<Seq<u8>>,
    custody2: Option<Seq<u8>>,
    signer2: Option<Seq<u8>>,
    claimed: Set<(u16, Seq<u8>, u64)>,
)
    requires
        a1.vaa.id_view() == a2.vaa.id_view(),
        !claimed.contains(a1.vaa.id_view()),
        native_ready(a1, reg1, config1, custody1, signer1),
        native_ready(a2, reg2, config2, custody2, signer2),
    ensures
        ({
            let r1 = native_outcome(a1, reg1, config1, custody1, signer1, claimed);
            let c1 = claimed_after(claimed, a1.vaa.id_view(), r1);
            let r2 = native_outcome(a2, reg2, config2, custody2, signer2, c1);
            &&& r1 is Ok
            &&& r2 == Err::<Seq<TokenMovement>, BridgeError>(BridgeError::AlreadyClaimed)
            &&& claimed_after(c1, a2.vaa.id_view(), r2) == claimed.insert(a1.vaa.id_view())
        }),
{
    lemma_amount_conservation(a1.vaa.amount as nat, a1.vaa.fee as nat, a1.mint.decimals as nat);
}

/// Two wrapped mints of messages with one identity, by any payers, one after
/// the other on a ledger that has not seen it: the first succeeds, the second
/// fails with `AlreadyClaimed`, and the identity is consumed once.
pub proof fn lemma_exactly_one_wrapped(
    a1: CompleteWrappedWithPayload,
    a2: CompleteWrappedWithPayload,
    reg1: Option<Seq<u8>>,
    config1: Option<Seq<u8>>,
    mint1: Option<Seq<u8>>,
    meta1: Option<Seq<u8>>,
    auth1: Option<Seq<u8>>,
    reg2: Option<Seq<u8>>,
    config2: Option<Seq<u8>>,
    mint2: Option<Seq<u8>>,
    meta2: Option<Seq<u8>>,
    auth2: Option<Seq<u8>>,
    claimed: Set<(u16, Seq<u8>, u64)>,
)
    requires
        a1.vaa.id_view() == a2.vaa.id_view(),
        !claimed.contains(a1.vaa.id_view()),
        wrapped_ready(a1, reg1, config1, mint1, meta1, auth1),
        wrapped_ready(a2, reg2, config2, mint2, meta2, auth2),
    ensures
        ({
            let r1 = wrapped_outcome(a1, reg1, config1, mint1, meta1, auth1, claimed);
            let c1 = claimed_after(claimed, a1.vaa.id_view(), r1);
            let r2 = wrapped_outcome(a2, reg2, config2, mint2, meta2, auth2, c1);
            &&& r1 is Ok
            &&& r2 == Err::<Seq<TokenMovement>, BridgeError>(BridgeError::AlreadyClaimed)
            &&& claimed_after(c1, a2.vaa.id_view(), r2) == claimed.insert(a1.vaa.id_view())
        }),
{
    lemma_amount_conservation(a1.vaa.amount as nat, a1.vaa.fee as nat, a1.mint.decimals as nat);
}

/// A ready native release of an unconsumed message succeeds, and its two
/// transfers carry the normalized fee and the rest of the normalized amount:
/// together exactly the normalized amount.
pub proof fn lemma_native_conservation(
    accs: CompleteNativeWithPayload,
    registration: Option<Seq<u8>>,
    config: Option<Seq<u8>>,
    custody: Option<Seq<u8>>,
    signer: Option<Seq<u8>>,
    claimed: Set<(u16, Seq<u8>, u64)>,
)
    requires
        native_ready(accs, registration, config, custody, signer),
        !claimed.contains(accs.vaa.id_view()),
    ensures
        native_outcome(accs, registration, config, custody, signer, claimed) matches Ok(mv)
            && mv.len() == 2
            && movement_amount(mv[0]) + movement_amount(mv[1])
                == local_value(accs.vaa.amount as nat, accs.mint.decimals as nat)
            && movement_amount(mv[1]) == local_value(accs.vaa.fee as nat, accs.mint.decimals as nat),
{
    lemma_amount_conservation(accs.vaa.amount as nat, accs.vaa.fee as nat, accs.mint.decimals as nat);
}

/// A ready wrapped mint of an unconsumed message succeeds, and its two mints
/// carry the normalized fee and the rest of the normalized amount: together
/// exactly the normalized amount.
pub proof fn lemma_wrapped_conservation(
    accs: CompleteWrappedWithPayload,
    registration: Option<Seq<u8>>,
    config: Option<Seq<u8>>,
    mint: Option<Seq<u8>>,
    meta: Option<Seq<u8>>,
    authority: Option<Seq<u8>>,
    claimed: Set<(u16, Seq<u8>, u64)>,
)
    requires
        wrapped_ready(accs, registration, config, mint, meta, authority),
        !claimed.contains(accs.vaa.id_view()),
    ensures
        wrapped_outcome(accs, registration, config, mint, meta, authority, claimed) matches Ok(mv)
            && mv.len() == 2
            && movement_amount(mv[0]) + movement_amount(mv[1])
                == local_value(accs.vaa.amount as nat, accs.mint.decimals as nat)
            && movement_amount(mv[1]) == local_value(accs.vaa.fee as nat, accs.mint.decimals as nat),
{
    lemma_amount_conservation(accs.vaa.amount as nat, accs.vaa.fee as nat, accs.mint.decimals as nat);
}

/// A native release whose configuration, custody account, custody signer or
/// custody owner is not the one derived for its role fails with
/// `DerivationMismatch` once the earlier checks pass, each role on its own,
/// and consumes nothing.
pub proof fn lemma_derivation_rejection_native(
    accs: CompleteNativeWithPayload,
    registration: Option<Seq<u8>>,
    config: Option<Seq<u8>>,
    custody: Option<Seq<u8>>,
    signer: Option<Seq<u8>>,
    claimed: Set<(u16, Seq<u8>, u64)>,
)
    requires
        common_error(accs.vaa, registration, accs.chain_registration, accs.to, accs.to_owner) is None,
        native_asset_ok(accs),
        !native_roles_ok(accs, config, custody, signer),
    ensures
        native_outcome(accs, registration, config, custody, signer, claimed)
            == Err::<Seq<TokenMovement>, BridgeError>(BridgeError::DerivationMismatch),
        claimed_after(claimed, accs.vaa.id_view(), native_outcome(accs, registration, config, custody, signer, claimed))
            == claimed,
{
}

/// A wrapped mint whose configuration or mint authority is not the one
/// derived for its role fails with `DerivationMismatch` once the earlier
/// checks pass, and consumes nothing.
pub proof fn lemma_derivation_rejection_wrapped(
    accs: CompleteWrappedWithPayload,
    registration: Option<Seq<u8>>,
    config: Option<Seq<u8>>,
    mint: Option<Seq<u8>>,
    meta: Option<Seq<u8>>,
    authority: Option<Seq<u8>>,
    claimed: Set<(u16, Seq<u8>, u64)>,
)
    requires
        common_error(accs.vaa, registration, accs.chain_registration, accs.to, accs.to_owner) is None,
        wrapped_asset_ok(accs, mint, meta),
        !config_ok(accs.config, config) || authority != Some(accs.mint_authority@),
    ensures
        wrapped_outcome(accs, registration, config, mint, meta, authority, claimed)
            == Err::<Seq<TokenMovement>, BridgeError>(BridgeError::DerivationMismatch),
        claimed_after(claimed, accs.vaa.id_view(), wrapped_outcome(accs, registration, config, mint, meta, authority, claimed))
            == claimed,
{
}

/// A message from an emitter without a registration, or whose registration is
/// not the one derived for it, is refused with `UntrustedEmitter`.
pub proof fn lemma_unregistered_emitter(
    native: CompleteNativeWithPayload,
    wrapped: CompleteWrappedWithPayload,
    d1: Option<Seq<u8>>,
    d2: Option<Seq<u8>>,
    d3: Option<Seq<u8>>,
    d4: Option<Seq<u8>>,
    d5: Option<Seq<u8>>,
    claimed: Set<(u16, Seq<u8>, u64)>,
)
    ensures
        !endpoint_ok(native.vaa, d1, native.chain_registration)
            ==> native_outcome(native, d1, d2, d3, d4, claimed)
            == Err::<Seq<TokenMovement>, BridgeError>(BridgeError::UntrustedEmitter),
        !endpoint_ok(wrapped.vaa, d1, wrapped.chain_registration)
            ==> wrapped_outcome(wrapped, d1, d2, d3, d4, d5, claimed)
            == Err::<Seq<TokenMovement>, BridgeError>(BridgeError::UntrustedEmitter),
{
}

/// A message from a registered endpoint that is addressed to another chain is
/// refused with `WrongDestinationChain`, whatever its other fields hold.
pub proof fn lemma_cross_chain_isolation(
    native: CompleteNativeWithPayload,
    wrapped: CompleteWrappedWithPayload,
    registration: Option<Seq<u8>>,
    d2: Option<Seq<u8>>,
    d3: Option<Seq<u8>>,
    d4: Option<Seq<u8>>,
    d5: Option<Seq<u8>>,
    claimed: Set<(u16, Seq<u8>, u64)>,
)
    ensures
        endpoint_ok(native.vaa, registration, native.chain_registration) && native.vaa.to_chain != LOCAL_CHAIN
            ==> native_outcome(native, registration, d2, d3, d4, claimed)
            == Err::<Seq<TokenMovement>, BridgeError>(BridgeError::WrongDestinationChain),
        endpoint_ok(wrapped.vaa, registration, wrapped.chain_registration) && wrapped.vaa.to_chain != LOCAL_CHAIN
            ==> wrapped_outcome(wrapped, registration, d2, d3, d4, d5, claimed)
            == Err::<Seq<TokenMovement>, BridgeError>(BridgeError::WrongDestinationChain),
{
}

/// The kind of a successful completion follows the message's origin chain: a
/// release from custody only for tokens of this chain, a mint only for tokens
/// of other chains.
pub proof fn lemma_kind_follows_origin(
    native: CompleteNativeWithPayload,
    wrapped: CompleteWrappedWithPayload,
    d1: Option<Seq<u8>>,
    d2: Option<Seq<u8>>,
    d3: Option<Seq<u8>>,
    d4: Option<Seq<u8>>,
    d5: Option<Seq<u8>>,
    claimed: Set<(u16, Seq<u8>, u64)>,
)
    ensures
        native_outcome(native, d1, d2, d3, d4, claimed) is Ok ==> native.vaa.token_chain == LOCAL_CHAIN,
        wrapped_outcome(wrapped, d1, d2, d3, d4, d5, claimed) is Ok ==> wrapped.vaa.token_chain != LOCAL_CHAIN,
{
}

} // verus!
