//! The method dispatcher: routes a method name to a handler, validates the
//! parameters, reads or mutates the session state under the caller's lock,
//! and wraps the result or error into a response envelope. Work that only
//! the wallet or signer engine can do is returned as an [`Action`]; the
//! caller performs it and hands the outcome back to [`resume`].
use vstd::prelude::*;
use vstd::string::*;

use crate::classify::{classify, has_dup, spec_classify, spec_has_dup, spec_wallet_signers,
    wallet_signers, WalletType};
use crate::errors::Error;
use crate::hex::{is_asset_id, hex_to_bytes, parse_fingerprint, spec_hex_bytes,
    spec_is_asset_id, spec_parse_fingerprint};
use crate::method::{parse_method, spec_parse_method, str_is, Method};
use crate::schema::{parse_direction, schema, spec_parse_direction, spec_schema, SchemaField};
use crate::session::{State, WalletEntry};
use crate::signers::{duplicate_fingerprint_warning, resolve_signers, resolved_name_ok,
    signer_response_from, spec_saw_multi, spec_unknown_count, unknown_warning_seq, views_of,
    AppSigner, SignerDetails, SignerInfo};

verus! {

/// One addressee of a payment: an amount, an address and an asset.
pub struct Addressee {
    pub satoshi: u64,
    pub address: String,
    pub asset: String,
}

/// The parameters a request may carry; each handler reads the fields its
/// method requires and rejects the request when one is missing.
pub struct Params {
    pub name: Option<String>,
    pub descriptor: Option<String>,
    pub kind: Option<String>,
    pub mnemonic: Option<String>,
    pub fingerprint: Option<String>,
    pub index: Option<u32>,
    pub addressees: Option<Vec<Addressee>>,
    pub singlesig_kind: Option<String>,
    pub multisig_kind: Option<String>,
    pub descriptor_blinding_key: Option<String>,
    pub keyorigin_xpubs: Option<Vec<String>>,
    pub threshold: Option<u32>,
    pub xpub_kind: Option<String>,
    pub pset: Option<String>,
    pub psets: Option<Vec<String>>,
    pub dry_run: Option<bool>,
    pub method: Option<String>,
    pub direction: Option<String>,
    pub satoshi_asset: Option<u64>,
    pub address_asset: Option<String>,
    pub satoshi_token: Option<u64>,
    pub address_token: Option<String>,
    pub contract: Option<String>,
    pub domain: Option<String>,
    pub issuer_pubkey: Option<String>,
    pub precision: Option<u8>,
    pub ticker: Option<String>,
    pub contract_version: Option<u8>,
    pub asset_id: Option<String>,
}

impl Params {
    /// A request with no parameters at all.
    pub fn empty() -> (p: Params)
        ensures
            p.name is None,
            p.descriptor is None,
            p.kind is None,
            p.mnemonic is None,
            p.fingerprint is None,
            p.index is None,
            p.addressees is None,
            p.singlesig_kind is None,
            p.multisig_kind is None,
            p.descriptor_blinding_key is None,
            p.keyorigin_xpubs is None,
            p.threshold is None,
            p.xpub_kind is None,
            p.pset is None,
            p.psets is None,
            p.dry_run is None,
            p.method is None,
            p.direction is None,
            p.satoshi_asset is None,
            p.address_asset is None,
            p.satoshi_token is None,
            p.address_token is None,
            p.contract is None,
            p.domain is None,
            p.issuer_pubkey is None,
            p.precision is None,
            p.ticker is None,
            p.contract_version is None,
            p.asset_id is None,
    {
        Params {
            name: None,
            descriptor: None,
            kind: None,
            mnemonic: None,
            fingerprint: None,
            index: None,
            addressees: None,
            singlesig_kind: None,
            multisig_kind: None,
            descriptor_blinding_key: None,
            keyorigin_xpubs: None,
            threshold: None,
            xpub_kind: None,
            pset: None,
            psets: None,
            dry_run: None,
            method: None,
            direction: None,
            satoshi_asset: None,
            address_asset: None,
            satoshi_token: None,
            address_token: None,
            contract: None,
            domain: None,
            issuer_pubkey: None,
            precision: None,
            ticker: None,
            contract_version: None,
            asset_id: None,
        }
    }
}

/// A wallet's name and descriptor as reported to callers.
pub struct WalletInfo {
    pub name: String,
    pub descriptor: String,
}

/// One per-asset balance entry.
pub struct BalanceEntry {
    pub asset: String,
    pub value: u64,
}

/// An asset contract as validated and reported.
pub struct ContractInfo {
    pub domain: String,
    pub issuer_pubkey: Vec<u8>,
    pub name: String,
    pub precision: u8,
    pub ticker: String,
    pub version: u8,
}

/// The typed result of a successful method.
pub enum Payload {
    Schema(Vec<SchemaField>),
    GenerateSigner { mnemonic: String },
    Version { version: String },
    Wallet(WalletInfo),
    UnloadWallet(WalletInfo),
    ListWallets(Vec<WalletInfo>),
    Signer(SignerInfo),
    UnloadSigner(SignerInfo),
    ListSigners(Vec<SignerInfo>),
    Address { address: String, index: u32 },
    Balance(Vec<BalanceEntry>),
    Pset { pset: String },
    SinglesigDescriptor { descriptor: String },
    MultisigDescriptor { descriptor: String },
    Xpub { keyorigin_xpub: String },
    Broadcast { txid: String },
    WalletDetails {
        wallet_kind: WalletType,
        signers: Vec<SignerDetails>,
        warnings: Vec<String>,
    },
    WalletCombine { pset: String },
    PsetDetails {
        has_signatures_from: Vec<SignerDetails>,
        missing_signatures_from: Vec<SignerDetails>,
        warnings: Vec<String>,
    },
    Contract(ContractInfo),
    AssetDetails { name: String },
    Stopped,
}

/// The response envelope, keyed by the request id.
pub enum Response {
    Result { id: u64, payload: Payload },
    Fail { id: u64, code: i64, message: String },
    Unimplemented { id: u64, method: String },
}

/// Kinds of single-signer descriptors.
#[derive(Clone, Copy, PartialEq, Eq, Structural, Debug)]
pub enum SinglesigKind {
    Wpkh,
    ShWpkh,
}

/// Kinds of multi-signer descriptors.
#[derive(Clone, Copy, PartialEq, Eq, Structural, Debug)]
pub enum MultisigKind {
    Wsh,
}

/// Kinds of descriptor blinding keys.
#[derive(Clone, Copy, PartialEq, Eq, Structural, Debug)]
pub enum BlindingKeyKind {
    Slip77,
    Slip77Rand,
    Elip151,
}

/// Derivation standards for an extended public key.
#[derive(Clone, Copy, PartialEq, Eq, Structural, Debug)]
pub enum XpubKind {
    Bip49,
    Bip84,
    Bip87,
}

/// Work only the wallet or signer engine can do: the caller performs it and
/// reports back through [`resume`]. Fee rates stay with the caller, which
/// keeps them from its own request copy.
pub enum Action {
    CreateWallet { name: String, descriptor: String },
    GenerateSigner,
    CreateSoftwareSigner { name: String, mnemonic: String },
    CreateSerialSigner { name: String },
    SyncAddress { name: String, index: Option<u32> },
    SyncBalance { name: String },
    SyncSend { name: String, addressees: Vec<Addressee> },
    BuildSinglesigDescriptor { name: String, singlesig: SinglesigKind, blinding: BlindingKeyKind },
    BuildMultisigDescriptor {
        threshold: u32,
        keyorigin_xpubs: Vec<String>,
        multisig: MultisigKind,
        blinding: BlindingKeyKind,
    },
    DeriveXpub { name: String, standard: XpubKind },
    SignPset { name: String, pset: String },
    CombinePsets { name: String, psets: Vec<String> },
    FinalizePset { name: String, pset: String, dry_run: bool },
    BroadcastTx { txid: String },
    GetPsetDetails { name: String, pset: String },
    SyncIssue {
        name: String,
        satoshi_asset: u64,
        address_asset: String,
        satoshi_token: u64,
        address_token: String,
        contract: String,
    },
    ValidateContract(ContractInfo),
}

/// What the engine reported back for an action.
pub enum EngineReply {
    Failed { message: String },
    WalletCreated,
    MnemonicGenerated { mnemonic: String },
    SignerCreated { fingerprint: u32, identifier: String, xpub: String },
    AddressResult { address: String, index: u32 },
    BalanceResult { balances: Vec<BalanceEntry> },
    PsetResult { pset: String },
    DescriptorBuilt { descriptor: String },
    XpubResult { keyorigin_xpub: String },
    Finalized { txid: String },
    BroadcastDone,
    PsetDetailsResult { has: Vec<u32>, missing: Vec<u32> },
    ContractValid,
}

/// What a handled request asks of the caller next.
pub enum Outcome {
    /// Send this response.
    Reply(Response),
    /// Perform this engine action and call [`resume`] with its result.
    Engine(Action),
    /// Send this response, then shut the server down in an orderly way.
    Stop(Response),
}

/// The outcome is a failure response under `id` with this code and message.
pub open spec fn fails_with(o: Outcome, id: u64, code: i64, msg: Seq<char>) -> bool {
    o matches Outcome::Reply(Response::Fail { id: rid, code: c, message: m }) && rid == id && c
        == code && m@ == msg
}

pub open spec fn param_fails(o: Outcome, id: u64, msg: Seq<char>) -> bool {
    fails_with(o, id, -32602i64, msg)
}

pub open spec fn not_found_fails(o: Outcome, id: u64, msg: Seq<char>) -> bool {
    fails_with(o, id, -32008i64, msg)
}

pub open spec fn conflict_fails(o: Outcome, id: u64, msg: Seq<char>) -> bool {
    fails_with(o, id, -32009i64, msg)
}

pub open spec fn upstream_fails(o: Outcome, id: u64, msg: Seq<char>) -> bool {
    fails_with(o, id, -32010i64, msg)
}

/// Everything but the wallet registry is unchanged.
pub open spec fn only_wallets_change(pre: State, post: State) -> bool {
    post.signers == pre.signers && post.assets == pre.assets && post.config == pre.config
}

/// Everything but the signer registry is unchanged.
pub open spec fn only_signers_change(pre: State, post: State) -> bool {
    post.wallets == pre.wallets && post.assets == pre.assets && post.config == pre.config
}

pub open spec fn post_schema(pre: State, post: State, id: u64, p: Params, o: Outcome) -> bool {
    post == pre && match p.method {
        None => param_fails(o, id, "method must be set"@),
        Some(ms) => match p.direction {
            None => param_fails(o, id, "direction must be set"@),
            Some(ds) => match spec_parse_direction(ds@) {
                None => param_fails(o, id, "direction must be request or response"@),
                Some(dir) => match spec_parse_method(ms@) {
                    None => not_found_fails(o, id, ms@),
                    Some(tm) => o matches Outcome::Reply(Response::Result {
                        id: rid,
                        payload: Payload::Schema(fields),
                    }) && rid == id && fields@ == spec_schema(tm, dir),
                },
            },
        },
    }
}

pub open spec fn post_version(pre: State, post: State, id: u64, o: Outcome) -> bool {
    post == pre && (o matches Outcome::Reply(Response::Result {
        id: rid,
        payload: Payload::Version { version },
    }) && rid == id && version@ == crate::APP_VERSION@)
}

pub open spec fn post_generate_signer(pre: State, post: State, id: u64, o: Outcome) -> bool {
    post == pre && o matches Outcome::Engine(Action::GenerateSigner)
}

pub open spec fn post_load_wallet(pre: State, post: State, id: u64, p: Params, o: Outcome) -> bool {
    post == pre && match p.name {
        None => param_fails(o, id, "name must be set"@),
        Some(n) => match p.descriptor {
            None => param_fails(o, id, "descriptor must be set"@),
            Some(d) => if pre.wallets.as_map().dom().contains(n@) {
                conflict_fails(o, id, n@)
            } else {
                o matches Outcome::Engine(Action::CreateWallet { name, descriptor }) && name@ == n@
                    && descriptor@ == d@
            },
        },
    }
}

pub open spec fn post_unload_wallet(
    pre: State,
    post: State,
    id: u64,
    p: Params,
    o: Outcome,
) -> bool {
    match p.name {
        None => post == pre && param_fails(o, id, "name must be set"@),
        Some(n) => if pre.wallets.as_map().dom().contains(n@) {
            &&& post.wallets.as_map() == pre.wallets.as_map().remove(n@)
            &&& post.wallets.spec_entries() == pre.wallets.spec_entries().remove(
                pre.wallets.idx_of(n@),
            )
            &&& 0 <= pre.wallets.idx_of(n@) < pre.wallets.spec_entries().len()
            &&& only_wallets_change(pre, post)
            &&& (o matches Outcome::Reply(Response::Result {
                id: rid,
                payload: Payload::UnloadWallet(w),
            }) && rid == id && w.name@ == n@ && w.descriptor@ == pre.wallets.as_map()[
                n@
            ].descriptor@)
        } else {
            post == pre && not_found_fails(o, id, n@)
        },
    }
}

/// The reported wallet list mirrors the registry entries, in order.
pub open spec fn wallets_match(entries: Seq<(Seq<char>, WalletEntry)>, ws: Seq<WalletInfo>) -> bool {
    ws.len() == entries.len() && forall|i: int|
        0 <= i < ws.len() ==> (#[trigger] ws[i]).name@ == entries[i].0 && ws[i].descriptor@
            == entries[i].1.descriptor@
}

pub open spec fn post_list_wallets(pre: State, post: State, id: u64, o: Outcome) -> bool {
    post == pre && (o matches Outcome::Reply(Response::Result {
        id: rid,
        payload: Payload::ListWallets(ws),
    }) && rid == id && wallets_match(pre.wallets.spec_entries(), ws@))
}

/// The identity report for one signer entry.
pub open spec fn signer_info_ok(name: Seq<char>, s: AppSigner, info: SignerInfo) -> bool {
    &&& info.name@ == name
    &&& info.fingerprint == s.spec_fingerprint()
    &&& (s matches AppSigner::Available { identifier, xpub, .. } ==> {
        &&& (info.id matches Some(i) && i == identifier)
        &&& (info.xpub matches Some(x) && x == xpub)
    })
    &&& (s is External ==> info.id is None && info.xpub is None)
}

pub open spec fn signers_match(entries: Seq<(Seq<char>, AppSigner)>, ss: Seq<SignerInfo>) -> bool {
    ss.len() == entries.len() && forall|i: int|
        0 <= i < ss.len() ==> signer_info_ok(entries[i].0, entries[i].1, #[trigger] ss[i])
}

pub open spec fn post_list_signers(pre: State, post: State, id: u64, o: Outcome) -> bool {
    post == pre && (o matches Outcome::Reply(Response::Result {
        id: rid,
        payload: Payload::ListSigners(ss),
    }) && rid == id && signers_match(pre.signers.spec_entries(), ss@))
}

pub open spec fn post_load_signer(pre: State, post: State, id: u64, p: Params, o: Outcome) -> bool {
    match p.name {
        None => post == pre && param_fails(o, id, "name must be set"@),
        Some(n) => match p.kind {
            None => post == pre && param_fails(o, id, "kind must be set"@),
            Some(k) => if k@ == "software"@ {
                post == pre && match p.mnemonic {
                    None => param_fails(o, id, "mnemonic must be set for a software signer"@),
                    Some(mn) => if pre.signers.as_map().dom().contains(n@) {
                        conflict_fails(o, id, n@)
                    } else {
                        o matches Outcome::Engine(Action::CreateSoftwareSigner { name, mnemonic })
                            && name@ == n@ && mnemonic@ == mn@
                    },
                }
            } else if k@ == "serial"@ {
                post == pre && if pre.signers.as_map().dom().contains(n@) {
                    conflict_fails(o, id, n@)
                } else {
                    o matches Outcome::Engine(Action::CreateSerialSigner { name }) && name@ == n@
                }
            } else if k@ == "external"@ {
                match p.fingerprint {
                    None => post == pre && param_fails(
                        o,
                        id,
                        "fingerprint must be set for an external signer"@,
                    ),
                    Some(f) => match spec_parse_fingerprint(f@) {
                        None => post == pre && param_fails(
                            o,
                            id,
                            "fingerprint must be eight hex digits"@,
                        ),
                        Some(fp) => if pre.signers.as_map().dom().contains(n@) {
                            post == pre && conflict_fails(o, id, n@)
                        } else {
                            &&& post.signers.as_map() == pre.signers.as_map().insert(
                                n@,
                                AppSigner::External { fingerprint: fp },
                            )
                            &&& post.signers.spec_entries() == pre.signers.spec_entries().push(
                                (n@, AppSigner::External { fingerprint: fp }),
                            )
                            &&& only_signers_change(pre, post)
                            &&& (o matches Outcome::Reply(Response::Result {
                                id: rid,
                                payload: Payload::Signer(info),
                            }) && rid == id && info.name@ == n@ && info.fingerprint == fp && info.id
                                is None && info.xpub is None)
                        },
                    },
                }
            } else {
                post == pre && param_fails(o, id, "invalid signer kind"@)
            },
        },
    }
}

pub open spec fn post_unload_signer(
    pre: State,
    post: State,
    id: u64,
    p: Params,
    o: Outcome,
) -> bool {
    match p.name {
        None => post == pre && param_fails(o, id, "name must be set"@),
        Some(n) => if pre.signers.as_map().dom().contains(n@) {
            &&& post.signers.as_map() == pre.signers.as_map().remove(n@)
            &&& post.signers.spec_entries() == pre.signers.spec_entries().remove(
                pre.signers.idx_of(n@),
            )
            &&& only_signers_change(pre, post)
            &&& (o matches Outcome::Reply(Response::Result {
                id: rid,
                payload: Payload::UnloadSigner(info),
            }) && rid == id && signer_info_ok(n@, pre.signers.as_map()[n@], info))
        } else {
            post == pre && not_found_fails(o, id, n@)
        },
    }
}

/// A method that only resolves a wallet and then hands the caller an engine
/// action built from the request.
pub open spec fn wallet_engine_post(
    pre: State,
    post: State,
    id: u64,
    p: Params,
    o: Outcome,
    ok: spec_fn(Seq<char>, Outcome) -> bool,
) -> bool {
    post == pre && match p.name {
        None => param_fails(o, id, "name must be set"@),
        Some(n) => if pre.wallets.as_map().dom().contains(n@) {
            ok(n@, o)
        } else {
            not_found_fails(o, id, n@)
        },
    }
}

pub open spec fn post_address(pre: State, post: State, id: u64, p: Params, o: Outcome) -> bool {
    wallet_engine_post(
        pre,
        post,
        id,
        p,
        o,
        |n: Seq<char>, oo: Outcome|
            oo matches Outcome::Engine(Action::SyncAddress { name, index }) && name@ == n && index
                == p.index,
    )
}

pub open spec fn post_balance(pre: State, post: State, id: u64, p: Params, o: Outcome) -> bool {
    wallet_engine_post(
        pre,
        post,
        id,
        p,
        o,
        |n: Seq<char>, oo: Outcome|
            oo matches Outcome::Engine(Action::SyncBalance { name }) && name@ == n,
    )
}

pub open spec fn post_send_many(pre: State, post: State, id: u64, p: Params, o: Outcome) -> bool {
    post == pre && match p.name {
        None => param_fails(o, id, "name must be set"@),
        Some(n) => match p.addressees {
            None => param_fails(o, id, "addressees must be set"@),
            Some(ads) => if pre.wallets.as_map().dom().contains(n@) {
                o matches Outcome::Engine(Action::SyncSend { name, addressees }) && name@ == n@
                    && addressees == ads
            } else {
                not_found_fails(o, id, n@)
            },
        },
    }
}

pub open spec fn spec_parse_singlesig_kind(s: Seq<char>) -> Option<SinglesigKind> {
    if s == "wpkh"@ {
        Some(SinglesigKind::Wpkh)
    } else if s == "shwpkh"@ {
        Some(SinglesigKind::ShWpkh)
    } else {
        None
    }
}

pub open spec fn spec_parse_multisig_kind(s: Seq<char>) -> Option<MultisigKind> {
    if s == "wsh"@ {
        Some(MultisigKind::Wsh)
    } else {
        None
    }
}

pub open spec fn spec_parse_blinding_kind(s: Seq<char>) -> Option<BlindingKeyKind> {
    if s == "slip77"@ {
        Some(BlindingKeyKind::Slip77)
    } else if s == "slip77-rand"@ {
        Some(BlindingKeyKind::Slip77Rand)
    } else if s == "elip151"@ {
        Some(BlindingKeyKind::Elip151)
    } else {
        None
    }
}

pub open spec fn spec_parse_xpub_kind(s: Seq<char>) -> Option<XpubKind> {
    if s == "bip49"@ {
        Some(XpubKind::Bip49)
    } else if s == "bip84"@ {
        Some(XpubKind::Bip84)
    } else if s == "bip87"@ {
        Some(XpubKind::Bip87)
    } else {
        None
    }
}

pub open spec fn post_singlesig_descriptor(
    pre: State,
    post: State,
    id: u64,
    p: Params,
    o: Outcome,
) -> bool {
    post == pre && match p.name {
        None => param_fails(o, id, "name must be set"@),
        Some(n) => match p.singlesig_kind {
            None => param_fails(o, id, "singlesig kind must be set"@),
            Some(sk) => match p.descriptor_blinding_key {
                None => param_fails(o, id, "descriptor blinding key kind must be set"@),
                Some(bk) => match spec_parse_singlesig_kind(sk@) {
                    None => param_fails(o, id, "singlesig kind must be wpkh or shwpkh"@),
                    Some(skk) => match spec_parse_blinding_kind(bk@) {
                        None => param_fails(
                            o,
                            id,
                            "descriptor blinding key kind must be slip77, slip77-rand or elip151"@,
                        ),
                        Some(bkk) => if !pre.signers.as_map().dom().contains(n@) {
                            not_found_fails(o, id, n@)
                        } else if pre.signers.as_map()[n@] is External {
                            upstream_fails(o, id, "signer has no signing capability"@)
                        } else {
                            o matches Outcome::Engine(Action::BuildSinglesigDescriptor {
                                name,
                                singlesig,
                                blinding,
                            }) && name@ == n@ && singlesig == skk && blinding == bkk
                        },
                    },
                },
            },
        },
    }
}

pub open spec fn post_multisig_descriptor(
    pre: State,
    post: State,
    id: u64,
    p: Params,
    o: Outcome,
) -> bool {
    post == pre && match p.threshold {
        None => param_fails(o, id, "threshold must be set"@),
        Some(t) => match p.keyorigin_xpubs {
            None => param_fails(o, id, "keyorigin xpubs must be set"@),
            Some(xs) => match p.multisig_kind {
                None => param_fails(o, id, "multisig kind must be set"@),
                Some(mk) => match p.descriptor_blinding_key {
                    None => param_fails(o, id, "descriptor blinding key kind must be set"@),
                    Some(bk) => match spec_parse_multisig_kind(mk@) {
                        None => param_fails(o, id, "multisig kind must be wsh"@),
                        Some(mkk) => match spec_parse_blinding_kind(bk@) {
                            None => param_fails(
                                o,
                                id,
                                "descriptor blinding key kind must be slip77, slip77-rand or elip151"@,
                            ),
                            Some(bkk) => if t == 0 || t as int > xs@.len() {
                                param_fails(
                                    o,
                                    id,
                                    "threshold must be between 1 and the number of keys"@,
                                )
                            } else {
                                o matches Outcome::Engine(Action::BuildMultisigDescriptor {
                                    threshold,
                                    keyorigin_xpubs,
                                    multisig,
                                    blinding,
                                }) && threshold == t && keyorigin_xpubs == xs && multisig == mkk
                                    && blinding == bkk
                            },
                        },
                    },
                },
            },
        },
    }
}

pub open spec fn post_xpub(pre: State, post: State, id: u64, p: Params, o: Outcome) -> bool {
    post == pre && match p.name {
        None => param_fails(o, id, "name must be set"@),
        Some(n) => match p.xpub_kind {
            None => param_fails(o, id, "xpub kind must be set"@),
            Some(xk) => match spec_parse_xpub_kind(xk@) {
                None => param_fails(o, id, "xpub kind must be bip49, bip84 or bip87"@),
                Some(xkk) => if !pre.signers.as_map().dom().contains(n@) {
                    not_found_fails(o, id, n@)
                } else if pre.signers.as_map()[n@] is External {
                    upstream_fails(o, id, "signer has no signing capability"@)
                } else {
                    o matches Outcome::Engine(Action::DeriveXpub { name, standard }) && name@
                        == n@ && standard == xkk
                },
            },
        },
    }
}

pub open spec fn post_sign(pre: State, post: State, id: u64, p: Params, o: Outcome) -> bool {
    post == pre && match p.name {
        None => param_fails(o, id, "name must be set"@),
        Some(n) => match p.pset {
            None => param_fails(o, id, "pset must be set"@),
            Some(ps) => if !pre.signers.as_map().dom().contains(n@) {
                not_found_fails(o, id, n@)
            } else if pre.signers.as_map()[n@] is External {
                upstream_fails(o, id, "signer has no signing capability"@)
            } else {
                o matches Outcome::Engine(Action::SignPset { name, pset }) && name@ == n@ && pset@
                    == ps@
            },
        },
    }
}

pub open spec fn post_broadcast(pre: State, post: State, id: u64, p: Params, o: Outcome) -> bool {
    post == pre && match p.name {
        None => param_fails(o, id, "name must be set"@),
        Some(n) => match p.pset {
            None => param_fails(o, id, "pset must be set"@),
            Some(ps) => if pre.wallets.as_map().dom().contains(n@) {
                o matches Outcome::Engine(Action::FinalizePset { name, pset, dry_run }) && name@
                    == n@ && pset@ == ps@ && dry_run == (match p.dry_run {
                    Some(b) => b,
                    None => false,
                })
            } else {
                not_found_fails(o, id, n@)
            },
        },
    }
}

/// The warnings of a fingerprint report: one duplicate warning first, when
/// owed, then one unknown-fingerprint warning per unmatched fingerprint.
pub open spec fn warnings_ok(ws: Seq<Seq<char>>, dup: bool, unknowns: nat) -> bool {
    ws == (if dup {
        seq![duplicate_fingerprint_warning()]
    } else {
        Seq::<Seq<char>>::empty()
    }).add(unknown_warning_seq(unknowns))
}

/// The resolved fingerprint list of a report.
pub open spec fn details_ok(
    entries: Seq<(Seq<char>, AppSigner)>,
    fps: Seq<u32>,
    dets: Seq<SignerDetails>,
) -> bool {
    dets.len() == fps.len() && forall|i: int|
        0 <= i < fps.len() ==> (#[trigger] dets[i]).fingerprint == fps[i] && resolved_name_ok(
            entries,
            fps[i],
            dets[i].name@,
        )
}

pub open spec fn post_wallet_details(
    pre: State,
    post: State,
    id: u64,
    p: Params,
    o: Outcome,
) -> bool {
    post == pre && match p.name {
        None => param_fails(o, id, "name must be set"@),
        Some(n) => if pre.wallets.as_map().dom().contains(n@) {
            let d = pre.wallets.as_map()[n@].descriptor@;
            let fps = spec_wallet_signers(d);
            let entries = pre.signers.spec_entries();
            let dup = spec_has_dup(fps) || spec_saw_multi(entries, fps);
            o matches Outcome::Reply(Response::Result {
                id: rid,
                payload: Payload::WalletDetails { wallet_kind, signers, warnings },
            }) && rid == id && wallet_kind == spec_classify(d) && details_ok(
                entries,
                fps,
                signers@,
            ) && warnings_ok(views_of(warnings@), dup, spec_unknown_count(entries, fps))
        } else {
            not_found_fails(o, id, n@)
        },
    }
}

pub open spec fn post_wallet_combine(
    pre: State,
    post: State,
    id: u64,
    p: Params,
    o: Outcome,
) -> bool {
    post == pre && match p.name {
        None => param_fails(o, id, "name must be set"@),
        Some(n) => match p.psets {
            None => param_fails(o, id, "pset list must be set"@),
            Some(ps) => if pre.wallets.as_map().dom().contains(n@) {
                combine_action_ok(n@, ps, o)
            } else {
                not_found_fails(o, id, n@)
            },
        },
    }
}

pub open spec fn combine_action_ok(n: Seq<char>, ps: Vec<String>, o: Outcome) -> bool {
    o matches Outcome::Engine(Action::CombinePsets { name, psets }) && name@ == n && psets == ps
}

pub open spec fn post_wallet_pset_details(
    pre: State,
    post: State,
    id: u64,
    p: Params,
    o: Outcome,
) -> bool {
    post == pre && match p.name {
        None => param_fails(o, id, "name must be set"@),
        Some(n) => match p.pset {
            None => param_fails(o, id, "pset must be set"@),
            Some(ps) => if pre.wallets.as_map().dom().contains(n@) {
                o matches Outcome::Engine(Action::GetPsetDetails { name, pset }) && name@ == n@
                    && pset@ == ps@
            } else {
                not_found_fails(o, id, n@)
            },
        },
    }
}

pub open spec fn post_issue(pre: State, post: State, id: u64, p: Params, o: Outcome) -> bool {
    post == pre && match p.name {
        None => param_fails(o, id, "name must be set"@),
        Some(n) => match p.satoshi_asset {
            None => param_fails(o, id, "satoshi_asset must be set"@),
            Some(sa) => match p.satoshi_token {
                None => param_fails(o, id, "satoshi_token must be set"@),
                Some(st) => if pre.wallets.as_map().dom().contains(n@) {
                    o matches Outcome::Engine(Action::SyncIssue {
                        name,
                        satoshi_asset,
                        address_asset,
                        satoshi_token,
                        address_token,
                        contract,
                    }) && name@ == n@ && satoshi_asset == sa && satoshi_token == st
                        && opt_or_empty(p.address_asset, address_asset@) && opt_or_empty(
                        p.address_token,
                        address_token@,
                    ) && opt_or_empty(p.contract, contract@)
                } else {
                    not_found_fails(o, id, n@)
                },
            },
        },
    }
}

/// `v` spells the optional string, or is empty where it is absent.
pub open spec fn opt_or_empty(s: Option<String>, v: Seq<char>) -> bool {
    match s {
        Some(x) => v == x@,
        None => v == Seq::<char>::empty(),
    }
}

pub open spec fn post_contract(pre: State, post: State, id: u64, p: Params, o: Outcome) -> bool {
    post == pre && match p.domain {
        None => param_fails(o, id, "domain must be set"@),
        Some(dm) => match p.issuer_pubkey {
            None => param_fails(o, id, "issuer_pubkey must be set"@),
            Some(ipk) => match p.name {
                None => param_fails(o, id, "name must be set"@),
                Some(n) => match p.precision {
                    None => param_fails(o, id, "precision must be set"@),
                    Some(pr) => match p.ticker {
                        None => param_fails(o, id, "ticker must be set"@),
                        Some(t) => match p.contract_version {
                            None => param_fails(o, id, "version must be set"@),
                            Some(v) => match spec_hex_bytes(ipk@) {
                                None => param_fails(o, id, "issuer_pubkey must be hex"@),
                                Some(bytes) => o matches Outcome::Engine(Action::ValidateContract(
                                    ci,
                                )) && ci.domain@ == dm@ && ci.issuer_pubkey@ == bytes && ci.name@
                                    == n@ && ci.precision == pr && ci.ticker@ == t@ && ci.version
                                    == v,
                            },
                        },
                    },
                },
            },
        },
    }
}

pub open spec fn post_asset_details(
    pre: State,
    post: State,
    id: u64,
    p: Params,
    o: Outcome,
) -> bool {
    post == pre && match p.asset_id {
        None => param_fails(o, id, "asset_id must be set"@),
        Some(a) => if !spec_is_asset_id(a@) {
            param_fails(o, id, "asset_id must be 64 hex digits"@)
        } else if pre.assets.as_map().dom().contains(a@) {
            o matches Outcome::Reply(Response::Result {
                id: rid,
                payload: Payload::AssetDetails { name },
            }) && rid == id && name@ == pre.assets.as_map()[a@].name@
        } else {
            not_found_fails(o, id, a@)
        },
    }
}

pub open spec fn post_stop(pre: State, post: State, id: u64, o: Outcome) -> bool {
    post == pre && (o matches Outcome::Stop(Response::Result {
        id: rid,
        payload: Payload::Stopped,
    }) && rid == id)
}

/// The whole routing contract: what each method name leads to.
pub open spec fn dispatch_post(
    pre: State,
    post: State,
    id: u64,
    m: Seq<char>,
    p: Params,
    o: Outcome,
) -> bool {
    match spec_parse_method(m) {
        None => post == pre && (o matches Outcome::Reply(Response::Unimplemented {
            id: rid,
            method: mm,
        }) && rid == id && mm@ == m),
        Some(Method::Schema) => post_schema(pre, post, id, p, o),
        Some(Method::GenerateSigner) => post_generate_signer(pre, post, id, o),
        Some(Method::Version) => post_version(pre, post, id, o),
        Some(Method::LoadWallet) => post_load_wallet(pre, post, id, p, o),
        Some(Method::UnloadWallet) => post_unload_wallet(pre, post, id, p, o),
        Some(Method::ListWallets) => post_list_wallets(pre, post, id, o),
        Some(Method::LoadSigner) => post_load_signer(pre, post, id, p, o),
        Some(Method::UnloadSigner) => post_unload_signer(pre, post, id, p, o),
        Some(Method::ListSigners) => post_list_signers(pre, post, id, o),
        Some(Method::Address) => post_address(pre, post, id, p, o),
        Some(Method::Balance) => post_balance(pre, post, id, p, o),
        Some(Method::SendMany) => post_send_many(pre, post, id, p, o),
        Some(Method::SinglesigDescriptor) => post_singlesig_descriptor(pre, post, id, p, o),
        Some(Method::MultisigDescriptor) => post_multisig_descriptor(pre, post, id, p, o),
        Some(Method::Xpub) => post_xpub(pre, post, id, p, o),
        Some(Method::Sign) => post_sign(pre, post, id, p, o),
        Some(Method::Broadcast) => post_broadcast(pre, post, id, p, o),
        Some(Method::WalletDetails) => post_wallet_details(pre, post, id, p, o),
        Some(Method::WalletCombine) => post_wallet_combine(pre, post, id, p, o),
        Some(Method::WalletPsetDetails) => post_wallet_pset_details(pre, post, id, p, o),
        Some(Method::Issue) => post_issue(pre, post, id, p, o),
        Some(Method::Contract) => post_contract(pre, post, id, p, o),
        Some(Method::AssetDetails) => post_asset_details(pre, post, id, p, o),
        Some(Method::Stop) => post_stop(pre, post, id, o),
    }
}

/// Wraps an error into a failure response under `id`.
fn err_reply(id: u64, e: Error) -> (o: Outcome)
    ensures
        fails_with(o, id, e.spec_code(), e.spec_message()),
{
    let code = e.code();
    let message = e.message();
    Outcome::Reply(Response::Fail { id, code, message })
}

fn param_err(id: u64, msg: &str) -> (o: Outcome)
    ensures
        param_fails(o, id, msg@),
{
    err_reply(id, Error::Parameter(String::from_str(msg)))
}

/// The wallet list reported by `list_wallets`.
fn wallets_vec(reg: &crate::registry::Registry<WalletEntry>) -> (r: Vec<WalletInfo>)
    ensures
        wallets_match(reg.spec_entries(), r@),
{
    let n = reg.len();
    let mut r: Vec<WalletInfo> = Vec::new();
    let mut i: usize = 0;
    while i < n
        invariant
            n == reg.spec_entries().len(),
            0 <= i <= n,
            r@.len() == i,
            forall|t: int|
                0 <= t < i ==> (#[trigger] r@[t]).name@ == reg.spec_entries()[t].0
                    && r@[t].descriptor@ == reg.spec_entries()[t].1.descriptor@,
        decreases n - i,
    {
        let name = reg.name_at(i).clone();
        let descriptor = reg.value_at(i).descriptor.clone();
        r.push(WalletInfo { name, descriptor });
        i += 1;
    }
    r
}

/// The signer list reported by `list_signers`.
fn signers_vec(reg: &crate::registry::Registry<AppSigner>) -> (r: Vec<SignerInfo>)
    ensures
        signers_match(reg.spec_entries(), r@),
{
    let n = reg.len();
    let mut r: Vec<SignerInfo> = Vec::new();
    let mut i: usize = 0;
    while i < n
        invariant
            n == reg.spec_entries().len(),
            0 <= i <= n,
            r@.len() == i,
            forall|t: int|
                0 <= t < i ==> signer_info_ok(
                    reg.spec_entries()[t].0,
                    reg.spec_entries()[t].1,
                    #[trigger] r@[t],
                ),
        decreases n - i,
    {
        let info = signer_response_from(reg.name_at(i), reg.value_at(i));
        r.push(info);
        i += 1;
    }
    r
}

/// Views distribute over concatenation of string lists.
proof fn lemma_views_of_add(a: Seq<String>, b: Seq<String>)
    ensures
        views_of(a.add(b)) =~= views_of(a).add(views_of(b)),
{
    assert forall|i: int| 0 <= i < a.len() + b.len() implies views_of(a.add(b))[i] == views_of(
        a,
    ).add(views_of(b))[i] by {
        if i < a.len() {
            assert(a.add(b)[i] == a[i]);
        } else {
            assert(a.add(b)[i] == b[i - a.len()]);
        }
    }
}

/// The warning list of a fingerprint report: the duplicate warning when it
/// is owed, then the collected unknown-fingerprint warnings.
fn build_warnings(dup: bool, unknowns: Vec<String>) -> (r: Vec<String>)
    ensures
        views_of(r@) == (if dup {
            seq![duplicate_fingerprint_warning()]
        } else {
            Seq::<Seq<char>>::empty()
        }).add(views_of(unknowns@)),
{
    let mut r: Vec<String> = Vec::new();
    if dup {
        r.push(String::from_str("wallet has multiple signers with the same fingerprint"));
    }
    let ghost r0 = r@;
    let mut u = unknowns;
    let ghost u0 = u@;
    r.append(&mut u);
    proof {
        lemma_views_of_add(r0, u0);
        assert(views_of(r0) =~= (if dup {
            seq![duplicate_fingerprint_warning()]
        } else {
            Seq::<Seq<char>>::empty()
        }));
        assert(views_of(r@) =~= views_of(r0).add(views_of(u0)));
    }
    r
}


fn parse_singlesig_kind(s: &String) -> (r: Option<SinglesigKind>)
    ensures
        r == spec_parse_singlesig_kind(s@),
{
    if str_is(s, "wpkh") {
        Some(SinglesigKind::Wpkh)
    } else if str_is(s, "shwpkh") {
        Some(SinglesigKind::ShWpkh)
    } else {
        None
    }
}

fn parse_multisig_kind(s: &String) -> (r: Option<MultisigKind>)
    ensures
        r == spec_parse_multisig_kind(s@),
{
    if str_is(s, "wsh") {
        Some(MultisigKind::Wsh)
    } else {
        None
    }
}

fn parse_blinding_kind(s: &String) -> (r: Option<BlindingKeyKind>)
    ensures
        r == spec_parse_blinding_kind(s@),
{
    if str_is(s, "slip77") {
        Some(BlindingKeyKind::Slip77)
    } else if str_is(s, "slip77-rand") {
        Some(BlindingKeyKind::Slip77Rand)
    } else if str_is(s, "elip151") {
        Some(BlindingKeyKind::Elip151)
    } else {
        None
    }
}

fn parse_xpub_kind(s: &String) -> (r: Option<XpubKind>)
    ensures
        r == spec_parse_xpub_kind(s@),
{
    if str_is(s, "bip49") {
        Some(XpubKind::Bip49)
    } else if str_is(s, "bip84") {
        Some(XpubKind::Bip84)
    } else if str_is(s, "bip87") {
        Some(XpubKind::Bip87)
    } else {
        None
    }
}

/// Routes one request: resolves the method name, validates parameters,
/// touches the registries, and returns a response, an engine action, or the
/// shutdown signal. An unknown method name is answered with an
/// "unimplemented" response carrying that name, never a transport failure.
pub fn dispatch(state: &mut State, id: u64, method: &String, params: Params) -> (o: Outcome)
    requires
        old(state).wf(),
    ensures
        final(state).wf(),
        dispatch_post(*old(state), *final(state), id, method@, params, o),
{
    let m = match parse_method(method) {
        Some(m) => m,
        None => {
            return Outcome::Reply(Response::Unimplemented { id, method: method.clone() });
        },
    };
    let Params {
        name,
        descriptor,
        kind,
        mnemonic,
        fingerprint,
        index,
        addressees,
        singlesig_kind,
        multisig_kind,
        descriptor_blinding_key,
        keyorigin_xpubs,
        threshold,
        xpub_kind,
        pset,
        psets,
        dry_run,
        method: target_method,
        direction,
        satoshi_asset,
        address_asset,
        satoshi_token,
        address_token,
        contract,
        domain,
        issuer_pubkey,
        precision,
        ticker,
        contract_version,
        asset_id,
    } = params;
    match m {
        Method::Schema => {
            let ms = match target_method {
                Some(x) => x,
                None => {
                    return param_err(id, "method must be set");
                },
            };
            let ds = match direction {
                Some(x) => x,
                None => {
                    return param_err(id, "direction must be set");
                },
            };
            let dir = match parse_direction(&ds) {
                Some(d) => d,
                None => {
                    return param_err(id, "direction must be request or response");
                },
            };
            let tm = match parse_method(&ms) {
                Some(t) => t,
                None => {
                    return err_reply(id, Error::NotFound(ms));
                },
            };
            Outcome::Reply(Response::Result { id, payload: Payload::Schema(schema(tm, dir)) })
        },
        Method::GenerateSigner => Outcome::Engine(Action::GenerateSigner),
        Method::Version => Outcome::Reply(
            Response::Result {
                id,
                payload: Payload::Version { version: String::from_str(crate::APP_VERSION) },
            },
        ),
        Method::LoadWallet => {
            let n = match name {
                Some(x) => x,
                None => {
                    return param_err(id, "name must be set");
                },
            };
            let d = match descriptor {
                Some(x) => x,
                None => {
                    return param_err(id, "descriptor must be set");
                },
            };
            if state.wallets.contains_name(&n) {
                return err_reply(id, Error::Conflict(n));
            }
            Outcome::Engine(Action::CreateWallet { name: n, descriptor: d })
        },
        Method::UnloadWallet => {
            let n = match name {
                Some(x) => x,
                None => {
                    return param_err(id, "name must be set");
                },
            };
            match state.wallets.remove(&n) {
                Ok(w) => Outcome::Reply(
                    Response::Result {
                        id,
                        payload: Payload::UnloadWallet(
                            WalletInfo { name: n, descriptor: w.descriptor },
                        ),
                    },
                ),
                Err(e) => err_reply(id, e),
            }
        },
        Method::ListWallets => Outcome::Reply(
            Response::Result { id, payload: Payload::ListWallets(wallets_vec(&state.wallets)) },
        ),
        Method::LoadSigner => {
            let n = match name {
                Some(x) => x,
                None => {
                    return param_err(id, "name must be set");
                },
            };
            let k = match kind {
                Some(x) => x,
                None => {
                    return param_err(id, "kind must be set");
                },
            };
            if str_is(&k, "software") {
                let mn = match mnemonic {
                    Some(x) => x,
                    None => {
                        return param_err(id, "mnemonic must be set for a software signer");
                    },
                };
                if state.signers.contains_name(&n) {
                    return err_reply(id, Error::Conflict(n));
                }
                Outcome::Engine(Action::CreateSoftwareSigner { name: n, mnemonic: mn })
            } else if str_is(&k, "serial") {
                if state.signers.contains_name(&n) {
                    return err_reply(id, Error::Conflict(n));
                }
                Outcome::Engine(Action::CreateSerialSigner { name: n })
            } else if str_is(&k, "external") {
                let f = match fingerprint {
                    Some(x) => x,
                    None => {
                        return param_err(id, "fingerprint must be set for an external signer");
                    },
                };
                let fp = match parse_fingerprint(&f) {
                    Some(v) => v,
                    None => {
                        return param_err(id, "fingerprint must be eight hex digits");
                    },
                };
                if state.signers.contains_name(&n) {
                    return err_reply(id, Error::Conflict(n));
                }
                let signer = AppSigner::External { fingerprint: fp };
                let info = signer_response_from(&n, &signer);
                match state.signers.insert(n, signer) {
                    Ok(()) => Outcome::Reply(
                        Response::Result { id, payload: Payload::Signer(info) },
                    ),
                    Err(e) => {
                        proof {
                            assert(false);
                        }
                        err_reply(id, e)
                    },
                }
            } else {
                param_err(id, "invalid signer kind")
            }
        },
        Method::UnloadSigner => {
            let n = match name {
                Some(x) => x,
                None => {
                    return param_err(id, "name must be set");
                },
            };
            match state.signers.remove(&n) {
                Ok(removed) => {
                    let info = signer_response_from(&n, &removed);
                    Outcome::Reply(Response::Result { id, payload: Payload::UnloadSigner(info) })
                },
                Err(e) => err_reply(id, e),
            }
        },
        Method::ListSigners => Outcome::Reply(
            Response::Result { id, payload: Payload::ListSigners(signers_vec(&state.signers)) },
        ),
        Method::Address => {
            let n = match name {
                Some(x) => x,
                None => {
                    return param_err(id, "name must be set");
                },
            };
            if !state.wallets.contains_name(&n) {
                return err_reply(id, Error::NotFound(n));
            }
            Outcome::Engine(Action::SyncAddress { name: n, index })
        },
        Method::Balance => {
            let n = match name {
                Some(x) => x,
                None => {
                    return param_err(id, "name must be set");
                },
            };
            if !state.wallets.contains_name(&n) {
                return err_reply(id, Error::NotFound(n));
            }
            Outcome::Engine(Action::SyncBalance { name: n })
        },
        Method::SendMany => {
            let n = match name {
                Some(x) => x,
                None => {
                    return param_err(id, "name must be set");
                },
            };
            let ads = match addressees {
                Some(x) => x,
                None => {
                    return param_err(id, "addressees must be set");
                },
            };
            if !state.wallets.contains_name(&n) {
                return err_reply(id, Error::NotFound(n));
            }
            Outcome::Engine(Action::SyncSend { name: n, addressees: ads })
        },
        Method::SinglesigDescriptor => {
            let n = match name {
                Some(x) => x,
                None => {
                    return param_err(id, "name must be set");
                },
            };
            let sk = match singlesig_kind {
                Some(x) => x,
                None => {
                    return param_err(id, "singlesig kind must be set");
                },
            };
            let bk = match descriptor_blinding_key {
                Some(x) => x,
                None => {
                    return param_err(id, "descriptor blinding key kind must be set");
                },
            };
            let skk = match parse_singlesig_kind(&sk) {
                Some(x) => x,
                None => {
                    return param_err(id, "singlesig kind must be wpkh or shwpkh");
                },
            };
            let bkk = match parse_blinding_kind(&bk) {
                Some(x) => x,
                None => {
                    return param_err(
                        id,
                        "descriptor blinding key kind must be slip77, slip77-rand or elip151",
                    );
                },
            };
            let available = match state.signers.get(&n) {
                Ok(sg) => sg.is_available(),
                Err(e) => {
                    return err_reply(id, e);
                },
            };
            if !available {
                return err_reply(
                    id,
                    Error::Upstream(String::from_str("signer has no signing capability")),
                );
            }
            Outcome::Engine(Action::BuildSinglesigDescriptor { name: n, singlesig: skk, blinding: bkk })
        },
        Method::MultisigDescriptor => {
            let t = match threshold {
                Some(x) => x,
                None => {
                    return param_err(id, "threshold must be set");
                },
            };
            let xs = match keyorigin_xpubs {
                Some(x) => x,
                None => {
                    return param_err(id, "keyorigin xpubs must be set");
                },
            };
            let mk = match multisig_kind {
                Some(x) => x,
                None => {
                    return param_err(id, "multisig kind must be set");
                },
            };
            let bk = match descriptor_blinding_key {
                Some(x) => x,
                None => {
                    return param_err(id, "descriptor blinding key kind must be set");
                },
            };
            let mkk = match parse_multisig_kind(&mk) {
                Some(x) => x,
                None => {
                    return param_err(id, "multisig kind must be wsh");
                },
            };
            let bkk = match parse_blinding_kind(&bk) {
                Some(x) => x,
                None => {
                    return param_err(
                        id,
                        "descriptor blinding key kind must be slip77, slip77-rand or elip151",
                    );
                },
            };
            if t == 0 || (t as usize) > xs.len() {
                return param_err(id, "threshold must be between 1 and the number of keys");
            }
            Outcome::Engine(
                Action::BuildMultisigDescriptor {
                    threshold: t,
                    keyorigin_xpubs: xs,
                    multisig: mkk,
                    blinding: bkk,
                },
            )
        },
        Method::Xpub => {
            let n = match name {
                Some(x) => x,
                None => {
                    return param_err(id, "name must be set");
                },
            };
            let xk = match xpub_kind {
                Some(x) => x,
                None => {
                    return param_err(id, "xpub kind must be set");
                },
            };
            let xkk = match parse_xpub_kind(&xk) {
                Some(x) => x,
                None => {
                    return param_err(id, "xpub kind must be bip49, bip84 or bip87");
                },
            };
            let available = match state.signers.get(&n) {
                Ok(sg) => sg.is_available(),
                Err(e) => {
                    return err_reply(id, e);
                },
            };
            if !available {
                return err_reply(
                    id,
                    Error::Upstream(String::from_str("signer has no signing capability")),
                );
            }
            Outcome::Engine(Action::DeriveXpub { name: n, standard: xkk })
        },
        Method::Sign => {
            let n = match name {
                Some(x) => x,
                None => {
                    return param_err(id, "name must be set");
                },
            };
            let ps = match pset {
                Some(x) => x,
                None => {
                    return param_err(id, "pset must be set");
                },
            };
            let available = match state.signers.get(&n) {
                Ok(sg) => sg.is_available(),
                Err(e) => {
                    return err_reply(id, e);
                },
            };
            if !available {
                return err_reply(
                    id,
                    Error::Upstream(String::from_str("signer has no signing capability")),
                );
            }
            Outcome::Engine(Action::SignPset { name: n, pset: ps })
        },
        Method::Broadcast => {
            let n = match name {
                Some(x) => x,
                None => {
                    return param_err(id, "name must be set");
                },
            };
            let ps = match pset {
                Some(x) => x,
                None => {
                    return param_err(id, "pset must be set");
                },
            };
            if !state.wallets.contains_name(&n) {
                return err_reply(id, Error::NotFound(n));
            }
            let dr = match dry_run {
                Some(b) => b,
                None => false,
            };
            Outcome::Engine(Action::FinalizePset { name: n, pset: ps, dry_run: dr })
        },
        Method::WalletDetails => {
            let n = match name {
                Some(x) => x,
                None => {
                    return param_err(id, "name must be set");
                },
            };
            let desc = match state.wallets.get(&n) {
                Ok(w) => w.descriptor.clone(),
                Err(e) => {
                    return err_reply(id, e);
                },
            };
            let wallet_kind = classify(&desc);
            let fps = wallet_signers(&desc);
            let dup_in_wallet = has_dup(&fps);
            let ro = resolve_signers(&state.signers, &fps);
            let dup = dup_in_wallet || ro.saw_multi;
            let warnings = build_warnings(dup, ro.unknowns);
            Outcome::Reply(
                Response::Result {
                    id,
                    payload: Payload::WalletDetails { wallet_kind, signers: ro.details, warnings },
                },
            )
        },
        Method::WalletCombine => {
            let n = match name {
                Some(x) => x,
                None => {
                    return param_err(id, "name must be set");
                },
            };
            let ps = match psets {
                Some(x) => x,
                None => {
                    return param_err(id, "pset list must be set");
                },
            };
            if !state.wallets.contains_name(&n) {
                return err_reply(id, Error::NotFound(n));
            }
            Outcome::Engine(Action::CombinePsets { name: n, psets: ps })
        },
        Method::WalletPsetDetails => {
            let n = match name {
                Some(x) => x,
                None => {
                    return param_err(id, "name must be set");
                },
            };
            let ps = match pset {
                Some(x) => x,
                None => {
                    return param_err(id, "pset must be set");
                },
            };
            if !state.wallets.contains_name(&n) {
                return err_reply(id, Error::NotFound(n));
            }
            Outcome::Engine(Action::GetPsetDetails { name: n, pset: ps })
        },
        Method::Issue => {
            let n = match name {
                Some(x) => x,
                None => {
                    return param_err(id, "name must be set");
                },
            };
            let sa = match satoshi_asset {
                Some(x) => x,
                None => {
                    return param_err(id, "satoshi_asset must be set");
                },
            };
            let st = match satoshi_token {
                Some(x) => x,
                None => {
                    return param_err(id, "satoshi_token must be set");
                },
            };
            if !state.wallets.contains_name(&n) {
                return err_reply(id, Error::NotFound(n));
            }
            let aa = match address_asset {
                Some(x) => x,
                None => String::new(),
            };
            let at = match address_token {
                Some(x) => x,
                None => String::new(),
            };
            let ct = match contract {
                Some(x) => x,
                None => String::new(),
            };
            Outcome::Engine(
                Action::SyncIssue {
                    name: n,
                    satoshi_asset: sa,
                    address_asset: aa,
                    satoshi_token: st,
                    address_token: at,
                    contract: ct,
                },
            )
        },
        Method::Contract => {
            let dm = match domain {
                Some(x) => x,
                None => {
                    return param_err(id, "domain must be set");
                },
            };
            let ipk = match issuer_pubkey {
                Some(x) => x,
                None => {
                    return param_err(id, "issuer_pubkey must be set");
                },
            };
            let n = match name {
                Some(x) => x,
                None => {
                    return param_err(id, "name must be set");
                },
            };
            let pr = match precision {
                Some(x) => x,
                None => {
                    return param_err(id, "precision must be set");
                },
            };
            let t = match ticker {
                Some(x) => x,
                None => {
                    return param_err(id, "ticker must be set");
                },
            };
            let v = match contract_version {
                Some(x) => x,
                None => {
                    return param_err(id, "version must be set");
                },
            };
            let bytes = match hex_to_bytes(&ipk) {
                Some(b) => b,
                None => {
                    return param_err(id, "issuer_pubkey must be hex");
                },
            };
            Outcome::Engine(
                Action::ValidateContract(
                    ContractInfo {
                        domain: dm,
                        issuer_pubkey: bytes,
                        name: n,
                        precision: pr,
                        ticker: t,
                        version: v,
                    },
                ),
            )
        },
        Method::AssetDetails => {
            let a = match asset_id {
                Some(x) => x,
                None => {
                    return param_err(id, "asset_id must be set");
                },
            };
            if !is_asset_id(&a) {
                return param_err(id, "asset_id must be 64 hex digits");
            }
            match state.assets.get(&a) {
                Ok(asset) => Outcome::Reply(
                    Response::Result {
                        id,
                        payload: Payload::AssetDetails { name: asset.name.clone() },
                    },
                ),
                Err(e) => err_reply(id, e),
            }
        },
        Method::Stop => Outcome::Stop(Response::Result { id, payload: Payload::Stopped }),
    }
}


/// A successful signer creation inserts the reported identity under `name`
/// and replies with its identity report; a taken name is a conflict.
pub open spec fn signer_created_post(
    pre: State,
    post: State,
    id: u64,
    name: String,
    reply: EngineReply,
    o: Outcome,
) -> bool {
    match reply {
        EngineReply::SignerCreated { fingerprint, identifier, xpub } => if pre.signers.as_map().dom().contains(
            name@,
        ) {
            post == pre && conflict_fails(o, id, name@)
        } else {
            let signer = AppSigner::Available { fingerprint, identifier, xpub };
            &&& post.signers.as_map() == pre.signers.as_map().insert(name@, signer)
            &&& post.signers.spec_entries() == pre.signers.spec_entries().push((name@, signer))
            &&& only_signers_change(pre, post)
            &&& (o matches Outcome::Reply(Response::Result {
                id: rid,
                payload: Payload::Signer(info),
            }) && rid == id && signer_info_ok(name@, signer, info))
        },
        _ => post == pre && mismatch_fails(o, id),
    }
}

/// The failure reported when an engine reply does not belong to the action.
pub open spec fn mismatch_fails(o: Outcome, id: u64) -> bool {
    upstream_fails(o, id, "engine reply does not match the requested action"@)
}

/// What resuming an action with the engine's reply leads to. An engine
/// failure is passed through to the caller as an upstream error, whatever
/// the action was; a reply of the wrong shape is reported the same way.
pub open spec fn resume_post(
    pre: State,
    post: State,
    id: u64,
    a: Action,
    reply: EngineReply,
    o: Outcome,
) -> bool {
    match reply {
        EngineReply::Failed { message } => post == pre && upstream_fails(o, id, message@),
        _ => match a {
            Action::CreateWallet { name, descriptor } => match reply {
                EngineReply::WalletCreated => if pre.wallets.as_map().dom().contains(name@) {
                    post == pre && conflict_fails(o, id, name@)
                } else {
                    &&& post.wallets.as_map().dom().contains(name@)
                    &&& post.wallets.as_map()[name@].descriptor@ == descriptor@
                    &&& post.wallets.as_map() == pre.wallets.as_map().insert(
                        name@,
                        post.wallets.as_map()[name@],
                    )
                    &&& post.wallets.spec_entries() == pre.wallets.spec_entries().push(
                        (name@, post.wallets.as_map()[name@]),
                    )
                    &&& only_wallets_change(pre, post)
                    &&& (o matches Outcome::Reply(Response::Result {
                        id: rid,
                        payload: Payload::Wallet(w),
                    }) && rid == id && w.name@ == name@ && w.descriptor@ == descriptor@)
                },
                _ => post == pre && mismatch_fails(o, id),
            },
            Action::GenerateSigner => match reply {
                EngineReply::MnemonicGenerated { mnemonic } => post == pre && (o matches
                    Outcome::Reply(Response::Result {
                    id: rid,
                    payload: Payload::GenerateSigner { mnemonic: m },
                }) && rid == id && m@ == mnemonic@),
                _ => post == pre && mismatch_fails(o, id),
            },
            Action::CreateSoftwareSigner { name, .. } => signer_created_post(
                pre,
                post,
                id,
                name,
                reply,
                o,
            ),
            Action::CreateSerialSigner { name } => signer_created_post(
                pre,
                post,
                id,
                name,
                reply,
                o,
            ),
            Action::SyncAddress { .. } => match reply {
                EngineReply::AddressResult { address, index } => post == pre && (o matches
                    Outcome::Reply(Response::Result {
                    id: rid,
                    payload: Payload::Address { address: a2, index: i2 },
                }) && rid == id && a2@ == address@ && i2 == index),
                _ => post == pre && mismatch_fails(o, id),
            },
            Action::SyncBalance { .. } => match reply {
                EngineReply::BalanceResult { balances } => post == pre && (o matches
                    Outcome::Reply(Response::Result {
                    id: rid,
                    payload: Payload::Balance(b),
                }) && rid == id && b == balances),
                _ => post == pre && mismatch_fails(o, id),
            },
            Action::SyncSend { .. } => match reply {
                EngineReply::PsetResult { pset } => post == pre && (o matches Outcome::Reply(
                    Response::Result { id: rid, payload: Payload::Pset { pset: p2 } },
                ) && rid == id && p2@ == pset@),
                _ => post == pre && mismatch_fails(o, id),
            },
            Action::SyncIssue { .. } => match reply {
                EngineReply::PsetResult { pset } => post == pre && (o matches Outcome::Reply(
                    Response::Result { id: rid, payload: Payload::Pset { pset: p2 } },
                ) && rid == id && p2@ == pset@),
                _ => post == pre && mismatch_fails(o, id),
            },
            Action::SignPset { .. } => match reply {
                EngineReply::PsetResult { pset } => post == pre && (o matches Outcome::Reply(
                    Response::Result { id: rid, payload: Payload::Pset { pset: p2 } },
                ) && rid == id && p2@ == pset@),
                _ => post == pre && mismatch_fails(o, id),
            },
            Action::CombinePsets { .. } => match reply {
                EngineReply::PsetResult { pset } => post == pre && (o matches Outcome::Reply(
                    Response::Result { id: rid, payload: Payload::WalletCombine { pset: p2 } },
                ) && rid == id && p2@ == pset@),
                _ => post == pre && mismatch_fails(o, id),
            },
            Action::BuildSinglesigDescriptor { .. } => match reply {
                EngineReply::DescriptorBuilt { descriptor } => post == pre && (o matches
                    Outcome::Reply(Response::Result {
                    id: rid,
                    payload: Payload::SinglesigDescriptor { descriptor: d2 },
                }) && rid == id && d2@ == descriptor@),
                _ => post == pre && mismatch_fails(o, id),
            },
            Action::BuildMultisigDescriptor { .. } => match reply {
                EngineReply::DescriptorBuilt { descriptor } => post == pre && (o matches
                    Outcome::Reply(Response::Result {
                    id: rid,
                    payload: Payload::MultisigDescriptor { descriptor: d2 },
                }) && rid == id && d2@ == descriptor@),
                _ => post == pre && mismatch_fails(o, id),
            },
            Action::DeriveXpub { .. } => match reply {
                EngineReply::XpubResult { keyorigin_xpub } => post == pre && (o matches
                    Outcome::Reply(Response::Result {
                    id: rid,
                    payload: Payload::Xpub { keyorigin_xpub: x2 },
                }) && rid == id && x2@ == keyorigin_xpub@),
                _ => post == pre && mismatch_fails(o, id),
            },
            Action::FinalizePset { dry_run, .. } => match reply {
                EngineReply::Finalized { txid } => post == pre && if dry_run {
                    o matches Outcome::Reply(Response::Result {
                        id: rid,
                        payload: Payload::Broadcast { txid: t2 },
                    }) && rid == id && t2@ == txid@
                } else {
                    o matches Outcome::Engine(Action::BroadcastTx { txid: t2 }) && t2@ == txid@
                },
                _ => post == pre && mismatch_fails(o, id),
            },
            Action::BroadcastTx { txid } => match reply {
                EngineReply::BroadcastDone => post == pre && (o matches Outcome::Reply(
                    Response::Result { id: rid, payload: Payload::Broadcast { txid: t2 } },
                ) && rid == id && t2@ == txid@),
                _ => post == pre && mismatch_fails(o, id),
            },
            Action::GetPsetDetails { .. } => match reply {
                EngineReply::PsetDetailsResult { has, missing } => {
                    let entries = pre.signers.spec_entries();
                    let dup = spec_saw_multi(entries, has@) || spec_saw_multi(entries, missing@);
                    post == pre && (o matches Outcome::Reply(Response::Result {
                        id: rid,
                        payload: Payload::PsetDetails {
                            has_signatures_from: hs,
                            missing_signatures_from: ms,
                            warnings: ws,
                        },
                    }) && rid == id && details_ok(entries, has@, hs@) && details_ok(
                        entries,
                        missing@,
                        ms@,
                    ) && warnings_ok(
                        views_of(ws@),
                        dup,
                        spec_unknown_count(entries, has@) + spec_unknown_count(entries, missing@),
                    ))
                },
                _ => post == pre && mismatch_fails(o, id),
            },
            Action::ValidateContract(ci) => match reply {
                EngineReply::ContractValid => post == pre && (o matches Outcome::Reply(
                    Response::Result { id: rid, payload: Payload::Contract(c2) },
                ) && rid == id && c2 == ci),
                _ => post == pre && mismatch_fails(o, id),
            },
        },
    }
}

fn mismatch_err(id: u64) -> (o: Outcome)
    ensures
        mismatch_fails(o, id),
{
    err_reply(
        id,
        Error::Upstream(String::from_str("engine reply does not match the requested action")),
    )
}

/// Completes a request after the caller performed the engine action: folds
/// the engine's reply into the session state and the response.
pub fn resume(state: &mut State, id: u64, action: Action, reply: EngineReply) -> (o: Outcome)
    requires
        old(state).wf(),
    ensures
        final(state).wf(),
        resume_post(*old(state), *final(state), id, action, reply, o),
{
    if let EngineReply::Failed { message } = reply {
        return err_reply(id, Error::Upstream(message));
    }
    match action {
        Action::CreateWallet { name, descriptor } => match reply {
            EngineReply::WalletCreated => {
                let info = WalletInfo { name: name.clone(), descriptor: descriptor.clone() };
                match state.wallets.insert(name, WalletEntry { descriptor }) {
                    Ok(()) => Outcome::Reply(
                        Response::Result { id, payload: Payload::Wallet(info) },
                    ),
                    Err(e) => err_reply(id, e),
                }
            },
            _ => mismatch_err(id),
        },
        Action::GenerateSigner => match reply {
            EngineReply::MnemonicGenerated { mnemonic } => Outcome::Reply(
                Response::Result { id, payload: Payload::GenerateSigner { mnemonic } },
            ),
            _ => mismatch_err(id),
        },
        Action::CreateSoftwareSigner { name, .. } => insert_created_signer(state, id, name, reply),
        Action::CreateSerialSigner { name } => insert_created_signer(state, id, name, reply),
        Action::SyncAddress { .. } => match reply {
            EngineReply::AddressResult { address, index } => Outcome::Reply(
                Response::Result { id, payload: Payload::Address { address, index } },
            ),
            _ => mismatch_err(id),
        },
        Action::SyncBalance { .. } => match reply {
            EngineReply::BalanceResult { balances } => Outcome::Reply(
                Response::Result { id, payload: Payload::Balance(balances) },
            ),
            _ => mismatch_err(id),
        },
        Action::SyncSend { .. } => match reply {
            EngineReply::PsetResult { pset } => Outcome::Reply(
                Response::Result { id, payload: Payload::Pset { pset } },
            ),
            _ => mismatch_err(id),
        },
        Action::SyncIssue { .. } => match reply {
            EngineReply::PsetResult { pset } => Outcome::Reply(
                Response::Result { id, payload: Payload::Pset { pset } },
            ),
            _ => mismatch_err(id),
        },
        Action::SignPset { .. } => match reply {
            EngineReply::PsetResult { pset } => Outcome::Reply(
                Response::Result { id, payload: Payload::Pset { pset } },
            ),
            _ => mismatch_err(id),
        },
        Action::CombinePsets { .. } => match reply {
            EngineReply::PsetResult { pset } => Outcome::Reply(
                Response::Result { id, payload: Payload::WalletCombine { pset } },
            ),
            _ => mismatch_err(id),
        },
        Action::BuildSinglesigDescriptor { .. } => match reply {
            EngineReply::DescriptorBuilt { descriptor } => Outcome::Reply(
                Response::Result { id, payload: Payload::SinglesigDescriptor { descriptor } },
            ),
            _ => mismatch_err(id),
        },
        Action::BuildMultisigDescriptor { .. } => match reply {
            EngineReply::DescriptorBuilt { descriptor } => Outcome::Reply(
                Response::Result { id, payload: Payload::MultisigDescriptor { descriptor } },
            ),
            _ => mismatch_err(id),
        },
        Action::DeriveXpub { .. } => match reply {
            EngineReply::XpubResult { keyorigin_xpub } => Outcome::Reply(
                Response::Result { id, payload: Payload::Xpub { keyorigin_xpub } },
            ),
            _ => mismatch_err(id),
        },
        Action::FinalizePset { dry_run, .. } => match reply {
            EngineReply::Finalized { txid } => if dry_run {
                Outcome::Reply(Response::Result { id, payload: Payload::Broadcast { txid } })
            } else {
                Outcome::Engine(Action::BroadcastTx { txid })
            },
            _ => mismatch_err(id),
        },
        Action::BroadcastTx { txid } => match reply {
            EngineReply::BroadcastDone => Outcome::Reply(
                Response::Result { id, payload: Payload::Broadcast { txid } },
            ),
            _ => mismatch_err(id),
        },
        Action::GetPsetDetails { .. } => match reply {
            EngineReply::PsetDetailsResult { has, missing } => {
                let rh = resolve_signers(&state.signers, &has);
                let rm = resolve_signers(&state.signers, &missing);
                let dup = rh.saw_multi || rm.saw_multi;
                let mut unknowns = rh.unknowns;
                let ghost u1 = unknowns@;
                let mut um = rm.unknowns;
                let ghost u2 = um@;
                unknowns.append(&mut um);
                proof {
                    lemma_views_of_add(u1, u2);
                    assert(unknown_warning_seq(
                        spec_unknown_count(state.signers.spec_entries(), has@)
                            + spec_unknown_count(state.signers.spec_entries(), missing@),
                    ) =~= unknown_warning_seq(
                        spec_unknown_count(state.signers.spec_entries(), has@),
                    ).add(
                        unknown_warning_seq(
                            spec_unknown_count(state.signers.spec_entries(), missing@),
                        ),
                    ));
                }
                let warnings = build_warnings(dup, unknowns);
                Outcome::Reply(
                    Response::Result {
                        id,
                        payload: Payload::PsetDetails {
                            has_signatures_from: rh.details,
                            missing_signatures_from: rm.details,
                            warnings,
                        },
                    },
                )
            },
            _ => mismatch_err(id),
        },
        Action::ValidateContract(ci) => match reply {
            EngineReply::ContractValid => Outcome::Reply(
                Response::Result { id, payload: Payload::Contract(ci) },
            ),
            _ => mismatch_err(id),
        },
    }
}

/// Inserts an engine-created signer under `name` and reports its identity.
fn insert_created_signer(state: &mut State, id: u64, name: String, reply: EngineReply) -> (o:
    Outcome)
    requires
        old(state).wf(),
        !(reply is Failed),
    ensures
        final(state).wf(),
        signer_created_post(*old(state), *final(state), id, name, reply, o),
{
    match reply {
        EngineReply::SignerCreated { fingerprint, identifier, xpub } => {
            if state.signers.contains_name(&name) {
                return err_reply(id, Error::Conflict(name));
            }
            let signer = AppSigner::Available { fingerprint, identifier, xpub };
            let info = signer_response_from(&name, &signer);
            match state.signers.insert(name, signer) {
                Ok(()) => Outcome::Reply(Response::Result { id, payload: Payload::Signer(info) }),
                Err(e) => {
                    proof {
                        assert(false);
                    }
                    err_reply(id, e)
                },
            }
        },
        _ => mismatch_err(id),
    }
}

} // verus!
