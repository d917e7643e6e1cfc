use walletd::classify::WalletType;
use walletd::dispatch::{dispatch, resume, Action, EngineReply, Outcome, Params, Payload, Response};
use walletd::schema::{FieldKind, FieldName};
use walletd::session::{Config, Lifecycle, State};

fn fresh_state() -> State {
    State::new(Config {
        network: "liquidtestnet".to_string(),
        datadir: "/tmp/walletd".to_string(),
        electrum_url: "127.0.0.1:50001".to_string(),
        tls: false,
        validate_domain: false,
        policy_asset: "144c654344aa716d6f3abcc1ca90e5641e4e2a7f633bc09fe3baf64585819a49"
            .to_string(),
    })
}

fn named(name: &str) -> Params {
    let mut p = Params::empty();
    p.name = Some(name.to_string());
    p
}

#[test]
fn schema_of_balance_request_requires_exactly_name() {
    let mut state = fresh_state();
    let mut p = Params::empty();
    p.method = Some("balance".to_string());
    p.direction = Some("request".to_string());
    let o = dispatch(&mut state, 1, &"schema".to_string(), p);
    match o {
        Outcome::Reply(Response::Result { payload: Payload::Schema(fields), .. }) => {
            let required: Vec<_> = fields.iter().filter(|f| f.required).collect();
            assert_eq!(required.len(), 1);
            assert_eq!(required[0].name, FieldName::Name);
            assert_eq!(required[0].kind, FieldKind::Str);
            assert_eq!(fields.len(), 1);
        }
        _ => panic!("expected a schema"),
    }
}

#[test]
fn schema_of_unknown_method_is_not_found() {
    let mut state = fresh_state();
    let mut p = Params::empty();
    p.method = Some("levitate".to_string());
    p.direction = Some("request".to_string());
    let o = dispatch(&mut state, 1, &"schema".to_string(), p);
    match o {
        Outcome::Reply(Response::Fail { code, message, .. }) => {
            assert_eq!(code, -32008);
            assert_eq!(message, "levitate");
        }
        _ => panic!("expected not found"),
    }
}

#[test]
fn load_signer_validates_kind_and_fields() {
    let mut state = fresh_state();

    let mut p = named("s");
    p.kind = Some("telepathic".to_string());
    match dispatch(&mut state, 1, &"load_signer".to_string(), p) {
        Outcome::Reply(Response::Fail { code, message, .. }) => {
            assert_eq!(code, -32602);
            assert_eq!(message, "invalid signer kind");
        }
        _ => panic!("expected a parameter error"),
    }

    let mut p = named("s");
    p.kind = Some("software".to_string());
    match dispatch(&mut state, 1, &"load_signer".to_string(), p) {
        Outcome::Reply(Response::Fail { code, message, .. }) => {
            assert_eq!(code, -32602);
            assert_eq!(message, "mnemonic must be set for a software signer");
        }
        _ => panic!("expected a parameter error"),
    }

    let mut p = named("s");
    p.kind = Some("external".to_string());
    match dispatch(&mut state, 1, &"load_signer".to_string(), p) {
        Outcome::Reply(Response::Fail { code, message, .. }) => {
            assert_eq!(code, -32602);
            assert_eq!(message, "fingerprint must be set for an external signer");
        }
        _ => panic!("expected a parameter error"),
    }

    let mut p = named("s");
    p.kind = Some("external".to_string());
    p.fingerprint = Some("11g23344".to_string());
    match dispatch(&mut state, 1, &"load_signer".to_string(), p) {
        Outcome::Reply(Response::Fail { code, message, .. }) => {
            assert_eq!(code, -32602);
            assert_eq!(message, "fingerprint must be eight hex digits");
        }
        _ => panic!("expected a parameter error"),
    }
}

#[test]
fn software_signer_loads_through_the_engine() {
    let mut state = fresh_state();
    let mut p = named("soft");
    p.kind = Some("software".to_string());
    p.mnemonic = Some("abandon abandon about".to_string());
    let a = match dispatch(&mut state, 1, &"load_signer".to_string(), p) {
        Outcome::Engine(a) => a,
        _ => panic!("expected an engine action"),
    };
    assert!(matches!(a, Action::CreateSoftwareSigner { .. }));
    let o = resume(
        &mut state,
        1,
        a,
        EngineReply::SignerCreated {
            fingerprint: 0xdeadbeef,
            identifier: "id0".to_string(),
            xpub: "xpub0".to_string(),
        },
    );
    match o {
        Outcome::Reply(Response::Result { payload: Payload::Signer(info), .. }) => {
            assert_eq!(info.name, "soft");
            assert_eq!(info.fingerprint, 0xdeadbeef);
            assert_eq!(info.id.as_deref(), Some("id0"));
            assert_eq!(info.xpub.as_deref(), Some("xpub0"));
        }
        _ => panic!("expected the signer identity"),
    }
    match dispatch(&mut state, 2, &"list_signers".to_string(), Params::empty()) {
        Outcome::Reply(Response::Result { payload: Payload::ListSigners(ss), .. }) => {
            assert_eq!(ss.len(), 1);
            assert_eq!(ss[0].name, "soft");
        }
        _ => panic!("expected the signer list"),
    }
    match dispatch(&mut state, 3, &"unload_signer".to_string(), named("soft")) {
        Outcome::Reply(Response::Result { payload: Payload::UnloadSigner(info), .. }) => {
            assert_eq!(info.name, "soft");
            assert_eq!(info.fingerprint, 0xdeadbeef);
        }
        _ => panic!("expected the unloaded signer"),
    }
}

#[test]
fn multisig_descriptor_validates_threshold() {
    let mut state = fresh_state();
    let mut p = Params::empty();
    p.threshold = Some(3);
    p.keyorigin_xpubs = Some(vec!["a".to_string(), "b".to_string()]);
    p.multisig_kind = Some("wsh".to_string());
    p.descriptor_blinding_key = Some("slip77".to_string());
    match dispatch(&mut state, 1, &"multisig_descriptor".to_string(), p) {
        Outcome::Reply(Response::Fail { code, message, .. }) => {
            assert_eq!(code, -32602);
            assert_eq!(message, "threshold must be between 1 and the number of keys");
        }
        _ => panic!("expected a parameter error"),
    }
}

#[test]
fn asset_details_finds_the_policy_asset() {
    let mut state = fresh_state();
    let mut p = Params::empty();
    p.asset_id = Some(
        "144c654344aa716d6f3abcc1ca90e5641e4e2a7f633bc09fe3baf64585819a49".to_string(),
    );
    match dispatch(&mut state, 1, &"asset_details".to_string(), p) {
        Outcome::Reply(Response::Result { payload: Payload::AssetDetails { name }, .. }) => {
            assert_eq!(name, "policy asset");
        }
        _ => panic!("expected asset details"),
    }

    let mut p = Params::empty();
    p.asset_id = Some("ff".repeat(32));
    match dispatch(&mut state, 2, &"asset_details".to_string(), p) {
        Outcome::Reply(Response::Fail { code, .. }) => assert_eq!(code, -32008),
        _ => panic!("expected not found"),
    }

    let mut p = Params::empty();
    p.asset_id = Some("nothex".to_string());
    match dispatch(&mut state, 3, &"asset_details".to_string(), p) {
        Outcome::Reply(Response::Fail { code, message, .. }) => {
            assert_eq!(code, -32602);
            assert_eq!(message, "asset_id must be 64 hex digits");
        }
        _ => panic!("expected a parameter error"),
    }
}

#[test]
fn contract_decodes_issuer_pubkey() {
    let mut state = fresh_state();
    let mut p = Params::empty();
    p.domain = Some("example.com".to_string());
    p.issuer_pubkey = Some("0337aa".to_string());
    p.name = Some("token".to_string());
    p.precision = Some(8);
    p.ticker = Some("TKN".to_string());
    p.contract_version = Some(0);
    let a = match dispatch(&mut state, 1, &"contract".to_string(), p) {
        Outcome::Engine(a) => a,
        _ => panic!("expected a validation action"),
    };
    match &a {
        Action::ValidateContract(ci) => {
            assert_eq!(ci.issuer_pubkey, vec![0x03, 0x37, 0xaa]);
            assert_eq!(ci.domain, "example.com");
        }
        _ => panic!("expected a contract action"),
    }
    match resume(&mut state, 1, a, EngineReply::ContractValid) {
        Outcome::Reply(Response::Result { payload: Payload::Contract(ci), .. }) => {
            assert_eq!(ci.ticker, "TKN");
            assert_eq!(ci.precision, 8);
        }
        _ => panic!("expected the contract back"),
    }

    let mut p = Params::empty();
    p.domain = Some("example.com".to_string());
    p.issuer_pubkey = Some("0x123".to_string());
    p.name = Some("token".to_string());
    p.precision = Some(8);
    p.ticker = Some("TKN".to_string());
    p.contract_version = Some(0);
    match dispatch(&mut state, 2, &"contract".to_string(), p) {
        Outcome::Reply(Response::Fail { code, message, .. }) => {
            assert_eq!(code, -32602);
            assert_eq!(message, "issuer_pubkey must be hex");
        }
        _ => panic!("expected a parameter error"),
    }
}

#[test]
fn engine_failure_is_reported_upstream() {
    let mut state = fresh_state();
    let mut p = named("w");
    p.descriptor = Some("ct(slip77(aa),elwpkh(x/0/*))".to_string());
    let a = match dispatch(&mut state, 1, &"load_wallet".to_string(), p) {
        Outcome::Engine(a) => a,
        _ => panic!("expected an engine action"),
    };
    let o = resume(
        &mut state,
        1,
        a,
        EngineReply::Failed { message: "descriptor rejected".to_string() },
    );
    match o {
        Outcome::Reply(Response::Fail { code, message, .. }) => {
            assert_eq!(code, -32010);
            assert_eq!(message, "descriptor rejected");
        }
        _ => panic!("expected an upstream failure"),
    }
    match dispatch(&mut state, 2, &"list_wallets".to_string(), Params::empty()) {
        Outcome::Reply(Response::Result { payload: Payload::ListWallets(ws), .. }) => {
            assert!(ws.is_empty());
        }
        _ => panic!("expected an empty list"),
    }
}

#[test]
fn classify_covers_the_taxonomy() {
    let w = walletd::classify::classify(
        &"ct(slip77(aa),elwpkh([11223344/84h/1h/0h]xpubx/0/*))".to_string(),
    );
    assert_eq!(w, WalletType::Wpkh);
    let w = walletd::classify::classify(&"ct(slip77(aa),elsh(wpkh(xpubx/0/*)))".to_string());
    assert_eq!(w, WalletType::ShWpkh);
    let w = walletd::classify::classify(
        &"ct(slip77(aa),elwsh(multi(2,[11223344/48h]xa,[55667788/48h]xb)))".to_string(),
    );
    assert_eq!(w, WalletType::WshMulti { threshold: 2, total: 2 });
    let w = walletd::classify::classify(&"ct(slip77(aa),eltr(xpubx/0/*))".to_string());
    assert_eq!(w, WalletType::Unknown);
}

#[test]
fn wallet_signers_reads_key_origins() {
    let fps = walletd::classify::wallet_signers(
        &"ct(slip77(aa),elwsh(multi(2,[11223344/48h]xa,[55667788]xb)))".to_string(),
    );
    assert_eq!(fps, vec![0x11223344, 0x55667788]);
}

#[test]
fn lifecycle_guards_start_and_stop() {
    let mut l = Lifecycle::new();
    assert!(matches!(l.is_running(), Err(walletd::Error::NotStarted)));
    assert!(matches!(l.stop(), Err(walletd::Error::NotStarted)));
    assert!(l.start().is_ok());
    assert_eq!(l.is_running().unwrap(), true);
    assert!(matches!(l.start(), Err(walletd::Error::AlreadyStarted)));
    assert!(l.stop().is_ok());
    assert_eq!(l.is_running().unwrap(), false);
    assert!(l.join().is_ok());
    assert!(matches!(l.join(), Err(walletd::Error::NotStarted)));
}

#[test]
fn pset_details_partitions_and_warns_once() {
    let mut state = fresh_state();
    let mut p = named("s1");
    p.kind = Some("external".to_string());
    p.fingerprint = Some("11223344".to_string());
    dispatch(&mut state, 1, &"load_signer".to_string(), p);

    let mut p = named("w");
    p.descriptor = Some("ct(slip77(aa),elwpkh(x/0/*))".to_string());
    let a = match dispatch(&mut state, 1, &"load_wallet".to_string(), p) {
        Outcome::Engine(a) => a,
        _ => panic!("expected an engine action"),
    };
    resume(&mut state, 1, a, EngineReply::WalletCreated);

    let mut p = named("w");
    p.pset = Some("cHNldP8BAgQCAAAA".to_string());
    let a = match dispatch(&mut state, 2, &"wallet_pset_details".to_string(), p) {
        Outcome::Engine(a) => a,
        _ => panic!("expected an engine action"),
    };
    assert!(matches!(a, Action::GetPsetDetails { .. }));
    let o = resume(
        &mut state,
        2,
        a,
        EngineReply::PsetDetailsResult { has: vec![0x11223344], missing: vec![0x99999999] },
    );
    match o {
        Outcome::Reply(Response::Result {
            payload:
                Payload::PsetDetails { has_signatures_from, missing_signatures_from, warnings },
            ..
        }) => {
            assert_eq!(has_signatures_from.len(), 1);
            assert_eq!(has_signatures_from[0].name, "s1");
            assert_eq!(missing_signatures_from.len(), 1);
            assert_eq!(missing_signatures_from[0].name, "unknown");
            assert_eq!(warnings.len(), 1);
            assert_eq!(warnings[0], "fingerprint not found in the loaded signers");
        }
        _ => panic!("expected pset details"),
    }
}

#[test]
fn address_and_balance_resolve_the_wallet_first() {
    let mut state = fresh_state();
    match dispatch(&mut state, 1, &"address".to_string(), named("ghost")) {
        Outcome::Reply(Response::Fail { code, message, .. }) => {
            assert_eq!(code, -32008);
            assert_eq!(message, "ghost");
        }
        _ => panic!("expected not found"),
    }
    let mut p = named("w");
    p.descriptor = Some("ct(slip77(aa),elwpkh(x/0/*))".to_string());
    let a = match dispatch(&mut state, 1, &"load_wallet".to_string(), p) {
        Outcome::Engine(a) => a,
        _ => panic!("expected an engine action"),
    };
    resume(&mut state, 1, a, EngineReply::WalletCreated);
    let mut p = named("w");
    p.index = Some(5);
    let a = match dispatch(&mut state, 2, &"address".to_string(), p) {
        Outcome::Engine(a) => a,
        _ => panic!("expected a sync action"),
    };
    assert!(matches!(a, Action::SyncAddress { index: Some(5), .. }));
    match resume(
        &mut state,
        2,
        a,
        EngineReply::AddressResult { address: "lq1qq...".to_string(), index: 5 },
    ) {
        Outcome::Reply(Response::Result { payload: Payload::Address { address, index }, .. }) => {
            assert_eq!(address, "lq1qq...");
            assert_eq!(index, 5);
        }
        _ => panic!("expected an address"),
    }
    let a = match dispatch(&mut state, 3, &"balance".to_string(), named("w")) {
        Outcome::Engine(a) => a,
        _ => panic!("expected a sync action"),
    };
    assert!(matches!(a, Action::SyncBalance { .. }));
}

#[test]
fn xpub_rejects_external_signers() {
    let mut state = fresh_state();
    let mut p = named("s");
    p.kind = Some("external".to_string());
    p.fingerprint = Some("0a0b0c0d".to_string());
    dispatch(&mut state, 1, &"load_signer".to_string(), p);
    let mut p = named("s");
    p.xpub_kind = Some("bip84".to_string());
    match dispatch(&mut state, 2, &"xpub".to_string(), p) {
        Outcome::Reply(Response::Fail { code, message, .. }) => {
            assert_eq!(code, -32010);
            assert_eq!(message, "signer has no signing capability");
        }
        _ => panic!("expected a capability failure"),
    }
    let mut p = named("s");
    p.xpub_kind = Some("bip99".to_string());
    match dispatch(&mut state, 3, &"xpub".to_string(), p) {
        Outcome::Reply(Response::Fail { code, message, .. }) => {
            assert_eq!(code, -32602);
            assert_eq!(message, "xpub kind must be bip49, bip84 or bip87");
        }
        _ => panic!("expected a parameter error"),
    }
}

#[test]
fn generate_signer_returns_the_engine_mnemonic() {
    let mut state = fresh_state();
    let a = match dispatch(&mut state, 1, &"generate_signer".to_string(), Params::empty()) {
        Outcome::Engine(a) => a,
        _ => panic!("expected an engine action"),
    };
    assert!(matches!(a, Action::GenerateSigner));
    match resume(
        &mut state,
        1,
        a,
        EngineReply::MnemonicGenerated { mnemonic: "abandon ability able".to_string() },
    ) {
        Outcome::Reply(Response::Result { payload: Payload::GenerateSigner { mnemonic }, .. }) => {
            assert_eq!(mnemonic, "abandon ability able");
        }
        _ => panic!("expected a mnemonic"),
    }
}

#[test]
fn wallet_combine_passes_all_psets_to_the_engine() {
    let mut state = fresh_state();
    let mut p = named("w");
    p.descriptor = Some("ct(slip77(aa),elwpkh(x/0/*))".to_string());
    let a = match dispatch(&mut state, 1, &"load_wallet".to_string(), p) {
        Outcome::Engine(a) => a,
        _ => panic!("expected an engine action"),
    };
    resume(&mut state, 1, a, EngineReply::WalletCreated);
    let mut p = named("w");
    p.psets = Some(vec!["psetA".to_string(), "psetB".to_string()]);
    let a = match dispatch(&mut state, 2, &"wallet_combine".to_string(), p) {
        Outcome::Engine(a) => a,
        _ => panic!("expected a combine action"),
    };
    match &a {
        Action::CombinePsets { name, psets } => {
            assert_eq!(name, "w");
            assert_eq!(psets.len(), 2);
        }
        _ => panic!("expected a combine action"),
    }
    match resume(&mut state, 2, a, EngineReply::PsetResult { pset: "merged".to_string() }) {
        Outcome::Reply(Response::Result { payload: Payload::WalletCombine { pset }, .. }) => {
            assert_eq!(pset, "merged");
        }
        _ => panic!("expected the combined pset"),
    }
}

#[test]
fn singlesig_descriptor_needs_an_available_signer() {
    let mut state = fresh_state();
    let mut p = named("soft");
    p.kind = Some("software".to_string());
    p.mnemonic = Some("abandon abandon about".to_string());
    let a = match dispatch(&mut state, 1, &"load_signer".to_string(), p) {
        Outcome::Engine(a) => a,
        _ => panic!("expected an engine action"),
    };
    resume(
        &mut state,
        1,
        a,
        EngineReply::SignerCreated {
            fingerprint: 1,
            identifier: "id1".to_string(),
            xpub: "xpub1".to_string(),
        },
    );
    let mut p = named("soft");
    p.singlesig_kind = Some("wpkh".to_string());
    p.descriptor_blinding_key = Some("slip77".to_string());
    let a = match dispatch(&mut state, 2, &"singlesig_descriptor".to_string(), p) {
        Outcome::Engine(a) => a,
        _ => panic!("expected a build action"),
    };
    assert!(matches!(a, Action::BuildSinglesigDescriptor { .. }));
    match resume(
        &mut state,
        2,
        a,
        EngineReply::DescriptorBuilt { descriptor: "ct(...)".to_string() },
    ) {
        Outcome::Reply(Response::Result {
            payload: Payload::SinglesigDescriptor { descriptor },
            ..
        }) => assert_eq!(descriptor, "ct(...)"),
        _ => panic!("expected a descriptor"),
    }

    let mut p = named("soft");
    p.singlesig_kind = Some("p2pk".to_string());
    p.descriptor_blinding_key = Some("slip77".to_string());
    match dispatch(&mut state, 3, &"singlesig_descriptor".to_string(), p) {
        Outcome::Reply(Response::Fail { code, message, .. }) => {
            assert_eq!(code, -32602);
            assert_eq!(message, "singlesig kind must be wpkh or shwpkh");
        }
        _ => panic!("expected a parameter error"),
    }
}

#[test]
fn send_many_requires_addressees_and_passes_them_through() {
    let mut state = fresh_state();
    let mut p = named("w");
    p.descriptor = Some("ct(slip77(aa),elwpkh(x/0/*))".to_string());
    let a = match dispatch(&mut state, 1, &"load_wallet".to_string(), p) {
        Outcome::Engine(a) => a,
        _ => panic!("expected an engine action"),
    };
    resume(&mut state, 1, a, EngineReply::WalletCreated);

    match dispatch(&mut state, 2, &"send_many".to_string(), named("w")) {
        Outcome::Reply(Response::Fail { code, message, .. }) => {
            assert_eq!(code, -32602);
            assert_eq!(message, "addressees must be set");
        }
        _ => panic!("expected a parameter error"),
    }

    let mut p = named("w");
    p.addressees = Some(vec![walletd::dispatch::Addressee {
        satoshi: 5000,
        address: "lq1qq...".to_string(),
        asset: "144c654344aa716d6f3abcc1ca90e5641e4e2a7f633bc09fe3baf64585819a49".to_string(),
    }]);
    let a = match dispatch(&mut state, 3, &"send_many".to_string(), p) {
        Outcome::Engine(a) => a,
        _ => panic!("expected a sync-and-send action"),
    };
    match &a {
        Action::SyncSend { name, addressees } => {
            assert_eq!(name, "w");
            assert_eq!(addressees.len(), 1);
            assert_eq!(addressees[0].satoshi, 5000);
        }
        _ => panic!("expected a send action"),
    }
    match resume(&mut state, 3, a, EngineReply::PsetResult { pset: "built".to_string() }) {
        Outcome::Reply(Response::Result { payload: Payload::Pset { pset }, .. }) => {
            assert_eq!(pset, "built");
        }
        _ => panic!("expected the unsigned pset"),
    }
}
