use walletd::dispatch::{dispatch, resume, Action, EngineReply, Outcome, Params, Payload, Response};
use walletd::session::{Config, State};

fn test_config() -> Config {
    Config {
        network: "liquidtestnet".to_string(),
        datadir: "/tmp/walletd".to_string(),
        electrum_url: "127.0.0.1:50001".to_string(),
        tls: false,
        validate_domain: false,
        policy_asset: "144c654344aa716d6f3abcc1ca90e5641e4e2a7f633bc09fe3baf64585819a49"
            .to_string(),
    }
}

fn fresh_state() -> State {
    State::new(test_config())
}

fn params_with_name(name: &str) -> Params {
    let mut p = Params::empty();
    p.name = Some(name.to_string());
    p
}

fn load_wallet(state: &mut State, name: &str, descriptor: &str) -> Outcome {
    let mut p = Params::empty();
    p.name = Some(name.to_string());
    p.descriptor = Some(descriptor.to_string());
    let o = dispatch(state, 1, &"load_wallet".to_string(), p);
    match o {
        Outcome::Engine(a) => {
            assert!(matches!(a, Action::CreateWallet { .. }));
            resume(state, 1, a, EngineReply::WalletCreated)
        }
        other => other,
    }
}

fn load_external_signer(state: &mut State, name: &str, fingerprint: &str) -> Outcome {
    let mut p = Params::empty();
    p.name = Some(name.to_string());
    p.kind = Some("external".to_string());
    p.fingerprint = Some(fingerprint.to_string());
    dispatch(state, 1, &"load_signer".to_string(), p)
}

#[test]
fn version() {
    let mut state = fresh_state();
    let o = dispatch(&mut state, 7, &"version".to_string(), Params::empty());
    match o {
        Outcome::Reply(Response::Result { id, payload: Payload::Version { version } }) => {
            assert_eq!(id, 7);
            assert_eq!(version, walletd::APP_VERSION);
        }
        _ => panic!("expected a version result"),
    }
}

#[test]
fn load_wallet_twice_conflicts() {
    let mut state = fresh_state();
    let o1 = load_wallet(&mut state, "w", "ct(slip77(aa),elwpkh(xpub1/0/*))");
    assert!(matches!(o1, Outcome::Reply(Response::Result { .. })));
    let before = state.wallets.len();
    let o2 = load_wallet(&mut state, "w", "ct(slip77(bb),elwpkh(xpub2/0/*))");
    match o2 {
        Outcome::Reply(Response::Fail { code, message, .. }) => {
            assert_eq!(code, -32009);
            assert_eq!(message, "w");
        }
        _ => panic!("expected a conflict"),
    }
    assert_eq!(state.wallets.len(), before);
}

#[test]
fn unload_missing_wallet_not_found() {
    let mut state = fresh_state();
    let o = dispatch(&mut state, 3, &"unload_wallet".to_string(), params_with_name("nope"));
    match o {
        Outcome::Reply(Response::Fail { id, code, message }) => {
            assert_eq!(id, 3);
            assert_eq!(code, -32008);
            assert_eq!(message, "nope");
        }
        _ => panic!("expected not found"),
    }
    let o2 = dispatch(&mut state, 4, &"list_wallets".to_string(), Params::empty());
    match o2 {
        Outcome::Reply(Response::Result { payload: Payload::ListWallets(ws), .. }) => {
            assert!(ws.is_empty());
        }
        _ => panic!("expected a wallet list"),
    }
}

#[test]
fn wallet_round_trip() {
    let mut state = fresh_state();
    let desc = "ct(slip77(aa),elwpkh(xpubx/0/*))";
    load_wallet(&mut state, "w", desc);
    let o = dispatch(&mut state, 2, &"list_wallets".to_string(), Params::empty());
    match o {
        Outcome::Reply(Response::Result { payload: Payload::ListWallets(ws), .. }) => {
            assert_eq!(ws.len(), 1);
            assert_eq!(ws[0].name, "w");
            assert_eq!(ws[0].descriptor, desc);
        }
        _ => panic!("expected a wallet list"),
    }
    let o = dispatch(&mut state, 3, &"unload_wallet".to_string(), params_with_name("w"));
    match o {
        Outcome::Reply(Response::Result { payload: Payload::UnloadWallet(w), .. }) => {
            assert_eq!(w.name, "w");
            assert_eq!(w.descriptor, desc);
        }
        _ => panic!("expected the unloaded wallet"),
    }
    let o = dispatch(&mut state, 4, &"list_wallets".to_string(), Params::empty());
    match o {
        Outcome::Reply(Response::Result { payload: Payload::ListWallets(ws), .. }) => {
            assert!(ws.is_empty());
        }
        _ => panic!("expected an empty wallet list"),
    }
}

#[test]
fn wallet_details_resolves_external_signer_without_warnings() {
    let mut state = fresh_state();
    let o = load_external_signer(&mut state, "s", "11223344");
    assert!(matches!(o, Outcome::Reply(Response::Result { .. })));
    load_wallet(&mut state, "w", "ct(slip77(aa),elwpkh([11223344/84h/1h/0h]xpubx/0/*))");
    let o = dispatch(&mut state, 9, &"wallet_details".to_string(), params_with_name("w"));
    match o {
        Outcome::Reply(Response::Result {
            payload: Payload::WalletDetails { signers, warnings, .. },
            ..
        }) => {
            assert_eq!(signers.len(), 1);
            assert_eq!(signers[0].name, "s");
            assert_eq!(signers[0].fingerprint, 0x11223344);
            assert!(warnings.is_empty());
        }
        _ => panic!("expected wallet details"),
    }
}

#[test]
fn wallet_details_warns_on_unknown_fingerprint() {
    let mut state = fresh_state();
    load_wallet(&mut state, "w", "ct(slip77(aa),elwpkh([55667788/84h/1h/0h]xpubx/0/*))");
    let o = dispatch(&mut state, 9, &"wallet_details".to_string(), params_with_name("w"));
    match o {
        Outcome::Reply(Response::Result {
            payload: Payload::WalletDetails { signers, warnings, .. },
            ..
        }) => {
            assert_eq!(signers.len(), 1);
            assert_eq!(signers[0].name, "unknown");
            assert!(!warnings.is_empty());
        }
        _ => panic!("expected wallet details"),
    }
}

#[test]
fn duplicate_fingerprints_warn_once_per_call() {
    let mut state = fresh_state();
    load_external_signer(&mut state, "s1", "11223344");
    load_external_signer(&mut state, "s2", "11223344");
    load_wallet(&mut state, "w", "ct(slip77(aa),elwpkh([11223344/84h/1h/0h]xpubx/0/*))");
    let o = dispatch(&mut state, 9, &"wallet_details".to_string(), params_with_name("w"));
    match o {
        Outcome::Reply(Response::Result {
            payload: Payload::WalletDetails { warnings, .. },
            ..
        }) => {
            let dup = "wallet has multiple signers with the same fingerprint";
            let count = warnings.iter().filter(|w| w.as_str() == dup).count();
            assert_eq!(count, 1);
            assert_eq!(warnings.len(), 1);
        }
        _ => panic!("expected wallet details"),
    }
}

#[test]
fn sign_with_external_signer_fails_and_keeps_pset() {
    let mut state = fresh_state();
    load_external_signer(&mut state, "s", "11223344");
    let pset_text = "cHNldP8BAgQCAAAA";
    let mut p = params_with_name("s");
    p.pset = Some(pset_text.to_string());
    let o = dispatch(&mut state, 5, &"sign".to_string(), p);
    match o {
        Outcome::Reply(Response::Fail { code, message, .. }) => {
            assert_eq!(code, -32010);
            assert_eq!(message, "signer has no signing capability");
        }
        _ => panic!("expected a recoverable failure"),
    }
    // No engine action was requested, so nothing could have touched the text.
    assert_eq!(pset_text, "cHNldP8BAgQCAAAA");
}

#[test]
fn broadcast_dry_run_returns_same_txid_without_submission() {
    // The test plays the engine and records every submission it is asked
    // to make.
    let mut submissions: Vec<String> = Vec::new();
    let txid = "f1d2a9";

    let run = |dry: bool, submissions: &mut Vec<String>| -> String {
        let mut state = fresh_state();
        load_wallet(&mut state, "w", "ct(slip77(aa),elwpkh(xpubx/0/*))");
        let mut p = params_with_name("w");
        p.pset = Some("cHNldP8BAgQCAAAA".to_string());
        p.dry_run = Some(dry);
        let o = dispatch(&mut state, 6, &"broadcast".to_string(), p);
        let a = match o {
            Outcome::Engine(a) => a,
            _ => panic!("expected a finalize action"),
        };
        let mut o = resume(&mut state, 6, a, EngineReply::Finalized { txid: txid.to_string() });
        loop {
            match o {
                Outcome::Engine(Action::BroadcastTx { txid: t }) => {
                    submissions.push(t.clone());
                    o = resume(
                        &mut state,
                        6,
                        Action::BroadcastTx { txid: t },
                        EngineReply::BroadcastDone,
                    );
                }
                Outcome::Reply(Response::Result {
                    payload: Payload::Broadcast { txid: t },
                    ..
                }) => return t,
                _ => panic!("expected a broadcast result"),
            }
        }
    };

    let t_dry = run(true, &mut submissions);
    assert!(submissions.is_empty());
    let t_wet = run(false, &mut submissions);
    assert_eq!(submissions.len(), 1);
    assert_eq!(t_dry, t_wet);
    assert_eq!(t_dry, txid);
}

#[test]
fn unknown_method_yields_unimplemented() {
    let mut state = fresh_state();
    let o = dispatch(&mut state, 42, &"frobnicate".to_string(), Params::empty());
    match o {
        Outcome::Reply(Response::Unimplemented { id, method }) => {
            assert_eq!(id, 42);
            assert_eq!(method, "frobnicate");
        }
        _ => panic!("expected an unimplemented response"),
    }
    // The session is still usable afterwards.
    let o = dispatch(&mut state, 43, &"version".to_string(), Params::empty());
    assert!(matches!(o, Outcome::Reply(Response::Result { .. })));
}

#[test]
fn stop_replies_then_signals_shutdown() {
    let mut state = fresh_state();
    let o = dispatch(&mut state, 9, &"stop".to_string(), Params::empty());
    match o {
        Outcome::Stop(Response::Result { id, payload }) => {
            assert_eq!(id, 9);
            assert!(matches!(payload, Payload::Stopped));
        }
        _ => panic!("expected the shutdown signal"),
    }
}
