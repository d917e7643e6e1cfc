//! Laws of the dispatcher, stated over its routing contract and proved once
//! for all states and inputs.
use vstd::prelude::*;

use crate::dispatch::{conflict_fails, details_ok, dispatch_post, not_found_fails,
    resume_post, upstream_fails, wallets_match, warnings_ok, Action, EngineReply, Outcome,
    Params, Payload, Response};
use crate::method::{spec_parse_method, Method};
use crate::session::{State, WalletEntry};
use crate::hex::spec_parse_fingerprint;
use crate::signers::{duplicate_fingerprint_warning, spec_match_count, spec_saw_multi,
    spec_unknown_count, unknown_fingerprint_warning, unknown_warning_seq, AppSigner,
    SignerDetails};

verus! {

/// The names of the whole method set, resolved.
#[verifier::rlimit(100)]
pub proof fn lemma_method_names()
    ensures
        spec_parse_method("schema"@) == Some(Method::Schema),
        spec_parse_method("generate_signer"@) == Some(Method::GenerateSigner),
        spec_parse_method("version"@) == Some(Method::Version),
        spec_parse_method("load_wallet"@) == Some(Method::LoadWallet),
        spec_parse_method("unload_wallet"@) == Some(Method::UnloadWallet),
        spec_parse_method("list_wallets"@) == Some(Method::ListWallets),
        spec_parse_method("load_signer"@) == Some(Method::LoadSigner),
        spec_parse_method("unload_signer"@) == Some(Method::UnloadSigner),
        spec_parse_method("list_signers"@) == Some(Method::ListSigners),
        spec_parse_method("address"@) == Some(Method::Address),
        spec_parse_method("balance"@) == Some(Method::Balance),
        spec_parse_method("send_many"@) == Some(Method::SendMany),
        spec_parse_method("singlesig_descriptor"@) == Some(Method::SinglesigDescriptor),
        spec_parse_method("multisig_descriptor"@) == Some(Method::MultisigDescriptor),
        spec_parse_method("xpub"@) == Some(Method::Xpub),
        spec_parse_method("sign"@) == Some(Method::Sign),
        spec_parse_method("broadcast"@) == Some(Method::Broadcast),
        spec_parse_method("wallet_details"@) == Some(Method::WalletDetails),
        spec_parse_method("wallet_combine"@) == Some(Method::WalletCombine),
        spec_parse_method("wallet_pset_details"@) == Some(Method::WalletPsetDetails),
        spec_parse_method("issue"@) == Some(Method::Issue),
        spec_parse_method("contract"@) == Some(Method::Contract),
        spec_parse_method("asset_details"@) == Some(Method::AssetDetails),
        spec_parse_method("stop"@) == Some(Method::Stop),
{
    reveal_strlit("schema");
    reveal_strlit("generate_signer");
    reveal_strlit("version");
    reveal_strlit("load_wallet");
    reveal_strlit("unload_wallet");
    reveal_strlit("list_wallets");
    reveal_strlit("load_signer");
    reveal_strlit("unload_signer");
    reveal_strlit("list_signers");
    reveal_strlit("address");
    reveal_strlit("balance");
    reveal_strlit("send_many");
    reveal_strlit("singlesig_descriptor");
    reveal_strlit("multisig_descriptor");
    reveal_strlit("xpub");
    reveal_strlit("sign");
    reveal_strlit("broadcast");
    reveal_strlit("wallet_details");
    reveal_strlit("wallet_combine");
    reveal_strlit("wallet_pset_details");
    reveal_strlit("issue");
    reveal_strlit("contract");
    reveal_strlit("asset_details");
    reveal_strlit("stop");
    assert("schema"@.len() == 6);
    assert("generate_signer"@.len() == 15);
    assert("version"@.len() == 7);
    assert("load_wallet"@.len() == 11);
    assert("unload_wallet"@.len() == 13);
    assert("list_wallets"@.len() == 12);
    assert("load_signer"@.len() == 11);
    assert("unload_signer"@.len() == 13);
    assert("list_signers"@.len() == 12);
    assert("address"@.len() == 7);
    assert("balance"@.len() == 7);
    assert("send_many"@.len() == 9);
    assert("singlesig_descriptor"@.len() == 20);
    assert("multisig_descriptor"@.len() == 19);
    assert("xpub"@.len() == 4);
    assert("sign"@.len() == 4);
    assert("broadcast"@.len() == 9);
    assert("wallet_details"@.len() == 14);
    assert("wallet_combine"@.len() == 14);
    assert("wallet_pset_details"@.len() == 19);
    assert("issue"@.len() == 5);
    assert("contract"@.len() == 8);
    assert("asset_details"@.len() == 13);
    assert("stop"@.len() == 4);
    assert("xpub"@[0] == 'x');
    assert("sign"@[0] == 's');
    assert("stop"@[0] == 's');
    assert("sign"@[1] == 'i');
    assert("stop"@[1] == 't');
    assert("version"@[0] == 'v');
    assert("address"@[0] == 'a');
    assert("balance"@[0] == 'b');
    assert("send_many"@[0] == 's');
    assert("broadcast"@[0] == 'b');
    assert("unload_wallet"@[0] == 'u');
    assert("unload_signer"@[0] == 'u');
    assert("unload_wallet"@[7] == 'w');
    assert("unload_signer"@[7] == 's');
    assert("list_wallets"@[5] == 'w');
    assert("list_signers"@[5] == 's');
    assert("load_wallet"@[5] == 'w');
    assert("load_signer"@[5] == 's');
    assert("wallet_details"@[7] == 'd');
    assert("wallet_combine"@[7] == 'c');
    assert("wallet_pset_details"@[7] == 'p');
    assert("multisig_descriptor"@[0] == 'm');
    assert("asset_details"@[0] == 'a');
}

/// Loading a wallet under a name and then loading any wallet under the same
/// name again fails with a conflict, and the second call leaves the whole
/// state, the registry and its size included, unchanged.
pub proof fn lemma_load_wallet_then_conflict(
    s0: State,
    s1: State,
    s2: State,
    s3: State,
    id1: u64,
    id2: u64,
    p1: Params,
    p2: Params,
    o1: Outcome,
    o2: Outcome,
    o3: Outcome,
    a: Action,
)
    requires
        dispatch_post(s0, s1, id1, "load_wallet"@, p1, o1),
        p1.name is Some,
        p1.descriptor is Some,
        !s0.wallets.as_map().dom().contains(p1.name.unwrap()@),
        (o1 matches Outcome::Engine(aa) && aa == a),
        resume_post(s1, s2, id1, a, EngineReply::WalletCreated, o2),
        p2.name is Some,
        p2.name.unwrap()@ == p1.name.unwrap()@,
        p2.descriptor is Some,
        dispatch_post(s2, s3, id2, "load_wallet"@, p2, o3),
    ensures
        s3 == s2,
        conflict_fails(o3, id2, p1.name.unwrap()@),
{
    lemma_method_names();
}

/// Unloading a name that is not loaded fails with not-found, leaves the
/// state unchanged, and a listing afterwards is unaffected by the attempt.
pub proof fn lemma_unload_missing_not_found(
    s0: State,
    s1: State,
    s2: State,
    id1: u64,
    id2: u64,
    p1: Params,
    p2: Params,
    o1: Outcome,
    o2: Outcome,
)
    requires
        dispatch_post(s0, s1, id1, "unload_wallet"@, p1, o1),
        p1.name is Some,
        !s0.wallets.as_map().dom().contains(p1.name.unwrap()@),
        dispatch_post(s1, s2, id2, "list_wallets"@, p2, o2),
    ensures
        s1 == s0,
        not_found_fails(o1, id1, p1.name.unwrap()@),
        o2 matches Outcome::Reply(Response::Result {
            id: rid,
            payload: Payload::ListWallets(ws),
        }) && rid == id2 && wallets_match(s0.wallets.spec_entries(), ws@),
{
    lemma_method_names();
}

/// Round trip: loading a wallet into an empty registry lists exactly that
/// one wallet under its name with its descriptor; unloading it returns the
/// descriptor and leaves the registry empty again.
pub proof fn lemma_wallet_round_trip(
    s0: State,
    s1: State,
    s2: State,
    s3: State,
    s4: State,
    id1: u64,
    id2: u64,
    id3: u64,
    p1: Params,
    p2: Params,
    p3: Params,
    o1: Outcome,
    o2: Outcome,
    o3: Outcome,
    o4: Outcome,
    a: Action,
)
    requires
        s0.wallets.as_map() =~= Map::<Seq<char>, WalletEntry>::empty(),
        s0.wallets.spec_entries() =~= Seq::<(Seq<char>, WalletEntry)>::empty(),
        dispatch_post(s0, s1, id1, "load_wallet"@, p1, o1),
        p1.name is Some,
        p1.descriptor is Some,
        (o1 matches Outcome::Engine(aa) && aa == a),
        resume_post(s1, s2, id1, a, EngineReply::WalletCreated, o2),
        dispatch_post(s2, s3, id2, "list_wallets"@, p2, o3),
        dispatch_post(s3, s4, id3, "unload_wallet"@, p3, o4),
        p3.name is Some,
        p3.name.unwrap()@ == p1.name.unwrap()@,
    ensures
        o3 matches Outcome::Reply(Response::Result {
            id: rid3,
            payload: Payload::ListWallets(ws),
        }) && rid3 == id2 && ws@.len() == 1 && ws@[0].name@ == p1.name.unwrap()@
            && ws@[0].descriptor@ == p1.descriptor.unwrap()@,
        o4 matches Outcome::Reply(Response::Result {
            id: rid4,
            payload: Payload::UnloadWallet(w),
        }) && rid4 == id3 && w.name@ == p1.name.unwrap()@ && w.descriptor@
            == p1.descriptor.unwrap()@,
        s4.wallets.spec_entries().len() == 0,
        s4.wallets.as_map() =~= Map::<Seq<char>, WalletEntry>::empty(),
{
    lemma_method_names();
    let n = p1.name.unwrap()@;
    let d = p1.descriptor.unwrap()@;
    assert(s1 == s0);
    assert(s2.wallets.spec_entries().len() == 1);
    assert(s2.wallets.spec_entries()[0].0 == n);
    assert(s2.wallets.spec_entries()[0].1.descriptor@ == d);
    assert(s3 == s2);
    assert(s4.wallets.as_map() =~= Map::<Seq<char>, WalletEntry>::empty());
}

/// A fingerprint carried by at most one index of the registry.
proof fn lemma_one_match(entries: Seq<(Seq<char>, AppSigner)>, fp: u32, i: int)
    requires
        0 <= i < entries.len(),
        entries[i].1.spec_fingerprint() == fp,
    ensures
        spec_match_count(entries, fp) >= 1,
    decreases entries.len(),
{
    if i == entries.len() - 1 {
    } else {
        assert(entries.drop_last()[i] == entries[i]);
        lemma_one_match(entries.drop_last(), fp, i);
    }
}

proof fn lemma_two_matches(entries: Seq<(Seq<char>, AppSigner)>, fp: u32, i: int, j: int)
    requires
        0 <= i < j < entries.len(),
        entries[i].1.spec_fingerprint() == fp,
        entries[j].1.spec_fingerprint() == fp,
    ensures
        spec_match_count(entries, fp) >= 2,
    decreases entries.len(),
{
    if j == entries.len() - 1 {
        assert(entries.drop_last()[i] == entries[i]);
        lemma_one_match(entries.drop_last(), fp, i);
    } else {
        assert(entries.drop_last()[i] == entries[i]);
        assert(entries.drop_last()[j] == entries[j]);
        lemma_two_matches(entries.drop_last(), fp, i, j);
    }
}

/// When a fingerprint matches exactly one loaded signer, any name a report
/// resolves for it is that signer's name.
pub proof fn lemma_unique_match_resolves(
    entries: Seq<(Seq<char>, AppSigner)>,
    fp: u32,
    nm: Seq<char>,
    j0: int,
)
    requires
        0 <= j0 < entries.len(),
        entries[j0].1.spec_fingerprint() == fp,
        spec_match_count(entries, fp) == 1,
        crate::signers::resolved_name_ok(entries, fp, nm),
    ensures
        nm == entries[j0].0,
{
    let j = choose|j: int|
        0 <= j < entries.len() && (#[trigger] entries[j]).1.spec_fingerprint() == fp && nm
            == entries[j].0;
    if j < j0 {
        lemma_two_matches(entries, fp, j, j0);
    } else if j0 < j {
        lemma_two_matches(entries, fp, j0, j);
    }
}

/// Over fingerprints that each match at least one loaded signer, no
/// unknown-fingerprint warning is owed.
proof fn lemma_no_unknowns(entries: Seq<(Seq<char>, AppSigner)>, fps: Seq<u32>)
    requires
        forall|i: int| 0 <= i < fps.len() ==> spec_match_count(entries, #[trigger] fps[i]) >= 1,
    ensures
        spec_unknown_count(entries, fps) == 0,
    decreases fps.len(),
{
    if fps.len() > 0 {
        assert(forall|i: int|
            0 <= i < fps.len() - 1 ==> fps.drop_last()[i] == #[trigger] fps[i]);
        lemma_no_unknowns(entries, fps.drop_last());
        assert(spec_match_count(entries, fps.last()) >= 1);
    }
}

/// A report over fingerprints that each match exactly one loaded signer,
/// with no duplicates among them, carries no warnings at all.
pub proof fn lemma_clean_report_has_no_warnings(
    entries: Seq<(Seq<char>, AppSigner)>,
    fps: Seq<u32>,
    ws: Seq<Seq<char>>,
)
    requires
        forall|i: int| 0 <= i < fps.len() ==> spec_match_count(entries, #[trigger] fps[i]) == 1,
        !crate::classify::spec_has_dup(fps),
        warnings_ok(
            ws,
            crate::classify::spec_has_dup(fps) || spec_saw_multi(entries, fps),
            spec_unknown_count(entries, fps),
        ),
    ensures
        ws =~= Seq::<Seq<char>>::empty(),
{
    assert(!spec_saw_multi(entries, fps));
    lemma_no_unknowns(entries, fps);
    assert(unknown_warning_seq(0) =~= Seq::<Seq<char>>::empty());
    assert(ws =~= Seq::<Seq<char>>::empty().add(Seq::<Seq<char>>::empty()));
}

/// A report over a fingerprint list with an unmatched entry carries at
/// least one warning.
pub proof fn lemma_unknown_fingerprint_warns(
    entries: Seq<(Seq<char>, AppSigner)>,
    fps: Seq<u32>,
    ws: Seq<Seq<char>>,
    i: int,
    dup: bool,
)
    requires
        0 <= i < fps.len(),
        spec_match_count(entries, fps[i]) == 0,
        warnings_ok(ws, dup, spec_unknown_count(entries, fps)),
    ensures
        ws.len() >= 1,
{
    lemma_some_unknown(entries, fps, i);
}

proof fn lemma_some_unknown(entries: Seq<(Seq<char>, AppSigner)>, fps: Seq<u32>, i: int)
    requires
        0 <= i < fps.len(),
        spec_match_count(entries, fps[i]) == 0,
    ensures
        spec_unknown_count(entries, fps) >= 1,
    decreases fps.len(),
{
    if i == fps.len() - 1 {
    } else {
        assert(fps.drop_last()[i] == fps[i]);
        lemma_some_unknown(entries, fps.drop_last(), i);
    }
}

/// However many duplicated fingerprints a report meets, the duplicate
/// warning stands exactly once: first, and nowhere else.
pub proof fn lemma_one_duplicate_warning(
    entries: Seq<(Seq<char>, AppSigner)>,
    fps: Seq<u32>,
    ws: Seq<Seq<char>>,
    dup: bool,
)
    requires
        dup,
        warnings_ok(ws, dup, spec_unknown_count(entries, fps)),
    ensures
        ws.len() >= 1,
        ws[0] == duplicate_fingerprint_warning(),
        forall|i: int| 1 <= i < ws.len() ==> ws[i] != duplicate_fingerprint_warning(),
{
    reveal_strlit("wallet has multiple signers with the same fingerprint");
    reveal_strlit("fingerprint not found in the loaded signers");
    assert forall|i: int| 1 <= i < ws.len() implies ws[i] != duplicate_fingerprint_warning() by {
        assert(ws[i] == unknown_warning_seq(spec_unknown_count(entries, fps))[i - 1]);
        assert(ws[i] == unknown_fingerprint_warning());
        assert(unknown_fingerprint_warning().len() != duplicate_fingerprint_warning().len());
    }
}

/// Signing with a capability-less signer fails recoverably: no engine
/// action is requested, nothing changes, and so the supplied text is left
/// untouched.
pub proof fn lemma_sign_external_fails(
    s0: State,
    s1: State,
    id: u64,
    p: Params,
    o: Outcome,
    n: Seq<char>,
)
    requires
        dispatch_post(s0, s1, id, "sign"@, p, o),
        (p.name matches Some(nm) && nm@ == n),
        p.pset is Some,
        s0.signers.as_map().dom().contains(n),
        s0.signers.as_map()[n] is External,
    ensures
        s1 == s0,
        upstream_fails(o, id, "signer has no signing capability"@),
        !(o is Engine),
{
    lemma_method_names();
}

/// Finalizing with `dry_run` replies at once with the transaction id and
/// asks for no submission; without it, the submission is requested and the
/// eventual reply carries the same transaction id.
pub proof fn lemma_broadcast_dry_run(
    s0: State,
    s1: State,
    s2: State,
    s3: State,
    id: u64,
    name: String,
    pset: String,
    txid: String,
    o_dry: Outcome,
    o_wet: Outcome,
    o_done: Outcome,
    ab: Action,
)
    requires
        resume_post(
            s0,
            s1,
            id,
            Action::FinalizePset { name, pset, dry_run: true },
            EngineReply::Finalized { txid },
            o_dry,
        ),
        resume_post(
            s0,
            s2,
            id,
            Action::FinalizePset { name, pset, dry_run: false },
            EngineReply::Finalized { txid },
            o_wet,
        ),
        (o_wet matches Outcome::Engine(aa) && aa == ab),
        resume_post(s2, s3, id, ab, EngineReply::BroadcastDone, o_done),
    ensures
        s1 == s0,
        s2 == s0,
        s3 == s0,
        !(o_dry is Engine),
        o_dry matches Outcome::Reply(Response::Result {
            id: rid1,
            payload: Payload::Broadcast { txid: t1 },
        }) && rid1 == id && t1@ == txid@,
        o_done matches Outcome::Reply(Response::Result {
            id: rid2,
            payload: Payload::Broadcast { txid: t2 },
        }) && rid2 == id && t2@ == txid@,
{
}

/// An unknown method name is answered with an unimplemented response that
/// carries the name verbatim under the request id, and nothing changes:
/// the session outlives the stray call.
pub proof fn lemma_unknown_method(
    s0: State,
    s1: State,
    id: u64,
    m: Seq<char>,
    p: Params,
    o: Outcome,
)
    requires
        dispatch_post(s0, s1, id, m, p, o),
        spec_parse_method(m) is None,
    ensures
        s1 == s0,
        o matches Outcome::Reply(Response::Unimplemented { id: rid, method: mm }) && rid == id
            && mm@ == m,
{
}


/// Appending one signer entry raises the count of its own fingerprint by
/// one and leaves every other count alone.
proof fn lemma_match_count_push(
    entries: Seq<(Seq<char>, AppSigner)>,
    e: (Seq<char>, AppSigner),
    fp: u32,
)
    ensures
        spec_match_count(entries.push(e), fp) == spec_match_count(entries, fp) + (
        if e.1.spec_fingerprint() == fp {
            1nat
        } else {
            0nat
        }),
{
    assert(entries.push(e).drop_last() =~= entries);
    assert(entries.push(e).last() == e);
}

/// Loading an external signer under a fresh name, with a fingerprint no
/// other loaded signer carries, makes any report over exactly that
/// fingerprint resolve it to the new signer's name with no warnings at all.
pub proof fn lemma_external_signer_resolves(
    s0: State,
    s1: State,
    id1: u64,
    p1: Params,
    o1: Outcome,
    fps: Seq<u32>,
    dets: Seq<SignerDetails>,
    ws: Seq<Seq<char>>,
)
    requires
        dispatch_post(s0, s1, id1, "load_signer"@, p1, o1),
        p1.name is Some,
        (p1.kind matches Some(k) && k@ == "external"@),
        p1.fingerprint is Some,
        spec_parse_fingerprint(p1.fingerprint.unwrap()@) is Some,
        !s0.signers.as_map().dom().contains(p1.name.unwrap()@),
        spec_match_count(
            s0.signers.spec_entries(),
            spec_parse_fingerprint(p1.fingerprint.unwrap()@).unwrap(),
        ) == 0,
        fps == seq![spec_parse_fingerprint(p1.fingerprint.unwrap()@).unwrap()],
        details_ok(s1.signers.spec_entries(), fps, dets),
        warnings_ok(
            ws,
            crate::classify::spec_has_dup(fps) || spec_saw_multi(s1.signers.spec_entries(), fps),
            spec_unknown_count(s1.signers.spec_entries(), fps),
        ),
    ensures
        dets.len() == 1,
        dets[0].name@ == p1.name.unwrap()@,
        ws =~= Seq::<Seq<char>>::empty(),
{
    lemma_method_names();
    reveal_strlit("software");
    reveal_strlit("serial");
    reveal_strlit("external");
    assert("software"@.len() == 8);
    assert("serial"@.len() == 6);
    assert("external"@.len() == 8);
    assert("external"@[0] == 'e');
    assert("software"@[0] == 's');
    let n = p1.name.unwrap()@;
    let fp = spec_parse_fingerprint(p1.fingerprint.unwrap()@).unwrap();
    let e0 = s0.signers.spec_entries();
    let e1 = s1.signers.spec_entries();
    assert(e1 == e0.push((n, AppSigner::External { fingerprint: fp })));
    lemma_match_count_push(e0, (n, AppSigner::External { fingerprint: fp }), fp);
    assert(spec_match_count(e1, fp) == 1);
    assert(e1[e1.len() - 1].0 == n);
    assert(e1[e1.len() - 1].1.spec_fingerprint() == fp);
    assert(fps[0] == fp);
    assert(crate::signers::resolved_name_ok(e1, fps[0], dets[0].name@));
    lemma_unique_match_resolves(e1, fp, dets[0].name@, e1.len() - 1);
    assert(!crate::classify::spec_has_dup(fps)) by {
        if crate::classify::spec_has_dup(fps) {
            let (i, j) = choose|i: int, j: int| 0 <= i < j < fps.len() && fps[i] == fps[j];
            assert(j < 1);
        }
    }
    assert(forall|i: int|
        0 <= i < fps.len() ==> spec_match_count(e1, #[trigger] fps[i]) == 1);
    lemma_clean_report_has_no_warnings(e1, fps, ws);
}

} // verus!
