//! Signer entries held by the registry, and the identity resolver that maps
//! a fingerprint back to a signer name, accumulating warnings.
use vstd::prelude::*;
use vstd::string::*;

use crate::registry::Registry;

verus! {

/// A signer entry: either the process holds live signing capability, or only
/// a fingerprint is known. An external entry carries only the fingerprint;
/// identifier and extended public key are always absent for that variant.
pub enum AppSigner {
    Available { fingerprint: u32, identifier: String, xpub: String },
    External { fingerprint: u32 },
}

impl AppSigner {
    /// The fingerprint of the signer's master key, as a 32-bit value.
    pub open spec fn spec_fingerprint(&self) -> u32 {
        match self {
            AppSigner::Available { fingerprint, .. } => *fingerprint,
            AppSigner::External { fingerprint } => *fingerprint,
        }
    }

    pub fn fingerprint(&self) -> (fp: u32)
        ensures
            fp == self.spec_fingerprint(),
    {
        match self {
            AppSigner::Available { fingerprint, .. } => *fingerprint,
            AppSigner::External { fingerprint } => *fingerprint,
        }
    }

    /// Whether the process holds live signing capability for this entry.
    pub fn is_available(&self) -> (b: bool)
        ensures
            b == (self is Available),
    {
        match self {
            AppSigner::Available { .. } => true,
            AppSigner::External { .. } => false,
        }
    }
}

/// The identity information reported for a registered signer.
pub struct SignerInfo {
    pub name: String,
    pub fingerprint: u32,
    pub id: Option<String>,
    pub xpub: Option<String>,
}

/// Builds the identity report for a signer: an available signer reports its
/// identifier and extended public key, an external one only its fingerprint.
pub fn signer_response_from(name: &String, signer: &AppSigner) -> (r: SignerInfo)
    ensures
        r.name@ == name@,
        r.fingerprint == signer.spec_fingerprint(),
        signer matches AppSigner::Available { identifier, xpub, .. } ==> {
            &&& (r.id matches Some(i) && i == identifier)
            &&& (r.xpub matches Some(x) && x == xpub)
        },
        signer is External ==> r.id is None && r.xpub is None,
{
    match signer {
        AppSigner::Available { fingerprint, identifier, xpub } => SignerInfo {
            name: name.clone(),
            fingerprint: *fingerprint,
            id: Some(identifier.clone()),
            xpub: Some(xpub.clone()),
        },
        AppSigner::External { fingerprint } => SignerInfo {
            name: name.clone(),
            fingerprint: *fingerprint,
            id: None,
            xpub: None,
        },
    }
}

/// The views of a sequence of strings.
pub open spec fn views_of(s: Seq<String>) -> Seq<Seq<char>> {
    s.map(|i: int, x: String| x@)
}

/// The warning recorded when a fingerprint matches no registered signer.
pub open spec fn unknown_fingerprint_warning() -> Seq<char> {
    "fingerprint not found in the loaded signers"@
}

/// The placeholder name reported when a fingerprint cannot be resolved.
pub open spec fn unknown_name() -> Seq<char> {
    "unknown"@
}

/// How many registered signers carry fingerprint `fp`.
pub open spec fn spec_match_count(s: Seq<(Seq<char>, AppSigner)>, fp: u32) -> nat
    decreases s.len(),
{
    if s.len() == 0 {
        0
    } else {
        spec_match_count(s.drop_last(), fp) + if s.last().1.spec_fingerprint() == fp {
            1nat
        } else {
            0nat
        }
    }
}

/// The name resolved for one fingerprint, with how many registry entries
/// matched it.
pub struct Resolved {
    pub name: String,
    pub matches: usize,
}

/// Scans the signer registry for `fp`. With at least one match the name of a
/// matching entry is returned and no warning is recorded; with none, the
/// placeholder name is returned and one "unknown fingerprint" warning is
/// appended. A duplicate-fingerprint registry is reported through `matches`,
/// not through a warning: the caller raises that warning once per request.
pub fn name_from_fingerprint(
    signers: &Registry<AppSigner>,
    fp: u32,
    warnings: &mut Vec<String>,
) -> (r: Resolved)
    ensures
        r.matches == spec_match_count(signers.spec_entries(), fp),
        r.matches > 0 ==> exists|j: int|
            0 <= j < signers.spec_entries().len() && (#[trigger] signers.spec_entries()[j]).1.spec_fingerprint()
                == fp && r.name@ == signers.spec_entries()[j].0,
        r.matches == 0 ==> r.name@ == unknown_name(),
        r.matches == 0 ==> views_of(final(warnings)@) == views_of(old(warnings)@).push(
            unknown_fingerprint_warning(),
        ),
        r.matches > 0 ==> final(warnings)@ == old(warnings)@,
{
    let ghost entries = signers.spec_entries();
    let n = signers.len();
    let mut i: usize = 0;
    let mut count: usize = 0;
    let mut found: Option<String> = None;
    while i < n
        invariant
            n == entries.len(),
            entries == signers.spec_entries(),
            0 <= i <= n,
            count <= i,
            count == spec_match_count(entries.take(i as int), fp),
            count > 0 ==> (found matches Some(nm) && exists|j: int|
                0 <= j < i && (#[trigger] entries[j]).1.spec_fingerprint() == fp && nm@
                    == entries[j].0),
            count == 0 ==> found is None,
        decreases n - i,
    {
        proof {
            assert(entries.take(i + 1).drop_last() =~= entries.take(i as int));
            assert(entries.take(i + 1).last() == entries[i as int]);
        }
        let s = signers.value_at(i);
        if s.fingerprint() == fp {
            if count == 0 {
                found = Some(signers.name_at(i).clone());
            }
            count += 1;
        }
        i += 1;
    }
    proof {
        assert(entries.take(n as int) =~= entries);
    }
    match found {
        Some(name) => Resolved { name, matches: count },
        None => {
            let w = String::from_str("fingerprint not found in the loaded signers");
            warnings.push(w);
            proof {
                assert(views_of(warnings@) =~= views_of(old(warnings)@).push(
                    unknown_fingerprint_warning(),
                ));
            }
            Resolved { name: String::from_str("unknown"), matches: count }
        },
    }
}


/// The wallet-level warning raised once per request when fingerprints are
/// duplicated, among the wallet's signers or among the loaded ones.
pub open spec fn duplicate_fingerprint_warning() -> Seq<char> {
    "wallet has multiple signers with the same fingerprint"@
}

/// How many of `fps` match no registered signer at all.
pub open spec fn spec_unknown_count(entries: Seq<(Seq<char>, AppSigner)>, fps: Seq<u32>) -> nat
    decreases fps.len(),
{
    if fps.len() == 0 {
        0
    } else {
        spec_unknown_count(entries, fps.drop_last()) + if spec_match_count(entries, fps.last())
            == 0 {
            1nat
        } else {
            0nat
        }
    }
}

/// Whether some fingerprint of `fps` matches two or more registered signers.
pub open spec fn spec_saw_multi(entries: Seq<(Seq<char>, AppSigner)>, fps: Seq<u32>) -> bool {
    exists|i: int| 0 <= i < fps.len() && spec_match_count(entries, #[trigger] fps[i]) >= 2
}

/// What a resolved name may be for `fp`: the placeholder when nothing
/// matches, otherwise the name of a matching entry.
pub open spec fn resolved_name_ok(
    entries: Seq<(Seq<char>, AppSigner)>,
    fp: u32,
    nm: Seq<char>,
) -> bool {
    if spec_match_count(entries, fp) == 0 {
        nm == unknown_name()
    } else {
        exists|j: int|
            0 <= j < entries.len() && (#[trigger] entries[j]).1.spec_fingerprint() == fp && nm
                == entries[j].0
    }
}

/// `n` copies of the unknown-fingerprint warning.
pub open spec fn unknown_warning_seq(n: nat) -> Seq<Seq<char>> {
    Seq::new(n, |i: int| unknown_fingerprint_warning())
}

/// One resolved fingerprint of a report.
pub struct SignerDetails {
    pub name: String,
    pub fingerprint: u32,
}

/// The outcome of resolving a whole fingerprint list.
pub struct ResolveOut {
    pub details: Vec<SignerDetails>,
    pub unknowns: Vec<String>,
    pub saw_multi: bool,
}

/// Resolves every fingerprint of `fps` against the signer registry, in
/// order, collecting one unknown-fingerprint warning per unmatched entry and
/// noting whether any fingerprint matched more than one signer.
pub fn resolve_signers(signers: &Registry<AppSigner>, fps: &Vec<u32>) -> (r: ResolveOut)
    ensures
        r.details@.len() == fps@.len(),
        forall|i: int|
            0 <= i < fps@.len() ==> (#[trigger] r.details@[i]).fingerprint == fps@[i]
                && resolved_name_ok(signers.spec_entries(), fps@[i], r.details@[i].name@),
        views_of(r.unknowns@) == unknown_warning_seq(
            spec_unknown_count(signers.spec_entries(), fps@),
        ),
        r.saw_multi == spec_saw_multi(signers.spec_entries(), fps@),
{
    let ghost entries = signers.spec_entries();
    let n = fps.len();
    let mut details: Vec<SignerDetails> = Vec::new();
    let mut unknowns: Vec<String> = Vec::new();
    let mut saw_multi = false;
    let mut i: usize = 0;
    proof {
        assert(views_of(unknowns@) =~= unknown_warning_seq(
            spec_unknown_count(entries, fps@.take(0)),
        ));
    }
    while i < n
        invariant
            entries == signers.spec_entries(),
            n == fps@.len(),
            0 <= i <= n,
            details@.len() == i,
            forall|t: int|
                0 <= t < i ==> (#[trigger] details@[t]).fingerprint == fps@[t] && resolved_name_ok(
                    entries,
                    fps@[t],
                    details@[t].name@,
                ),
            views_of(unknowns@) == unknown_warning_seq(
                spec_unknown_count(entries, fps@.take(i as int)),
            ),
            saw_multi == spec_saw_multi(entries, fps@.take(i as int)),
        decreases n - i,
    {
        proof {
            assert(fps@.take(i + 1).drop_last() =~= fps@.take(i as int));
            assert(fps@.take(i + 1).last() == fps@[i as int]);
        }
        let fp = fps[i];
        let ghost un0 = unknowns@;
        let res = name_from_fingerprint(signers, fp, &mut unknowns);
        let ghost k0 = spec_unknown_count(entries, fps@.take(i as int));
        proof {
            if res.matches == 0 {
                assert(views_of(unknowns@) =~= unknown_warning_seq(k0 + 1));
            }
        }
        if res.matches >= 2 {
            saw_multi = true;
        }
        details.push(SignerDetails { name: res.name, fingerprint: fp });
        proof {
            if spec_saw_multi(entries, fps@.take(i + 1)) {
                let t = choose|t: int|
                    0 <= t < fps@.take(i + 1).len() && spec_match_count(
                        entries,
                        #[trigger] fps@.take(i + 1)[t],
                    ) >= 2;
                if t < i {
                    assert(fps@.take(i as int)[t] == fps@.take(i + 1)[t]);
                    assert(spec_saw_multi(entries, fps@.take(i as int)));
                } else {
                    assert(fps@.take(i + 1)[t] == fps@[i as int]);
                }
            }
            if saw_multi {
                if spec_saw_multi(entries, fps@.take(i as int)) {
                    let t = choose|t: int|
                        0 <= t < fps@.take(i as int).len() && spec_match_count(
                            entries,
                            #[trigger] fps@.take(i as int)[t],
                        ) >= 2;
                    assert(fps@.take(i + 1)[t] == fps@.take(i as int)[t]);
                    assert(spec_saw_multi(entries, fps@.take(i + 1)));
                } else {
                    assert(spec_match_count(entries, fps@[i as int]) >= 2);
                    assert(fps@.take(i + 1)[i as int] == fps@[i as int]);
                    assert(spec_saw_multi(entries, fps@.take(i + 1)));
                }
            }
        }
        i += 1;
    }
    proof {
        assert(fps@.take(n as int) =~= fps@);
    }
    ResolveOut { details, unknowns, saw_multi }
}

} // verus!
