//! The descriptor classifier and the extraction of signer fingerprints from
//! a descriptor's key origins. Both are advisory, for reporting: they never
//! gate an operation.
//!
//! The grammar read here is textual: a descriptor may be wrapped as
//! `ct(<blinding-key>,<inner>)` where the blinding key holds no comma; the
//! inner descriptor is classified by its prefix, and a multisig inner
//! `elwsh(multi(<threshold>,<key>,...,<key>))` by its threshold digits and
//! the number of commas before the first closing parenthesis. A key origin
//! is `[` followed by eight hex digits and `/` or `]`.
use vstd::prelude::*;
use vstd::string::*;

use crate::hex::{all_hex, hex_val, spec_hex_num, spec_hex_val, pow16};

verus! {

/// The closed wallet-type taxonomy derived from a descriptor.
#[derive(Clone, Copy, PartialEq, Eq, Structural, Debug)]
pub enum WalletType {
    /// Single key, pay-to-witness-public-key-hash.
    Wpkh,
    /// Single key, script-wrapped witness-public-key-hash.
    ShWpkh,
    /// Witness-script-hash wrapping a multisignature of `total` keys with
    /// the given `threshold`.
    WshMulti { threshold: usize, total: usize },
    Unknown,
}

/// Whether `p` occurs in `s` starting at `off`.
pub open spec fn spec_starts_at(s: Seq<char>, off: int, p: Seq<char>) -> bool {
    0 <= off && off + p.len() <= s.len() && s.subrange(off, off + p.len()) == p
}

/// The first position at or after `from` holding character `c`, if any.
pub open spec fn spec_find(s: Seq<char>, from: int, c: char) -> Option<int>
    decreases s.len() - from when 0 <= from <= s.len()
{
    if from >= s.len() {
        None
    } else if s[from] == c {
        Some(from)
    } else {
        spec_find(s, from + 1, c)
    }
}

/// The number spelled by decimal digits, most significant first.
pub open spec fn spec_dec_num(s: Seq<char>) -> nat
    decreases s.len(),
{
    if s.len() == 0 {
        0
    } else {
        spec_dec_num(s.drop_last()) * 10nat + (
        if '0' <= s.last() && s.last() <= '9' {
            ((s.last() as u32) - 48) as nat
        } else {
            0nat
        })
    }
}

pub open spec fn all_dec(s: Seq<char>) -> bool {
    forall|i: int| 0 <= i < s.len() ==> '0' <= #[trigger] s[i] && s[i] <= '9'
}

/// How many characters in `s` within `[from, to)` equal `c`.
pub open spec fn spec_count(s: Seq<char>, from: int, to: int, c: char) -> nat
    decreases to - from when from <= to
{
    if from >= to {
        0
    } else {
        spec_count(s, from + 1, to, c) + if 0 <= from < s.len() && s[from] == c {
            1nat
        } else {
            0nat
        }
    }
}

/// The inner descriptor of `s`: with a `ct(<no-comma>,<inner>)` wrapper the
/// part between the first comma and the final parenthesis, otherwise `s`.
pub open spec fn spec_inner(s: Seq<char>) -> Seq<char> {
    if spec_starts_at(s, 0, "ct("@) && s.len() >= 4 && s.last() == ')' {
        match spec_find(s, 3, ',') {
            Some(i) => if i + 2 <= s.len() {
                s.subrange(i + 1, s.len() - 1)
            } else {
                s
            },
            None => s,
        }
    } else {
        s
    }
}

/// The classification of the inner descriptor `d`.
pub open spec fn spec_classify_inner(d: Seq<char>) -> WalletType {
    if spec_starts_at(d, 0, "elwpkh("@) {
        WalletType::Wpkh
    } else if spec_starts_at(d, 0, "elsh(wpkh("@) {
        WalletType::ShWpkh
    } else if spec_starts_at(d, 0, "elwsh(multi("@) {
        spec_classify_multi(d)
    } else {
        WalletType::Unknown
    }
}

/// The multisig classification of `elwsh(multi(<k>,<key>,...))`: the digits
/// before the first comma are the threshold; the keys are the pieces between
/// the commas before the first closing parenthesis. Malformed spellings are
/// `Unknown`.
pub open spec fn spec_classify_multi(d: Seq<char>) -> WalletType {
    let start: int = "elwsh(multi("@.len() as int;
    match spec_find(d, start, ',') {
        Some(comma) => match spec_find(d, start, ')') {
            Some(close) => {
                let digits = d.subrange(start, comma);
                if comma < close && digits.len() >= 1 && digits.len() <= 9 && all_dec(digits) {
                    WalletType::WshMulti {
                        threshold: spec_dec_num(digits) as usize,
                        total: spec_count(d, start, close, ',') as usize,
                    }
                } else {
                    WalletType::Unknown
                }
            },
            None => WalletType::Unknown,
        },
        None => WalletType::Unknown,
    }
}

/// The wallet type of descriptor `s`.
pub open spec fn spec_classify(s: Seq<char>) -> WalletType {
    spec_classify_inner(spec_inner(s))
}

/// Whether `p` occurs in `s` starting at `off`.
pub fn starts_at(s: &str, off: usize, p: &str) -> (b: bool)
    requires
        off <= s@.len(),
    ensures
        b == spec_starts_at(s@, off as int, p@),
{
    let n = s.unicode_len();
    let m = p.unicode_len();
    if m > n - off {
        return false;
    }
    let mut j: usize = 0;
    while j < m
        invariant
            n == s@.len(),
            m == p@.len(),
            off + m <= n,
            0 <= j <= m,
            forall|t: int| 0 <= t < j ==> s@[off + t] == p@[t],
        decreases m - j,
    {
        if s.get_char(off + j) != p.get_char(j) {
            proof {
                assert(s@.subrange(off as int, off + m)[j as int] == s@[off + j]);
            }
            return false;
        }
        j += 1;
    }
    proof {
        assert(s@.subrange(off as int, off + m) =~= p@);
    }
    true
}

/// The first position at or after `from` holding `c`, if any.
pub fn find_char(s: &str, from: usize, c: char) -> (r: Option<usize>)
    requires
        from <= s@.len(),
    ensures
        match r {
            Some(i) => from <= i && spec_find(s@, from as int, c) == Some(i as int),
            None => spec_find(s@, from as int, c) is None,
        },
{
    let n = s.unicode_len();
    let mut i: usize = from;
    while i < n
        invariant
            n == s@.len(),
            from <= i <= n,
            spec_find(s@, from as int, c) == spec_find(s@, i as int, c),
        decreases n - i,
    {
        if s.get_char(i) == c {
            return Some(i);
        }
        i += 1;
    }
    None
}

/// Classifies a descriptor into the wallet-type taxonomy.
pub fn classify(descriptor: &String) -> (t: WalletType)
    ensures
        t == spec_classify(descriptor@),
{
    let s = descriptor.as_str();
    let n = s.unicode_len();
    let inner_from: usize;
    let inner_to: usize;
    if starts_at(s, 0, "ct(") && n >= 4 && s.get_char(n - 1) == ')' {
        proof {
            reveal_strlit("ct(");
            assert("ct("@.len() == 3);
        }
        match find_char(s, 3, ',') {
            Some(i) => {
                proof {
                    lemma_find_found(s@, 3, ',', i as int);
                }
                if i <= n - 2 {
                    inner_from = i + 1;
                    inner_to = n - 1;
                    proof {
                        assert(spec_inner(s@) == s@.subrange(i + 1, n - 1));
                    }
                } else {
                    inner_from = 0;
                    inner_to = n;
                }
            },
            None => {
                inner_from = 0;
                inner_to = n;
            },
        }
    } else {
        inner_from = 0;
        inner_to = n;
    }
    proof {
        if inner_from > 0 {
        } else {
            assert(s@.subrange(0, n as int) =~= s@);
        }
    }
    classify_range(s, inner_from, inner_to)
}

/// Classifies the inner descriptor `s[from..to)`.
fn classify_range(s: &str, from: usize, to: usize) -> (t: WalletType)
    requires
        from <= to <= s@.len(),
    ensures
        t == spec_classify_inner(s@.subrange(from as int, to as int)),
{
    let d = s.substring_char(from, to);
    classify_inner(d)
}

/// Classifies an inner descriptor by its prefix.
fn classify_inner(d: &str) -> (t: WalletType)
    ensures
        t == spec_classify_inner(d@),
{
    if starts_at(d, 0, "elwpkh(") {
        WalletType::Wpkh
    } else if starts_at(d, 0, "elsh(wpkh(") {
        WalletType::ShWpkh
    } else if starts_at(d, 0, "elwsh(multi(") {
        classify_multi(d)
    } else {
        WalletType::Unknown
    }
}

/// Reads threshold and key count out of `elwsh(multi(...)`.
fn classify_multi(d: &str) -> (t: WalletType)
    requires
        spec_starts_at(d@, 0, "elwsh(multi("@),
    ensures
        t == spec_classify_multi(d@),
{
    let start: usize = 12;
    proof {
        reveal_strlit("elwsh(multi(");
        assert("elwsh(multi("@.len() == 12);
    }
    let comma = match find_char(d, start, ',') {
        Some(i) => i,
        None => {
            return WalletType::Unknown;
        },
    };
    let close = match find_char(d, start, ')') {
        Some(i) => i,
        None => {
            return WalletType::Unknown;
        },
    };
    proof {
        lemma_find_found(d@, start as int, ',', comma as int);
        lemma_find_found(d@, start as int, ')', close as int);
    }
    if !(comma < close) {
        return WalletType::Unknown;
    }
    let dlen = comma - start;
    if dlen < 1 || dlen > 9 {
        return WalletType::Unknown;
    }
    let ghost digits = d@.subrange(start as int, comma as int);
    let mut j: usize = start;
    let mut acc: usize = 0;
    while j < comma
        invariant
            start == 12,
            spec_find(d@, start as int, ',') == Some(comma as int),
            spec_find(d@, start as int, ')') == Some(close as int),
            comma < close < d@.len(),
            start <= j <= comma,
            1 <= comma - start <= 9,
            digits == d@.subrange(start as int, comma as int),
            all_dec(digits.take(j - start)),
            acc == spec_dec_num(digits.take(j - start)),
        decreases comma - j,
    {
        let c = d.get_char(j);
        proof {
            reveal_strlit("elwsh(multi(");
            assert("elwsh(multi("@.len() == 12);
            lemma_find_range(d@, start as int, ',', comma as int, j as int);
            assert(digits[j - start] == d@[j as int]);
            assert(digits.take(j - start + 1).drop_last() =~= digits.take(j - start));
            assert(digits.take(j - start + 1).last() == digits[j - start]);
        }
        if !('0' <= c && c <= '9') {
            proof {
                assert(digits[j - start] == c);
                if all_dec(digits) {
                    assert('0' <= digits[j - start] && digits[j - start] <= '9');
                }
            }
            return WalletType::Unknown;
        }
        proof {
            assert forall|t: int| 0 <= t < j - start + 1 implies '0' <= #[trigger] digits.take(
                j - start + 1,
            )[t] && digits.take(j - start + 1)[t] <= '9' by {
                if t < j - start {
                    assert('0' <= digits.take(j - start)[t] && digits.take(j - start)[t] <= '9');
                }
            }
            lemma_dec_num_lt(digits.take(j - start), 8);
            assert(pow10(8) == 100000000) by {
                reveal_with_fuel(pow10, 9);
            }
        }
        acc = acc * 10 + ((c as u32) as usize - 48);
        j += 1;
    }
    proof {
        assert(digits.take(comma - start) =~= digits);
    }
    let mut commas: usize = 0;
    let mut k: usize = comma;
    proof {
        lemma_count_split(d@, start as int, comma as int, close as int, ',');
    }
    while k < close
        invariant
            close < d@.len(),
            comma <= k <= close,
            commas == spec_count(d@, comma as int, k as int, ','),
            commas <= k - comma,
            spec_count(d@, comma as int, close as int, ',') == commas + spec_count(
                d@,
                k as int,
                close as int,
                ',',
            ),
        decreases close - k,
    {
        proof {
            reveal_strlit("elwsh(multi(");
            lemma_count_step(d@, k as int, close as int, ',');
            lemma_count_split(d@, comma as int, k as int, k as int + 1, ',');
            assert(spec_count(d@, k as int + 1, k as int + 1, ',') == 0);
            assert(spec_count(d@, k as int, k as int + 1, ',') == (
            if 0 <= k < d@.len() && d@[k as int] == ',' {
                1nat
            } else {
                0nat
            }));
        }
        if d.get_char(k) == ',' {
            commas += 1;
        }
        k += 1;
    }
    proof {
        assert(spec_count(d@, comma as int, close as int, ',') == commas);
        lemma_count_nonneg(d@, start as int, comma as int, ',');
        lemma_find_none_before(d@, start as int, comma as int, ',');
        assert(spec_count(d@, start as int, close as int, ',') == commas);
    }
    WalletType::WshMulti { threshold: acc, total: commas }
}

/// Positions strictly between `from` and a first find at `found` do not hold
/// `c`.
proof fn lemma_find_range(s: Seq<char>, from: int, c: char, found: int, j: int)
    requires
        0 <= from <= s.len(),
        spec_find(s, from, c) == Some(found),
        from <= j < found,
    ensures
        s[j] != c,
        from <= found < s.len(),
        s[found] == c,
    decreases j - from,
{
    lemma_find_found(s, from, c, found);
    if s[from] == c {
        assert(spec_find(s, from, c) == Some(from));
        assert(false);
    }
    if j > from {
        lemma_find_range(s, from + 1, c, found, j);
    }
}

proof fn lemma_find_found(s: Seq<char>, from: int, c: char, found: int)
    requires
        0 <= from <= s.len(),
        spec_find(s, from, c) == Some(found),
    ensures
        from <= found < s.len(),
        s[found] == c,
    decreases s.len() - from,
{
    if from < s.len() && s[from] != c {
        lemma_find_found(s, from + 1, c, found);
    }
}

proof fn lemma_dec_num_lt(s: Seq<char>, n: nat)
    requires
        all_dec(s),
        s.len() <= n,
    ensures
        spec_dec_num(s) < pow10(n),
    decreases s.len(),
{
    if s.len() == 0 {
        lemma_pow10_pos(n);
    } else {
        assert(all_dec(s.drop_last())) by {
            assert(forall|i: int|
                0 <= i < s.len() - 1 ==> '0' <= #[trigger] s.drop_last()[i] && s.drop_last()[i]
                    <= '9');
        }
        lemma_dec_num_lt(s.drop_last(), (n - 1) as nat);
        assert('0' <= s.last() && s.last() <= '9');
    }
}

pub open spec fn pow10(n: nat) -> nat
    decreases n,
{
    if n == 0 {
        1
    } else {
        10 * pow10((n - 1) as nat)
    }
}

proof fn lemma_pow10_pos(n: nat)
    ensures
        pow10(n) >= 1,
    decreases n,
{
    if n > 0 {
        lemma_pow10_pos((n - 1) as nat);
    }
}

proof fn lemma_pow10_le(a: nat, b: nat)
    requires
        a <= b,
    ensures
        pow10(a) <= pow10(b),
    decreases b,
{
    if a < b {
        lemma_pow10_le(a, (b - 1) as nat);
        lemma_pow10_pos((b - 1) as nat);
    }
}

proof fn lemma_count_split(s: Seq<char>, a: int, b: int, c: int, ch: char)
    requires
        a <= b <= c,
    ensures
        spec_count(s, a, c, ch) == spec_count(s, a, b, ch) + spec_count(s, b, c, ch),
    decreases b - a,
{
    if a < b {
        lemma_count_split(s, a + 1, b, c, ch);
    }
}

proof fn lemma_count_step(s: Seq<char>, a: int, c0: int, ch: char)
    requires
        a < c0,
    ensures
        spec_count(s, a, c0, ch) == spec_count(s, a + 1, c0, ch) + if 0 <= a < s.len() && s[a]
            == ch {
            1nat
        } else {
            0nat
        },
{
}

proof fn lemma_count_nonneg(s: Seq<char>, a: int, b: int, ch: char)
    requires
        a <= b,
    ensures
        spec_count(s, a, b, ch) >= 0,
{
}

/// No occurrence of `c` lies in `[from, upto)` when the first find is at
/// `upto` or beyond, so the count there is zero.
proof fn lemma_find_none_before(s: Seq<char>, from: int, upto: int, c: char)
    requires
        0 <= from <= upto <= s.len(),
        spec_find(s, from, c) == Some(upto) || spec_find(s, from, c) is None,
    ensures
        spec_count(s, from, upto, c) == 0,
    decreases upto - from,
{
    if from < upto {
        lemma_find_found_or(s, from, c, upto);
        assert(s[from] != c);
        lemma_find_none_before(s, from + 1, upto, c);
    }
}

proof fn lemma_find_found_or(s: Seq<char>, from: int, c: char, upto: int)
    requires
        0 <= from < upto <= s.len(),
        spec_find(s, from, c) == Some(upto) || spec_find(s, from, c) is None,
    ensures
        s[from] != c,
{
    if s[from] == c {
        assert(spec_find(s, from, c) == Some(from));
    }
}


/// Whether a key origin starts at `i`: `[`, eight hex digits, then `/` or
/// `]`.
pub open spec fn is_fp_at(s: Seq<char>, i: int) -> bool {
    &&& 0 <= i
    &&& i + 9 < s.len()
    &&& s[i] == '['
    &&& all_hex(s.subrange(i + 1, i + 9))
    &&& (s[i + 9] == '/' || s[i + 9] == ']')
}

/// The fingerprint spelled at the key origin starting at `i`.
pub open spec fn fp_at(s: Seq<char>, i: int) -> u32 {
    spec_hex_num(s.subrange(i + 1, i + 9)) as u32
}

/// Every key-origin fingerprint at or after `i`, in order of appearance.
pub open spec fn spec_signers_from(s: Seq<char>, i: int) -> Seq<u32>
    decreases s.len() - i when 0 <= i <= s.len()
{
    if i >= s.len() {
        Seq::empty()
    } else if is_fp_at(s, i) {
        seq![fp_at(s, i)].add(spec_signers_from(s, i + 1))
    } else {
        spec_signers_from(s, i + 1)
    }
}

/// The fingerprints of the signers a descriptor names in its key origins.
pub open spec fn spec_wallet_signers(s: Seq<char>) -> Seq<u32> {
    spec_signers_from(s, 0)
}

/// Reads the fingerprint of a key origin starting at `i`, if one does.
fn try_fp_at(s: &str, i: usize) -> (r: Option<u32>)
    requires
        i < s@.len(),
    ensures
        match r {
            Some(v) => is_fp_at(s@, i as int) && v == fp_at(s@, i as int),
            None => !is_fp_at(s@, i as int),
        },
{
    let n = s.unicode_len();
    if n - i < 10 {
        return None;
    }
    if s.get_char(i) != '[' {
        return None;
    }
    let ghost sub = s@.subrange(i as int + 1, i as int + 9);
    let mut j: usize = 0;
    let mut acc: u32 = 0;
    while j < 8
        invariant
            n == s@.len(),
            i as int + 10 <= n,
            sub == s@.subrange(i as int + 1, i as int + 9),
            0 <= j <= 8,
            all_hex(sub.take(j as int)),
            acc == spec_hex_num(sub.take(j as int)),
            acc < pow16(j as nat),
        decreases 8 - j,
    {
        let c = s.get_char(i + 1 + j);
        proof {
            assert(sub[j as int] == s@[i as int + 1 + j]);
        }
        match hex_val(c) {
            None => {
                proof {
                    assert(spec_hex_val(sub[j as int]) is None);
                    assert(!all_hex(sub));
                }
                return None;
            },
            Some(v) => {
                proof {
                    assert(sub.take(j + 1).drop_last() =~= sub.take(j as int));
                    assert(sub.take(j + 1).last() == sub[j as int]);
                    crate::hex::lemma_pow16_le_pub((j + 1) as nat, 8);
                    assert(crate::hex::pow16(8) == 4294967296) by {
                        reveal_with_fuel(crate::hex::pow16, 9);
                    }
                    assert(v < 16);
                }
                acc = acc * 16 + (v as u32);
                j += 1;
            },
        }
    }
    proof {
        assert(sub.take(8) =~= sub);
    }
    let t = s.get_char(i + 9);
    if t == '/' || t == ']' {
        Some(acc)
    } else {
        None
    }
}

/// Collects every key-origin fingerprint of a descriptor, in order.
pub fn wallet_signers(descriptor: &String) -> (r: Vec<u32>)
    ensures
        r@ == spec_wallet_signers(descriptor@),
{
    let s = descriptor.as_str();
    let n = s.unicode_len();
    let mut out: Vec<u32> = Vec::new();
    let mut i: usize = 0;
    while i < n
        invariant
            s@ == descriptor@,
            n == s@.len(),
            0 <= i <= n,
            spec_wallet_signers(s@) == out@.add(spec_signers_from(s@, i as int)),
        decreases n - i,
    {
        let ghost out0 = out@;
        match try_fp_at(s, i) {
            Some(v) => {
                out.push(v);
                proof {
                    assert(spec_signers_from(s@, i as int) == seq![v].add(
                        spec_signers_from(s@, i as int + 1),
                    ));
                    assert(out0.add(seq![v].add(spec_signers_from(s@, i as int + 1))) =~= out@.add(
                        spec_signers_from(s@, i as int + 1),
                    ));
                }
            },
            None => {
                proof {
                    assert(spec_signers_from(s@, i as int) == spec_signers_from(s@, i as int + 1));
                }
            },
        }
        i += 1;
    }
    proof {
        assert(spec_signers_from(s@, n as int) == Seq::<u32>::empty());
        assert(out@.add(Seq::<u32>::empty()) =~= out@);
    }
    out
}

/// Whether any fingerprint occurs twice in `s`.
pub open spec fn spec_has_dup(s: Seq<u32>) -> bool {
    exists|i: int, j: int| 0 <= i < j < s.len() && s[i] == s[j]
}

/// Reports whether the wallet's signer fingerprints contain a duplicate.
pub fn has_dup(v: &Vec<u32>) -> (b: bool)
    ensures
        b == spec_has_dup(v@),
{
    let n = v.len();
    let mut i: usize = 0;
    while i < n
        invariant
            n == v@.len(),
            0 <= i <= n,
            forall|a: int, b0: int| 0 <= a < b0 < n && a < i ==> v@[a] != v@[b0],
        decreases n - i,
    {
        let mut j: usize = i + 1;
        while j < n
            invariant
                n == v@.len(),
                0 <= i < j <= n,
                forall|a: int, b0: int| 0 <= a < b0 < n && a < i ==> v@[a] != v@[b0],
                forall|b0: int| i < b0 < j ==> v@[i as int] != v@[b0],
            decreases n - j,
        {
            if v[i] == v[j] {
                return true;
            }
            j += 1;
        }
        i += 1;
    }
    false
}

} // verus!
