//! Hex parsing for fingerprints, asset identifiers and public keys.
use vstd::prelude::*;
use vstd::string::*;

verus! {

/// The value of one hex digit, if `c` is one.
pub open spec fn spec_hex_val(c: char) -> Option<u8> {
    if '0' <= c && c <= '9' {
        Some(((c as u32) - 48) as u8)
    } else if 'a' <= c && c <= 'f' {
        Some(((c as u32) - 87) as u8)
    } else if 'A' <= c && c <= 'F' {
        Some(((c as u32) - 55) as u8)
    } else {
        None
    }
}

/// Whether every character of `s` is a hex digit.
pub open spec fn all_hex(s: Seq<char>) -> bool {
    forall|i: int| 0 <= i < s.len() ==> (#[trigger] spec_hex_val(s[i])) is Some
}

/// The number spelled by the hex digits of `s`, most significant first.
pub open spec fn spec_hex_num(s: Seq<char>) -> nat
    decreases s.len(),
{
    if s.len() == 0 {
        0
    } else {
        spec_hex_num(s.drop_last()) * 16nat + (spec_hex_val(s.last()).unwrap_or(0) as nat)
    }
}

/// Sixteen to the `n`th power.
pub open spec fn pow16(n: nat) -> nat
    decreases n,
{
    if n == 0 {
        1
    } else {
        16 * pow16((n - 1) as nat)
    }
}

proof fn lemma_pow16_pos(n: nat)
    ensures
        pow16(n) >= 1,
    decreases n,
{
    if n > 0 {
        lemma_pow16_pos((n - 1) as nat);
    }
}

proof fn lemma_pow16_le(a: nat, b: nat)
    requires
        a <= b,
    ensures
        pow16(a) <= pow16(b),
    decreases b,
{
    if a < b {
        lemma_pow16_le(a, (b - 1) as nat);
        lemma_pow16_pos((b - 1) as nat);
    }
}

/// Sixteen to a smaller power is no larger.
pub proof fn lemma_pow16_le_pub(a: nat, b: nat)
    requires
        a <= b,
    ensures
        pow16(a) <= pow16(b),
{
    lemma_pow16_le(a, b);
}

/// A fingerprint is spelled as exactly eight hex digits.
pub open spec fn spec_parse_fingerprint(s: Seq<char>) -> Option<u32> {
    if s.len() == 8 && all_hex(s) {
        Some(spec_hex_num(s) as u32)
    } else {
        None
    }
}

pub fn hex_val(c: char) -> (r: Option<u8>)
    ensures
        r == spec_hex_val(c),
{
    if '0' <= c && c <= '9' {
        Some(((c as u32) - 48) as u8)
    } else if 'a' <= c && c <= 'f' {
        Some(((c as u32) - 87) as u8)
    } else if 'A' <= c && c <= 'F' {
        Some(((c as u32) - 55) as u8)
    } else {
        None
    }
}

/// Parses exactly eight hex digits into a 32-bit fingerprint.
pub fn parse_fingerprint(s: &String) -> (r: Option<u32>)
    ensures
        r == spec_parse_fingerprint(s@),
{
    let st = s.as_str();
    let n = st.unicode_len();
    if n != 8 {
        return None;
    }
    let mut i: usize = 0;
    let mut acc: u32 = 0;
    while i < n
        invariant
            st@ == s@,
            n == s@.len(),
            n == 8,
            0 <= i <= n,
            all_hex(s@.take(i as int)),
            acc == spec_hex_num(s@.take(i as int)),
            acc < pow16(i as nat),
        decreases n - i,
    {
        let c = st.get_char(i);
        match hex_val(c) {
            None => {
                proof {
                    assert(spec_hex_val(s@[i as int]) is None);
                    assert(!all_hex(s@));
                }
                return None;
            },
            Some(v) => {
                proof {
                    assert(s@.take(i + 1).drop_last() =~= s@.take(i as int));
                    assert(s@.take(i + 1).last() == s@[i as int]);
                    lemma_pow16_le((i + 1) as nat, 8);
                    assert(pow16(8) == 4294967296) by {
                        reveal_with_fuel(pow16, 9);
                    }
                    assert(v < 16);
                    assert((acc as nat) * 16 + v < pow16((i + 1) as nat));
                    assert forall|j: int| 0 <= j < i + 1 implies (#[trigger] spec_hex_val(
                        s@.take(i + 1)[j],
                    )) is Some by {
                        assert(s@.take(i + 1)[j] == s@[j]);
                        if j < i {
                            assert(spec_hex_val(s@.take(i as int)[j]) is Some);
                            assert(s@.take(i as int)[j] == s@[j]);
                        }
                    }
                }
                acc = acc * 16 + (v as u32);
                i += 1;
            },
        }
    }
    proof {
        assert(s@.take(n as int) =~= s@);
    }
    Some(acc)
}

/// The bytes spelled by `s` as pairs of hex digits, if it is well formed:
/// an even number of hex digits.
pub open spec fn spec_hex_bytes(s: Seq<char>) -> Option<Seq<u8>>
    decreases s.len(),
{
    if s.len() % 2 != 0 {
        None
    } else if s.len() == 0 {
        Some(Seq::empty())
    } else {
        let hi = spec_hex_val(s[0]);
        let lo = spec_hex_val(s[1]);
        if hi is Some && lo is Some {
            match spec_hex_bytes(s.skip(2)) {
                Some(rest) => Some(seq![(hi.unwrap_or(0) * 16 + lo.unwrap_or(0)) as u8].add(rest)),
                None => None,
            }
        } else {
            None
        }
    }
}

/// Decodes a hex string into bytes; `None` on odd length or a bad digit.
pub fn hex_to_bytes(s: &String) -> (r: Option<Vec<u8>>)
    ensures
        match r {
            Some(v) => spec_hex_bytes(s@) == Some(v@),
            None => spec_hex_bytes(s@) is None,
        },
{
    let st = s.as_str();
    let n = st.unicode_len();
    if n % 2 != 0 {
        return None;
    }
    let mut i: usize = 0;
    let mut out: Vec<u8> = Vec::new();
    proof {
        assert(s@.skip(0) =~= s@);
    }
    while i < n
        invariant
            st@ == s@,
            n == s@.len(),
            n % 2 == 0,
            0 <= i <= n,
            i % 2 == 0,
            spec_hex_bytes(s@) == (match spec_hex_bytes(s@.skip(i as int)) {
                Some(rest) => Some(out@.add(rest)),
                None => None::<Seq<u8>>,
            }),
        decreases n - i,
    {
        let ghost tail = s@.skip(i as int);
        proof {
            assert(tail.len() == n - i);
            assert(tail[0] == s@[i as int]);
            assert(tail[1] == s@[i as int + 1]);
            assert(tail.skip(2) =~= s@.skip(i as int + 2));
        }
        let hi = match hex_val(st.get_char(i)) {
            Some(v) => v,
            None => {
                proof {
                    assert(spec_hex_bytes(tail) is None);
                }
                return None;
            },
        };
        let lo = match hex_val(st.get_char(i + 1)) {
            Some(v) => v,
            None => {
                proof {
                    assert(spec_hex_bytes(tail) is None);
                }
                return None;
            },
        };
        let b: u8 = hi * 16 + lo;
        let ghost out0 = out@;
        out.push(b);
        proof {
            match spec_hex_bytes(s@.skip(i as int + 2)) {
                Some(rest2) => {
                    assert(spec_hex_bytes(tail) == Some(seq![b].add(rest2)));
                    assert(out0.add(seq![b].add(rest2)) =~= out@.add(rest2));
                },
                None => {
                    assert(spec_hex_bytes(tail) is None);
                },
            }
        }
        i += 2;
    }
    proof {
        assert(s@.skip(n as int) =~= Seq::<char>::empty());
        assert(out@.add(Seq::<u8>::empty()) =~= out@);
    }
    Some(out)
}

/// Whether `s` is exactly 64 hex digits: the spelling of an asset id.
pub open spec fn spec_is_asset_id(s: Seq<char>) -> bool {
    s.len() == 64 && all_hex(s)
}

pub fn is_asset_id(s: &String) -> (b: bool)
    ensures
        b == spec_is_asset_id(s@),
{
    let st = s.as_str();
    let n = st.unicode_len();
    if n != 64 {
        return false;
    }
    let mut i: usize = 0;
    while i < n
        invariant
            st@ == s@,
            n == s@.len(),
            0 <= i <= n,
            all_hex(s@.take(i as int)),
        decreases n - i,
    {
        if hex_val(st.get_char(i)).is_none() {
            proof {
                assert(spec_hex_val(s@[i as int]) is None);
            }
            return false;
        }
        proof {
            assert forall|j: int| 0 <= j < i + 1 implies (#[trigger] spec_hex_val(
                s@.take(i + 1)[j],
            )) is Some by {
                assert(s@.take(i + 1)[j] == s@[j]);
                if j < i {
                    assert(spec_hex_val(s@.take(i as int)[j]) is Some);
                    assert(s@.take(i as int)[j] == s@[j]);
                }
            }
        }
        i += 1;
    }
    proof {
        assert(s@.take(n as int) =~= s@);
    }
    true
}

} // verus!
