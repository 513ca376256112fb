//! Reading a process's kernel status record.
//!
//! The record is a whitespace-separated list of fields: the third field is a
//! one-character scheduling-state code, and the fourteenth and fifteenth
//! fields are the user-mode and kernel-mode CPU times in platform ticks.
//! The caller reads the raw record bytes; everything here only parses them.
//! Malformed data — too few fields, non-numeric CPU fields — yields "no
//! data", never a fault.

use vstd::prelude::*;

verus! {

/// An ASCII whitespace byte: the separators of the status record.
pub open spec fn is_space(b: u8) -> bool {
    b == 32 || b == 9 || b == 10 || b == 11 || b == 12 || b == 13
}

/// The index just past the whitespace-free run that starts at `i`: the first
/// index `>= i` holding a whitespace byte, or the length if there is none.
pub open spec fn token_end(s: Seq<u8>, i: int) -> int
    decreases s.len() - i,
{
    if i < 0 || i >= s.len() || is_space(s[i]) {
        i
    } else {
        token_end(s, i + 1)
    }
}

pub proof fn lemma_token_end(s: Seq<u8>, i: int)
    requires
        0 <= i <= s.len(),
    ensures
        i <= token_end(s, i) <= s.len(),
        forall|k: int| i <= k < token_end(s, i) ==> !is_space(s[k]),
        token_end(s, i) < s.len() ==> is_space(s[token_end(s, i)]),
    decreases s.len() - i,
{
    if i < s.len() && !is_space(s[i]) {
        lemma_token_end(s, i + 1);
    }
}

/// The whitespace-separated tokens of `s` from index `i` on, in order.
pub open spec fn tokens_from(s: Seq<u8>, i: int) -> Seq<Seq<u8>>
    decreases s.len() - i,
    via tokens_from_decreases
{
    if i < 0 || i >= s.len() {
        Seq::empty()
    } else if is_space(s[i]) {
        tokens_from(s, i + 1)
    } else {
        seq![s.subrange(i, token_end(s, i))] + tokens_from(s, token_end(s, i))
    }
}

#[via_fn]
proof fn tokens_from_decreases(s: Seq<u8>, i: int) {
    if 0 <= i < s.len() && !is_space(s[i]) {
        lemma_token_end(s, i);
        if token_end(s, i) == i {
            assert(false);
        }
    }
}

/// The whitespace-separated tokens of the whole record.
pub open spec fn record_tokens(s: Seq<u8>) -> Seq<Seq<u8>> {
    tokens_from(s, 0)
}

fn is_space_byte(b: u8) -> (r: bool)
    ensures
        r == is_space(b),
{
    b == 32 || b == 9 || b == 10 || b == 11 || b == 12 || b == 13
}

/// The views of a vector of byte tokens.
pub open spec fn views_of(ts: Seq<Vec<u8>>) -> Seq<Seq<u8>> {
    ts.map_values(|t: Vec<u8>| t@)
}

/// Split a record into its whitespace-separated tokens.
pub fn split_tokens(s: &[u8]) -> (toks: Vec<Vec<u8>>)
    ensures
        views_of(toks@) == record_tokens(s@),
{
    let mut toks: Vec<Vec<u8>> = Vec::new();
    let mut i: usize = 0;
    while i < s.len()
        invariant
            i <= s@.len(),
            record_tokens(s@) == views_of(toks@) + tokens_from(s@, i as int),
        decreases s@.len() - i,
    {
        if is_space_byte(s[i]) {
            i = i + 1;
        } else {
            let ghost i0 = i as int;
            let mut j: usize = i;
            while j < s.len() && !(s[j] == 32 || s[j] == 9 || s[j] == 10 || s[j] == 11 || s[j]
                == 12 || s[j] == 13)
                invariant
                    i0 <= j <= s@.len(),
                    token_end(s@, i0) == token_end(s@, j as int),
                decreases s@.len() - j,
            {
                j = j + 1;
            }
            proof {
                assert(token_end(s@, j as int) == j);
            }
            let tok: Vec<u8> = vstd::slice::slice_to_vec(vstd::slice::slice_subrange(s, i, j));
            let ghost toks0 = toks@;
            toks.push(tok);
            proof {
                assert(views_of(toks@) =~= views_of(toks0) + seq![tok@]);
                assert(views_of(toks@) + tokens_from(s@, j as int) =~= views_of(toks0)
                    + tokens_from(s@, i0));
            }
            i = j;
        }
    }
    proof {
        assert(views_of(toks@) + tokens_from(s@, i as int) =~= views_of(toks@));
    }
    toks
}

/// Every byte is an ASCII decimal digit.
pub open spec fn all_digits(t: Seq<u8>) -> bool {
    forall|k: int| 0 <= k < t.len() ==> 48 <= #[trigger] t[k] <= 57
}

/// The number written by a run of decimal digits, most significant first.
pub open spec fn digits_value(t: Seq<u8>) -> int
    decreases t.len(),
{
    if t.len() == 0 {
        0
    } else {
        digits_value(t.drop_last()) * 10 + t.last() - 48
    }
}

/// What a run of bytes denotes as an unsigned 64-bit number: defined exactly
/// when the run is one or more decimal digits and the value fits.
pub open spec fn digits_u64(t: Seq<u8>) -> Option<u64> {
    if t.len() > 0 && all_digits(t) && digits_value(t) <= u64::MAX {
        Some(digits_value(t) as u64)
    } else {
        None
    }
}

/// What a token denotes as an unsigned 64-bit number, allowing one leading
/// plus sign, as the standard decimal parse does.
pub open spec fn dec_u64(t: Seq<u8>) -> Option<u64> {
    if t.len() > 0 && t[0] == 43 {
        digits_u64(t.drop_first())
    } else {
        digits_u64(t)
    }
}

proof fn lemma_digits_value_nonneg(t: Seq<u8>)
    requires
        all_digits(t),
    ensures
        digits_value(t) >= 0,
    decreases t.len(),
{
    if t.len() > 0 {
        lemma_digits_value_nonneg(t.drop_last());
    }
}

/// A longer digit run never denotes a smaller number than its prefix.
proof fn lemma_digits_value_mono(t: Seq<u8>, k: int)
    requires
        0 <= k <= t.len(),
        all_digits(t),
    ensures
        digits_value(t.subrange(0, k)) <= digits_value(t),
    decreases t.len() - k,
{
    if k < t.len() {
        let p = t.subrange(0, k);
        let q = t.subrange(0, k + 1);
        assert(q.drop_last() =~= p);
        assert(all_digits(p));
        lemma_digits_value_nonneg(p);
        assert(digits_value(q) == digits_value(p) * 10 + t[k] - 48);
        lemma_digits_value_mono(t, k + 1);
    } else {
        assert(t.subrange(0, k) =~= t);
    }
}

/// Parse a token as an unsigned 64-bit decimal number. Returns nothing on an
/// empty or non-numeric token and on a value too large for 64 bits.
pub fn parse_u64(t: &[u8]) -> (r: Option<u64>)
    ensures
        r == dec_u64(t@),
{
    let n = t.len();
    let mut start: usize = 0;
    if n > 0 && t[0] == 43 {
        start = 1;
    }
    let ghost d: Seq<u8> = t@.skip(start as int);
    proof {
        if start == 1 {
            assert(d =~= t@.drop_first());
        } else {
            assert(d =~= t@);
        }
    }
    if start >= n {
        return None;
    }
    let mut acc: u64 = 0;
    let mut k: usize = start;
    while k < n
        invariant
            start <= k <= n,
            n == t@.len(),
            d == t@.skip(start as int),
            start == 1 <==> (t@.len() > 0 && t@[0] == 43),
            start <= 1,
            start == 1 ==> d == t@.drop_first(),
            start == 0 ==> d == t@,
            all_digits(d.subrange(0, k - start)),
            acc == digits_value(d.subrange(0, k - start)),
        decreases n - k,
    {
        let b = t[k];
        let ghost m = k - start;
        proof {
            assert(d[m] == t@[k as int]);
        }
        if b < 48 || b > 57 {
            proof {
                assert(!all_digits(d));
            }
            return None;
        }
        proof {
            assert(d.subrange(0, m + 1).drop_last() =~= d.subrange(0, m));
            assert(d.subrange(0, m + 1).last() == b);
            assert(digits_value(d.subrange(0, m + 1)) == acc * 10 + b - 48);
        }
        if acc > u64::MAX / 10 {
            proof {
                lemma_digits_value_nonneg(d.subrange(0, m));
                if all_digits(d) {
                    lemma_digits_value_mono(d, m + 1);
                }
            }
            return None;
        }
        acc = acc * 10;
        let dig = (b - 48) as u64;
        if dig > u64::MAX - acc {
            proof {
                if all_digits(d) {
                    lemma_digits_value_mono(d, m + 1);
                }
            }
            return None;
        }
        acc = acc + dig;
        k = k + 1;
    }
    proof {
        assert(d.subrange(0, n - start) =~= d);
    }
    Some(acc)
}

/// The scheduling-state field of a record: its third token, if the record
/// has at least three.
pub open spec fn spec_state_field(s: Seq<u8>) -> Option<Seq<u8>> {
    if record_tokens(s).len() >= 3 {
        Some(record_tokens(s)[2])
    } else {
        None
    }
}

/// Extract the scheduling-state field of a record.
pub fn state_field(s: &[u8]) -> (r: Option<Vec<u8>>)
    ensures
        r is Some <==> spec_state_field(s@) is Some,
        r is Some ==> Some(r.unwrap()@) == spec_state_field(s@),
{
    let mut toks = split_tokens(s);
    if toks.len() >= 3 {
        let t = toks.remove(2);
        Some(t)
    } else {
        None
    }
}

/// The combined CPU time a record reports: the sum of its fourteenth and
/// fifteenth fields, when both are present and numeric and the sum fits in
/// 64 bits.
pub open spec fn spec_combined_cpu(s: Seq<u8>) -> Option<u64> {
    let toks = record_tokens(s);
    if toks.len() >= 15 && dec_u64(toks[13]) is Some && dec_u64(toks[14]) is Some && dec_u64(
        toks[13],
    ).unwrap() + dec_u64(toks[14]).unwrap() <= u64::MAX {
        Some((dec_u64(toks[13]).unwrap() + dec_u64(toks[14]).unwrap()) as u64)
    } else {
        None
    }
}

/// Extract the combined user-plus-kernel CPU time of a record.
pub fn combined_cpu(s: &[u8]) -> (r: Option<u64>)
    ensures
        r == spec_combined_cpu(s@),
{
    let mut toks = split_tokens(s);
    if toks.len() < 15 {
        return None;
    }
    let stime_tok = toks.remove(14);
    let utime_tok = toks.remove(13);
    let utime = parse_u64(utime_tok.as_slice());
    let stime = parse_u64(stime_tok.as_slice());
    match (utime, stime) {
        (Some(u), Some(st)) => {
            if u <= u64::MAX - st {
                Some(u + st)
            } else {
                None
            }
        },
        _ => None,
    }
}

} // verus!
