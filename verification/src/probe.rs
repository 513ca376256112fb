//! Classifying what a process's standard-input descriptor points to.
//!
//! The caller resolves the descriptor's entry in the kernel's descriptor
//! table to its target path and hands the bytes in. A target naming a
//! pseudo-terminal (`/dev/pts/`) or a controlling terminal (`/dev/tty`) is
//! interactive: a process sleeping on such a descriptor may be waiting for a
//! human. Any other target — a file, a pipe, a socket — is not.
//!
//! The same byte-level scan also serves the diagnostic-tool heuristic: more
//! than one line of tool output means the descriptor is open for reading.

use vstd::prelude::*;

verus! {

/// The needle occurs in the haystack starting at index `i`.
pub open spec fn match_at(h: Seq<u8>, n: Seq<u8>, i: int) -> bool {
    0 <= i && i + n.len() <= h.len() && h.subrange(i, i + n.len()) == n
}

/// The needle occurs somewhere in the haystack.
pub open spec fn contains_seq(h: Seq<u8>, n: Seq<u8>) -> bool {
    exists|i: int| match_at(h, n, i)
}

/// The bytes of `/dev/pts/`, the pseudo-terminal device path fragment.
pub open spec fn pts_fragment() -> Seq<u8> {
    seq![47u8, 100u8, 101u8, 118u8, 47u8, 112u8, 116u8, 115u8, 47u8]
}

/// The bytes of `/dev/tty`, the controlling-terminal device path fragment.
pub open spec fn tty_fragment() -> Seq<u8> {
    seq![47u8, 100u8, 101u8, 118u8, 47u8, 116u8, 116u8, 121u8]
}

/// A descriptor target counts as an interactive terminal when it names a
/// pseudo-terminal or the controlling terminal.
pub open spec fn spec_terminal_target(t: Seq<u8>) -> bool {
    contains_seq(t, pts_fragment()) || contains_seq(t, tty_fragment())
}

/// Whether the needle occurs in the haystack.
fn contains_bytes(h: &[u8], n: &[u8]) -> (r: bool)
    ensures
        r == contains_seq(h@, n@),
{
    let hl = h.len();
    let nl = n.len();
    if nl > hl {
        return false;
    }
    let last_start = hl - nl;
    let mut i: usize = 0;
    while i <= last_start
        invariant
            hl == h@.len(),
            nl == n@.len(),
            nl <= hl,
            last_start == hl - nl,
            i <= last_start + 1,
            forall|p: int| 0 <= p < i ==> !match_at(h@, n@, p),
        decreases last_start + 1 - i,
    {
        let mut k: usize = 0;
        while k < nl && h[i + k] == n[k]
            invariant
                hl == h@.len(),
                nl == n@.len(),
                i + nl <= hl,
                k <= nl,
                forall|q: int| 0 <= q < k ==> h@[i + q] == n@[q],
            decreases nl - k,
        {
            k = k + 1;
        }
        if k == nl {
            proof {
                assert(h@.subrange(i as int, i + n@.len()) =~= n@);
                assert(match_at(h@, n@, i as int));
            }
            return true;
        }
        i = i + 1;
    }
    proof {
        assert(forall|p: int| match_at(h@, n@, p) ==> 0 <= p <= h@.len() - n@.len());
    }
    false
}

/// Does the descriptor target name an interactive terminal device?
pub fn is_terminal_target(t: &[u8]) -> (r: bool)
    ensures
        r == spec_terminal_target(t@),
{
    let pts: [u8; 9] = [47, 100, 101, 118, 47, 112, 116, 115, 47];
    let tty: [u8; 8] = [47, 100, 101, 118, 47, 116, 116, 121];
    proof {
        assert(pts@ =~= pts_fragment());
        assert(tty@ =~= tty_fragment());
    }
    contains_bytes(t, pts.as_slice()) || contains_bytes(t, tty.as_slice())
}

/// The text has more than one line: some line break falls before its last
/// byte, so at least one byte starts a second line.
pub open spec fn spec_multi_line(s: Seq<u8>) -> bool {
    exists|i: int| 0 <= i < s.len() - 1 && s[i] == 10
}

/// Does the text run to more than one line?
pub fn is_multi_line(s: &[u8]) -> (r: bool)
    ensures
        r == spec_multi_line(s@),
{
    if s.len() < 2 {
        return false;
    }
    let stop = s.len() - 1;
    let mut i: usize = 0;
    while i < stop
        invariant
            stop == s@.len() - 1,
            i <= stop,
            forall|p: int| 0 <= p < i ==> s@[p] != 10,
        decreases stop - i,
    {
        if s[i] == 10 {
            return true;
        }
        i = i + 1;
    }
    false
}

} // verus!
