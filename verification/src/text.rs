//! Bounded, possibly NUL-terminated byte text as the native driver produces
//! it: device display names and diagnostic log buffers.
//!
//! The native layer writes text into a fixed-capacity buffer and usually,
//! but not dependably, terminates it with a NUL byte. The core therefore
//! never assumes termination: it keeps the bytes before the first NUL, and
//! never more than the fixed capacity.

use vstd::prelude::*;

verus! {

/// The number of bytes before the first NUL of `s`, or the whole length if
/// no NUL occurs.
pub open spec fn nul_span(s: Seq<u8>) -> nat
    decreases s.len(),
{
    if s.len() == 0 {
        0
    } else if s[0] == 0 {
        0
    } else {
        1 + nul_span(s.skip(1))
    }
}

/// `nul_span` names the first NUL: everything before it is non-NUL, and it
/// is the length only when no NUL occurs at all.
pub proof fn lemma_nul_span_first(s: Seq<u8>)
    ensures
        nul_span(s) <= s.len(),
        forall|j: int| 0 <= j < nul_span(s) ==> s[j] != 0,
        nul_span(s) < s.len() ==> s[nul_span(s) as int] == 0,
    decreases s.len(),
{
    if s.len() > 0 && s[0] != 0 {
        lemma_nul_span_first(s.skip(1));
        assert forall|j: int| 0 <= j < nul_span(s) implies s[j] != 0 by {
            if j > 0 {
                assert(s.skip(1)[j - 1] != 0);
            }
        }
        if nul_span(s) < s.len() {
            assert(s.skip(1)[nul_span(s) - 1] == 0);
        }
    }
}

/// Conversely, an index with no NUL before it and a NUL (or the end) at it
/// is exactly `nul_span`.
pub proof fn lemma_nul_span_unique(s: Seq<u8>, n: int)
    requires
        0 <= n <= s.len(),
        forall|j: int| 0 <= j < n ==> s[j] != 0,
        n < s.len() ==> s[n] == 0,
    ensures
        nul_span(s) == n,
    decreases s.len(),
{
    if s.len() > 0 && s[0] != 0 {
        assert forall|j: int| 0 <= j < n - 1 implies s.skip(1)[j] != 0 by {
            assert(s[j + 1] != 0);
        }
        assert(n - 1 < s.skip(1).len() ==> s.skip(1)[n - 1] == 0);
        lemma_nul_span_unique(s.skip(1), n - 1);
    }
}

/// The text that a fixed-capacity, possibly NUL-terminated native buffer
/// holds: the bytes before the first NUL, and never more than `cap` of them.
pub open spec fn bounded_text(s: Seq<u8>, cap: nat) -> Seq<u8> {
    s.take(min_nat(nul_span(s), cap) as int)
}

/// The smaller of two lengths.
pub open spec fn min_nat(a: nat, b: nat) -> nat {
    if a <= b {
        a
    } else {
        b
    }
}

/// A buffer whose first byte is not NUL yields non-empty text whenever the
/// capacity admits a byte at all: a failed native step that wrote any
/// diagnostic leaves a non-empty captured log.
pub proof fn lemma_written_text_is_nonempty(s: Seq<u8>, cap: nat)
    requires
        s.len() > 0,
        s[0] != 0,
        cap >= 1,
    ensures
        bounded_text(s, cap).len() > 0,
{
    lemma_nul_span_first(s);
    assert(nul_span(s) == 1 + nul_span(s.skip(1)));
}

/// Extract the text of a raw native buffer: the bytes before the first NUL
/// byte, truncated to `cap` bytes. The raw buffer is read as the native
/// layer left it; no terminator is assumed.
pub fn extract_text(raw: &[u8], cap: usize) -> (text: Vec<u8>)
    ensures
        text@ == bounded_text(raw@, cap as nat),
{
    let mut text: Vec<u8> = Vec::new();
    let mut i: usize = 0;
    assert(text@ =~= raw@.take(0));
    while i < raw.len() && i < cap && raw[i] != 0
        invariant
            0 <= i <= raw.len(),
            i <= cap,
            text@ == raw@.take(i as int),
            forall|j: int| 0 <= j < i ==> raw@[j] != 0,
        decreases raw.len() - i,
    {
        text.push(raw[i]);
        assert(text@ =~= raw@.take(i as int + 1));
        i += 1;
    }
    proof {
        if i < raw.len() && i < cap {
            lemma_nul_span_unique(raw@, i as int);
        } else if i == cap {
            lemma_nul_span_first(raw@);
        } else {
            lemma_nul_span_unique(raw@, i as int);
        }
        assert(text@ =~= bounded_text(raw@, cap as nat));
    }
    text
}

} // verus!
