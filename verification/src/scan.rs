//! The token-boundary scanner.
//!
//! `find_first_token` scans a byte buffer from offset zero and returns a
//! borrowed view of everything before the first space byte, or of the whole
//! buffer when no space occurs. The spec function `first_token` is the
//! mathematical statement of that result, and the proof functions below
//! state the laws the scanner obeys.

use vstd::prelude::*;
use vstd::slice::slice_subrange;

verus! {

/// The delimiter the scanner stops at: the ASCII space byte.
pub const SPACE: u8 = 0x20;

/// Length of the first token of `s`: the index of the first occurrence of
/// `delim`, or `s.len()` when `delim` does not occur.
pub open spec fn token_end<T>(s: Seq<T>, delim: T) -> nat
    decreases s.len(),
{
    if s.len() == 0 {
        0
    } else if s[0] == delim {
        0
    } else {
        (1 + token_end(s.drop_first(), delim)) as nat
    }
}

/// The first token of `s`: everything strictly before the first occurrence
/// of `delim`, or all of `s` when `delim` does not occur.
pub open spec fn first_token<T>(s: Seq<T>, delim: T) -> Seq<T> {
    s.subrange(0, token_end(s, delim) as int)
}

/// `token_end` is a position within `s`, nothing before it is the
/// delimiter, and the position itself holds the delimiter unless the scan
/// ran off the end.
pub proof fn lemma_token_end_bounds<T>(s: Seq<T>, delim: T)
    ensures
        token_end(s, delim) <= s.len(),
        forall|i: int| 0 <= i < token_end(s, delim) ==> s[i] != delim,
        token_end(s, delim) < s.len() ==> s[token_end(s, delim) as int] == delim,
    decreases s.len(),
{
    if s.len() == 0 {
    } else if s[0] == delim {
    } else {
        lemma_token_end_bounds(s.drop_first(), delim);
        assert forall|i: int| 0 <= i < token_end(s, delim) implies s[i] != delim by {
            if i > 0 {
                assert(s.drop_first()[i - 1] == s[i]);
            }
        }
    }
}

/// Any position that sees no delimiter before it and the delimiter (or the
/// buffer's end) at it is `token_end`: the characterisation is unique.
pub proof fn lemma_token_end_unique<T>(s: Seq<T>, delim: T, end: int)
    requires
        0 <= end <= s.len(),
        forall|i: int| 0 <= i < end ==> s[i] != delim,
        end < s.len() ==> s[end] == delim,
    ensures
        token_end(s, delim) == end,
    decreases s.len(),
{
    if end == 0 {
    } else {
        assert(s[0] != delim);
        assert forall|i: int| 0 <= i < end - 1 implies s.drop_first()[i] != delim by {
            assert(s.drop_first()[i] == s[i + 1]);
        }
        if end - 1 < s.drop_first().len() {
            assert(s.drop_first()[end - 1] == s[end]);
        }
        lemma_token_end_unique(s.drop_first(), delim, end - 1);
    }
}

/// Scan `buffer` from offset zero and return the bytes before the first
/// space, or the whole buffer when it holds no space. The result borrows
/// from `buffer`; nothing is copied.
pub fn find_first_token(buffer: &[u8]) -> (token: &[u8])
    ensures
        token@ == first_token(buffer@, SPACE),
{
    let n: usize = buffer.len();
    let mut i: usize = 0;
    while i < n
        invariant
            n == buffer@.len(),
            i <= n,
            forall|j: int| 0 <= j < i ==> buffer@[j] != SPACE,
        decreases n - i,
    {
        if buffer[i] == SPACE {
            proof {
                lemma_token_end_unique(buffer@, SPACE, i as int);
            }
            return slice_subrange(buffer, 0, i);
        }
        i += 1;
    }
    proof {
        lemma_token_end_unique(buffer@, SPACE, n as int);
    }
    slice_subrange(buffer, 0, n)
}

/// A buffer without the delimiter is its own first token.
pub proof fn lemma_no_delim_identity<T>(s: Seq<T>, delim: T)
    requires
        forall|i: int| 0 <= i < s.len() ==> s[i] != delim,
    ensures
        first_token(s, delim) == s,
{
    lemma_token_end_unique(s, delim, s.len() as int);
    assert(first_token(s, delim) =~= s);
}

/// A buffer of the form `prefix + delim + suffix`, with no delimiter in the
/// prefix, has exactly `prefix` as its first token.
pub proof fn lemma_prefix_before_delim<T>(prefix: Seq<T>, suffix: Seq<T>, delim: T)
    requires
        forall|i: int| 0 <= i < prefix.len() ==> prefix[i] != delim,
    ensures
        first_token(prefix + seq![delim] + suffix, delim) == prefix,
{
    let s = prefix + seq![delim] + suffix;
    assert forall|i: int| 0 <= i < prefix.len() implies s[i] != delim by {
        assert(s[i] == prefix[i]);
    }
    assert(s[prefix.len() as int] == delim);
    lemma_token_end_unique(s, delim, prefix.len() as int);
    assert(first_token(s, delim) =~= prefix);
}

/// A buffer that starts with the delimiter has the empty first token.
pub proof fn lemma_leading_delim_empty<T>(s: Seq<T>, delim: T)
    requires
        s.len() > 0,
        s[0] == delim,
    ensures
        first_token(s, delim) == Seq::<T>::empty(),
{
    assert(first_token(s, delim) =~= Seq::<T>::empty());
}

/// Taking the first token is idempotent: the first token holds no
/// delimiter, so scanning it again returns it whole.
pub proof fn lemma_first_token_idempotent<T>(s: Seq<T>, delim: T)
    ensures
        first_token(first_token(s, delim), delim) == first_token(s, delim),
{
    lemma_token_end_bounds(s, delim);
    let t = first_token(s, delim);
    assert forall|i: int| 0 <= i < t.len() implies t[i] != delim by {
        assert(t[i] == s[i]);
    }
    lemma_no_delim_identity(t, delim);
}

} // verus!
