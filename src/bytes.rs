//! Byte-level helpers shared by the lexer and the value grammars.
use vstd::prelude::*;

verus! {

/// ASCII whitespace as `u8::is_ascii_whitespace` defines it.
pub open spec fn is_ws(c: u8) -> bool {
    c == 32 || c == 9 || c == 10 || c == 12 || c == 13
}

pub fn is_whitespace(c: u8) -> (r: bool)
    ensures
        r == is_ws(c),
{
    c == 32 || c == 9 || c == 10 || c == 12 || c == 13
}

/// Position of the first `needle` at or after `from`.
pub open spec fn find_byte_from(b: Seq<u8>, from: int, needle: u8) -> Option<int>
    decreases b.len() - from,
{
    if from < 0 || from >= b.len() {
        None
    } else if b[from] == needle {
        Some(from)
    } else {
        find_byte_from(b, from + 1, needle)
    }
}

/// Position of the first occurrence of `pat` starting at or after `from`.
pub open spec fn find_seq_from(b: Seq<u8>, from: int, pat: Seq<u8>) -> Option<int>
    decreases b.len() + 1 - from,
{
    if from < 0 || from + pat.len() > b.len() {
        None
    } else if b.subrange(from, from + pat.len()) == pat {
        Some(from)
    } else {
        find_seq_from(b, from + 1, pat)
    }
}

pub proof fn lemma_find_byte_first(b: Seq<u8>, from: int, needle: u8, i: int)
    requires
        0 <= from <= i < b.len(),
        b[i] == needle,
        forall|j: int| from <= j < i ==> b[j] != needle,
    ensures
        find_byte_from(b, from, needle) == Some(i),
    decreases i - from,
{
    if from < i {
        lemma_find_byte_first(b, from + 1, needle, i);
    }
}

pub proof fn lemma_find_byte_none(b: Seq<u8>, from: int, needle: u8)
    requires
        0 <= from,
        forall|j: int| from <= j < b.len() ==> b[j] != needle,
    ensures
        find_byte_from(b, from, needle) is None,
    decreases b.len() - from,
{
    if from < b.len() {
        lemma_find_byte_none(b, from + 1, needle);
    }
}

pub proof fn lemma_find_byte_bounds(b: Seq<u8>, from: int, needle: u8)
    ensures
        find_byte_from(b, from, needle) matches Some(i) ==> from <= i < b.len() && b[i]
            == needle,
    decreases b.len() - from,
{
    if 0 <= from < b.len() && b[from] != needle {
        lemma_find_byte_bounds(b, from + 1, needle);
    }
}

pub proof fn lemma_find_seq_first(b: Seq<u8>, from: int, pat: Seq<u8>, i: int)
    requires
        0 <= from <= i,
        i + pat.len() <= b.len(),
        b.subrange(i, i + pat.len()) == pat,
        forall|j: int| from <= j < i ==> #[trigger] b.subrange(j, j + pat.len()) != pat,
    ensures
        find_seq_from(b, from, pat) == Some(i),
    decreases i - from,
{
    if from < i {
        lemma_find_seq_first(b, from + 1, pat, i);
    }
}

pub proof fn lemma_find_seq_none(b: Seq<u8>, from: int, pat: Seq<u8>)
    requires
        0 <= from,
        forall|j: int|
            from <= j && j + pat.len() <= b.len() ==> #[trigger] b.subrange(j, j + pat.len()) != pat,
    ensures
        find_seq_from(b, from, pat) is None,
    decreases b.len() + 1 - from,
{
    if from + pat.len() <= b.len() {
        lemma_find_seq_none(b, from + 1, pat);
    }
}

pub proof fn lemma_find_seq_bounds(b: Seq<u8>, from: int, pat: Seq<u8>)
    ensures
        find_seq_from(b, from, pat) matches Some(i) ==> from <= i && i + pat.len() <= b.len()
            && b.subrange(i, i + pat.len()) == pat,
    decreases b.len() + 1 - from,
{
    if 0 <= from && from + pat.len() <= b.len() && b.subrange(from, from + pat.len()) != pat {
        lemma_find_seq_bounds(b, from + 1, pat);
    }
}

/// Relies on `memchr::memchr`: the index of the first occurrence of `needle`,
/// or `None` when the haystack does not hold it.
#[verifier::external_body]
fn memchr_first(needle: u8, haystack: &[u8]) -> (r: Option<usize>)
    ensures
        match r {
            Some(i) => i < haystack@.len() && haystack@[i as int] == needle && forall|j: int|
                0 <= j < i ==> haystack@[j] != needle,
            None => forall|j: int| 0 <= j < haystack@.len() ==> haystack@[j] != needle,
        },
{
    memchr::memchr(needle, haystack)
}

/// Relies on `memchr::memmem::find`: the index of the first occurrence of
/// `needle` in `haystack`, or `None` when there is none.
#[verifier::external_body]
fn memmem_first(haystack: &[u8], needle: &[u8]) -> (r: Option<usize>)
    ensures
        match r {
            Some(i) => i + needle@.len() <= haystack@.len() && haystack@.subrange(
                i as int,
                i + needle@.len(),
            ) == needle@ && forall|j: int|
                0 <= j < i ==> #[trigger] haystack@.subrange(j, j + needle@.len()) != needle@,
            None => forall|j: int|
                0 <= j && j + needle@.len() <= haystack@.len() ==> #[trigger] haystack@.subrange(
                    j,
                    j + needle@.len(),
                ) != needle@,
        },
{
    memchr::memmem::find(haystack, needle)
}

/// First `needle` at or after `from`.
pub fn find_byte(b: &[u8], from: usize, needle: u8) -> (r: Option<usize>)
    requires
        from <= b@.len(),
    ensures
        match r {
            Some(i) => find_byte_from(b@, from as int, needle) == Some(i as int),
            None => find_byte_from(b@, from as int, needle) is None,
        },
{
    let tail = &b[from..b.len()];
    match memchr_first(needle, tail) {
        Some(k) => {
            proof {
                assert forall|j: int| from <= j < from + k implies b@[j] != needle by {
                    assert(tail@[j - from] == b@[j]);
                }
                assert(tail@[k as int] == b@[from + k]);
                lemma_find_byte_first(b@, from as int, needle, from + k);
            }
            Some(from + k)
        },
        None => {
            proof {
                assert forall|j: int| from <= j < b@.len() implies b@[j] != needle by {
                    assert(tail@[j - from] == b@[j]);
                }
                lemma_find_byte_none(b@, from as int, needle);
            }
            None
        },
    }
}

/// First occurrence of `pat` at or after `from`.
pub fn find_seq(b: &[u8], from: usize, pat: &[u8]) -> (r: Option<usize>)
    requires
        from <= b@.len(),
    ensures
        match r {
            Some(i) => find_seq_from(b@, from as int, pat@) == Some(i as int),
            None => find_seq_from(b@, from as int, pat@) is None,
        },
{
    let tail = &b[from..b.len()];
    match memmem_first(tail, pat) {
        Some(k) => {
            proof {
                assert forall|j: int| from <= j < from + k implies #[trigger] b@.subrange(
                    j,
                    j + pat@.len(),
                ) != pat@ by {
                    assert(tail@.subrange(j - from, j - from + pat@.len()) =~= b@.subrange(
                        j,
                        j + pat@.len(),
                    ));
                }
                assert(tail@.subrange(k as int, k + pat@.len()) =~= b@.subrange(
                    from + k,
                    from + k + pat@.len(),
                ));
                lemma_find_seq_first(b@, from as int, pat@, from + k);
            }
            Some(from + k)
        },
        None => {
            proof {
                assert forall|j: int| from <= j && j + pat@.len() <= b@.len() implies #[trigger] b@.subrange(
                    j,
                    j + pat@.len(),
                ) != pat@ by {
                    assert(tail@.subrange(j - from, j - from + pat@.len()) =~= b@.subrange(
                        j,
                        j + pat@.len(),
                    ));
                }
                lemma_find_seq_none(b@, from as int, pat@);
            }
            None
        },
    }
}

/// Byte-wise equality of two slices.
pub fn bytes_eq(a: &[u8], b: &[u8]) -> (r: bool)
    ensures
        r == (a@ == b@),
{
    if a.len() != b.len() {
        return false;
    }
    let mut i: usize = 0;
    while i < a.len()
        invariant
            a@.len() == b@.len(),
            i <= a@.len(),
            forall|j: int| 0 <= j < i ==> a@[j] == b@[j],
        decreases a@.len() - i,
    {
        if a[i] != b[i] {
            return false;
        }
        i = i + 1;
    }
    assert(a@ =~= b@);
    true
}

/// Does `b` hold `pat` at `at`?
pub open spec fn occurs_at(b: Seq<u8>, at: int, pat: Seq<u8>) -> bool {
    0 <= at && at + pat.len() <= b.len() && b.subrange(at, at + pat.len()) == pat
}

pub fn starts_at(b: &[u8], at: usize, pat: &[u8]) -> (r: bool)
    requires
        at <= b@.len(),
    ensures
        r == occurs_at(b@, at as int, pat@),
{
    if pat.len() > b.len() - at {
        return false;
    }
    bytes_eq(&b[at..at + pat.len()], pat)
}

pub fn copy_range(b: &[u8], from: usize, to: usize) -> (r: Vec<u8>)
    requires
        from <= to <= b@.len(),
    ensures
        r@ == b@.subrange(from as int, to as int),
{
    vstd::slice::slice_to_vec(&b[from..to])
}

pub fn append_bytes(out: &mut Vec<u8>, s: &[u8])
    ensures
        final(out)@ == old(out)@ + s@,
{
    let mut i: usize = 0;
    while i < s.len()
        invariant
            i <= s@.len(),
            out@ == old(out)@ + s@.subrange(0, i as int),
        decreases s@.len() - i,
    {
        out.push(s[i]);
        i = i + 1;
        assert(s@.subrange(0, i as int) =~= s@.subrange(0, i - 1) + seq![s@[i - 1]]);
    }
    assert(s@.subrange(0, s@.len() as int) =~= s@);
}

} // verus!
