//! Words, decimal numbers and integers: the lexical pieces that the value
//! grammars are built from.
use vstd::prelude::*;

use crate::bytes::{append_bytes, bytes_eq, copy_range, is_whitespace, is_ws};

verus! {

pub open spec fn is_digit(c: u8) -> bool {
    48 <= c <= 57
}

/// First index at or after `i` that does not hold a decimal digit.
pub open spec fn digits_end(s: Seq<u8>, i: int) -> int
    decreases s.len() - i,
{
    if i < 0 || i >= s.len() || !is_digit(s[i]) {
        i
    } else {
        digits_end(s, i + 1)
    }
}

/// First index at or after `i` that holds whitespace.
pub open spec fn word_end(s: Seq<u8>, i: int) -> int
    decreases s.len() - i,
{
    if i < 0 || i >= s.len() || is_ws(s[i]) {
        i
    } else {
        word_end(s, i + 1)
    }
}

/// First index at or after `i` that does not hold whitespace.
pub open spec fn space_end(s: Seq<u8>, i: int) -> int
    decreases s.len() - i,
{
    if i < 0 || i >= s.len() || !is_ws(s[i]) {
        i
    } else {
        space_end(s, i + 1)
    }
}

pub proof fn lemma_digits_end(s: Seq<u8>, i: int)
    requires
        0 <= i <= s.len(),
    ensures
        i <= digits_end(s, i) <= s.len(),
        digits_end(s, i) < s.len() ==> !is_digit(s[digits_end(s, i)]),
        forall|j: int| i <= j < digits_end(s, i) ==> is_digit(#[trigger] s[j]),
    decreases s.len() - i,
{
    if i < s.len() && is_digit(s[i]) {
        lemma_digits_end(s, i + 1);
    }
}

pub proof fn lemma_word_end(s: Seq<u8>, i: int)
    requires
        0 <= i <= s.len(),
    ensures
        i <= word_end(s, i) <= s.len(),
        word_end(s, i) < s.len() ==> is_ws(s[word_end(s, i)]),
        forall|j: int| i <= j < word_end(s, i) ==> !is_ws(#[trigger] s[j]),
    decreases s.len() - i,
{
    if i < s.len() && !is_ws(s[i]) {
        lemma_word_end(s, i + 1);
    }
}

pub proof fn lemma_space_end(s: Seq<u8>, i: int)
    requires
        0 <= i <= s.len(),
    ensures
        i <= space_end(s, i) <= s.len(),
        space_end(s, i) < s.len() ==> !is_ws(s[space_end(s, i)]),
    decreases s.len() - i,
{
    if i < s.len() && is_ws(s[i]) {
        lemma_space_end(s, i + 1);
    }
}

/// The whitespace-separated words of `s` from index `i` on.
pub open spec fn words_from(s: Seq<u8>, i: int) -> Seq<Seq<u8>>
    decreases s.len() - i,
{
    let j = space_end(s, i);
    if i < 0 || j >= s.len() || j < i {
        Seq::empty()
    } else {
        let k = word_end(s, j);
        if k <= j || k > s.len() {
            Seq::empty()
        } else {
            seq![s.subrange(j, k)] + words_from(s, k)
        }
    }
}

/// The whitespace-separated words of `s`.
pub open spec fn words(s: Seq<u8>) -> Seq<Seq<u8>> {
    words_from(s, 0)
}

/// Splits `s` on runs of ASCII whitespace.
pub fn split_words(s: &[u8]) -> (r: Vec<Vec<u8>>)
    ensures
        r@.len() == words(s@).len(),
        forall|i: int| 0 <= i < r@.len() ==> (#[trigger] r@[i])@ == words(s@)[i],
{
    let mut out: Vec<Vec<u8>> = Vec::new();
    let mut i: usize = 0;
    while i < s.len()
        invariant
            i <= s@.len(),
            out@.len() + words_from(s@, i as int).len() == words(s@).len(),
            forall|k: int| 0 <= k < out@.len() ==> (#[trigger] out@[k])@ == words(s@)[k],
            forall|k: int|
                0 <= k < words_from(s@, i as int).len() ==> words_from(s@, i as int)[k]
                    == #[trigger] words(s@)[out@.len() + k],
        decreases s@.len() - i,
    {
        proof {
            lemma_space_end(s@, i as int);
        }
        let mut j = i;
        while j < s.len() && is_whitespace(s[j])
            invariant
                i <= j <= s@.len(),
                space_end(s@, j as int) == space_end(s@, i as int),
            decreases s@.len() - j,
        {
            j = j + 1;
        }
        if j >= s.len() {
            assert(words_from(s@, i as int) =~= Seq::<Seq<u8>>::empty());
            assert(words_from(s@, j as int) =~= Seq::<Seq<u8>>::empty());
            i = j;
        } else {
        proof {
            lemma_word_end(s@, j as int);
        }
        let mut k = j;
        while k < s.len() && !is_whitespace(s[k])
            invariant
                j <= k <= s@.len(),
                word_end(s@, k as int) == word_end(s@, j as int),
            decreases s@.len() - k,
        {
            k = k + 1;
        }
        let w = copy_range(s, j, k);
        let ghost rest = words_from(s@, k as int);
        assert(words_from(s@, i as int) == seq![s@.subrange(j as int, k as int)] + rest);
        assert(words_from(s@, i as int)[0] == s@.subrange(j as int, k as int));
        assert forall|m: int| 0 <= m < rest.len() implies rest[m] == #[trigger] words(
            s@,
        )[out@.len() + 1 + m] by {
            assert(words_from(s@, i as int)[m + 1] == rest[m]);
            assert(words_from(s@, i as int)[m + 1] == words(s@)[out@.len() + (m + 1)]);
        }
        assert(words_from(s@, i as int)[0] == words(s@)[out@.len() + 0int]);
        out.push(w);
        i = k;
        }
    }
    assert(words_from(s@, i as int).len() == 0);
    out
}

/// Writes `ws` separated by single spaces.
pub open spec fn join_words(ws: Seq<Seq<u8>>) -> Seq<u8>
    decreases ws.len(),
{
    if ws.len() == 0 {
        Seq::empty()
    } else if ws.len() == 1 {
        ws[0]
    } else {
        join_words(ws.drop_last()) + seq![32u8] + ws.last()
    }
}

/// A decimal number: an optional sign, then digits with an optional
/// fraction, with at least one digit in all.
pub open spec fn is_number(s: Seq<u8>) -> bool {
    let a: int = if s.len() > 0 && (s[0] == 43u8 || s[0] == 45u8) {
        1
    } else {
        0
    };
    let b = digits_end(s, a);
    if b == s.len() {
        b > a
    } else {
        s[b] == 46u8 && digits_end(s, b + 1) == s.len() && (b - a) + (s.len() - b - 1) > 0
    }
}

pub fn check_number(s: &[u8]) -> (r: bool)
    ensures
        r == is_number(s@),
{
    let a: usize = if s.len() > 0 && (s[0] == 43 || s[0] == 45) {
        1
    } else {
        0
    };
    proof {
        lemma_digits_end(s@, a as int);
    }
    let mut b = a;
    while b < s.len() && 48 <= s[b] && s[b] <= 57
        invariant
            a <= b <= s@.len(),
            digits_end(s@, b as int) == digits_end(s@, a as int),
        decreases s@.len() - b,
    {
        b = b + 1;
    }
    if b == s.len() {
        return b > a;
    }
    if s[b] != 46 {
        return false;
    }
    proof {
        lemma_digits_end(s@, b + 1);
    }
    let mut c = b + 1;
    while c < s.len() && 48 <= s[c] && s[c] <= 57
        invariant
            b + 1 <= c <= s@.len(),
            digits_end(s@, c as int) == digits_end(s@, b + 1),
        decreases s@.len() - c,
    {
        c = c + 1;
    }
    c == s.len() && (b - a) + (s.len() - b - 1) > 0
}

/// A value grammar: a parser from text and a formatter back to text.
///
/// `spec_canonical(s)` is the text that the value parsed from `s` formats
/// to, or `None` when `s` is not in the grammar. A parse succeeds exactly
/// when `s` is in the grammar, and the value it gives formats to that text.
pub trait Grammar: Sized {
    spec fn spec_wf(&self) -> bool;

    spec fn spec_format(&self) -> Seq<u8>;

    spec fn spec_canonical(s: Seq<u8>) -> Option<Seq<u8>>;

    fn parse(s: &[u8]) -> (r: Option<Self>)
        ensures
            match r {
                Some(v) => v.spec_wf() && Self::spec_canonical(s@) == Some(v.spec_format()),
                None => Self::spec_canonical(s@) is None,
            },
    ;

    fn write_to(&self, out: &mut Vec<u8>)
        ensures
            final(out)@ == old(out)@ + self.spec_format(),
    ;
}

/// A decimal number, kept as the text it was written with.
#[derive(Clone, Debug, PartialEq, Eq)]
pub struct Number {
    pub text: Vec<u8>,
}

impl Grammar for Number {
    open spec fn spec_wf(&self) -> bool {
        is_number(self.text@)
    }

    open spec fn spec_format(&self) -> Seq<u8> {
        self.text@
    }

    open spec fn spec_canonical(s: Seq<u8>) -> Option<Seq<u8>> {
        if is_number(s) {
            Some(s)
        } else {
            None
        }
    }

    fn parse(s: &[u8]) -> (r: Option<Number>) {
        if check_number(s) {
            assert(s@.subrange(0, s@.len() as int) =~= s@);
            Some(Number { text: copy_range(s, 0, s.len()) })
        } else {
            None
        }
    }

    fn write_to(&self, out: &mut Vec<u8>) {
        append_bytes(out, self.text.as_slice());
    }
}

pub open spec fn has_suffix(s: Seq<u8>, suf: Seq<u8>) -> bool {
    suf.len() <= s.len() && s.subrange(s.len() - suf.len(), s.len() as int) == suf
}

pub open spec fn has_prefix(s: Seq<u8>, pre: Seq<u8>) -> bool {
    pre.len() <= s.len() && s.subrange(0, pre.len() as int) == pre
}

/// `s` without the trailing `suf`, when it ends with it.
pub fn strip_suffix<'a>(s: &'a [u8], suf: &[u8]) -> (r: Option<&'a [u8]>)
    ensures
        match r {
            Some(p) => has_suffix(s@, suf@) && p@ == s@.subrange(0, s@.len() - suf@.len())
                && s@ == p@ + suf@,
            None => !has_suffix(s@, suf@),
        },
{
    if suf.len() > s.len() {
        return None;
    }
    let k = s.len() - suf.len();
    if bytes_eq(&s[k..s.len()], suf) {
        let p = &s[0..k];
        assert(s@ =~= p@ + suf@);
        Some(p)
    } else {
        None
    }
}

impl Grammar for Vec<u8> {
    open spec fn spec_wf(&self) -> bool {
        true
    }

    open spec fn spec_format(&self) -> Seq<u8> {
        self@
    }

    open spec fn spec_canonical(s: Seq<u8>) -> Option<Seq<u8>> {
        Some(s)
    }

    fn parse(s: &[u8]) -> (r: Option<Vec<u8>>) {
        let v = copy_range(s, 0, s.len());
        assert(s@.subrange(0, s@.len() as int) =~= s@);
        Some(v)
    }

    fn write_to(&self, out: &mut Vec<u8>) {
        append_bytes(out, self.as_slice());
    }
}

/// `s` without its last byte, when that byte is `c`.
pub fn strip_suffix_byte(s: &[u8], c: u8) -> (r: Option<&[u8]>)
    ensures
        match r {
            Some(p) => has_suffix(s@, seq![c]) && p@ == s@.subrange(0, s@.len() - 1) && s@ == p@
                + seq![c],
            None => !has_suffix(s@, seq![c]),
        },
{
    if s.len() == 0 {
        return None;
    }
    let k = s.len() - 1;
    assert(s@.subrange(k as int, s@.len() as int)[0] == s@[k as int]);
    if s[k] == c {
        let p = &s[0..k];
        assert(s@ =~= p@ + seq![c]);
        assert(s@.subrange(k as int, s@.len() as int) =~= seq![c]);
        Some(p)
    } else {
        None
    }
}

/// `s` without its first byte, when that byte is `c`.
pub fn strip_prefix_byte(s: &[u8], c: u8) -> (r: Option<&[u8]>)
    ensures
        match r {
            Some(p) => has_prefix(s@, seq![c]) && p@ == s@.subrange(1, s@.len() as int) && s@
                == seq![c] + p@,
            None => !has_prefix(s@, seq![c]),
        },
{
    if s.len() == 0 {
        return None;
    }
    assert(s@.subrange(0, 1)[0] == s@[0]);
    if s[0] == c {
        let p = &s[1..s.len()];
        assert(s@ =~= seq![c] + p@);
        assert(s@.subrange(0, 1) =~= seq![c]);
        Some(p)
    } else {
        None
    }
}

/// `s` without the leading `pre`, when it starts with it.
pub fn strip_prefix<'a>(s: &'a [u8], pre: &[u8]) -> (r: Option<&'a [u8]>)
    ensures
        match r {
            Some(p) => has_prefix(s@, pre@) && p@ == s@.subrange(pre@.len() as int, s@.len() as int)
                && s@ == pre@ + p@,
            None => !has_prefix(s@, pre@),
        },
{
    if pre.len() > s.len() {
        return None;
    }
    if bytes_eq(&s[0..pre.len()], pre) {
        let p = &s[pre.len()..s.len()];
        assert(s@ =~= pre@ + p@);
        Some(p)
    } else {
        None
    }
}

/// The decimal value of the digits `s[i..j]`.
pub open spec fn digits_value(s: Seq<u8>, i: int, j: int) -> int
    decreases j - i,
{
    if j <= i {
        0
    } else {
        digits_value(s, i, j - 1) * 10 + (s[j - 1] - 48)
    }
}

/// The decimal text of a natural number, without leading zeros.
pub open spec fn nat_text(n: nat) -> Seq<u8>
    decreases n,
{
    if n < 10 {
        seq![(n + 48) as u8]
    } else {
        nat_text(n / 10) + seq![((n % 10) + 48) as u8]
    }
}

/// The decimal text of an integer.
pub open spec fn int_text(i: int) -> Seq<u8> {
    if i < 0 {
        seq![45u8] + nat_text((-i) as nat)
    } else {
        nat_text(i as nat)
    }
}

/// An optional sign followed by at least one digit.
pub open spec fn is_integer(s: Seq<u8>) -> bool {
    let a: int = if s.len() > 0 && (s[0] == 43u8 || s[0] == 45u8) {
        1
    } else {
        0
    };
    digits_end(s, a) == s.len() && s.len() > a
}

/// The value an integer text denotes.
pub open spec fn integer_value(s: Seq<u8>) -> int {
    if s.len() > 0 && s[0] == 45u8 {
        -digits_value(s, 1, s.len() as int)
    } else if s.len() > 0 && s[0] == 43u8 {
        digits_value(s, 1, s.len() as int)
    } else {
        digits_value(s, 0, s.len() as int)
    }
}

pub open spec fn spec_canonical_i64(s: Seq<u8>) -> Option<Seq<u8>> {
    if is_integer(s) && i64::MIN <= integer_value(s) <= i64::MAX {
        Some(int_text(integer_value(s)))
    } else {
        None
    }
}

pub open spec fn spec_canonical_u64(s: Seq<u8>) -> Option<Seq<u8>> {
    if is_integer(s) && 0 <= integer_value(s) <= u64::MAX && s[0] != 45u8 {
        Some(int_text(integer_value(s)))
    } else {
        None
    }
}

proof fn lemma_digits_value_step(s: Seq<u8>, i: int, j: int)
    requires
        i < j,
    ensures
        digits_value(s, i, j) == digits_value(s, i, j - 1) * 10 + (s[j - 1] - 48),
{
}

proof fn lemma_digits_value_nonneg(s: Seq<u8>, i: int, j: int)
    requires
        i <= j <= s.len(),
        0 <= i,
        forall|k: int| i <= k < j ==> is_digit(#[trigger] s[k]),
    ensures
        digits_value(s, i, j) >= 0,
    decreases j - i,
{
    if i < j {
        lemma_digits_value_nonneg(s, i, j - 1);
    }
}

/// Parses an integer in `[lo, hi]` with an optional sign.
fn parse_bounded(s: &[u8], allow_negative: bool) -> (r: Option<i128>)
    ensures
        match r {
            Some(v) => is_integer(s@) && v == integer_value(s@) && (allow_negative || s@[0]
                != 45u8) && i64::MIN <= v <= u64::MAX,
            None => !(is_integer(s@) && (allow_negative || s@[0] != 45u8) && i64::MIN
                <= integer_value(s@) <= u64::MAX),
        },
{
    let negative = s.len() > 0 && s[0] == 45;
    let a: usize = if s.len() > 0 && (s[0] == 43 || s[0] == 45) {
        1
    } else {
        0
    };
    if negative && !allow_negative {
        return None;
    }
    if s.len() <= a {
        return None;
    }
    proof {
        lemma_digits_end(s@, a as int);
    }
    let mut acc: i128 = 0;
    let mut i = a;
    while i < s.len()
        invariant
            a <= i <= s@.len(),
            s@.len() > a,
            a == (if s@.len() > 0 && (s@[0] == 43u8 || s@[0] == 45u8) {
                1usize
            } else {
                0usize
            }),
            0 <= acc <= u64::MAX as i128 + 1,
            acc == digits_value(s@, a as int, i as int),
            forall|k: int| a <= k < i ==> is_digit(#[trigger] s@[k]),
        decreases s@.len() - i,
    {
        let c = s[i];
        if c < 48 || c > 57 {
            proof {
                lemma_digits_end(s@, a as int);
                assert(digits_end(s@, a as int) <= i) by {
                    if digits_end(s@, a as int) > i {
                        assert(is_digit(s@[i as int]));
                    }
                }
                assert(!is_integer(s@));
            }
            return None;
        }
        let next: i128 = acc * 10 + (c - 48) as i128;
        if next > u64::MAX as i128 + 1 {
            proof {
                lemma_digits_value_step(s@, a as int, i + 1);
                assert(is_digit(s@[i as int]));
                lemma_digits_tail_grows(s@, a as int, i + 1, s@.len() as int);
                if is_integer(s@) {
                    lemma_digits_end(s@, a as int);
                    assert(digits_value(s@, a as int, s@.len() as int) > u64::MAX + 1);
                }
            }
            return None;
        }
        acc = next;
        i = i + 1;
    }
    proof {
        assert(digits_end(s@, a as int) == s@.len()) by {
            lemma_digits_all(s@, a as int);
        }
    }
    let v: i128 = if negative {
        -acc
    } else {
        acc
    };
    if v < i64::MIN as i128 || v > u64::MAX as i128 {
        return None;
    }
    Some(v)
}

proof fn lemma_digits_all(s: Seq<u8>, i: int)
    requires
        0 <= i <= s.len(),
        forall|k: int| i <= k < s.len() ==> is_digit(#[trigger] s[k]),
    ensures
        digits_end(s, i) == s.len(),
    decreases s.len() - i,
{
    if i < s.len() {
        lemma_digits_all(s, i + 1);
    }
}

/// Appending digits never makes the value smaller.
proof fn lemma_digits_tail_grows(s: Seq<u8>, a: int, i: int, j: int)
    requires
        0 <= a <= i <= j <= s.len(),
        forall|k: int| a <= k < i ==> is_digit(#[trigger] s[k]),
        i <= j,
    ensures
        (forall|k: int| a <= k < j ==> is_digit(#[trigger] s[k])) ==> digits_value(s, a, j)
            >= digits_value(s, a, i),
    decreases j - i,
{
    if i < j {
        lemma_digits_tail_grows(s, a, i, j - 1);
        if forall|k: int| a <= k < j ==> is_digit(#[trigger] s[k]) {
            lemma_digits_value_nonneg(s, a, j - 1);
            assert(forall|k: int| a <= k < j - 1 ==> is_digit(#[trigger] s[k]));
        }
    }
}

/// Writes the decimal text of `n`.
pub fn write_u64(out: &mut Vec<u8>, n: u64)
    ensures
        final(out)@ == old(out)@ + nat_text(n as nat),
    decreases n,
{
    if n < 10 {
        out.push((n + 48) as u8);
    } else {
        write_u64(out, n / 10);
        out.push((n % 10 + 48) as u8);
    }
}

/// Writes the decimal text of `v`.
pub fn write_i64(out: &mut Vec<u8>, v: i64)
    ensures
        final(out)@ == old(out)@ + int_text(v as int),
{
    if v < 0 {
        out.push(45u8);
        let m: u64 = if v == i64::MIN {
            9223372036854775808u64
        } else {
            (-v) as u64
        };
        write_u64(out, m);
        assert(seq![45u8] + nat_text((-v) as nat) =~= seq![45u8] + nat_text(m as nat));
    } else {
        write_u64(out, v as u64);
    }
}

pub fn parse_i64(s: &[u8]) -> (r: Option<i64>)
    ensures
        match r {
            Some(v) => spec_canonical_i64(s@) == Some(int_text(v as int)),
            None => spec_canonical_i64(s@) is None,
        },
{
    match parse_bounded(s, true) {
        Some(v) => {
            if v > i64::MAX as i128 {
                None
            } else {
                Some(v as i64)
            }
        },
        None => None,
    }
}

pub fn parse_u64(s: &[u8]) -> (r: Option<u64>)
    ensures
        match r {
            Some(v) => spec_canonical_u64(s@) == Some(nat_text(v as nat)) && is_integer(s@)
                && integer_value(s@) == v && s@[0] != 45u8,
            None => spec_canonical_u64(s@) is None,
        },
{
    match parse_bounded(s, false) {
        Some(v) => {
            if v < 0 {
                None
            } else {
                Some(v as u64)
            }
        },
        None => None,
    }
}

} // verus!
