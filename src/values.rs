//! The value grammars that are not plain keyword sets: percentages, lengths
//! with a bare-number fallback, URL references, colors, paints, and
//! whitespace-separated lists.
use vstd::prelude::*;

use crate::bytes::{append_bytes, copy_range, find_byte, find_byte_from, lemma_find_byte_bounds};
use crate::keywords::ColorLiteral;
use crate::text::{
    has_prefix, has_suffix, is_number, join_words, split_words, strip_prefix, strip_prefix_byte,
    strip_suffix_byte, words,
    Grammar, Number, int_text, integer_value, is_integer, nat_text, parse_i64, parse_u64, spec_canonical_i64, spec_canonical_u64,
    write_i64, write_u64,
};
use crate::units::{AbsoluteLength, Length};

verus! {

/// A number followed by `%`.
#[derive(Clone, Debug, PartialEq, Eq)]
pub struct Percentage(pub Number);

impl Grammar for Percentage {
    open spec fn spec_wf(&self) -> bool {
        self.0.spec_wf()
    }

    open spec fn spec_format(&self) -> Seq<u8> {
        self.0.spec_format() + seq![37u8]
    }

    open spec fn spec_canonical(s: Seq<u8>) -> Option<Seq<u8>> {
        if has_suffix(s, seq![37u8]) && is_number(s.subrange(0, s.len() - 1)) {
            Some(s)
        } else {
            None
        }
    }

    fn parse(s: &[u8]) -> (r: Option<Percentage>) {
        let p = match strip_suffix_byte(s, 37u8) {
            Some(p) => p,
            None => {
                return None;
            },
        };
        match Number::parse(p) {
            Some(n) => Some(Percentage(n)),
            None => None,
        }
    }

    fn write_to(&self, out: &mut Vec<u8>) {
        self.0.write_to(out);
        out.push(37u8);
        assert(final(out)@ =~= old(out)@ + self.spec_format());
    }
}

/// A length or a percentage. A percentage is tried first, then a length
/// with a unit; a bare number is taken as a length in pixels.
#[derive(Clone, Debug, PartialEq, Eq)]
pub enum LengthOrPercentage {
    Length(Length),
    Percentage(Percentage),
}

impl Grammar for LengthOrPercentage {
    open spec fn spec_wf(&self) -> bool {
        match self {
            LengthOrPercentage::Length(l) => l.spec_wf(),
            LengthOrPercentage::Percentage(p) => p.spec_wf(),
        }
    }

    open spec fn spec_format(&self) -> Seq<u8> {
        match self {
            LengthOrPercentage::Length(l) => l.spec_format(),
            LengthOrPercentage::Percentage(p) => p.spec_format(),
        }
    }

    open spec fn spec_canonical(s: Seq<u8>) -> Option<Seq<u8>> {
        if Percentage::spec_canonical(s) is Some {
            Percentage::spec_canonical(s)
        } else if Length::spec_canonical(s) is Some {
            Length::spec_canonical(s)
        } else if is_number(s) {
            Some(s + seq![112u8, 120u8])
        } else {
            None
        }
    }

    fn parse(s: &[u8]) -> (r: Option<LengthOrPercentage>) {
        if let Some(p) = Percentage::parse(s) {
            return Some(LengthOrPercentage::Percentage(p));
        }
        if let Some(l) = Length::parse(s) {
            return Some(LengthOrPercentage::Length(l));
        }
        if let Some(n) = Number::parse(s) {
            return Some(LengthOrPercentage::Length(Length::Absolute(AbsoluteLength::Px(n))));
        }
        None
    }

    fn write_to(&self, out: &mut Vec<u8>) {
        match self {
            LengthOrPercentage::Length(l) => l.write_to(out),
            LengthOrPercentage::Percentage(p) => p.write_to(out),
        }
    }
}

/// Free text, taken as it stands.
#[derive(Clone, Debug, PartialEq, Eq)]
pub struct Name(pub Vec<u8>);

impl Grammar for Name {
    open spec fn spec_wf(&self) -> bool {
        true
    }

    open spec fn spec_format(&self) -> Seq<u8> {
        self.0@
    }

    open spec fn spec_canonical(s: Seq<u8>) -> Option<Seq<u8>> {
        Some(s)
    }

    fn parse(s: &[u8]) -> (r: Option<Name>) {
        let v = copy_range(s, 0, s.len());
        assert(s@.subrange(0, s@.len() as int) =~= s@);
        Some(Name(v))
    }

    fn write_to(&self, out: &mut Vec<u8>) {
        append_bytes(out, self.0.as_slice());
    }
}

pub open spec fn url_open() -> Seq<u8> {
    seq![117u8, 114u8, 108u8, 40u8]
}

/// Text of the form `url(...)`.
pub open spec fn is_func_url(s: Seq<u8>) -> bool {
    s.len() >= 5 && has_prefix(s, url_open()) && s.last() == 41u8
}

/// A reference: `url(...)` or a fragment `#id`; other text is read as the
/// id of a fragment.
#[derive(Clone, Debug, PartialEq, Eq)]
pub enum Url {
    Url(Vec<u8>),
    Id(Vec<u8>),
}

impl Grammar for Url {
    open spec fn spec_wf(&self) -> bool {
        true
    }

    open spec fn spec_format(&self) -> Seq<u8> {
        match self {
            Url::Url(u) => url_open() + u@ + seq![41u8],
            Url::Id(i) => seq![35u8] + i@,
        }
    }

    open spec fn spec_canonical(s: Seq<u8>) -> Option<Seq<u8>> {
        if is_func_url(s) {
            Some(s)
        } else if has_prefix(s, seq![35u8]) {
            Some(s)
        } else {
            Some(seq![35u8] + s)
        }
    }

    fn parse(s: &[u8]) -> (r: Option<Url>) {
        if s.len() >= 5 && s[s.len() - 1] == 41u8 {
            if let Some(rest) = strip_prefix(s, &[117u8, 114u8, 108u8, 40u8]) {
                assert(seq![117u8, 114u8, 108u8, 40u8] == url_open());
                let inner = copy_range(rest, 0, rest.len() - 1);
                assert(s@ =~= url_open() + inner@ + seq![41u8]);
                return Some(Url::Url(inner));
            }
            assert(seq![117u8, 114u8, 108u8, 40u8] == url_open());
        }
        if let Some(rest) = strip_prefix_byte(s, 35u8) {
            let id = copy_range(rest, 0, rest.len());
            assert(rest@.subrange(0, rest@.len() as int) =~= rest@);
            return Some(Url::Id(id));
        }
        let id = copy_range(s, 0, s.len());
        assert(s@.subrange(0, s@.len() as int) =~= s@);
        Some(Url::Id(id))
    }

    fn write_to(&self, out: &mut Vec<u8>) {
        match self {
            Url::Url(u) => {
                append_bytes(out, &[117u8, 114u8, 108u8, 40u8]);
                append_bytes(out, u.as_slice());
                out.push(41u8);
                assert(final(out)@ =~= old(out)@ + self.spec_format());
            },
            Url::Id(i) => {
                out.push(35u8);
                append_bytes(out, i.as_slice());
                assert(final(out)@ =~= old(out)@ + self.spec_format());
            },
        }
    }
}

/// The comma-separated fields of `s` from index `i` on.
pub open spec fn fields_from(s: Seq<u8>, i: int) -> Seq<Seq<u8>>
    decreases s.len() + 1 - i,
{
    if i < 0 || i > s.len() {
        Seq::empty()
    } else {
        match find_byte_from(s, i, 44u8) {
            Some(j) => if i <= j < s.len() {
                seq![s.subrange(i, j)] + fields_from(s, j + 1)
            } else {
                Seq::empty()
            },
            None => seq![s.subrange(i, s.len() as int)],
        }
    }
}

/// Writes `ws` separated by commas.
pub open spec fn join_commas(ws: Seq<Seq<u8>>) -> Seq<u8>
    decreases ws.len(),
{
    if ws.len() == 0 {
        Seq::empty()
    } else if ws.len() == 1 {
        ws[0]
    } else {
        join_commas(ws.drop_last()) + seq![44u8] + ws.last()
    }
}

/// Joining one more field adds a comma unless nothing was there before.
pub proof fn lemma_join_commas_push(ws: Seq<Seq<u8>>, x: Seq<u8>)
    ensures
        join_commas(ws.push(x)) == if ws.len() == 0 {
            x
        } else {
            join_commas(ws) + seq![44u8] + x
        },
{
    assert(ws.push(x).drop_last() =~= ws);
}

/// Splits `s` at every comma.
pub fn split_fields(s: &[u8]) -> (r: Vec<Vec<u8>>)
    ensures
        r@.len() == fields_from(s@, 0).len(),
        forall|k: int| 0 <= k < r@.len() ==> (#[trigger] r@[k])@ == fields_from(s@, 0)[k],
{
    let mut out: Vec<Vec<u8>> = Vec::new();
    let mut i: usize = 0;
    loop
        invariant
            i <= s@.len(),
            out@.len() + fields_from(s@, i as int).len() == fields_from(s@, 0).len(),
            forall|k: int| 0 <= k < out@.len() ==> (#[trigger] out@[k])@ == fields_from(s@, 0)[k],
            forall|k: int|
                0 <= k < fields_from(s@, i as int).len() ==> fields_from(s@, i as int)[k]
                    == #[trigger] fields_from(s@, 0)[out@.len() + k],
        decreases s@.len() + 1 - i,
    {
        proof {
            lemma_find_byte_bounds(s@, i as int, 44u8);
        }
        match find_byte(s, i, 44u8) {
            Some(j) => {
                let n = s.len();
                assert(j < n);
                let f = copy_range(s, i, j);
                let ghost rest = fields_from(s@, j + 1);
                assert(fields_from(s@, i as int) == seq![s@.subrange(i as int, j as int)] + rest);
                assert(fields_from(s@, i as int)[0] == fields_from(s@, 0)[out@.len() + 0int]);
                assert forall|m: int| 0 <= m < rest.len() implies rest[m] == #[trigger] fields_from(
                    s@,
                    0,
                )[out@.len() + 1 + m] by {
                    assert(fields_from(s@, i as int)[m + 1] == rest[m]);
                    assert(fields_from(s@, i as int)[m + 1] == fields_from(s@, 0)[out@.len() + (m + 1)]);
                }
                out.push(f);
                i = j + 1;
            },
            None => {
                let f = copy_range(s, i, s.len());
                assert(fields_from(s@, i as int) == seq![s@.subrange(i as int, s@.len() as int)]);
                assert(fields_from(s@, i as int)[0] == fields_from(s@, 0)[out@.len() + 0int]);
                out.push(f);
                return out;
            },
        }
    }
}

/// `pre`, then `k` comma-separated values of `T`, then `)`.
pub open spec fn function_canonical<T: Grammar>(s: Seq<u8>, pre: Seq<u8>, k: nat) -> Option<Seq<u8>> {
    if has_prefix(s, pre) && s.len() >= pre.len() + 1 && s.last() == 41u8 {
        let fs = fields_from(s.subrange(pre.len() as int, s.len() - 1), 0);
        if fs.len() == k {
            match canonical_words::<T>(fs) {
                Some(c) => Some(pre + join_commas(c) + seq![41u8]),
                None => None,
            }
        } else {
            None
        }
    } else {
        None
    }
}

/// The text of a function notation with the values `v`.
pub open spec fn function_format<T: Grammar>(pre: Seq<u8>, v: Seq<T>) -> Seq<u8> {
    pre + join_commas(list_formats(v)) + seq![41u8]
}

/// Parses `pre`, `k` comma-separated values of `T`, and `)`.
pub fn parse_function<T: Grammar>(s: &[u8], pre: &[u8], k: usize) -> (r: Option<Vec<T>>)
    ensures
        match r {
            Some(v) => list_wf(v@) && v@.len() == k && function_canonical::<T>(s@, pre@, k as nat)
                == Some(function_format(pre@, v@)),
            None => function_canonical::<T>(s@, pre@, k as nat) is None,
        },
{
    let rest = match strip_prefix(s, pre) {
        Some(rest) => rest,
        None => {
            return None;
        },
    };
    if rest.len() == 0 || s[s.len() - 1] != 41u8 {
        assert(!(s@.len() >= pre@.len() + 1 && s@.last() == 41u8));
        return None;
    }
    let inner = &rest[0..rest.len() - 1];
    assert(inner@ =~= s@.subrange(pre@.len() as int, s@.len() - 1));
    let fs = split_fields(inner);
    let ghost w = fields_from(inner@, 0);
    if fs.len() != k {
        return None;
    }
    let mut out: Vec<T> = Vec::new();
    let mut i: usize = 0;
    while i < fs.len()
        invariant
            i <= fs@.len(),
            fs@.len() == w.len(),
            w == fields_from(inner@, 0),
            inner@ == s@.subrange(pre@.len() as int, s@.len() - 1),
            has_prefix(s@, pre@),
            s@.len() >= pre@.len() + 1,
            s@.last() == 41u8,
            fs@.len() == k,
            forall|q: int| 0 <= q < fs@.len() ==> (#[trigger] fs@[q])@ == w[q],
            out@.len() == i,
            list_wf(out@),
            canonical_words::<T>(w.take(i as int)) == Some(list_formats(out@)),
        decreases fs@.len() - i,
    {
        let item = T::parse(fs[i].as_slice());
        assert(w.take(i + 1).drop_last() =~= w.take(i as int));
        assert(w.take(i + 1).last() == w[i as int]);
        match item {
            Some(x) => {
                let ghost before = out@;
                out.push(x);
                assert(list_formats(out@) =~= list_formats(before).push(x.spec_format()));
            },
            None => {
                proof {
                    assert(canonical_words::<T>(w.take(i + 1)) is None);
                    lemma_canonical_words_prefix::<T>(w, i as int + 1);
                }
                return None;
            },
        }
        i = i + 1;
    }
    assert(w.take(i as int) =~= w);
    Some(out)
}

/// Writes `pre`, the values of `v` separated by commas, and `)`.
pub fn write_function<T: Grammar>(pre: &[u8], v: &Vec<T>, out: &mut Vec<u8>)
    ensures
        final(out)@ == old(out)@ + function_format(pre@, v@),
{
    append_bytes(out, pre);
    let ghost start = out@;
    let mut i: usize = 0;
    while i < v.len()
        invariant
            i <= v@.len(),
            out@ == start + join_commas(list_formats(v@.take(i as int))),
        decreases v@.len() - i,
    {
        let ghost f = list_formats(v@.take(i + 1));
        assert(f.drop_last() =~= list_formats(v@.take(i as int)));
        assert(f.last() == v@[i as int].spec_format());
        if i > 0 {
            out.push(44u8);
        }
        v[i].write_to(out);
        if i == 0 {
            assert(f =~= seq![v@[0].spec_format()]);
        }
        assert(out@ =~= start + join_commas(f));
        i = i + 1;
    }
    assert(v@.take(i as int) =~= v@);
    out.push(41u8);
    assert(out@ =~= old(out)@ + function_format(pre@, v@));
}

impl Grammar for u8 {
    open spec fn spec_wf(&self) -> bool {
        true
    }

    open spec fn spec_format(&self) -> Seq<u8> {
        nat_text(*self as nat)
    }

    open spec fn spec_canonical(s: Seq<u8>) -> Option<Seq<u8>> {
        if is_integer(s) && 0 <= integer_value(s) <= 255 && s[0] != 45u8 {
            Some(int_text(integer_value(s)))
        } else {
            None
        }
    }

    fn parse(s: &[u8]) -> (r: Option<u8>) {
        match parse_u64(s) {
            Some(v) => {
                if v <= 255 {
                    Some(v as u8)
                } else {
                    None
                }
            },
            None => None,
        }
    }

    fn write_to(&self, out: &mut Vec<u8>) {
        write_u64(out, *self as u64)
    }
}

pub open spec fn rgb_open() -> Seq<u8> {
    seq![114u8, 103u8, 98u8, 40u8]
}

pub open spec fn rgba_open() -> Seq<u8> {
    seq![114u8, 103u8, 98u8, 97u8, 40u8]
}

pub open spec fn hsl_open() -> Seq<u8> {
    seq![104u8, 115u8, 108u8, 40u8]
}

pub open spec fn hsla_open() -> Seq<u8> {
    seq![104u8, 115u8, 108u8, 97u8, 40u8]
}

/// A color: `#` and hex digits, `rgb(r,g,b)`, `rgba(r,g,b,a)` with
/// components from 0 to 255, `hsl(h,s,l)`, `hsla(h,s,l,a)` with numbers,
/// or a named color.
#[derive(Clone, Debug, PartialEq, Eq)]
pub enum Color {
    Hex(Vec<u8>),
    Rgb(u8, u8, u8),
    Rgba(u8, u8, u8, u8),
    Hsl(Number, Number, Number),
    Hsla(Number, Number, Number, Number),
    Literal(ColorLiteral),
}

impl Grammar for Color {
    open spec fn spec_wf(&self) -> bool {
        match self {
            Color::Hsl(h, s, l) => h.spec_wf() && s.spec_wf() && l.spec_wf(),
            Color::Hsla(h, s, l, a) => h.spec_wf() && s.spec_wf() && l.spec_wf() && a.spec_wf(),
            _ => true,
        }
    }

    open spec fn spec_format(&self) -> Seq<u8> {
        match self {
            Color::Hex(h) => seq![35u8] + h@,
            Color::Rgb(r, g, b) => function_format(rgb_open(), seq![*r, *g, *b]),
            Color::Rgba(r, g, b, a) => function_format(rgba_open(), seq![*r, *g, *b, *a]),
            Color::Hsl(h, s, l) => function_format(hsl_open(), seq![*h, *s, *l]),
            Color::Hsla(h, s, l, a) => function_format(hsla_open(), seq![*h, *s, *l, *a]),
            Color::Literal(l) => l.spec_format(),
        }
    }

    open spec fn spec_canonical(s: Seq<u8>) -> Option<Seq<u8>> {
        if has_prefix(s, seq![35u8]) {
            Some(s)
        } else if has_prefix(s, rgb_open()) {
            function_canonical::<u8>(s, rgb_open(), 3)
        } else if has_prefix(s, rgba_open()) {
            function_canonical::<u8>(s, rgba_open(), 4)
        } else if has_prefix(s, hsl_open()) {
            function_canonical::<Number>(s, hsl_open(), 3)
        } else if has_prefix(s, hsla_open()) {
            function_canonical::<Number>(s, hsla_open(), 4)
        } else {
            ColorLiteral::spec_canonical(s)
        }
    }

    #[verifier::rlimit(100)]
    fn parse(s: &[u8]) -> (r: Option<Color>) {
        if let Some(rest) = strip_prefix_byte(s, 35u8) {
            let h = copy_range(rest, 0, rest.len());
            assert(rest@.subrange(0, rest@.len() as int) =~= rest@);
            return Some(Color::Hex(h));
        }
        let rgb: &[u8] = &[114u8, 103u8, 98u8, 40u8];
        let rgba: &[u8] = &[114u8, 103u8, 98u8, 97u8, 40u8];
        let hsl: &[u8] = &[104u8, 115u8, 108u8, 40u8];
        let hsla: &[u8] = &[104u8, 115u8, 108u8, 97u8, 40u8];
        assert(rgb@ == rgb_open());
        assert(rgba@ == rgba_open());
        assert(hsl@ == hsl_open());
        assert(hsla@ == hsla_open());
        if strip_prefix(s, rgb).is_some() {
            return match parse_function::<u8>(s, rgb, 3) {
                Some(v) => {
                    assert(v@ =~= seq![v@[0], v@[1], v@[2]]);
                    Some(Color::Rgb(v[0], v[1], v[2]))
                },
                None => None,
            };
        }
        if strip_prefix(s, rgba).is_some() {
            return match parse_function::<u8>(s, rgba, 4) {
                Some(v) => {
                    assert(v@ =~= seq![v@[0], v@[1], v@[2], v@[3]]);
                    Some(Color::Rgba(v[0], v[1], v[2], v[3]))
                },
                None => None,
            };
        }
        if strip_prefix(s, hsl).is_some() {
            return match parse_function::<Number>(s, hsl, 3) {
                Some(v) => {
                    let ghost w = v@;
                    let mut v = v;
                    let l = v.pop().unwrap();
                    let t = v.pop().unwrap();
                    let h = v.pop().unwrap();
                    assert(w =~= seq![h, t, l]);
                    Some(Color::Hsl(h, t, l))
                },
                None => None,
            };
        }
        if strip_prefix(s, hsla).is_some() {
            return match parse_function::<Number>(s, hsla, 4) {
                Some(v) => {
                    let ghost w = v@;
                    let mut v = v;
                    let a = v.pop().unwrap();
                    let l = v.pop().unwrap();
                    let t = v.pop().unwrap();
                    let h = v.pop().unwrap();
                    assert(w =~= seq![h, t, l, a]);
                    Some(Color::Hsla(h, t, l, a))
                },
                None => None,
            };
        }
        match ColorLiteral::parse(s) {
            Some(l) => Some(Color::Literal(l)),
            None => None,
        }
    }

    fn write_to(&self, out: &mut Vec<u8>) {
        match self {
            Color::Hex(h) => {
                out.push(35u8);
                append_bytes(out, h.as_slice());
                assert(final(out)@ =~= old(out)@ + self.spec_format());
            },
            Color::Rgb(r, g, b) => {
                let mut v: Vec<u8> = Vec::new();
                v.push(*r);
                v.push(*g);
                v.push(*b);
                assert(v@ =~= seq![*r, *g, *b]);
                let pre: &[u8] = &[114u8, 103u8, 98u8, 40u8];
                assert(pre@ == rgb_open());
                write_function(pre, &v, out);
            },
            Color::Rgba(r, g, b, a) => {
                let mut v: Vec<u8> = Vec::new();
                v.push(*r);
                v.push(*g);
                v.push(*b);
                v.push(*a);
                assert(v@ =~= seq![*r, *g, *b, *a]);
                let pre: &[u8] = &[114u8, 103u8, 98u8, 97u8, 40u8];
                assert(pre@ == rgba_open());
                write_function(pre, &v, out);
            },
            Color::Hsl(h, t, l) => {
                let pre: &[u8] = &[104u8, 115u8, 108u8, 40u8];
                assert(pre@ == hsl_open());
                append_bytes(out, pre);
                h.write_to(out);
                out.push(44u8);
                t.write_to(out);
                out.push(44u8);
                l.write_to(out);
                out.push(41u8);
                proof {
                    let f = list_formats(seq![*h, *t, *l]);
                    assert(f =~= seq![h.spec_format(), t.spec_format(), l.spec_format()]);
                    lemma_join_commas_push(seq![h.spec_format()], t.spec_format());
                    assert(seq![h.spec_format()].push(t.spec_format()) =~= seq![h.spec_format(), t.spec_format()]);
                    lemma_join_commas_push(seq![h.spec_format(), t.spec_format()], l.spec_format());
                    assert(seq![h.spec_format(), t.spec_format()].push(l.spec_format()) =~= f);
                }
                assert(final(out)@ =~= old(out)@ + self.spec_format());
            },
            Color::Hsla(h, t, l, a) => {
                let pre: &[u8] = &[104u8, 115u8, 108u8, 97u8, 40u8];
                assert(pre@ == hsla_open());
                append_bytes(out, pre);
                h.write_to(out);
                out.push(44u8);
                t.write_to(out);
                out.push(44u8);
                l.write_to(out);
                out.push(44u8);
                a.write_to(out);
                out.push(41u8);
                proof {
                    let f = list_formats(seq![*h, *t, *l, *a]);
                    assert(f =~= seq![h.spec_format(), t.spec_format(), l.spec_format(), a.spec_format()]);
                    lemma_join_commas_push(seq![h.spec_format()], t.spec_format());
                    assert(seq![h.spec_format()].push(t.spec_format()) =~= seq![h.spec_format(), t.spec_format()]);
                    lemma_join_commas_push(seq![h.spec_format(), t.spec_format()], l.spec_format());
                    assert(seq![h.spec_format(), t.spec_format()].push(l.spec_format()) =~= seq![h.spec_format(), t.spec_format(), l.spec_format()]);
                    lemma_join_commas_push(seq![h.spec_format(), t.spec_format(), l.spec_format()], a.spec_format());
                    assert(seq![h.spec_format(), t.spec_format(), l.spec_format()].push(a.spec_format()) =~= f);
                }
                assert(final(out)@ =~= old(out)@ + self.spec_format());
            },
            Color::Literal(l) => l.write_to(out),
        }
    }
}

/// How a shape is painted: not at all, with the context's fill or stroke,
/// with a referenced paint server, or with a color.
#[derive(Clone, Debug, PartialEq, Eq)]
pub enum Paint {
    NoneValue,
    ContextFill,
    ContextStroke,
    Url(Url),
    Color(Color),
}

pub open spec fn kw_none() -> Seq<u8> {
    seq![110u8, 111u8, 110u8, 101u8]
}

pub open spec fn kw_context_fill() -> Seq<u8> {
    seq![99u8, 111u8, 110u8, 116u8, 101u8, 120u8, 116u8, 45u8, 102u8, 105u8, 108u8, 108u8]
}

pub open spec fn kw_context_stroke() -> Seq<u8> {
    seq![99u8, 111u8, 110u8, 116u8, 101u8, 120u8, 116u8, 45u8, 115u8, 116u8, 114u8, 111u8, 107u8, 101u8]
}

impl Grammar for Paint {
    open spec fn spec_wf(&self) -> bool {
        true
    }

    open spec fn spec_format(&self) -> Seq<u8> {
        match self {
            Paint::NoneValue => kw_none(),
            Paint::ContextFill => kw_context_fill(),
            Paint::ContextStroke => kw_context_stroke(),
            Paint::Url(u) => u.spec_format(),
            Paint::Color(c) => c.spec_format(),
        }
    }

    open spec fn spec_canonical(s: Seq<u8>) -> Option<Seq<u8>> {
        if s == kw_none() || s == kw_context_fill() || s == kw_context_stroke() || is_func_url(s) {
            Some(s)
        } else {
            Color::spec_canonical(s)
        }
    }

    fn parse(s: &[u8]) -> (r: Option<Paint>) {
        let none: &[u8] = &[110u8, 111u8, 110u8, 101u8];
        let fill: &[u8] = &[99u8, 111u8, 110u8, 116u8, 101u8, 120u8, 116u8, 45u8, 102u8, 105u8, 108u8, 108u8];
        let stroke: &[u8] = &[99u8, 111u8, 110u8, 116u8, 101u8, 120u8, 116u8, 45u8, 115u8, 116u8, 114u8, 111u8, 107u8, 101u8];
        assert(none@ == kw_none());
        assert(fill@ == kw_context_fill());
        assert(stroke@ == kw_context_stroke());
        if crate::bytes::bytes_eq(s, none) {
            return Some(Paint::NoneValue);
        }
        if crate::bytes::bytes_eq(s, fill) {
            return Some(Paint::ContextFill);
        }
        if crate::bytes::bytes_eq(s, stroke) {
            return Some(Paint::ContextStroke);
        }
        if s.len() >= 5 && s[s.len() - 1] == 41u8 {
            if let Some(_) = strip_prefix(s, &[117u8, 114u8, 108u8, 40u8]) {
                assert(seq![117u8, 114u8, 108u8, 40u8] == url_open());
                return match Url::parse(s) {
                    Some(u) => Some(Paint::Url(u)),
                    None => None,
                };
            }
            assert(seq![117u8, 114u8, 108u8, 40u8] == url_open());
        }
        match Color::parse(s) {
            Some(c) => Some(Paint::Color(c)),
            None => None,
        }
    }

    fn write_to(&self, out: &mut Vec<u8>) {
        match self {
            Paint::NoneValue => {
                let b: &[u8] = &[110u8, 111u8, 110u8, 101u8];
                assert(b@ == kw_none());
                append_bytes(out, b);
            },
            Paint::ContextFill => {
                let b: &[u8] = &[99u8, 111u8, 110u8, 116u8, 101u8, 120u8, 116u8, 45u8, 102u8, 105u8, 108u8, 108u8];
                assert(b@ == kw_context_fill());
                append_bytes(out, b);
            },
            Paint::ContextStroke => {
                let b: &[u8] = &[99u8, 111u8, 110u8, 116u8, 101u8, 120u8, 116u8, 45u8, 115u8, 116u8, 114u8, 111u8, 107u8, 101u8];
                assert(b@ == kw_context_stroke());
                append_bytes(out, b);
            },
            Paint::Url(u) => u.write_to(out),
            Paint::Color(c) => c.write_to(out),
        }
    }
}

/// An opacity, a number.
#[derive(Clone, Debug, PartialEq, Eq)]
pub struct Opacity(pub Number);

/// The color of a gradient stop.
#[derive(Clone, Debug, PartialEq, Eq)]
pub struct StopColor(pub Color);

/// The color of the light of the lighting filters.
#[derive(Clone, Debug, PartialEq, Eq)]
pub struct LightingColor(pub Color);

impl Grammar for Opacity {
    open spec fn spec_wf(&self) -> bool {
        self.0.spec_wf()
    }

    open spec fn spec_format(&self) -> Seq<u8> {
        self.0.spec_format()
    }

    open spec fn spec_canonical(s: Seq<u8>) -> Option<Seq<u8>> {
        Number::spec_canonical(s)
    }

    fn parse(s: &[u8]) -> (r: Option<Opacity>) {
        match Number::parse(s) {
            Some(n) => Some(Opacity(n)),
            None => None,
        }
    }

    fn write_to(&self, out: &mut Vec<u8>) {
        self.0.write_to(out)
    }
}

impl Grammar for StopColor {
    open spec fn spec_wf(&self) -> bool {
        self.0.spec_wf()
    }

    open spec fn spec_format(&self) -> Seq<u8> {
        self.0.spec_format()
    }

    open spec fn spec_canonical(s: Seq<u8>) -> Option<Seq<u8>> {
        Color::spec_canonical(s)
    }

    fn parse(s: &[u8]) -> (r: Option<StopColor>) {
        match Color::parse(s) {
            Some(c) => Some(StopColor(c)),
            None => None,
        }
    }

    fn write_to(&self, out: &mut Vec<u8>) {
        self.0.write_to(out)
    }
}

impl Grammar for LightingColor {
    open spec fn spec_wf(&self) -> bool {
        self.0.spec_wf()
    }

    open spec fn spec_format(&self) -> Seq<u8> {
        self.0.spec_format()
    }

    open spec fn spec_canonical(s: Seq<u8>) -> Option<Seq<u8>> {
        Color::spec_canonical(s)
    }

    fn parse(s: &[u8]) -> (r: Option<LightingColor>) {
        match Color::parse(s) {
            Some(c) => Some(LightingColor(c)),
            None => None,
        }
    }

    fn write_to(&self, out: &mut Vec<u8>) {
        self.0.write_to(out)
    }
}

/// The canonical texts of the words `ws` under `T`, when every word is in
/// the grammar.
pub open spec fn canonical_words<T: Grammar>(ws: Seq<Seq<u8>>) -> Option<Seq<Seq<u8>>>
    decreases ws.len(),
{
    if ws.len() == 0 {
        Some(Seq::empty())
    } else {
        match (canonical_words::<T>(ws.drop_last()), T::spec_canonical(ws.last())) {
            (Some(a), Some(b)) => Some(a.push(b)),
            _ => None,
        }
    }
}

/// A whitespace-separated list of `T`: in the grammar when every word is.
pub open spec fn list_canonical<T: Grammar>(s: Seq<u8>) -> Option<Seq<u8>> {
    match canonical_words::<T>(words(s)) {
        Some(ws) => Some(join_words(ws)),
        None => None,
    }
}

pub open spec fn list_formats<T: Grammar>(v: Seq<T>) -> Seq<Seq<u8>> {
    v.map_values(|x: T| x.spec_format())
}

/// A list written with single spaces between its items.
pub open spec fn list_format<T: Grammar>(v: Seq<T>) -> Seq<u8> {
    join_words(list_formats(v))
}

pub open spec fn list_wf<T: Grammar>(v: Seq<T>) -> bool {
    forall|i: int| 0 <= i < v.len() ==> (#[trigger] v[i]).spec_wf()
}

/// Parses each whitespace-separated word of `s` with `T`; fails when any
/// word does.
pub fn parse_list<T: Grammar>(s: &[u8]) -> (r: Option<Vec<T>>)
    ensures
        match r {
            Some(v) => list_wf(v@) && list_canonical::<T>(s@) == Some(list_format(v@))
                && canonical_words::<T>(words(s@)) == Some(list_formats(v@)),
            None => list_canonical::<T>(s@) is None,
        },
{
    let ws = split_words(s);
    let ghost w = words(s@);
    let mut out: Vec<T> = Vec::new();
    let mut i: usize = 0;
    while i < ws.len()
        invariant
            i <= ws@.len(),
            ws@.len() == w.len(),
            forall|k: int| 0 <= k < ws@.len() ==> (#[trigger] ws@[k])@ == w[k],
            out@.len() == i,
            list_wf(out@),
            canonical_words::<T>(w.take(i as int)) == Some(list_formats(out@)),
            w == words(s@),
        decreases ws@.len() - i,
    {
        let item = T::parse(ws[i].as_slice());
        assert(w.take(i + 1).drop_last() =~= w.take(i as int));
        assert(w.take(i + 1).last() == w[i as int]);
        match item {
            Some(x) => {
                let ghost before = out@;
                out.push(x);
                assert(list_formats(out@) =~= list_formats(before).push(x.spec_format()));
            },
            None => {
                proof {
                    assert(canonical_words::<T>(w.take(i + 1)) is None);
                    lemma_canonical_words_prefix::<T>(w, i as int + 1);
                }
                return None;
            },
        }
        i = i + 1;
    }
    assert(w.take(i as int) =~= w);
    Some(out)
}

/// A list whose prefix is not in the grammar is not either.
pub proof fn lemma_canonical_words_prefix<T: Grammar>(w: Seq<Seq<u8>>, n: int)
    requires
        0 <= n <= w.len(),
        canonical_words::<T>(w.take(n)) is None,
    ensures
        canonical_words::<T>(w) is None,
    decreases w.len() - n,
{
    if n < w.len() {
        assert(w.take(n + 1).drop_last() =~= w.take(n));
        lemma_canonical_words_prefix::<T>(w, n + 1);
    } else {
        assert(w.take(n) =~= w);
    }
}

/// Writes the items of `v` separated by single spaces.
pub fn write_list<T: Grammar>(v: &Vec<T>, out: &mut Vec<u8>)
    ensures
        final(out)@ == old(out)@ + list_format(v@),
{
    let mut i: usize = 0;
    while i < v.len()
        invariant
            i <= v@.len(),
            out@ == old(out)@ + join_words(list_formats(v@.take(i as int))),
        decreases v@.len() - i,
    {
        let ghost before = out@;
        let ghost f = list_formats(v@.take(i + 1));
        assert(f.drop_last() =~= list_formats(v@.take(i as int)));
        assert(f.last() == v@[i as int].spec_format());
        if i > 0 {
            out.push(32u8);
        }
        v[i].write_to(out);
        if i == 0 {
            assert(f =~= seq![v@[0].spec_format()]);
            assert(out@ =~= old(out)@ + join_words(f));
        } else {
            assert(out@ =~= old(out)@ + join_words(f));
        }
        i = i + 1;
    }
    assert(v@.take(i as int) =~= v@);
}

impl Grammar for i64 {
    open spec fn spec_wf(&self) -> bool {
        true
    }

    open spec fn spec_format(&self) -> Seq<u8> {
        int_text(*self as int)
    }

    open spec fn spec_canonical(s: Seq<u8>) -> Option<Seq<u8>> {
        spec_canonical_i64(s)
    }

    fn parse(s: &[u8]) -> (r: Option<i64>) {
        parse_i64(s)
    }

    fn write_to(&self, out: &mut Vec<u8>) {
        write_i64(out, *self)
    }
}

impl Grammar for u64 {
    open spec fn spec_wf(&self) -> bool {
        true
    }

    open spec fn spec_format(&self) -> Seq<u8> {
        nat_text(*self as nat)
    }

    open spec fn spec_canonical(s: Seq<u8>) -> Option<Seq<u8>> {
        spec_canonical_u64(s)
    }

    fn parse(s: &[u8]) -> (r: Option<u64>) {
        parse_u64(s)
    }

    fn write_to(&self, out: &mut Vec<u8>) {
        write_u64(out, *self)
    }
}

/// A list of numbers whose length lies in `[lo, hi]`.
pub open spec fn bounded_list_canonical(s: Seq<u8>, lo: nat, hi: nat) -> Option<Seq<u8>> {
    if lo <= words(s).len() <= hi {
        list_canonical::<Number>(s)
    } else {
        None
    }
}

fn parse_bounded_numbers(s: &[u8], lo: usize, hi: usize) -> (r: Option<Vec<Number>>)
    ensures
        match r {
            Some(v) => list_wf(v@) && lo <= v@.len() <= hi && bounded_list_canonical(
                s@,
                lo as nat,
                hi as nat,
            ) == Some(list_format(v@)),
            None => bounded_list_canonical(s@, lo as nat, hi as nat) is None,
        },
{
    match parse_list::<Number>(s) {
        Some(v) => {
            proof {
                lemma_canonical_words_len::<Number>(words(s@));
            }
            if v.len() < lo || v.len() > hi {
                None
            } else {
                Some(v)
            }
        },
        None => None,
    }
}

pub proof fn lemma_canonical_words_len<T: Grammar>(w: Seq<Seq<u8>>)
    ensures
        canonical_words::<T>(w) matches Some(c) ==> c.len() == w.len(),
    decreases w.len(),
{
    if w.len() > 0 {
        lemma_canonical_words_len::<T>(w.drop_last());
    }
}

/// The `viewBox` value: four numbers.
#[derive(Clone, Debug, PartialEq, Eq)]
pub struct ViewBox(pub Vec<Number>);

impl Grammar for ViewBox {
    open spec fn spec_wf(&self) -> bool {
        list_wf(self.0@) && self.0@.len() == 4
    }

    open spec fn spec_format(&self) -> Seq<u8> {
        list_format(self.0@)
    }

    open spec fn spec_canonical(s: Seq<u8>) -> Option<Seq<u8>> {
        bounded_list_canonical(s, 4, 4)
    }

    fn parse(s: &[u8]) -> (r: Option<ViewBox>) {
        match parse_bounded_numbers(s, 4, 4) {
            Some(v) => Some(ViewBox(v)),
            None => None,
        }
    }

    fn write_to(&self, out: &mut Vec<u8>) {
        write_list(&self.0, out)
    }
}

/// One number, or two: the values of `stdDeviation`, `radius` and the like.
#[derive(Clone, Debug, PartialEq, Eq)]
pub struct NumberOptionalNumber(pub Vec<Number>);

impl Grammar for NumberOptionalNumber {
    open spec fn spec_wf(&self) -> bool {
        list_wf(self.0@) && 1 <= self.0@.len() <= 2
    }

    open spec fn spec_format(&self) -> Seq<u8> {
        list_format(self.0@)
    }

    open spec fn spec_canonical(s: Seq<u8>) -> Option<Seq<u8>> {
        bounded_list_canonical(s, 1, 2)
    }

    fn parse(s: &[u8]) -> (r: Option<NumberOptionalNumber>) {
        match parse_bounded_numbers(s, 1, 2) {
            Some(v) => Some(NumberOptionalNumber(v)),
            None => None,
        }
    }

    fn write_to(&self, out: &mut Vec<u8>) {
        write_list(&self.0, out)
    }
}

/// A point of `points`: two numbers joined by a comma.
#[derive(Clone, Debug, PartialEq, Eq)]
pub struct Point {
    pub x: Number,
    pub y: Number,
}

impl Grammar for Point {
    open spec fn spec_wf(&self) -> bool {
        self.x.spec_wf() && self.y.spec_wf()
    }

    open spec fn spec_format(&self) -> Seq<u8> {
        self.x.spec_format() + seq![44u8] + self.y.spec_format()
    }

    open spec fn spec_canonical(s: Seq<u8>) -> Option<Seq<u8>> {
        match find_byte_from(s, 0, 44u8) {
            Some(c) => if is_number(s.subrange(0, c)) && is_number(s.subrange(c + 1, s.len() as int)) {
                Some(s)
            } else {
                None
            },
            None => None,
        }
    }

    fn parse(s: &[u8]) -> (r: Option<Point>) {
        proof {
            lemma_find_byte_bounds(s@, 0, 44u8);
        }
        let (c, after) = match find_byte(s, 0, 44u8) {
            Some(c) => {
                let n = s.len();
                assert(c < n);
                (c, c + 1)
            },
            None => {
                return None;
            },
        };
        let x = match Number::parse(&s[0..c]) {
            Some(x) => x,
            None => {
                return None;
            },
        };
        let y = match Number::parse(&s[after..s.len()]) {
            Some(y) => y,
            None => {
                return None;
            },
        };
        assert(s@ =~= s@.subrange(0, c as int) + seq![44u8] + s@.subrange(c + 1, s@.len() as int));
        Some(Point { x, y })
    }

    fn write_to(&self, out: &mut Vec<u8>) {
        self.x.write_to(out);
        out.push(44u8);
        self.y.write_to(out);
        assert(final(out)@ =~= old(out)@ + self.spec_format());
    }
}

} // verus!
