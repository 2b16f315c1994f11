//! Composite value grammars: lengths with units and the values that offer
//! a choice of keywords and other grammars, tried in a fixed order.
use vstd::prelude::*;

use crate::bytes::{append_bytes, bytes_eq};
use crate::keywords::{AbsoluteSize, RelativeSize};
use crate::text::{has_suffix, is_number, strip_suffix, strip_suffix_byte, Grammar, Number};
use crate::values::{LengthOrPercentage, Name, Paint, Percentage, Url};

verus! {

/// A length in an absolute unit.
#[derive(Clone, Debug, PartialEq, Eq)]
pub enum AbsoluteLength {
    Px(Number),
    Cm(Number),
    Q(Number),
    In(Number),
    Mm(Number),
    Pt(Number),
    Pc(Number),
}

impl Grammar for AbsoluteLength {
    open spec fn spec_wf(&self) -> bool {
        match self {
            AbsoluteLength::Px(x) => x.spec_wf(),
            AbsoluteLength::Cm(x) => x.spec_wf(),
            AbsoluteLength::Q(x) => x.spec_wf(),
            AbsoluteLength::In(x) => x.spec_wf(),
            AbsoluteLength::Mm(x) => x.spec_wf(),
            AbsoluteLength::Pt(x) => x.spec_wf(),
            AbsoluteLength::Pc(x) => x.spec_wf(),
        }
    }

    open spec fn spec_format(&self) -> Seq<u8> {
        match self {
            AbsoluteLength::Px(x) => x.spec_format() + seq![112u8, 120u8],
            AbsoluteLength::Cm(x) => x.spec_format() + seq![99u8, 109u8],
            AbsoluteLength::Q(x) => x.spec_format() + seq![113u8],
            AbsoluteLength::In(x) => x.spec_format() + seq![105u8, 110u8],
            AbsoluteLength::Mm(x) => x.spec_format() + seq![109u8, 109u8],
            AbsoluteLength::Pt(x) => x.spec_format() + seq![112u8, 116u8],
            AbsoluteLength::Pc(x) => x.spec_format() + seq![112u8, 99u8],
        }
    }

    open spec fn spec_canonical(s: Seq<u8>) -> Option<Seq<u8>> {
        if has_suffix(s, seq![112u8, 120u8]) && is_number(s.subrange(0, s.len() - 2)) {
            Some(s)
        } else if has_suffix(s, seq![99u8, 109u8]) && is_number(s.subrange(0, s.len() - 2)) {
            Some(s)
        } else if has_suffix(s, seq![113u8]) && is_number(s.subrange(0, s.len() - 1)) {
            Some(s)
        } else if has_suffix(s, seq![105u8, 110u8]) && is_number(s.subrange(0, s.len() - 2)) {
            Some(s)
        } else if has_suffix(s, seq![109u8, 109u8]) && is_number(s.subrange(0, s.len() - 2)) {
            Some(s)
        } else if has_suffix(s, seq![112u8, 116u8]) && is_number(s.subrange(0, s.len() - 2)) {
            Some(s)
        } else if has_suffix(s, seq![112u8, 99u8]) && is_number(s.subrange(0, s.len() - 2)) {
            Some(s)
        } else {
            None
        }
    }

    fn parse(s: &[u8]) -> (r: Option<AbsoluteLength>) {
        if let Some(p) = strip_suffix(s, &[112u8, 120u8]) {
            assert(seq![112u8, 120u8] == seq![112u8, 120u8]);
            if let Some(x) = Number::parse(p) {
                return Some(AbsoluteLength::Px(x));
            }
        }
        if let Some(p) = strip_suffix(s, &[99u8, 109u8]) {
            assert(seq![99u8, 109u8] == seq![99u8, 109u8]);
            if let Some(x) = Number::parse(p) {
                return Some(AbsoluteLength::Cm(x));
            }
        }
        if let Some(p) = strip_suffix_byte(s, 113u8) {
            if let Some(x) = Number::parse(p) {
                return Some(AbsoluteLength::Q(x));
            }
        }
        if let Some(p) = strip_suffix(s, &[105u8, 110u8]) {
            assert(seq![105u8, 110u8] == seq![105u8, 110u8]);
            if let Some(x) = Number::parse(p) {
                return Some(AbsoluteLength::In(x));
            }
        }
        if let Some(p) = strip_suffix(s, &[109u8, 109u8]) {
            assert(seq![109u8, 109u8] == seq![109u8, 109u8]);
            if let Some(x) = Number::parse(p) {
                return Some(AbsoluteLength::Mm(x));
            }
        }
        if let Some(p) = strip_suffix(s, &[112u8, 116u8]) {
            assert(seq![112u8, 116u8] == seq![112u8, 116u8]);
            if let Some(x) = Number::parse(p) {
                return Some(AbsoluteLength::Pt(x));
            }
        }
        if let Some(p) = strip_suffix(s, &[112u8, 99u8]) {
            assert(seq![112u8, 99u8] == seq![112u8, 99u8]);
            if let Some(x) = Number::parse(p) {
                return Some(AbsoluteLength::Pc(x));
            }
        }
        None
    }

    fn write_to(&self, out: &mut Vec<u8>) {
        match self {
            AbsoluteLength::Px(x) => {
                x.write_to(out);
                append_bytes(out, &[112u8, 120u8]);
                assert(old(out)@ + x.spec_format() + seq![112u8, 120u8] =~= old(out)@ + (x.spec_format() + seq![112u8, 120u8]));
            },
            AbsoluteLength::Cm(x) => {
                x.write_to(out);
                append_bytes(out, &[99u8, 109u8]);
                assert(old(out)@ + x.spec_format() + seq![99u8, 109u8] =~= old(out)@ + (x.spec_format() + seq![99u8, 109u8]));
            },
            AbsoluteLength::Q(x) => {
                x.write_to(out);
                out.push(113u8);
                assert(old(out)@ + x.spec_format() + seq![113u8] =~= old(out)@ + (x.spec_format() + seq![113u8]));
            },
            AbsoluteLength::In(x) => {
                x.write_to(out);
                append_bytes(out, &[105u8, 110u8]);
                assert(old(out)@ + x.spec_format() + seq![105u8, 110u8] =~= old(out)@ + (x.spec_format() + seq![105u8, 110u8]));
            },
            AbsoluteLength::Mm(x) => {
                x.write_to(out);
                append_bytes(out, &[109u8, 109u8]);
                assert(old(out)@ + x.spec_format() + seq![109u8, 109u8] =~= old(out)@ + (x.spec_format() + seq![109u8, 109u8]));
            },
            AbsoluteLength::Pt(x) => {
                x.write_to(out);
                append_bytes(out, &[112u8, 116u8]);
                assert(old(out)@ + x.spec_format() + seq![112u8, 116u8] =~= old(out)@ + (x.spec_format() + seq![112u8, 116u8]));
            },
            AbsoluteLength::Pc(x) => {
                x.write_to(out);
                append_bytes(out, &[112u8, 99u8]);
                assert(old(out)@ + x.spec_format() + seq![112u8, 99u8] =~= old(out)@ + (x.spec_format() + seq![112u8, 99u8]));
            },
        }
    }
}

/// A length relative to the font of the element.
#[derive(Clone, Debug, PartialEq, Eq)]
pub enum RelativeLength {
    Cap(Number),
    Em(Number),
    Ex(Number),
    Ic(Number),
    Lh(Number),
}

impl Grammar for RelativeLength {
    open spec fn spec_wf(&self) -> bool {
        match self {
            RelativeLength::Cap(x) => x.spec_wf(),
            RelativeLength::Em(x) => x.spec_wf(),
            RelativeLength::Ex(x) => x.spec_wf(),
            RelativeLength::Ic(x) => x.spec_wf(),
            RelativeLength::Lh(x) => x.spec_wf(),
        }
    }

    open spec fn spec_format(&self) -> Seq<u8> {
        match self {
            RelativeLength::Cap(x) => x.spec_format() + seq![99u8, 97u8, 112u8],
            RelativeLength::Em(x) => x.spec_format() + seq![101u8, 109u8],
            RelativeLength::Ex(x) => x.spec_format() + seq![101u8, 120u8],
            RelativeLength::Ic(x) => x.spec_format() + seq![105u8, 99u8],
            RelativeLength::Lh(x) => x.spec_format() + seq![108u8, 104u8],
        }
    }

    open spec fn spec_canonical(s: Seq<u8>) -> Option<Seq<u8>> {
        if has_suffix(s, seq![99u8, 97u8, 112u8]) && is_number(s.subrange(0, s.len() - 3)) {
            Some(s)
        } else if has_suffix(s, seq![101u8, 109u8]) && is_number(s.subrange(0, s.len() - 2)) {
            Some(s)
        } else if has_suffix(s, seq![101u8, 120u8]) && is_number(s.subrange(0, s.len() - 2)) {
            Some(s)
        } else if has_suffix(s, seq![105u8, 99u8]) && is_number(s.subrange(0, s.len() - 2)) {
            Some(s)
        } else if has_suffix(s, seq![108u8, 104u8]) && is_number(s.subrange(0, s.len() - 2)) {
            Some(s)
        } else {
            None
        }
    }

    fn parse(s: &[u8]) -> (r: Option<RelativeLength>) {
        if let Some(p) = strip_suffix(s, &[99u8, 97u8, 112u8]) {
            assert(seq![99u8, 97u8, 112u8] == seq![99u8, 97u8, 112u8]);
            if let Some(x) = Number::parse(p) {
                return Some(RelativeLength::Cap(x));
            }
        }
        if let Some(p) = strip_suffix(s, &[101u8, 109u8]) {
            assert(seq![101u8, 109u8] == seq![101u8, 109u8]);
            if let Some(x) = Number::parse(p) {
                return Some(RelativeLength::Em(x));
            }
        }
        if let Some(p) = strip_suffix(s, &[101u8, 120u8]) {
            assert(seq![101u8, 120u8] == seq![101u8, 120u8]);
            if let Some(x) = Number::parse(p) {
                return Some(RelativeLength::Ex(x));
            }
        }
        if let Some(p) = strip_suffix(s, &[105u8, 99u8]) {
            assert(seq![105u8, 99u8] == seq![105u8, 99u8]);
            if let Some(x) = Number::parse(p) {
                return Some(RelativeLength::Ic(x));
            }
        }
        if let Some(p) = strip_suffix(s, &[108u8, 104u8]) {
            assert(seq![108u8, 104u8] == seq![108u8, 104u8]);
            if let Some(x) = Number::parse(p) {
                return Some(RelativeLength::Lh(x));
            }
        }
        None
    }

    fn write_to(&self, out: &mut Vec<u8>) {
        match self {
            RelativeLength::Cap(x) => {
                x.write_to(out);
                append_bytes(out, &[99u8, 97u8, 112u8]);
                assert(old(out)@ + x.spec_format() + seq![99u8, 97u8, 112u8] =~= old(out)@ + (x.spec_format() + seq![99u8, 97u8, 112u8]));
            },
            RelativeLength::Em(x) => {
                x.write_to(out);
                append_bytes(out, &[101u8, 109u8]);
                assert(old(out)@ + x.spec_format() + seq![101u8, 109u8] =~= old(out)@ + (x.spec_format() + seq![101u8, 109u8]));
            },
            RelativeLength::Ex(x) => {
                x.write_to(out);
                append_bytes(out, &[101u8, 120u8]);
                assert(old(out)@ + x.spec_format() + seq![101u8, 120u8] =~= old(out)@ + (x.spec_format() + seq![101u8, 120u8]));
            },
            RelativeLength::Ic(x) => {
                x.write_to(out);
                append_bytes(out, &[105u8, 99u8]);
                assert(old(out)@ + x.spec_format() + seq![105u8, 99u8] =~= old(out)@ + (x.spec_format() + seq![105u8, 99u8]));
            },
            RelativeLength::Lh(x) => {
                x.write_to(out);
                append_bytes(out, &[108u8, 104u8]);
                assert(old(out)@ + x.spec_format() + seq![108u8, 104u8] =~= old(out)@ + (x.spec_format() + seq![108u8, 104u8]));
            },
        }
    }
}

/// A length relative to the font of the root element.
#[derive(Clone, Debug, PartialEq, Eq)]
pub enum RelativeLengthBasedOnRoot {
    Rcap(Number),
    Rch(Number),
    Rem(Number),
    Rex(Number),
    Ric(Number),
    Rlh(Number),
}

impl Grammar for RelativeLengthBasedOnRoot {
    open spec fn spec_wf(&self) -> bool {
        match self {
            RelativeLengthBasedOnRoot::Rcap(x) => x.spec_wf(),
            RelativeLengthBasedOnRoot::Rch(x) => x.spec_wf(),
            RelativeLengthBasedOnRoot::Rem(x) => x.spec_wf(),
            RelativeLengthBasedOnRoot::Rex(x) => x.spec_wf(),
            RelativeLengthBasedOnRoot::Ric(x) => x.spec_wf(),
            RelativeLengthBasedOnRoot::Rlh(x) => x.spec_wf(),
        }
    }

    open spec fn spec_format(&self) -> Seq<u8> {
        match self {
            RelativeLengthBasedOnRoot::Rcap(x) => x.spec_format() + seq![114u8, 99u8, 97u8, 112u8],
            RelativeLengthBasedOnRoot::Rch(x) => x.spec_format() + seq![114u8, 99u8, 104u8],
            RelativeLengthBasedOnRoot::Rem(x) => x.spec_format() + seq![114u8, 101u8, 109u8],
            RelativeLengthBasedOnRoot::Rex(x) => x.spec_format() + seq![114u8, 101u8, 120u8],
            RelativeLengthBasedOnRoot::Ric(x) => x.spec_format() + seq![114u8, 105u8, 99u8],
            RelativeLengthBasedOnRoot::Rlh(x) => x.spec_format() + seq![114u8, 108u8, 104u8],
        }
    }

    open spec fn spec_canonical(s: Seq<u8>) -> Option<Seq<u8>> {
        if has_suffix(s, seq![114u8, 99u8, 97u8, 112u8]) && is_number(s.subrange(0, s.len() - 4)) {
            Some(s)
        } else if has_suffix(s, seq![114u8, 99u8, 104u8]) && is_number(s.subrange(0, s.len() - 3)) {
            Some(s)
        } else if has_suffix(s, seq![114u8, 101u8, 109u8]) && is_number(s.subrange(0, s.len() - 3)) {
            Some(s)
        } else if has_suffix(s, seq![114u8, 101u8, 120u8]) && is_number(s.subrange(0, s.len() - 3)) {
            Some(s)
        } else if has_suffix(s, seq![114u8, 105u8, 99u8]) && is_number(s.subrange(0, s.len() - 3)) {
            Some(s)
        } else if has_suffix(s, seq![114u8, 108u8, 104u8]) && is_number(s.subrange(0, s.len() - 3)) {
            Some(s)
        } else {
            None
        }
    }

    fn parse(s: &[u8]) -> (r: Option<RelativeLengthBasedOnRoot>) {
        if let Some(p) = strip_suffix(s, &[114u8, 99u8, 97u8, 112u8]) {
            assert(seq![114u8, 99u8, 97u8, 112u8] == seq![114u8, 99u8, 97u8, 112u8]);
            if let Some(x) = Number::parse(p) {
                return Some(RelativeLengthBasedOnRoot::Rcap(x));
            }
        }
        if let Some(p) = strip_suffix(s, &[114u8, 99u8, 104u8]) {
            assert(seq![114u8, 99u8, 104u8] == seq![114u8, 99u8, 104u8]);
            if let Some(x) = Number::parse(p) {
                return Some(RelativeLengthBasedOnRoot::Rch(x));
            }
        }
        if let Some(p) = strip_suffix(s, &[114u8, 101u8, 109u8]) {
            assert(seq![114u8, 101u8, 109u8] == seq![114u8, 101u8, 109u8]);
            if let Some(x) = Number::parse(p) {
                return Some(RelativeLengthBasedOnRoot::Rem(x));
            }
        }
        if let Some(p) = strip_suffix(s, &[114u8, 101u8, 120u8]) {
            assert(seq![114u8, 101u8, 120u8] == seq![114u8, 101u8, 120u8]);
            if let Some(x) = Number::parse(p) {
                return Some(RelativeLengthBasedOnRoot::Rex(x));
            }
        }
        if let Some(p) = strip_suffix(s, &[114u8, 105u8, 99u8]) {
            assert(seq![114u8, 105u8, 99u8] == seq![114u8, 105u8, 99u8]);
            if let Some(x) = Number::parse(p) {
                return Some(RelativeLengthBasedOnRoot::Ric(x));
            }
        }
        if let Some(p) = strip_suffix(s, &[114u8, 108u8, 104u8]) {
            assert(seq![114u8, 108u8, 104u8] == seq![114u8, 108u8, 104u8]);
            if let Some(x) = Number::parse(p) {
                return Some(RelativeLengthBasedOnRoot::Rlh(x));
            }
        }
        None
    }

    fn write_to(&self, out: &mut Vec<u8>) {
        match self {
            RelativeLengthBasedOnRoot::Rcap(x) => {
                x.write_to(out);
                append_bytes(out, &[114u8, 99u8, 97u8, 112u8]);
                assert(old(out)@ + x.spec_format() + seq![114u8, 99u8, 97u8, 112u8] =~= old(out)@ + (x.spec_format() + seq![114u8, 99u8, 97u8, 112u8]));
            },
            RelativeLengthBasedOnRoot::Rch(x) => {
                x.write_to(out);
                append_bytes(out, &[114u8, 99u8, 104u8]);
                assert(old(out)@ + x.spec_format() + seq![114u8, 99u8, 104u8] =~= old(out)@ + (x.spec_format() + seq![114u8, 99u8, 104u8]));
            },
            RelativeLengthBasedOnRoot::Rem(x) => {
                x.write_to(out);
                append_bytes(out, &[114u8, 101u8, 109u8]);
                assert(old(out)@ + x.spec_format() + seq![114u8, 101u8, 109u8] =~= old(out)@ + (x.spec_format() + seq![114u8, 101u8, 109u8]));
            },
            RelativeLengthBasedOnRoot::Rex(x) => {
                x.write_to(out);
                append_bytes(out, &[114u8, 101u8, 120u8]);
                assert(old(out)@ + x.spec_format() + seq![114u8, 101u8, 120u8] =~= old(out)@ + (x.spec_format() + seq![114u8, 101u8, 120u8]));
            },
            RelativeLengthBasedOnRoot::Ric(x) => {
                x.write_to(out);
                append_bytes(out, &[114u8, 105u8, 99u8]);
                assert(old(out)@ + x.spec_format() + seq![114u8, 105u8, 99u8] =~= old(out)@ + (x.spec_format() + seq![114u8, 105u8, 99u8]));
            },
            RelativeLengthBasedOnRoot::Rlh(x) => {
                x.write_to(out);
                append_bytes(out, &[114u8, 108u8, 104u8]);
                assert(old(out)@ + x.spec_format() + seq![114u8, 108u8, 104u8] =~= old(out)@ + (x.spec_format() + seq![114u8, 108u8, 104u8]));
            },
        }
    }
}

/// A relative length.
#[derive(Clone, Debug, PartialEq, Eq)]
pub enum RelativeLengths {
    RelativeLength(RelativeLength),
    RelativeLengthBasedOnRoot(RelativeLengthBasedOnRoot),
}

impl Grammar for RelativeLengths {
    open spec fn spec_wf(&self) -> bool {
        match self {
            RelativeLengths::RelativeLength(x) => x.spec_wf(),
            RelativeLengths::RelativeLengthBasedOnRoot(x) => x.spec_wf(),
        }
    }

    open spec fn spec_format(&self) -> Seq<u8> {
        match self {
            RelativeLengths::RelativeLength(x) => x.spec_format(),
            RelativeLengths::RelativeLengthBasedOnRoot(x) => x.spec_format(),
        }
    }

    open spec fn spec_canonical(s: Seq<u8>) -> Option<Seq<u8>> {
        if RelativeLength::spec_canonical(s) is Some {
            RelativeLength::spec_canonical(s)
        } else if RelativeLengthBasedOnRoot::spec_canonical(s) is Some {
            RelativeLengthBasedOnRoot::spec_canonical(s)
        } else {
            None
        }
    }

    fn parse(s: &[u8]) -> (r: Option<RelativeLengths>) {
        if let Some(x) = RelativeLength::parse(s) {
            return Some(RelativeLengths::RelativeLength(x));
        }
        if let Some(x) = RelativeLengthBasedOnRoot::parse(s) {
            return Some(RelativeLengths::RelativeLengthBasedOnRoot(x));
        }
        None
    }

    fn write_to(&self, out: &mut Vec<u8>) {
        match self {
            RelativeLengths::RelativeLength(x) => x.write_to(out),
            RelativeLengths::RelativeLengthBasedOnRoot(x) => x.write_to(out),
        }
    }
}

/// A length with its unit.
#[derive(Clone, Debug, PartialEq, Eq)]
pub enum Length {
    Absolute(AbsoluteLength),
    Relative(RelativeLengths),
}

impl Grammar for Length {
    open spec fn spec_wf(&self) -> bool {
        match self {
            Length::Absolute(x) => x.spec_wf(),
            Length::Relative(x) => x.spec_wf(),
        }
    }

    open spec fn spec_format(&self) -> Seq<u8> {
        match self {
            Length::Absolute(x) => x.spec_format(),
            Length::Relative(x) => x.spec_format(),
        }
    }

    open spec fn spec_canonical(s: Seq<u8>) -> Option<Seq<u8>> {
        if AbsoluteLength::spec_canonical(s) is Some {
            AbsoluteLength::spec_canonical(s)
        } else if RelativeLengths::spec_canonical(s) is Some {
            RelativeLengths::spec_canonical(s)
        } else {
            None
        }
    }

    fn parse(s: &[u8]) -> (r: Option<Length>) {
        if let Some(x) = AbsoluteLength::parse(s) {
            return Some(Length::Absolute(x));
        }
        if let Some(x) = RelativeLengths::parse(s) {
            return Some(Length::Relative(x));
        }
        None
    }

    fn write_to(&self, out: &mut Vec<u8>) {
        match self {
            Length::Absolute(x) => x.write_to(out),
            Length::Relative(x) => x.write_to(out),
        }
    }
}

/// A length, a percentage or a plain number, tried in that order.
#[derive(Clone, Debug, PartialEq, Eq)]
pub enum LengthOrPercentageOrNumber {
    Percentage(Percentage),
    Length(Length),
    Number(Number),
}

impl Grammar for LengthOrPercentageOrNumber {
    open spec fn spec_wf(&self) -> bool {
        match self {
            LengthOrPercentageOrNumber::Percentage(x) => x.spec_wf(),
            LengthOrPercentageOrNumber::Length(x) => x.spec_wf(),
            LengthOrPercentageOrNumber::Number(x) => x.spec_wf(),
        }
    }

    open spec fn spec_format(&self) -> Seq<u8> {
        match self {
            LengthOrPercentageOrNumber::Percentage(x) => x.spec_format(),
            LengthOrPercentageOrNumber::Length(x) => x.spec_format(),
            LengthOrPercentageOrNumber::Number(x) => x.spec_format(),
        }
    }

    open spec fn spec_canonical(s: Seq<u8>) -> Option<Seq<u8>> {
        if Percentage::spec_canonical(s) is Some {
            Percentage::spec_canonical(s)
        } else if Length::spec_canonical(s) is Some {
            Length::spec_canonical(s)
        } else if Number::spec_canonical(s) is Some {
            Number::spec_canonical(s)
        } else {
            None
        }
    }

    fn parse(s: &[u8]) -> (r: Option<LengthOrPercentageOrNumber>) {
        if let Some(x) = Percentage::parse(s) {
            return Some(LengthOrPercentageOrNumber::Percentage(x));
        }
        if let Some(x) = Length::parse(s) {
            return Some(LengthOrPercentageOrNumber::Length(x));
        }
        if let Some(x) = Number::parse(s) {
            return Some(LengthOrPercentageOrNumber::Number(x));
        }
        None
    }

    fn write_to(&self, out: &mut Vec<u8>) {
        match self {
            LengthOrPercentageOrNumber::Percentage(x) => x.write_to(out),
            LengthOrPercentageOrNumber::Length(x) => x.write_to(out),
            LengthOrPercentageOrNumber::Number(x) => x.write_to(out),
        }
    }
}

/// The `baseline-shift` value.
#[derive(Clone, Debug, PartialEq, Eq)]
pub enum BaselineShift {
    Sub,
    Super,
    LengthOrPercentage(LengthOrPercentage),
}

impl Grammar for BaselineShift {
    open spec fn spec_wf(&self) -> bool {
        match self {
            BaselineShift::LengthOrPercentage(x) => x.spec_wf(),
            _ => true,
        }
    }

    open spec fn spec_format(&self) -> Seq<u8> {
        match self {
            BaselineShift::Sub => seq![115u8, 117u8, 98u8],
            BaselineShift::Super => seq![115u8, 117u8, 112u8, 101u8, 114u8],
            BaselineShift::LengthOrPercentage(x) => x.spec_format(),
        }
    }

    open spec fn spec_canonical(s: Seq<u8>) -> Option<Seq<u8>> {
        if s == seq![115u8, 117u8, 98u8] {
            Some(s)
        } else if s == seq![115u8, 117u8, 112u8, 101u8, 114u8] {
            Some(s)
        } else if LengthOrPercentage::spec_canonical(s) is Some {
            LengthOrPercentage::spec_canonical(s)
        } else {
            None
        }
    }

    fn parse(s: &[u8]) -> (r: Option<BaselineShift>) {
        if bytes_eq(s, &[115u8, 117u8, 98u8]) {
            return Some(BaselineShift::Sub);
        }
        if bytes_eq(s, &[115u8, 117u8, 112u8, 101u8, 114u8]) {
            return Some(BaselineShift::Super);
        }
        if let Some(x) = LengthOrPercentage::parse(s) {
            return Some(BaselineShift::LengthOrPercentage(x));
        }
        None
    }

    fn write_to(&self, out: &mut Vec<u8>) {
        match self {
            BaselineShift::Sub => append_bytes(out, &[115u8, 117u8, 98u8]),
            BaselineShift::Super => append_bytes(out, &[115u8, 117u8, 112u8, 101u8, 114u8]),
            BaselineShift::LengthOrPercentage(x) => x.write_to(out),
        }
    }
}

/// The `fill` value: an animation fill mode or a paint.
#[derive(Clone, Debug, PartialEq, Eq)]
pub enum Fill {
    Freeze,
    Remove,
    Paint(Paint),
}

impl Grammar for Fill {
    open spec fn spec_wf(&self) -> bool {
        match self {
            Fill::Paint(x) => x.spec_wf(),
            _ => true,
        }
    }

    open spec fn spec_format(&self) -> Seq<u8> {
        match self {
            Fill::Freeze => seq![102u8, 114u8, 101u8, 101u8, 122u8, 101u8],
            Fill::Remove => seq![114u8, 101u8, 109u8, 111u8, 118u8, 101u8],
            Fill::Paint(x) => x.spec_format(),
        }
    }

    open spec fn spec_canonical(s: Seq<u8>) -> Option<Seq<u8>> {
        if s == seq![102u8, 114u8, 101u8, 101u8, 122u8, 101u8] {
            Some(s)
        } else if s == seq![114u8, 101u8, 109u8, 111u8, 118u8, 101u8] {
            Some(s)
        } else if Paint::spec_canonical(s) is Some {
            Paint::spec_canonical(s)
        } else {
            None
        }
    }

    fn parse(s: &[u8]) -> (r: Option<Fill>) {
        if bytes_eq(s, &[102u8, 114u8, 101u8, 101u8, 122u8, 101u8]) {
            return Some(Fill::Freeze);
        }
        if bytes_eq(s, &[114u8, 101u8, 109u8, 111u8, 118u8, 101u8]) {
            return Some(Fill::Remove);
        }
        if let Some(x) = Paint::parse(s) {
            return Some(Fill::Paint(x));
        }
        None
    }

    fn write_to(&self, out: &mut Vec<u8>) {
        match self {
            Fill::Freeze => append_bytes(out, &[102u8, 114u8, 101u8, 101u8, 122u8, 101u8]),
            Fill::Remove => append_bytes(out, &[114u8, 101u8, 109u8, 111u8, 118u8, 101u8]),
            Fill::Paint(x) => x.write_to(out),
        }
    }
}

/// The `font-size` value.
#[derive(Clone, Debug, PartialEq, Eq)]
pub enum FontSize {
    Absolute(AbsoluteSize),
    Relative(RelativeSize),
    Percentage(Percentage),
    Length(Length),
}

impl Grammar for FontSize {
    open spec fn spec_wf(&self) -> bool {
        match self {
            FontSize::Absolute(x) => x.spec_wf(),
            FontSize::Relative(x) => x.spec_wf(),
            FontSize::Percentage(x) => x.spec_wf(),
            FontSize::Length(x) => x.spec_wf(),
        }
    }

    open spec fn spec_format(&self) -> Seq<u8> {
        match self {
            FontSize::Absolute(x) => x.spec_format(),
            FontSize::Relative(x) => x.spec_format(),
            FontSize::Percentage(x) => x.spec_format(),
            FontSize::Length(x) => x.spec_format(),
        }
    }

    open spec fn spec_canonical(s: Seq<u8>) -> Option<Seq<u8>> {
        if AbsoluteSize::spec_canonical(s) is Some {
            AbsoluteSize::spec_canonical(s)
        } else if RelativeSize::spec_canonical(s) is Some {
            RelativeSize::spec_canonical(s)
        } else if Percentage::spec_canonical(s) is Some {
            Percentage::spec_canonical(s)
        } else if Length::spec_canonical(s) is Some {
            Length::spec_canonical(s)
        } else {
            None
        }
    }

    fn parse(s: &[u8]) -> (r: Option<FontSize>) {
        if let Some(x) = AbsoluteSize::parse(s) {
            return Some(FontSize::Absolute(x));
        }
        if let Some(x) = RelativeSize::parse(s) {
            return Some(FontSize::Relative(x));
        }
        if let Some(x) = Percentage::parse(s) {
            return Some(FontSize::Percentage(x));
        }
        if let Some(x) = Length::parse(s) {
            return Some(FontSize::Length(x));
        }
        None
    }

    fn write_to(&self, out: &mut Vec<u8>) {
        match self {
            FontSize::Absolute(x) => x.write_to(out),
            FontSize::Relative(x) => x.write_to(out),
            FontSize::Percentage(x) => x.write_to(out),
            FontSize::Length(x) => x.write_to(out),
        }
    }
}

/// The `font-size-adjust` value.
#[derive(Clone, Debug, PartialEq, Eq)]
pub enum FontSizeAdjust {
    NoneValue,
    Number(Number),
}

impl Grammar for FontSizeAdjust {
    open spec fn spec_wf(&self) -> bool {
        match self {
            FontSizeAdjust::Number(x) => x.spec_wf(),
            _ => true,
        }
    }

    open spec fn spec_format(&self) -> Seq<u8> {
        match self {
            FontSizeAdjust::NoneValue => seq![110u8, 111u8, 110u8, 101u8],
            FontSizeAdjust::Number(x) => x.spec_format(),
        }
    }

    open spec fn spec_canonical(s: Seq<u8>) -> Option<Seq<u8>> {
        if s == seq![110u8, 111u8, 110u8, 101u8] {
            Some(s)
        } else if Number::spec_canonical(s) is Some {
            Number::spec_canonical(s)
        } else {
            None
        }
    }

    fn parse(s: &[u8]) -> (r: Option<FontSizeAdjust>) {
        if bytes_eq(s, &[110u8, 111u8, 110u8, 101u8]) {
            return Some(FontSizeAdjust::NoneValue);
        }
        if let Some(x) = Number::parse(s) {
            return Some(FontSizeAdjust::Number(x));
        }
        None
    }

    fn write_to(&self, out: &mut Vec<u8>) {
        match self {
            FontSizeAdjust::NoneValue => append_bytes(out, &[110u8, 111u8, 110u8, 101u8]),
            FontSizeAdjust::Number(x) => x.write_to(out),
        }
    }
}

/// The `letter-spacing` value.
#[derive(Clone, Debug, PartialEq, Eq)]
pub enum LetterSpacing {
    Normal,
    Length(Length),
}

impl Grammar for LetterSpacing {
    open spec fn spec_wf(&self) -> bool {
        match self {
            LetterSpacing::Length(x) => x.spec_wf(),
            _ => true,
        }
    }

    open spec fn spec_format(&self) -> Seq<u8> {
        match self {
            LetterSpacing::Normal => seq![110u8, 111u8, 114u8, 109u8, 97u8, 108u8],
            LetterSpacing::Length(x) => x.spec_format(),
        }
    }

    open spec fn spec_canonical(s: Seq<u8>) -> Option<Seq<u8>> {
        if s == seq![110u8, 111u8, 114u8, 109u8, 97u8, 108u8] {
            Some(s)
        } else if Length::spec_canonical(s) is Some {
            Length::spec_canonical(s)
        } else {
            None
        }
    }

    fn parse(s: &[u8]) -> (r: Option<LetterSpacing>) {
        if bytes_eq(s, &[110u8, 111u8, 114u8, 109u8, 97u8, 108u8]) {
            return Some(LetterSpacing::Normal);
        }
        if let Some(x) = Length::parse(s) {
            return Some(LetterSpacing::Length(x));
        }
        None
    }

    fn write_to(&self, out: &mut Vec<u8>) {
        match self {
            LetterSpacing::Normal => append_bytes(out, &[110u8, 111u8, 114u8, 109u8, 97u8, 108u8]),
            LetterSpacing::Length(x) => x.write_to(out),
        }
    }
}

/// The `word-spacing` value.
#[derive(Clone, Debug, PartialEq, Eq)]
pub enum WordSpacing {
    Normal,
    Length(Length),
}

impl Grammar for WordSpacing {
    open spec fn spec_wf(&self) -> bool {
        match self {
            WordSpacing::Length(x) => x.spec_wf(),
            _ => true,
        }
    }

    open spec fn spec_format(&self) -> Seq<u8> {
        match self {
            WordSpacing::Normal => seq![110u8, 111u8, 114u8, 109u8, 97u8, 108u8],
            WordSpacing::Length(x) => x.spec_format(),
        }
    }

    open spec fn spec_canonical(s: Seq<u8>) -> Option<Seq<u8>> {
        if s == seq![110u8, 111u8, 114u8, 109u8, 97u8, 108u8] {
            Some(s)
        } else if Length::spec_canonical(s) is Some {
            Length::spec_canonical(s)
        } else {
            None
        }
    }

    fn parse(s: &[u8]) -> (r: Option<WordSpacing>) {
        if bytes_eq(s, &[110u8, 111u8, 114u8, 109u8, 97u8, 108u8]) {
            return Some(WordSpacing::Normal);
        }
        if let Some(x) = Length::parse(s) {
            return Some(WordSpacing::Length(x));
        }
        None
    }

    fn write_to(&self, out: &mut Vec<u8>) {
        match self {
            WordSpacing::Normal => append_bytes(out, &[110u8, 111u8, 114u8, 109u8, 97u8, 108u8]),
            WordSpacing::Length(x) => x.write_to(out),
        }
    }
}

/// A marker reference.
#[derive(Clone, Debug, PartialEq, Eq)]
pub enum Marker {
    NoneValue,
    Url(Url),
}

impl Grammar for Marker {
    open spec fn spec_wf(&self) -> bool {
        match self {
            Marker::Url(x) => x.spec_wf(),
            _ => true,
        }
    }

    open spec fn spec_format(&self) -> Seq<u8> {
        match self {
            Marker::NoneValue => seq![110u8, 111u8, 110u8, 101u8],
            Marker::Url(x) => x.spec_format(),
        }
    }

    open spec fn spec_canonical(s: Seq<u8>) -> Option<Seq<u8>> {
        if s == seq![110u8, 111u8, 110u8, 101u8] {
            Some(s)
        } else if Url::spec_canonical(s) is Some {
            Url::spec_canonical(s)
        } else {
            None
        }
    }

    fn parse(s: &[u8]) -> (r: Option<Marker>) {
        if bytes_eq(s, &[110u8, 111u8, 110u8, 101u8]) {
            return Some(Marker::NoneValue);
        }
        if let Some(x) = Url::parse(s) {
            return Some(Marker::Url(x));
        }
        None
    }

    fn write_to(&self, out: &mut Vec<u8>) {
        match self {
            Marker::NoneValue => append_bytes(out, &[110u8, 111u8, 110u8, 101u8]),
            Marker::Url(x) => x.write_to(out),
        }
    }
}

/// A radius of `rx` or `ry`.
#[derive(Clone, Debug, PartialEq, Eq)]
pub enum EllipsisRadius {
    Auto,
    LengthOrPercentage(LengthOrPercentage),
}

impl Grammar for EllipsisRadius {
    open spec fn spec_wf(&self) -> bool {
        match self {
            EllipsisRadius::LengthOrPercentage(x) => x.spec_wf(),
            _ => true,
        }
    }

    open spec fn spec_format(&self) -> Seq<u8> {
        match self {
            EllipsisRadius::Auto => seq![97u8, 117u8, 116u8, 111u8],
            EllipsisRadius::LengthOrPercentage(x) => x.spec_format(),
        }
    }

    open spec fn spec_canonical(s: Seq<u8>) -> Option<Seq<u8>> {
        if s == seq![97u8, 117u8, 116u8, 111u8] {
            Some(s)
        } else if LengthOrPercentage::spec_canonical(s) is Some {
            LengthOrPercentage::spec_canonical(s)
        } else {
            None
        }
    }

    fn parse(s: &[u8]) -> (r: Option<EllipsisRadius>) {
        if bytes_eq(s, &[97u8, 117u8, 116u8, 111u8]) {
            return Some(EllipsisRadius::Auto);
        }
        if let Some(x) = LengthOrPercentage::parse(s) {
            return Some(EllipsisRadius::LengthOrPercentage(x));
        }
        None
    }

    fn write_to(&self, out: &mut Vec<u8>) {
        match self {
            EllipsisRadius::Auto => append_bytes(out, &[97u8, 117u8, 116u8, 111u8]),
            EllipsisRadius::LengthOrPercentage(x) => x.write_to(out),
        }
    }
}

/// The `stroke-opacity` value.
#[derive(Clone, Debug, PartialEq, Eq)]
pub enum StrokeOpacity {
    Percentage(Percentage),
    Number(Number),
}

impl Grammar for StrokeOpacity {
    open spec fn spec_wf(&self) -> bool {
        match self {
            StrokeOpacity::Percentage(x) => x.spec_wf(),
            StrokeOpacity::Number(x) => x.spec_wf(),
        }
    }

    open spec fn spec_format(&self) -> Seq<u8> {
        match self {
            StrokeOpacity::Percentage(x) => x.spec_format(),
            StrokeOpacity::Number(x) => x.spec_format(),
        }
    }

    open spec fn spec_canonical(s: Seq<u8>) -> Option<Seq<u8>> {
        if Percentage::spec_canonical(s) is Some {
            Percentage::spec_canonical(s)
        } else if Number::spec_canonical(s) is Some {
            Number::spec_canonical(s)
        } else {
            None
        }
    }

    fn parse(s: &[u8]) -> (r: Option<StrokeOpacity>) {
        if let Some(x) = Percentage::parse(s) {
            return Some(StrokeOpacity::Percentage(x));
        }
        if let Some(x) = Number::parse(s) {
            return Some(StrokeOpacity::Number(x));
        }
        None
    }

    fn write_to(&self, out: &mut Vec<u8>) {
        match self {
            StrokeOpacity::Percentage(x) => x.write_to(out),
            StrokeOpacity::Number(x) => x.write_to(out),
        }
    }
}

/// The `rotate` value of motion animation.
#[derive(Clone, Debug, PartialEq, Eq)]
pub enum Rotate {
    Auto,
    AutoReverse,
    Number(Number),
}

impl Grammar for Rotate {
    open spec fn spec_wf(&self) -> bool {
        match self {
            Rotate::Number(x) => x.spec_wf(),
            _ => true,
        }
    }

    open spec fn spec_format(&self) -> Seq<u8> {
        match self {
            Rotate::Auto => seq![97u8, 117u8, 116u8, 111u8],
            Rotate::AutoReverse => seq![97u8, 117u8, 116u8, 111u8, 45u8, 114u8, 101u8, 118u8, 101u8, 114u8, 115u8, 101u8],
            Rotate::Number(x) => x.spec_format(),
        }
    }

    open spec fn spec_canonical(s: Seq<u8>) -> Option<Seq<u8>> {
        if s == seq![97u8, 117u8, 116u8, 111u8] {
            Some(s)
        } else if s == seq![97u8, 117u8, 116u8, 111u8, 45u8, 114u8, 101u8, 118u8, 101u8, 114u8, 115u8, 101u8] {
            Some(s)
        } else if Number::spec_canonical(s) is Some {
            Number::spec_canonical(s)
        } else {
            None
        }
    }

    fn parse(s: &[u8]) -> (r: Option<Rotate>) {
        if bytes_eq(s, &[97u8, 117u8, 116u8, 111u8]) {
            return Some(Rotate::Auto);
        }
        if bytes_eq(s, &[97u8, 117u8, 116u8, 111u8, 45u8, 114u8, 101u8, 118u8, 101u8, 114u8, 115u8, 101u8]) {
            return Some(Rotate::AutoReverse);
        }
        if let Some(x) = Number::parse(s) {
            return Some(Rotate::Number(x));
        }
        None
    }

    fn write_to(&self, out: &mut Vec<u8>) {
        match self {
            Rotate::Auto => append_bytes(out, &[97u8, 117u8, 116u8, 111u8]),
            Rotate::AutoReverse => append_bytes(out, &[97u8, 117u8, 116u8, 111u8, 45u8, 114u8, 101u8, 118u8, 101u8, 114u8, 115u8, 101u8]),
            Rotate::Number(x) => x.write_to(out),
        }
    }
}

/// The orientation of a marker.
#[derive(Clone, Debug, PartialEq, Eq)]
pub enum Orient {
    Auto,
    AutoStartReverse,
    Angle(Number),
}

impl Grammar for Orient {
    open spec fn spec_wf(&self) -> bool {
        match self {
            Orient::Angle(x) => x.spec_wf(),
            _ => true,
        }
    }

    open spec fn spec_format(&self) -> Seq<u8> {
        match self {
            Orient::Auto => seq![97u8, 117u8, 116u8, 111u8],
            Orient::AutoStartReverse => seq![97u8, 117u8, 116u8, 111u8, 45u8, 115u8, 116u8, 97u8, 114u8, 116u8, 45u8, 114u8, 101u8, 118u8, 101u8, 114u8, 115u8, 101u8],
            Orient::Angle(x) => x.spec_format(),
        }
    }

    open spec fn spec_canonical(s: Seq<u8>) -> Option<Seq<u8>> {
        if s == seq![97u8, 117u8, 116u8, 111u8] {
            Some(s)
        } else if s == seq![97u8, 117u8, 116u8, 111u8, 45u8, 115u8, 116u8, 97u8, 114u8, 116u8, 45u8, 114u8, 101u8, 118u8, 101u8, 114u8, 115u8, 101u8] {
            Some(s)
        } else if Number::spec_canonical(s) is Some {
            Number::spec_canonical(s)
        } else {
            None
        }
    }

    fn parse(s: &[u8]) -> (r: Option<Orient>) {
        if bytes_eq(s, &[97u8, 117u8, 116u8, 111u8]) {
            return Some(Orient::Auto);
        }
        if bytes_eq(s, &[97u8, 117u8, 116u8, 111u8, 45u8, 115u8, 116u8, 97u8, 114u8, 116u8, 45u8, 114u8, 101u8, 118u8, 101u8, 114u8, 115u8, 101u8]) {
            return Some(Orient::AutoStartReverse);
        }
        if let Some(x) = Number::parse(s) {
            return Some(Orient::Angle(x));
        }
        None
    }

    fn write_to(&self, out: &mut Vec<u8>) {
        match self {
            Orient::Auto => append_bytes(out, &[97u8, 117u8, 116u8, 111u8]),
            Orient::AutoStartReverse => append_bytes(out, &[97u8, 117u8, 116u8, 111u8, 45u8, 115u8, 116u8, 97u8, 114u8, 116u8, 45u8, 114u8, 101u8, 118u8, 101u8, 114u8, 115u8, 101u8]),
            Orient::Angle(x) => x.write_to(out),
        }
    }
}

/// The horizontal reference point of a marker.
#[derive(Clone, Debug, PartialEq, Eq)]
pub enum RefX {
    Left,
    Center,
    Right,
    Coordinate(LengthOrPercentage),
}

impl Grammar for RefX {
    open spec fn spec_wf(&self) -> bool {
        match self {
            RefX::Coordinate(x) => x.spec_wf(),
            _ => true,
        }
    }

    open spec fn spec_format(&self) -> Seq<u8> {
        match self {
            RefX::Left => seq![108u8, 101u8, 102u8, 116u8],
            RefX::Center => seq![99u8, 101u8, 110u8, 116u8, 101u8, 114u8],
            RefX::Right => seq![114u8, 105u8, 103u8, 104u8, 116u8],
            RefX::Coordinate(x) => x.spec_format(),
        }
    }

    open spec fn spec_canonical(s: Seq<u8>) -> Option<Seq<u8>> {
        if s == seq![108u8, 101u8, 102u8, 116u8] {
            Some(s)
        } else if s == seq![99u8, 101u8, 110u8, 116u8, 101u8, 114u8] {
            Some(s)
        } else if s == seq![114u8, 105u8, 103u8, 104u8, 116u8] {
            Some(s)
        } else if LengthOrPercentage::spec_canonical(s) is Some {
            LengthOrPercentage::spec_canonical(s)
        } else {
            None
        }
    }

    fn parse(s: &[u8]) -> (r: Option<RefX>) {
        if bytes_eq(s, &[108u8, 101u8, 102u8, 116u8]) {
            return Some(RefX::Left);
        }
        if bytes_eq(s, &[99u8, 101u8, 110u8, 116u8, 101u8, 114u8]) {
            return Some(RefX::Center);
        }
        if bytes_eq(s, &[114u8, 105u8, 103u8, 104u8, 116u8]) {
            return Some(RefX::Right);
        }
        if let Some(x) = LengthOrPercentage::parse(s) {
            return Some(RefX::Coordinate(x));
        }
        None
    }

    fn write_to(&self, out: &mut Vec<u8>) {
        match self {
            RefX::Left => append_bytes(out, &[108u8, 101u8, 102u8, 116u8]),
            RefX::Center => append_bytes(out, &[99u8, 101u8, 110u8, 116u8, 101u8, 114u8]),
            RefX::Right => append_bytes(out, &[114u8, 105u8, 103u8, 104u8, 116u8]),
            RefX::Coordinate(x) => x.write_to(out),
        }
    }
}

/// The vertical reference point of a marker.
#[derive(Clone, Debug, PartialEq, Eq)]
pub enum RefY {
    Top,
    Center,
    Bottom,
    Coordinate(LengthOrPercentage),
}

impl Grammar for RefY {
    open spec fn spec_wf(&self) -> bool {
        match self {
            RefY::Coordinate(x) => x.spec_wf(),
            _ => true,
        }
    }

    open spec fn spec_format(&self) -> Seq<u8> {
        match self {
            RefY::Top => seq![116u8, 111u8, 112u8],
            RefY::Center => seq![99u8, 101u8, 110u8, 116u8, 101u8, 114u8],
            RefY::Bottom => seq![98u8, 111u8, 116u8, 116u8, 111u8, 109u8],
            RefY::Coordinate(x) => x.spec_format(),
        }
    }

    open spec fn spec_canonical(s: Seq<u8>) -> Option<Seq<u8>> {
        if s == seq![116u8, 111u8, 112u8] {
            Some(s)
        } else if s == seq![99u8, 101u8, 110u8, 116u8, 101u8, 114u8] {
            Some(s)
        } else if s == seq![98u8, 111u8, 116u8, 116u8, 111u8, 109u8] {
            Some(s)
        } else if LengthOrPercentage::spec_canonical(s) is Some {
            LengthOrPercentage::spec_canonical(s)
        } else {
            None
        }
    }

    fn parse(s: &[u8]) -> (r: Option<RefY>) {
        if bytes_eq(s, &[116u8, 111u8, 112u8]) {
            return Some(RefY::Top);
        }
        if bytes_eq(s, &[99u8, 101u8, 110u8, 116u8, 101u8, 114u8]) {
            return Some(RefY::Center);
        }
        if bytes_eq(s, &[98u8, 111u8, 116u8, 116u8, 111u8, 109u8]) {
            return Some(RefY::Bottom);
        }
        if let Some(x) = LengthOrPercentage::parse(s) {
            return Some(RefY::Coordinate(x));
        }
        None
    }

    fn write_to(&self, out: &mut Vec<u8>) {
        match self {
            RefY::Top => append_bytes(out, &[116u8, 111u8, 112u8]),
            RefY::Center => append_bytes(out, &[99u8, 101u8, 110u8, 116u8, 101u8, 114u8]),
            RefY::Bottom => append_bytes(out, &[98u8, 111u8, 116u8, 116u8, 111u8, 109u8]),
            RefY::Coordinate(x) => x.write_to(out),
        }
    }
}

/// The `font-weight` value.
#[derive(Clone, Debug, PartialEq, Eq)]
pub enum FontWeight {
    Normal,
    Bold,
    Bolder,
    Lighter,
    Number(Number),
}

impl Grammar for FontWeight {
    open spec fn spec_wf(&self) -> bool {
        match self {
            FontWeight::Number(x) => x.spec_wf(),
            _ => true,
        }
    }

    open spec fn spec_format(&self) -> Seq<u8> {
        match self {
            FontWeight::Normal => seq![110u8, 111u8, 114u8, 109u8, 97u8, 108u8],
            FontWeight::Bold => seq![98u8, 111u8, 108u8, 100u8],
            FontWeight::Bolder => seq![98u8, 111u8, 108u8, 100u8, 101u8, 114u8],
            FontWeight::Lighter => seq![108u8, 105u8, 103u8, 104u8, 116u8, 101u8, 114u8],
            FontWeight::Number(x) => x.spec_format(),
        }
    }

    open spec fn spec_canonical(s: Seq<u8>) -> Option<Seq<u8>> {
        if s == seq![110u8, 111u8, 114u8, 109u8, 97u8, 108u8] {
            Some(s)
        } else if s == seq![98u8, 111u8, 108u8, 100u8] {
            Some(s)
        } else if s == seq![98u8, 111u8, 108u8, 100u8, 101u8, 114u8] {
            Some(s)
        } else if s == seq![108u8, 105u8, 103u8, 104u8, 116u8, 101u8, 114u8] {
            Some(s)
        } else if Number::spec_canonical(s) is Some {
            Number::spec_canonical(s)
        } else {
            None
        }
    }

    fn parse(s: &[u8]) -> (r: Option<FontWeight>) {
        if bytes_eq(s, &[110u8, 111u8, 114u8, 109u8, 97u8, 108u8]) {
            return Some(FontWeight::Normal);
        }
        if bytes_eq(s, &[98u8, 111u8, 108u8, 100u8]) {
            return Some(FontWeight::Bold);
        }
        if bytes_eq(s, &[98u8, 111u8, 108u8, 100u8, 101u8, 114u8]) {
            return Some(FontWeight::Bolder);
        }
        if bytes_eq(s, &[108u8, 105u8, 103u8, 104u8, 116u8, 101u8, 114u8]) {
            return Some(FontWeight::Lighter);
        }
        if let Some(x) = Number::parse(s) {
            return Some(FontWeight::Number(x));
        }
        None
    }

    fn write_to(&self, out: &mut Vec<u8>) {
        match self {
            FontWeight::Normal => append_bytes(out, &[110u8, 111u8, 114u8, 109u8, 97u8, 108u8]),
            FontWeight::Bold => append_bytes(out, &[98u8, 111u8, 108u8, 100u8]),
            FontWeight::Bolder => append_bytes(out, &[98u8, 111u8, 108u8, 100u8, 101u8, 114u8]),
            FontWeight::Lighter => append_bytes(out, &[108u8, 105u8, 103u8, 104u8, 116u8, 101u8, 114u8]),
            FontWeight::Number(x) => x.write_to(out),
        }
    }
}

/// The input of a filter primitive: a standard input or the result of another one.
#[derive(Clone, Debug, PartialEq, Eq)]
pub enum In {
    SourceGraphic,
    SourceAlpha,
    BackgroundImage,
    BackgroundAlpha,
    FillPaint,
    StrokePaint,
    Identifier(Name),
}

impl Grammar for In {
    open spec fn spec_wf(&self) -> bool {
        match self {
            In::Identifier(x) => x.spec_wf(),
            _ => true,
        }
    }

    open spec fn spec_format(&self) -> Seq<u8> {
        match self {
            In::SourceGraphic => seq![83u8, 111u8, 117u8, 114u8, 99u8, 101u8, 71u8, 114u8, 97u8, 112u8, 104u8, 105u8, 99u8],
            In::SourceAlpha => seq![83u8, 111u8, 117u8, 114u8, 99u8, 101u8, 65u8, 108u8, 112u8, 104u8, 97u8],
            In::BackgroundImage => seq![66u8, 97u8, 99u8, 107u8, 103u8, 114u8, 111u8, 117u8, 110u8, 100u8, 73u8, 109u8, 97u8, 103u8, 101u8],
            In::BackgroundAlpha => seq![66u8, 97u8, 99u8, 107u8, 103u8, 114u8, 111u8, 117u8, 110u8, 100u8, 65u8, 108u8, 112u8, 104u8, 97u8],
            In::FillPaint => seq![70u8, 105u8, 108u8, 108u8, 80u8, 97u8, 105u8, 110u8, 116u8],
            In::StrokePaint => seq![83u8, 116u8, 114u8, 111u8, 107u8, 101u8, 80u8, 97u8, 105u8, 110u8, 116u8],
            In::Identifier(x) => x.spec_format(),
        }
    }

    open spec fn spec_canonical(s: Seq<u8>) -> Option<Seq<u8>> {
        if s == seq![83u8, 111u8, 117u8, 114u8, 99u8, 101u8, 71u8, 114u8, 97u8, 112u8, 104u8, 105u8, 99u8] {
            Some(s)
        } else if s == seq![83u8, 111u8, 117u8, 114u8, 99u8, 101u8, 65u8, 108u8, 112u8, 104u8, 97u8] {
            Some(s)
        } else if s == seq![66u8, 97u8, 99u8, 107u8, 103u8, 114u8, 111u8, 117u8, 110u8, 100u8, 73u8, 109u8, 97u8, 103u8, 101u8] {
            Some(s)
        } else if s == seq![66u8, 97u8, 99u8, 107u8, 103u8, 114u8, 111u8, 117u8, 110u8, 100u8, 65u8, 108u8, 112u8, 104u8, 97u8] {
            Some(s)
        } else if s == seq![70u8, 105u8, 108u8, 108u8, 80u8, 97u8, 105u8, 110u8, 116u8] {
            Some(s)
        } else if s == seq![83u8, 116u8, 114u8, 111u8, 107u8, 101u8, 80u8, 97u8, 105u8, 110u8, 116u8] {
            Some(s)
        } else if Name::spec_canonical(s) is Some {
            Name::spec_canonical(s)
        } else {
            None
        }
    }

    fn parse(s: &[u8]) -> (r: Option<In>) {
        if bytes_eq(s, &[83u8, 111u8, 117u8, 114u8, 99u8, 101u8, 71u8, 114u8, 97u8, 112u8, 104u8, 105u8, 99u8]) {
            return Some(In::SourceGraphic);
        }
        if bytes_eq(s, &[83u8, 111u8, 117u8, 114u8, 99u8, 101u8, 65u8, 108u8, 112u8, 104u8, 97u8]) {
            return Some(In::SourceAlpha);
        }
        if bytes_eq(s, &[66u8, 97u8, 99u8, 107u8, 103u8, 114u8, 111u8, 117u8, 110u8, 100u8, 73u8, 109u8, 97u8, 103u8, 101u8]) {
            return Some(In::BackgroundImage);
        }
        if bytes_eq(s, &[66u8, 97u8, 99u8, 107u8, 103u8, 114u8, 111u8, 117u8, 110u8, 100u8, 65u8, 108u8, 112u8, 104u8, 97u8]) {
            return Some(In::BackgroundAlpha);
        }
        if bytes_eq(s, &[70u8, 105u8, 108u8, 108u8, 80u8, 97u8, 105u8, 110u8, 116u8]) {
            return Some(In::FillPaint);
        }
        if bytes_eq(s, &[83u8, 116u8, 114u8, 111u8, 107u8, 101u8, 80u8, 97u8, 105u8, 110u8, 116u8]) {
            return Some(In::StrokePaint);
        }
        if let Some(x) = Name::parse(s) {
            return Some(In::Identifier(x));
        }
        None
    }

    fn write_to(&self, out: &mut Vec<u8>) {
        match self {
            In::SourceGraphic => append_bytes(out, &[83u8, 111u8, 117u8, 114u8, 99u8, 101u8, 71u8, 114u8, 97u8, 112u8, 104u8, 105u8, 99u8]),
            In::SourceAlpha => append_bytes(out, &[83u8, 111u8, 117u8, 114u8, 99u8, 101u8, 65u8, 108u8, 112u8, 104u8, 97u8]),
            In::BackgroundImage => append_bytes(out, &[66u8, 97u8, 99u8, 107u8, 103u8, 114u8, 111u8, 117u8, 110u8, 100u8, 73u8, 109u8, 97u8, 103u8, 101u8]),
            In::BackgroundAlpha => append_bytes(out, &[66u8, 97u8, 99u8, 107u8, 103u8, 114u8, 111u8, 117u8, 110u8, 100u8, 65u8, 108u8, 112u8, 104u8, 97u8]),
            In::FillPaint => append_bytes(out, &[70u8, 105u8, 108u8, 108u8, 80u8, 97u8, 105u8, 110u8, 116u8]),
            In::StrokePaint => append_bytes(out, &[83u8, 116u8, 114u8, 111u8, 107u8, 101u8, 80u8, 97u8, 105u8, 110u8, 116u8]),
            In::Identifier(x) => x.write_to(out),
        }
    }
}

} // verus!
