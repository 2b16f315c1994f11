//! Path data: drawing commands, each a letter followed by a fixed number
//! of numeric operands, all separated by whitespace.
use vstd::prelude::*;

use crate::text::{is_number, join_words, split_words, words, Grammar, Number};
use crate::values::{list_formats, list_wf};

verus! {

/// A drawing command; upper-case letters take absolute coordinates,
/// lower-case ones relative coordinates.
#[derive(Clone, Copy, Debug, PartialEq, Eq, Structural)]
pub enum PathCommand {
    MoveToAbsolute,
    MoveToRelative,
    LineToAbsolute,
    LineToRelative,
    HorizontalLineToAbsolute,
    HorizontalLineToRelative,
    VerticalLineToAbsolute,
    VerticalLineToRelative,
    CubicBezierAbsolute,
    CubicBezierRelative,
    SmoothCubicBezierAbsolute,
    SmoothCubicBezierRelative,
    QuadraticBezierAbsolute,
    QuadraticBezierRelative,
    SmoothQuadraticBezierAbsolute,
    SmoothQuadraticBezierRelative,
    EllipticalArcAbsolute,
    EllipticalArcRelative,
    ClosePathAbsolute,
    ClosePathRelative,
}

/// The number of operands that the command written `c` takes, if `c` is a command letter.
pub open spec fn letter_arity(c: u8) -> Option<nat> {
    if c == 77u8 {
        Some(2)
    } else if c == 109u8 {
        Some(2)
    } else if c == 76u8 {
        Some(2)
    } else if c == 108u8 {
        Some(2)
    } else if c == 72u8 {
        Some(1)
    } else if c == 104u8 {
        Some(1)
    } else if c == 86u8 {
        Some(1)
    } else if c == 118u8 {
        Some(1)
    } else if c == 67u8 {
        Some(6)
    } else if c == 99u8 {
        Some(6)
    } else if c == 83u8 {
        Some(4)
    } else if c == 115u8 {
        Some(4)
    } else if c == 81u8 {
        Some(4)
    } else if c == 113u8 {
        Some(4)
    } else if c == 84u8 {
        Some(2)
    } else if c == 116u8 {
        Some(2)
    } else if c == 65u8 {
        Some(7)
    } else if c == 97u8 {
        Some(7)
    } else if c == 90u8 {
        Some(0)
    } else if c == 122u8 {
        Some(0)
    } else {
        None
    }
}

impl PathCommand {
    pub open spec fn spec_letter(&self) -> u8 {
        match self {
            PathCommand::MoveToAbsolute => 77u8,
            PathCommand::MoveToRelative => 109u8,
            PathCommand::LineToAbsolute => 76u8,
            PathCommand::LineToRelative => 108u8,
            PathCommand::HorizontalLineToAbsolute => 72u8,
            PathCommand::HorizontalLineToRelative => 104u8,
            PathCommand::VerticalLineToAbsolute => 86u8,
            PathCommand::VerticalLineToRelative => 118u8,
            PathCommand::CubicBezierAbsolute => 67u8,
            PathCommand::CubicBezierRelative => 99u8,
            PathCommand::SmoothCubicBezierAbsolute => 83u8,
            PathCommand::SmoothCubicBezierRelative => 115u8,
            PathCommand::QuadraticBezierAbsolute => 81u8,
            PathCommand::QuadraticBezierRelative => 113u8,
            PathCommand::SmoothQuadraticBezierAbsolute => 84u8,
            PathCommand::SmoothQuadraticBezierRelative => 116u8,
            PathCommand::EllipticalArcAbsolute => 65u8,
            PathCommand::EllipticalArcRelative => 97u8,
            PathCommand::ClosePathAbsolute => 90u8,
            PathCommand::ClosePathRelative => 122u8,
        }
    }

    pub open spec fn spec_arity(&self) -> nat {
        match self {
            PathCommand::MoveToAbsolute => 2,
            PathCommand::MoveToRelative => 2,
            PathCommand::LineToAbsolute => 2,
            PathCommand::LineToRelative => 2,
            PathCommand::HorizontalLineToAbsolute => 1,
            PathCommand::HorizontalLineToRelative => 1,
            PathCommand::VerticalLineToAbsolute => 1,
            PathCommand::VerticalLineToRelative => 1,
            PathCommand::CubicBezierAbsolute => 6,
            PathCommand::CubicBezierRelative => 6,
            PathCommand::SmoothCubicBezierAbsolute => 4,
            PathCommand::SmoothCubicBezierRelative => 4,
            PathCommand::QuadraticBezierAbsolute => 4,
            PathCommand::QuadraticBezierRelative => 4,
            PathCommand::SmoothQuadraticBezierAbsolute => 2,
            PathCommand::SmoothQuadraticBezierRelative => 2,
            PathCommand::EllipticalArcAbsolute => 7,
            PathCommand::EllipticalArcRelative => 7,
            PathCommand::ClosePathAbsolute => 0,
            PathCommand::ClosePathRelative => 0,
        }
    }

    pub fn letter(&self) -> (r: u8)
        ensures
            r == self.spec_letter(),
    {
        match self {
            PathCommand::MoveToAbsolute => 77u8,
            PathCommand::MoveToRelative => 109u8,
            PathCommand::LineToAbsolute => 76u8,
            PathCommand::LineToRelative => 108u8,
            PathCommand::HorizontalLineToAbsolute => 72u8,
            PathCommand::HorizontalLineToRelative => 104u8,
            PathCommand::VerticalLineToAbsolute => 86u8,
            PathCommand::VerticalLineToRelative => 118u8,
            PathCommand::CubicBezierAbsolute => 67u8,
            PathCommand::CubicBezierRelative => 99u8,
            PathCommand::SmoothCubicBezierAbsolute => 83u8,
            PathCommand::SmoothCubicBezierRelative => 115u8,
            PathCommand::QuadraticBezierAbsolute => 81u8,
            PathCommand::QuadraticBezierRelative => 113u8,
            PathCommand::SmoothQuadraticBezierAbsolute => 84u8,
            PathCommand::SmoothQuadraticBezierRelative => 116u8,
            PathCommand::EllipticalArcAbsolute => 65u8,
            PathCommand::EllipticalArcRelative => 97u8,
            PathCommand::ClosePathAbsolute => 90u8,
            PathCommand::ClosePathRelative => 122u8,
        }
    }

    pub fn arity(&self) -> (r: usize)
        ensures
            r == self.spec_arity(),
    {
        match self {
            PathCommand::MoveToAbsolute => 2,
            PathCommand::MoveToRelative => 2,
            PathCommand::LineToAbsolute => 2,
            PathCommand::LineToRelative => 2,
            PathCommand::HorizontalLineToAbsolute => 1,
            PathCommand::HorizontalLineToRelative => 1,
            PathCommand::VerticalLineToAbsolute => 1,
            PathCommand::VerticalLineToRelative => 1,
            PathCommand::CubicBezierAbsolute => 6,
            PathCommand::CubicBezierRelative => 6,
            PathCommand::SmoothCubicBezierAbsolute => 4,
            PathCommand::SmoothCubicBezierRelative => 4,
            PathCommand::QuadraticBezierAbsolute => 4,
            PathCommand::QuadraticBezierRelative => 4,
            PathCommand::SmoothQuadraticBezierAbsolute => 2,
            PathCommand::SmoothQuadraticBezierRelative => 2,
            PathCommand::EllipticalArcAbsolute => 7,
            PathCommand::EllipticalArcRelative => 7,
            PathCommand::ClosePathAbsolute => 0,
            PathCommand::ClosePathRelative => 0,
        }
    }

    /// The command written `c`.
    pub fn from_letter(c: u8) -> (r: Option<PathCommand>)
        ensures
            match r {
                Some(p) => p.spec_letter() == c && letter_arity(c) == Some(p.spec_arity()),
                None => letter_arity(c) is None,
            },
    {
        if c == 77u8 {
            return Some(PathCommand::MoveToAbsolute);
        }
        if c == 109u8 {
            return Some(PathCommand::MoveToRelative);
        }
        if c == 76u8 {
            return Some(PathCommand::LineToAbsolute);
        }
        if c == 108u8 {
            return Some(PathCommand::LineToRelative);
        }
        if c == 72u8 {
            return Some(PathCommand::HorizontalLineToAbsolute);
        }
        if c == 104u8 {
            return Some(PathCommand::HorizontalLineToRelative);
        }
        if c == 86u8 {
            return Some(PathCommand::VerticalLineToAbsolute);
        }
        if c == 118u8 {
            return Some(PathCommand::VerticalLineToRelative);
        }
        if c == 67u8 {
            return Some(PathCommand::CubicBezierAbsolute);
        }
        if c == 99u8 {
            return Some(PathCommand::CubicBezierRelative);
        }
        if c == 83u8 {
            return Some(PathCommand::SmoothCubicBezierAbsolute);
        }
        if c == 115u8 {
            return Some(PathCommand::SmoothCubicBezierRelative);
        }
        if c == 81u8 {
            return Some(PathCommand::QuadraticBezierAbsolute);
        }
        if c == 113u8 {
            return Some(PathCommand::QuadraticBezierRelative);
        }
        if c == 84u8 {
            return Some(PathCommand::SmoothQuadraticBezierAbsolute);
        }
        if c == 116u8 {
            return Some(PathCommand::SmoothQuadraticBezierRelative);
        }
        if c == 65u8 {
            return Some(PathCommand::EllipticalArcAbsolute);
        }
        if c == 97u8 {
            return Some(PathCommand::EllipticalArcRelative);
        }
        if c == 90u8 {
            return Some(PathCommand::ClosePathAbsolute);
        }
        if c == 122u8 {
            return Some(PathCommand::ClosePathRelative);
        }
        None
    }
}

/// One command with its operands.
#[derive(Clone, Debug, PartialEq, Eq)]
pub struct PathSegment {
    pub command: PathCommand,
    pub operands: Vec<Number>,
}

impl PathSegment {
    pub open spec fn spec_wf(&self) -> bool {
        self.operands@.len() == self.command.spec_arity() && list_wf(self.operands@)
    }

    /// The words this segment is written as.
    pub open spec fn spec_words(&self) -> Seq<Seq<u8>> {
        seq![seq![self.command.spec_letter()]] + list_formats(self.operands@)
    }
}

/// The words that a sequence of segments is written as.
pub open spec fn path_words(v: Seq<PathSegment>) -> Seq<Seq<u8>>
    decreases v.len(),
{
    if v.len() == 0 {
        Seq::empty()
    } else {
        path_words(v.drop_last()) + v.last().spec_words()
    }
}

/// From word `i` on, `ws` is a run of commands, each followed by exactly as
/// many numbers as it takes.
pub open spec fn path_valid(ws: Seq<Seq<u8>>, i: int) -> bool
    decreases ws.len() - i,
{
    if i < 0 || i >= ws.len() {
        true
    } else if ws[i].len() != 1 {
        false
    } else {
        match letter_arity(ws[i][0]) {
            None => false,
            Some(k) => i + 1 + k <= ws.len() && (forall|j: int|
                i + 1 <= j < i + 1 + k ==> is_number(#[trigger] ws[j])) && path_valid(
                ws,
                i + 1 + k,
            ),
        }
    }
}

/// The value of `d` and `path`: a sequence of path segments.
#[derive(Clone, Debug, PartialEq, Eq)]
pub struct PathData(pub Vec<PathSegment>);

impl Grammar for PathData {
    open spec fn spec_wf(&self) -> bool {
        forall|i: int| 0 <= i < self.0@.len() ==> (#[trigger] self.0@[i]).spec_wf()
    }

    open spec fn spec_format(&self) -> Seq<u8> {
        join_words(path_words(self.0@))
    }

    open spec fn spec_canonical(s: Seq<u8>) -> Option<Seq<u8>> {
        if path_valid(words(s), 0) {
            Some(join_words(words(s)))
        } else {
            None
        }
    }

    fn parse(s: &[u8]) -> (r: Option<PathData>) {
        let ws = split_words(s);
        let ghost w = words(s@);
        let n = ws.len();
        let mut segs: Vec<PathSegment> = Vec::new();
        let mut i: usize = 0;
        while i < n
            invariant
                n == ws@.len(),
                i <= n,
                ws@.len() == w.len(),
                w == words(s@),
                forall|k: int| 0 <= k < ws@.len() ==> (#[trigger] ws@[k])@ == w[k],
                path_valid(w, 0) == path_valid(w, i as int),
                path_words(segs@) == w.take(i as int),
                forall|k: int| 0 <= k < segs@.len() ==> (#[trigger] segs@[k]).spec_wf(),
            decreases n - i,
        {
            let word = ws[i].as_slice();
            if word.len() != 1 {
                return None;
            }
            let command = match PathCommand::from_letter(word[0]) {
                Some(c) => c,
                None => {
                    return None;
                },
            };
            let k = command.arity();
            if k > n - i - 1 {
                return None;
            }
            let mut operands: Vec<Number> = Vec::new();
            let mut j: usize = 0;
            while j < k
                invariant
                    n == ws@.len(),
                    i < n,
                    k <= n - i - 1,
                    j <= k,
                    ws@.len() == w.len(),
                    forall|m: int| 0 <= m < ws@.len() ==> (#[trigger] ws@[m])@ == w[m],
                    operands@.len() == j,
                    list_wf(operands@),
                    list_formats(operands@) == w.subrange(i + 1, i + 1 + j),
                    path_valid(w, 0) == path_valid(w, i as int),
                    w == words(s@),
                    w[i as int].len() == 1,
                    letter_arity(w[i as int][0]) == Some(k as nat),
                    command.spec_letter() == w[i as int][0],
                    command.spec_arity() == k,
                    forall|m: int| i + 1 <= m < i + 1 + j ==> is_number(#[trigger] w[m]),
                decreases k - j,
            {
                let x = match Number::parse(ws[i + 1 + j].as_slice()) {
                    Some(x) => x,
                    None => {
                        proof {
                            let m = i + 1 + j;
                            assert(!is_number(w[m as int]));
                            assert(!path_valid(w, i as int));
                        }
                        return None;
                    },
                };
                let ghost before = operands@;
                operands.push(x);
                assert(list_formats(operands@) =~= list_formats(before).push(x.spec_format()));
                assert(w.subrange(i + 1, i + 1 + j + 1) =~= w.subrange(i + 1, i + 1 + j).push(
                    w[i + 1 + j],
                ));
                j = j + 1;
            }
            let seg = PathSegment { command, operands };
            let ghost before = segs@;
            segs.push(seg);
            assert(segs@.drop_last() =~= before);
            assert(w.take(i + 1 + k) =~= w.take(i as int) + seq![w[i as int]] + w.subrange(
                i + 1,
                i + 1 + k,
            ));
            assert(w[i as int] =~= seq![command.spec_letter()]);
            assert(path_words(segs@) =~= w.take(i + 1 + k));
            i = i + 1 + k;
        }
        assert(w.take(n as int) =~= w);
        Some(PathData(segs))
    }

    fn write_to(&self, out: &mut Vec<u8>) {
        let ghost start = out@;
        let mut i: usize = 0;
        let mut first = true;
        while i < self.0.len()
            invariant
                i <= self.0@.len(),
                first == (path_words(self.0@.take(i as int)).len() == 0),
                out@ == start + join_words(path_words(self.0@.take(i as int))),
                start == old(out)@,
            decreases self.0@.len() - i,
        {
            let seg = &self.0[i];
            assert(self.0@.take(i + 1).drop_last() =~= self.0@.take(i as int));
            let ghost pw = path_words(self.0@.take(i as int));
            let ghost sw = seg.spec_words();
            if !first {
                out.push(32u8);
            }
            out.push(seg.command.letter());
            proof {
                lemma_join_push(pw, seq![seg.command.spec_letter()]);
            }
            assert(out@ =~= start + join_words(pw.push(seq![seg.command.spec_letter()])));
            assert(pw + sw.take(1) =~= pw.push(seq![seg.command.spec_letter()]));
            let mut j: usize = 0;
            while j < seg.operands.len()
                invariant
                    j <= seg.operands@.len(),
                    out@ == start + join_words(pw + sw.take(j + 1)),
                    sw == seg.spec_words(),
                    sw.len() == seg.operands@.len() + 1,
                decreases seg.operands@.len() - j,
            {
                out.push(32u8);
                seg.operands[j].write_to(out);
                proof {
                    assert(sw[j + 1] == seg.operands@[j as int].spec_format());
                    assert((pw + sw.take(j + 2)) =~= (pw + sw.take(j + 1)).push(sw[j + 1]));
                    lemma_join_push(pw + sw.take(j + 1), sw[j + 1]);
                }
                assert(out@ =~= start + join_words(pw + sw.take(j + 2)));
                j = j + 1;
            }
            assert(sw.take(j + 1) =~= sw);
            assert(path_words(self.0@.take(i + 1)) =~= pw + sw);
            first = false;
            i = i + 1;
        }
        assert(self.0@.take(i as int) =~= self.0@);
    }
}

/// Joining one more word adds a space unless nothing was there before.
pub proof fn lemma_join_push(ws: Seq<Seq<u8>>, x: Seq<u8>)
    ensures
        join_words(ws.push(x)) == if ws.len() == 0 {
            x
        } else {
            join_words(ws) + seq![32u8] + x
        },
{
    assert(ws.push(x).drop_last() =~= ws);
}

} // verus!
