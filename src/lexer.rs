//! The mode-sensitive lexer: a cursor over the input bytes and the scanner
//! that turns them into tokens one at a time.
use vstd::prelude::*;

use crate::bytes::{
    copy_range, find_byte, find_byte_from, find_seq, find_seq_from, is_whitespace,
    is_ws, lemma_find_byte_bounds, lemma_find_seq_bounds, occurs_at, starts_at,
};
use crate::token::{Token, TokenKind};

verus! {

/// What the lexer is inside of: character data, a tag, or a quoted value.
#[derive(Clone, Copy, Debug, PartialEq, Eq, Structural)]
pub enum LexerMode {
    Text,
    Markup,
    Quote,
}

impl Default for LexerMode {
    fn default() -> (r: Self)
        ensures
            r == LexerMode::Text,
    {
        LexerMode::Text
    }
}

/// Why the lexer could not produce a token.
#[derive(Clone, Copy, Debug, PartialEq, Eq, Structural)]
pub enum LexError {
    UnterminatedComment,
    UnterminatedQuote,
    UnterminatedSelfClose,
}

pub open spec fn comment_open() -> Seq<u8> {
    seq![60u8, 33u8, 45u8, 45u8]
}

pub open spec fn comment_close() -> Seq<u8> {
    seq![45u8, 45u8, 62u8]
}

pub open spec fn close_tag_open() -> Seq<u8> {
    seq![60u8, 47u8]
}

pub open spec fn ascii_lower(c: u8) -> u8 {
    if 65 <= c <= 90 {
        (c + 32) as u8
    } else {
        c
    }
}

/// Equality of two byte strings up to ASCII case.
pub open spec fn eq_ignore_case(a: Seq<u8>, b: Seq<u8>) -> bool {
    a.len() == b.len() && forall|i: int| 0 <= i < a.len() ==> ascii_lower(a[i]) == ascii_lower(b[i])
}

/// First offset at or after `off` that is not ASCII whitespace.
pub open spec fn skip_ws(b: Seq<u8>, off: int) -> int
    decreases b.len() - off,
{
    if off < 0 || off >= b.len() || !is_ws(b[off]) {
        off
    } else {
        skip_ws(b, off + 1)
    }
}

pub open spec fn ends_identifier(c: u8) -> bool {
    is_ws(c) || c == 61 || c == 62 || c == 47
}

/// End of the identifier starting at `p`: the next whitespace, `=`, `>`, `/`
/// or the end of input.
pub open spec fn ident_end(b: Seq<u8>, p: int) -> int
    decreases b.len() - p,
{
    if p < 0 || p >= b.len() || ends_identifier(b[p]) {
        p
    } else {
        ident_end(b, p + 1)
    }
}

/// The first `"` at or after `pos` that is not preceded by a backslash.
pub open spec fn literal_end(b: Seq<u8>, pos: int) -> Option<int>
    decreases b.len() + 1 - pos,
{
    match find_byte_from(b, pos, 34u8) {
        None => None,
        Some(q) => if q > 0 && b[q - 1] == 92u8 {
            if pos <= q < b.len() {
                literal_end(b, q + 1)
            } else {
                None
            }
        } else {
            Some(q)
        },
    }
}

/// End of a run of character data: the next `<` or the end of input.
pub open spec fn text_end(b: Seq<u8>, p: int) -> int {
    match find_byte_from(b, p, 60u8) {
        Some(q) => q,
        None => b.len() as int,
    }
}

/// One step of the lexer.
pub enum Scan {
    End,
    Fail(LexError),
    Emit(TokenKind, int, int, LexerMode),
}

/// What the lexer does at `off` in `mode`: the token it emits, with its
/// range and the mode that follows, or why it stops.
pub open spec fn scan(b: Seq<u8>, off: int, mode: LexerMode) -> Scan {
    let p = if mode == LexerMode::Quote {
        off
    } else {
        skip_ws(b, off)
    };
    if p >= b.len() {
        Scan::End
    } else if occurs_at(b, p, comment_open()) {
        match find_seq_from(b, p + 4, comment_close()) {
            None => Scan::Fail(LexError::UnterminatedComment),
            Some(q) => Scan::Emit(TokenKind::Comment, p, q + 3, mode),
        }
    } else {
        match mode {
            LexerMode::Quote => if b[p] == 34u8 {
                Scan::Emit(TokenKind::Quote, p, p + 1, LexerMode::Markup)
            } else {
                match literal_end(b, p) {
                    None => Scan::Fail(LexError::UnterminatedQuote),
                    Some(q) => Scan::Emit(TokenKind::Literal, p, q, LexerMode::Quote),
                }
            },
            LexerMode::Markup => if b[p] == 62u8 {
                Scan::Emit(TokenKind::GreaterThan, p, p + 1, LexerMode::Text)
            } else if b[p] == 47u8 {
                match find_byte_from(b, p, 62u8) {
                    None => Scan::Fail(LexError::UnterminatedSelfClose),
                    Some(q) => Scan::Emit(TokenKind::SlashGreaterThan, p, q + 1, LexerMode::Text),
                }
            } else if b[p] == 61u8 {
                Scan::Emit(TokenKind::Equals, p, p + 1, LexerMode::Markup)
            } else if b[p] == 34u8 {
                Scan::Emit(TokenKind::Quote, p, p + 1, LexerMode::Quote)
            } else {
                Scan::Emit(TokenKind::Identifier, p, ident_end(b, p), LexerMode::Markup)
            },
            LexerMode::Text => if occurs_at(b, p, close_tag_open()) {
                Scan::Emit(TokenKind::LessThanSlash, p, p + 2, LexerMode::Markup)
            } else if b[p] == 60u8 {
                Scan::Emit(TokenKind::LessThan, p, p + 1, LexerMode::Markup)
            } else {
                Scan::Emit(TokenKind::Text, p, text_end(b, p), LexerMode::Text)
            },
        }
    }
}

pub proof fn lemma_skip_ws_bounds(b: Seq<u8>, off: int)
    requires
        0 <= off,
    ensures
        off <= skip_ws(b, off),
        off <= b.len() ==> skip_ws(b, off) <= b.len(),
        skip_ws(b, off) < b.len() ==> !is_ws(b[skip_ws(b, off)]),
        forall|j: int| off <= j < skip_ws(b, off) ==> is_ws(#[trigger] b[j]),
    decreases b.len() - off,
{
    if off < b.len() && is_ws(b[off]) {
        lemma_skip_ws_bounds(b, off + 1);
    }
}

pub proof fn lemma_ident_end_bounds(b: Seq<u8>, p: int)
    requires
        0 <= p <= b.len(),
    ensures
        p <= ident_end(b, p) <= b.len(),
        ident_end(b, p) < b.len() ==> ends_identifier(b[ident_end(b, p)]),
        forall|j: int| p <= j < ident_end(b, p) ==> !ends_identifier(#[trigger] b[j]),
    decreases b.len() - p,
{
    if p < b.len() && !ends_identifier(b[p]) {
        lemma_ident_end_bounds(b, p + 1);
    }
}

pub proof fn lemma_literal_end_bounds(b: Seq<u8>, pos: int)
    requires
        0 <= pos,
    ensures
        literal_end(b, pos) matches Some(q) ==> pos <= q < b.len() && b[q] == 34u8,
    decreases b.len() + 1 - pos,
{
    lemma_find_byte_bounds(b, pos, 34u8);
    match find_byte_from(b, pos, 34u8) {
        None => {},
        Some(q) => {
            if q > 0 && b[q - 1] == 92u8 && pos <= q < b.len() {
                lemma_literal_end_bounds(b, q + 1);
            }
        },
    }
}

/// Every emitted token is non-empty and lies after the scan position.
pub proof fn lemma_scan_progress(b: Seq<u8>, off: int, mode: LexerMode)
    requires
        0 <= off <= b.len(),
    ensures
        scan(b, off, mode) matches Scan::Emit(_, s, e, _) ==> off <= s < e <= b.len(),
{
    lemma_skip_ws_bounds(b, off);
    let p = if mode == LexerMode::Quote {
        off
    } else {
        skip_ws(b, off)
    };
    if p < b.len() {
        lemma_find_seq_bounds(b, p + 4, comment_close());
        lemma_find_byte_bounds(b, p, 62u8);
        lemma_find_byte_bounds(b, p, 60u8);
        lemma_ident_end_bounds(b, p);
        lemma_literal_end_bounds(b, p);
        if mode == LexerMode::Quote && b[p] != 34u8 {
            match literal_end(b, p) {
                Some(q) => {
                    assert(q != p);
                },
                None => {},
            }
        }
        if mode == LexerMode::Text && !occurs_at(b, p, close_tag_open()) && b[p] != 60u8 {
            assert(find_byte_from(b, p, 60u8) != Some(p));
        }
    }
}

/// A cursor over the input bytes.
#[derive(Debug)]
pub struct Input<'a> {
    pub bytes: &'a [u8],
    pub length: usize,
    pub offset: usize,
}

impl<'a> Input<'a> {
    pub open spec fn wf(&self) -> bool {
        self.length == self.bytes@.len() && self.offset <= self.length
    }

    pub fn new(bytes: &'a [u8]) -> (r: Self)
        ensures
            r.wf(),
            r.bytes@ == bytes@,
            r.offset == 0,
    {
        Input { bytes, length: bytes.len(), offset: 0 }
    }

    pub fn has_reached_eof(&self) -> (r: bool)
        ensures
            r == (self.offset >= self.length),
    {
        self.offset >= self.length
    }

    /// Moves forward by `n` bytes, stopping at the end of input.
    pub fn skip(&mut self, n: usize)
        requires
            old(self).wf(),
        ensures
            final(self).wf(),
            final(self).bytes@ == old(self).bytes@,
            final(self).offset == if old(self).offset + n >= old(self).length {
                old(self).length as int
            } else {
                old(self).offset + n
            },
    {
        if n >= self.length - self.offset {
            self.offset = self.length;
        } else {
            self.offset = self.offset + n;
        }
    }

    /// Moves forward by one byte unless at the end of input.
    pub fn next(&mut self)
        requires
            old(self).wf(),
        ensures
            final(self).wf(),
            final(self).bytes@ == old(self).bytes@,
            final(self).offset == if old(self).offset < old(self).length {
                old(self).offset + 1
            } else {
                old(self).offset as int
            },
    {
        if !self.has_reached_eof() {
            self.offset = self.offset + 1;
        }
    }

    /// Takes up to `n` bytes.
    pub fn consume(&mut self, n: usize) -> (r: &'a [u8])
        requires
            old(self).wf(),
        ensures
            final(self).wf(),
            final(self).bytes@ == old(self).bytes@,
            final(self).offset == if old(self).offset + n >= old(self).length {
                old(self).length as int
            } else {
                old(self).offset + n
            },
            r@ == old(self).bytes@.subrange(old(self).offset as int, final(self).offset as int),
    {
        let from = self.offset;
        self.skip(n);
        &self.bytes[from..self.offset]
    }

    /// Takes every byte that is left.
    pub fn consume_remaining(&mut self) -> (r: &'a [u8])
        requires
            old(self).wf(),
        ensures
            final(self).wf(),
            final(self).bytes@ == old(self).bytes@,
            final(self).offset == old(self).length,
            r@ == old(self).bytes@.subrange(old(self).offset as int, old(self).length as int),
    {
        let from = self.offset;
        self.offset = self.length;
        &self.bytes[from..self.length]
    }

    /// Moves past ASCII whitespace.
    pub fn consume_whitespace(&mut self)
        requires
            old(self).wf(),
        ensures
            final(self).wf(),
            final(self).bytes@ == old(self).bytes@,
            final(self).offset == skip_ws(old(self).bytes@, old(self).offset as int),
    {
        while self.offset < self.length && is_whitespace(self.bytes[self.offset])
            invariant
                self.wf(),
                self.bytes@ == old(self).bytes@,
                old(self).offset <= self.offset,
                skip_ws(self.bytes@, self.offset as int) == skip_ws(
                    old(self).bytes@,
                    old(self).offset as int,
                ),
            decreases self.length - self.offset,
        {
            self.offset = self.offset + 1;
        }
    }

    /// Do the bytes at the cursor read `search` (up to ASCII case when asked)?
    pub fn is_at(&self, search: &[u8], ignore_ascii_case: bool) -> (r: bool)
        requires
            self.wf(),
        ensures
            ignore_ascii_case ==> r == (self.offset + search@.len() <= self.length
                && eq_ignore_case(
                self.bytes@.subrange(self.offset as int, self.offset + search@.len()),
                search@,
            )),
            !ignore_ascii_case ==> r == occurs_at(self.bytes@, self.offset as int, search@),
    {
        if !ignore_ascii_case {
            return starts_at(self.bytes, self.offset, search);
        }
        if search.len() > self.length - self.offset {
            return false;
        }
        let mut i: usize = 0;
        while i < search.len()
            invariant
                self.wf(),
                self.offset + search@.len() <= self.length,
                i <= search@.len(),
                forall|j: int|
                    0 <= j < i ==> ascii_lower(#[trigger] self.bytes@[self.offset + j])
                        == ascii_lower(search@[j]),
            decreases search@.len() - i,
        {
            let a = self.bytes[self.offset + i];
            let c = search[i];
            let la = if 65 <= a && a <= 90 {
                a + 32
            } else {
                a
            };
            let lc = if 65 <= c && c <= 90 {
                c + 32
            } else {
                c
            };
            if la != lc {
                assert(self.bytes@.subrange(self.offset as int, self.offset + search@.len())[i as int]
                    == a);
                return false;
            }
            i = i + 1;
        }
        assert forall|j: int| 0 <= j < search@.len() implies ascii_lower(
            self.bytes@.subrange(self.offset as int, self.offset + search@.len())[j],
        ) == ascii_lower(search@[j]) by {
            assert(self.bytes@.subrange(self.offset as int, self.offset + search@.len())[j]
                == self.bytes@[self.offset + j]);
        }
        true
    }

    /// Moves to the next exact occurrence of `search`, or to the end of
    /// input, and returns the bytes passed over.
    pub fn consume_until(&mut self, search: &[u8]) -> (r: &'a [u8])
        requires
            old(self).wf(),
        ensures
            final(self).wf(),
            final(self).bytes@ == old(self).bytes@,
            final(self).offset == match find_seq_from(
                old(self).bytes@,
                old(self).offset as int,
                search@,
            ) {
                Some(q) => q,
                None => old(self).length as int,
            },
            r@ == old(self).bytes@.subrange(old(self).offset as int, final(self).offset as int),
    {
        let start = self.offset;
        proof {
            lemma_find_seq_bounds(self.bytes@, start as int, search@);
        }
        match find_seq(self.bytes, start, search) {
            Some(q) => {
                self.offset = q;
            },
            None => {
                self.offset = self.length;
            },
        }
        &self.bytes[start..self.offset]
    }
}

/// The lexer: a cursor and the current mode.
#[derive(Debug)]
pub struct Lexer<'input> {
    pub input: Input<'input>,
    pub mode: LexerMode,
}

impl<'input> Lexer<'input> {
    pub open spec fn wf(&self) -> bool {
        self.input.wf()
    }

    pub fn new(input: Input<'input>) -> (r: Self)
        requires
            input.wf(),
        ensures
            r.wf(),
            r.input == input,
            r.mode == LexerMode::Text,
    {
        Lexer { input, mode: LexerMode::Text }
    }

    fn token(&self, kind: TokenKind, start: usize, end: usize) -> (t: Token)
        requires
            start <= end <= self.input.bytes@.len(),
        ensures
            t.kind == kind,
            t.start == start,
            t.end == end,
            t.value@ == self.input.bytes@.subrange(start as int, end as int),
    {
        Token { kind, value: copy_range(self.input.bytes, start, end), start, end }
    }

    /// Scans the next token. `Ok(None)` at the end of input; an error for an
    /// unterminated comment, quoted value or self-closing sequence.
    pub fn advance(&mut self) -> (r: Result<Option<Token>, LexError>)
        requires
            old(self).wf(),
        ensures
            final(self).wf(),
            final(self).input.bytes@ == old(self).input.bytes@,
            old(self).input.offset <= final(self).input.offset,
            match scan(old(self).input.bytes@, old(self).input.offset as int, old(self).mode) {
                Scan::End => r == Ok::<Option<Token>, LexError>(None),
                Scan::Fail(e) => r == Err::<Option<Token>, LexError>(e),
                Scan::Emit(kind, s, e, m) => r matches Ok(Some(t)) && t.kind == kind && t.start
                    == s && t.end == e && t.value@ == old(self).input.bytes@.subrange(s, e)
                    && final(self).input.offset == e && final(self).mode == m,
            },
    {
        let ghost b = self.input.bytes@;
        let ghost off = self.input.offset as int;
        proof {
            lemma_skip_ws_bounds(b, off);
        }
        if self.mode != LexerMode::Quote {
            self.input.consume_whitespace();
        }
        let p = self.input.offset;
        if p >= self.input.length {
            return Ok(None);
        }
        let bytes = self.input.bytes;
        if starts_at(bytes, p, &[60u8, 33u8, 45u8, 45u8]) {
            proof {
                lemma_find_seq_bounds(b, p + 4, comment_close());
            }
            assert(seq![60u8, 33u8, 45u8, 45u8] == comment_open());
            match find_seq(bytes, p + 4, &[45u8, 45u8, 62u8]) {
                None => {
                    assert(seq![45u8, 45u8, 62u8] == comment_close());
                    return Err(LexError::UnterminatedComment);
                },
                Some(q) => {
                    assert(seq![45u8, 45u8, 62u8] == comment_close());
                    self.input.offset = q + 3;
                    return Ok(Some(self.token(TokenKind::Comment, p, q + 3)));
                },
            }
        }
        assert(seq![60u8, 33u8, 45u8, 45u8] == comment_open());
        let c = bytes[p];
        match self.mode {
            LexerMode::Quote => {
                if c == 34 {
                    self.input.offset = p + 1;
                    self.mode = LexerMode::Markup;
                    return Ok(Some(self.token(TokenKind::Quote, p, p + 1)));
                }
                let mut pos = p;
                loop
                    invariant
                        self.wf(),
                        b == old(self).input.bytes@,
                        off == old(self).input.offset,
                        old(self).mode == LexerMode::Quote,
                        self.mode == LexerMode::Quote,
                        p as int == off,
                        self.input.offset == p,
                        !occurs_at(b, p as int, comment_open()),
                        self.input.bytes@ == b,
                        bytes@ == b,
                        p <= pos <= b.len(),
                        p < b.len(),
                        b[p as int] != 34u8,
                        literal_end(b, p as int) == literal_end(b, pos as int),
                    decreases b.len() - pos,
                {
                    proof {
                        lemma_find_byte_bounds(b, pos as int, 34u8);
                    }
                    match find_byte(bytes, pos, 34u8) {
                        None => {
                            return Err(LexError::UnterminatedQuote);
                        },
                        Some(q) => {
                            if q > 0 && bytes[q - 1] == 92 {
                                pos = q + 1;
                            } else {
                                proof {
                                    lemma_literal_end_bounds(b, p as int);
                                }
                                self.input.offset = q;
                                return Ok(Some(self.token(TokenKind::Literal, p, q)));
                            }
                        },
                    }
                }
            },
            LexerMode::Markup => {
                if c == 62 {
                    self.input.offset = p + 1;
                    self.mode = LexerMode::Text;
                    return Ok(Some(self.token(TokenKind::GreaterThan, p, p + 1)));
                }
                if c == 47 {
                    proof {
                        lemma_find_byte_bounds(b, p as int, 62u8);
                    }
                    match find_byte(bytes, p, 62u8) {
                        None => {
                            return Err(LexError::UnterminatedSelfClose);
                        },
                        Some(q) => {
                            self.input.offset = q + 1;
                            self.mode = LexerMode::Text;
                            return Ok(Some(self.token(TokenKind::SlashGreaterThan, p, q + 1)));
                        },
                    }
                }
                if c == 61 {
                    self.input.offset = p + 1;
                    return Ok(Some(self.token(TokenKind::Equals, p, p + 1)));
                }
                if c == 34 {
                    self.input.offset = p + 1;
                    self.mode = LexerMode::Quote;
                    return Ok(Some(self.token(TokenKind::Quote, p, p + 1)));
                }
                let mut q = p;
                while q < self.input.length && !is_whitespace(bytes[q]) && bytes[q] != 61
                    && bytes[q] != 62 && bytes[q] != 47
                    invariant
                        self.wf(),
                        self.input.bytes@ == b,
                        bytes@ == b,
                        p <= q <= b.len(),
                        ident_end(b, p as int) == ident_end(b, q as int),
                    decreases b.len() - q,
                {
                    q = q + 1;
                }
                self.input.offset = q;
                Ok(Some(self.token(TokenKind::Identifier, p, q)))
            },
            LexerMode::Text => {
                if starts_at(bytes, p, &[60u8, 47u8]) {
                    assert(seq![60u8, 47u8] == close_tag_open());
                    self.input.offset = p + 2;
                    self.mode = LexerMode::Markup;
                    return Ok(Some(self.token(TokenKind::LessThanSlash, p, p + 2)));
                }
                assert(seq![60u8, 47u8] == close_tag_open());
                if c == 60 {
                    self.input.offset = p + 1;
                    self.mode = LexerMode::Markup;
                    return Ok(Some(self.token(TokenKind::LessThan, p, p + 1)));
                }
                proof {
                    lemma_find_byte_bounds(b, p as int, 60u8);
                }
                let q = match find_byte(bytes, p, 60u8) {
                    Some(q) => q,
                    None => self.input.length,
                };
                self.input.offset = q;
                Ok(Some(self.token(TokenKind::Text, p, q)))
            },
        }
    }
}

} // verus!
