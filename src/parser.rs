//! The state machine that assembles tokens into a provisional tree.
//!
//! The provisional tree is kept flat: elements in the order their opening
//! tags appear, each with the index of its parent, and the raw attributes in
//! the order they were written, each with the index of its element. The
//! children of an element are the elements whose parent it is, in order.
use vstd::prelude::*;

use crate::lexer::{lemma_scan_progress, LexError, Lexer, Input, LexerMode, Scan, scan};
use crate::token::TokenKind;

verus! {

#[derive(Clone, Copy, Debug, PartialEq, Eq, Structural)]
pub enum State {
    Text,
    TagOpen,
    TagName,
    AttributeName,
    AttributeEquals,
    AttributeValueOpeningQuote,
    AttributeValue,
    AttributeValueClosingQuote,
    TagClose,
    TagCloseName,
}

/// Why the token stream does not form a tree.
#[derive(Clone, Copy, Debug, PartialEq, Eq, Structural)]
pub enum SyntaxError {
    /// A token that the state has no transition for.
    Unexpected(State, TokenKind),
    /// A closing tag with no element open.
    UnopenedClosingTag,
    /// A closing tag whose name is not that of the open element.
    MismatchedClosingTag,
    /// A `/>` with no element open.
    UnopenedSelfClose,
}

/// An element of the provisional tree.
#[derive(Clone, Debug)]
pub struct RawElement {
    pub name: Vec<u8>,
    pub parent: Option<usize>,
}

/// An attribute as written, on the element with index `element`.
#[derive(Clone, Debug)]
pub struct RawAttribute {
    pub element: usize,
    pub name: Vec<u8>,
    pub value: Vec<u8>,
}

/// What the state machine holds, as mathematical values.
pub struct MachineView {
    pub state: State,
    pub names: Seq<Seq<u8>>,
    pub parents: Seq<Option<usize>>,
    pub attributes: Seq<(usize, Seq<u8>, Seq<u8>)>,
    pub stack: Seq<usize>,
    pub pending: Option<Seq<u8>>,
}

pub open spec fn initial_view() -> MachineView {
    MachineView {
        state: State::Text,
        names: Seq::empty(),
        parents: Seq::empty(),
        attributes: Seq::empty(),
        stack: Seq::empty(),
        pending: None,
    }
}

/// Every open element exists, and each element has its parent recorded.
pub open spec fn machine_wf(m: MachineView) -> bool {
    &&& m.names.len() == m.parents.len()
    &&& forall|i: int| 0 <= i < m.stack.len() ==> #[trigger] m.stack[i] < m.names.len()
    &&& forall|i: int|
        0 <= i < m.parents.len() ==> (#[trigger] m.parents[i] matches Some(p) ==> p < i)
    &&& forall|j: int| 0 <= j < m.attributes.len() ==> (#[trigger] m.attributes[j]).0 < m.names.len()
}

pub proof fn lemma_step_wf(m: MachineView, kind: TokenKind, text: Seq<u8>)
    requires
        machine_wf(m),
    ensures
        step(m, kind, text) matches Ok(m2) ==> machine_wf(m2),
{
}

/// Running the machine keeps it well formed.
pub proof fn lemma_run_wf(b: Seq<u8>, off: int, mode: LexerMode, m: MachineView)
    requires
        machine_wf(m),
    ensures
        run(b, off, mode, m) matches Ok(m2) ==> machine_wf(m2),
    decreases b.len() - off,
{
    match scan(b, off, mode) {
        Scan::Emit(kind, s, e, next) => {
            if off < e <= b.len() && 0 <= s <= e {
                lemma_step_wf(m, kind, b.subrange(s, e));
                match step(m, kind, b.subrange(s, e)) {
                    Ok(m2) => lemma_run_wf(b, e, next, m2),
                    Err(_) => {},
                }
            }
        },
        _ => {},
    }
}

/// Records the pending attribute with `value` on the innermost open element.
pub open spec fn commit(m: MachineView, value: Seq<u8>) -> MachineView {
    match m.pending {
        Some(n) => if m.stack.len() > 0 {
            MachineView {
                attributes: m.attributes.push((m.stack.last(), n, value)),
                pending: None,
                ..m
            }
        } else {
            MachineView { pending: None, ..m }
        },
        None => m,
    }
}

/// Closes the innermost open element.
pub open spec fn close(m: MachineView, next: State) -> Result<MachineView, SyntaxError> {
    if m.stack.len() == 0 {
        Err(SyntaxError::UnopenedSelfClose)
    } else {
        Ok(MachineView { stack: m.stack.drop_last(), state: next, ..m })
    }
}

/// One transition on a token of `kind` whose text is `text`.
pub open spec fn step(m: MachineView, kind: TokenKind, text: Seq<u8>) -> Result<
    MachineView,
    SyntaxError,
> {
    let s = m.state;
    if kind == TokenKind::Comment {
        Ok(m)
    } else if s == State::Text && kind == TokenKind::Text {
        Ok(m)
    } else if s == State::Text && kind == TokenKind::LessThan {
        Ok(MachineView { state: State::TagOpen, ..m })
    } else if s == State::Text && kind == TokenKind::LessThanSlash {
        Ok(MachineView { state: State::TagClose, ..m })
    } else if s == State::TagOpen && kind == TokenKind::Identifier {
        Ok(
            MachineView {
                state: State::TagName,
                names: m.names.push(text),
                parents: m.parents.push(
                    if m.stack.len() > 0 {
                        Some(m.stack.last())
                    } else {
                        None
                    },
                ),
                stack: m.stack.push(m.names.len() as usize),
                ..m
            },
        )
    } else if (s == State::TagName || s == State::AttributeValueClosingQuote) && kind
        == TokenKind::Identifier {
        Ok(MachineView { state: State::AttributeName, pending: Some(text), ..m })
    } else if s == State::AttributeName && kind == TokenKind::Identifier {
        Ok(
            MachineView {
                state: State::AttributeName,
                pending: Some(text),
                ..commit(m, Seq::empty())
            },
        )
    } else if s == State::AttributeName && kind == TokenKind::Equals {
        Ok(MachineView { state: State::AttributeEquals, ..m })
    } else if s == State::AttributeEquals && kind == TokenKind::Quote {
        Ok(MachineView { state: State::AttributeValueOpeningQuote, ..m })
    } else if s == State::AttributeValueOpeningQuote && kind == TokenKind::Literal {
        Ok(MachineView { state: State::AttributeValue, ..commit(m, text) })
    } else if s == State::AttributeValueOpeningQuote && kind == TokenKind::Quote {
        Ok(MachineView { state: State::AttributeValueClosingQuote, ..commit(m, Seq::empty()) })
    } else if s == State::AttributeValue && kind == TokenKind::Quote {
        Ok(MachineView { state: State::AttributeValueClosingQuote, ..m })
    } else if (s == State::TagName || s == State::AttributeValueClosingQuote) && kind
        == TokenKind::GreaterThan {
        Ok(MachineView { state: State::Text, ..m })
    } else if s == State::AttributeName && kind == TokenKind::GreaterThan {
        Ok(MachineView { state: State::Text, ..commit(m, Seq::empty()) })
    } else if (s == State::TagName || s == State::AttributeValueClosingQuote) && kind
        == TokenKind::SlashGreaterThan {
        close(m, State::Text)
    } else if s == State::AttributeName && kind == TokenKind::SlashGreaterThan {
        close(commit(m, Seq::empty()), State::Text)
    } else if s == State::TagClose && kind == TokenKind::Identifier {
        if m.stack.len() == 0 {
            Err(SyntaxError::UnopenedClosingTag)
        } else if m.names[m.stack.last() as int] != text {
            Err(SyntaxError::MismatchedClosingTag)
        } else {
            close(m, State::TagCloseName)
        }
    } else if s == State::TagCloseName && kind == TokenKind::GreaterThan {
        Ok(MachineView { state: State::Text, ..m })
    } else {
        Err(SyntaxError::Unexpected(s, kind))
    }
}

/// Why a document could not be read into a provisional tree.
#[derive(Clone, Copy, Debug, PartialEq, Eq, Structural)]
pub enum TreeError {
    Lex(LexError),
    Syntax(SyntaxError),
    /// The input ended with an element still open.
    UnclosedTag,
}

/// Lexes `b` from `off` in `mode` and runs the machine from `m` over the
/// tokens, up to the end of input or the first error.
pub open spec fn run(b: Seq<u8>, off: int, mode: LexerMode, m: MachineView) -> Result<
    MachineView,
    TreeError,
>
    decreases b.len() - off,
{
    match scan(b, off, mode) {
        Scan::End => Ok(m),
        Scan::Fail(e) => Err(TreeError::Lex(e)),
        Scan::Emit(kind, s, e, next) => if off < e <= b.len() && 0 <= s <= e {
            match step(m, kind, b.subrange(s, e)) {
                Ok(m2) => run(b, e, next, m2),
                Err(x) => Err(TreeError::Syntax(x)),
            }
        } else {
            Ok(m)
        },
    }
}

/// The provisional tree of `b`: the machine run over all of it, which must
/// end with every element closed.
pub open spec fn provisional_tree(b: Seq<u8>) -> Result<MachineView, TreeError> {
    match run(b, 0, LexerMode::Text, initial_view()) {
        Ok(m) => if m.stack.len() == 0 {
            Ok(m)
        } else {
            Err(TreeError::UnclosedTag)
        },
        Err(e) => Err(e),
    }
}

/// The state machine.
pub struct StateMachine {
    pub state: State,
    pub elements: Vec<RawElement>,
    pub attributes: Vec<RawAttribute>,
    pub stack: Vec<usize>,
    pub pending: Option<Vec<u8>>,
}

pub open spec fn raw_attribute_view(a: RawAttribute) -> (usize, Seq<u8>, Seq<u8>) {
    (a.element, a.name@, a.value@)
}

impl StateMachine {
    pub open spec fn view(&self) -> MachineView {
        MachineView {
            state: self.state,
            names: self.elements@.map_values(|e: RawElement| e.name@),
            parents: self.elements@.map_values(|e: RawElement| e.parent),
            attributes: self.attributes@.map_values(|a: RawAttribute| raw_attribute_view(a)),
            stack: self.stack@,
            pending: match self.pending {
                Some(p) => Some(p@),
                None => None,
            },
        }
    }

    pub fn new() -> (r: StateMachine)
        ensures
            r.view() == initial_view(),
    {
        let r = StateMachine {
            state: State::Text,
            elements: Vec::new(),
            attributes: Vec::new(),
            stack: Vec::new(),
            pending: None,
        };
        assert(r.view().names =~= Seq::<Seq<u8>>::empty());
        assert(r.view().parents =~= Seq::<Option<usize>>::empty());
        assert(r.view().attributes =~= Seq::<(usize, Seq<u8>, Seq<u8>)>::empty());
        r
    }

    fn commit(&mut self, value: Vec<u8>)
        ensures
            final(self).view() == commit(old(self).view(), value@),
    {
        let ghost m = self.view();
        match self.pending.take() {
            Some(n) => {
                if self.stack.len() > 0 {
                    let top = self.stack[self.stack.len() - 1];
                    let ghost before = self.attributes@;
                    self.attributes.push(RawAttribute { element: top, name: n, value });
                    assert(self.view().attributes =~= m.attributes.push((m.stack.last(), m.pending->0, value@)));
                }
                assert(self.view().names =~= m.names);
                assert(self.view().parents =~= m.parents);
                assert(self.view() =~= commit(m, value@));
            },
            None => {},
        }
    }

    fn close(&mut self, next: State) -> (r: Result<(), SyntaxError>)
        ensures
            match close(old(self).view(), next) {
                Ok(m) => r is Ok && final(self).view() == m,
                Err(e) => r == Err::<(), SyntaxError>(e),
            },
    {
        let ghost m = self.view();
        match self.stack.pop() {
            Some(_) => {
                self.state = next;
                assert(self.view() =~= MachineView { stack: m.stack.drop_last(), state: next, ..m });
                Ok(())
            },
            None => Err(SyntaxError::UnopenedSelfClose),
        }
    }

    /// Takes one token of `kind` with text `text`.
    pub fn consume(&mut self, kind: TokenKind, text: Vec<u8>) -> (r: Result<(), SyntaxError>)
        requires
            machine_wf(old(self).view()),
        ensures
            match step(old(self).view(), kind, text@) {
                Ok(m) => r is Ok && final(self).view() == m && machine_wf(m),
                Err(e) => r == Err::<(), SyntaxError>(e),
            },
    {
        let ghost m = self.view();
        let s = self.state;
        if kind == TokenKind::Comment {
            return Ok(());
        }
        if s == State::Text && kind == TokenKind::Text {
            return Ok(());
        }
        if s == State::Text && kind == TokenKind::LessThan {
            self.state = State::TagOpen;
            return Ok(());
        }
        if s == State::Text && kind == TokenKind::LessThanSlash {
            self.state = State::TagClose;
            return Ok(());
        }
        if s == State::TagOpen && kind == TokenKind::Identifier {
            let parent = if self.stack.len() > 0 {
                Some(self.stack[self.stack.len() - 1])
            } else {
                None
            };
            let index = self.elements.len();
            self.elements.push(RawElement { name: text, parent });
            self.stack.push(index);
            self.state = State::TagName;
            assert(self.view().names =~= m.names.push(text@));
            assert(self.view().parents =~= m.parents.push(parent));
            assert(self.view().attributes =~= m.attributes);
            return Ok(());
        }
        if (s == State::TagName || s == State::AttributeValueClosingQuote) && kind
            == TokenKind::Identifier {
            self.pending = Some(text);
            self.state = State::AttributeName;
            return Ok(());
        }
        if s == State::AttributeName && kind == TokenKind::Identifier {
            self.commit(Vec::new());
            self.pending = Some(text);
            self.state = State::AttributeName;
            return Ok(());
        }
        if s == State::AttributeName && kind == TokenKind::Equals {
            self.state = State::AttributeEquals;
            return Ok(());
        }
        if s == State::AttributeEquals && kind == TokenKind::Quote {
            self.state = State::AttributeValueOpeningQuote;
            return Ok(());
        }
        if s == State::AttributeValueOpeningQuote && kind == TokenKind::Literal {
            self.commit(text);
            self.state = State::AttributeValue;
            return Ok(());
        }
        if s == State::AttributeValueOpeningQuote && kind == TokenKind::Quote {
            self.commit(Vec::new());
            self.state = State::AttributeValueClosingQuote;
            return Ok(());
        }
        if s == State::AttributeValue && kind == TokenKind::Quote {
            self.state = State::AttributeValueClosingQuote;
            return Ok(());
        }
        if (s == State::TagName || s == State::AttributeValueClosingQuote) && kind
            == TokenKind::GreaterThan {
            self.state = State::Text;
            return Ok(());
        }
        if s == State::AttributeName && kind == TokenKind::GreaterThan {
            self.commit(Vec::new());
            self.state = State::Text;
            return Ok(());
        }
        if (s == State::TagName || s == State::AttributeValueClosingQuote) && kind
            == TokenKind::SlashGreaterThan {
            return self.close(State::Text);
        }
        if s == State::AttributeName && kind == TokenKind::SlashGreaterThan {
            self.commit(Vec::new());
            return self.close(State::Text);
        }
        if s == State::TagClose && kind == TokenKind::Identifier {
            if self.stack.len() == 0 {
                return Err(SyntaxError::UnopenedClosingTag);
            }
            let top = self.stack[self.stack.len() - 1];
            if top >= self.elements.len() {
                return Err(SyntaxError::UnopenedClosingTag);
            }
            if !crate::bytes::bytes_eq(self.elements[top].name.as_slice(), text.as_slice()) {
                return Err(SyntaxError::MismatchedClosingTag);
            }
            return self.close(State::TagCloseName);
        }
        if s == State::TagCloseName && kind == TokenKind::GreaterThan {
            self.state = State::Text;
            return Ok(());
        }
        Err(SyntaxError::Unexpected(s, kind))
    }
}

/// The provisional tree: its elements and raw attributes.
pub struct ProvisionalTree {
    pub elements: Vec<RawElement>,
    pub attributes: Vec<RawAttribute>,
}

impl ProvisionalTree {
    pub open spec fn names(&self) -> Seq<Seq<u8>> {
        self.elements@.map_values(|e: RawElement| e.name@)
    }

    pub open spec fn parents(&self) -> Seq<Option<usize>> {
        self.elements@.map_values(|e: RawElement| e.parent)
    }

    pub open spec fn raw_attributes(&self) -> Seq<(usize, Seq<u8>, Seq<u8>)> {
        self.attributes@.map_values(|a: RawAttribute| raw_attribute_view(a))
    }

    /// Does this tree hold what the machine view `m` holds?
    pub open spec fn matches(&self, m: MachineView) -> bool {
        &&& self.names() == m.names
        &&& self.parents() == m.parents
        &&& self.raw_attributes() == m.attributes
    }
}

/// Lexes `input` and runs the state machine over its tokens. Fails on the
/// first lexical or syntax error, or when an element is left open.
pub fn parse_tree(input: &[u8]) -> (r: Result<ProvisionalTree, TreeError>)
    ensures
        match provisional_tree(input@) {
            Ok(m) => r matches Ok(t) && t.matches(m) && machine_wf(m) && m.stack.len() == 0,
            Err(e) => r == Err::<ProvisionalTree, TreeError>(e),
        },
{
    let mut lexer = Lexer::new(Input::new(input));
    let mut machine = StateMachine::new();
    let ghost b = input@;
    proof {
        lemma_run_wf(b, 0, LexerMode::Text, initial_view());
    }
    loop
        invariant
            lexer.wf(),
            lexer.input.bytes@ == b,
            b == input@,
            machine_wf(machine.view()),
            run(b, lexer.input.offset as int, lexer.mode, machine.view()) == run(
                b,
                0,
                LexerMode::Text,
                initial_view(),
            ),
        decreases b.len() - lexer.input.offset,
    {
        let ghost off = lexer.input.offset as int;
        let ghost mode = lexer.mode;
        proof {
            lemma_scan_progress(b, off, mode);
        }
        let ghost m = machine.view();
        match lexer.advance() {
            Err(e) => {
                assert(run(b, off, mode, m) == Err::<MachineView, TreeError>(TreeError::Lex(e)));
                return Err(TreeError::Lex(e));
            },
            Ok(None) => {
                assert(run(b, off, mode, m) == Ok::<MachineView, TreeError>(m));
                if machine.stack.len() > 0 {
                    return Err(TreeError::UnclosedTag);
                }
                let t = ProvisionalTree { elements: machine.elements, attributes: machine.attributes };
                return Ok(t);
            },
            Ok(Some(token)) => {
                let ghost text = token.value@;
                match machine.consume(token.kind, token.value) {
                    Ok(()) => {},
                    Err(x) => {
                        assert(run(b, off, mode, m) == Err::<MachineView, TreeError>(
                            TreeError::Syntax(x),
                        ));
                        return Err(TreeError::Syntax(x));
                    },
                }
            },
        }
    }
}

} // verus!
