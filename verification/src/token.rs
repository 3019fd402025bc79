//! Raw argument tokens and the cursor of not-yet-consumed tokens.
//!
//! The operating system hands a program its arguments as native strings
//! that need not be valid Unicode.  The dispatch engine only ever matches
//! structural elements (command names, help tokens), which are defined to
//! be ASCII, so a token is either proper text or an opaque non-Unicode
//! value carried along with its lossy rendering for error messages.

use vstd::prelude::*;

verus! {

/// The mathematical value of one argument token.
pub enum TokenView {
    /// A token that is valid Unicode text.
    Text(Seq<char>),
    /// A token that is not valid Unicode; the sequence is its lossy
    /// rendering, used only for error messages.
    NotUnicode(Seq<char>),
}

impl TokenView {
    /// The characters shown for this token in diagnostics.
    pub open spec fn display(self) -> Seq<char> {
        match self {
            TokenView::Text(s) => s,
            TokenView::NotUnicode(s) => s,
        }
    }
}

/// One raw argument token.
#[derive(Debug, PartialEq, Eq)]
pub enum Token {
    /// A token that is valid Unicode text.
    Text(String),
    /// A token that is not valid Unicode, holding its lossy rendering.
    NotUnicode(String),
}

impl View for Token {
    type V = TokenView;

    open spec fn view(&self) -> TokenView {
        match self {
            Token::Text(s) => TokenView::Text(s@),
            Token::NotUnicode(s) => TokenView::NotUnicode(s@),
        }
    }
}

impl DeepView for Token {
    type V = TokenView;

    open spec fn deep_view(&self) -> TokenView {
        self.view()
    }
}

impl Token {
    /// The characters shown for this token in diagnostics.
    pub fn display(&self) -> (r: &str)
        ensures
            r@ == self@.display(),
    {
        match self {
            Token::Text(s) => s.as_str(),
            Token::NotUnicode(s) => s.as_str(),
        }
    }

    /// The characters shown for this token in diagnostics, as an owned
    /// string.
    pub fn into_display(self) -> (r: String)
        ensures
            r@ == self@.display(),
    {
        match self {
            Token::Text(s) => s,
            Token::NotUnicode(s) => s,
        }
    }
}

/// The mutable, movable sequence of not-yet-consumed argument tokens.
///
/// Ownership of the cursor transfers wholesale into whichever tree layer
/// matches; it is never duplicated.
pub struct Cursor {
    toks: Vec<Token>,
}

impl View for Cursor {
    type V = Seq<TokenView>;

    closed spec fn view(&self) -> Seq<TokenView> {
        self.toks.deep_view()
    }
}

impl Cursor {
    /// Wraps a vector of tokens, the first element being the next token.
    pub fn new(toks: Vec<Token>) -> (r: Cursor)
        ensures
            r@ == toks.deep_view(),
    {
        Cursor { toks }
    }

    /// True if no tokens remain.
    pub fn is_empty(&self) -> (r: bool)
        ensures
            r == (self@.len() == 0),
    {
        self.toks.len() == 0
    }

    /// Removes and returns the next token.
    pub fn next(&mut self) -> (r: Token)
        requires
            old(self)@.len() > 0,
        ensures
            r@ == old(self)@[0],
            final(self)@ == old(self)@.drop_first(),
    {
        let t = self.toks.remove(0);
        proof {
            assert(final(self)@ =~= old(self)@.drop_first());
        }
        t
    }
}

} // verus!
