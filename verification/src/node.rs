//! The command tree: leaves, branches, token matching and help rendering.
//!
//! A tree level is a chain of layers, oldest first: the [`Help`] leaf with
//! the level's description at the far end, wrapped by one [`Cmd`] branch
//! per declared subcommand.  Matching walks the chain oldest-first, so
//! earlier-declared subcommands take precedence; help fragments render in
//! the same order.

use vstd::prelude::*;
use vstd::string::*;

use crate::name::valid_cmd_name;
use crate::token::{Cursor, Token, TokenView};
use crate::{Branch, Clot, OutcomeView};

verus! {

/// The leaf layer of a level: the free-text description of the
/// (sub)command, set once at construction.
pub struct Help {
    pub text: String,
}

impl Help {
    /// Wraps a description string as a leaf layer.
    pub fn new(help: &str) -> (r: Help)
        ensures
            r.text@ == help@,
    {
        Help { text: help.to_owned() }
    }
}

/// A branch layer: one declared subcommand.  It owns the chain of the
/// layers declared before it and the subcommand's own complete subtree.
pub struct Cmd {
    /// The layers declared before this one at the same level.
    pub prev: Box<Node>,
    /// The subcommand's name.
    pub name: String,
    /// The subcommand's own tree.
    pub sub: Box<Clot>,
}

impl Cmd {
    /// Wraps the layers declared so far in a branch layer declaring the
    /// subcommand `name` with subtree `sub`.
    pub fn new(prev: Node, name: &str, sub: Clot) -> (r: Cmd)
        ensures
            *r.prev == prev,
            r.name@ == name@,
            *r.sub == sub,
    {
        Cmd { prev: Box::new(prev), name: name.to_owned(), sub: Box::new(sub) }
    }
}

/// One layer of a tree level.  The set of layers is closed: trees are
/// composed only through the builder API on [`Clot`].
pub enum Node {
    /// The leaf layer holding the level's description.
    Help(Help),
    /// A branch layer holding one declared subcommand.
    Cmd(Cmd),
}

impl Node {
    /// Well-formedness of a chain: every declared name is a valid command
    /// name and every subtree is itself well-formed.
    pub open spec fn wf(self) -> bool
        decreases self,
    {
        match self {
            Node::Help(_) => true,
            Node::Cmd(c) => (*c.prev).wf() && valid_cmd_name(c.name@) && (*c.sub).wf(),
        }
    }

    /// The description text at the leaf of this chain.
    pub open spec fn spec_help_text(self) -> Seq<char>
        decreases self,
    {
        match self {
            Node::Help(h) => h.text@,
            Node::Cmd(c) => (*c.prev).spec_help_text(),
        }
    }

    /// The description text at the leaf of this chain.
    pub fn get_help_text(&self) -> (r: &str)
        ensures
            r@ == self.spec_help_text(),
        decreases self,
    {
        match self {
            Node::Help(h) => h.text.as_str(),
            Node::Cmd(c) => c.prev.get_help_text(),
        }
    }

    /// The lines of the `Commands:` help section for this chain, oldest
    /// layer first: the synthetic help entry, then one entry per declared
    /// subcommand in declaration order.
    pub open spec fn spec_cmds_text(self, has_fields: bool) -> Seq<char>
        decreases self,
    {
        match self {
            Node::Help(_) => if has_fields {
                "   --help\n      Display this help message\n"@
            } else {
                "   help, --help\n      Display this help message\n"@
            },
            Node::Cmd(c) => (*c.prev).spec_cmds_text(has_fields) + (if has_fields {
                "   --"@
            } else {
                "   "@
            }) + c.name@ + "\n      "@ + (*c.sub).opts.spec_help_text() + "\n"@,
        }
    }

    /// Renders the `Commands:` help section for this chain.
    pub fn help_cmds(&self, has_fields: bool) -> (r: String)
        ensures
            r@ == self.spec_cmds_text(has_fields),
        decreases self,
    {
        match self {
            Node::Help(_) => {
                if has_fields {
                    String::from_str("   --help\n      Display this help message\n")
                } else {
                    String::from_str("   help, --help\n      Display this help message\n")
                }
            },
            Node::Cmd(c) => {
                let mut s = c.prev.help_cmds(has_fields);
                if has_fields {
                    s.append("   --");
                } else {
                    s.append("   ");
                }
                s.append(c.name.as_str());
                s.append("\n      ");
                s.append(c.sub.opts.get_help_text());
                s.append("\n");
                proof {
                    assert(s@ =~= self.spec_cmds_text(has_fields));
                }
                s
            },
        }
    }
}

impl Node {
    /// The outcome of offering one non-help token to this chain, oldest
    /// layer first: `None` if no layer's name matches, `Some(o)` if a
    /// layer matched and dispatching the remaining tokens into its
    /// subtree (under the matched name as program name) came out as `o`.
    pub open spec fn spec_branch(
        self,
        t: TokenView,
        has_fields: bool,
        rest: Seq<TokenView>,
    ) -> Option<OutcomeView>
        decreases self,
    {
        match self {
            Node::Help(_) => None,
            Node::Cmd(c) => match (*c.prev).spec_branch(t, has_fields, rest) {
                Some(o) => Some(o),
                None => if spec_matches_name(t, has_fields, c.name@) {
                    Some((*c.sub).spec_dispatch(c.name@, rest))
                } else {
                    None
                },
            },
        }
    }

    /// Offers one token to this chain: the earlier-declared layers try
    /// first; on a match the remaining cursor is handed into the matched
    /// subcommand's subtree and the walk terminates.
    pub fn branch(&self, what: &Token, has_fields: bool, args: Cursor) -> (r: Branch)
        requires
            self.wf(),
        ensures
            (match r {
                Branch::Unmatched(c) => {
                    &&& c@ == args@
                    &&& self.spec_branch(what@, has_fields, args@) is None
                },
                Branch::Terminated(o) => Some(o@) == self.spec_branch(what@, has_fields, args@),
                Branch::HelpRequested(_) => false,
            }),
        decreases self, 0int,
    {
        match self {
            Node::Help(_) => Branch::Unmatched(args),
            Node::Cmd(c) => {
                let args = match c.prev.branch(what, has_fields, args) {
                    Branch::Unmatched(a) => a,
                    Branch::HelpRequested(a) => a,
                    Branch::Terminated(o) => {
                        return Branch::Terminated(o);
                    },
                };
                if matches_name(what, has_fields, c.name.as_str()) {
                    Branch::Terminated(c.sub.execute_with(c.name.as_str(), args))
                } else {
                    Branch::Unmatched(args)
                }
            },
        }
    }
}

/// Renders the full help text for one tree level: the description, the
/// usage synopsis, then the list of everything selectable at this level.
pub fn help(clot: &Clot, program: &str) -> (r: String)
    ensures
        r@ == clot.spec_help(program@),
{
    let has_fields = clot.has_fields();
    let mut s = String::new();
    s.append(clot.opts.get_help_text());
    s.append("\n\nUsage:\n");
    if has_fields {
        s.append(program);
        s.append(" [OPTIONS] [FIELDS] [OPTIONS]\n");
    }
    s.append("   ");
    s.append(program);
    s.append(" [COMMAND] ...\n\n");
    s.append("Commands:\n");
    let cmds = clot.opts.help_cmds(has_fields);
    s.append(cmds.as_str());
    s.append("\n");
    proof {
        assert(s@ =~= clot.spec_help(program@));
    }
    s
}

/// True if `t` is the help token recognized at a level: `--help` always,
/// and bare `help` as well when the level declares no positional fields
/// (with fields, `help` could be a legitimate field value).
pub open spec fn spec_is_help(t: TokenView, has_fields: bool) -> bool {
    match t {
        TokenView::Text(s) => if has_fields {
            s == "--help"@
        } else {
            s == "help"@ || s == "--help"@
        },
        TokenView::NotUnicode(_) => false,
    }
}

/// Decides [`spec_is_help`] for a token.
pub fn is_help(t: &Token, has_fields: bool) -> (r: bool)
    ensures
        r == spec_is_help(t@, has_fields),
{
    match t {
        Token::Text(s) => {
            if has_fields {
                str_eq(s.as_str(), "--help")
            } else {
                str_eq(s.as_str(), "help") || str_eq(s.as_str(), "--help")
            }
        },
        Token::NotUnicode(_) => false,
    }
}

/// True if token `t` selects a subcommand named `name`: the bare name at
/// a level without positional fields, the `--`-prefixed name at a level
/// with them (disambiguating the name from a field value).  A token that
/// is not valid Unicode never matches, since names are ASCII.
pub open spec fn spec_matches_name(t: TokenView, has_fields: bool, name: Seq<char>) -> bool {
    match t {
        TokenView::Text(s) => if has_fields {
            &&& s.len() == name.len() + 2
            &&& s[0] == '-'
            &&& s[1] == '-'
            &&& s.subrange(2, s.len() as int) == name
        } else {
            s == name
        },
        TokenView::NotUnicode(_) => false,
    }
}

/// Decides [`spec_matches_name`] for a token.
pub fn matches_name(t: &Token, has_fields: bool, name: &str) -> (r: bool)
    ensures
        r == spec_matches_name(t@, has_fields, name@),
{
    match t {
        Token::Text(s) => {
            let sl = s.as_str();
            if has_fields {
                let n = sl.unicode_len();
                if n < 2 {
                    return false;
                }
                if sl.get_char(0) != '-' || sl.get_char(1) != '-' {
                    return false;
                }
                let rest = sl.substring_char(2, n);
                str_eq(rest, name)
            } else {
                str_eq(sl, name)
            }
        },
        Token::NotUnicode(_) => false,
    }
}

/// Character-wise string equality.
pub fn str_eq(a: &str, b: &str) -> (r: bool)
    ensures
        r == (a@ == b@),
{
    let n = a.unicode_len();
    if n != b.unicode_len() {
        return false;
    }
    let mut i: usize = 0;
    while i < n
        invariant
            i <= n,
            n == a@.len(),
            n == b@.len(),
            forall|j: int| 0 <= j < i ==> a@[j] == b@[j],
        decreases n - i,
    {
        if a.get_char(i) != b.get_char(i) {
            return false;
        }
        i = i + 1;
    }
    proof {
        assert(a@ =~= b@);
    }
    true
}

} // verus!
