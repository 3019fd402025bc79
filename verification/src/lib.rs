//! A small, macro-free library for declaring hierarchical command-line
//! interfaces and dispatching an argument vector against them.
//!
//! A command tree is assembled by ordinary function calls ([`Clot::new`],
//! [`Clot::cmd`], [`Clot::run`], ...), and [`Clot::execute_with`] walks a
//! sequence of raw argument tokens against that tree.  The walk either
//! selects a terminal handler, renders hierarchical help text, or reports
//! the first unexpected argument; the surrounding program performs the
//! actual printing and handler invocation, so the whole engine is a pure
//! function from tree and tokens to an [`Outcome`].
//!
//! There are exactly four kinds of arguments:
//!
//!  - commands: named subtrees, selected by their lowercase
//!    `-`-separated names;
//!  - fields: positional values;
//!  - parameters: named `--name value` pairs;
//!  - flags: single lowercase letters.
//!
//! Every level answers `--help`, and levels without positional fields
//! answer bare `help` as well.

use vstd::prelude::*;
use vstd::string::*;

mod name;
pub mod flags;
pub mod laws;
pub mod node;
pub mod os_str;
pub mod params;
pub mod token;

use crate::node::{help, is_help, Node};
use crate::token::{Cursor, Token, TokenView};

verus! {

pub use crate::name::name_is_valid;
pub use crate::name::valid_cmd_name;

/// The mathematical value of a dispatch result.
pub enum OutcomeView {
    /// Help was requested or nothing was selectable: this text is to be
    /// printed.
    Help(Seq<char>),
    /// The terminal handler registered under this tag is to run,
    /// exactly once.
    Run(u64),
    /// A token matched nothing: the display form of the offending token,
    /// with the program name for the retry hint.  No handler runs.
    Unexpected { program: Seq<char>, arg: Seq<char> },
}

/// The result of dispatching an argument sequence against a tree.
#[derive(Debug, PartialEq, Eq)]
pub enum Outcome {
    /// Help text to print.
    Help(String),
    /// The terminal handler registered under this tag is to run.
    Run(u64),
    /// The display form of an unexpected token, with the program name
    /// for the retry hint.
    Unexpected { program: String, arg: String },
}

impl View for Outcome {
    type V = OutcomeView;

    open spec fn view(&self) -> OutcomeView {
        match self {
            Outcome::Help(s) => OutcomeView::Help(s@),
            Outcome::Run(t) => OutcomeView::Run(*t),
            Outcome::Unexpected { program, arg } => OutcomeView::Unexpected {
                program: program@,
                arg: arg@,
            },
        }
    }
}

/// The three-way result of offering one token to a tree level.
pub enum Branch {
    /// The token is not a known command at this level; the cursor comes
    /// back unchanged for error reporting.
    Unmatched(Cursor),
    /// The token is the level's help token; the cursor comes back so the
    /// driver can check for trailing unexpected tokens.
    HelpRequested(Cursor),
    /// A matched subcommand consumed the rest of the cursor; nothing is
    /// left to do but hand the outcome up.
    Terminated(Outcome),
}

/// The read-only view of resolved options handed to a terminal handler.
/// Resolution of typed values is out of the engine's scope, so every
/// query answers "absent".
pub trait Opts {
    /// True if flag `c` was set.
    fn flag(&self, c: char) -> (r: bool)
        ensures
            r == false,
    ;

    /// The last value supplied for parameter `p`.
    fn param(&self, p: &str) -> (r: Option<String>)
        ensures
            r is None,
    ;

    /// The value of the positional field with index `f`.
    fn field(&self, f: usize) -> (r: Option<String>)
        ensures
            r is None,
    ;
}

impl Opts for Node {
    fn flag(&self, c: char) -> (r: bool) {
        false
    }

    fn param(&self, p: &str) -> (r: Option<String>) {
        None
    }

    fn field(&self, f: usize) -> (r: Option<String>) {
        None
    }
}

/// One level of a command tree: the chain of declared layers, the
/// metadata declared at this level, and the optional terminal handler,
/// named by a caller-chosen token.
pub struct Clot {
    /// The chain of layers at this level, newest declaration outermost.
    pub opts: Node,
    /// The tag of the terminal handler to run when this level is
    /// reached with no further arguments, if one was registered.
    pub cmd_fn: Option<u64>,
    /// How many positional fields this level declares.
    pub fields: usize,
    /// The flag letters this level declares, in declaration order.
    pub flags: Vec<char>,
    /// The parameter names this level declares, in declaration order.
    pub params: Vec<String>,
}

impl Clot {
    /// Well-formedness: every name in the tree is a valid command name
    /// and every declared flag is a lowercase letter.
    pub open spec fn wf(self) -> bool
        decreases self,
    {
        &&& self.opts.wf()
        &&& forall|i: int|
            0 <= i < self.flags.len() ==> 'a' <= #[trigger] self.flags[i] && self.flags[i] <= 'z'
    }

    /// The description text of this level.
    pub open spec fn spec_desc(self) -> Seq<char> {
        self.opts.spec_help_text()
    }

    /// True if this level declares positional fields.
    pub open spec fn spec_has_fields(self) -> bool {
        self.fields > 0
    }

    /// True if this level declares flags.
    pub open spec fn spec_has_flags(self) -> bool {
        self.flags.len() > 0
    }

    /// True if this level declares parameters.
    pub open spec fn spec_has_params(self) -> bool {
        self.params.len() > 0
    }

    /// The full help text of this level under program name `program`:
    /// the description, a usage synopsis (with an options-and-fields line
    /// only at a field-bearing level), and the `Commands:` section.
    pub open spec fn spec_help(self, program: Seq<char>) -> Seq<char> {
        self.spec_desc() + "\n\nUsage:\n"@ + (if self.spec_has_fields() {
            program + " [OPTIONS] [FIELDS] [OPTIONS]\n"@
        } else {
            Seq::<char>::empty()
        }) + "   "@ + program + " [COMMAND] ...\n\n"@ + "Commands:\n"@
            + self.opts.spec_cmds_text(self.spec_has_fields()) + "\n"@
    }

    /// The outcome of dispatching `toks` against this level under
    /// program name `program`.
    pub open spec fn spec_dispatch(
        self,
        program: Seq<char>,
        toks: Seq<TokenView>,
    ) -> OutcomeView
        decreases self,
    {
        let has_fields = self.spec_has_fields();
        if toks.len() == 0 {
            match self.cmd_fn {
                Some(t) => OutcomeView::Run(t),
                None => OutcomeView::Help(self.spec_help(program)),
            }
        } else if crate::node::spec_is_help(toks[0], has_fields) {
            if toks.len() == 1 {
                OutcomeView::Help(self.spec_help(program))
            } else {
                OutcomeView::Unexpected { program, arg: toks[1].display() }
            }
        } else {
            match self.opts.spec_branch(toks[0], has_fields, toks.drop_first()) {
                Some(o) => o,
                None => OutcomeView::Unexpected { program, arg: toks[0].display() },
            }
        }
    }

    /// Creates a new command tree level carrying description `help`.
    pub fn new(help: &str) -> (r: Clot)
        ensures
            r.wf(),
            r.opts matches Node::Help(h) && h.text@ == help@,
            r.spec_desc() == help@,
            r.cmd_fn is None,
            r.fields == 0,
            r.flags@ == Seq::<char>::empty(),
            r.params@.len() == 0,
    {
        Clot {
            opts: Node::Help(crate::node::Help::new(help)),
            cmd_fn: None,
            fields: 0,
            flags: Vec::new(),
            params: Vec::new(),
        }
    }

    /// Registers the handler tag to report when this exact level is
    /// reached with no further arguments, in place of help text.
    pub fn run(self, f: u64) -> (r: Clot)
        ensures
            r.cmd_fn == Some(f),
            r.opts == self.opts,
            r.fields == self.fields,
            r.flags == self.flags,
            r.params == self.params,
            self.wf() ==> r.wf(),
    {
        Clot {
            opts: self.opts,
            cmd_fn: Some(f),
            fields: self.fields,
            flags: self.flags,
            params: self.params,
        }
    }

    /// Declares a new subcommand named `name` whose own tree is `sub`.
    /// The name must be a valid command name; an invalid one is a
    /// mistake by the program author and is rejected here, at build
    /// time, never at dispatch time.
    pub fn cmd(self, name: &str, sub: Clot) -> (r: Clot)
        requires
            valid_cmd_name(name@),
        ensures
            r.opts matches Node::Cmd(c) && *c.prev == self.opts && c.name@ == name@ && *c.sub
                == sub,
            r.cmd_fn == self.cmd_fn,
            r.fields == self.fields,
            r.flags == self.flags,
            r.params == self.params,
            self.wf() && sub.wf() ==> r.wf(),
    {
        Clot {
            opts: Node::Cmd(crate::node::Cmd::new(self.opts, name, sub)),
            cmd_fn: self.cmd_fn,
            fields: self.fields,
            flags: self.flags,
            params: self.params,
        }
    }

    /// Declares one more positional field on this level.
    pub fn field(self) -> (r: Clot)
        requires
            self.fields < usize::MAX,
        ensures
            r.fields == self.fields + 1,
            r.opts == self.opts,
            r.cmd_fn == self.cmd_fn,
            r.flags == self.flags,
            r.params == self.params,
            self.wf() ==> r.wf(),
    {
        Clot {
            opts: self.opts,
            cmd_fn: self.cmd_fn,
            fields: self.fields + 1,
            flags: self.flags,
            params: self.params,
        }
    }

    /// Declares a parameter named `name` on this level.
    pub fn param(self, name: &str) -> (r: Clot)
        ensures
            r.params@.len() == self.params@.len() + 1,
            r.params@[self.params@.len() as int]@ == name@,
            forall|i: int| 0 <= i < self.params@.len() ==> r.params@[i] == self.params@[i],
            r.opts == self.opts,
            r.cmd_fn == self.cmd_fn,
            r.fields == self.fields,
            r.flags == self.flags,
            self.wf() ==> r.wf(),
    {
        let mut params = self.params;
        params.push(name.to_owned());
        Clot {
            opts: self.opts,
            cmd_fn: self.cmd_fn,
            fields: self.fields,
            flags: self.flags,
            params,
        }
    }

    /// Declares flag letter `flag` on this level.  The letter must be
    /// ASCII lowercase; anything else is a mistake by the program author
    /// and is rejected here, at build time.
    pub fn flag(self, flag: char) -> (r: Clot)
        requires
            'a' <= flag && flag <= 'z',
        ensures
            r.flags@ == self.flags@.push(flag),
            r.opts == self.opts,
            r.cmd_fn == self.cmd_fn,
            r.fields == self.fields,
            r.params == self.params,
            self.wf() ==> r.wf(),
    {
        let mut flags = self.flags;
        flags.push(flag);
        Clot {
            opts: self.opts,
            cmd_fn: self.cmd_fn,
            fields: self.fields,
            flags,
            params: self.params,
        }
    }

    /// True if this level declares positional fields.
    pub fn has_fields(&self) -> (r: bool)
        ensures
            r == self.spec_has_fields(),
    {
        self.fields > 0
    }

    /// True if this level declares flags.
    pub fn has_flags(&self) -> (r: bool)
        ensures
            r == self.spec_has_flags(),
    {
        self.flags.len() > 0
    }

    /// True if this level declares parameters.
    pub fn has_params(&self) -> (r: bool)
        ensures
            r == self.spec_has_params(),
    {
        self.params.len() > 0
    }

    /// Offers one token to this level: the level's help token wins
    /// first, otherwise the chain of declared subcommands tries,
    /// oldest declaration first.
    pub fn offer(&self, what: &Token, args: Cursor) -> (r: Branch)
        requires
            self.wf(),
        ensures
            (match r {
                Branch::HelpRequested(c) => {
                    &&& c@ == args@
                    &&& crate::node::spec_is_help(what@, self.spec_has_fields())
                },
                Branch::Unmatched(c) => {
                    &&& c@ == args@
                    &&& !crate::node::spec_is_help(what@, self.spec_has_fields())
                    &&& self.opts.spec_branch(what@, self.spec_has_fields(), args@) is None
                },
                Branch::Terminated(o) => {
                    &&& !crate::node::spec_is_help(what@, self.spec_has_fields())
                    &&& Some(o@) == self.opts.spec_branch(
                        what@,
                        self.spec_has_fields(),
                        args@,
                    )
                },
            }),
        decreases self, 0int,
    {
        let has_fields = self.has_fields();
        if is_help(what, has_fields) {
            Branch::HelpRequested(args)
        } else {
            self.opts.branch(what, has_fields, args)
        }
    }

    /// Dispatches the argument cursor against this tree under program
    /// name `program`.  An empty cursor reaches the registered terminal
    /// handler, or renders help when none was registered; a help token
    /// with nothing after it renders help; the first token that matches
    /// nothing is reported back as unexpected, and no handler runs.
    pub fn execute_with(&self, program: &str, args: Cursor) -> (r: Outcome)
        requires
            self.wf(),
        ensures
            r@ == self.spec_dispatch(program@, args@),
        decreases self, 1int,
    {
        let mut args = args;
        if args.is_empty() {
            return match self.cmd_fn {
                Some(t) => Outcome::Run(t),
                None => Outcome::Help(help(self, program)),
            };
        }
        let tok = args.next();
        match self.offer(&tok, args) {
            Branch::HelpRequested(mut rest) => {
                if rest.is_empty() {
                    Outcome::Help(help(self, program))
                } else {
                    let bad = rest.next();
                    Outcome::Unexpected { program: program.to_owned(), arg: bad.into_display() }
                }
            },
            Branch::Terminated(o) => o,
            Branch::Unmatched(_) => Outcome::Unexpected {
                program: program.to_owned(),
                arg: tok.into_display(),
            },
        }
    }
}

/// Decides whether `c` may be declared as a flag letter: exactly the
/// ASCII lowercase letters are accepted by [`Clot::flag`].
pub fn flag_is_valid(c: char) -> (r: bool)
    ensures
        r == ('a' <= c && c <= 'z'),
{
    c >= 'a' && c <= 'z'
}

/// The two-line report for an argument that matched nothing: the
/// offending token, then a hint to retry with `--help`.
pub open spec fn spec_unexpected(program: Seq<char>, arg: Seq<char>) -> Seq<char> {
    "Error: Unexpected argument `"@ + arg + "`\n\n"@ + "       Try `"@ + program
        + " --help` for more information.\n\n"@
}

/// Renders the report for an argument that matched nothing.
pub fn unexpected(program: &str, arg: &str) -> (r: String)
    ensures
        r@ == spec_unexpected(program@, arg@),
{
    let mut s = String::new();
    s.append("Error: Unexpected argument `");
    s.append(arg);
    s.append("`\n\n");
    s.append("       Try `");
    s.append(program);
    s.append(" --help` for more information.\n\n");
    proof {
        assert(s@ =~= spec_unexpected(program@, arg@));
    }
    s
}

} // verus!
