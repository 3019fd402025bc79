//! The behavioural laws of the dispatch engine, stated and proved over
//! the specification functions that the executable contracts use.

use vstd::prelude::*;

use crate::name::valid_cmd_name;
use crate::node::{spec_is_help, Node};
use crate::token::TokenView;
use crate::{Clot, OutcomeView};

verus! {

/// A level whose chain declares exactly one subcommand: `name`, whose
/// subtree registers terminal handler `tag`.
pub open spec fn single_cmd_level(c: Clot, name: Seq<char>, tag: u64) -> bool {
    c.opts matches Node::Cmd(cm) && (*cm.prev) matches Node::Help(_) && cm.name@ == name && (
    *cm.sub).cmd_fn == Some(tag)
}

/// Dispatching exactly the name of the declared subcommand, at a level
/// without positional fields, runs that subcommand's terminal handler
/// and nothing else.  The one name this cannot hold for is `help`,
/// which every field-free level reserves as its help token.
pub proof fn lemma_named_subcommand_runs_handler(
    c: Clot,
    program: Seq<char>,
    name: Seq<char>,
    tag: u64,
)
    requires
        c.wf(),
        !c.spec_has_fields(),
        single_cmd_level(c, name, tag),
        name != "help"@,
    ensures
        c.spec_dispatch(program, seq![TokenView::Text(name)]) == OutcomeView::Run(tag),
{
    reveal_strlit("help");
    reveal_strlit("--help");
    let toks = seq![TokenView::Text(name)];
    assert(valid_cmd_name(name));
    assert(name != "--help"@) by {
        if name == "--help"@ {
            assert(name[0] == '-');
        }
    }
    assert(!spec_is_help(toks[0], false));
    match c.opts {
        Node::Cmd(cm) => {
            let rest = toks.drop_first();
            assert(rest.len() == 0);
            assert((*cm.prev).spec_branch(toks[0], false, rest) is None);
            assert((*cm.sub).spec_dispatch(cm.name@, rest) == OutcomeView::Run(tag));
            assert(c.opts.spec_branch(toks[0], false, rest) == Some(OutcomeView::Run(tag)));
        },
        Node::Help(_) => {
            assert(false);
        },
    }
}

/// Any token at that same dispatch point that is neither the declared
/// subcommand's name nor a help token is reported back as unexpected,
/// and no handler runs.
pub proof fn lemma_other_token_reported(
    c: Clot,
    program: Seq<char>,
    name: Seq<char>,
    tag: u64,
    t: TokenView,
)
    requires
        c.wf(),
        !c.spec_has_fields(),
        single_cmd_level(c, name, tag),
        !spec_is_help(t, false),
        t matches TokenView::Text(s) ==> s != name,
    ensures
        c.spec_dispatch(program, seq![t]) == (OutcomeView::Unexpected {
            program,
            arg: t.display(),
        }),
        !(c.spec_dispatch(program, seq![t]) is Run),
{
    let toks = seq![t];
    match c.opts {
        Node::Cmd(cm) => {
            let rest = toks.drop_first();
            assert((*cm.prev).spec_branch(toks[0], false, rest) is None);
            assert(!crate::node::spec_matches_name(toks[0], false, cm.name@));
            assert(c.opts.spec_branch(toks[0], false, rest) is None);
        },
        Node::Help(_) => {
            assert(false);
        },
    }
}

/// A help token with nothing after it always renders the level's help
/// text, which prints the level's description first and the usage
/// header right after it, and never runs the registered terminal
/// handler.
pub proof fn lemma_help_token_renders_help(c: Clot, program: Seq<char>, t: TokenView)
    requires
        c.wf(),
        spec_is_help(t, c.spec_has_fields()),
    ensures
        c.spec_dispatch(program, seq![t]) == OutcomeView::Help(c.spec_help(program)),
        c.spec_help(program).len() >= c.spec_desc().len() + "\n\nUsage:\n"@.len(),
        c.spec_help(program).subrange(0, c.spec_desc().len() as int) == c.spec_desc(),
        c.spec_help(program).subrange(
            c.spec_desc().len() as int,
            c.spec_desc().len() as int + "\n\nUsage:\n"@.len() as int,
        ) == "\n\nUsage:\n"@,
        !(c.spec_dispatch(program, seq![t]) is Run),
{
    let d = c.spec_desc().len() as int;
    let u = "\n\nUsage:\n"@.len() as int;
    assert(c.spec_help(program).subrange(0, d) =~= c.spec_desc());
    assert(c.spec_help(program).subrange(d, d + u) =~= "\n\nUsage:\n"@);
}

/// Help rendering is a pure function of the tree and the program name:
/// any two renders of the same level under the same name are
/// character-for-character identical.
pub proof fn lemma_help_render_idempotent(c: Clot, program: Seq<char>, r1: Seq<char>, r2: Seq<char>)
    requires
        r1 == c.spec_help(program),
        r2 == c.spec_help(program),
    ensures
        r1 == r2,
{
}

/// True if some layer of the chain carries a command name that is not a
/// valid one.
pub open spec fn node_has_bad_name(n: Node) -> bool
    decreases n,
{
    match n {
        Node::Help(_) => false,
        Node::Cmd(c) => !valid_cmd_name(c.name@) || node_has_bad_name(*c.prev)
            || clot_has_bad_name(*c.sub),
    }
}

/// True if some level of the tree declares a command name that is not a
/// valid one.
pub open spec fn clot_has_bad_name(c: Clot) -> bool
    decreases c,
{
    node_has_bad_name(c.opts)
}

/// True if some layer of the chain leads to a level declaring a flag
/// outside `a`-`z`.
pub open spec fn node_has_bad_flag(n: Node) -> bool
    decreases n,
{
    match n {
        Node::Help(_) => false,
        Node::Cmd(c) => node_has_bad_flag(*c.prev) || clot_has_bad_flag(*c.sub),
    }
}

/// True if some level of the tree declares a flag outside `a`-`z`.
pub open spec fn clot_has_bad_flag(c: Clot) -> bool
    decreases c,
{
    (exists|i: int|
        0 <= i < c.flags.len() && !('a' <= #[trigger] c.flags[i] && c.flags[i] <= 'z'))
        || node_has_bad_flag(c.opts)
}

/// No malformed command name survives into a well-formed tree: the
/// builder rejects it at build time, so dispatch never sees one.
pub proof fn lemma_wf_node_names_valid(n: Node)
    requires
        n.wf(),
    ensures
        !node_has_bad_name(n),
    decreases n,
{
    match n {
        Node::Help(_) => {},
        Node::Cmd(c) => {
            lemma_wf_node_names_valid(*c.prev);
            lemma_wf_clot_names_valid(*c.sub);
        },
    }
}

/// No malformed command name survives into a well-formed tree.
pub proof fn lemma_wf_clot_names_valid(c: Clot)
    requires
        c.wf(),
    ensures
        !clot_has_bad_name(c),
    decreases c,
{
    lemma_wf_node_names_valid(c.opts);
}

/// No flag outside `a`-`z` survives into a well-formed tree: the
/// builder rejects it at build time.
pub proof fn lemma_wf_node_flags_valid(n: Node)
    requires
        n.wf(),
    ensures
        !node_has_bad_flag(n),
    decreases n,
{
    match n {
        Node::Help(_) => {},
        Node::Cmd(c) => {
            lemma_wf_node_flags_valid(*c.prev);
            lemma_wf_clot_flags_valid(*c.sub);
        },
    }
}

/// No flag outside `a`-`z` survives into a well-formed tree.
pub proof fn lemma_wf_clot_flags_valid(c: Clot)
    requires
        c.wf(),
    ensures
        !clot_has_bad_flag(c),
    decreases c,
{
    lemma_wf_node_flags_valid(c.opts);
}

/// True if some layer of the chain leads to a level registering
/// terminal handler `tag`.
pub open spec fn node_has_tag(n: Node, tag: u64) -> bool
    decreases n,
{
    match n {
        Node::Help(_) => false,
        Node::Cmd(c) => node_has_tag(*c.prev, tag) || clot_has_tag(*c.sub, tag),
    }
}

/// True if some level of the tree registers terminal handler `tag`.
pub open spec fn clot_has_tag(c: Clot, tag: u64) -> bool
    decreases c,
{
    c.cmd_fn == Some(tag) || node_has_tag(c.opts, tag)
}

/// Dispatch never fabricates a handler: whenever the outcome says to
/// run the handler with tag `tag`, that tag was registered somewhere in
/// the tree.
pub proof fn lemma_run_tag_is_registered(c: Clot, program: Seq<char>, toks: Seq<TokenView>, tag: u64)
    ensures
        c.spec_dispatch(program, toks) == OutcomeView::Run(tag) ==> clot_has_tag(c, tag),
    decreases c, 1int,
{
    if toks.len() != 0 && !spec_is_help(toks[0], c.spec_has_fields()) {
        lemma_branch_tag_is_registered(
            c.opts,
            toks[0],
            c.spec_has_fields(),
            toks.drop_first(),
            tag,
        );
    }
}

/// The chain-walk form of [`lemma_run_tag_is_registered`].
pub proof fn lemma_branch_tag_is_registered(
    n: Node,
    t: TokenView,
    has_fields: bool,
    rest: Seq<TokenView>,
    tag: u64,
)
    ensures
        n.spec_branch(t, has_fields, rest) == Some(OutcomeView::Run(tag)) ==> node_has_tag(
            n,
            tag,
        ),
    decreases n, 0int,
{
    match n {
        Node::Help(_) => {},
        Node::Cmd(c) => {
            lemma_branch_tag_is_registered(*c.prev, t, has_fields, rest, tag);
            lemma_run_tag_is_registered(*c.sub, c.name@, rest, tag);
        },
    }
}

/// A level with a registered terminal handler and no further arguments
/// runs exactly that handler, whether or not any subcommand is
/// declared.
pub proof fn lemma_no_args_runs_handler(c: Clot, program: Seq<char>, tag: u64)
    requires
        c.wf(),
        c.cmd_fn == Some(tag),
    ensures
        c.spec_dispatch(program, Seq::<TokenView>::empty()) == OutcomeView::Run(tag),
{
}

/// A level without a terminal handler and without further arguments
/// renders its own help text and runs nothing.
pub proof fn lemma_no_args_renders_help(c: Clot, program: Seq<char>)
    requires
        c.wf(),
        c.cmd_fn is None,
    ensures
        c.spec_dispatch(program, Seq::<TokenView>::empty()) == OutcomeView::Help(
            c.spec_help(program),
        ),
{
}

} // verus!
