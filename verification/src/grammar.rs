//! The option list as a relation, and its agreement with the parser.
//!
//! [`spells_list`] says which token sequences are option lists, and of which
//! options, without saying how to read them. The theorems here show that
//! [`parse_list`] accepts exactly those sequences and returns exactly those
//! options.

use crate::arg::{annotation_accepted, parse_arg, parse_list, ArgView, SyntaxErrorView};
use crate::tokens::{is_punct, is_word, tree_at, Delimiter, TokenTree};
use vstd::prelude::*;

verus! {

/// The number of tokens that an option takes.
pub open spec fn width(arg: ArgView) -> int {
    match arg {
        ArgView::NotSend => 2,
        ArgView::Sync => 1,
        ArgView::Attr(_) => 2,
    }
}

/// The tokens of `trees` from index `at` on begin with the option `arg`.
pub open spec fn spells(trees: Seq<TokenTree>, at: int, arg: ArgView) -> bool {
    match arg {
        ArgView::NotSend => {
            &&& tree_at(trees, at) matches Some(mark)
            &&& is_punct(mark, '?')
            &&& tree_at(trees, at + 1) matches Some(word)
            &&& is_word(word, "Send"@)
        },
        ArgView::Sync => {
            &&& tree_at(trees, at) matches Some(word)
            &&& is_word(word, "Sync"@)
        },
        ArgView::Attr(body) => {
            &&& tree_at(trees, at) matches Some(mark)
            &&& is_punct(mark, '#')
            &&& tree_at(trees, at + 1) matches Some(TokenTree::Group(Delimiter::Bracket, inner))
            &&& inner == body
            &&& annotation_accepted(body)
        },
    }
}

/// The tokens of `trees` from index `at` to the end are the options `args`,
/// in this order, with a comma between each two and at most one comma after
/// the last. No tokens at all spell the empty list.
pub open spec fn spells_list(trees: Seq<TokenTree>, at: int, args: Seq<ArgView>) -> bool
    decreases args.len(),
{
    if args.len() == 0 {
        at == trees.len()
    } else {
        let next = at + width(args[0]);
        &&& spells(trees, at, args[0])
        &&& if next == trees.len() {
            args.len() == 1
        } else {
            &&& tree_at(trees, next) matches Some(comma)
            &&& is_punct(comma, ',')
            &&& spells_list(trees, next + 1, args.drop_first())
        }
    }
}

/// An option that the parser reads at `at` is spelled there, and ends where
/// the parser says.
pub proof fn arg_sound(trees: Seq<TokenTree>, at: int)
    requires
        parse_arg(trees, at) is Ok,
    ensures
        spells(trees, at, parse_arg(trees, at)->Ok_0.0),
        parse_arg(trees, at)->Ok_0.1 == at + width(parse_arg(trees, at)->Ok_0.0),
        0 <= at < trees.len(),
        parse_arg(trees, at)->Ok_0.1 <= trees.len(),
{
}

/// An option that is spelled at `at` is the one that the parser reads there.
pub proof fn arg_complete(trees: Seq<TokenTree>, at: int, arg: ArgView)
    requires
        spells(trees, at, arg),
    ensures
        parse_arg(trees, at) == Ok::<(ArgView, int), SyntaxErrorView>((arg, at + width(arg))),
{
}

proof fn list_sound_from(trees: Seq<TokenTree>, at: int)
    requires
        0 <= at <= trees.len(),
        parse_list(trees, at) is Ok,
    ensures
        spells_list(trees, at, parse_list(trees, at)->Ok_0),
    decreases trees.len() - at,
{
    if at < trees.len() {
        arg_sound(trees, at);
        let (arg, next) = parse_arg(trees, at)->Ok_0;
        if next < trees.len() {
            list_sound_from(trees, next + 1);
            let rest = parse_list(trees, next + 1)->Ok_0;
            assert((seq![arg] + rest).drop_first() =~= rest);
        }
    }
}

proof fn list_complete_from(trees: Seq<TokenTree>, at: int, args: Seq<ArgView>)
    requires
        0 <= at <= trees.len(),
        spells_list(trees, at, args),
    ensures
        parse_list(trees, at) == Ok::<Seq<ArgView>, SyntaxErrorView>(args),
    decreases args.len(),
{
    if args.len() == 0 {
        assert(args =~= Seq::empty());
    } else {
        arg_complete(trees, at, args[0]);
        let next = at + width(args[0]);
        if next == trees.len() {
            assert(args =~= seq![args[0]]);
        } else {
            list_complete_from(trees, next + 1, args.drop_first());
            assert(args =~= seq![args[0]] + args.drop_first());
        }
    }
}

/// What the parser accepts is an option list: the options it returns are
/// spelled by the tokens, from the first token to the last.
pub proof fn grammar_sound(trees: Seq<TokenTree>, args: Seq<ArgView>)
    requires
        parse_list(trees, 0) == Ok::<Seq<ArgView>, SyntaxErrorView>(args),
    ensures
        spells_list(trees, 0, args),
{
    list_sound_from(trees, 0);
}

/// Every option list is accepted, with its own options as the result: the
/// parser fails on no token sequence that spells a list.
pub proof fn grammar_complete(trees: Seq<TokenTree>, args: Seq<ArgView>)
    requires
        spells_list(trees, 0, args),
    ensures
        parse_list(trees, 0) == Ok::<Seq<ArgView>, SyntaxErrorView>(args),
{
    list_complete_from(trees, 0, args);
}

/// What the parser refuses is no option list, whatever the options.
pub proof fn refused_spells_nothing(trees: Seq<TokenTree>, args: Seq<ArgView>)
    requires
        parse_list(trees, 0) is Err,
    ensures
        !spells_list(trees, 0, args),
{
    if spells_list(trees, 0, args) {
        grammar_complete(trees, args);
    }
}

/// The parser stops at a token of the input or at its end, and reports
/// what it found there.
pub proof fn mismatch_in_range(trees: Seq<TokenTree>, at: int)
    requires
        0 <= at <= trees.len(),
        parse_list(trees, at) is Err,
    ensures
        at <= parse_list(trees, at)->Err_0.position <= trees.len(),
        parse_list(trees, at)->Err_0.found == tree_at(trees, parse_list(trees, at)->Err_0.position),
    decreases trees.len() - at,
{
    if parse_arg(trees, at) is Ok {
        arg_sound(trees, at);
        let next = parse_arg(trees, at)->Ok_0.1;
        if next < trees.len() && is_punct(trees[next], ',') {
            mismatch_in_range(trees, next + 1);
        }
    }
}

/// A token sequence spells at most one list of options.
pub proof fn grammar_unambiguous(trees: Seq<TokenTree>, first: Seq<ArgView>, second: Seq<ArgView>)
    requires
        spells_list(trees, 0, first),
        spells_list(trees, 0, second),
    ensures
        first == second,
{
    grammar_complete(trees, first);
    grammar_complete(trees, second);
}

} // verus!
