//! What holds of every option list.
//!
//! The reduction reads options one after another. The theorems here say
//! what it comes to without reference to that order: which lists are
//! accepted, what the record holds then, and that the places of `?Send` and
//! `Sync` among the options do not matter, while the annotations keep their
//! order.

use crate::arg::{parse_list, ArgView};
use crate::args::{parse_outcome, reduce, ParseErrorView, RecursionArgsView};
use crate::grammar::{grammar_complete, grammar_sound, spells_list};
use crate::tokens::TokenTree;
use vstd::prelude::*;

verus! {

/// The option `flag` stands at two places of `args`.
pub open spec fn repeats(args: Seq<ArgView>, flag: ArgView) -> bool {
    exists|i: int, j: int| 0 <= i < j < args.len() && args[i] == flag && args[j] == flag
}

/// The annotations among `args`, in the order in which they stand there.
pub open spec fn annotations(args: Seq<ArgView>) -> Seq<Seq<TokenTree>>
    decreases args.len(),
{
    if args.len() == 0 {
        Seq::empty()
    } else {
        let rest = annotations(args.drop_first());
        match args[0] {
            ArgView::Attr(body) => seq![body] + rest,
            _ => rest,
        }
    }
}

/// The record that a list without a repeated flag comes to: sendable unless
/// `?Send` stands in it, shareable if `Sync` does, and with its annotations
/// in their order.
pub open spec fn summary(args: Seq<ArgView>) -> RecursionArgsView {
    RecursionArgsView {
        send_bound: !args.contains(ArgView::NotSend),
        sync_bound: args.contains(ArgView::Sync),
        attrs: annotations(args),
    }
}

proof fn contains_head_or_tail(args: Seq<ArgView>, flag: ArgView)
    requires
        args.len() > 0,
    ensures
        args.contains(flag) <==> args[0] == flag || args.drop_first().contains(flag),
{
    let rest = args.drop_first();
    if args.contains(flag) {
        let i = choose|i: int| 0 <= i < args.len() && args[i] == flag;
        if i > 0 {
            assert(rest[i - 1] == flag);
        }
    }
    if rest.contains(flag) {
        let i = choose|i: int| 0 <= i < rest.len() && rest[i] == flag;
        assert(args[i + 1] == flag);
    }
}

proof fn repeats_head_or_tail(args: Seq<ArgView>, flag: ArgView)
    requires
        args.len() > 0,
    ensures
        repeats(args, flag) <==> (args[0] == flag && args.drop_first().contains(flag)) || repeats(
            args.drop_first(),
            flag,
        ),
{
    let rest = args.drop_first();
    if repeats(args, flag) {
        let (i, j) = choose|i: int, j: int|
            0 <= i < j < args.len() && args[i] == flag && args[j] == flag;
        assert(rest[j - 1] == flag);
        if i > 0 {
            assert(rest[i - 1] == flag);
        }
    }
    if rest.contains(flag) && args[0] == flag {
        let j = choose|j: int| 0 <= j < rest.len() && rest[j] == flag;
        assert(args[0] == flag && args[j + 1] == flag);
    }
    if repeats(rest, flag) {
        let (i, j) = choose|i: int, j: int|
            0 <= i < j < rest.len() && rest[i] == flag && rest[j] == flag;
        assert(args[i + 1] == flag && args[j + 1] == flag);
    }
}

proof fn apply_all_characterized(state: RecursionArgsView, args: Seq<ArgView>)
    ensures
        state.apply_all(args) is Ok <==> {
            &&& if state.send_bound {
                !repeats(args, ArgView::NotSend)
            } else {
                !args.contains(ArgView::NotSend)
            }
            &&& if state.sync_bound {
                !args.contains(ArgView::Sync)
            } else {
                !repeats(args, ArgView::Sync)
            }
        },
        state.apply_all(args) matches Ok(record) ==> {
            &&& record.send_bound == (state.send_bound && !args.contains(ArgView::NotSend))
            &&& record.sync_bound == (state.sync_bound || args.contains(ArgView::Sync))
            &&& record.attrs == state.attrs + annotations(args)
        },
        state.apply_all(args) matches Err(name) ==> {
            ||| name == "?Send"@ && if state.send_bound {
                repeats(args, ArgView::NotSend)
            } else {
                args.contains(ArgView::NotSend)
            }
            ||| name == "Sync"@ && if state.sync_bound {
                args.contains(ArgView::Sync)
            } else {
                repeats(args, ArgView::Sync)
            }
        },
    decreases args.len(),
{
    if args.len() == 0 {
        assert(state.attrs + annotations(args) =~= state.attrs);
    } else {
        let rest = args.drop_first();
        contains_head_or_tail(args, ArgView::NotSend);
        contains_head_or_tail(args, ArgView::Sync);
        repeats_head_or_tail(args, ArgView::NotSend);
        repeats_head_or_tail(args, ArgView::Sync);
        if state.apply(args[0]) is Ok {
            let next = state.apply(args[0])->Ok_0;
            apply_all_characterized(next, rest);
            assert(next.attrs + annotations(rest) =~= state.attrs + annotations(args));
        }
    }
}

/// A list of options is accepted exactly when neither `?Send` nor `Sync`
/// stands in it twice, however many annotations it holds. It then comes to
/// its [`summary`]. A refused list names an option that it repeats.
pub proof fn reduce_characterized(args: Seq<ArgView>)
    ensures
        reduce(args) is Ok <==> !repeats(args, ArgView::NotSend) && !repeats(args, ArgView::Sync),
        reduce(args) is Ok ==> reduce(args) == Ok::<RecursionArgsView, ParseErrorView>(summary(args)),
        reduce(args) matches Err(error) ==> {
            ||| error == ParseErrorView::DuplicateOption("?Send"@) && repeats(args, ArgView::NotSend)
            ||| error == ParseErrorView::DuplicateOption("Sync"@) && repeats(args, ArgView::Sync)
        },
{
    apply_all_characterized(RecursionArgsView::initial(), args);
    assert(Seq::<Seq<TokenTree>>::empty() + annotations(args) =~= annotations(args));
}

/// Where `?Send` and `Sync` stand among the options does not matter: two
/// lists without a repeated flag that hold the same flags, and the same
/// annotations in the same order, come to the same record.
pub proof fn flag_order_irrelevant(first: Seq<ArgView>, second: Seq<ArgView>)
    requires
        !repeats(first, ArgView::NotSend) && !repeats(first, ArgView::Sync),
        !repeats(second, ArgView::NotSend) && !repeats(second, ArgView::Sync),
        first.contains(ArgView::NotSend) == second.contains(ArgView::NotSend),
        first.contains(ArgView::Sync) == second.contains(ArgView::Sync),
        annotations(first) == annotations(second),
    ensures
        reduce(first) is Ok,
        reduce(first) == reduce(second),
{
    reduce_characterized(first);
    reduce_characterized(second);
}

/// Parsing succeeds on every token sequence that spells a list of options
/// in which neither flag is repeated, and gives the [`summary`] of those
/// options: the annotations come out in the order of the tokens.
pub proof fn valid_list_accepted(trees: Seq<TokenTree>, args: Seq<ArgView>)
    requires
        spells_list(trees, 0, args),
        !repeats(args, ArgView::NotSend),
        !repeats(args, ArgView::Sync),
    ensures
        parse_outcome(trees) == Ok::<RecursionArgsView, ParseErrorView>(summary(args)),
{
    grammar_complete(trees, args);
    reduce_characterized(args);
}

/// Only such token sequences are accepted: what parses spells a list of
/// options in which neither flag is repeated.
pub proof fn accepted_list_valid(trees: Seq<TokenTree>)
    requires
        parse_outcome(trees) is Ok,
    ensures
        parse_list(trees, 0) matches Ok(args) && {
            &&& spells_list(trees, 0, args)
            &&& !repeats(args, ArgView::NotSend)
            &&& !repeats(args, ArgView::Sync)
            &&& parse_outcome(trees) == Ok::<RecursionArgsView, ParseErrorView>(summary(args))
        },
{
    let args = parse_list(trees, 0)->Ok_0;
    grammar_sound(trees, args);
    reduce_characterized(args);
}

/// Parsing has no memory: token sequences that are equal tree for tree get
/// the same answer, so what was refused once is refused again, for the same
/// reason and at the same place.
pub proof fn rejection_repeats(first: Seq<TokenTree>, second: Seq<TokenTree>)
    requires
        first =~~= second,
        parse_outcome(first) is Err,
    ensures
        parse_outcome(second) == parse_outcome(first),
{
}

} // verus!
