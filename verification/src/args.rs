//! The record that an option list reduces to.

use crate::arg::{parse_args, parse_list, Arg, ArgView, Decoration, SyntaxError, SyntaxErrorView};
use crate::tokens::{stream_tokens, stream_trees, Token, TokenTree};
use proc_macro2::TokenStream;
use vstd::prelude::*;

verus! {

/// What the directive asks for.
#[derive(Debug)]
pub struct RecursionArgs {
    /// The result must be sendable between threads. On unless `?Send` is given.
    pub send_bound: bool,
    /// The result must be shareable between threads. Off unless `Sync` is given.
    pub sync_bound: bool,
    /// The annotations to pass on, in the order in which they were given.
    pub attrs: Vec<Decoration>,
}

/// A [`RecursionArgs`] as a plain value.
pub struct RecursionArgsView {
    pub send_bound: bool,
    pub sync_bound: bool,
    pub attrs: Seq<Seq<TokenTree>>,
}

impl View for RecursionArgs {
    type V = RecursionArgsView;

    open spec fn view(&self) -> RecursionArgsView {
        RecursionArgsView {
            send_bound: self.send_bound,
            sync_bound: self.sync_bound,
            attrs: self.attrs.deep_view(),
        }
    }
}

/// Why an option list was refused.
#[derive(Debug)]
pub enum ParseError {
    /// The tokens are not an option list.
    SyntaxError(SyntaxError),
    /// The named option, `?Send` or `Sync`, was given a second time.
    DuplicateOption(&'static str),
}

/// A [`ParseError`] as a plain value.
pub enum ParseErrorView {
    SyntaxError(SyntaxErrorView),
    DuplicateOption(Seq<char>),
}

impl View for ParseError {
    type V = ParseErrorView;

    open spec fn view(&self) -> ParseErrorView {
        match *self {
            ParseError::SyntaxError(error) => ParseErrorView::SyntaxError(error@),
            ParseError::DuplicateOption(name) => ParseErrorView::DuplicateOption(name@),
        }
    }
}

impl RecursionArgsView {
    /// The record before any option is read: sendable, not shareable, no
    /// annotations.
    pub open spec fn initial() -> RecursionArgsView {
        RecursionArgsView { send_bound: true, sync_bound: false, attrs: Seq::empty() }
    }

    /// The record after one more option, or the name of the option if it
    /// was given before.
    pub open spec fn apply(self, arg: ArgView) -> Result<RecursionArgsView, Seq<char>> {
        match arg {
            ArgView::NotSend => {
                if !self.send_bound {
                    Err("?Send"@)
                } else {
                    Ok(RecursionArgsView { send_bound: false, ..self })
                }
            },
            ArgView::Sync => {
                if self.sync_bound {
                    Err("Sync"@)
                } else {
                    Ok(RecursionArgsView { sync_bound: true, ..self })
                }
            },
            ArgView::Attr(body) => Ok(RecursionArgsView { attrs: self.attrs.push(body), ..self }),
        }
    }

    /// The record after the options `args`, taken from left to right, or
    /// the name of the first option that repeats an earlier one.
    pub open spec fn apply_all(self, args: Seq<ArgView>) -> Result<RecursionArgsView, Seq<char>>
        decreases args.len(),
    {
        if args.len() == 0 {
            Ok(self)
        } else {
            match self.apply(args[0]) {
                Err(name) => Err(name),
                Ok(next) => next.apply_all(args.drop_first()),
            }
        }
    }
}

/// What a list of options reduces to.
pub open spec fn reduce(args: Seq<ArgView>) -> Result<RecursionArgsView, ParseErrorView> {
    match RecursionArgsView::initial().apply_all(args) {
        Ok(record) => Ok(record),
        Err(name) => Err(ParseErrorView::DuplicateOption(name)),
    }
}

/// What a token sequence parses to: a syntax error if it is no option
/// list, else what its options reduce to.
pub open spec fn parse_outcome(trees: Seq<TokenTree>) -> Result<RecursionArgsView, ParseErrorView> {
    match parse_list(trees, 0) {
        Err(error) => Err(ParseErrorView::SyntaxError(error)),
        Ok(args) => reduce(args),
    }
}

/// The plain form of a parse result.
pub open spec fn outcome(result: Result<RecursionArgs, ParseError>) -> Result<RecursionArgsView, ParseErrorView> {
    match result {
        Ok(record) => Ok(record@),
        Err(error) => Err(error@),
    }
}

impl RecursionArgs {
    /// Reduces parsed options to a record, reading them from left to right.
    ///
    /// Starts from the defaults, sendable and not shareable. `?Send` switches
    /// the first off, `Sync` the second on, and each annotation is appended.
    /// Fails at the first `?Send` or `Sync` that was already given, with
    /// the name of that option; nothing is returned of the record then.
    pub fn reduce(args: Vec<Arg>) -> (result: Result<RecursionArgs, ParseError>)
        ensures
            outcome(result) == reduce(args.deep_view()),
    {
        let ghost all = args.deep_view();
        let mut send_bound: bool = true;
        let mut sync_bound: bool = false;
        let mut attrs: Vec<Decoration> = Vec::new();
        assert(all.skip(0) =~= all);
        assert(attrs.deep_view() =~= Seq::empty());
        for arg in iter: args
            invariant
                iter.seq() == args@,
                all == args.deep_view(),
                RecursionArgsView::initial().apply_all(all) == (RecursionArgsView {
                    send_bound,
                    sync_bound,
                    attrs: attrs.deep_view(),
                }).apply_all(all.skip(iter.index() as int)),
        {
            let ghost before = RecursionArgsView { send_bound, sync_bound, attrs: attrs.deep_view() };
            let ghost rest = all.skip(iter.index() as int);
            assert(rest.drop_first() =~= all.skip(iter.index() + 1));
            match arg {
                Arg::NotSend => {
                    if !send_bound {
                        return Err(ParseError::DuplicateOption("?Send"));
                    }
                    send_bound = false;
                },
                Arg::Sync => {
                    if sync_bound {
                        return Err(ParseError::DuplicateOption("Sync"));
                    }
                    sync_bound = true;
                },
                Arg::Attr(decoration) => {
                    attrs.push(decoration);
                    assert(attrs.deep_view() =~= before.attrs.push(decoration@));
                },
            }
        }
        Ok(RecursionArgs { send_bound, sync_bound, attrs })
    }

    /// Parses the top-level tokens of an option list.
    ///
    /// The whole of `tokens` is first read as an option list; only a list
    /// that is well formed from end to end is then reduced, so a syntax
    /// error anywhere comes before any duplicate.
    pub fn parse_tokens(tokens: &Vec<Token>) -> (result: Result<RecursionArgs, ParseError>)
        ensures
            outcome(result) == parse_outcome(tokens.deep_view()),
            result matches Err(ParseError::SyntaxError(error)) ==> error.well_formed(),
    {
        match parse_args(tokens) {
            Err(error) => Err(ParseError::SyntaxError(error)),
            Ok(args) => RecursionArgs::reduce(args),
        }
    }

    /// Parses the option list that `input` holds.
    pub fn parse(input: &TokenStream) -> (result: Result<RecursionArgs, ParseError>)
        ensures
            outcome(result) == parse_outcome(stream_trees(*input)),
            result matches Err(ParseError::SyntaxError(error)) ==> error.well_formed(),
    {
        let tokens = stream_tokens(input);
        RecursionArgs::parse_tokens(&tokens)
    }
}

} // verus!
