//! One option of the directive, and the grammar of the option list.
//!
//! ```text
//! option-list := option (',' option)*      a trailing comma is allowed,
//!                                           the list may be empty
//! option      := '?' 'Send' | 'Sync' | '#' '[' annotation ']'
//! ```
//!
//! [`parse_list`] states the grammar as a reading from left to right, which
//! also says where a malformed list fails and for want of what. The module
//! [`crate::grammar`] states it once more as a relation, and proves that
//! the two agree.

use crate::tokens::{
    copy_stream, is_punct, is_word, stream_trees, tree_at, Delimiter, Token, TokenTree,
};
use proc_macro2::TokenStream;
use syn::Attribute;
use vstd::prelude::*;

verus! {

/// `syn::Error`, carried through as the cause of a rejected annotation.
#[verifier::external_type_specification]
#[verifier::external_body]
pub struct ExSynError(syn::Error);

/// `syn::Attribute`, carried through as syn built it.
#[verifier::external_type_specification]
#[verifier::external_body]
pub struct ExAttribute(syn::Attribute);

/// Whether syn reads `#[body]` as exactly one outer attribute, `body` being
/// the token trees between the brackets.
pub uninterp spec fn annotation_accepted(body: Seq<TokenTree>) -> bool;

/// Puts `body` between `#[` and `]` and hands the result to
/// `syn::Attribute::parse_outer` through `syn::parse::Parser::parse2`, which
/// also refuses tokens left over. Trusted: the call succeeds exactly when
/// `annotation_accepted` holds of the trees of `body`, and then returns one
/// attribute, since `parse_outer` reads one for each `#` that it meets.
#[verifier::external_body]
fn parse_outer(body: &TokenStream) -> (result: Result<Vec<Attribute>, syn::Error>)
    ensures
        result is Ok <==> annotation_accepted(stream_trees(*body)),
        result matches Ok(attributes) ==> attributes.len() == 1,
{
    let marker = proc_macro2::Punct::new('#', proc_macro2::Spacing::Alone);
    let group = proc_macro2::Group::new(proc_macro2::Delimiter::Bracket, body.clone());
    let trees = [proc_macro2::TokenTree::Punct(marker), proc_macro2::TokenTree::Group(group)];
    syn::parse::Parser::parse2(Attribute::parse_outer, TokenStream::from_iter(trees))
}

/// An annotation that the directive passes on.
///
/// Its view is the token trees between the brackets of `#[...]`: they are
/// kept as they came and never looked into.
#[derive(Debug)]
pub struct Decoration {
    /// The tokens between the brackets.
    pub tokens: TokenStream,
    /// The attribute that syn built from `#[tokens]`.
    pub attribute: Attribute,
}

impl View for Decoration {
    type V = Seq<TokenTree>;

    open spec fn view(&self) -> Seq<TokenTree> {
        stream_trees(self.tokens)
    }
}

impl DeepView for Decoration {
    type V = Seq<TokenTree>;

    open spec fn deep_view(&self) -> Seq<TokenTree> {
        self@
    }
}

impl Decoration {
    /// Reads `body`, the tokens between the brackets of `#[...]`, as an
    /// annotation. syn decides whether it is one, and its error is handed
    /// on where it is none.
    pub fn parse(body: &TokenStream) -> (result: Result<Decoration, syn::Error>)
        ensures
            result is Ok <==> annotation_accepted(stream_trees(*body)),
            result matches Ok(decoration) ==> decoration@ == stream_trees(*body),
    {
        match parse_outer(body) {
            Ok(mut attributes) => {
                let attribute = attributes.remove(0);
                Ok(Decoration { tokens: copy_stream(body), attribute })
            },
            Err(cause) => Err(cause),
        }
    }
}

/// One option of the directive.
#[derive(Debug)]
pub enum Arg {
    /// `?Send`: the result need not be sendable between threads.
    NotSend,
    /// `Sync`: the result must be shareable between threads.
    Sync,
    /// `#[...]`: an annotation to pass on.
    Attr(Decoration),
}

/// An option as a plain value.
pub enum ArgView {
    NotSend,
    Sync,
    Attr(Seq<TokenTree>),
}

impl View for Arg {
    type V = ArgView;

    open spec fn view(&self) -> ArgView {
        match *self {
            Arg::NotSend => ArgView::NotSend,
            Arg::Sync => ArgView::Sync,
            Arg::Attr(decoration) => ArgView::Attr(decoration@),
        }
    }
}

impl DeepView for Arg {
    type V = ArgView;

    open spec fn deep_view(&self) -> ArgView {
        self@
    }
}

/// What the parser wanted to read where it stopped.
#[derive(Clone, Copy, Debug, PartialEq, Eq, Structural)]
pub enum Expected {
    /// The word `Send`, after `?`.
    Send,
    /// The word `Sync`: the token starts no option.
    Sync,
    /// A comma between two options.
    Comma,
    /// A group in square brackets, after `#`.
    Brackets,
    /// An annotation that syn accepts, between the square brackets.
    Annotation,
}

/// A token sequence that is not an option list.
#[derive(Debug)]
pub struct SyntaxError {
    /// Index of the offending token; the number of tokens where the list
    /// ended too early.
    pub position: usize,
    /// The offending token; `None` where the list ended too early.
    pub found: Option<Token>,
    /// What would have been accepted there.
    pub expected: Expected,
    /// syn's own error, where it refused an annotation.
    pub cause: Option<syn::Error>,
}

/// A syntax error as a plain value.
pub struct SyntaxErrorView {
    pub position: int,
    pub found: Option<TokenTree>,
    pub expected: Expected,
}

impl View for SyntaxError {
    type V = SyntaxErrorView;

    open spec fn view(&self) -> SyntaxErrorView {
        SyntaxErrorView {
            position: self.position as int,
            found: match self.found {
                Some(token) => Some(token@),
                None => None,
            },
            expected: self.expected,
        }
    }
}

impl SyntaxError {
    /// The error carries a cause exactly where syn refused an annotation.
    pub open spec fn well_formed(&self) -> bool {
        self.cause is Some <==> self.expected == Expected::Annotation
    }
}

/// The error of a parser that stopped at index `at` of `trees`.
pub open spec fn mismatch(trees: Seq<TokenTree>, at: int, expected: Expected) -> SyntaxErrorView {
    SyntaxErrorView { position: at, found: tree_at(trees, at), expected }
}

/// Reading one option at index `at`: the option and the index after it, or
/// the mismatch. At the end of the input it fails for want of `Sync`.
pub open spec fn parse_arg(trees: Seq<TokenTree>, at: int) -> Result<(ArgView, int), SyntaxErrorView> {
    match tree_at(trees, at) {
        Some(TokenTree::Punct('?', _)) => {
            if tree_at(trees, at + 1) matches Some(next) && is_word(next, "Send"@) {
                Ok((ArgView::NotSend, at + 2))
            } else {
                Err(mismatch(trees, at + 1, Expected::Send))
            }
        },
        Some(TokenTree::Punct('#', _)) => {
            match tree_at(trees, at + 1) {
                Some(TokenTree::Group(Delimiter::Bracket, body)) => {
                    if annotation_accepted(body) {
                        Ok((ArgView::Attr(body), at + 2))
                    } else {
                        Err(mismatch(trees, at + 1, Expected::Annotation))
                    }
                },
                _ => Err(mismatch(trees, at + 1, Expected::Brackets)),
            }
        },
        Some(first) => {
            if is_word(first, "Sync"@) {
                Ok((ArgView::Sync, at + 1))
            } else {
                Err(mismatch(trees, at, Expected::Sync))
            }
        },
        None => Err(mismatch(trees, at, Expected::Sync)),
    }
}

/// Reading the option list that starts at index `at`, left to right: options
/// with a comma between each two, and at most one comma after the last.
pub open spec fn parse_list(trees: Seq<TokenTree>, at: int) -> Result<Seq<ArgView>, SyntaxErrorView>
    decreases trees.len() - at,
{
    if at >= trees.len() {
        Ok(Seq::empty())
    } else {
        match parse_arg(trees, at) {
            Err(error) => Err(error),
            Ok((arg, next)) => {
                if next >= trees.len() {
                    Ok(seq![arg])
                } else if !is_punct(trees[next], ',') {
                    Err(mismatch(trees, next, Expected::Comma))
                } else {
                    match parse_list(trees, next + 1) {
                        Err(error) => Err(error),
                        Ok(rest) => Ok(seq![arg] + rest),
                    }
                }
            },
        }
    }
}

/// The plain form of what [`Arg::parse`] returns.
pub open spec fn arg_outcome(result: Result<(Arg, usize), SyntaxError>) -> Result<(ArgView, int), SyntaxErrorView> {
    match result {
        Ok((arg, next)) => Ok((arg@, next as int)),
        Err(error) => Err(error@),
    }
}

/// The plain form of what [`parse_args`] returns.
pub open spec fn list_outcome(result: Result<Vec<Arg>, SyntaxError>) -> Result<Seq<ArgView>, SyntaxErrorView> {
    match result {
        Ok(args) => Ok(args.deep_view()),
        Err(error) => Err(error@),
    }
}

/// The token at `at`, copied, or `None` past the end.
fn found_at(tokens: &Vec<Token>, at: usize) -> (found: Option<Token>)
    ensures
        (match found {
            Some(token) => Some(token@),
            None => None,
        }) == tree_at(tokens.deep_view(), at as int),
{
    if at < tokens.len() {
        Some(tokens[at].duplicate())
    } else {
        None
    }
}

/// The error of a parser that stopped at `at` for a reason of its own.
fn stopped(tokens: &Vec<Token>, at: usize, expected: Expected) -> (error: SyntaxError)
    ensures
        error@ == mismatch(tokens.deep_view(), at as int, expected),
        error.cause is None,
{
    SyntaxError { position: at, found: found_at(tokens, at), expected, cause: None }
}

impl Arg {
    /// Reads one option from `tokens` at index `at` and returns it with the
    /// index of the token after it.
    ///
    /// `?` must be followed by `Send`, `#` by a group in square brackets
    /// that syn accepts as an annotation; any other token must be `Sync`.
    /// The error carries syn's own error exactly where syn refused an
    /// annotation.
    pub fn parse(tokens: &Vec<Token>, at: usize) -> (result: Result<(Arg, usize), SyntaxError>)
        ensures
            arg_outcome(result) == parse_arg(tokens.deep_view(), at as int),
            result matches Err(error) ==> error.well_formed(),
    {
        if at >= tokens.len() {
            return Err(stopped(tokens, at, Expected::Sync));
        }
        let first = &tokens[at];
        if first.is_punct('?') {
            if at + 1 < tokens.len() && tokens[at + 1].is_word("Send") {
                Ok((Arg::NotSend, at + 2))
            } else {
                Err(stopped(tokens, at + 1, Expected::Send))
            }
        } else if first.is_punct('#') {
            if at + 1 >= tokens.len() {
                return Err(stopped(tokens, at + 1, Expected::Brackets));
            }
            match &tokens[at + 1] {
                Token::Group(Delimiter::Bracket, body) => {
                    match Decoration::parse(body) {
                        Ok(decoration) => Ok((Arg::Attr(decoration), at + 2)),
                        Err(cause) => Err(
                            SyntaxError {
                                position: at + 1,
                                found: found_at(tokens, at + 1),
                                expected: Expected::Annotation,
                                cause: Some(cause),
                            },
                        ),
                    }
                },
                _ => Err(stopped(tokens, at + 1, Expected::Brackets)),
            }
        } else if first.is_word("Sync") {
            Ok((Arg::Sync, at + 1))
        } else {
            Err(stopped(tokens, at, Expected::Sync))
        }
    }
}

/// Reads the whole of `tokens` as an option list.
///
/// Returns the options in the order in which they stand, or the first
/// mismatch met when reading from left to right.
pub fn parse_args(tokens: &Vec<Token>) -> (result: Result<Vec<Arg>, SyntaxError>)
    ensures
        list_outcome(result) == parse_list(tokens.deep_view(), 0),
        result matches Err(error) ==> error.well_formed(),
{
    let ghost trees = tokens.deep_view();
    let mut args: Vec<Arg> = Vec::new();
    let mut at: usize = 0;
    while at < tokens.len()
        invariant
            trees == tokens.deep_view(),
            at <= tokens.len(),
            parse_list(trees, 0) == match parse_list(trees, at as int) {
                Ok(rest) => Ok(args.deep_view() + rest),
                Err(error) => Err(error),
            },
        decreases tokens.len() - at,
    {
        match Arg::parse(tokens, at) {
            Err(error) => {
                return Err(error);
            },
            Ok((arg, next)) => {
                let ghost before = args.deep_view();
                args.push(arg);
                assert(args.deep_view() =~= before + seq![arg@]);
                if next >= tokens.len() {
                    return Ok(args);
                }
                if !tokens[next].is_punct(',') {
                    return Err(stopped(tokens, next, Expected::Comma));
                }
                assert forall|rest: Seq<ArgView>| before + (seq![arg@] + rest) == args.deep_view() + rest by {
                    assert(before + (seq![arg@] + rest) =~= args.deep_view() + rest);
                }
                at = next + 1;
            },
        }
    }
    Ok(args)
}

} // verus!
