//! Token streams as the parser sees them.
//!
//! A stream is kept as `proc_macro2` made it. The parser reads its top level
//! through [`Token`], one value for each token tree, and speaks of a stream
//! in contracts through [`stream_trees`], the tree of plain values that the
//! stream holds.

use proc_macro2::TokenStream;
use vstd::prelude::*;

verus! {

/// `proc_macro2::TokenStream`, carried through without looking inside.
#[verifier::external_type_specification]
#[verifier::external_body]
pub struct ExTokenStream(proc_macro2::TokenStream);

/// The brackets that enclose a group of tokens.
#[derive(Clone, Copy, Debug, PartialEq, Eq, Structural)]
pub enum Delimiter {
    /// `( ... )`
    Parenthesis,
    /// `{ ... }`
    Brace,
    /// `[ ... ]`
    Bracket,
    /// No visible brackets: a group that a macro expansion put together.
    Invisible,
}

/// Whether a punctuation character is glued to the one that follows it.
#[derive(Clone, Copy, Debug, PartialEq, Eq, Structural)]
pub enum Spacing {
    /// Followed by something that is not punctuation, or by white space.
    Alone,
    /// Followed at once by another punctuation character, as the `=` in `==`.
    Joint,
}

/// What a token stream holds, as plain values: the model that contracts use.
pub enum TokenTree {
    /// An identifier or keyword, by its text (a raw identifier with its `r#`).
    Ident(Seq<char>),
    /// One punctuation character.
    Punct(char, Spacing),
    /// A literal, by its text as written.
    Literal(Seq<char>),
    /// A delimited group and the trees inside it.
    Group(Delimiter, Seq<TokenTree>),
}

/// The token trees that `stream` holds, in the order in which
/// `TokenStream::into_iter` yields them, each as a plain value.
pub uninterp spec fn stream_trees(stream: TokenStream) -> Seq<TokenTree>;

/// One token tree of a stream's top level. A group keeps its inner stream,
/// and a group without visible brackets is a token like any other: the
/// parser does not look through it.
#[derive(Debug)]
pub enum Token {
    /// An identifier or keyword.
    Ident(String),
    /// One punctuation character.
    Punct(char, Spacing),
    /// A literal.
    Literal(String),
    /// A delimited group.
    Group(Delimiter, TokenStream),
}

impl View for Token {
    type V = TokenTree;

    open spec fn view(&self) -> TokenTree {
        match *self {
            Token::Ident(name) => TokenTree::Ident(name@),
            Token::Punct(ch, spacing) => TokenTree::Punct(ch, spacing),
            Token::Literal(text) => TokenTree::Literal(text@),
            Token::Group(delimiter, inner) => TokenTree::Group(delimiter, stream_trees(inner)),
        }
    }
}

impl DeepView for Token {
    type V = TokenTree;

    open spec fn deep_view(&self) -> TokenTree {
        self@
    }
}

/// Walks `stream` with `TokenStream::into_iter` and hands out its token
/// trees one for one: an identifier and a literal by the text that their
/// `to_string` gives, a punctuation mark by `as_char` and `spacing`, a group
/// by `delimiter` and `stream`. Trusted: these values are `stream_trees` of
/// the stream, which is how that name gets its meaning.
#[verifier::external_body]
pub(crate) fn stream_tokens(stream: &TokenStream) -> (tokens: Vec<Token>)
    ensures
        tokens.deep_view() == stream_trees(*stream),
{
    stream.clone().into_iter().map(|tree| match tree {
        proc_macro2::TokenTree::Ident(i) => Token::Ident(i.to_string()),
        proc_macro2::TokenTree::Literal(l) => Token::Literal(l.to_string()),
        proc_macro2::TokenTree::Punct(p) => Token::Punct(p.as_char(), match p.spacing() {
            proc_macro2::Spacing::Alone => Spacing::Alone,
            proc_macro2::Spacing::Joint => Spacing::Joint,
        }),
        proc_macro2::TokenTree::Group(g) => Token::Group(match g.delimiter() {
            proc_macro2::Delimiter::Parenthesis => Delimiter::Parenthesis,
            proc_macro2::Delimiter::Brace => Delimiter::Brace,
            proc_macro2::Delimiter::Bracket => Delimiter::Bracket,
            proc_macro2::Delimiter::None => Delimiter::Invisible,
        }, g.stream()),
    }).collect()
}

/// `Clone::clone` of a `proc_macro2::TokenStream`. Trusted: the copy holds
/// the same token trees.
#[verifier::external_body]
pub(crate) fn copy_stream(stream: &TokenStream) -> (copy: TokenStream)
    ensures
        stream_trees(copy) == stream_trees(*stream),
{
    stream.clone()
}

impl Token {
    /// A copy of this token. A group's copy holds the same trees.
    pub fn duplicate(&self) -> (copy: Token)
        ensures
            copy@ == self@,
    {
        match self {
            Token::Ident(name) => Token::Ident(name.clone()),
            Token::Punct(ch, spacing) => Token::Punct(*ch, *spacing),
            Token::Literal(text) => Token::Literal(text.clone()),
            Token::Group(delimiter, inner) => Token::Group(*delimiter, copy_stream(inner)),
        }
    }

    /// Whether this token is the punctuation character `ch`, glued or not.
    pub fn is_punct(&self, ch: char) -> (yes: bool)
        ensures
            yes == is_punct(self@, ch),
    {
        match self {
            Token::Punct(c, _) => *c == ch,
            _ => false,
        }
    }

    /// Whether this token is the identifier spelled `word`.
    pub fn is_word(&self, word: &str) -> (yes: bool)
        ensures
            yes == is_word(self@, word@),
    {
        match self {
            Token::Ident(name) => {
                let wanted = String::from_str(word);
                *name == wanted
            },
            _ => false,
        }
    }
}

/// `tree` is the punctuation character `ch`; its spacing does not matter.
pub open spec fn is_punct(tree: TokenTree, ch: char) -> bool {
    tree matches TokenTree::Punct(c, _) && c == ch
}

/// `tree` is an identifier whose text is exactly `word`.
pub open spec fn is_word(tree: TokenTree, word: Seq<char>) -> bool {
    tree matches TokenTree::Ident(name) && name == word
}

/// The tree at index `at`, or `None` past the end.
pub open spec fn tree_at(trees: Seq<TokenTree>, at: int) -> Option<TokenTree> {
    if 0 <= at < trees.len() {
        Some(trees[at])
    } else {
        None
    }
}

} // verus!
