//! The text of each diagnostic.
//!
//! The errors of this crate are plain values; the functions here put them
//! into words for whoever reports them. Where syn refused something, its
//! own words are passed on.

use crate::arg::{Expected, SyntaxError, SyntaxErrorView};
use crate::args::ParseError;
use crate::item::ValidationError;
use vstd::prelude::*;
use vstd::string::StringExecFns;

verus! {

/// The text of a `syn::Error`, as its `Display` impl writes it: the call
/// is `ToString::to_string`. Nothing is claimed of the text.
#[verifier::external_body]
fn error_text(cause: &syn::Error) -> String {
    cause.to_string()
}

impl Expected {
    /// How the expected thing is named in a message.
    pub open spec fn phrase(self) -> Seq<char> {
        match self {
            Expected::Send => "expected `Send`"@,
            Expected::Sync => "expected `Sync`"@,
            Expected::Comma => "expected `,`"@,
            Expected::Brackets => "expected square brackets"@,
            Expected::Annotation => "expected an annotation"@,
        }
    }

    /// How the expected thing is named in a message.
    pub fn describe(self) -> (text: &'static str)
        ensures
            text@ == self.phrase(),
    {
        match self {
            Expected::Send => "expected `Send`",
            Expected::Sync => "expected `Sync`",
            Expected::Comma => "expected `,`",
            Expected::Brackets => "expected square brackets",
            Expected::Annotation => "expected an annotation",
        }
    }
}

impl SyntaxErrorView {
    /// The words for a mismatch that the parser found by itself: what was
    /// expected, and before that a note where the input had ended.
    pub open spec fn text(self) -> Seq<char> {
        if self.found is None {
            "unexpected end of input, "@ + self.expected.phrase()
        } else {
            self.expected.phrase()
        }
    }
}

impl SyntaxError {
    /// What went wrong, in words: syn's own where syn refused an
    /// annotation, else what was expected in place of the offending token.
    pub fn message(&self) -> (text: String)
        ensures
            self.cause is None ==> text@ == self@.text(),
    {
        match &self.cause {
            Some(cause) => error_text(cause),
            None => {
                if self.found.is_none() {
                    let mut text = String::from_str("unexpected end of input, ");
                    text.append(self.expected.describe());
                    text
                } else {
                    String::from_str(self.expected.describe())
                }
            },
        }
    }
}

impl ParseError {
    /// The message for a refused option list.
    ///
    /// A repeated option is named between backquotes after the words
    /// "received duplicate argument: ". A syntax error is introduced by
    /// "failed to parse macro arguments: ", and what follows is the
    /// message of the [`SyntaxError`].
    pub fn message(&self) -> (text: String)
        ensures
            match *self {
                ParseError::DuplicateOption(name) => text@ == "received duplicate argument: `"@ + name@
                    + "`"@,
                ParseError::SyntaxError(error) => {
                    &&& "failed to parse macro arguments: "@.is_prefix_of(text@)
                    &&& error.cause is None ==> text@ == "failed to parse macro arguments: "@
                        + error@.text()
                },
            },
    {
        match self {
            ParseError::DuplicateOption(name) => {
                let mut text = String::from_str("received duplicate argument: `");
                text.append(name);
                text.append("`");
                text
            },
            ParseError::SyntaxError(error) => {
                let detail = error.message();
                let mut text = String::from_str("failed to parse macro arguments: ");
                text.append(detail.as_str());
                text
            },
        }
    }
}

impl ValidationError {
    /// The message for a refused declaration: "expected an async function"
    /// for a function that is not asynchronous, syn's own words for tokens
    /// that are no function.
    pub fn message(&self) -> (text: String)
        ensures
            *self is NotAsync ==> text@ == "expected an async function"@,
    {
        match self {
            ValidationError::NotAsync => String::from_str("expected an async function"),
            ValidationError::NotAFunction(cause) => error_text(cause),
        }
    }
}

} // verus!
