//! The declaration that the directive is attached to.
//!
//! The directive is only for asynchronous functions. syn reads the
//! declaration; this module looks at nothing but whether it is marked
//! `async`.

use crate::tokens::{stream_trees, TokenTree};
use proc_macro2::TokenStream;
use syn::ItemFn;
use vstd::prelude::*;

verus! {

/// `syn::ItemFn`, a parsed function item, carried through.
#[verifier::external_type_specification]
#[verifier::external_body]
pub struct ExItemFn(syn::ItemFn);

/// What syn makes of `trees` read as one function item: `None` if it
/// refuses them, else whether the function's signature is marked `async`.
pub uninterp spec fn function_asyncness(trees: Seq<TokenTree>) -> Option<bool>;

/// A function item together with the one thing that is asked of it.
#[derive(Debug)]
pub struct Declaration {
    asyncness: bool,
    item: ItemFn,
}

/// A function item that was found to be asynchronous.
#[derive(Debug)]
pub struct AsyncItem(pub ItemFn);

/// Why a declaration was refused.
#[derive(Debug)]
pub enum ValidationError {
    /// The tokens are not a function item; syn's error says why.
    NotAFunction(syn::Error),
    /// The function is not marked `async`.
    NotAsync,
}

/// Reads `input` as a function item with `syn::parse2::<syn::ItemFn>`, which
/// also refuses tokens left over, and notes whether the `asyncness` of the
/// item's signature is there. Trusted: success, and the flag noted, are
/// what `function_asyncness` says of the trees of `input`.
#[verifier::external_body]
fn parse_function(input: &TokenStream) -> (result: Result<Declaration, syn::Error>)
    ensures
        match result {
            Ok(declaration) => function_asyncness(stream_trees(*input)) == Some(declaration.is_async()),
            Err(_) => function_asyncness(stream_trees(*input)) is None,
        },
{
    let item = syn::parse2::<ItemFn>(input.clone())?;
    Ok(Declaration { asyncness: item.sig.asyncness.is_some(), item })
}

impl Declaration {
    /// Whether the function is marked `async`.
    pub closed spec fn is_async(&self) -> bool {
        self.asyncness
    }

    /// The function item itself.
    pub closed spec fn item(&self) -> ItemFn {
        self.item
    }

    /// Whether the function is marked `async`.
    pub fn asyncness(&self) -> (marked: bool)
        ensures
            marked == self.is_async(),
    {
        self.asyncness
    }

    /// The function item, given up by the declaration.
    pub fn into_item(self) -> (item: ItemFn)
        ensures
            item == self.item(),
    {
        self.item
    }

    /// Reads `input` as a function item of any visibility, generics,
    /// parameters and body.
    ///
    /// Fails exactly when syn refuses the tokens, and then with
    /// `NotAFunction`.
    pub fn parse(input: &TokenStream) -> (result: Result<Declaration, ValidationError>)
        ensures
            match result {
                Ok(declaration) => function_asyncness(stream_trees(*input)) == Some(declaration.is_async()),
                Err(error) => function_asyncness(stream_trees(*input)) is None && error is NotAFunction,
            },
    {
        match parse_function(input) {
            Ok(declaration) => Ok(declaration),
            Err(cause) => Err(ValidationError::NotAFunction(cause)),
        }
    }
}

/// Accepts a declaration that is marked `async` and hands its item back
/// unchanged; refuses any other with `NotAsync`. Nothing else is looked at.
pub fn validate(declaration: Declaration) -> (result: Result<AsyncItem, ValidationError>)
    ensures
        declaration.is_async() ==> result == Ok::<AsyncItem, ValidationError>(AsyncItem(declaration.item())),
        !declaration.is_async() ==> result == Err::<AsyncItem, ValidationError>(ValidationError::NotAsync),
{
    if !declaration.asyncness() {
        return Err(ValidationError::NotAsync);
    }
    Ok(AsyncItem(declaration.into_item()))
}

impl AsyncItem {
    /// Reads `input` as a function item and validates it.
    ///
    /// Succeeds exactly on a function item that is marked `async`. A
    /// function item without the mark gives `NotAsync`; tokens that syn
    /// does not read as a function item give `NotAFunction`.
    pub fn parse(input: &TokenStream) -> (result: Result<AsyncItem, ValidationError>)
        ensures
            match function_asyncness(stream_trees(*input)) {
                Some(true) => result is Ok,
                Some(false) => result matches Err(error) && error is NotAsync,
                None => result matches Err(error) && error is NotAFunction,
            },
    {
        match Declaration::parse(input) {
            Ok(declaration) => validate(declaration),
            Err(error) => Err(error),
        }
    }
}

} // verus!
