//! Parsing and validation of the arguments of a recursion directive.
//!
//! The directive is attached to a function declaration and carries a
//! comma-separated list of options: `?Send`, `Sync`, and annotations of the
//! form `#[...]`. This crate reads that list from a token stream into a
//! [`RecursionArgs`] record, and checks that the declaration is an
//! asynchronous function.
//!
//! The token streams are those of `proc_macro2`, and syn decides what is an
//! annotation and what is a function item. Everything else is proved: the
//! grammar of the list, the reduction of the options to a record, and the
//! verdict on the declaration.

pub mod arg;
pub mod args;
pub mod grammar;
pub mod item;
pub mod laws;
pub mod message;
pub mod tokens;

pub use arg::{parse_args, Arg, Decoration, Expected, SyntaxError};
pub use args::{ParseError, RecursionArgs};
pub use item::{validate, AsyncItem, Declaration, ValidationError};
pub use tokens::{Delimiter, Spacing, Token};
