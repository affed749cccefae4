use proc_macro2::TokenStream;
use recursion_args::{AsyncItem, Expected, ParseError, RecursionArgs, SyntaxError, Token, ValidationError};

fn stream(text: &str) -> TokenStream {
    text.parse().unwrap()
}

fn message_of(text: &str) -> String {
    RecursionArgs::parse(&stream(text)).unwrap_err().message()
}

#[test]
fn not_async_message() {
    let error = AsyncItem::parse(&stream("fn f() {}")).unwrap_err();
    assert_eq!(error.message(), "expected an async function");
    assert_eq!(ValidationError::NotAsync.message(), "expected an async function");
}

#[test]
fn not_a_function_message_is_the_one_of_syn() {
    let text = "struct S;";
    let expected = syn::parse_str::<syn::ItemFn>(text).unwrap_err().to_string();
    let error = AsyncItem::parse(&stream(text)).unwrap_err();
    assert_eq!(error.message(), expected);
    assert!(!expected.is_empty());
}

#[test]
fn duplicate_messages() {
    assert_eq!(message_of("?Send, ?Send"), "received duplicate argument: `?Send`");
    assert_eq!(message_of("Sync, Sync"), "received duplicate argument: `Sync`");
    assert_eq!(ParseError::DuplicateOption("Sync").message(), "received duplicate argument: `Sync`");
}

#[test]
fn syntax_messages() {
    assert_eq!(message_of("Foo"), "failed to parse macro arguments: expected `Sync`");
    assert_eq!(message_of("?Foo"), "failed to parse macro arguments: expected `Send`");
    assert_eq!(message_of("Sync Sync"), "failed to parse macro arguments: expected `,`");
    assert_eq!(message_of("#(a)"), "failed to parse macro arguments: expected square brackets");
}

#[test]
fn syntax_messages_at_the_end_of_the_input() {
    assert_eq!(
        message_of("?"),
        "failed to parse macro arguments: unexpected end of input, expected `Send`"
    );
    assert_eq!(
        message_of("Sync, #"),
        "failed to parse macro arguments: unexpected end of input, expected square brackets"
    );
}

#[test]
fn annotation_message_is_the_one_of_syn() {
    let expected = syn::parse::Parser::parse_str(syn::Attribute::parse_outer, "#[1]").unwrap_err().to_string();
    assert!(!expected.is_empty());
    assert_eq!(message_of("#[1]"), format!("failed to parse macro arguments: {}", expected));
}

#[test]
fn expected_phrases() {
    assert_eq!(Expected::Send.describe(), "expected `Send`");
    assert_eq!(Expected::Sync.describe(), "expected `Sync`");
    assert_eq!(Expected::Comma.describe(), "expected `,`");
    assert_eq!(Expected::Brackets.describe(), "expected square brackets");
    assert_eq!(Expected::Annotation.describe(), "expected an annotation");
}

#[test]
fn syntax_error_message_by_hand() {
    let error = SyntaxError {
        position: 3,
        found: Some(Token::Ident("x".to_string())),
        expected: Expected::Comma,
        cause: None,
    };
    assert_eq!(error.message(), "expected `,`");
    let error = SyntaxError { position: 3, found: None, expected: Expected::Comma, cause: None };
    assert_eq!(error.message(), "unexpected end of input, expected `,`");
    assert_eq!(
        ParseError::SyntaxError(error).message(),
        "failed to parse macro arguments: unexpected end of input, expected `,`"
    );
}
