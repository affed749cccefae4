use proc_macro2::TokenStream;
use recursion_args::{
    parse_args, Arg, Decoration, Delimiter, Expected, ParseError, RecursionArgs, Spacing, Token,
};

fn stream(text: &str) -> TokenStream {
    text.parse().unwrap()
}

fn word(text: &str) -> Token {
    Token::Ident(text.to_string())
}

fn mark(ch: char) -> Token {
    Token::Punct(ch, Spacing::Alone)
}

fn brackets(text: &str) -> Token {
    Token::Group(Delimiter::Bracket, stream(text))
}

#[test]
fn token_tests() {
    assert!(mark('?').is_punct('?'));
    assert!(Token::Punct('?', Spacing::Joint).is_punct('?'));
    assert!(!mark('?').is_punct('#'));
    assert!(!word("Sync").is_punct('?'));
    assert!(word("Sync").is_word("Sync"));
    assert!(!word("Sync").is_word("Send"));
    assert!(!word("sync").is_word("Sync"));
    assert!(!Token::Literal("Sync".to_string()).is_word("Sync"));
    assert!(!brackets("Sync").is_word("Sync"));
}

#[test]
fn duplicate_keeps_the_token() {
    assert!(matches!(word("Sync").duplicate(), Token::Ident(name) if name == "Sync"));
    assert!(matches!(Token::Punct(',', Spacing::Joint).duplicate(), Token::Punct(',', Spacing::Joint)));
    assert!(matches!(Token::Literal("1u8".to_string()).duplicate(), Token::Literal(text) if text == "1u8"));
    match brackets("a(b)").duplicate() {
        Token::Group(Delimiter::Bracket, inner) => assert_eq!(inner.to_string(), stream("a(b)").to_string()),
        other => panic!("{:?}", other),
    }
}

#[test]
fn arg_parse_reads_one_option() {
    let tokens = vec![mark('?'), word("Send"), mark(','), word("Sync"), mark(','), mark('#'), brackets("a")];
    assert!(matches!(Arg::parse(&tokens, 0), Ok((Arg::NotSend, 2))));
    assert!(matches!(Arg::parse(&tokens, 3), Ok((Arg::Sync, 4))));
    match Arg::parse(&tokens, 5) {
        Ok((Arg::Attr(decoration), 7)) => assert_eq!(decoration.tokens.to_string(), "a"),
        other => panic!("{:?}", other),
    }
}

#[test]
fn arg_parse_says_where_it_stopped() {
    let tokens = vec![mark('?'), word("Send"), mark(','), word("Sync")];
    match Arg::parse(&tokens, 1) {
        Err(error) => {
            assert_eq!(error.position, 1);
            assert_eq!(error.expected, Expected::Sync);
            assert!(matches!(error.found, Some(Token::Ident(ref name)) if name == "Send"));
        },
        other => panic!("{:?}", other),
    }
    match Arg::parse(&tokens, 2) {
        Err(error) => {
            assert_eq!(error.position, 2);
            assert_eq!(error.expected, Expected::Sync);
            assert!(matches!(error.found, Some(Token::Punct(',', _))));
        },
        other => panic!("{:?}", other),
    }
}

#[test]
fn arg_parse_past_the_end() {
    let tokens = vec![word("Sync")];
    for at in [1usize, 2, usize::MAX] {
        match Arg::parse(&tokens, at) {
            Err(error) => {
                assert_eq!(error.position, at);
                assert_eq!(error.expected, Expected::Sync);
                assert!(error.found.is_none());
            },
            other => panic!("{:?}", other),
        }
    }
}

#[test]
fn parse_args_keeps_the_order() {
    let tokens = vec![
        mark('#'),
        brackets("a"),
        mark(','),
        word("Sync"),
        mark(','),
        mark('?'),
        word("Send"),
        mark(','),
        mark('#'),
        brackets("b"),
        mark(','),
    ];
    let args = parse_args(&tokens).unwrap();
    assert_eq!(args.len(), 4);
    assert!(matches!(&args[0], Arg::Attr(decoration) if decoration.tokens.to_string() == "a"));
    assert!(matches!(&args[1], Arg::Sync));
    assert!(matches!(&args[2], Arg::NotSend));
    assert!(matches!(&args[3], Arg::Attr(decoration) if decoration.tokens.to_string() == "b"));
}

#[test]
fn parse_args_does_not_look_for_duplicates() {
    let tokens = vec![word("Sync"), mark(','), word("Sync")];
    let args = parse_args(&tokens).unwrap();
    assert_eq!(args.len(), 2);
    assert!(matches!(RecursionArgs::reduce(args), Err(ParseError::DuplicateOption("Sync"))));
}

#[test]
fn parse_args_of_nothing() {
    assert!(parse_args(&Vec::new()).unwrap().is_empty());
}

#[test]
fn reduce_of_nothing_is_the_default() {
    let args = RecursionArgs::reduce(Vec::new()).unwrap();
    assert!(args.send_bound);
    assert!(!args.sync_bound);
    assert!(args.attrs.is_empty());
}

#[test]
fn reduce_reads_from_left_to_right() {
    let args = RecursionArgs::reduce(vec![
        Arg::Attr(Decoration::parse(&stream("first")).unwrap()),
        Arg::NotSend,
        Arg::Attr(Decoration::parse(&stream("second")).unwrap()),
    ])
    .unwrap();
    assert!(!args.send_bound);
    assert!(!args.sync_bound);
    let texts: Vec<String> = args.attrs.iter().map(|d| d.tokens.to_string()).collect();
    assert_eq!(texts, vec!["first".to_string(), "second".to_string()]);
}

#[test]
fn reduce_stops_at_the_first_repetition() {
    let result = RecursionArgs::reduce(vec![Arg::NotSend, Arg::Sync, Arg::NotSend, Arg::Sync]);
    assert!(matches!(result, Err(ParseError::DuplicateOption("?Send"))));
}

#[test]
fn parse_tokens_agrees_with_parse() {
    let tokens = vec![mark('?'), word("Send"), mark(','), mark('#'), brackets("a")];
    let from_tokens = RecursionArgs::parse_tokens(&tokens).unwrap();
    let from_stream = RecursionArgs::parse(&stream("?Send, #[a]")).unwrap();
    assert_eq!(from_tokens.send_bound, from_stream.send_bound);
    assert_eq!(from_tokens.sync_bound, from_stream.sync_bound);
    assert_eq!(from_tokens.attrs.len(), from_stream.attrs.len());
    assert_eq!(from_tokens.attrs[0].tokens.to_string(), from_stream.attrs[0].tokens.to_string());
}

#[test]
fn spacing_of_punctuation_does_not_matter() {
    let tokens = vec![Token::Punct('?', Spacing::Joint), word("Send"), Token::Punct(',', Spacing::Joint)];
    let args = RecursionArgs::parse_tokens(&tokens).unwrap();
    assert!(!args.send_bound);
}

#[test]
fn invisible_group_starts_no_option() {
    let tokens = vec![Token::Group(Delimiter::Invisible, stream("Sync"))];
    match RecursionArgs::parse_tokens(&tokens) {
        Err(ParseError::SyntaxError(error)) => {
            assert_eq!(error.position, 0);
            assert_eq!(error.expected, Expected::Sync);
        },
        other => panic!("{:?}", other),
    }
}

#[test]
fn decoration_keeps_tokens_and_attribute() {
    let decoration = Decoration::parse(&stream("doc = \"text\"")).unwrap();
    assert_eq!(decoration.tokens.to_string(), stream("doc = \"text\"").to_string());
    assert!(decoration.attribute.path().is_ident("doc"));
    assert!(matches!(decoration.attribute.style, syn::AttrStyle::Outer));
    let expected = syn::parse::Parser::parse_str(syn::Attribute::parse_outer, "#[doc = \"text\"]").unwrap();
    assert_eq!(vec![decoration.attribute], expected);
}

#[test]
fn decoration_is_what_syn_accepts() {
    for text in ["inline", "a::b", "cfg(all(x, not(y)))", "a = 1 + 2", "a[b]", "a{b}", "unsafe(no_mangle)"] {
        assert!(Decoration::parse(&stream(text)).is_ok(), "{}", text);
    }
    for text in ["", "1", "a b", "a =", "a, b", "#[a]", "a = #[b] c"] {
        assert!(Decoration::parse(&stream(text)).is_err(), "{}", text);
    }
}
