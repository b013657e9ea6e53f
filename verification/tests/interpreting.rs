use docattr::{
    classify, document, interpret, Delimiter, DocSpec, Documented, ErrorKind, Field, GrammarError,
    Lexeme, Param, TextKey, Token,
};

fn ident(name: &str) -> Token {
    Token::Ident(name.to_string())
}

fn lit(source: &str) -> Token {
    Token::Literal(source.to_string())
}

fn assign() -> Token {
    Token::Punct('=')
}

fn comma() -> Token {
    Token::Punct(',')
}

fn colon() -> Token {
    Token::Punct(':')
}

fn open() -> Token {
    Token::Open(Delimiter::Brace)
}

fn close() -> Token {
    Token::Close(Delimiter::Brace)
}

fn text(s: &str) -> Option<String> {
    Some(s.to_string())
}

fn lines(args: &[Token]) -> Result<Vec<String>, GrammarError> {
    document(args, ()).map(|documented| documented.docs)
}

fn fails(kind: ErrorKind, position: usize) -> Result<DocSpec, GrammarError> {
    Err(GrammarError { kind, position })
}

#[test]
fn no_arguments_give_the_empty_record() {
    assert_eq!(interpret(&[]), Ok(DocSpec::default()));
    assert_eq!(lines(&[]), Ok(Vec::new()));
}

#[test]
fn one_field() {
    let args = [ident("summary"), assign(), lit("\"Adds two numbers\"")];
    assert_eq!(
        interpret(&args),
        Ok(DocSpec { summary: text("Adds two numbers"), ..DocSpec::default() })
    );
    assert_eq!(lines(&args), Ok(vec!["Adds two numbers".to_string()]));
}

#[test]
fn every_text_key_fills_its_own_field() {
    let keys = [
        "summary",
        "returns",
        "deprecated",
        "deprecated_since",
        "since",
        "example",
        "panics",
        "safety",
        "see_also",
        "invariants",
        "note",
    ];
    let mut args = Vec::new();
    for key in keys {
        args.push(ident(key));
        args.push(assign());
        args.push(lit(&format!("\"value of {}\"", key)));
        args.push(comma());
    }
    let expected = DocSpec {
        summary: text("value of summary"),
        returns: text("value of returns"),
        params: Vec::new(),
        deprecated: text("value of deprecated"),
        deprecated_since: text("value of deprecated_since"),
        since: text("value of since"),
        example: text("value of example"),
        panics: text("value of panics"),
        safety: text("value of safety"),
        see_also: text("value of see_also"),
        invariants: text("value of invariants"),
        note: text("value of note"),
        is_unimplemented: false,
        unimplemented_reason: None,
    };
    assert_eq!(interpret(&args), Ok(expected));
}

#[test]
fn fields_in_any_order() {
    let one = [
        ident("returns"),
        assign(),
        lit("\"the sum\""),
        comma(),
        ident("summary"),
        assign(),
        lit("\"Adds\""),
    ];
    let other = [
        ident("summary"),
        assign(),
        lit("\"Adds\""),
        comma(),
        ident("returns"),
        assign(),
        lit("\"the sum\""),
    ];
    assert_eq!(interpret(&one), interpret(&other));
    assert_eq!(
        interpret(&one),
        Ok(DocSpec { summary: text("Adds"), returns: text("the sum"), ..DocSpec::default() })
    );
}

#[test]
fn trailing_comma_after_the_last_field() {
    let args = [ident("summary"), assign(), lit("\"Adds\""), comma()];
    assert_eq!(interpret(&args), Ok(DocSpec { summary: text("Adds"), ..DocSpec::default() }));
}

#[test]
fn second_comma_is_refused() {
    let args = [ident("summary"), assign(), lit("\"Adds\""), comma(), comma()];
    assert_eq!(interpret(&args), fails(ErrorKind::ExpectedKey, 4));
}

#[test]
fn later_value_of_a_key_wins() {
    let args = [
        ident("summary"),
        assign(),
        lit("\"first\""),
        comma(),
        ident("summary"),
        assign(),
        lit("\"second\""),
    ];
    assert_eq!(interpret(&args), Ok(DocSpec { summary: text("second"), ..DocSpec::default() }));
}

#[test]
fn params_block() {
    let args = [
        ident("params"),
        assign(),
        open(),
        lit("\"x\""),
        colon(),
        lit("\"first operand\""),
        comma(),
        lit("\"y\""),
        colon(),
        lit("\"second operand\""),
        close(),
    ];
    let expected = DocSpec {
        params: vec![
            Param { name: "x".to_string(), desc: "first operand".to_string() },
            Param { name: "y".to_string(), desc: "second operand".to_string() },
        ],
        ..DocSpec::default()
    };
    assert_eq!(interpret(&args), Ok(expected));
    assert_eq!(
        lines(&args),
        Ok(vec![
            String::new(),
            "# Parameters".to_string(),
            "* `x` - first operand".to_string(),
            "* `y` - second operand".to_string(),
        ])
    );
}

#[test]
fn params_block_with_trailing_comma_and_more_fields() {
    let args = [
        ident("params"),
        assign(),
        open(),
        lit("\"x\""),
        colon(),
        lit("\"one\""),
        comma(),
        close(),
        comma(),
        ident("note"),
        assign(),
        lit("\"n\""),
        comma(),
    ];
    let expected = DocSpec {
        params: vec![Param { name: "x".to_string(), desc: "one".to_string() }],
        note: text("n"),
        ..DocSpec::default()
    };
    assert_eq!(interpret(&args), Ok(expected));
}

#[test]
fn empty_params_block_gives_no_section() {
    let args = [ident("params"), assign(), open(), close()];
    assert_eq!(interpret(&args), Ok(DocSpec::default()));
    assert_eq!(lines(&args), Ok(Vec::new()));
}

#[test]
fn later_params_block_replaces_the_earlier() {
    let args = [
        ident("params"),
        assign(),
        open(),
        lit("\"x\""),
        colon(),
        lit("\"one\""),
        close(),
        comma(),
        ident("params"),
        assign(),
        open(),
        lit("\"y\""),
        colon(),
        lit("\"two\""),
        close(),
    ];
    let expected = DocSpec {
        params: vec![Param { name: "y".to_string(), desc: "two".to_string() }],
        ..DocSpec::default()
    };
    assert_eq!(interpret(&args), Ok(expected));
}

#[test]
fn stub_alone() {
    let args = [ident("unimplemented")];
    assert_eq!(interpret(&args), Ok(DocSpec { is_unimplemented: true, ..DocSpec::default() }));
    let lines = lines(&args).unwrap();
    assert_eq!(
        lines[3],
        "\u{26a0}\u{fe0f} **NOT IMPLEMENTED** - This function is not yet implemented"
    );
    assert_eq!(lines[5], "This function will panic with `unimplemented!()` when called");
}

#[test]
fn stub_with_reason() {
    let args = [ident("unimplemented"), assign(), lit("\"pending API design\"")];
    assert_eq!(
        interpret(&args),
        Ok(DocSpec {
            is_unimplemented: true,
            unimplemented_reason: text("pending API design"),
            ..DocSpec::default()
        })
    );
    let lines = lines(&args).unwrap();
    assert_eq!(lines.len(), 7);
    assert_eq!(lines[3], "\u{26a0}\u{fe0f} **NOT IMPLEMENTED** - pending API design");
    assert_eq!(lines[5], "This function will panic with `unimplemented!()` when called");
}

#[test]
fn stub_followed_by_a_stray_token() {
    let args = [ident("unimplemented"), ident("soon")];
    assert_eq!(interpret(&args), fails(ErrorKind::UnexpectedAfterUnimplemented, 1));
    let args = [ident("unimplemented"), comma()];
    assert_eq!(interpret(&args), fails(ErrorKind::UnexpectedAfterUnimplemented, 1));
}

#[test]
fn stub_reason_must_be_a_string() {
    let args = [ident("unimplemented"), assign(), lit("42")];
    assert_eq!(interpret(&args), fails(ErrorKind::ExpectedString, 2));
    let args = [ident("unimplemented"), assign()];
    assert_eq!(interpret(&args), fails(ErrorKind::ExpectedString, 2));
}

#[test]
fn stub_takes_no_other_field() {
    let args = [
        ident("unimplemented"),
        assign(),
        lit("\"soon\""),
        comma(),
        ident("summary"),
        assign(),
        lit("\"Adds\""),
    ];
    assert_eq!(interpret(&args), fails(ErrorKind::UnexpectedAfterUnimplemented, 3));
}

#[test]
fn stub_word_is_no_key() {
    let args = [
        ident("summary"),
        assign(),
        lit("\"Adds\""),
        comma(),
        ident("unimplemented"),
        assign(),
        lit("\"soon\""),
    ];
    assert_eq!(
        interpret(&args),
        fails(ErrorKind::UnknownKey("unimplemented".to_string()), 4)
    );
    let args = [ident("summary"), assign(), lit("\"Adds\""), comma(), ident("unimplemented")];
    assert_eq!(interpret(&args), fails(ErrorKind::ExpectedAssign, 5));
}

#[test]
fn unknown_key_is_named() {
    let args = [ident("bogus"), assign(), lit("\"x\"")];
    assert_eq!(interpret(&args), fails(ErrorKind::UnknownKey("bogus".to_string()), 0));
    let failure = lines(&args).unwrap_err();
    assert_eq!(failure.kind, ErrorKind::UnknownKey("bogus".to_string()));
    assert_eq!(failure.position, 0);
    assert!(failure.message().contains("`bogus`"));
}

#[test]
fn unknown_key_after_good_fields() {
    let args = [
        ident("summary"),
        assign(),
        lit("\"Adds\""),
        comma(),
        ident("bogus"),
        assign(),
        lit("\"x\""),
    ];
    assert_eq!(interpret(&args), fails(ErrorKind::UnknownKey("bogus".to_string()), 4));
    assert!(lines(&args).is_err());
}

#[test]
fn keys_are_case_sensitive() {
    let args = [ident("Summary"), assign(), lit("\"x\"")];
    assert_eq!(interpret(&args), fails(ErrorKind::UnknownKey("Summary".to_string()), 0));
}

#[test]
fn key_without_assign() {
    let args = [ident("summary"), lit("\"x\"")];
    assert_eq!(interpret(&args), fails(ErrorKind::ExpectedAssign, 1));
    let args = [ident("summary")];
    assert_eq!(interpret(&args), fails(ErrorKind::ExpectedAssign, 1));
    let args = [ident("bogus")];
    assert_eq!(interpret(&args), fails(ErrorKind::ExpectedAssign, 1));
}

#[test]
fn field_must_start_with_a_key() {
    let args = [comma()];
    assert_eq!(interpret(&args), fails(ErrorKind::ExpectedKey, 0));
    let args = [lit("\"summary\""), assign(), lit("\"x\"")];
    assert_eq!(interpret(&args), fails(ErrorKind::ExpectedKey, 0));
    let args = [close()];
    assert_eq!(interpret(&args), fails(ErrorKind::ExpectedKey, 0));
}

#[test]
fn value_must_be_a_string() {
    let args = [ident("summary"), assign(), lit("42")];
    assert_eq!(interpret(&args), fails(ErrorKind::ExpectedString, 2));
    let args = [ident("summary"), assign(), ident("text")];
    assert_eq!(interpret(&args), fails(ErrorKind::ExpectedString, 2));
    let args = [ident("summary"), assign()];
    assert_eq!(interpret(&args), fails(ErrorKind::ExpectedString, 2));
    let args = [ident("summary"), assign(), assign(), lit("\"x\"")];
    assert_eq!(interpret(&args), fails(ErrorKind::ExpectedString, 2));
}

#[test]
fn malformed_literals_are_no_strings() {
    for source in ["\"open", "'c'", "b\"bytes\"", "\"a\" \"b\"", "", "\"bad \\q escape\"", "1.5"] {
        let args = [ident("summary"), assign(), lit(source)];
        assert_eq!(interpret(&args), fails(ErrorKind::ExpectedString, 2));
    }
}

#[test]
fn fields_must_be_separated() {
    let args =
        [ident("summary"), assign(), lit("\"a\""), ident("returns"), assign(), lit("\"b\"")];
    assert_eq!(interpret(&args), fails(ErrorKind::ExpectedComma, 3));
}

#[test]
fn params_must_be_a_block() {
    let args = [ident("params"), assign(), lit("\"x\"")];
    assert_eq!(interpret(&args), fails(ErrorKind::ExpectedBrace, 2));
    let args = [
        ident("params"),
        assign(),
        Token::Open(Delimiter::Parenthesis),
        Token::Close(Delimiter::Parenthesis),
    ];
    assert_eq!(interpret(&args), fails(ErrorKind::ExpectedBrace, 2));
    let args = [ident("params"), assign()];
    assert_eq!(interpret(&args), fails(ErrorKind::ExpectedBrace, 2));
}

#[test]
fn params_block_must_close() {
    let args = [ident("params"), assign(), open(), lit("\"x\""), colon(), lit("\"one\"")];
    assert_eq!(interpret(&args), fails(ErrorKind::UnclosedBrace, 6));
    let args = [ident("params"), assign(), open()];
    assert_eq!(interpret(&args), fails(ErrorKind::UnclosedBrace, 3));
    let args = [ident("params"), assign(), open(), lit("\"x\""), colon(), lit("\"one\""), comma()];
    assert_eq!(interpret(&args), fails(ErrorKind::UnclosedBrace, 7));
}

#[test]
fn param_needs_a_colon() {
    let args = [ident("params"), assign(), open(), lit("\"x\""), lit("\"one\""), close()];
    assert_eq!(interpret(&args), fails(ErrorKind::ExpectedColon, 4));
    let args = [ident("params"), assign(), open(), lit("\"x\""), assign(), lit("\"one\""), close()];
    assert_eq!(interpret(&args), fails(ErrorKind::ExpectedColon, 4));
}

#[test]
fn param_name_and_description_must_be_strings() {
    let args = [ident("params"), assign(), open(), ident("x"), colon(), lit("\"one\""), close()];
    assert_eq!(interpret(&args), fails(ErrorKind::ExpectedString, 3));
    let args = [ident("params"), assign(), open(), lit("\"x\""), colon(), ident("one"), close()];
    assert_eq!(interpret(&args), fails(ErrorKind::ExpectedString, 5));
    let args = [ident("params"), assign(), open(), lit("\"x\""), colon(), close()];
    assert_eq!(interpret(&args), fails(ErrorKind::ExpectedString, 5));
}

#[test]
fn params_must_be_separated() {
    let args = [
        ident("params"),
        assign(),
        open(),
        lit("\"x\""),
        colon(),
        lit("\"one\""),
        lit("\"y\""),
        colon(),
        lit("\"two\""),
        close(),
    ];
    assert_eq!(interpret(&args), fails(ErrorKind::ExpectedComma, 6));
}

#[test]
fn params_block_takes_one_comma_between_pairs() {
    let args = [
        ident("params"),
        assign(),
        open(),
        lit("\"x\""),
        colon(),
        lit("\"one\""),
        comma(),
        comma(),
        close(),
    ];
    assert_eq!(interpret(&args), fails(ErrorKind::ExpectedString, 7));
    let args = [ident("params"), assign(), open(), comma(), close()];
    assert_eq!(interpret(&args), fails(ErrorKind::ExpectedString, 3));
}

#[test]
fn string_literals_are_decoded() {
    let args = [
        ident("summary"),
        assign(),
        lit(r#""line\nbreak \"quoted\" \u{41}\x42 tab\tend""#),
        comma(),
        ident("note"),
        assign(),
        lit(r###"r#"raw "text" \n"#"###),
    ];
    assert_eq!(
        interpret(&args),
        Ok(DocSpec {
            summary: text("line\nbreak \"quoted\" AB tab\tend"),
            note: text("raw \"text\" \\n"),
            ..DocSpec::default()
        })
    );
}

#[test]
fn empty_string_is_present() {
    let args = [ident("returns"), assign(), lit("\"\"")];
    assert_eq!(interpret(&args), Ok(DocSpec { returns: text(""), ..DocSpec::default() }));
    assert_eq!(lines(&args), Ok(vec![String::new(), "# Returns".to_string(), String::new()]));
}

#[test]
fn tokens_reduce_to_symbols() {
    let tokens = [
        ident("summary"),
        assign(),
        comma(),
        colon(),
        Token::Punct(';'),
        lit("\"a\\\\b\""),
        lit("7"),
        open(),
        close(),
        Token::Open(Delimiter::Bracket),
        Token::Close(Delimiter::Parenthesis),
    ];
    assert_eq!(
        classify(&tokens),
        vec![
            Lexeme::Ident("summary".to_string()),
            Lexeme::Assign,
            Lexeme::Comma,
            Lexeme::Colon,
            Lexeme::Other,
            Lexeme::Str("a\\b".to_string()),
            Lexeme::Other,
            Lexeme::OpenBrace,
            Lexeme::CloseBrace,
            Lexeme::Other,
            Lexeme::Other,
        ]
    );
}

#[test]
fn symbols_are_read_without_the_host() {
    let symbols = [
        Lexeme::Ident("see_also".to_string()),
        Lexeme::Assign,
        Lexeme::Str("foo, bar::baz".to_string()),
    ];
    assert_eq!(
        DocSpec::parse(&symbols),
        Ok(DocSpec { see_also: text("foo, bar::baz"), ..DocSpec::default() })
    );
    assert_eq!(
        Field::parse(&symbols, 0),
        Ok((Field::Text(TextKey::SeeAlso, "foo, bar::baz".to_string()), 3))
    );
    assert_eq!(
        Field::parse(&symbols, 1),
        Err(GrammarError { kind: ErrorKind::ExpectedKey, position: 1 })
    );
    assert_eq!(
        Field::parse(&symbols, 9),
        Err(GrammarError { kind: ErrorKind::ExpectedKey, position: 9 })
    );
}

#[test]
fn one_pair_is_read_at_a_position() {
    let symbols = [
        Lexeme::Comma,
        Lexeme::Str("x".to_string()),
        Lexeme::Colon,
        Lexeme::Str("one".to_string()),
    ];
    assert_eq!(
        Param::parse(&symbols, 1),
        Ok((Param { name: "x".to_string(), desc: "one".to_string() }, 4))
    );
    assert_eq!(
        Param::parse(&symbols, 0),
        Err(GrammarError { kind: ErrorKind::ExpectedString, position: 0 })
    );
    assert_eq!(
        Param::parse(&symbols, 3),
        Err(GrammarError { kind: ErrorKind::ExpectedColon, position: 4 })
    );
}

#[test]
fn messages() {
    let message = |kind: ErrorKind| GrammarError { kind, position: 0 }.message();
    assert_eq!(
        message(ErrorKind::UnknownKey("bogus".to_string())),
        "unexpected field `bogus`, expected one of: summary, returns, params, deprecated, \
         deprecated_since, since, example, panics, safety, see_also, invariants, note"
    );
    assert_eq!(message(ErrorKind::ExpectedKey), "expected identifier");
    assert_eq!(message(ErrorKind::ExpectedAssign), "expected `=`");
    assert_eq!(message(ErrorKind::ExpectedString), "expected string literal");
    assert_eq!(message(ErrorKind::ExpectedComma), "expected `,`");
    assert_eq!(message(ErrorKind::ExpectedColon), "expected `:`");
    assert_eq!(message(ErrorKind::ExpectedBrace), "expected curly braces");
    assert_eq!(message(ErrorKind::UnclosedBrace), "expected `}`");
    assert_eq!(
        message(ErrorKind::UnexpectedAfterUnimplemented),
        "unexpected token after `unimplemented` flag"
    );
}

#[test]
fn full_annotation() {
    let args = [
        ident("summary"),
        assign(),
        lit("\"Adds two numbers\""),
        comma(),
        ident("params"),
        assign(),
        open(),
        lit("\"x\""),
        colon(),
        lit("\"first operand\""),
        comma(),
        lit("\"y\""),
        colon(),
        lit("\"second operand\""),
        close(),
        comma(),
        ident("returns"),
        assign(),
        lit("\"the sum\""),
        comma(),
        ident("see_also"),
        assign(),
        lit("\"foo, bar::baz\""),
    ];
    assert_eq!(
        lines(&args),
        Ok(vec![
            "Adds two numbers".to_string(),
            String::new(),
            "# Parameters".to_string(),
            "* `x` - first operand".to_string(),
            "* `y` - second operand".to_string(),
            String::new(),
            "# Returns".to_string(),
            "the sum".to_string(),
            String::new(),
            "# See Also".to_string(),
            "* [`foo`]".to_string(),
            "* [`bar::baz`]".to_string(),
        ])
    );
}

#[test]
fn item_passes_through_behind_its_block() {
    let args = [ident("summary"), assign(), lit("\"Adds two numbers\"")];
    let item = "fn add(x: i32, y: i32) -> i32 { x + y }".to_string();
    assert_eq!(
        document(&args, item.clone()),
        Ok(Documented { docs: vec!["Adds two numbers".to_string()], item })
    );
}

#[test]
fn item_passes_through_without_arguments() {
    assert_eq!(document(&[], 7u8), Ok(Documented { docs: Vec::new(), item: 7u8 }));
}

#[test]
fn refused_arguments_emit_nothing() {
    let args = [ident("bogus"), assign(), lit("\"x\"")];
    assert_eq!(
        document(&args, "fn f() {}"),
        Err(GrammarError { kind: ErrorKind::UnknownKey("bogus".to_string()), position: 0 })
    );
}
