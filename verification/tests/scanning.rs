use docattr::{
    document, interpret, locate, tokenize, Delimiter, DocSpec, ErrorKind, GrammarError, Param,
    Token,
};

fn ident(name: &str) -> Token {
    Token::Ident(name.to_string())
}

fn lit(source: &str) -> Token {
    Token::Literal(source.to_string())
}

fn docs(text: &str) -> Result<Vec<String>, GrammarError> {
    document(&tokenize(text), ()).map(|documented| documented.docs)
}

#[test]
fn one_field_from_text() {
    assert_eq!(
        tokenize("summary = \"Adds two numbers\""),
        vec![ident("summary"), Token::Punct('='), lit("\"Adds two numbers\"")]
    );
}

#[test]
fn nothing_from_nothing() {
    assert_eq!(tokenize(""), Vec::<Token>::new());
    assert_eq!(tokenize(" \t\r\n\u{3000}"), Vec::<Token>::new());
}

#[test]
fn space_is_optional() {
    assert_eq!(
        tokenize("a=\"b\",c:{}"),
        vec![
            ident("a"),
            Token::Punct('='),
            lit("\"b\""),
            Token::Punct(','),
            ident("c"),
            Token::Punct(':'),
            Token::Open(Delimiter::Brace),
            Token::Close(Delimiter::Brace),
        ]
    );
}

#[test]
fn words_and_numbers() {
    assert_eq!(
        tokenize("_x1 see_also 42 7up Z"),
        vec![ident("_x1"), ident("see_also"), lit("42"), lit("7up"), ident("Z")]
    );
}

#[test]
fn every_bracket() {
    assert_eq!(
        tokenize("( ) { } [ ]"),
        vec![
            Token::Open(Delimiter::Parenthesis),
            Token::Close(Delimiter::Parenthesis),
            Token::Open(Delimiter::Brace),
            Token::Close(Delimiter::Brace),
            Token::Open(Delimiter::Bracket),
            Token::Close(Delimiter::Bracket),
        ]
    );
}

#[test]
fn other_characters_stand_alone() {
    assert_eq!(
        tokenize("a==b;\u{e9}-1.5"),
        vec![
            ident("a"),
            Token::Punct('='),
            Token::Punct('='),
            ident("b"),
            Token::Punct(';'),
            Token::Punct('\u{e9}'),
            Token::Punct('-'),
            lit("1"),
            Token::Punct('.'),
            lit("5"),
        ]
    );
}

#[test]
fn escaped_quote_does_not_close_a_string() {
    assert_eq!(
        tokenize(r#"note = "say \"hi\", ok" , x"#),
        vec![
            ident("note"),
            Token::Punct('='),
            lit(r#""say \"hi\", ok""#),
            Token::Punct(','),
            ident("x"),
        ]
    );
}

#[test]
fn escaped_backslash_does_not_escape_the_quote() {
    assert_eq!(tokenize(r#""a\\" b"#), vec![lit(r#""a\\""#), ident("b")]);
}

#[test]
fn open_string_runs_to_the_end() {
    assert_eq!(tokenize("x \"open, y"), vec![ident("x"), lit("\"open, y")]);
    assert_eq!(tokenize("\"a\\"), vec![lit("\"a\\")]);
    assert_eq!(tokenize("\""), vec![lit("\"")]);
}

#[test]
fn strings_keep_their_inner_space() {
    assert_eq!(tokenize("\"  a  {b}  \""), vec![lit("\"  a  {b}  \"")]);
    assert_eq!(tokenize("\"\u{e9}t\u{e9}\" x"), vec![lit("\"\u{e9}t\u{e9}\""), ident("x")]);
}

#[test]
fn summary_from_text() {
    assert_eq!(docs("summary = \"Adds two numbers\""), Ok(vec!["Adds two numbers".to_string()]));
}

#[test]
fn nothing_documented_from_nothing() {
    assert_eq!(docs(""), Ok(Vec::new()));
    assert_eq!(interpret(&tokenize("  ")), Ok(DocSpec::default()));
}

#[test]
fn deprecation_from_text() {
    let lines = docs("deprecated = \"use new_fn instead\", deprecated_since = \"1.2.0\"").unwrap();
    assert_eq!(lines.len(), 4);
    assert_eq!(lines[2], "**Deprecated since 1.2.0:** use new_fn instead");
}

#[test]
fn stub_from_text() {
    let plain = docs("unimplemented").unwrap();
    assert_eq!(
        plain[3],
        "\u{26a0}\u{fe0f} **NOT IMPLEMENTED** - This function is not yet implemented"
    );
    let reasoned = docs("unimplemented = \"pending API design\"").unwrap();
    assert_eq!(reasoned[3], "\u{26a0}\u{fe0f} **NOT IMPLEMENTED** - pending API design");
    assert_eq!(reasoned[5], plain[5]);
    assert_eq!(reasoned[5], "This function will panic with `unimplemented!()` when called");
}

#[test]
fn params_from_text() {
    let text = "params = { \"x\": \"first operand\", \"y\": \"second operand\" }";
    assert_eq!(
        interpret(&tokenize(text)),
        Ok(DocSpec {
            params: vec![
                Param { name: "x".to_string(), desc: "first operand".to_string() },
                Param { name: "y".to_string(), desc: "second operand".to_string() },
            ],
            ..DocSpec::default()
        })
    );
    assert_eq!(
        docs(text),
        Ok(vec![
            String::new(),
            "# Parameters".to_string(),
            "* `x` - first operand".to_string(),
            "* `y` - second operand".to_string(),
        ])
    );
}

#[test]
fn see_also_from_text() {
    assert_eq!(
        docs("see_also = \"foo, bar::baz\""),
        Ok(vec![
            String::new(),
            "# See Also".to_string(),
            "* [`foo`]".to_string(),
            "* [`bar::baz`]".to_string(),
        ])
    );
}

#[test]
fn unknown_key_from_text() {
    let failure = docs("bogus = \"x\"").unwrap_err();
    assert_eq!(failure, GrammarError { kind: ErrorKind::UnknownKey("bogus".to_string()), position: 0 });
    assert!(failure.message().contains("bogus"));
}

#[test]
fn escapes_are_decoded_from_text() {
    assert_eq!(
        docs(r#"summary = "tab\there \"quoted\" \u{e9}""#),
        Ok(vec!["tab\there \"quoted\" \u{e9}".to_string()])
    );
}

#[test]
fn open_string_is_no_string() {
    assert_eq!(
        docs("summary = \"open"),
        Err(GrammarError { kind: ErrorKind::ExpectedString, position: 2 })
    );
}

#[test]
fn unbalanced_brace_from_text() {
    assert_eq!(
        docs("params = { \"x\": \"one\""),
        Err(GrammarError { kind: ErrorKind::UnclosedBrace, position: 6 })
    );
    assert_eq!(
        docs("summary = \"a\" }"),
        Err(GrammarError { kind: ErrorKind::ExpectedComma, position: 3 })
    );
}

#[test]
fn many_lines_of_text() {
    let text = "
        summary = \"Adds two numbers\",
        params = {
            \"x\": \"first operand\",
            \"y\": \"second operand\",
        },
        returns = \"the sum\",
    ";
    assert_eq!(
        docs(text),
        Ok(vec![
            "Adds two numbers".to_string(),
            String::new(),
            "# Parameters".to_string(),
            "* `x` - first operand".to_string(),
            "* `y` - second operand".to_string(),
            String::new(),
            "# Returns".to_string(),
            "the sum".to_string(),
        ])
    );
}

#[test]
fn tokens_are_located_by_their_number() {
    let text = "  summary =  42 , x";
    assert_eq!(locate(text, 0), 2);
    assert_eq!(locate(text, 1), 10);
    assert_eq!(locate(text, 2), 13);
    assert_eq!(locate(text, 3), 16);
    assert_eq!(locate(text, 4), 18);
    assert_eq!(locate(text, 5), 19);
    assert_eq!(locate(text, 99), 19);
    assert_eq!(locate("", 0), 0);
    assert_eq!(locate("a  ", 1), 3);
}

#[test]
fn places_count_characters() {
    let text = "note = \"\u{e9}t\u{e9}\" \u{e9}";
    assert_eq!(locate(text, 2), 7);
    assert_eq!(locate(text, 3), 13);
}

#[test]
fn failure_is_located_in_the_text() {
    let text = "summary = \"Adds\", bogus = \"x\"";
    let failure = document(&tokenize(text), ()).unwrap_err();
    assert_eq!(failure.position, 4);
    assert_eq!(locate(text, failure.position), 18);
    let text = "summary = ";
    let failure = document(&tokenize(text), ()).unwrap_err();
    assert_eq!(failure.kind, ErrorKind::ExpectedString);
    assert_eq!(locate(text, failure.position), 10);
}
