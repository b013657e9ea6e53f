//! The tokens of an annotation's argument list.
//!
//! The host hands the arguments over as a flat run of [`Token`]s, with an
//! opening and a closing token around each bracketed group. Before the grammar
//! reads them they are reduced to [`Lexeme`]s: the few symbols the argument
//! language knows, with every string literal already decoded.

use vstd::prelude::*;

verus! {

/// A pair of brackets.
#[derive(Clone, Copy, Debug, PartialEq, Eq, Structural)]
pub enum Delimiter {
    /// `(` and `)`
    Parenthesis,
    /// `{` and `}`
    Brace,
    /// `[` and `]`
    Bracket,
}

/// One token as the host compiler produced it.
#[derive(Debug, PartialEq, Eq)]
pub enum Token {
    /// An identifier or keyword, by its name.
    Ident(String),
    /// A single punctuation character.
    Punct(char),
    /// A literal, by its source text (for a string, quotes and escapes
    /// included).
    Literal(String),
    /// The start of a bracketed group.
    Open(Delimiter),
    /// The end of a bracketed group.
    Close(Delimiter),
}

/// The mathematical value of a [`Token`].
pub enum TokenView {
    Ident(Seq<char>),
    Punct(char),
    Literal(Seq<char>),
    Open(Delimiter),
    Close(Delimiter),
}

impl DeepView for Token {
    type V = TokenView;

    open spec fn deep_view(&self) -> TokenView {
        match self {
            Token::Ident(name) => TokenView::Ident(name@),
            Token::Punct(c) => TokenView::Punct(*c),
            Token::Literal(text) => TokenView::Literal(text@),
            Token::Open(d) => TokenView::Open(*d),
            Token::Close(d) => TokenView::Close(*d),
        }
    }
}

impl View for Token {
    type V = TokenView;

    open spec fn view(&self) -> TokenView {
        self.deep_view()
    }
}

impl Clone for Token {
    fn clone(&self) -> (copy: Token)
        ensures
            copy@ == self@,
    {
        match self {
            Token::Ident(name) => Token::Ident(name.clone()),
            Token::Punct(c) => Token::Punct(*c),
            Token::Literal(text) => Token::Literal(text.clone()),
            Token::Open(d) => Token::Open(*d),
            Token::Close(d) => Token::Close(*d),
        }
    }
}

/// One symbol of the argument language.
#[derive(Debug, PartialEq, Eq)]
pub enum Lexeme {
    /// An identifier, by its name.
    Ident(String),
    /// A string literal, by its decoded value.
    Str(String),
    /// `=`
    Assign,
    /// `,`
    Comma,
    /// `:`
    Colon,
    /// `{`
    OpenBrace,
    /// `}`
    CloseBrace,
    /// Any token the argument language has no use for.
    Other,
}

/// The mathematical value of a [`Lexeme`].
pub enum LexemeView {
    Ident(Seq<char>),
    Str(Seq<char>),
    Assign,
    Comma,
    Colon,
    OpenBrace,
    CloseBrace,
    Other,
}

impl DeepView for Lexeme {
    type V = LexemeView;

    open spec fn deep_view(&self) -> LexemeView {
        match self {
            Lexeme::Ident(name) => LexemeView::Ident(name@),
            Lexeme::Str(value) => LexemeView::Str(value@),
            Lexeme::Assign => LexemeView::Assign,
            Lexeme::Comma => LexemeView::Comma,
            Lexeme::Colon => LexemeView::Colon,
            Lexeme::OpenBrace => LexemeView::OpenBrace,
            Lexeme::CloseBrace => LexemeView::CloseBrace,
            Lexeme::Other => LexemeView::Other,
        }
    }
}

impl View for Lexeme {
    type V = LexemeView;

    open spec fn view(&self) -> LexemeView {
        self.deep_view()
    }
}

impl Clone for Lexeme {
    fn clone(&self) -> (copy: Lexeme)
        ensures
            copy@ == self@,
    {
        match self {
            Lexeme::Ident(name) => Lexeme::Ident(name.clone()),
            Lexeme::Str(value) => Lexeme::Str(value.clone()),
            Lexeme::Assign => Lexeme::Assign,
            Lexeme::Comma => Lexeme::Comma,
            Lexeme::Colon => Lexeme::Colon,
            Lexeme::OpenBrace => Lexeme::OpenBrace,
            Lexeme::CloseBrace => Lexeme::CloseBrace,
            Lexeme::Other => Lexeme::Other,
        }
    }
}

impl Lexeme {
    /// Whether two symbols are the same: the same kind and, for an
    /// identifier or a string, the same text.
    pub fn same(&self, other: &Lexeme) -> (same: bool)
        ensures
            same == (self@ == other@),
    {
        match (self, other) {
            (Lexeme::Ident(a), Lexeme::Ident(b)) => *a == *b,
            (Lexeme::Str(a), Lexeme::Str(b)) => *a == *b,
            (Lexeme::Assign, Lexeme::Assign) => true,
            (Lexeme::Comma, Lexeme::Comma) => true,
            (Lexeme::Colon, Lexeme::Colon) => true,
            (Lexeme::OpenBrace, Lexeme::OpenBrace) => true,
            (Lexeme::CloseBrace, Lexeme::CloseBrace) => true,
            (Lexeme::Other, Lexeme::Other) => true,
            _ => false,
        }
    }
}

/// What `syn` reads out of `text` when asked for one string literal: the
/// literal's decoded value, or `None` when `text` is anything else.
pub uninterp spec fn literal_value(text: Seq<char>) -> Option<Seq<char>>;

/// Parses `text` as a `syn::LitStr` with `syn::parse_str` and takes its
/// `value()`. Trusted: the outcome depends on `text` alone and is what
/// [`literal_value`] names; nothing is claimed about which texts decode, or to
/// what.
#[verifier::external_body]
fn decode_literal(text: &str) -> (value: Option<String>)
    ensures
        value.deep_view() == literal_value(text@),
{
    match syn::parse_str::<syn::LitStr>(text) {
        Ok(lit) => Some(lit.value()),
        Err(_) => None,
    }
}

/// The symbol that a punctuation character stands for.
pub open spec fn punct_lexeme(c: char) -> LexemeView {
    if c == '=' {
        LexemeView::Assign
    } else if c == ',' {
        LexemeView::Comma
    } else if c == ':' {
        LexemeView::Colon
    } else {
        LexemeView::Other
    }
}

/// The symbol that a literal stands for, given what its text decodes to.
pub open spec fn literal_lexeme(value: Option<Seq<char>>) -> LexemeView {
    match value {
        Some(v) => LexemeView::Str(v),
        None => LexemeView::Other,
    }
}

/// The symbol that a token stands for. Only braces delimit anything in the
/// argument language, and only string literals carry a value.
pub open spec fn lexeme_of(token: TokenView) -> LexemeView {
    match token {
        TokenView::Ident(name) => LexemeView::Ident(name),
        TokenView::Punct(c) => punct_lexeme(c),
        TokenView::Literal(text) => literal_lexeme(literal_value(text)),
        TokenView::Open(d) => if d == Delimiter::Brace {
            LexemeView::OpenBrace
        } else {
            LexemeView::Other
        },
        TokenView::Close(d) => if d == Delimiter::Brace {
            LexemeView::CloseBrace
        } else {
            LexemeView::Other
        },
    }
}

/// The symbols that a run of tokens stands for, one per token.
pub open spec fn lexemes_of(tokens: Seq<TokenView>) -> Seq<LexemeView> {
    tokens.map_values(|t: TokenView| lexeme_of(t))
}

/// Reduces one token to the symbol it stands for.
pub fn lexeme(token: &Token) -> (l: Lexeme)
    ensures
        l@ == lexeme_of(token@),
{
    match token {
        Token::Ident(name) => Lexeme::Ident(name.clone()),
        Token::Punct(c) => {
            if *c == '=' {
                Lexeme::Assign
            } else if *c == ',' {
                Lexeme::Comma
            } else if *c == ':' {
                Lexeme::Colon
            } else {
                Lexeme::Other
            }
        },
        Token::Literal(text) => match decode_literal(text.as_str()) {
            Some(value) => Lexeme::Str(value),
            None => Lexeme::Other,
        },
        Token::Open(d) => match d {
            Delimiter::Brace => Lexeme::OpenBrace,
            _ => Lexeme::Other,
        },
        Token::Close(d) => match d {
            Delimiter::Brace => Lexeme::CloseBrace,
            _ => Lexeme::Other,
        },
    }
}

/// Reduces a run of tokens to the symbols they stand for.
pub fn classify(tokens: &[Token]) -> (lexemes: Vec<Lexeme>)
    ensures
        lexemes.deep_view() == lexemes_of(tokens.deep_view()),
{
    let mut lexemes: Vec<Lexeme> = Vec::new();
    let mut i: usize = 0;
    while i < tokens.len()
        invariant
            i <= tokens.len(),
            lexemes.len() == i,
            forall|j: int|
                0 <= j < i ==> (#[trigger] lexemes[j]).deep_view() == lexeme_of(
                    tokens[j].deep_view(),
                ),
        decreases tokens.len() - i,
    {
        lexemes.push(lexeme(&tokens[i]));
        i += 1;
    }
    assert(lexemes.deep_view() =~= lexemes_of(tokens.deep_view()));
    lexemes
}

} // verus!
