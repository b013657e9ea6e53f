//! Scanning argument text into tokens.
//!
//! Where no host compiler has cut the arguments into tokens, [`tokenize`]
//! does, by the few rules that the argument language needs:
//!
//! * white space separates tokens and is dropped;
//! * a run of ASCII letters, digits and `_` is one word: a literal if it
//!   starts with a digit, an identifier otherwise;
//! * a `"` starts a string literal, which runs through the next `"` that no
//!   backslash escapes, or to the end of the text where none closes it; the
//!   token holds the source text, quotes and escapes included;
//! * each of `( ) { } [ ]` opens or closes a group;
//! * any other character is punctuation, one token for each.
//!
//! What a string literal's text decodes to is not decided here. A failure of
//! the grammar points at a token by its number; [`locate`] gives the token's
//! place in the text.

use vstd::prelude::*;
use vstd::string::*;
use crate::text::{is_whitespace, lemma_skip_space, skip_space};
use crate::token::{Delimiter, Token, TokenView};

verus! {

/// Whether `c` is an ASCII digit.
pub open spec fn is_digit(c: char) -> bool {
    '0' <= c && c <= '9'
}

/// Whether `c` may stand in a word: an ASCII letter, an ASCII digit or `_`.
pub open spec fn is_word_char(c: char) -> bool {
    ('a' <= c && c <= 'z') || ('A' <= c && c <= 'Z') || is_digit(c) || c == '_'
}

/// The end of the run of word characters that starts at `from`.
pub open spec fn word_end(s: Seq<char>, from: int) -> int
    decreases s.len() - from,
{
    if 0 <= from < s.len() && is_word_char(s[from]) {
        word_end(s, from + 1)
    } else {
        from
    }
}

/// The end of a string literal whose content starts at `from`, just behind
/// the opening quote: the position after the closing quote, or `s.len()`
/// where the literal is not closed. A backslash takes the next character
/// with it, so that an escaped quote does not close the literal.
pub open spec fn string_end(s: Seq<char>, from: int) -> int
    decreases s.len() - from,
{
    if from < 0 || from >= s.len() {
        from
    } else if s[from] == '"' {
        from + 1
    } else if s[from] == '\\' && from + 1 < s.len() {
        string_end(s, from + 2)
    } else {
        string_end(s, from + 1)
    }
}

/// The token that a bracket stands for.
pub open spec fn bracket(c: char) -> Option<TokenView> {
    if c == '(' {
        Some(TokenView::Open(Delimiter::Parenthesis))
    } else if c == ')' {
        Some(TokenView::Close(Delimiter::Parenthesis))
    } else if c == '{' {
        Some(TokenView::Open(Delimiter::Brace))
    } else if c == '}' {
        Some(TokenView::Close(Delimiter::Brace))
    } else if c == '[' {
        Some(TokenView::Open(Delimiter::Bracket))
    } else if c == ']' {
        Some(TokenView::Close(Delimiter::Bracket))
    } else {
        None
    }
}

/// The token that starts at `pos`, a position that holds a character other
/// than white space, with the position after the token.
pub open spec fn token_at(s: Seq<char>, pos: int) -> (TokenView, int) {
    let c = s[pos];
    if is_word_char(c) {
        let end = word_end(s, pos + 1);
        if is_digit(c) {
            (TokenView::Literal(s.subrange(pos, end)), end)
        } else {
            (TokenView::Ident(s.subrange(pos, end)), end)
        }
    } else if c == '"' {
        let end = string_end(s, pos + 1);
        (TokenView::Literal(s.subrange(pos, end)), end)
    } else {
        match bracket(c) {
            Some(token) => (token, pos + 1),
            None => (TokenView::Punct(c), pos + 1),
        }
    }
}

/// The tokens of `s` from `pos` on.
pub open spec fn tokens_from(s: Seq<char>, pos: int) -> Seq<TokenView>
    decreases s.len() - pos,
    via tokens_from_decreases
{
    let start = skip_space(s, pos);
    if 0 <= pos <= start < s.len() {
        seq![token_at(s, start).0] + tokens_from(s, token_at(s, start).1)
    } else {
        Seq::empty()
    }
}

#[via_fn]
proof fn tokens_from_decreases(s: Seq<char>, pos: int) {
    let start = skip_space(s, pos);
    if 0 <= pos <= start < s.len() {
        lemma_token_advances(s, start);
    }
}

/// The tokens of `s`.
pub open spec fn tokens_of(s: Seq<char>) -> Seq<TokenView> {
    tokens_from(s, 0)
}

/// The place in `s` of the token with number `index`, counting from 0 the
/// tokens that start at or after `from`: the position of its first
/// character, or `s.len()` where there is no such token.
pub open spec fn token_start(s: Seq<char>, from: int, index: nat) -> int
    decreases s.len() - from,
    via token_start_decreases
{
    let start = skip_space(s, from);
    if 0 <= from <= start < s.len() {
        if index == 0 {
            start
        } else {
            token_start(s, token_at(s, start).1, (index - 1) as nat)
        }
    } else {
        s.len() as int
    }
}

#[via_fn]
proof fn token_start_decreases(s: Seq<char>, from: int, index: nat) {
    let start = skip_space(s, from);
    if 0 <= from <= start < s.len() {
        lemma_token_advances(s, start);
    }
}

/// Cuts argument text into tokens.
pub fn tokenize(text: &str) -> (tokens: Vec<Token>)
    ensures
        tokens.deep_view() == tokens_of(text@),
{
    let chars = chars_of(text);
    let mut tokens: Vec<Token> = Vec::new();
    let mut pos: usize = 0;
    assert(tokens.deep_view() =~= Seq::empty());
    loop
        invariant
            chars@ == text@,
            pos <= chars.len(),
            tokens_of(text@) == tokens.deep_view() + tokens_from(text@, pos as int),
        decreases chars.len() - pos,
    {
        let start = space_end(&chars, pos);
        if start >= chars.len() {
            assert(tokens.deep_view() + Seq::<TokenView>::empty() =~= tokens.deep_view());
            return tokens;
        }
        let (token, end) = scan_token(text, &chars, start);
        let ghost before = tokens.deep_view();
        tokens.push(token);
        assert(tokens.deep_view() =~= before.push(token.deep_view()));
        assert(before + (seq![token.deep_view()] + tokens_from(text@, end as int))
            =~= before.push(token.deep_view()) + tokens_from(text@, end as int));
        pos = end;
    }
}

/// Finds where in the text a token starts, so that a failure, which points
/// at a token by its number, can be shown at its place. The place is
/// counted in characters; it is the length of the text where the text has no
/// token of that number.
pub fn locate(text: &str, position: usize) -> (offset: usize)
    ensures
        offset == token_start(text@, 0, position as nat),
{
    let chars = chars_of(text);
    let mut pos: usize = 0;
    let mut left = position;
    loop
        invariant
            chars@ == text@,
            pos <= chars.len(),
            token_start(text@, 0, position as nat) == token_start(text@, pos as int, left as nat),
        decreases chars.len() - pos,
    {
        let start = space_end(&chars, pos);
        if start >= chars.len() {
            return chars.len();
        }
        if left == 0 {
            return start;
        }
        pos = token_end(&chars, start);
        left -= 1;
    }
}

fn token_end(chars: &Vec<char>, start: usize) -> (end: usize)
    requires
        start < chars.len(),
    ensures
        end == token_at(chars@, start as int).1,
        start < end <= chars.len(),
{
    proof {
        lemma_token_advances(chars@, start as int);
    }
    let c = chars[start];
    if is_word(c) {
        scan_word(chars, start + 1)
    } else if c == '"' {
        scan_string(chars, start + 1)
    } else {
        start + 1
    }
}

fn scan_token(text: &str, chars: &Vec<char>, start: usize) -> (found: (Token, usize))
    requires
        chars@ == text@,
        start < chars.len(),
    ensures
        found.0.deep_view() == token_at(text@, start as int).0,
        found.1 == token_at(text@, start as int).1,
        start < found.1 <= chars.len(),
{
    let c = chars[start];
    let end = token_end(chars, start);
    let token = if is_word(c) {
        let word = text.substring_char(start, end).to_owned();
        if c >= '0' && c <= '9' {
            Token::Literal(word)
        } else {
            Token::Ident(word)
        }
    } else if c == '"' {
        Token::Literal(text.substring_char(start, end).to_owned())
    } else if c == '(' {
        Token::Open(Delimiter::Parenthesis)
    } else if c == ')' {
        Token::Close(Delimiter::Parenthesis)
    } else if c == '{' {
        Token::Open(Delimiter::Brace)
    } else if c == '}' {
        Token::Close(Delimiter::Brace)
    } else if c == '[' {
        Token::Open(Delimiter::Bracket)
    } else if c == ']' {
        Token::Close(Delimiter::Bracket)
    } else {
        Token::Punct(c)
    };
    (token, end)
}

fn chars_of(text: &str) -> (chars: Vec<char>)
    ensures
        chars@ == text@,
{
    let mut chars: Vec<char> = Vec::new();
    for c in it: text.chars()
        invariant
            it.seq() == text@,
            chars@ == text@.take(it.index() as int),
    {
        chars.push(c);
        assert(chars@ =~= text@.take(it.index() + 1));
    }
    assert(chars@ =~= text@);
    chars
}

fn is_word(c: char) -> (word: bool)
    ensures
        word == is_word_char(c),
{
    (c >= 'a' && c <= 'z') || (c >= 'A' && c <= 'Z') || (c >= '0' && c <= '9') || c == '_'
}

fn space_end(chars: &Vec<char>, from: usize) -> (end: usize)
    requires
        from <= chars.len(),
    ensures
        end == skip_space(chars@, from as int),
        from <= end <= chars.len(),
{
    let mut at = from;
    while at < chars.len() && is_whitespace(chars[at])
        invariant
            from <= at <= chars.len(),
            skip_space(chars@, from as int) == skip_space(chars@, at as int),
        decreases chars.len() - at,
    {
        at += 1;
    }
    at
}

fn scan_word(chars: &Vec<char>, from: usize) -> (end: usize)
    requires
        from <= chars.len(),
    ensures
        end == word_end(chars@, from as int),
        from <= end <= chars.len(),
{
    let mut at = from;
    while at < chars.len() && is_word(chars[at])
        invariant
            from <= at <= chars.len(),
            word_end(chars@, from as int) == word_end(chars@, at as int),
        decreases chars.len() - at,
    {
        at += 1;
    }
    at
}

fn scan_string(chars: &Vec<char>, from: usize) -> (end: usize)
    requires
        from <= chars.len(),
    ensures
        end == string_end(chars@, from as int),
        from <= end <= chars.len(),
{
    let mut at = from;
    while at < chars.len()
        invariant
            from <= at <= chars.len(),
            string_end(chars@, from as int) == string_end(chars@, at as int),
        decreases chars.len() - at,
    {
        if chars[at] == '"' {
            return at + 1;
        }
        if chars[at] == '\\' && at + 1 < chars.len() {
            at += 2;
        } else {
            at += 1;
        }
    }
    at
}

/// Places and tokens go together: a number has a place inside the text
/// exactly when the text has a token of that number, and the token that
/// starts at that place is that token.
pub proof fn law_every_token_has_its_place(s: Seq<char>, index: nat)
    ensures
        index < tokens_of(s).len() <==> token_start(s, 0, index) < s.len(),
        index < tokens_of(s).len() ==> 0 <= token_start(s, 0, index) && token_at(
            s,
            token_start(s, 0, index),
        ).0 == tokens_of(s)[index as int],
{
    lemma_token_places(s, 0, index);
}

proof fn lemma_token_places(s: Seq<char>, from: int, index: nat)
    requires
        0 <= from <= s.len(),
    ensures
        index < tokens_from(s, from).len() <==> token_start(s, from, index) < s.len(),
        index < tokens_from(s, from).len() ==> from <= token_start(s, from, index) && token_at(
            s,
            token_start(s, from, index),
        ).0 == tokens_from(s, from)[index as int],
    decreases s.len() - from,
{
    lemma_skip_space(s, from);
    let start = skip_space(s, from);
    if start < s.len() {
        lemma_token_advances(s, start);
        if index > 0 {
            lemma_token_places(s, token_at(s, start).1, (index - 1) as nat);
        }
    }
}

/// A run of word characters ends at or after its start, and within the
/// text.
pub proof fn lemma_word_end(s: Seq<char>, from: int)
    requires
        0 <= from <= s.len(),
    ensures
        from <= word_end(s, from) <= s.len(),
    decreases s.len() - from,
{
    if from < s.len() && is_word_char(s[from]) {
        lemma_word_end(s, from + 1);
    }
}

/// A string literal ends at or after the start of its content, and within
/// the text.
pub proof fn lemma_string_end(s: Seq<char>, from: int)
    requires
        0 <= from <= s.len(),
    ensures
        from <= string_end(s, from) <= s.len(),
    decreases s.len() - from,
{
    if from < s.len() && s[from] != '"' {
        if s[from] == '\\' && from + 1 < s.len() {
            lemma_string_end(s, from + 2);
        } else {
            lemma_string_end(s, from + 1);
        }
    }
}

/// Every token takes at least one character, and ends within the text.
pub proof fn lemma_token_advances(s: Seq<char>, pos: int)
    requires
        0 <= pos < s.len(),
    ensures
        pos < token_at(s, pos).1 <= s.len(),
{
    lemma_word_end(s, pos + 1);
    lemma_string_end(s, pos + 1);
}

} // verus!
