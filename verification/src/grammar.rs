//! The argument language.
//!
//! An argument list is either the stub shorthand, `unimplemented` alone or
//! with `= "reason"`, or a run of `key = value` fields separated by commas.
//! Every key but `params` takes a string literal; `params` takes a block in
//! braces that holds `"name": "description"` pairs separated by commas. A
//! comma may follow the last field and the last pair. Fields may come in any
//! order, and a key that is written twice keeps its last value.
//!
//! The grammar is stated over positions in a run of symbols, and every failure
//! carries the position of the symbol that caused it.

use vstd::prelude::*;
use vstd::string::*;
use crate::error::{ErrorKind, ErrorKindView, GrammarError, GrammarErrorView};
use crate::record::{
    law_fields_make_no_stub, record_of, DocSpec, DocSpecView, Field, FieldView, Param, ParamView,
    TextKey,
};
use crate::token::{classify, lexemes_of, Lexeme, LexemeView, Token};

verus! {

/// A key of the argument language.
#[derive(Clone, Copy, Debug, PartialEq, Eq, Structural)]
pub enum Key {
    /// A key that takes a string.
    Text(TextKey),
    /// `params`, which takes a block of pairs.
    Params,
}

/// The key that `name` spells, if any.
pub open spec fn key_of(name: Seq<char>) -> Option<Key> {
    if name == "summary"@ {
        Some(Key::Text(TextKey::Summary))
    } else if name == "returns"@ {
        Some(Key::Text(TextKey::Returns))
    } else if name == "deprecated"@ {
        Some(Key::Text(TextKey::Deprecated))
    } else if name == "deprecated_since"@ {
        Some(Key::Text(TextKey::DeprecatedSince))
    } else if name == "since"@ {
        Some(Key::Text(TextKey::Since))
    } else if name == "example"@ {
        Some(Key::Text(TextKey::Example))
    } else if name == "panics"@ {
        Some(Key::Text(TextKey::Panics))
    } else if name == "safety"@ {
        Some(Key::Text(TextKey::Safety))
    } else if name == "see_also"@ {
        Some(Key::Text(TextKey::SeeAlso))
    } else if name == "invariants"@ {
        Some(Key::Text(TextKey::Invariants))
    } else if name == "note"@ {
        Some(Key::Text(TextKey::Note))
    } else if name == "params"@ {
        Some(Key::Params)
    } else {
        None
    }
}

/// The word that opens the stub shorthand.
pub open spec fn stub_word() -> Seq<char> {
    "unimplemented"@
}

/// Whether position `pos` of `ts` holds the symbol `symbol`.
pub open spec fn holds(ts: Seq<LexemeView>, pos: int, symbol: LexemeView) -> bool {
    0 <= pos < ts.len() && ts[pos] == symbol
}

/// The value of the string at position `pos`, if a string stands there.
pub open spec fn string_at(ts: Seq<LexemeView>, pos: int) -> Option<Seq<char>> {
    if 0 <= pos < ts.len() {
        match ts[pos] {
            LexemeView::Str(value) => Some(value),
            _ => None,
        }
    } else {
        None
    }
}

/// The name of the identifier at position `pos`, if an identifier stands there.
pub open spec fn ident_at(ts: Seq<LexemeView>, pos: int) -> Option<Seq<char>> {
    if 0 <= pos < ts.len() {
        match ts[pos] {
            LexemeView::Ident(name) => Some(name),
            _ => None,
        }
    } else {
        None
    }
}

/// The error of kind `kind` at position `position`.
pub open spec fn fail(kind: ErrorKindView, position: int) -> GrammarErrorView {
    GrammarErrorView { kind, position }
}

/// The pair `"name": "description"` that starts at `pos`, with the position
/// after it.
pub open spec fn param_at(ts: Seq<LexemeView>, pos: int) -> Result<
    (ParamView, int),
    GrammarErrorView,
> {
    match string_at(ts, pos) {
        None => Err(fail(ErrorKindView::ExpectedString, pos)),
        Some(name) => if !holds(ts, pos + 1, LexemeView::Colon) {
            Err(fail(ErrorKindView::ExpectedColon, pos + 1))
        } else {
            match string_at(ts, pos + 2) {
                None => Err(fail(ErrorKindView::ExpectedString, pos + 2)),
                Some(desc) => Ok((ParamView { name, desc }, pos + 3)),
            }
        },
    }
}

/// `first` followed by the pairs of `rest`, or the failure of `rest`.
pub open spec fn params_after(
    first: Seq<ParamView>,
    rest: Result<(Seq<ParamView>, int), GrammarErrorView>,
) -> Result<(Seq<ParamView>, int), GrammarErrorView> {
    match rest {
        Ok((params, end)) => Ok((first + params, end)),
        Err(e) => Err(e),
    }
}

/// The pairs of a `params` block from `pos`, a position inside the braces
/// where a pair or the closing brace is due, with the position after the
/// closing brace.
pub open spec fn params_from(ts: Seq<LexemeView>, pos: int) -> Result<
    (Seq<ParamView>, int),
    GrammarErrorView,
>
    decreases ts.len() - pos,
{
    if pos >= ts.len() {
        Err(fail(ErrorKindView::UnclosedBrace, pos))
    } else if holds(ts, pos, LexemeView::CloseBrace) {
        Ok((Seq::empty(), pos + 1))
    } else {
        match param_at(ts, pos) {
            Err(e) => Err(e),
            Ok((param, next)) => if next >= ts.len() {
                Err(fail(ErrorKindView::UnclosedBrace, next))
            } else if holds(ts, next, LexemeView::CloseBrace) {
                Ok((seq![param], next + 1))
            } else if holds(ts, next, LexemeView::Comma) {
                params_after(seq![param], params_from(ts, next + 1))
            } else {
                Err(fail(ErrorKindView::ExpectedComma, next))
            },
        }
    }
}

/// The field `key = value` that starts at `pos`, with the position after it.
/// The `=` is looked for before the key is looked up, so a stray word fails
/// for its missing `=`, whether or not it is a key.
pub open spec fn field_at(ts: Seq<LexemeView>, pos: int) -> Result<
    (FieldView, int),
    GrammarErrorView,
> {
    match ident_at(ts, pos) {
        None => Err(fail(ErrorKindView::ExpectedKey, pos)),
        Some(name) => if !holds(ts, pos + 1, LexemeView::Assign) {
            Err(fail(ErrorKindView::ExpectedAssign, pos + 1))
        } else {
            match key_of(name) {
                None => Err(fail(ErrorKindView::UnknownKey(name), pos)),
                Some(Key::Text(key)) => match string_at(ts, pos + 2) {
                    None => Err(fail(ErrorKindView::ExpectedString, pos + 2)),
                    Some(value) => Ok((FieldView::Text(key, value), pos + 3)),
                },
                Some(Key::Params) => if !holds(ts, pos + 2, LexemeView::OpenBrace) {
                    Err(fail(ErrorKindView::ExpectedBrace, pos + 2))
                } else {
                    match params_from(ts, pos + 3) {
                        Err(e) => Err(e),
                        Ok((params, end)) => Ok((FieldView::Params(params), end)),
                    }
                },
            }
        },
    }
}

/// `first` followed by the fields of `rest`, or the failure of `rest`.
pub open spec fn fields_after(
    first: Seq<FieldView>,
    rest: Result<Seq<FieldView>, GrammarErrorView>,
) -> Result<Seq<FieldView>, GrammarErrorView> {
    match rest {
        Ok(fields) => Ok(first + fields),
        Err(e) => Err(e),
    }
}

/// The fields from `pos`, a position where a field or the end of the
/// arguments is due.
pub open spec fn fields_from(ts: Seq<LexemeView>, pos: int) -> Result<
    Seq<FieldView>,
    GrammarErrorView,
>
    decreases ts.len() - pos,
    via fields_from_decreases
{
    if pos >= ts.len() {
        Ok(Seq::empty())
    } else {
        match field_at(ts, pos) {
            Err(e) => Err(e),
            Ok((field, next)) => if next >= ts.len() {
                Ok(seq![field])
            } else if holds(ts, next, LexemeView::Comma) {
                fields_after(seq![field], fields_from(ts, next + 1))
            } else {
                Err(fail(ErrorKindView::ExpectedComma, next))
            },
        }
    }
}

#[via_fn]
proof fn fields_from_decreases(ts: Seq<LexemeView>, pos: int) {
    lemma_field_advances(ts, pos);
}

/// The record of a stub shorthand. The word `unimplemented` at position 0 is
/// taken as read.
pub open spec fn stub_from(ts: Seq<LexemeView>) -> Result<DocSpecView, GrammarErrorView> {
    if ts.len() <= 1 {
        Ok(DocSpecView::stub(None))
    } else if holds(ts, 1, LexemeView::Assign) {
        match string_at(ts, 2) {
            None => Err(fail(ErrorKindView::ExpectedString, 2)),
            Some(reason) => if ts.len() == 3 {
                Ok(DocSpecView::stub(Some(reason)))
            } else {
                Err(fail(ErrorKindView::UnexpectedAfterUnimplemented, 3))
            },
        }
    } else {
        Err(fail(ErrorKindView::UnexpectedAfterUnimplemented, 1))
    }
}

/// The record that the symbols `ts` describe, or the first failure met when
/// reading them from left to right.
pub open spec fn parse_arguments(ts: Seq<LexemeView>) -> Result<DocSpecView, GrammarErrorView> {
    if ident_at(ts, 0) == Some(stub_word()) {
        stub_from(ts)
    } else {
        match fields_from(ts, 0) {
            Ok(fields) => Ok(record_of(fields)),
            Err(e) => Err(e),
        }
    }
}

/// The mathematical value of a parsed item with the position after it.
pub open spec fn step_view<T: DeepView>(step: Result<(T, usize), GrammarError>) -> Result<
    (T::V, int),
    GrammarErrorView,
> {
    match step {
        Ok((item, next)) => Ok((item.deep_view(), next as int)),
        Err(e) => Err(e@),
    }
}

/// The mathematical value of an interpretation's outcome.
pub open spec fn outcome_view<T: DeepView>(outcome: Result<T, GrammarError>) -> Result<
    T::V,
    GrammarErrorView,
> {
    match outcome {
        Ok(item) => Ok(item.deep_view()),
        Err(e) => Err(e@),
    }
}

/// Looks a key up by its name.
pub fn lookup(name: &String) -> (key: Option<Key>)
    ensures
        key == key_of(name@),
{
    if text_is(name, "summary") {
        Some(Key::Text(TextKey::Summary))
    } else if text_is(name, "returns") {
        Some(Key::Text(TextKey::Returns))
    } else if text_is(name, "deprecated") {
        Some(Key::Text(TextKey::Deprecated))
    } else if text_is(name, "deprecated_since") {
        Some(Key::Text(TextKey::DeprecatedSince))
    } else if text_is(name, "since") {
        Some(Key::Text(TextKey::Since))
    } else if text_is(name, "example") {
        Some(Key::Text(TextKey::Example))
    } else if text_is(name, "panics") {
        Some(Key::Text(TextKey::Panics))
    } else if text_is(name, "safety") {
        Some(Key::Text(TextKey::Safety))
    } else if text_is(name, "see_also") {
        Some(Key::Text(TextKey::SeeAlso))
    } else if text_is(name, "invariants") {
        Some(Key::Text(TextKey::Invariants))
    } else if text_is(name, "note") {
        Some(Key::Text(TextKey::Note))
    } else if text_is(name, "params") {
        Some(Key::Params)
    } else {
        None
    }
}

impl Param {
    /// Reads the pair `"name": "description"` that starts at `pos`, and
    /// gives it with the position after it.
    pub fn parse(lexemes: &[Lexeme], pos: usize) -> (step: Result<(Param, usize), GrammarError>)
        ensures
            step_view(step) == param_at(lexemes.deep_view(), pos as int),
    {
        assert(lexemes.deep_view().len() == lexemes.len());
        match read_string(lexemes, pos) {
            None => error(ErrorKind::ExpectedString, pos),
            Some(name) => {
                if !symbol_at(lexemes, pos + 1, Lexeme::Colon) {
                    return error(ErrorKind::ExpectedColon, pos + 1);
                }
                match read_string(lexemes, pos + 2) {
                    None => error(ErrorKind::ExpectedString, pos + 2),
                    Some(desc) => Ok((Param { name, desc }, pos + 3)),
                }
            },
        }
    }
}

impl Field {
    /// Reads the field `key = value` that starts at `pos`, and gives it with
    /// the position after it.
    pub fn parse(lexemes: &[Lexeme], pos: usize) -> (step: Result<(Field, usize), GrammarError>)
        ensures
            step_view(step) == field_at(lexemes.deep_view(), pos as int),
    {
        assert(lexemes.deep_view().len() == lexemes.len());
        match read_ident(lexemes, pos) {
            None => error(ErrorKind::ExpectedKey, pos),
            Some(name) => {
                if !symbol_at(lexemes, pos + 1, Lexeme::Assign) {
                    return error(ErrorKind::ExpectedAssign, pos + 1);
                }
                match lookup(name) {
                    None => error(ErrorKind::UnknownKey(name.clone()), pos),
                    Some(Key::Text(key)) => match read_string(lexemes, pos + 2) {
                        None => error(ErrorKind::ExpectedString, pos + 2),
                        Some(value) => Ok((Field::Text(key, value), pos + 3)),
                    },
                    Some(Key::Params) => {
                        if !symbol_at(lexemes, pos + 2, Lexeme::OpenBrace) {
                            return error(ErrorKind::ExpectedBrace, pos + 2);
                        }
                        match parse_params(lexemes, pos + 3) {
                            Err(e) => Err(e),
                            Ok((params, end)) => Ok((Field::Params(params), end)),
                        }
                    },
                }
            },
        }
    }
}

impl DocSpec {
    /// Interprets an argument list that has been reduced to symbols.
    ///
    /// Succeeds exactly on the lists that the argument language admits, with
    /// the record they describe; fails otherwise, with the first failure met
    /// from the left.
    pub fn parse(lexemes: &[Lexeme]) -> (outcome: Result<DocSpec, GrammarError>)
        ensures
            outcome_view(outcome) == parse_arguments(lexemes.deep_view()),
    {
        let ghost ts = lexemes.deep_view();
        assert(ts.len() == lexemes.len());
        if let Some(word) = read_ident(lexemes, 0) {
            if text_is(word, "unimplemented") {
                return parse_stub(lexemes);
            }
        }
        let mut spec = DocSpec::default();
        let ghost mut done: Seq<FieldView> = Seq::empty();
        let mut at: usize = 0;
        loop
            invariant
                ts == lexemes.deep_view(),
                ts.len() == lexemes.len(),
                ident_at(ts, 0) != Some(stub_word()),
                spec@ == record_of(done),
                fields_from(ts, 0) == fields_after(done, fields_from(ts, at as int)),
            decreases lexemes.len() - at,
        {
            if at >= lexemes.len() {
                assert(done + Seq::<FieldView>::empty() =~= done);
                return Ok(spec);
            }
            match Field::parse(lexemes, at) {
                Err(e) => {
                    return Err(e);
                },
                Ok((field, next)) => {
                    proof {
                        lemma_field_advances(ts, at as int);
                    }
                    let ended = next >= lexemes.len();
                    if !ended && !symbol_at(lexemes, next, Lexeme::Comma) {
                        return error(ErrorKind::ExpectedComma, next);
                    }
                    proof {
                        assert(done.push(field@).drop_last() =~= done);
                        assert(done + seq![field@] =~= done.push(field@));
                        if let Ok(more) = fields_from(ts, next + 1) {
                            assert(done + (seq![field@] + more) =~= done.push(field@) + more);
                        }
                        done = done.push(field@);
                    }
                    spec.set(field);
                    if ended {
                        return Ok(spec);
                    }
                    at = next + 1;
                },
            }
        }
    }
}

/// Interprets an argument list as the host handed it over.
///
/// Every token is first reduced to the symbol it stands for; the symbols are
/// then read as [`DocSpec::parse`] reads them.
pub fn interpret(tokens: &[Token]) -> (outcome: Result<DocSpec, GrammarError>)
    ensures
        outcome_view(outcome) == parse_arguments(lexemes_of(tokens.deep_view())),
{
    let lexemes = classify(tokens);
    DocSpec::parse(lexemes.as_slice())
}

fn error<T>(kind: ErrorKind, position: usize) -> (r: Result<T, GrammarError>)
    ensures
        r matches Err(e) && e@ == fail(kind@, position as int),
{
    Err(GrammarError { kind, position })
}

fn text_is(name: &String, word: &str) -> (same: bool)
    ensures
        same == (name@ == word@),
{
    *name == word.to_owned()
}

fn read_string(lexemes: &[Lexeme], pos: usize) -> (value: Option<String>)
    ensures
        value.deep_view() == string_at(lexemes.deep_view(), pos as int),
{
    if pos < lexemes.len() {
        match &lexemes[pos] {
            Lexeme::Str(value) => Some(value.clone()),
            _ => None,
        }
    } else {
        None
    }
}

fn read_ident(lexemes: &[Lexeme], pos: usize) -> (name: Option<&String>)
    ensures
        name.deep_view() == ident_at(lexemes.deep_view(), pos as int),
{
    if pos < lexemes.len() {
        match &lexemes[pos] {
            Lexeme::Ident(name) => Some(name),
            _ => None,
        }
    } else {
        None
    }
}

fn symbol_at(lexemes: &[Lexeme], pos: usize, symbol: Lexeme) -> (found: bool)
    ensures
        found == holds(lexemes.deep_view(), pos as int, symbol@),
{
    pos < lexemes.len() && lexemes[pos].same(&symbol)
}

fn parse_params(lexemes: &[Lexeme], pos: usize) -> (step: Result<(Vec<Param>, usize), GrammarError>)
    ensures
        step_view(step) == params_from(lexemes.deep_view(), pos as int),
{
    let ghost ts = lexemes.deep_view();
    assert(ts.len() == lexemes.len());
    let mut params: Vec<Param> = Vec::new();
    let mut at = pos;
    assert(params.deep_view() =~= Seq::empty());
    loop
        invariant
            ts == lexemes.deep_view(),
            ts.len() == lexemes.len(),
            params_from(ts, pos as int) == params_after(
                params.deep_view(),
                params_from(ts, at as int),
            ),
        decreases lexemes.len() - at,
    {
        if at >= lexemes.len() {
            return error(ErrorKind::UnclosedBrace, at);
        }
        if symbol_at(lexemes, at, Lexeme::CloseBrace) {
            assert(params.deep_view() + Seq::<ParamView>::empty() =~= params.deep_view());
            return Ok((params, at + 1));
        }
        match Param::parse(lexemes, at) {
            Err(e) => {
                return Err(e);
            },
            Ok((param, next)) => {
                if next >= lexemes.len() {
                    return error(ErrorKind::UnclosedBrace, next);
                }
                let ghost before = params.deep_view();
                let closes = symbol_at(lexemes, next, Lexeme::CloseBrace);
                let continues = symbol_at(lexemes, next, Lexeme::Comma);
                if !closes && !continues {
                    return error(ErrorKind::ExpectedComma, next);
                }
                params.push(param);
                assert(params.deep_view() =~= before + seq![param@]);
                if closes {
                    return Ok((params, next + 1));
                }
                proof {
                    let rest = params_from(ts, next + 1);
                    if let Ok((more, end)) = rest {
                        assert(before + (seq![param@] + more) =~= (before + seq![param@]) + more);
                    }
                }
                at = next + 1;
            },
        }
    }
}

fn parse_stub(lexemes: &[Lexeme]) -> (outcome: Result<DocSpec, GrammarError>)
    ensures
        outcome_view(outcome) == stub_from(lexemes.deep_view()),
{
    assert(lexemes.deep_view().len() == lexemes.len());
    if lexemes.len() <= 1 {
        return Ok(DocSpec::stub(None));
    }
    if !symbol_at(lexemes, 1, Lexeme::Assign) {
        return error(ErrorKind::UnexpectedAfterUnimplemented, 1);
    }
    match read_string(lexemes, 2) {
        None => error(ErrorKind::ExpectedString, 2),
        Some(reason) => {
            if lexemes.len() == 3 {
                Ok(DocSpec::stub(Some(reason)))
            } else {
                error(ErrorKind::UnexpectedAfterUnimplemented, 3)
            }
        },
    }
}

/// Every failure points at a token of the argument list, or just past its
/// end when the list stops too early.
pub proof fn law_failure_is_located(ts: Seq<LexemeView>)
    ensures
        parse_arguments(ts) matches Err(e) ==> 0 <= e.position <= ts.len(),
{
    lemma_fields_failure_is_located(ts, 0);
}

/// A key that the argument language does not know, followed by `=`, fails
/// the field it starts, and with it the fields from there on, whatever
/// comes after it. The failure names the key and points at it.
pub proof fn law_unknown_key_is_rejected(ts: Seq<LexemeView>, pos: int, name: Seq<char>)
    requires
        ident_at(ts, pos) == Some(name),
        holds(ts, pos + 1, LexemeView::Assign),
        key_of(name) is None,
    ensures
        field_at(ts, pos) == Err::<(FieldView, int), _>(
            fail(ErrorKindView::UnknownKey(name), pos),
        ),
        fields_from(ts, pos) == Err::<Seq<FieldView>, _>(
            fail(ErrorKindView::UnknownKey(name), pos),
        ),
{
}

/// The stub shorthand and the general form exclude each other: a record is
/// a stub exactly when the arguments open with the stub word, and then it
/// holds the flag, the reason if one was given, and nothing else; a record
/// of the general form has no reason.
pub proof fn law_stub_is_exclusive(ts: Seq<LexemeView>)
    ensures
        parse_arguments(ts) matches Ok(spec) ==> {
            &&& spec.is_unimplemented <==> ident_at(ts, 0) == Some(stub_word())
            &&& spec.is_unimplemented ==> spec == DocSpecView::stub(spec.unimplemented_reason)
            &&& !spec.is_unimplemented ==> spec.unimplemented_reason is None
        },
{
    if let Ok(fields) = fields_from(ts, 0) {
        law_fields_make_no_stub(fields);
    }
}

/// A comma may follow the last field: arguments of the general form that
/// are accepted, and do not end in a comma already, give the same record
/// with a comma added.
pub proof fn law_trailing_comma_is_permitted(ts: Seq<LexemeView>)
    requires
        ts.len() > 0,
        ts.last() != LexemeView::Comma,
        ident_at(ts, 0) != Some(stub_word()),
        parse_arguments(ts) is Ok,
    ensures
        parse_arguments(ts.push(LexemeView::Comma)) == parse_arguments(ts),
{
    lemma_fields_allow_trailing_comma(ts, 0);
    assert(ts.push(LexemeView::Comma)[0] == ts[0]);
}

/// A block of pairs ends after the position where it began, and within the
/// arguments.
pub proof fn lemma_params_advance(ts: Seq<LexemeView>, pos: int)
    requires
        0 <= pos,
    ensures
        params_from(ts, pos) matches Ok((_, end)) ==> pos < end <= ts.len(),
    decreases ts.len() - pos,
{
    if pos < ts.len() && !holds(ts, pos, LexemeView::CloseBrace) {
        if let Ok((_, next)) = param_at(ts, pos) {
            if next < ts.len() && holds(ts, next, LexemeView::Comma) {
                lemma_params_advance(ts, next + 1);
            }
        }
    }
}

/// A field ends at least three symbols after the position where it began,
/// and within the arguments.
pub proof fn lemma_field_advances(ts: Seq<LexemeView>, pos: int)
    ensures
        field_at(ts, pos) matches Ok((_, next)) ==> pos + 3 <= next <= ts.len(),
{
    if 0 <= pos {
        lemma_params_advance(ts, pos + 3);
    }
}

/// A failure inside a block of pairs lies within the arguments, or just
/// after them.
pub proof fn lemma_params_failure_is_located(ts: Seq<LexemeView>, pos: int)
    requires
        0 <= pos <= ts.len(),
    ensures
        params_from(ts, pos) matches Err(e) ==> 0 <= e.position <= ts.len(),
    decreases ts.len() - pos,
{
    if pos < ts.len() && !holds(ts, pos, LexemeView::CloseBrace) {
        if let Ok((_, next)) = param_at(ts, pos) {
            if next < ts.len() && holds(ts, next, LexemeView::Comma) {
                lemma_params_failure_is_located(ts, next + 1);
            }
        }
    }
}

/// A failure among the fields lies within the arguments, or just after
/// them.
pub proof fn lemma_fields_failure_is_located(ts: Seq<LexemeView>, pos: int)
    requires
        0 <= pos <= ts.len(),
    ensures
        fields_from(ts, pos) matches Err(e) ==> 0 <= e.position <= ts.len(),
    decreases ts.len() - pos,
{
    if pos < ts.len() {
        lemma_field_advances(ts, pos);
        if pos + 3 <= ts.len() {
            lemma_params_failure_is_located(ts, pos + 3);
        }
        if let Ok((_, next)) = field_at(ts, pos) {
            if next < ts.len() && holds(ts, next, LexemeView::Comma) {
                lemma_fields_failure_is_located(ts, next + 1);
            }
        }
    }
}

/// A block of pairs that is read in full is not changed by what is added
/// behind the arguments.
pub proof fn lemma_params_ignore_what_follows(ts: Seq<LexemeView>, more: Seq<LexemeView>, pos: int)
    requires
        0 <= pos,
        params_from(ts, pos) is Ok,
    ensures
        params_from(ts + more, pos) == params_from(ts, pos),
    decreases ts.len() - pos,
{
    let longer = ts + more;
    assert(forall|i: int| 0 <= i < ts.len() ==> longer[i] == ts[i]);
    if pos < ts.len() && !holds(ts, pos, LexemeView::CloseBrace) {
        if let Ok((_, next)) = param_at(ts, pos) {
            assert(param_at(longer, pos) == param_at(ts, pos));
            if next < ts.len() && holds(ts, next, LexemeView::Comma) {
                lemma_params_ignore_what_follows(ts, more, next + 1);
            }
        }
    }
}

/// A field that is read in full is not changed by what is added behind the
/// arguments.
pub proof fn lemma_field_ignores_what_follows(ts: Seq<LexemeView>, more: Seq<LexemeView>, pos: int)
    requires
        field_at(ts, pos) is Ok,
    ensures
        field_at(ts + more, pos) == field_at(ts, pos),
{
    let longer = ts + more;
    assert(forall|i: int| 0 <= i < ts.len() ==> longer[i] == ts[i]);
    if holds(ts, pos + 2, LexemeView::OpenBrace) {
        lemma_params_ignore_what_follows(ts, more, pos + 3);
    }
}

/// The fields of arguments that do not end in a comma are the same with a
/// comma added.
pub proof fn lemma_fields_allow_trailing_comma(ts: Seq<LexemeView>, pos: int)
    requires
        0 <= pos < ts.len(),
        ts.last() != LexemeView::Comma,
        fields_from(ts, pos) is Ok,
    ensures
        fields_from(ts.push(LexemeView::Comma), pos) == fields_from(ts, pos),
    decreases ts.len() - pos,
{
    let longer = ts.push(LexemeView::Comma);
    assert(longer =~= ts + seq![LexemeView::Comma]);
    lemma_field_advances(ts, pos);
    lemma_field_ignores_what_follows(ts, seq![LexemeView::Comma], pos);
    if let Ok((field, next)) = field_at(ts, pos) {
        if next < ts.len() {
            assert(longer[next] == ts[next]);
            lemma_fields_allow_trailing_comma(ts, next + 1);
        } else {
            assert(longer[next] == LexemeView::Comma);
            assert(fields_from(longer, next + 1) == Ok::<Seq<FieldView>, GrammarErrorView>(
                Seq::empty(),
            ));
            assert(seq![field] + Seq::<FieldView>::empty() =~= seq![field]);
        }
    }
}

} // verus!
