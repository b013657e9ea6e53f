//! Writing fields down.
//!
//! Every list of fields has a plain way to be written as symbols: each field
//! as `key = "value"` or `params = { ... }`, each followed by a comma. Read
//! back, that writing gives the same fields, so the argument language can
//! say every record of the general form.

use vstd::prelude::*;
use crate::error::GrammarErrorView;
use crate::grammar::{
    field_at, fields_from, key_of, param_at, params_from, parse_arguments, stub_word, Key,
};
use crate::record::{record_of, DocSpecView, FieldView, ParamView, TextKey};
use crate::token::LexemeView;

verus! {

/// The name that spells a text key.
pub open spec fn key_name(key: TextKey) -> Seq<char> {
    match key {
        TextKey::Summary => "summary"@,
        TextKey::Returns => "returns"@,
        TextKey::Deprecated => "deprecated"@,
        TextKey::DeprecatedSince => "deprecated_since"@,
        TextKey::Since => "since"@,
        TextKey::Example => "example"@,
        TextKey::Panics => "panics"@,
        TextKey::Safety => "safety"@,
        TextKey::SeeAlso => "see_also"@,
        TextKey::Invariants => "invariants"@,
        TextKey::Note => "note"@,
    }
}

/// One pair, with the comma behind it.
pub open spec fn written_pair(param: ParamView) -> Seq<LexemeView> {
    seq![
        LexemeView::Str(param.name),
        LexemeView::Colon,
        LexemeView::Str(param.desc),
        LexemeView::Comma,
    ]
}

/// The pairs of a block, each with a comma behind it.
pub open spec fn written_pairs(params: Seq<ParamView>) -> Seq<LexemeView>
    decreases params.len(),
{
    if params.len() == 0 {
        Seq::empty()
    } else {
        written_pair(params[0]) + written_pairs(params.drop_first())
    }
}

/// One field: its key, `=`, and its string or its block.
pub open spec fn written_field(field: FieldView) -> Seq<LexemeView> {
    match field {
        FieldView::Text(key, value) => seq![
            LexemeView::Ident(key_name(key)),
            LexemeView::Assign,
            LexemeView::Str(value),
        ],
        FieldView::Params(params) => seq![
            LexemeView::Ident("params"@),
            LexemeView::Assign,
            LexemeView::OpenBrace,
        ] + written_pairs(params) + seq![LexemeView::CloseBrace],
    }
}

/// The fields of a list, each with a comma behind it.
pub open spec fn written_fields(fields: Seq<FieldView>) -> Seq<LexemeView>
    decreases fields.len(),
{
    if fields.len() == 0 {
        Seq::empty()
    } else {
        written_field(fields[0]) + seq![LexemeView::Comma] + written_fields(fields.drop_first())
    }
}

/// Every key is found under its own name, and no key is spelled like the
/// stub word.
pub proof fn lemma_key_names(key: TextKey)
    ensures
        key_of(key_name(key)) == Some(Key::Text(key)),
        key_of("params"@) == Some(Key::Params),
        key_name(key) != stub_word(),
        "params"@ != stub_word(),
{
    reveal_strlit("summary");
    reveal_strlit("returns");
    reveal_strlit("deprecated");
    reveal_strlit("deprecated_since");
    reveal_strlit("since");
    reveal_strlit("example");
    reveal_strlit("panics");
    reveal_strlit("safety");
    reveal_strlit("see_also");
    reveal_strlit("invariants");
    reveal_strlit("note");
    reveal_strlit("params");
    reveal_strlit("unimplemented");
    assert("summary"@[0] == 's' && "returns"@[0] == 'r' && "example"@[0] == 'e');
    assert("deprecated"@[0] == 'd' && "invariants"@[0] == 'i');
    assert("panics"@[0] == 'p' && "safety"@[0] == 's' && "params"@[0] == 'p');
    assert("panics"@[2] == 'n' && "params"@[2] == 'r');
    assert("summary"@.len() == 7 && "returns"@.len() == 7 && "example"@.len() == 7);
    assert("deprecated"@.len() == 10 && "invariants"@.len() == 10);
    assert("panics"@.len() == 6 && "safety"@.len() == 6 && "params"@.len() == 6);
    assert("deprecated_since"@.len() == 16 && "since"@.len() == 5 && "see_also"@.len() == 8);
    assert("note"@.len() == 4 && "unimplemented"@.len() == 13);
}

proof fn lemma_pairs_read_back(
    before: Seq<LexemeView>,
    params: Seq<ParamView>,
    after: Seq<LexemeView>,
)
    ensures
        params_from(
            before + written_pairs(params) + seq![LexemeView::CloseBrace] + after,
            before.len() as int,
        ) == Ok::<(Seq<ParamView>, int), GrammarErrorView>(
            (params, (before.len() + written_pairs(params).len() + 1) as int),
        ),
    decreases params.len(),
{
    let ts = before + written_pairs(params) + seq![LexemeView::CloseBrace] + after;
    let pos = before.len() as int;
    if params.len() == 0 {
        assert(ts[pos] == LexemeView::CloseBrace);
        assert(params =~= Seq::empty());
    } else {
        let rest = params.drop_first();
        let pair = written_pair(params[0]);
        assert(ts =~= (before + pair) + written_pairs(rest) + seq![LexemeView::CloseBrace]
            + after);
        assert(ts[pos] == pair[0] && ts[pos + 1] == pair[1] && ts[pos + 2] == pair[2] && ts[pos
            + 3] == pair[3]);
        assert(param_at(ts, pos) == Ok::<(ParamView, int), GrammarErrorView>(
            (params[0], pos + 3),
        ));
        lemma_pairs_read_back(before + pair, rest, after);
        assert(seq![params[0]] + rest =~= params);
    }
}

proof fn lemma_field_reads_back(before: Seq<LexemeView>, field: FieldView, after: Seq<LexemeView>)
    ensures
        field_at(before + written_field(field) + after, before.len() as int) == Ok::<
            (FieldView, int),
            GrammarErrorView,
        >((field, (before.len() + written_field(field).len()) as int)),
{
    let ts = before + written_field(field) + after;
    let pos = before.len() as int;
    let written = written_field(field);
    assert(ts[pos] == written[0] && ts[pos + 1] == written[1] && ts[pos + 2] == written[2]);
    match field {
        FieldView::Text(key, value) => {
            lemma_key_names(key);
        },
        FieldView::Params(params) => {
            lemma_key_names(TextKey::Summary);
            let head = seq![
                LexemeView::Ident("params"@),
                LexemeView::Assign,
                LexemeView::OpenBrace,
            ];
            lemma_pairs_read_back(before + head, params, after);
            assert(ts =~= (before + head) + written_pairs(params) + seq![LexemeView::CloseBrace]
                + after);
        },
    }
}

proof fn lemma_fields_read_back(before: Seq<LexemeView>, fields: Seq<FieldView>)
    ensures
        fields_from(before + written_fields(fields), before.len() as int) == Ok::<
            Seq<FieldView>,
            GrammarErrorView,
        >(fields),
    decreases fields.len(),
{
    let ts = before + written_fields(fields);
    let pos = before.len() as int;
    if fields.len() == 0 {
        assert(fields =~= Seq::empty());
    } else {
        let rest = fields.drop_first();
        let written = written_field(fields[0]);
        let next = pos + written.len();
        lemma_field_reads_back(before, fields[0], seq![LexemeView::Comma] + written_fields(rest));
        assert(ts =~= before + written + (seq![LexemeView::Comma] + written_fields(rest)));
        assert(ts[next] == LexemeView::Comma);
        lemma_fields_read_back(before + written + seq![LexemeView::Comma], rest);
        assert(ts =~= (before + written + seq![LexemeView::Comma]) + written_fields(rest));
        assert(seq![fields[0]] + rest =~= fields);
    }
}

/// What is written down is read back: the writing of any list of fields is
/// accepted, its fields are the list, and its record is the record of the
/// list.
pub proof fn law_written_fields_read_back(fields: Seq<FieldView>)
    ensures
        fields_from(written_fields(fields), 0) == Ok::<Seq<FieldView>, GrammarErrorView>(fields),
        parse_arguments(written_fields(fields)) == Ok::<DocSpecView, GrammarErrorView>(
            record_of(fields),
        ),
{
    lemma_fields_read_back(Seq::empty(), fields);
    assert(Seq::<LexemeView>::empty() + written_fields(fields) =~= written_fields(fields));
    if fields.len() > 0 {
        let ts = written_fields(fields);
        assert(ts[0] == written_field(fields[0])[0]);
        match fields[0] {
            FieldView::Text(key, _) => {
                lemma_key_names(key);
            },
            FieldView::Params(_) => {
                lemma_key_names(TextKey::Summary);
            },
        }
    }
}

} // verus!
