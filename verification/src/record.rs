//! The structured record that an argument list is interpreted into.

use vstd::prelude::*;

verus! {

/// One described parameter.
#[derive(Debug, PartialEq, Eq)]
pub struct Param {
    /// The parameter's name.
    pub name: String,
    /// What the parameter is for.
    pub desc: String,
}

/// The mathematical value of a [`Param`].
pub struct ParamView {
    pub name: Seq<char>,
    pub desc: Seq<char>,
}

impl DeepView for Param {
    type V = ParamView;

    open spec fn deep_view(&self) -> ParamView {
        ParamView { name: self.name@, desc: self.desc@ }
    }
}

impl View for Param {
    type V = ParamView;

    open spec fn view(&self) -> ParamView {
        self.deep_view()
    }
}

impl Clone for Param {
    fn clone(&self) -> (copy: Param)
        ensures
            copy@ == self@,
    {
        Param { name: self.name.clone(), desc: self.desc.clone() }
    }
}

/// What an annotation says about a function. A field that the annotation
/// does not mention is absent; one that it sets to the empty string is
/// present, and empty.
#[derive(Debug, PartialEq, Eq)]
pub struct DocSpec {
    /// A one-line description.
    pub summary: Option<String>,
    /// What the function returns.
    pub returns: Option<String>,
    /// The described parameters, in the order they were written. Names may
    /// repeat.
    pub params: Vec<Param>,
    /// Why the function is deprecated.
    pub deprecated: Option<String>,
    /// The version that deprecated the function.
    pub deprecated_since: Option<String>,
    /// The version that introduced the function.
    pub since: Option<String>,
    /// A line of example code.
    pub example: Option<String>,
    /// When the function panics.
    pub panics: Option<String>,
    /// What a caller must uphold.
    pub safety: Option<String>,
    /// Related symbols, separated by commas.
    pub see_also: Option<String>,
    /// What the function maintains.
    pub invariants: Option<String>,
    /// A remark.
    pub note: Option<String>,
    /// Whether the function is a stub.
    pub is_unimplemented: bool,
    /// Why the function is a stub.
    pub unimplemented_reason: Option<String>,
}

/// The mathematical value of a [`DocSpec`].
pub struct DocSpecView {
    pub summary: Option<Seq<char>>,
    pub returns: Option<Seq<char>>,
    pub params: Seq<ParamView>,
    pub deprecated: Option<Seq<char>>,
    pub deprecated_since: Option<Seq<char>>,
    pub since: Option<Seq<char>>,
    pub example: Option<Seq<char>>,
    pub panics: Option<Seq<char>>,
    pub safety: Option<Seq<char>>,
    pub see_also: Option<Seq<char>>,
    pub invariants: Option<Seq<char>>,
    pub note: Option<Seq<char>>,
    pub is_unimplemented: bool,
    pub unimplemented_reason: Option<Seq<char>>,
}

impl DocSpecView {
    /// The record of an annotation without arguments: every field absent.
    pub open spec fn empty() -> DocSpecView {
        DocSpecView {
            summary: None,
            returns: None,
            params: Seq::empty(),
            deprecated: None,
            deprecated_since: None,
            since: None,
            example: None,
            panics: None,
            safety: None,
            see_also: None,
            invariants: None,
            note: None,
            is_unimplemented: false,
            unimplemented_reason: None,
        }
    }

    /// The record of a stub: the flag, the reason if one was given, and
    /// nothing else.
    pub open spec fn stub(reason: Option<Seq<char>>) -> DocSpecView {
        DocSpecView { is_unimplemented: true, unimplemented_reason: reason, ..Self::empty() }
    }
}

impl DeepView for DocSpec {
    type V = DocSpecView;

    open spec fn deep_view(&self) -> DocSpecView {
        DocSpecView {
            summary: self.summary.deep_view(),
            returns: self.returns.deep_view(),
            params: self.params.deep_view(),
            deprecated: self.deprecated.deep_view(),
            deprecated_since: self.deprecated_since.deep_view(),
            since: self.since.deep_view(),
            example: self.example.deep_view(),
            panics: self.panics.deep_view(),
            safety: self.safety.deep_view(),
            see_also: self.see_also.deep_view(),
            invariants: self.invariants.deep_view(),
            note: self.note.deep_view(),
            is_unimplemented: self.is_unimplemented,
            unimplemented_reason: self.unimplemented_reason.deep_view(),
        }
    }
}

impl View for DocSpec {
    type V = DocSpecView;

    open spec fn view(&self) -> DocSpecView {
        self.deep_view()
    }
}

impl Default for DocSpec {
    /// The record with every field absent.
    fn default() -> (spec: DocSpec)
        ensures
            spec@ == DocSpecView::empty(),
    {
        let spec = DocSpec {
            summary: None,
            returns: None,
            params: Vec::new(),
            deprecated: None,
            deprecated_since: None,
            since: None,
            example: None,
            panics: None,
            safety: None,
            see_also: None,
            invariants: None,
            note: None,
            is_unimplemented: false,
            unimplemented_reason: None,
        };
        assert(spec.params.deep_view() =~= Seq::empty());
        spec
    }
}

/// A key whose value is a string.
#[derive(Clone, Copy, Debug, PartialEq, Eq, Structural)]
pub enum TextKey {
    Summary,
    Returns,
    Deprecated,
    DeprecatedSince,
    Since,
    Example,
    Panics,
    Safety,
    SeeAlso,
    Invariants,
    Note,
}

/// One `key = value` pair of an argument list.
#[derive(Debug, PartialEq, Eq)]
pub enum Field {
    /// A key with its string.
    Text(TextKey, String),
    /// `params` with its pairs.
    Params(Vec<Param>),
}

/// The mathematical value of a [`Field`].
pub enum FieldView {
    Text(TextKey, Seq<char>),
    Params(Seq<ParamView>),
}

impl DeepView for Field {
    type V = FieldView;

    open spec fn deep_view(&self) -> FieldView {
        match self {
            Field::Text(key, value) => FieldView::Text(*key, value@),
            Field::Params(params) => FieldView::Params(params.deep_view()),
        }
    }
}

impl View for Field {
    type V = FieldView;

    open spec fn view(&self) -> FieldView {
        self.deep_view()
    }
}

/// The key that a field writes: a text key, or `None` for `params`.
pub open spec fn field_key(field: FieldView) -> Option<TextKey> {
    match field {
        FieldView::Text(key, _) => Some(key),
        FieldView::Params(_) => None,
    }
}

/// `spec` after `field` is written into it. A key that was set before takes
/// the new value; `params` replaces the whole list.
pub open spec fn with_field(spec: DocSpecView, field: FieldView) -> DocSpecView {
    match field {
        FieldView::Text(key, value) => match key {
            TextKey::Summary => DocSpecView { summary: Some(value), ..spec },
            TextKey::Returns => DocSpecView { returns: Some(value), ..spec },
            TextKey::Deprecated => DocSpecView { deprecated: Some(value), ..spec },
            TextKey::DeprecatedSince => DocSpecView { deprecated_since: Some(value), ..spec },
            TextKey::Since => DocSpecView { since: Some(value), ..spec },
            TextKey::Example => DocSpecView { example: Some(value), ..spec },
            TextKey::Panics => DocSpecView { panics: Some(value), ..spec },
            TextKey::Safety => DocSpecView { safety: Some(value), ..spec },
            TextKey::SeeAlso => DocSpecView { see_also: Some(value), ..spec },
            TextKey::Invariants => DocSpecView { invariants: Some(value), ..spec },
            TextKey::Note => DocSpecView { note: Some(value), ..spec },
        },
        FieldView::Params(params) => DocSpecView { params: params, ..spec },
    }
}

/// The record that a list of fields describes: the empty record with each
/// field written into it in turn, so that of two fields with one key the
/// later one stands.
pub open spec fn record_of(fields: Seq<FieldView>) -> DocSpecView
    decreases fields.len(),
{
    if fields.len() == 0 {
        DocSpecView::empty()
    } else {
        with_field(record_of(fields.drop_last()), fields.last())
    }
}

impl DocSpec {
    /// The record of a stub with the given reason.
    pub fn stub(reason: Option<String>) -> (spec: DocSpec)
        ensures
            spec@ == DocSpecView::stub(reason.deep_view()),
    {
        let mut spec = DocSpec::default();
        spec.is_unimplemented = true;
        spec.unimplemented_reason = reason;
        spec
    }

    /// Writes one field into the record.
    pub fn set(&mut self, field: Field)
        ensures
            final(self)@ == with_field(old(self)@, field@),
    {
        match field {
            Field::Text(key, value) => match key {
                TextKey::Summary => self.summary = Some(value),
                TextKey::Returns => self.returns = Some(value),
                TextKey::Deprecated => self.deprecated = Some(value),
                TextKey::DeprecatedSince => self.deprecated_since = Some(value),
                TextKey::Since => self.since = Some(value),
                TextKey::Example => self.example = Some(value),
                TextKey::Panics => self.panics = Some(value),
                TextKey::Safety => self.safety = Some(value),
                TextKey::SeeAlso => self.see_also = Some(value),
                TextKey::Invariants => self.invariants = Some(value),
                TextKey::Note => self.note = Some(value),
            },
            Field::Params(params) => self.params = params,
        }
    }
}

/// Fields may come in any order: two fields with different keys can be
/// written in either order, to the same effect.
pub proof fn law_distinct_fields_commute(spec: DocSpecView, a: FieldView, b: FieldView)
    requires
        field_key(a) != field_key(b),
    ensures
        with_field(with_field(spec, a), b) == with_field(with_field(spec, b), a),
{
}

/// Of two fields with one key the later one stands alone.
pub proof fn law_later_field_wins(spec: DocSpecView, a: FieldView, b: FieldView)
    requires
        field_key(a) == field_key(b),
    ensures
        with_field(with_field(spec, a), b) == with_field(spec, b),
{
}

/// No field of the general form makes a record a stub, or gives it a reason.
pub proof fn law_fields_make_no_stub(fields: Seq<FieldView>)
    ensures
        !record_of(fields).is_unimplemented,
        record_of(fields).unimplemented_reason is None,
    decreases fields.len(),
{
    if fields.len() > 0 {
        law_fields_make_no_stub(fields.drop_last());
    }
}

} // verus!
