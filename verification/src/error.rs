//! Grammar errors: what was expected, and where.

use vstd::prelude::*;
use vstd::string::*;

verus! {

/// The expectation that an argument list failed to meet.
#[derive(Debug, PartialEq, Eq)]
pub enum ErrorKind {
    /// A key that the argument language does not know, by its name.
    UnknownKey(String),
    /// A field must start with an identifier.
    ExpectedKey,
    /// A key must be followed by `=`.
    ExpectedAssign,
    /// A value, a parameter name or a parameter description must be a string
    /// literal.
    ExpectedString,
    /// Two fields, or two parameters, must be separated by `,`.
    ExpectedComma,
    /// A parameter name must be followed by `:`.
    ExpectedColon,
    /// The value of `params` must be a block in braces.
    ExpectedBrace,
    /// The arguments ended inside the `params` block.
    UnclosedBrace,
    /// `unimplemented` stands alone or with `= "reason"`, and nothing else.
    UnexpectedAfterUnimplemented,
}

/// The mathematical value of an [`ErrorKind`].
pub enum ErrorKindView {
    UnknownKey(Seq<char>),
    ExpectedKey,
    ExpectedAssign,
    ExpectedString,
    ExpectedComma,
    ExpectedColon,
    ExpectedBrace,
    UnclosedBrace,
    UnexpectedAfterUnimplemented,
}

impl DeepView for ErrorKind {
    type V = ErrorKindView;

    open spec fn deep_view(&self) -> ErrorKindView {
        match self {
            ErrorKind::UnknownKey(name) => ErrorKindView::UnknownKey(name@),
            ErrorKind::ExpectedKey => ErrorKindView::ExpectedKey,
            ErrorKind::ExpectedAssign => ErrorKindView::ExpectedAssign,
            ErrorKind::ExpectedString => ErrorKindView::ExpectedString,
            ErrorKind::ExpectedComma => ErrorKindView::ExpectedComma,
            ErrorKind::ExpectedColon => ErrorKindView::ExpectedColon,
            ErrorKind::ExpectedBrace => ErrorKindView::ExpectedBrace,
            ErrorKind::UnclosedBrace => ErrorKindView::UnclosedBrace,
            ErrorKind::UnexpectedAfterUnimplemented => ErrorKindView::UnexpectedAfterUnimplemented,
        }
    }
}

impl View for ErrorKind {
    type V = ErrorKindView;

    open spec fn view(&self) -> ErrorKindView {
        self.deep_view()
    }
}

/// A failure to interpret an argument list.
#[derive(Debug, PartialEq, Eq)]
pub struct GrammarError {
    /// What was expected.
    pub kind: ErrorKind,
    /// The index of the offending token, or the number of tokens when the
    /// arguments ended too early.
    pub position: usize,
}

/// The mathematical value of a [`GrammarError`].
pub struct GrammarErrorView {
    pub kind: ErrorKindView,
    pub position: int,
}

impl DeepView for GrammarError {
    type V = GrammarErrorView;

    open spec fn deep_view(&self) -> GrammarErrorView {
        GrammarErrorView { kind: self.kind@, position: self.position as int }
    }
}

impl View for GrammarError {
    type V = GrammarErrorView;

    open spec fn view(&self) -> GrammarErrorView {
        self.deep_view()
    }
}

/// The keys of the argument language, as the message for an unknown key lists
/// them.
pub open spec fn known_keys() -> Seq<char> {
    "summary, returns, params, deprecated, deprecated_since, since, example, panics, safety, see_also, invariants, note"@
}

/// The diagnostic text for each kind of error.
pub open spec fn message_text(kind: ErrorKindView) -> Seq<char> {
    match kind {
        ErrorKindView::UnknownKey(name) => "unexpected field `"@ + name + "`, expected one of: "@
            + known_keys(),
        ErrorKindView::ExpectedKey => "expected identifier"@,
        ErrorKindView::ExpectedAssign => "expected `=`"@,
        ErrorKindView::ExpectedString => "expected string literal"@,
        ErrorKindView::ExpectedComma => "expected `,`"@,
        ErrorKindView::ExpectedColon => "expected `:`"@,
        ErrorKindView::ExpectedBrace => "expected curly braces"@,
        ErrorKindView::UnclosedBrace => "expected `}`"@,
        ErrorKindView::UnexpectedAfterUnimplemented =>
            "unexpected token after `unimplemented` flag"@,
    }
}

impl GrammarError {
    /// The diagnostic text of this error. An unknown key is named in it,
    /// followed by the keys that are known.
    pub fn message(&self) -> (text: String)
        ensures
            text@ == message_text(self.kind@),
    {
        match &self.kind {
            ErrorKind::UnknownKey(name) => {
                let mut text = String::from_str("unexpected field `");
                text.append(name.as_str());
                text.append("`, expected one of: ");
                text.append(
                    "summary, returns, params, deprecated, deprecated_since, since, example, panics, safety, see_also, invariants, note",
                );
                text
            },
            ErrorKind::ExpectedKey => String::from_str("expected identifier"),
            ErrorKind::ExpectedAssign => String::from_str("expected `=`"),
            ErrorKind::ExpectedString => String::from_str("expected string literal"),
            ErrorKind::ExpectedComma => String::from_str("expected `,`"),
            ErrorKind::ExpectedColon => String::from_str("expected `:`"),
            ErrorKind::ExpectedBrace => String::from_str("expected curly braces"),
            ErrorKind::UnclosedBrace => String::from_str("expected `}`"),
            ErrorKind::UnexpectedAfterUnimplemented => String::from_str(
                "unexpected token after `unimplemented` flag",
            ),
        }
    }
}

} // verus!
