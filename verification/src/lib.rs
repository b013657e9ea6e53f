//! Documentation blocks for annotated functions.
//!
//! An annotation carries a short list of arguments: `key = "value"` fields,
//! one brace-delimited `params` block, or the bare `unimplemented` shorthand.
//! This crate interprets such a list into a [`DocSpec`] and expands the
//! record into the ordered lines of a documentation block:
//!
//! * [`scan`] cuts argument text into tokens, where no host compiler has
//!   done so;
//! * [`token`] reduces tokens to the symbols of the argument language;
//! * [`grammar`] reads the symbols into a record, or says where they go
//!   wrong;
//! * [`assemble`] writes the block of a record, section by section.
//!
//! [`document`] runs the last three in turn and hands the annotated item
//! back behind its block. Each call stands alone: nothing is kept from one
//! annotation to the next.
//!
//! The record and its fields are in [`record`], the failures of the grammar
//! in [`error`], and the handling of white space and separators in [`text`].
//! [`written`] shows that every list of fields can be written in the
//! argument language and read back.

use vstd::prelude::*;

pub mod assemble;
pub mod error;
pub mod grammar;
pub mod record;
pub mod scan;
pub mod text;
pub mod token;
pub mod written;

pub use crate::assemble::assemble;
pub use crate::error::{ErrorKind, GrammarError};
pub use crate::grammar::interpret;
pub use crate::record::{DocSpec, Field, Param, TextKey};
pub use crate::scan::{locate, tokenize};
pub use crate::token::{classify, Delimiter, Lexeme, Token};

use crate::assemble::doc_lines;
use crate::error::{ErrorKindView, GrammarErrorView};
use crate::grammar::{fail, holds, ident_at, key_of, parse_arguments, stub_word};
use crate::record::DocSpecView;
use crate::token::{lexemes_of, LexemeView};

verus! {

/// The documentation block that the symbols `ts` ask for, or the failure to
/// interpret them. A failure leaves no lines at all.
pub open spec fn documentation(ts: Seq<LexemeView>) -> Result<Seq<Seq<char>>, GrammarErrorView> {
    match parse_arguments(ts) {
        Ok(spec) => Ok(doc_lines(spec)),
        Err(e) => Err(e),
    }
}

/// Arguments that are refused leave no lines: the outcome is the failure of
/// the interpretation, and holds nothing else.
pub proof fn law_failure_leaves_no_lines(ts: Seq<LexemeView>)
    ensures
        parse_arguments(ts) matches Err(e) ==> documentation(ts) == Err::<Seq<Seq<char>>, _>(e),
{
}

/// An unknown key at the head of the arguments, followed by `=`, fails the
/// interpretation whatever comes after it: the failure names the key and
/// points at it, and no line is written. The stub word is no unknown key: it
/// opens the stub shorthand.
pub proof fn law_unknown_key_leaves_no_lines(ts: Seq<LexemeView>, name: Seq<char>)
    requires
        ident_at(ts, 0) == Some(name),
        holds(ts, 1, LexemeView::Assign),
        key_of(name) is None,
        name != stub_word(),
    ensures
        parse_arguments(ts) == Err::<DocSpecView, _>(fail(ErrorKindView::UnknownKey(name), 0)),
        documentation(ts) == Err::<Seq<Seq<char>>, _>(fail(ErrorKindView::UnknownKey(name), 0)),
{
}

/// An annotated item with the documentation block that goes in front of it.
#[derive(Debug, PartialEq, Eq)]
pub struct Documented<T> {
    /// The lines of the block, in order.
    pub docs: Vec<String>,
    /// The item, as it was handed in.
    pub item: T,
}

/// Documents an annotated item from the annotation's arguments.
///
/// The arguments are interpreted as [`interpret`] does, and the record is
/// expanded as [`assemble`] does. The item is not looked into: it comes back
/// as it went in, behind the lines of its block. Arguments that are refused
/// give the failure and nothing else.
pub fn document<T>(args: &[Token], input: T) -> (outcome: Result<Documented<T>, GrammarError>)
    ensures
        match documentation(lexemes_of(args.deep_view())) {
            Ok(lines) => outcome matches Ok(documented) && documented.docs.deep_view() == lines
                && documented.item == input,
            Err(failure) => outcome matches Err(e) && e@ == failure,
        },
{
    match interpret(args) {
        Ok(spec) => Ok(Documented { docs: assemble(&spec), item: input }),
        Err(e) => Err(e),
    }
}

} // verus!
