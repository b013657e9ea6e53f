//! The documentation block of a record.
//!
//! A block is a sequence of lines: blank lines that separate sections,
//! headings, and content. Its sections come in a fixed order, and a section
//! whose field is absent leaves no trace: no heading, and no blank line.

use vstd::prelude::*;
use vstd::string::*;
use crate::record::{DocSpec, DocSpecView, Param, ParamView};
use crate::text::{entries, split, split_trimmed, trimmed};

verus! {

/// The blank line that opens a section.
pub open spec fn blank() -> Seq<char> {
    Seq::empty()
}

/// The line that tells what a stub lacks: the reason given, or a general
/// remark.
pub open spec fn stub_summary(reason: Option<Seq<char>>) -> Seq<char> {
    match reason {
        Some(reason) => "\u{26a0}\u{fe0f} **NOT IMPLEMENTED** - "@ + reason,
        None => "\u{26a0}\u{fe0f} **NOT IMPLEMENTED** - This function is not yet implemented"@,
    }
}

/// The banner of a stub. The line about panicking is the same with and
/// without a reason.
pub open spec fn stub_banner(is_stub: bool, reason: Option<Seq<char>>) -> Seq<Seq<char>> {
    if is_stub {
        seq![
            blank(),
            "\u{26a0}\u{fe0f} **WARNING: NOT IMPLEMENTED**"@,
            blank(),
            stub_summary(reason),
            blank(),
            "This function will panic with `unimplemented!()` when called"@,
            blank(),
        ]
    } else {
        Seq::empty()
    }
}

/// The message of a deprecation banner, which depends on which of the reason
/// and the version are present; `None` when neither is.
pub open spec fn deprecation_message(
    reason: Option<Seq<char>>,
    since: Option<Seq<char>>,
) -> Option<Seq<char>> {
    match (reason, since) {
        (Some(reason), Some(since)) => Some("**Deprecated since "@ + since + ":** "@ + reason),
        (Some(reason), None) => Some(reason),
        (None, Some(since)) => Some("**Deprecated since:** "@ + since),
        (None, None) => None,
    }
}

/// The deprecation banner, present when the reason or the version is.
pub open spec fn deprecation_banner(
    reason: Option<Seq<char>>,
    since: Option<Seq<char>>,
) -> Seq<Seq<char>> {
    match deprecation_message(reason, since) {
        Some(message) => seq![blank(), "\u{26a0}\u{fe0f} **DEPRECATED**"@, message, blank()],
        None => Seq::empty(),
    }
}

/// The summary, as it was written.
pub open spec fn summary_line(summary: Option<Seq<char>>) -> Seq<Seq<char>> {
    match summary {
        Some(summary) => seq![summary],
        None => Seq::empty(),
    }
}

/// The note on the version that introduced the function.
pub open spec fn since_note(since: Option<Seq<char>>) -> Seq<Seq<char>> {
    match since {
        Some(since) => seq![blank(), "**Since:** "@ + since],
        None => Seq::empty(),
    }
}

/// The bullet of one parameter.
pub open spec fn param_bullet(param: ParamView) -> Seq<char> {
    "* `"@ + param.name + "` - "@ + param.desc
}

/// The parameters section: one bullet for each parameter, in the order of
/// the list. An empty list gives no section.
pub open spec fn parameters_section(params: Seq<ParamView>) -> Seq<Seq<char>> {
    if params.len() > 0 {
        seq![blank(), "# Parameters"@] + params.map_values(|p: ParamView| param_bullet(p))
    } else {
        Seq::empty()
    }
}

/// A section that holds a heading and one line of text.
pub open spec fn titled_section(heading: Seq<char>, text: Option<Seq<char>>) -> Seq<Seq<char>> {
    match text {
        Some(text) => seq![blank(), heading, text],
        None => Seq::empty(),
    }
}

/// The example section: the example as one line of a fenced code block.
pub open spec fn example_section(example: Option<Seq<char>>) -> Seq<Seq<char>> {
    match example {
        Some(example) => seq![blank(), "# Example"@, blank(), "```rust"@, example, "```"@],
        None => Seq::empty(),
    }
}

/// The bullet that links to one symbol.
pub open spec fn link_bullet(symbol: Seq<char>) -> Seq<char> {
    "* [`"@ + symbol + "`]"@
}

/// The cross-reference section: one bullet for each entry of the
/// comma-separated list, trimmed, in the order of the list. An entry that is
/// empty once trimmed still gets its bullet.
pub open spec fn see_also_section(list: Option<Seq<char>>) -> Seq<Seq<char>> {
    match list {
        Some(list) => seq![blank(), "# See Also"@] + entries(list, ',').map_values(
            |symbol: Seq<char>| link_bullet(symbol),
        ),
        None => Seq::empty(),
    }
}

/// The note section: the note behind a warning sign.
pub open spec fn note_section(note: Option<Seq<char>>) -> Seq<Seq<char>> {
    match note {
        Some(note) => seq![blank(), "# Note"@, "\u{26a0}\u{fe0f} "@ + note],
        None => Seq::empty(),
    }
}

/// The documentation block of a record: its sections, in their fixed order.
pub open spec fn doc_lines(spec: DocSpecView) -> Seq<Seq<char>> {
    stub_banner(spec.is_unimplemented, spec.unimplemented_reason)
        + deprecation_banner(spec.deprecated, spec.deprecated_since)
        + summary_line(spec.summary)
        + since_note(spec.since)
        + parameters_section(spec.params)
        + titled_section("# Returns"@, spec.returns)
        + example_section(spec.example)
        + titled_section("# Panics"@, spec.panics)
        + titled_section("# Safety"@, spec.safety)
        + see_also_section(spec.see_also)
        + titled_section("# Invariants"@, spec.invariants)
        + note_section(spec.note)
}

fn put(lines: &mut Vec<String>, line: String)
    ensures
        final(lines).deep_view() == old(lines).deep_view().push(line@),
{
    lines.push(line);
    assert(lines.deep_view() =~= old(lines).deep_view().push(line@));
}

fn put_all(lines: &mut Vec<String>, section: Vec<String>)
    ensures
        final(lines).deep_view() == old(lines).deep_view() + section.deep_view(),
{
    let mut section = section;
    let ghost added = section.deep_view();
    lines.append(&mut section);
    assert(lines.deep_view() =~= old(lines).deep_view() + added);
}

fn no_lines() -> (lines: Vec<String>)
    ensures
        lines.deep_view() == Seq::<Seq<char>>::empty(),
{
    let lines: Vec<String> = Vec::new();
    assert(lines.deep_view() =~= Seq::<Seq<char>>::empty());
    lines
}

fn join(head: &str, tail: &str) -> (line: String)
    ensures
        line@ == head@ + tail@,
{
    let mut line = String::from_str(head);
    line.append(tail);
    line
}

/// Writes the banner of a stub.
pub fn write_stub_banner(is_stub: bool, reason: &Option<String>) -> (lines: Vec<String>)
    ensures
        lines.deep_view() == stub_banner(is_stub, reason.deep_view()),
{
    let mut lines = no_lines();
    if is_stub {
        let summary = match reason {
            Some(reason) => join("\u{26a0}\u{fe0f} **NOT IMPLEMENTED** - ", reason.as_str()),
            None => String::from_str(
                "\u{26a0}\u{fe0f} **NOT IMPLEMENTED** - This function is not yet implemented",
            ),
        };
        put(&mut lines, String::new());
        put(&mut lines, String::from_str("\u{26a0}\u{fe0f} **WARNING: NOT IMPLEMENTED**"));
        put(&mut lines, String::new());
        put(&mut lines, summary);
        put(&mut lines, String::new());
        put(
            &mut lines,
            String::from_str("This function will panic with `unimplemented!()` when called"),
        );
        put(&mut lines, String::new());
        assert(lines.deep_view() =~= stub_banner(is_stub, reason.deep_view()));
    }
    lines
}

/// Writes the deprecation banner.
pub fn write_deprecation_banner(reason: &Option<String>, since: &Option<String>) -> (lines: Vec<
    String,
>)
    ensures
        lines.deep_view() == deprecation_banner(reason.deep_view(), since.deep_view()),
{
    let mut lines = no_lines();
    let message = match (reason, since) {
        (Some(reason), Some(since)) => {
            let mut message = join("**Deprecated since ", since.as_str());
            message.append(":** ");
            message.append(reason.as_str());
            message
        },
        (Some(reason), None) => reason.clone(),
        (None, Some(since)) => join("**Deprecated since:** ", since.as_str()),
        (None, None) => {
            return lines;
        },
    };
    put(&mut lines, String::new());
    put(&mut lines, String::from_str("\u{26a0}\u{fe0f} **DEPRECATED**"));
    put(&mut lines, message);
    put(&mut lines, String::new());
    assert(lines.deep_view() =~= deprecation_banner(reason.deep_view(), since.deep_view()));
    lines
}

/// Writes the summary.
pub fn write_summary_line(summary: &Option<String>) -> (lines: Vec<String>)
    ensures
        lines.deep_view() == summary_line(summary.deep_view()),
{
    let mut lines = no_lines();
    if let Some(summary) = summary {
        put(&mut lines, summary.clone());
        assert(lines.deep_view() =~= summary_line(Some(summary@)));
    }
    lines
}

/// Writes the note on the version that introduced the function.
pub fn write_since_note(since: &Option<String>) -> (lines: Vec<String>)
    ensures
        lines.deep_view() == since_note(since.deep_view()),
{
    let mut lines = no_lines();
    if let Some(since) = since {
        put(&mut lines, String::new());
        put(&mut lines, join("**Since:** ", since.as_str()));
        assert(lines.deep_view() =~= since_note(Some(since@)));
    }
    lines
}

/// Writes the parameters section.
pub fn write_parameters_section(params: &Vec<Param>) -> (lines: Vec<String>)
    ensures
        lines.deep_view() == parameters_section(params.deep_view()),
{
    let mut lines = no_lines();
    if params.len() > 0 {
        put(&mut lines, String::new());
        put(&mut lines, String::from_str("# Parameters"));
        let ghost bullets = params.deep_view().map_values(|p: ParamView| param_bullet(p));
        let mut i: usize = 0;
        while i < params.len()
            invariant
                i <= params.len(),
                bullets == params.deep_view().map_values(|p: ParamView| param_bullet(p)),
                lines.deep_view() == seq![blank(), "# Parameters"@] + bullets.take(i as int),
            decreases params.len() - i,
        {
            let param = &params[i];
            let mut bullet = join("* `", param.name.as_str());
            bullet.append("` - ");
            bullet.append(param.desc.as_str());
            assert(bullet@ == bullets[i as int]);
            put(&mut lines, bullet);
            assert(lines.deep_view() =~= seq![blank(), "# Parameters"@] + bullets.take(i + 1));
            i += 1;
        }
        assert(bullets.take(i as int) =~= bullets);
    }
    lines
}

/// Writes a section that holds a heading and one line of text.
pub fn write_titled_section(heading: &str, text: &Option<String>) -> (lines: Vec<String>)
    ensures
        lines.deep_view() == titled_section(heading@, text.deep_view()),
{
    let mut lines = no_lines();
    if let Some(text) = text {
        put(&mut lines, String::new());
        put(&mut lines, String::from_str(heading));
        put(&mut lines, text.clone());
        assert(lines.deep_view() =~= titled_section(heading@, Some(text@)));
    }
    lines
}

/// Writes the example section.
pub fn write_example_section(example: &Option<String>) -> (lines: Vec<String>)
    ensures
        lines.deep_view() == example_section(example.deep_view()),
{
    let mut lines = no_lines();
    if let Some(example) = example {
        put(&mut lines, String::new());
        put(&mut lines, String::from_str("# Example"));
        put(&mut lines, String::new());
        put(&mut lines, String::from_str("```rust"));
        put(&mut lines, example.clone());
        put(&mut lines, String::from_str("```"));
        assert(lines.deep_view() =~= example_section(Some(example@)));
    }
    lines
}

/// Writes the cross-reference section.
pub fn write_see_also_section(list: &Option<String>) -> (lines: Vec<String>)
    ensures
        lines.deep_view() == see_also_section(list.deep_view()),
{
    let mut lines = no_lines();
    if let Some(list) = list {
        put(&mut lines, String::new());
        put(&mut lines, String::from_str("# See Also"));
        let symbols = split_trimmed(list.as_str(), ',');
        let ghost bullets = entries(list@, ',').map_values(|symbol: Seq<char>| link_bullet(symbol));
        let mut i: usize = 0;
        while i < symbols.len()
            invariant
                i <= symbols.len(),
                symbols.deep_view() == entries(list@, ','),
                bullets == entries(list@, ',').map_values(|symbol: Seq<char>| link_bullet(symbol)),
                lines.deep_view() == seq![blank(), "# See Also"@] + bullets.take(i as int),
            decreases symbols.len() - i,
        {
            let mut bullet = join("* [`", symbols[i].as_str());
            bullet.append("`]");
            assert(symbols.deep_view()[i as int] == symbols[i as int]@);
            assert(bullet@ == bullets[i as int]);
            put(&mut lines, bullet);
            assert(lines.deep_view() =~= seq![blank(), "# See Also"@] + bullets.take(i + 1));
            i += 1;
        }
        assert(symbols.deep_view().len() == symbols.len());
        assert(bullets.take(i as int) =~= bullets);
    }
    lines
}

/// Writes the note section.
pub fn write_note_section(note: &Option<String>) -> (lines: Vec<String>)
    ensures
        lines.deep_view() == note_section(note.deep_view()),
{
    let mut lines = no_lines();
    if let Some(note) = note {
        put(&mut lines, String::new());
        put(&mut lines, String::from_str("# Note"));
        put(&mut lines, join("\u{26a0}\u{fe0f} ", note.as_str()));
        assert(lines.deep_view() =~= note_section(Some(note@)));
    }
    lines
}

/// Expands a record into its documentation block.
///
/// The record is only read. The block depends on nothing but the record, so
/// equal records give equal blocks.
pub fn assemble(spec: &DocSpec) -> (lines: Vec<String>)
    ensures
        lines.deep_view() == doc_lines(spec@),
{
    let mut lines = write_stub_banner(spec.is_unimplemented, &spec.unimplemented_reason);
    put_all(&mut lines, write_deprecation_banner(&spec.deprecated, &spec.deprecated_since));
    put_all(&mut lines, write_summary_line(&spec.summary));
    put_all(&mut lines, write_since_note(&spec.since));
    put_all(&mut lines, write_parameters_section(&spec.params));
    put_all(&mut lines, write_titled_section("# Returns", &spec.returns));
    put_all(&mut lines, write_example_section(&spec.example));
    put_all(&mut lines, write_titled_section("# Panics", &spec.panics));
    put_all(&mut lines, write_titled_section("# Safety", &spec.safety));
    put_all(&mut lines, write_see_also_section(&spec.see_also));
    put_all(&mut lines, write_titled_section("# Invariants", &spec.invariants));
    put_all(&mut lines, write_note_section(&spec.note));
    lines
}

/// Whether a record has nothing to show: it is no stub, its parameter list
/// is empty, and every other field is absent. The reason of a stub does not
/// count, as it is shown only with the flag.
pub open spec fn nothing_present(spec: DocSpecView) -> bool {
    &&& !spec.is_unimplemented
    &&& spec.deprecated is None
    &&& spec.deprecated_since is None
    &&& spec.summary is None
    &&& spec.since is None
    &&& spec.params.len() == 0
    &&& spec.returns is None
    &&& spec.example is None
    &&& spec.panics is None
    &&& spec.safety is None
    &&& spec.see_also is None
    &&& spec.invariants is None
    &&& spec.note is None
}

/// Assembly is a function of the record's value: two records that hold the
/// same values give the same block, line for line.
pub proof fn law_assembly_is_deterministic(a: DocSpec, b: DocSpec)
    requires
        a@ == b@,
    ensures
        doc_lines(a@) == doc_lines(b@),
{
}

/// The record with every field absent gives the empty block.
pub proof fn law_empty_record_is_silent()
    ensures
        doc_lines(DocSpecView::empty()) == Seq::<Seq<char>>::empty(),
{
    assert(doc_lines(DocSpecView::empty()) =~= Seq::<Seq<char>>::empty());
}

/// A block is empty exactly when the record has nothing to show.
pub proof fn law_block_is_empty_iff_nothing_is_present(spec: DocSpecView)
    ensures
        doc_lines(spec).len() == 0 <==> nothing_present(spec),
{
    assert(stub_banner(spec.is_unimplemented, spec.unimplemented_reason).len() == 0
        <==> !spec.is_unimplemented);
    assert(deprecation_banner(spec.deprecated, spec.deprecated_since).len() == 0 <==> (
    spec.deprecated is None && spec.deprecated_since is None));
    assert(summary_line(spec.summary).len() == 0 <==> spec.summary is None);
    assert(since_note(spec.since).len() == 0 <==> spec.since is None);
    assert(parameters_section(spec.params).len() == 0 <==> spec.params.len() == 0);
    assert(titled_section("# Returns"@, spec.returns).len() == 0 <==> spec.returns is None);
    assert(example_section(spec.example).len() == 0 <==> spec.example is None);
    assert(titled_section("# Panics"@, spec.panics).len() == 0 <==> spec.panics is None);
    assert(titled_section("# Safety"@, spec.safety).len() == 0 <==> spec.safety is None);
    assert(see_also_section(spec.see_also).len() == 0 <==> spec.see_also is None);
    assert(titled_section("# Invariants"@, spec.invariants).len() == 0 <==> spec.invariants
        is None);
    assert(note_section(spec.note).len() == 0 <==> spec.note is None);
}

/// The parameters section has one bullet for each parameter, in the order
/// of the list, after its blank line and heading.
pub proof fn law_parameters_keep_their_order(params: Seq<ParamView>, i: int)
    requires
        0 <= i < params.len(),
    ensures
        parameters_section(params).len() == params.len() + 2,
        parameters_section(params)[i + 2] == param_bullet(params[i]),
{
}

/// The cross-reference section has one bullet for each piece of the list
/// between commas, trimmed, in the order of the list, after its blank line
/// and heading.
pub proof fn law_see_also_keeps_its_order(list: Seq<char>, i: int)
    requires
        0 <= i < split(list, ',').len(),
    ensures
        see_also_section(Some(list)).len() == split(list, ',').len() + 2,
        see_also_section(Some(list))[i + 2] == link_bullet(trimmed(split(list, ',')[i])),
{
}

/// The banner of a stub has the same seven lines with and without a reason,
/// but for the fourth, which alone depends on the reason.
pub proof fn law_stub_reason_changes_one_line(reason: Option<Seq<char>>, i: int)
    requires
        0 <= i < 7,
        i != 3,
    ensures
        stub_banner(true, reason).len() == 7,
        stub_banner(true, reason)[i] == stub_banner(true, None)[i],
        stub_banner(true, reason)[3] == stub_summary(reason),
{
}

} // verus!
