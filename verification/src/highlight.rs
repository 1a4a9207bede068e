//! Terminal colours for log lines and diff lines.
//!
//! Which colours a line gets is decided here, from the line alone. What a
//! colour does to a text is the business of the terminal library: it colours
//! or leaves the text plain as the environment asks.

use crate::diff::{DiffLine, DiffTag, LineModel};
use crate::severity::SeverityBucket;
use crate::text::{begins_with, chars_of, find, occurs_in};
use vstd::prelude::*;

verus! {

/// The ways in which a text is set off on the terminal.
#[derive(Clone, Copy, Debug, PartialEq, Eq, Structural)]
pub enum Style {
    Red,
    Yellow,
    Blue,
    Green,
    BoldRed,
    White,
}

/// The style in which a line that names `bucket` is shown.
pub open spec fn style_of(bucket: SeverityBucket) -> Style {
    match bucket {
        SeverityBucket::Error => Style::Red,
        SeverityBucket::Warning => Style::Yellow,
        SeverityBucket::Info => Style::Blue,
        SeverityBucket::Debug => Style::Green,
        SeverityBucket::Critical => Style::BoldRed,
    }
}

/// The style of `bucket` if `log` holds the bucket's name in upper case.
pub open spec fn style_if_named(log: Seq<char>, bucket: SeverityBucket) -> Seq<Style> {
    if occurs_in(log, bucket.label()) {
        seq![style_of(bucket)]
    } else {
        Seq::empty()
    }
}

/// The styles that are laid over `log`, the first innermost: one for each
/// severity whose name the line holds in upper case, in the order Error,
/// Warning, Info, Debug, Critical.
pub open spec fn styles_of(log: Seq<char>) -> Seq<Style> {
    style_if_named(log, SeverityBucket::Error) + style_if_named(log, SeverityBucket::Warning)
        + style_if_named(log, SeverityBucket::Info) + style_if_named(log, SeverityBucket::Debug)
        + style_if_named(log, SeverityBucket::Critical)
}

impl Style {
    /// The escape sequence that turns the style on.
    pub open spec fn code(self) -> Seq<char> {
        match self {
            Style::Red => seq!['\u{1b}', '[', '3', '1', 'm'],
            Style::Yellow => seq!['\u{1b}', '[', '3', '3', 'm'],
            Style::Blue => seq!['\u{1b}', '[', '3', '4', 'm'],
            Style::Green => seq!['\u{1b}', '[', '3', '2', 'm'],
            Style::BoldRed => seq!['\u{1b}', '[', '1', ';', '3', '1', 'm'],
            Style::White => seq!['\u{1b}', '[', '3', '7', 'm'],
        }
    }
}

/// The escape sequence that ends all colours and styles.
pub open spec fn reset_code() -> Seq<char> {
    seq!['\u{1b}', '[', '0', 'm']
}

/// `text` with `code` put again behind every reset sequence in it, so that
/// a text which holds colours of its own does not end the style laid over
/// it.
pub open spec fn renewed(text: Seq<char>, code: Seq<char>) -> Seq<char>
    decreases text.len(),
{
    if text.len() == 0 {
        text
    } else if begins_with(text, reset_code()) {
        reset_code() + code + renewed(text.skip(reset_code().len() as int), code)
    } else {
        seq![text[0]] + renewed(text.skip(1), code)
    }
}

/// `text` as it is shown in `style` on a terminal that takes colours: the
/// style's escape sequence, the text, and the reset sequence.
pub open spec fn in_style(text: Seq<char>, style: Style) -> Seq<char> {
    style.code() + renewed(text, style.code()) + reset_code()
}

/// A line of a diff as it is shown without colours: its marker, then its
/// text.
pub open spec fn rendered(line: LineModel) -> Seq<char> {
    seq![line.tag.marker()] + line.text
}

/// The style in which a line of a diff is shown.
pub open spec fn diff_style(tag: DiffTag) -> Style {
    match tag {
        DiffTag::Deleted => Style::Red,
        DiffTag::Inserted => Style::Green,
        DiffTag::Unchanged => Style::White,
    }
}

/// `Colorize::red` on a string slice, turned into a `String` by the
/// `Display` of `ColoredString`: the bare text where the environment asks
/// for no colours, else the text in red.
#[verifier::external_body]
fn red(text: &str) -> (shown: String)
    ensures
        shown@ == text@ || shown@ == in_style(text@, Style::Red),
{
    colored::Colorize::red(text).to_string()
}

/// `Colorize::yellow` on a string slice, turned into a `String` by the
/// `Display` of `ColoredString`: the bare text where the environment asks
/// for no colours, else the text in yellow.
#[verifier::external_body]
fn yellow(text: &str) -> (shown: String)
    ensures
        shown@ == text@ || shown@ == in_style(text@, Style::Yellow),
{
    colored::Colorize::yellow(text).to_string()
}

/// `Colorize::blue` on a string slice, turned into a `String` by the
/// `Display` of `ColoredString`: the bare text where the environment asks
/// for no colours, else the text in blue.
#[verifier::external_body]
fn blue(text: &str) -> (shown: String)
    ensures
        shown@ == text@ || shown@ == in_style(text@, Style::Blue),
{
    colored::Colorize::blue(text).to_string()
}

/// `Colorize::green` on a string slice, turned into a `String` by the
/// `Display` of `ColoredString`: the bare text where the environment asks
/// for no colours, else the text in green.
#[verifier::external_body]
fn green(text: &str) -> (shown: String)
    ensures
        shown@ == text@ || shown@ == in_style(text@, Style::Green),
{
    colored::Colorize::green(text).to_string()
}

/// `Colorize::white` on a string slice, turned into a `String` by the
/// `Display` of `ColoredString`: the bare text where the environment asks
/// for no colours, else the text in white.
#[verifier::external_body]
fn white(text: &str) -> (shown: String)
    ensures
        shown@ == text@ || shown@ == in_style(text@, Style::White),
{
    colored::Colorize::white(text).to_string()
}

/// `Colorize::red` on a string slice and `Colorize::bold` on what it gives,
/// turned into a `String` by the `Display` of `ColoredString`: the bare text
/// where the environment asks for no colours, else the text in bold red.
#[verifier::external_body]
fn bold_red(text: &str) -> (shown: String)
    ensures
        shown@ == text@ || shown@ == in_style(text@, Style::BoldRed),
{
    colored::Colorize::bold(colored::Colorize::red(text)).to_string()
}

/// `text` in `style`, as the terminal library shows it: the bare text where
/// the environment asks for no colours, else the text between the escape
/// sequence of the style and the sequence that ends it.
fn paint(text: &str, style: Style) -> (painted: String)
    ensures
        painted@ == text@ || painted@ == in_style(text@, style),
{
    match style {
        Style::Red => red(text),
        Style::Yellow => yellow(text),
        Style::Blue => blue(text),
        Style::Green => green(text),
        Style::BoldRed => bold_red(text),
        Style::White => white(text),
    }
}

/// Adds the style of `bucket` to `styles` if `log` holds the bucket's name.
fn note_style(styles: &mut Vec<Style>, log: &Vec<char>, bucket: SeverityBucket)
    ensures
        final(styles)@ == old(styles)@ + style_if_named(log@, bucket),
{
    let ghost before = styles@;
    let label = bucket.label_chars();
    if find(log, &label).is_some() {
        styles.push(
            match bucket {
                SeverityBucket::Error => Style::Red,
                SeverityBucket::Warning => Style::Yellow,
                SeverityBucket::Info => Style::Blue,
                SeverityBucket::Debug => Style::Green,
                SeverityBucket::Critical => Style::BoldRed,
            },
        );
    }
    assert(styles@ =~= before + style_if_named(log@, bucket));
}

/// The styles that are laid over `log`, the first innermost.
pub fn styles_for(log: &str) -> (styles: Vec<Style>)
    ensures
        styles@ == styles_of(log@),
{
    let chars = chars_of(log);
    let mut styles: Vec<Style> = Vec::new();
    note_style(&mut styles, &chars, SeverityBucket::Error);
    note_style(&mut styles, &chars, SeverityBucket::Warning);
    note_style(&mut styles, &chars, SeverityBucket::Info);
    note_style(&mut styles, &chars, SeverityBucket::Debug);
    note_style(&mut styles, &chars, SeverityBucket::Critical);
    assert(styles@ =~= styles_of(log@));
    styles
}

/// Colours a log line by the severities it names: each of `styles_for(log)`
/// is laid over the line in turn. A line that names no severity comes back
/// as it is.
pub fn colorize_log(log: &str) -> (colored: String)
    ensures
        styles_of(log@).len() == 0 ==> colored@ == log@,
{
    let styles = styles_for(log);
    let mut colored = log.to_owned();
    let mut i: usize = 0;
    while i < styles.len()
        invariant
            0 <= i <= styles@.len(),
            styles@.len() == 0 ==> colored@ == log@,
        decreases styles@.len() - i,
    {
        colored = paint(colored.as_str(), styles[i]);
        i += 1;
    }
    colored
}

/// The style in which a line of a diff is shown.
pub fn style_for_diff(tag: DiffTag) -> (style: Style)
    ensures
        style == diff_style(tag),
{
    match tag {
        DiffTag::Deleted => Style::Red,
        DiffTag::Inserted => Style::Green,
        DiffTag::Unchanged => Style::White,
    }
}

/// A line of a diff as it is printed: rendered with its marker, in the
/// colour of its tag. Where the environment asks for no colours the line
/// comes bare.
pub fn paint_diff_line(line: &DiffLine) -> (shown: String)
    ensures
        shown@ == rendered(line@) || shown@ == in_style(rendered(line@), diff_style(line@.tag)),
{
    let plain = line.render();
    paint(plain.as_str(), style_for_diff(line.tag))
}

} // verus!
