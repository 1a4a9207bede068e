//! Line diffs: the edit script that turns one text into another, line by
//! line.
//!
//! The script is computed by Myers' algorithm. Before it is handed out it is
//! checked against the two texts: the lines it keeps and deletes, put
//! together, must be the original, and the lines it keeps and inserts the
//! modified text. So every script that leaves this module reproduces both
//! texts exactly.

use crate::text::{chars_of, matches_at, string_of};
use similar::{Algorithm, ChangeTag, TextDiff};
use vstd::prelude::*;

verus! {

/// What a line of a diff says of its text.
#[derive(Clone, Copy, Debug, PartialEq, Eq, Structural)]
pub enum DiffTag {
    /// The line is in the original only.
    Deleted,
    /// The line is in the modified text only.
    Inserted,
    /// The line is in both texts.
    Unchanged,
}

/// How a line ends in the text it comes from.
#[derive(Clone, Copy, Debug, PartialEq, Eq, Structural)]
pub enum LineEnding {
    /// The text ends with the line, without a line terminator.
    Missing,
    /// A line feed.
    Lf,
    /// A carriage return and a line feed.
    CrLf,
    /// A carriage return alone.
    Cr,
}

/// One line of a diff: its tag, its text without the line terminator, and
/// the terminator it had.
#[derive(Clone, Debug, PartialEq, Eq)]
pub struct DiffLine {
    pub tag: DiffTag,
    pub text: String,
    pub ending: LineEnding,
}

/// The model of a `DiffLine`.
pub struct LineModel {
    pub tag: DiffTag,
    pub text: Seq<char>,
    pub ending: LineEnding,
}

impl View for DiffLine {
    type V = LineModel;

    open spec fn view(&self) -> LineModel {
        LineModel { tag: self.tag, text: self.text@, ending: self.ending }
    }
}

impl DiffTag {
    /// Whether a line with this tag belongs to the original (`modified` is
    /// false) or to the modified text (`modified` is true).
    pub open spec fn on_side(self, modified: bool) -> bool {
        if modified {
            self != DiffTag::Deleted
        } else {
            self != DiffTag::Inserted
        }
    }

    /// The character that marks a line with this tag when it is shown.
    pub open spec fn marker(self) -> char {
        match self {
            DiffTag::Deleted => '-',
            DiffTag::Inserted => '+',
            DiffTag::Unchanged => ' ',
        }
    }
}

impl LineEnding {
    /// The characters of the terminator.
    pub open spec fn chars(self) -> Seq<char> {
        match self {
            LineEnding::Missing => Seq::empty(),
            LineEnding::Lf => seq!['\n'],
            LineEnding::CrLf => seq!['\r', '\n'],
            LineEnding::Cr => seq!['\r'],
        }
    }
}

/// The terminator that `value` ends with.
pub open spec fn ending_of(value: Seq<char>) -> LineEnding {
    let n = value.len() as int;
    if n >= 2 && value[n - 2] == '\r' && value[n - 1] == '\n' {
        LineEnding::CrLf
    } else if n >= 1 && value[n - 1] == '\n' {
        LineEnding::Lf
    } else if n >= 1 && value[n - 1] == '\r' {
        LineEnding::Cr
    } else {
        LineEnding::Missing
    }
}

/// `value` without the terminator it ends with.
pub open spec fn content_of(value: Seq<char>) -> Seq<char> {
    value.take(value.len() - ending_of(value).chars().len())
}

/// The line that a change of the differ stands for: the change's value is
/// the line with its terminator.
pub open spec fn line_of(change: (DiffTag, Seq<char>)) -> LineModel {
    LineModel { tag: change.0, text: content_of(change.1), ending: ending_of(change.1) }
}

/// The script that the changes of the differ stand for.
pub open spec fn script_of(changes: Seq<(DiffTag, Seq<char>)>) -> Seq<LineModel> {
    changes.map_values(|change: (DiffTag, Seq<char>)| line_of(change))
}

/// The text that the lines of one side of a script make up, each with its
/// terminator: the original (`modified` is false) from the unchanged and
/// deleted lines, the modified text (`modified` is true) from the unchanged
/// and inserted ones.
pub open spec fn side_text(script: Seq<LineModel>, modified: bool) -> Seq<char>
    decreases script.len(),
{
    if script.len() == 0 {
        Seq::empty()
    } else {
        let line = script.last();
        let before = side_text(script.drop_last(), modified);
        if line.tag.on_side(modified) {
            before + line.text + line.ending.chars()
        } else {
            before
        }
    }
}

/// The script reproduces `original` from its unchanged and deleted lines and
/// `modified` from its unchanged and inserted lines.
pub open spec fn reproduces(
    script: Seq<LineModel>,
    original: Seq<char>,
    modified: Seq<char>,
) -> bool {
    side_text(script, false) == original && side_text(script, true) == modified
}

/// The script that deletes the original as a whole and inserts the modified
/// text as a whole. An empty text gets no line.
pub open spec fn replacement(original: Seq<char>, modified: Seq<char>) -> Seq<LineModel> {
    let deleted = if original.len() > 0 {
        seq![line_of((DiffTag::Deleted, original))]
    } else {
        Seq::empty()
    };
    let inserted = if modified.len() > 0 {
        seq![line_of((DiffTag::Inserted, modified))]
    } else {
        Seq::empty()
    };
    deleted + inserted
}

/// The script that is handed out for the changes of the differ: the script
/// they stand for where it reproduces both texts, else the replacement of
/// the one text by the other.
pub open spec fn settled(
    original: Seq<char>,
    modified: Seq<char>,
    changes: Seq<(DiffTag, Seq<char>)>,
) -> Seq<LineModel> {
    if reproduces(script_of(changes), original, modified) {
        script_of(changes)
    } else {
        replacement(original, modified)
    }
}

/// The models of the lines of a script.
pub open spec fn script_view(lines: Seq<DiffLine>) -> Seq<LineModel> {
    lines.map_values(|line: DiffLine| line@)
}

/// The changes of the differ as values of the model.
pub open spec fn changes_view(changes: Seq<(DiffTag, String)>) -> Seq<(DiffTag, Seq<char>)> {
    changes.map_values(|change: (DiffTag, String)| (change.0, change.1@))
}

/// The changes by which Myers' algorithm, as the outside crate runs it on
/// the lines of the two texts, turns `original` into `modified`: each with
/// its tag and the line it speaks of, terminator included.
pub uninterp spec fn myers_line_changes(original: Seq<char>, modified: Seq<char>) -> Seq<
    (DiffTag, Seq<char>),
>;

/// A value is its content followed by its terminator.
pub proof fn lemma_content_and_ending(value: Seq<char>)
    ensures
        content_of(value) + ending_of(value).chars() == value,
{
    assert(content_of(value) + ending_of(value).chars() =~= value);
}

/// The replacement of one text by another reproduces both.
pub proof fn lemma_replacement_reproduces(original: Seq<char>, modified: Seq<char>)
    ensures
        reproduces(replacement(original, modified), original, modified),
{
    let script = replacement(original, modified);
    lemma_content_and_ending(original);
    lemma_content_and_ending(modified);
    reveal_with_fuel(side_text, 3);
    if script.len() == 2 {
        assert(script.drop_last() =~= seq![line_of((DiffTag::Deleted, original))]);
        assert(script.drop_last().drop_last() =~= Seq::<LineModel>::empty());
    } else if script.len() == 1 {
        assert(script.drop_last() =~= Seq::<LineModel>::empty());
    }
    assert(side_text(script, false) =~= original);
    assert(side_text(script, true) =~= modified);
}

/// Diff round trip: whatever the differ answers, the script that is handed
/// out reproduces the original from its unchanged and deleted lines and the
/// modified text from its unchanged and inserted lines.
pub proof fn lemma_settled_reproduces(
    original: Seq<char>,
    modified: Seq<char>,
    changes: Seq<(DiffTag, Seq<char>)>,
)
    ensures
        reproduces(settled(original, modified, changes), original, modified),
{
    lemma_replacement_reproduces(original, modified);
}

/// `similar`'s `TextDiff::configure().algorithm(Algorithm::Myers)
/// .diff_lines(..)` and `iter_all_changes`: the changes in the order in
/// which the differ gives them, each as its tag and its value. They depend
/// on the two texts alone: no deadline is set.
#[verifier::external_body]
fn myers_changes(original: &str, modified: &str) -> (changes: Vec<(DiffTag, String)>)
    ensures
        changes_view(changes@) == myers_line_changes(original@, modified@),
{
    let diff = TextDiff::configure().algorithm(Algorithm::Myers).diff_lines(original, modified);
    diff.iter_all_changes().map(
        |change|
            (
                match change.tag() {
                    ChangeTag::Delete => DiffTag::Deleted,
                    ChangeTag::Insert => DiffTag::Inserted,
                    ChangeTag::Equal => DiffTag::Unchanged,
                },
                change.value().to_string(),
            ),
    ).collect()
}

impl DiffTag {
    /// Whether a line with this tag belongs to the original (`modified` is
    /// false) or to the modified text (`modified` is true).
    pub fn is_on_side(self, modified: bool) -> (b: bool)
        ensures
            b == self.on_side(modified),
    {
        match self {
            DiffTag::Deleted => !modified,
            DiffTag::Inserted => modified,
            DiffTag::Unchanged => true,
        }
    }
}

impl LineEnding {
    /// The number of characters of the terminator.
    pub fn len(self) -> (n: usize)
        ensures
            n == self.chars().len(),
    {
        match self {
            LineEnding::Missing => 0,
            LineEnding::Lf => 1,
            LineEnding::CrLf => 2,
            LineEnding::Cr => 1,
        }
    }
}

/// The terminator that `chars` ends with.
fn ending_in(chars: &Vec<char>) -> (ending: LineEnding)
    ensures
        ending == ending_of(chars@),
{
    let n = chars.len();
    if n >= 2 && chars[n - 2] == '\r' && chars[n - 1] == '\n' {
        LineEnding::CrLf
    } else if n >= 1 && chars[n - 1] == '\n' {
        LineEnding::Lf
    } else if n >= 1 && chars[n - 1] == '\r' {
        LineEnding::Cr
    } else {
        LineEnding::Missing
    }
}

/// The line that a change with this tag and value stands for.
fn line_from(tag: DiffTag, value: &str) -> (line: DiffLine)
    ensures
        line@ == line_of((tag, value@)),
{
    let chars = chars_of(value);
    let ending = ending_in(&chars);
    let text = string_of(&chars, 0, chars.len() - ending.len());
    DiffLine { tag, text, ending }
}

/// Appends the characters of `text` and of `ending` to `out`.
fn push_line(out: &mut Vec<char>, text: &str, ending: LineEnding)
    ensures
        final(out)@ == old(out)@ + text@ + ending.chars(),
{
    let ghost before = out@;
    let mut chars = chars_of(text);
    out.append(&mut chars);
    match ending {
        LineEnding::Missing => {},
        LineEnding::Lf => {
            out.push('\n');
        },
        LineEnding::CrLf => {
            out.push('\r');
            out.push('\n');
        },
        LineEnding::Cr => {
            out.push('\r');
        },
    }
    assert(out@ =~= before + text@ + ending.chars());
}

/// The text that the lines of one side of `script` make up.
fn side_chars(script: &Vec<DiffLine>, modified: bool) -> (out: Vec<char>)
    ensures
        out@ == side_text(script_view(script@), modified),
{
    let mut out: Vec<char> = Vec::new();
    let mut i: usize = 0;
    let ghost all = script_view(script@);
    while i < script.len()
        invariant
            0 <= i <= script@.len(),
            all == script_view(script@),
            out@ == side_text(all.take(i as int), modified),
        decreases script@.len() - i,
    {
        proof {
            assert(all.take(i + 1).drop_last() =~= all.take(i as int));
            assert(all.take(i + 1).last() == script@[i as int]@);
        }
        if script[i].tag.is_on_side(modified) {
            push_line(&mut out, script[i].text.as_str(), script[i].ending);
        }
        i += 1;
    }
    assert(all.take(i as int) =~= all);
    out
}

/// Whether `script` reproduces both texts.
fn check_script(script: &Vec<DiffLine>, original: &str, modified: &str) -> (ok: bool)
    ensures
        ok == reproduces(script_view(script@), original@, modified@),
{
    let old_side = side_chars(script, false);
    let new_side = side_chars(script, true);
    let old_text = chars_of(original);
    let new_text = chars_of(modified);
    let same_old = old_side.len() == old_text.len() && matches_at(&old_side, 0, &old_text);
    let same_new = new_side.len() == new_text.len() && matches_at(&new_side, 0, &new_text);
    proof {
        if old_side@.len() == old_text@.len() {
            assert(old_side@.subrange(0, old_text@.len() as int) =~= old_side@);
        }
        if new_side@.len() == new_text@.len() {
            assert(new_side@.subrange(0, new_text@.len() as int) =~= new_side@);
        }
    }
    same_old && same_new
}

/// The script that deletes `original` as a whole and inserts `modified` as a
/// whole.
fn replace_all(original: &str, modified: &str) -> (script: Vec<DiffLine>)
    ensures
        script_view(script@) == replacement(original@, modified@),
{
    let mut script: Vec<DiffLine> = Vec::new();
    if !original.is_empty() {
        script.push(line_from(DiffTag::Deleted, original));
    }
    if !modified.is_empty() {
        script.push(line_from(DiffTag::Inserted, modified));
    }
    assert(script_view(script@) =~= replacement(original@, modified@));
    script
}

/// Turns the changes that the differ gave for two texts into the script that
/// is handed out. The changes are taken as they are where the lines they
/// stand for reproduce both texts; changes that do not are set aside, and
/// the original is reported as deleted and the modified text as inserted,
/// each as a whole. The script reproduces both texts in either case.
pub fn script_from_changes(
    original: &str,
    modified: &str,
    changes: Vec<(DiffTag, String)>,
) -> (script: Vec<DiffLine>)
    ensures
        script_view(script@) == settled(original@, modified@, changes_view(changes@)),
        reproduces(script_view(script@), original@, modified@),
{
    let mut script: Vec<DiffLine> = Vec::new();
    let mut i: usize = 0;
    let ghost all = changes_view(changes@);
    assert(script_view(script@) =~= script_of(all.take(0)));
    while i < changes.len()
        invariant
            0 <= i <= changes@.len(),
            all == changes_view(changes@),
            script_view(script@) == script_of(all.take(i as int)),
        decreases changes@.len() - i,
    {
        let line = line_from(changes[i].0, changes[i].1.as_str());
        let ghost before = script@;
        script.push(line);
        proof {
            assert(all[i as int] == (changes@[i as int].0, changes@[i as int].1@));
            assert(script_view(script@) =~= script_view(before).push(line@));
            assert(script_of(all.take(i + 1)) =~= script_of(all.take(i as int)).push(
                line_of(all[i as int]),
            ));
        }
        i += 1;
    }
    assert(all.take(i as int) =~= all);
    proof {
        lemma_settled_reproduces(original@, modified@, all);
    }
    if check_script(&script, original, modified) {
        script
    } else {
        replace_all(original, modified)
    }
}

/// The line-level edit script from `original` to `modified`, by Myers'
/// algorithm. Its unchanged and deleted lines, each with its terminator,
/// make up `original`, and its unchanged and inserted lines make up
/// `modified`.
pub fn diff(original: &str, modified: &str) -> (script: Vec<DiffLine>)
    ensures
        script_view(script@) == settled(
            original@,
            modified@,
            myers_line_changes(original@, modified@),
        ),
        side_text(script_view(script@), false) == original@,
        side_text(script_view(script@), true) == modified@,
{
    let changes = myers_changes(original, modified);
    script_from_changes(original, modified, changes)
}

impl DiffLine {
    /// The line as it is shown: `-` before a deleted line, `+` before an
    /// inserted one, a space before an unchanged one, then the text.
    pub fn render(&self) -> (shown: String)
        ensures
            shown@ == seq![self.tag.marker()] + self.text@,
    {
        let mut chars: Vec<char> = Vec::new();
        chars.push(
            match self.tag {
                DiffTag::Deleted => '-',
                DiffTag::Inserted => '+',
                DiffTag::Unchanged => ' ',
            },
        );
        let mut text = chars_of(self.text.as_str());
        chars.append(&mut text);
        let shown = string_of(&chars, 0, chars.len());
        assert(shown@ =~= seq![self.tag.marker()] + self.text@);
        shown
    }
}

} // verus!
