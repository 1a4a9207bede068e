//! Record extraction: from a log text and its format to the ordered records.
//!
//! A JSON or YAML text is read as one list of strings, each string a record.
//! A text that cannot be read so is not refused: the whole text becomes the
//! only record. Any other text is split into lines.

use crate::format::{detect, sniff, LogFormat};
use crate::text::{chars_of, line_end, line_end_from, lemma_line_end, string_of};
use vstd::prelude::*;

verus! {

/// The error type of the JSON parser.
#[verifier::external_type_specification]
#[verifier::external_body]
pub struct ExJsonError(serde_json::Error);

/// The error type of the YAML parser.
#[verifier::external_type_specification]
#[verifier::external_body]
pub struct ExYamlError(serde_yaml::Error);

/// The list of strings that the JSON parser reads from `text`; `None` where
/// it does not read the text as a list of strings.
pub uninterp spec fn json_string_list(text: Seq<char>) -> Option<Seq<Seq<char>>>;

/// The list of strings that the YAML parser reads from `text`; `None` where
/// it does not read the text as a list of strings.
pub uninterp spec fn yaml_string_list(text: Seq<char>) -> Option<Seq<Seq<char>>>;

/// `line` without the carriage return at its end, if it has one.
pub open spec fn without_cr(line: Seq<char>) -> Seq<char> {
    if line.len() > 0 && line.last() == '\r' {
        line.drop_last()
    } else {
        line
    }
}

/// The lines of `text`. A line ends with a line feed, or with a carriage
/// return and a line feed; neither belongs to the line. What follows the last
/// line feed is a line of its own unless it is empty, so the empty text has
/// no lines and a final line feed adds none.
pub open spec fn lines_of(text: Seq<char>) -> Seq<Seq<char>>
    decreases text.len(),
{
    let n = line_end(text);
    if text.len() == 0 {
        Seq::empty()
    } else if !(0 <= n < text.len()) {
        seq![text]
    } else {
        seq![without_cr(text.take(n))] + lines_of(text.skip(n + 1))
    }
}

/// The records of a parsed list, or the whole text as the only record where
/// the text could not be parsed.
pub open spec fn parsed_or_whole(text: Seq<char>, parsed: Option<Seq<Seq<char>>>) -> Seq<
    Seq<char>,
> {
    match parsed {
        Some(list) => list,
        None => seq![text],
    }
}

/// The records of `text` under `format`.
pub open spec fn extraction(text: Seq<char>, format: LogFormat) -> Seq<Seq<char>> {
    match format {
        LogFormat::Json => parsed_or_whole(text, json_string_list(text)),
        LogFormat::Yaml => parsed_or_whole(text, yaml_string_list(text)),
        LogFormat::Toml => lines_of(text),
        LogFormat::Plain => lines_of(text),
    }
}

/// What a parser returned, as a value of the model.
pub open spec fn list_view(parsed: Option<Vec<String>>) -> Option<Seq<Seq<char>>> {
    match parsed {
        Some(list) => Some(list.deep_view()),
        None => None,
    }
}

/// `serde_json::from_str` at the type `Vec<String>`: `Ok` with the list of
/// strings that the parser reads from `text`, `Err` where it reads none. The
/// answer depends on `text` alone.
#[verifier::external_body]
fn json_strings(text: &str) -> (r: Result<Vec<String>, serde_json::Error>)
    ensures
        match r {
            Ok(list) => json_string_list(text@) == Some(list.deep_view()),
            Err(_) => json_string_list(text@) is None,
        },
{
    serde_json::from_str(text)
}

/// `serde_yaml::from_str` at the type `Vec<String>`: `Ok` with the list of
/// strings that the parser reads from `text`, `Err` where it reads none. The
/// answer depends on `text` alone.
#[verifier::external_body]
fn yaml_strings(text: &str) -> (r: Result<Vec<String>, serde_yaml::Error>)
    ensures
        match r {
            Ok(list) => yaml_string_list(text@) == Some(list.deep_view()),
            Err(_) => yaml_string_list(text@) is None,
        },
{
    serde_yaml::from_str(text)
}

/// The records that a parser's answer stands for: the parsed list, or, where
/// parsing failed, the whole text as the only record.
pub fn records_or_whole(text: &str, parsed: Option<Vec<String>>) -> (records: Vec<String>)
    ensures
        records.deep_view() == parsed_or_whole(text@, list_view(parsed)),
{
    match parsed {
        Some(list) => list,
        None => {
            let mut records: Vec<String> = Vec::new();
            records.push(text.to_owned());
            assert(records.deep_view() =~= seq![text@]);
            records
        },
    }
}

/// Splits `text` into its lines.
pub fn split_lines(text: &str) -> (out: Vec<String>)
    ensures
        out.deep_view() == lines_of(text@),
{
    let chars = chars_of(text);
    let mut out: Vec<String> = Vec::new();
    let mut start: usize = 0;
    assert(chars@.skip(0) =~= chars@);
    assert(out.deep_view() + lines_of(chars@) =~= lines_of(chars@));
    while start < chars.len()
        invariant
            0 <= start <= chars@.len(),
            out.deep_view() + lines_of(chars@.skip(start as int)) == lines_of(chars@),
        decreases chars@.len() - start,
    {
        let ghost rest = chars@.skip(start as int);
        let ghost before = out.deep_view();
        let end = line_end_from(&chars, start);
        proof {
            lemma_line_end(rest);
        }
        if end == chars.len() {
            let line = string_of(&chars, start, end);
            out.push(line);
            proof {
                assert(line@ =~= rest);
                assert(lines_of(chars@.skip(end as int)) =~= Seq::<Seq<char>>::empty());
                assert(out.deep_view() =~= before.push(rest));
                assert(before.push(rest) =~= before + lines_of(rest));
            }
            start = end;
        } else {
            let stop = if end > start && chars[end - 1] == '\r' {
                end - 1
            } else {
                end
            };
            let line = string_of(&chars, start, stop);
            out.push(line);
            proof {
                let n = end - start;
                assert(rest.take(n) =~= chars@.subrange(start as int, end as int));
                assert(line@ =~= without_cr(rest.take(n)));
                assert(rest.skip(n + 1) =~= chars@.skip(end + 1));
                assert(out.deep_view() =~= before.push(line@));
                assert(before.push(line@) + lines_of(chars@.skip(end + 1)) =~= before + lines_of(
                    rest,
                ));
            }
            start = end + 1;
        }
    }
    assert(lines_of(chars@.skip(start as int)) =~= Seq::<Seq<char>>::empty());
    assert(out.deep_view() + Seq::<Seq<char>>::empty() =~= out.deep_view());
    out
}

/// Extracts the records of `text` under `format`, in the order of the text.
/// For JSON and YAML the records are the strings of the list that the text
/// denotes; a text that denotes no such list is itself the only record. For
/// the other formats the records are the lines of the text, empty ones
/// included.
pub fn extract(text: &str, format: LogFormat) -> (records: Vec<String>)
    ensures
        records.deep_view() == extraction(text@, format),
        format == LogFormat::Json && json_string_list(text@) is None ==> records.deep_view()
            == seq![text@],
        format == LogFormat::Yaml && yaml_string_list(text@) is None ==> records.deep_view()
            == seq![text@],
{
    match format {
        LogFormat::Json => {
            let parsed = match json_strings(text) {
                Ok(list) => Some(list),
                Err(_) => None,
            };
            records_or_whole(text, parsed)
        },
        LogFormat::Yaml => {
            let parsed = match yaml_strings(text) {
                Ok(list) => Some(list),
                Err(_) => None,
            };
            records_or_whole(text, parsed)
        },
        LogFormat::Toml => split_lines(text),
        LogFormat::Plain => split_lines(text),
    }
}

/// The records of `contents` under the format that `detect` finds for it.
pub fn parse_log(contents: &str) -> (records: Vec<String>)
    ensures
        records.deep_view() == extraction(contents@, sniff(contents@)),
{
    extract(contents, detect(contents))
}

} // verus!
