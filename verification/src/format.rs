//! Format sniffing: a cheap look at the shape of a log text.

use crate::text::{begins_with, chars_of, find, matches_at, occurs_at, occurs_in, skip_blank,
    trim_start};
use vstd::prelude::*;

verus! {

/// The structural formats a log text is taken for.
#[derive(Clone, Copy, Debug, PartialEq, Eq, Structural)]
pub enum LogFormat {
    Json,
    Yaml,
    Toml,
    Plain,
}

/// What a JSON text begins with, once leading white space is gone.
pub open spec fn json_opening() -> Seq<char> {
    seq!['{']
}

/// The marker that opens a YAML document.
pub open spec fn yaml_opening() -> Seq<char> {
    seq!['-', '-', '-']
}

/// A colon at the end of a line, as a YAML mapping key has it.
pub open spec fn yaml_key_ending() -> Seq<char> {
    seq![':', '\n']
}

/// The sign between a TOML key and its value.
pub open spec fn toml_assignment() -> Seq<char> {
    seq!['=']
}

/// The format of `text`. The rules are tried in this order and the first
/// that holds decides, so a text that opens with `{` is JSON even if it
/// holds an `=`.
pub open spec fn sniff(text: Seq<char>) -> LogFormat {
    if begins_with(trim_start(text), json_opening()) {
        LogFormat::Json
    } else if begins_with(trim_start(text), yaml_opening()) || occurs_in(text, yaml_key_ending()) {
        LogFormat::Yaml
    } else if occurs_in(text, toml_assignment()) {
        LogFormat::Toml
    } else {
        LogFormat::Plain
    }
}

/// A pattern stands at the front of `s.skip(n)` exactly where it stands at
/// index `n` of `s`.
proof fn lemma_begins_after_skip(s: Seq<char>, n: int, p: Seq<char>)
    requires
        0 <= n <= s.len(),
    ensures
        begins_with(s.skip(n), p) == occurs_at(s, n, p),
{
    if n + p.len() <= s.len() {
        assert(s.skip(n).subrange(0, p.len() as int) =~= s.subrange(n, n + p.len()));
    }
}

/// Whether the characters after the leading white space begin with `pattern`.
fn opens_with(chars: &Vec<char>, pattern: &Vec<char>) -> (b: bool)
    ensures
        b == begins_with(trim_start(chars@), pattern@),
{
    let n = skip_blank(chars);
    proof {
        lemma_begins_after_skip(chars@, n as int, pattern@);
    }
    matches_at(chars, n, pattern)
}

/// Determines the format of `text`. Every text has a format: the empty text
/// is `Plain`. The result depends on the text alone, so the same text always
/// gets the same format.
pub fn detect(text: &str) -> (format: LogFormat)
    ensures
        format == sniff(text@),
{
    let chars = chars_of(text);
    let json: Vec<char> = vec!['{'];
    let yaml: Vec<char> = vec!['-', '-', '-'];
    let key_ending: Vec<char> = vec![':', '\n'];
    let assignment: Vec<char> = vec!['='];
    assert(json@ =~= json_opening());
    assert(yaml@ =~= yaml_opening());
    assert(key_ending@ =~= yaml_key_ending());
    assert(assignment@ =~= toml_assignment());
    if opens_with(&chars, &json) {
        LogFormat::Json
    } else if opens_with(&chars, &yaml) || find(&chars, &key_ending).is_some() {
        LogFormat::Yaml
    } else if find(&chars, &assignment).is_some() {
        LogFormat::Toml
    } else {
        LogFormat::Plain
    }
}

} // verus!
