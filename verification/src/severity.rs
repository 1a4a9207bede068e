//! Severity classification of a single record.
//!
//! A record is tagged with a severity where it holds the severity's keyword,
//! in any mix of upper and lower case, followed by a separator: a colon and a
//! space, or a space. What follows the separator, up to the end of the line,
//! is the record's message.

use crate::text::{chars_of, line_end, line_end_from, string_of};
use vstd::prelude::*;

verus! {

/// The severity buckets, in the order in which they are tried.
#[derive(Clone, Copy, Debug, PartialEq, Eq, Structural)]
pub enum SeverityBucket {
    Error,
    Warning,
    Info,
    Debug,
    Critical,
}

impl SeverityBucket {
    /// The bucket's keyword, in lower case.
    pub open spec fn keyword(self) -> Seq<char> {
        match self {
            SeverityBucket::Error => seq!['e', 'r', 'r', 'o', 'r'],
            SeverityBucket::Warning => seq!['w', 'a', 'r', 'n', 'i', 'n', 'g'],
            SeverityBucket::Info => seq!['i', 'n', 'f', 'o'],
            SeverityBucket::Debug => seq!['d', 'e', 'b', 'u', 'g'],
            SeverityBucket::Critical => seq!['c', 'r', 'i', 't', 'i', 'c', 'a', 'l'],
        }
    }

    /// The bucket's keyword, in lower case.
    pub fn keyword_chars(self) -> (kw: Vec<char>)
        ensures
            kw@ == self.keyword(),
    {
        let kw: Vec<char> = match self {
            SeverityBucket::Error => vec!['e', 'r', 'r', 'o', 'r'],
            SeverityBucket::Warning => vec!['w', 'a', 'r', 'n', 'i', 'n', 'g'],
            SeverityBucket::Info => vec!['i', 'n', 'f', 'o'],
            SeverityBucket::Debug => vec!['d', 'e', 'b', 'u', 'g'],
            SeverityBucket::Critical => vec!['c', 'r', 'i', 't', 'i', 'c', 'a', 'l'],
        };
        assert(kw@ =~= self.keyword());
        kw
    }

    /// The bucket's name as log lines print it, in upper case.
    pub open spec fn label(self) -> Seq<char> {
        match self {
            SeverityBucket::Error => seq!['E', 'R', 'R', 'O', 'R'],
            SeverityBucket::Warning => seq!['W', 'A', 'R', 'N', 'I', 'N', 'G'],
            SeverityBucket::Info => seq!['I', 'N', 'F', 'O'],
            SeverityBucket::Debug => seq!['D', 'E', 'B', 'U', 'G'],
            SeverityBucket::Critical => seq!['C', 'R', 'I', 'T', 'I', 'C', 'A', 'L'],
        }
    }

    /// The bucket's name as log lines print it, in upper case.
    pub fn label_chars(self) -> (label: Vec<char>)
        ensures
            label@ == self.label(),
    {
        let label: Vec<char> = match self {
            SeverityBucket::Error => vec!['E', 'R', 'R', 'O', 'R'],
            SeverityBucket::Warning => vec!['W', 'A', 'R', 'N', 'I', 'N', 'G'],
            SeverityBucket::Info => vec!['I', 'N', 'F', 'O'],
            SeverityBucket::Debug => vec!['D', 'E', 'B', 'U', 'G'],
            SeverityBucket::Critical => vec!['C', 'R', 'I', 'T', 'I', 'C', 'A', 'L'],
        };
        assert(label@ =~= self.label());
        label
    }
}

/// `c` with the letters `A` to `Z` turned into `a` to `z`.
pub open spec fn lower(c: char) -> char {
    if 'A' <= c <= 'Z' {
        ((c as u8) + 32) as char
    } else {
        c
    }
}

/// The lower-case keyword `kw` stands at index `i` of `s`, in any case.
pub open spec fn keyword_at(s: Seq<char>, i: int, kw: Seq<char>) -> bool {
    &&& 0 <= i
    &&& i + kw.len() <= s.len()
    &&& forall|j: int| 0 <= j < kw.len() ==> lower(s[i + j]) == #[trigger] kw[j]
}

/// The length of the separator at index `j` of `s`: 2 for a colon and a
/// space, 1 for a space, 0 where neither stands there.
pub open spec fn separator_len(s: Seq<char>, j: int) -> int {
    if 0 <= j && j + 1 < s.len() && s[j] == ':' && s[j + 1] == ' ' {
        2
    } else if 0 <= j < s.len() && s[j] == ' ' {
        1
    } else {
        0
    }
}

/// The keyword stands at index `i` of `s` and a separator follows it.
pub open spec fn tagged_at(s: Seq<char>, i: int, kw: Seq<char>) -> bool {
    keyword_at(s, i, kw) && separator_len(s, i + kw.len()) > 0
}

/// `i` is the first index of `s` at which the keyword stands with its
/// separator.
pub open spec fn is_first_tag(s: Seq<char>, i: int, kw: Seq<char>) -> bool {
    tagged_at(s, i, kw) && forall|j: int| 0 <= j < i ==> !tagged_at(s, j, kw)
}

/// The first index of `s` at which the keyword stands with its separator.
pub open spec fn first_tag(s: Seq<char>, kw: Seq<char>) -> Option<int> {
    if exists|i: int| is_first_tag(s, i, kw) {
        Some(choose|i: int| is_first_tag(s, i, kw))
    } else {
        None
    }
}

/// What follows the keyword at index `i` and its separator, up to the end of
/// the line.
pub open spec fn message_at(s: Seq<char>, i: int, kw: Seq<char>) -> Seq<char> {
    let from = i + kw.len() + separator_len(s, i + kw.len());
    s.subrange(from, from + line_end(s.skip(from)))
}

/// The message that `s` holds for the keyword: what follows the keyword's
/// first occurrence with a separator.
pub open spec fn message_for(s: Seq<char>, kw: Seq<char>) -> Option<Seq<char>> {
    match first_tag(s, kw) {
        Some(i) => Some(message_at(s, i, kw)),
        None => None,
    }
}

/// The bucket and message of `record`: the first bucket, in the order Error,
/// Warning, Info, Debug, Critical, whose keyword the record holds with a
/// separator. A record that holds none has no classification.
pub open spec fn classification(record: Seq<char>) -> Option<(SeverityBucket, Seq<char>)> {
    if let Some(m) = message_for(record, SeverityBucket::Error.keyword()) {
        Some((SeverityBucket::Error, m))
    } else if let Some(m) = message_for(record, SeverityBucket::Warning.keyword()) {
        Some((SeverityBucket::Warning, m))
    } else if let Some(m) = message_for(record, SeverityBucket::Info.keyword()) {
        Some((SeverityBucket::Info, m))
    } else if let Some(m) = message_for(record, SeverityBucket::Debug.keyword()) {
        Some((SeverityBucket::Debug, m))
    } else if let Some(m) = message_for(record, SeverityBucket::Critical.keyword()) {
        Some((SeverityBucket::Critical, m))
    } else {
        None
    }
}

/// What `classify` returns, as a value of the model.
pub open spec fn classified_view(found: Option<(SeverityBucket, String)>) -> Option<
    (SeverityBucket, Seq<char>),
> {
    match found {
        Some((bucket, message)) => Some((bucket, message@)),
        None => None,
    }
}

/// There is at most one first tag.
pub proof fn lemma_first_tag_unique(s: Seq<char>, i: int, kw: Seq<char>)
    requires
        is_first_tag(s, i, kw),
    ensures
        first_tag(s, kw) == Some(i),
{
    let c = choose|c: int| is_first_tag(s, c, kw);
    if c < i {
        assert(!tagged_at(s, c, kw));
    } else if i < c {
        assert(!tagged_at(s, i, kw));
    }
}

/// `c` with the letters `A` to `Z` turned into `a` to `z`.
pub fn to_lower(c: char) -> (r: char)
    ensures
        r == lower(c),
{
    if c >= 'A' && c <= 'Z' {
        ((c as u8) + 32u8) as char
    } else {
        c
    }
}

/// The length of the separator at index `j` of `chars`.
fn separator_at(chars: &Vec<char>, j: usize) -> (n: usize)
    ensures
        n == separator_len(chars@, j as int),
        j + n <= chars@.len() || n == 0,
{
    if j < chars.len() && chars[j] == ':' && j + 1 < chars.len() && chars[j + 1] == ' ' {
        2
    } else if j < chars.len() && chars[j] == ' ' {
        1
    } else {
        0
    }
}

/// Whether the keyword stands at index `at` of `chars` with a separator
/// after it.
fn has_tag_at(chars: &Vec<char>, at: usize, kw: &Vec<char>) -> (b: bool)
    ensures
        b == tagged_at(chars@, at as int, kw@),
{
    if kw.len() > chars.len() || at > chars.len() - kw.len() {
        return false;
    }
    let mut j: usize = 0;
    while j < kw.len()
        invariant
            at + kw@.len() <= chars@.len() <= usize::MAX,
            0 <= j <= kw@.len(),
            forall|k: int| 0 <= k < j ==> lower(chars@[at + k]) == #[trigger] kw@[k],
        decreases kw@.len() - j,
    {
        if to_lower(chars[at + j]) != kw[j] {
            return false;
        }
        j += 1;
    }
    separator_at(chars, at + kw.len()) > 0
}

/// The first index of `chars` at which the keyword stands with its separator.
fn find_tag(chars: &Vec<char>, kw: &Vec<char>) -> (r: Option<usize>)
    ensures
        match r {
            Some(i) => first_tag(chars@, kw@) == Some(i as int) && tagged_at(chars@, i as int, kw@),
            None => first_tag(chars@, kw@) is None,
        },
{
    let mut i: usize = 0;
    while i < chars.len()
        invariant
            0 <= i <= chars@.len(),
            forall|j: int| 0 <= j < i ==> !tagged_at(chars@, j, kw@),
        decreases chars@.len() - i,
    {
        if has_tag_at(chars, i, kw) {
            proof {
                lemma_first_tag_unique(chars@, i as int, kw@);
            }
            return Some(i);
        }
        i += 1;
    }
    proof {
        assert forall|j: int| !tagged_at(chars@, j, kw@) by {
            if j >= chars@.len() {
                assert(separator_len(chars@, j + kw@.len()) == 0);
            }
        }
    }
    None
}

/// The five keywords in the form in which records are searched for them.
/// A value is made once for a pass over many records and only read from
/// then on, so it can be shared by all workers of the pass.
pub struct Matchers {
    error: Vec<char>,
    warning: Vec<char>,
    info: Vec<char>,
    debug: Vec<char>,
    critical: Vec<char>,
}

impl Matchers {
    /// The keyword that records are searched for on behalf of `bucket`.
    pub closed spec fn pattern(self, bucket: SeverityBucket) -> Seq<char> {
        match bucket {
            SeverityBucket::Error => self.error@,
            SeverityBucket::Warning => self.warning@,
            SeverityBucket::Info => self.info@,
            SeverityBucket::Debug => self.debug@,
            SeverityBucket::Critical => self.critical@,
        }
    }

    #[verifier::type_invariant]
    spec fn holds_the_keywords(self) -> bool {
        forall|bucket: SeverityBucket| #[trigger] self.pattern(bucket) == bucket.keyword()
    }

    /// The matchers for the five buckets: each searches for the keyword of
    /// its bucket.
    pub fn new() -> (matchers: Matchers)
        ensures
            forall|bucket: SeverityBucket| #[trigger] matchers.pattern(bucket) == bucket.keyword(),
    {
        Matchers {
            error: SeverityBucket::Error.keyword_chars(),
            warning: SeverityBucket::Warning.keyword_chars(),
            info: SeverityBucket::Info.keyword_chars(),
            debug: SeverityBucket::Debug.keyword_chars(),
            critical: SeverityBucket::Critical.keyword_chars(),
        }
    }

    /// The keyword of `bucket`.
    fn keyword_of(&self, bucket: SeverityBucket) -> (kw: &Vec<char>)
        ensures
            kw@ == bucket.keyword(),
    {
        proof {
            use_type_invariant(self);
            assert(self.pattern(bucket) == bucket.keyword());
        }
        match bucket {
            SeverityBucket::Error => &self.error,
            SeverityBucket::Warning => &self.warning,
            SeverityBucket::Info => &self.info,
            SeverityBucket::Debug => &self.debug,
            SeverityBucket::Critical => &self.critical,
        }
    }

    /// The message that `chars` holds for the bucket's keyword, if any.
    fn message_in(&self, chars: &Vec<char>, bucket: SeverityBucket) -> (r: Option<String>)
        ensures
            match r {
                Some(m) => message_for(chars@, bucket.keyword()) == Some(m@),
                None => message_for(chars@, bucket.keyword()) is None,
            },
    {
        let kw = self.keyword_of(bucket);
        match find_tag(chars, kw) {
            Some(i) => {
                assert(i + kw@.len() <= chars@.len() <= usize::MAX) by {
                    vstd::std_specs::vec::axiom_spec_len(chars);
                }
                let after = i + kw.len();
                let from = after + separator_at(chars, after);
                let end = line_end_from(chars, from);
                Some(string_of(chars, from, end))
            },
            None => None,
        }
    }

    /// Classifies one record: the bucket of the first keyword, in the order
    /// Error, Warning, Info, Debug, Critical, that the record holds with a
    /// separator, and the message after it. `None` for a record that holds
    /// none of the five.
    pub fn classify(&self, record: &str) -> (found: Option<(SeverityBucket, String)>)
        ensures
            classified_view(found) == classification(record@),
    {
        let chars = chars_of(record);
        if let Some(m) = self.message_in(&chars, SeverityBucket::Error) {
            return Some((SeverityBucket::Error, m));
        }
        if let Some(m) = self.message_in(&chars, SeverityBucket::Warning) {
            return Some((SeverityBucket::Warning, m));
        }
        if let Some(m) = self.message_in(&chars, SeverityBucket::Info) {
            return Some((SeverityBucket::Info, m));
        }
        if let Some(m) = self.message_in(&chars, SeverityBucket::Debug) {
            return Some((SeverityBucket::Debug, m));
        }
        if let Some(m) = self.message_in(&chars, SeverityBucket::Critical) {
            return Some((SeverityBucket::Critical, m));
        }
        None
    }
}

/// Classifies one record, as `Matchers::classify` does, with matchers made
/// for this one call.
pub fn classify(record: &str) -> (found: Option<(SeverityBucket, String)>)
    ensures
        classified_view(found) == classification(record@),
{
    Matchers::new().classify(record)
}

} // verus!
