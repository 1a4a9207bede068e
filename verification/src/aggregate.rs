//! Classification of all records of a log, in parallel, into five buckets.
//!
//! The records are handed out to a pool of workers. Each worker classifies
//! runs of consecutive records one after another into a partial result, and
//! the partial results are merged in the order of the records. Whatever the
//! split and whichever worker finishes first, the outcome is that of
//! classifying the records one by one from top to bottom.

use crate::format::sniff;
use crate::records::{extraction, parse_log};
use crate::severity::{classification, classified_view, Matchers, SeverityBucket};
use rayon::iter::{IntoParallelRefIterator, ParallelIterator};
use vstd::prelude::*;

verus! {

/// The messages of a log by severity, each bucket in the order of the
/// records they came from.
#[derive(Clone, Debug, PartialEq, Eq)]
pub struct ClassifiedLog {
    pub errors: Vec<String>,
    pub warnings: Vec<String>,
    pub infos: Vec<String>,
    pub debugs: Vec<String>,
    pub criticals: Vec<String>,
}

/// The model of a `ClassifiedLog`: five sequences of messages.
#[verifier::ext_equal]
pub struct Buckets {
    pub errors: Seq<Seq<char>>,
    pub warnings: Seq<Seq<char>>,
    pub infos: Seq<Seq<char>>,
    pub debugs: Seq<Seq<char>>,
    pub criticals: Seq<Seq<char>>,
}

impl Buckets {
    /// Five empty buckets.
    pub open spec fn empty() -> Buckets {
        Buckets {
            errors: Seq::empty(),
            warnings: Seq::empty(),
            infos: Seq::empty(),
            debugs: Seq::empty(),
            criticals: Seq::empty(),
        }
    }

    /// The messages of one bucket.
    pub open spec fn of(self, bucket: SeverityBucket) -> Seq<Seq<char>> {
        match bucket {
            SeverityBucket::Error => self.errors,
            SeverityBucket::Warning => self.warnings,
            SeverityBucket::Info => self.infos,
            SeverityBucket::Debug => self.debugs,
            SeverityBucket::Critical => self.criticals,
        }
    }

    /// These buckets after one more record: its message is added at the end
    /// of its bucket; a record without classification changes nothing.
    pub open spec fn filed(self, found: Option<(SeverityBucket, Seq<char>)>) -> Buckets {
        match found {
            Some((SeverityBucket::Error, m)) => Buckets { errors: self.errors.push(m), ..self },
            Some((SeverityBucket::Warning, m)) => Buckets {
                warnings: self.warnings.push(m),
                ..self
            },
            Some((SeverityBucket::Info, m)) => Buckets { infos: self.infos.push(m), ..self },
            Some((SeverityBucket::Debug, m)) => Buckets { debugs: self.debugs.push(m), ..self },
            Some((SeverityBucket::Critical, m)) => Buckets {
                criticals: self.criticals.push(m),
                ..self
            },
            None => self,
        }
    }

    /// These buckets followed by those of `later`, bucket by bucket.
    pub open spec fn merged(self, later: Buckets) -> Buckets {
        Buckets {
            errors: self.errors + later.errors,
            warnings: self.warnings + later.warnings,
            infos: self.infos + later.infos,
            debugs: self.debugs + later.debugs,
            criticals: self.criticals + later.criticals,
        }
    }
}

/// The buckets that classifying `records` one by one, from the first to the
/// last, fills.
pub open spec fn tally(records: Seq<Seq<char>>) -> Buckets
    decreases records.len(),
{
    if records.len() == 0 {
        Buckets::empty()
    } else {
        tally(records.drop_last()).filed(classification(records.last()))
    }
}

/// The messages of the records that fall into `bucket`, in the order of the
/// records.
pub open spec fn messages_of(records: Seq<Seq<char>>, bucket: SeverityBucket) -> Seq<Seq<char>>
    decreases records.len(),
{
    if records.len() == 0 {
        Seq::empty()
    } else {
        let earlier = messages_of(records.drop_last(), bucket);
        match classification(records.last()) {
            Some((b, m)) => if b == bucket {
                earlier.push(m)
            } else {
                earlier
            },
            None => earlier,
        }
    }
}

/// A way of splitting a run of records into units of work and of putting the
/// partial results together again.
pub enum Plan {
    /// One unit of work: this many consecutive records, classified one after
    /// another by one worker.
    Unit(nat),
    /// Two plans for two adjacent runs of records, whose results are merged
    /// in the order of the records.
    Join(Box<Plan>, Box<Plan>),
}

impl Plan {
    /// The number of records that the plan covers.
    pub open spec fn size(self) -> nat
        decreases self,
    {
        match self {
            Plan::Unit(n) => n,
            Plan::Join(first, second) => first.size() + second.size(),
        }
    }

    /// What comes of classifying `records` according to the plan.
    pub open spec fn outcome(self, records: Seq<Seq<char>>) -> Buckets
        decreases self,
    {
        match self {
            Plan::Unit(_) => tally(records),
            Plan::Join(first, second) => first.outcome(records.take(first.size() as int)).merged(
                second.outcome(records.skip(first.size() as int)),
            ),
        }
    }
}

/// `outcome` is what some plan that covers `records` gives.
pub open spec fn follows_some_plan(records: Seq<Seq<char>>, outcome: Buckets) -> bool {
    exists|plan: Plan| plan.size() == records.len() && outcome == #[trigger] plan.outcome(records)
}

impl View for ClassifiedLog {
    type V = Buckets;

    open spec fn view(&self) -> Buckets {
        Buckets {
            errors: self.errors.deep_view(),
            warnings: self.warnings.deep_view(),
            infos: self.infos.deep_view(),
            debugs: self.debugs.deep_view(),
            criticals: self.criticals.deep_view(),
        }
    }
}

/// Each bucket of a tally holds the messages of the records that fall into
/// it, in the order of the records.
pub proof fn lemma_tally_by_bucket(records: Seq<Seq<char>>, bucket: SeverityBucket)
    ensures
        tally(records).of(bucket) == messages_of(records, bucket),
    decreases records.len(),
{
    if records.len() > 0 {
        lemma_tally_by_bucket(records.drop_last(), bucket);
    }
}

/// Merging is associative, and empty buckets are neutral on both sides.
pub proof fn lemma_merged_monoid(a: Buckets, b: Buckets, c: Buckets)
    ensures
        a.merged(b).merged(c) == a.merged(b.merged(c)),
        Buckets::empty().merged(a) == a,
        a.merged(Buckets::empty()) == a,
{
    assert(a.merged(b).merged(c) =~~= a.merged(b.merged(c)));
    assert(Buckets::empty().merged(a) =~~= a);
    assert(a.merged(Buckets::empty()) =~~= a);
}

/// The tally of two runs of records, one after the other, is the merge of
/// their tallies.
pub proof fn lemma_tally_concat(a: Seq<Seq<char>>, b: Seq<Seq<char>>)
    ensures
        tally(a + b) == tally(a).merged(tally(b)),
    decreases b.len(),
{
    if b.len() == 0 {
        assert(a + b =~= a);
        lemma_merged_monoid(tally(a), tally(a), tally(a));
    } else {
        lemma_tally_concat(a, b.drop_last());
        assert((a + b).drop_last() =~= a + b.drop_last());
        assert((a + b).last() == b.last());
        let found = classification(b.last());
        assert(tally(a).merged(tally(b.drop_last())).filed(found) =~~= tally(a).merged(
            tally(b.drop_last()).filed(found),
        ));
    }
}

/// Order invariant: whatever the plan by which the records are split into
/// units of work and the partial results merged, the outcome is the tally
/// of the records taken one by one from top to bottom.
pub proof fn lemma_plan_independent(records: Seq<Seq<char>>, plan: Plan)
    requires
        plan.size() == records.len(),
    ensures
        plan.outcome(records) == tally(records),
    decreases plan,
{
    match plan {
        Plan::Unit(_) => {},
        Plan::Join(first, second) => {
            let n = first.size() as int;
            lemma_plan_independent(records.take(n), *first);
            lemma_plan_independent(records.skip(n), *second);
            lemma_tally_concat(records.take(n), records.skip(n));
            assert(records.take(n) + records.skip(n) =~= records);
        },
    }
}

impl ClassifiedLog {
    /// A log with five empty buckets.
    pub fn new() -> (log: ClassifiedLog)
        ensures
            log@ == Buckets::empty(),
    {
        let log = ClassifiedLog {
            errors: Vec::new(),
            warnings: Vec::new(),
            infos: Vec::new(),
            debugs: Vec::new(),
            criticals: Vec::new(),
        };
        assert(log@ =~~= Buckets::empty());
        log
    }

    /// Adds the message of one classified record at the end of its bucket.
    /// `None`, a record without classification, leaves the log as it is.
    pub fn file(self, found: Option<(SeverityBucket, String)>) -> (log: ClassifiedLog)
        ensures
            log@ == self@.filed(classified_view(found)),
    {
        let mut log = self;
        match found {
            Some((bucket, message)) => {
                match bucket {
                    SeverityBucket::Error => log.errors.push(message),
                    SeverityBucket::Warning => log.warnings.push(message),
                    SeverityBucket::Info => log.infos.push(message),
                    SeverityBucket::Debug => log.debugs.push(message),
                    SeverityBucket::Critical => log.criticals.push(message),
                }
            },
            None => {},
        }
        assert(log@ =~~= self@.filed(classified_view(found)));
        log
    }

    /// Puts the buckets of `later` behind those of `self`, bucket by bucket.
    pub fn merge(self, later: ClassifiedLog) -> (log: ClassifiedLog)
        ensures
            log@ == self@.merged(later@),
    {
        let mut log = self;
        let mut later = later;
        let ghost before = later@;
        log.errors.append(&mut later.errors);
        log.warnings.append(&mut later.warnings);
        log.infos.append(&mut later.infos);
        log.debugs.append(&mut later.debugs);
        log.criticals.append(&mut later.criticals);
        assert(log@ =~~= self@.merged(before));
        log
    }
}

/// Runs rayon's `par_iter`, `map`, `fold` and `reduce` over the records.
/// Rayon splits the records into runs of consecutive items as it sees fit.
/// `map` classifies each record; `fold` starts each run from an empty log
/// and files the run's classifications into it in order; `reduce` merges the
/// partial logs, left before right, and may put an empty log anywhere
/// between them. The result is therefore the outcome of some plan that
/// covers the records; which plan is rayon's choice.
#[verifier::external_body]
fn classify_by_some_plan(matchers: &Matchers, records: &Vec<String>) -> (log: ClassifiedLog)
    ensures
        follows_some_plan(records.deep_view(), log@),
{
    records.par_iter().map(|record| matchers.classify(record)).fold(
        ClassifiedLog::new,
        |log, found| log.file(found),
    ).reduce(ClassifiedLog::new, |first, second| first.merge(second))
}

/// Classifies all records on a pool of workers. Each bucket of the result
/// holds the messages of its records in the order of the records, as if they
/// had been classified one by one from top to bottom; records without
/// classification appear in no bucket.
pub fn aggregate(records: &Vec<String>) -> (log: ClassifiedLog)
    ensures
        log@ == tally(records.deep_view()),
{
    let matchers = Matchers::new();
    let log = classify_by_some_plan(&matchers, records);
    proof {
        let all = records.deep_view();
        let plan = choose|plan: Plan|
            plan.size() == all.len() && log@ == #[trigger] plan.outcome(all);
        lemma_plan_independent(all, plan);
    }
    log
}

/// Classifies all records one by one, from the first to the last, without
/// any worker pool. The result is that of `aggregate`.
pub fn aggregate_in_order(records: &Vec<String>) -> (log: ClassifiedLog)
    ensures
        log@ == tally(records.deep_view()),
{
    let matchers = Matchers::new();
    let mut log = ClassifiedLog::new();
    let mut i: usize = 0;
    while i < records.len()
        invariant
            0 <= i <= records@.len(),
            log@ == tally(records.deep_view().take(i as int)),
        decreases records@.len() - i,
    {
        let found = matchers.classify(records[i].as_str());
        log = log.file(found);
        proof {
            let all = records.deep_view();
            assert(all.take(i + 1).drop_last() =~= all.take(i as int));
            assert(all.take(i + 1).last() == records@[i as int]@);
        }
        i += 1;
    }
    assert(records.deep_view().take(i as int) =~= records.deep_view());
    log
}

/// Summarises a log text: detects its format, extracts its records and
/// classifies them on a pool of workers. Each bucket of the result holds the
/// messages of its records in the order of the text.
pub fn process_logs_by_level(contents: &str) -> (log: ClassifiedLog)
    ensures
        log@ == tally(extraction(contents@, sniff(contents@))),
{
    let records = parse_log(contents);
    aggregate(&records)
}

} // verus!
