use logfix::aggregate::{aggregate, aggregate_in_order, process_logs_by_level, ClassifiedLog};
use logfix::severity::{classify, to_lower, Matchers, SeverityBucket};

fn strings(items: &[&str]) -> Vec<String> {
    items.iter().map(|s| s.to_string()).collect()
}

fn found(bucket: SeverityBucket, message: &str) -> Option<(SeverityBucket, String)> {
    Some((bucket, message.to_string()))
}

#[test]
fn classify_takes_the_text_after_colon_and_space() {
    assert_eq!(classify("ERROR: disk full"), found(SeverityBucket::Error, "disk full"));
    assert_eq!(classify("WARNING: low memory"), found(SeverityBucket::Warning, "low memory"));
    assert_eq!(classify("INFO: starting"), found(SeverityBucket::Info, "starting"));
    assert_eq!(classify("DEBUG: x=1"), found(SeverityBucket::Debug, "x=1"));
    assert_eq!(classify("CRITICAL: meltdown"), found(SeverityBucket::Critical, "meltdown"));
}

#[test]
fn classify_takes_the_text_after_a_space() {
    assert_eq!(classify("error disk full"), found(SeverityBucket::Error, "disk full"));
    assert_eq!(classify("debug  two"), found(SeverityBucket::Debug, " two"));
}

#[test]
fn classify_ignores_case() {
    assert_eq!(classify("Error: a"), found(SeverityBucket::Error, "a"));
    assert_eq!(classify("wArNiNg b"), found(SeverityBucket::Warning, "b"));
    assert_eq!(classify("cRiTiCaL: C"), found(SeverityBucket::Critical, "C"));
}

#[test]
fn classify_finds_the_keyword_anywhere() {
    assert_eq!(
        classify("2024-01-01 12:00 [ERROR] x ERROR: later"),
        found(SeverityBucket::Error, "later")
    );
    assert_eq!(classify("terror strikes"), found(SeverityBucket::Error, "strikes"));
}

#[test]
fn classify_takes_the_first_occurrence() {
    assert_eq!(
        classify("info: one info: two"),
        found(SeverityBucket::Info, "one info: two")
    );
    assert_eq!(classify("info:info x"), found(SeverityBucket::Info, "x"));
}

#[test]
fn classify_keeps_trailing_white_space() {
    assert_eq!(classify("INFO: padded  \t"), found(SeverityBucket::Info, "padded  \t"));
    assert_eq!(classify("INFO: "), found(SeverityBucket::Info, ""));
    assert_eq!(classify("INFO "), found(SeverityBucket::Info, ""));
    assert_eq!(classify("INFO:  x"), found(SeverityBucket::Info, " x"));
    assert_eq!(classify("INFO: x\r"), found(SeverityBucket::Info, "x\r"));
}

#[test]
fn classify_stops_at_the_end_of_the_line() {
    assert_eq!(classify("a\nERROR: first\nERROR: second"), found(SeverityBucket::Error, "first"));
    assert_eq!(classify("ERROR: \nrest"), found(SeverityBucket::Error, ""));
}

#[test]
fn classify_needs_a_separator() {
    assert_eq!(classify("random text"), None);
    assert_eq!(classify(""), None);
    assert_eq!(classify("ERROR"), None);
    assert_eq!(classify("ERROR:"), None);
    assert_eq!(classify("ERROR:disk"), None);
    assert_eq!(classify("ERRORS found"), None);
    assert_eq!(classify("INFO\tx"), None);
    assert_eq!(classify("errör x"), None);
}

#[test]
fn classify_tries_the_buckets_in_order() {
    assert_eq!(classify("CRITICAL: error in disk"), found(SeverityBucket::Error, "in disk"));
    assert_eq!(classify("debug: warning signs"), found(SeverityBucket::Warning, "signs"));
    assert_eq!(classify("critical: info dump"), found(SeverityBucket::Info, "dump"));
    assert_eq!(classify("critical: debug it"), found(SeverityBucket::Debug, "it"));
    assert_eq!(classify("critical: errors"), found(SeverityBucket::Critical, "errors"));
    assert_eq!(classify("debug: errors"), found(SeverityBucket::Debug, "errors"));
}

#[test]
fn classify_agrees_with_the_patterns_as_regular_expressions() {
    let buckets = [
        (SeverityBucket::Error, "error"),
        (SeverityBucket::Warning, "warning"),
        (SeverityBucket::Info, "info"),
        (SeverityBucket::Debug, "debug"),
        (SeverityBucket::Critical, "critical"),
    ];
    let patterns: Vec<(SeverityBucket, regex::Regex)> = buckets
        .iter()
        .map(|(bucket, word)| {
            (*bucket, regex::Regex::new(&format!("(?i){}(?:: | )(.*)", word)).unwrap())
        })
        .collect();
    let records = [
        "ERROR: disk full",
        "error disk",
        "ERROR:disk",
        "x error: y warning: z",
        "warning: é 日本 🦀 ",
        "Info:  two spaces",
        "debug:\nnext",
        "a\nb critical: c\nd error e",
        "CRITICAL meltdown error",
        "errorerror: x",
        "error :x",
        "ERROR: ",
        "\u{212a}ritical info x",
        "deBUG: \u{17f}",
        "\u{131}nfo x",
        "\u{130}NFO x",
        "crit\u{131}cal: x",
        "warn\u{130}ng x info: y",
        "",
        "nothing here",
    ];
    for record in records {
        let mut expected = None;
        for (bucket, pattern) in &patterns {
            if let Some(captures) = pattern.captures(record) {
                expected = Some((*bucket, captures[1].to_string()));
                break;
            }
        }
        assert_eq!(classify(record), expected);
    }
}

#[test]
fn to_lower_changes_capital_letters_only() {
    assert_eq!(to_lower('A'), 'a');
    assert_eq!(to_lower('Z'), 'z');
    assert_eq!(to_lower('m'), 'm');
    assert_eq!(to_lower('@'), '@');
    assert_eq!(to_lower('['), '[');
    assert_eq!(to_lower('É'), 'É');
}

#[test]
fn aggregate_keeps_record_order_per_bucket() {
    let records = strings(&["ERROR: disk full", "INFO: starting", "ERROR: network down"]);
    let log = aggregate(&records);
    assert_eq!(log.errors, strings(&["disk full", "network down"]));
    assert_eq!(log.infos, strings(&["starting"]));
    assert!(log.warnings.is_empty());
    assert!(log.debugs.is_empty());
    assert!(log.criticals.is_empty());
}

#[test]
fn aggregate_of_no_records_is_empty() {
    assert_eq!(aggregate(&strings(&[])), ClassifiedLog::new());
    assert_eq!(aggregate_in_order(&strings(&[])), ClassifiedLog::new());
}

#[test]
fn aggregate_drops_records_without_classification() {
    let log = aggregate(&strings(&["random text", "", "ERRORS"]));
    assert_eq!(log, ClassifiedLog::new());
}

#[test]
fn parallel_and_sequential_classification_agree() {
    let words = ["ERROR: e", "warning w", "random", "Info: i", "DEBUG d", "critical: c", ""];
    let mut records: Vec<String> = Vec::new();
    for i in 0..5000 {
        records.push(format!("{}{}", words[(i * 7 + i / 3) % words.len()], i));
    }
    let parallel = aggregate(&records);
    let sequential = aggregate_in_order(&records);
    assert_eq!(parallel, sequential);
    let total = parallel.errors.len()
        + parallel.warnings.len()
        + parallel.infos.len()
        + parallel.debugs.len()
        + parallel.criticals.len();
    assert!(total > 0);
    let mut expected_errors: Vec<String> = Vec::new();
    for record in &records {
        if let Some(rest) = record.strip_prefix("ERROR: ") {
            expected_errors.push(rest.to_string());
        }
    }
    assert_eq!(parallel.errors, expected_errors);
}

#[test]
fn file_appends_to_the_bucket_of_the_record() {
    let log = ClassifiedLog::new()
        .file(found(SeverityBucket::Warning, "w1"))
        .file(None)
        .file(found(SeverityBucket::Critical, "c1"))
        .file(found(SeverityBucket::Warning, "w2"));
    assert_eq!(log.warnings, strings(&["w1", "w2"]));
    assert_eq!(log.criticals, strings(&["c1"]));
    assert!(log.errors.is_empty());
    assert!(log.infos.is_empty());
    assert!(log.debugs.is_empty());
}

#[test]
fn merge_puts_the_later_buckets_behind_the_earlier() {
    let first = ClassifiedLog::new()
        .file(found(SeverityBucket::Error, "e1"))
        .file(found(SeverityBucket::Debug, "d1"));
    let second = ClassifiedLog::new()
        .file(found(SeverityBucket::Error, "e2"))
        .file(found(SeverityBucket::Info, "i1"));
    let merged = first.clone().merge(second.clone());
    assert_eq!(merged.errors, strings(&["e1", "e2"]));
    assert_eq!(merged.debugs, strings(&["d1"]));
    assert_eq!(merged.infos, strings(&["i1"]));
    assert_eq!(first.clone().merge(ClassifiedLog::new()), first);
    assert_eq!(ClassifiedLog::new().merge(second.clone()), second);
}

#[test]
fn summary_of_a_plain_log() {
    let log =
        process_logs_by_level("ERROR: disk full\nWARNING: low memory\nrandom text\nCRITICAL: meltdown");
    assert_eq!(log.errors, strings(&["disk full"]));
    assert_eq!(log.warnings, strings(&["low memory"]));
    assert_eq!(log.criticals, strings(&["meltdown"]));
    assert_eq!(log.infos, strings(&[]));
    assert_eq!(log.debugs, strings(&[]));
    for bucket in [&log.errors, &log.warnings, &log.infos, &log.debugs, &log.criticals] {
        assert!(!bucket.iter().any(|message| message.contains("random text")));
    }
}

#[test]
fn summary_of_a_yaml_list() {
    let log = process_logs_by_level("---\n- 'ERROR: a'\n- 'info b'\n- 'ERROR: c'\n");
    assert_eq!(log.errors, strings(&["a", "c"]));
    assert_eq!(log.infos, strings(&["b"]));
}

#[test]
fn summary_of_an_unparsable_text_scans_it_as_one_record() {
    let log = process_logs_by_level("{\"a\": \"warning: w\",\n \"b\": \"ERROR: e\"}");
    assert_eq!(log.errors, strings(&["e\"}"]));
    assert!(log.warnings.is_empty());
}

#[test]
fn matchers_are_made_once_and_used_for_many_records() {
    let matchers = Matchers::new();
    assert_eq!(matchers.classify("ERROR: a"), found(SeverityBucket::Error, "a"));
    assert_eq!(matchers.classify("nothing"), None);
    assert_eq!(matchers.classify("debug b"), found(SeverityBucket::Debug, "b"));
    for record in ["ERROR: a", "x", "Info: y", "critical  z"] {
        assert_eq!(matchers.classify(record), classify(record));
    }
}

#[test]
fn buckets_know_their_keyword_and_label() {
    let buckets = [
        (SeverityBucket::Error, "error"),
        (SeverityBucket::Warning, "warning"),
        (SeverityBucket::Info, "info"),
        (SeverityBucket::Debug, "debug"),
        (SeverityBucket::Critical, "critical"),
    ];
    for (bucket, word) in buckets {
        let keyword: String = bucket.keyword_chars().into_iter().collect();
        let label: String = bucket.label_chars().into_iter().collect();
        assert_eq!(keyword, word);
        assert_eq!(label, word.to_uppercase());
    }
}
