use logfix::request::{first_suggestion, fix_prompt, fix_request, AiMode, FIX_TOKEN_BUDGET};
use logfix::truncate::Tokenizer;

#[test]
fn prompt_holds_the_mode_and_the_log() {
    assert_eq!(
        fix_prompt("ERROR: disk full", AiMode::Simple),
        "Analyze the following log file and generate fixes. AI Mode: simple\n\n```log\nERROR: disk full\n```"
    );
    assert_eq!(
        fix_prompt("", AiMode::Full),
        "Analyze the following log file and generate fixes. AI Mode: full\n\n```log\n\n```"
    );
}

#[test]
fn mode_tags_are_simple_and_full() {
    assert_eq!(AiMode::Simple.tag_str(), "simple");
    assert_eq!(AiMode::Full.tag_str(), "full");
}

#[test]
fn short_log_is_sent_whole() {
    let log = "ERROR: disk full\nINFO: retrying";
    assert_eq!(fix_request(log, AiMode::Full), Ok(fix_prompt(log, AiMode::Full)));
}

#[test]
fn long_log_is_bounded_before_it_is_sent() {
    assert_eq!(FIX_TOKEN_BUDGET, 4096);
    let mut log = String::new();
    for _ in 0..5000 {
        log.push_str("hello ");
    }
    let tokenizer = Tokenizer::cl100k().unwrap();
    assert!(tokenizer.count(&log).unwrap() > FIX_TOKEN_BUDGET);
    let bounded = tokenizer.truncate(&log, FIX_TOKEN_BUDGET).unwrap();
    assert!(bounded.len() < log.len());
    assert!(log.starts_with(&bounded));
    assert!(tokenizer.count(&bounded).unwrap() <= FIX_TOKEN_BUDGET);
    assert_eq!(fix_request(&log, AiMode::Simple), Ok(fix_prompt(&bounded, AiMode::Simple)));
}

#[test]
fn suggestion_is_the_first_choice() {
    assert_eq!(
        first_suggestion(vec!["restart".to_string(), "reinstall".to_string()]),
        Some("restart".to_string())
    );
    assert_eq!(first_suggestion(vec!["only".to_string()]), Some("only".to_string()));
    assert_eq!(first_suggestion(vec![]), None);
}
