use logfix::truncate::{optimize_log_data, over_budget_prefix, TokenizationError, Tokenizer};

#[test]
fn text_within_the_budget_comes_back_unchanged() {
    let text = "ERROR: disk full\nWARNING: low memory\n";
    assert_eq!(optimize_log_data(text, 4096), Ok(text.to_string()));
    assert_eq!(optimize_log_data(text, 10), Ok(text.to_string()));
}

#[test]
fn empty_text_comes_back_unchanged() {
    assert_eq!(optimize_log_data("", 1), Ok(String::new()));
    assert_eq!(optimize_log_data("", 0), Ok(String::new()));
}

#[test]
fn longer_text_is_cut_after_the_budget() {
    assert_eq!(
        optimize_log_data("hello world this is a test", 2),
        Ok("hello world".to_string())
    );
}

#[test]
fn truncate_keeps_the_first_tokens() {
    let tokenizer = Tokenizer::cl100k().unwrap();
    let text = "hello world this is a test";
    assert_eq!(tokenizer.count(text), Ok(6));
    assert_eq!(tokenizer.truncate(text, 1), Ok("hello".to_string()));
    assert_eq!(tokenizer.truncate(text, 3), Ok("hello world this".to_string()));
    assert_eq!(tokenizer.truncate(text, 5), Ok("hello world this is a".to_string()));
    assert_eq!(tokenizer.truncate(text, 6), Ok(text.to_string()));
    assert_eq!(tokenizer.truncate(text, 7), Ok(text.to_string()));
    assert_eq!(tokenizer.truncate(text, 0), Ok(String::new()));
    assert_eq!(tokenizer.truncate(text, usize::MAX), Ok(text.to_string()));
}

#[test]
fn truncate_adds_nothing_at_the_cut() {
    let tokenizer = Tokenizer::cl100k().unwrap();
    let text = "ERROR: disk full\nWARNING: low memory\n";
    assert_eq!(tokenizer.truncate(text, 4), Ok("ERROR: disk full".to_string()));
    assert_eq!(tokenizer.truncate(text, 5), Ok("ERROR: disk full\n".to_string()));
}

#[test]
fn cut_inside_a_character_is_an_error() {
    let tokenizer = Tokenizer::cl100k().unwrap();
    assert_eq!(tokenizer.count("🦀"), Ok(3));
    assert_eq!(tokenizer.truncate("🦀", 1), Err(TokenizationError::Undecodable));
    assert_eq!(tokenizer.truncate("🦀", 2), Err(TokenizationError::Undecodable));
    assert_eq!(tokenizer.truncate("🦀", 3), Ok("🦀".to_string()));
    assert_eq!(optimize_log_data("a🦀b", 2), Err(TokenizationError::Undecodable));
}

#[test]
fn token_counts_grow_with_the_budget() {
    let tokenizer = Tokenizer::cl100k().unwrap();
    let texts = ["hello world this is a test", "ERROR: disk full\nWARNING: low memory\n", "héllo"];
    for text in texts {
        let whole = tokenizer.count(text).unwrap();
        let mut previous = 0;
        for budget in 0..12 {
            let shorter = tokenizer.truncate(text, budget).unwrap();
            let count = tokenizer.count(&shorter).unwrap();
            assert!(count <= budget);
            assert!(previous <= count);
            assert!(count <= whole);
            previous = count;
        }
        assert_eq!(previous, whole);
    }
}

#[test]
fn truncating_twice_changes_nothing_more() {
    let tokenizer = Tokenizer::cl100k().unwrap();
    let once = tokenizer.truncate("hello world this is a test", 4).unwrap();
    assert_eq!(tokenizer.truncate(&once, 4), Ok(once.clone()));
}

#[test]
fn special_tokens_count_as_one_token() {
    let tokenizer = Tokenizer::cl100k().unwrap();
    assert_eq!(tokenizer.count("<|endoftext|>"), Ok(1));
    assert_eq!(tokenizer.truncate("a<|endoftext|>b", 2), Ok("a<|endoftext|>".to_string()));
}

#[test]
fn prefix_is_cut_only_over_the_budget() {
    assert_eq!(over_budget_prefix(&vec![1, 2, 3], 2), Some(vec![1, 2]));
    assert_eq!(over_budget_prefix(&vec![1, 2, 3], 0), Some(vec![]));
    assert_eq!(over_budget_prefix(&vec![1, 2, 3], 3), None);
    assert_eq!(over_budget_prefix(&vec![1, 2, 3], 4), None);
    assert_eq!(over_budget_prefix(&vec![], 0), None);
    assert_eq!(over_budget_prefix(&vec![7], usize::MAX), None);
}

#[test]
fn text_that_the_tokenizer_gives_up_on_is_an_error() {
    let tokenizer = Tokenizer::cl100k().unwrap();
    let mut text = " ".repeat(2_000_000);
    text.push('a');
    assert_eq!(tokenizer.count(&text), Err(TokenizationError::Unencodable));
    assert_eq!(tokenizer.truncate(&text, 10), Err(TokenizationError::Unencodable));
}

#[test]
fn errors_say_what_went_wrong() {
    assert_eq!(TokenizationError::Unavailable.message(), "the tokenizer could not be set up");
    assert_eq!(TokenizationError::Unencodable.message(), "the text could not be split into tokens");
    assert_eq!(TokenizationError::Undecodable.message(), "the kept tokens do not make up a text");
}
