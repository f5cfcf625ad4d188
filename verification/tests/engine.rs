//! Stage-by-stage behaviour of the engine: substitution limits and ordering,
//! repetition collapse, dialogue extraction, the pipeline modes, and the
//! supporting utilities.

use vn_text_trim::default_dialogue_pattern;
use vn_text_trim::extract;
use vn_text_trim::is_jp;
use vn_text_trim::Cleaner;
use vn_text_trim::Config;
use vn_text_trim::Pattern;
use vn_text_trim::Replace;
use vn_text_trim::ResultExt;

fn rule(pattern: &str, replacement: &str, limit: usize) -> Replace {
    Replace::new(pattern, replacement.to_string(), limit).expect("rule pattern compiles")
}

fn flat_cleaner(rules: Vec<Replace>) -> Cleaner {
    Cleaner::new(Config { replace: Some(rules), dialogue: None, text_repetitions: false })
}

#[test]
fn substitution_limit_respected() {
    let cleaner = flat_cleaner(vec![rule("a", "b", 2)]);
    assert_eq!(cleaner.clean("aaaa"), Some("bbaa".to_string()));
}

#[test]
fn substitution_limit_zero_replaces_all() {
    let cleaner = flat_cleaner(vec![rule("a", "b", 0)]);
    assert_eq!(cleaner.clean("aaaa"), Some("bbbb".to_string()));
}

#[test]
fn rule_order_chains() {
    let cleaner = flat_cleaner(vec![rule("a", "b", 0), rule("b", "c", 0)]);
    assert_eq!(cleaner.clean("ab"), Some("cc".to_string()));
}

#[test]
fn no_matching_rule_is_noop() {
    let cleaner = flat_cleaner(vec![rule("x", "y", 0)]);
    assert_eq!(cleaner.clean("abc"), None);
    assert_eq!(cleaner.clean(""), None);
}

#[test]
fn no_rules_is_noop() {
    let cleaner = Cleaner::new(Config { replace: None, dialogue: None, text_repetitions: false });
    assert_eq!(cleaner.clean("abc"), None);
}

#[test]
fn collapse_shortest_prefix_last_occurrence() {
    let cleaner = Cleaner::new(Config { replace: None, dialogue: None, text_repetitions: true });
    assert_eq!(cleaner.remove_text_reps("ABCABCDEF"), Some("ABCDEF".to_string()));
}

#[test]
fn collapse_no_repetition() {
    let cleaner = Cleaner::new(Config { replace: None, dialogue: None, text_repetitions: true });
    assert_eq!(cleaner.remove_text_reps("ABCDEF"), None);
    assert_eq!(cleaner.remove_text_reps(""), None);
    assert_eq!(cleaner.remove_text_reps("A"), None);
}

#[test]
fn collapse_single_character_unit() {
    let cleaner = Cleaner::new(Config { replace: None, dialogue: None, text_repetitions: true });
    assert_eq!(cleaner.remove_text_reps("aaaa"), Some("a".to_string()));
}

#[test]
fn extract_default() {
    let pattern = default_dialogue_pattern().expect("default pattern compiles");
    assert_eq!(extract(&pattern, "「甘いものは別腹」"), Some("甘いものは別腹".to_string()));
}

#[test]
fn extract_interior_whitespace() {
    let pattern = default_dialogue_pattern().expect("default pattern compiles");
    assert_eq!(extract(&pattern, "「 甘いもの 」"), Some("甘いもの".to_string()));
}

#[test]
fn extract_no_dialogue() {
    let pattern = default_dialogue_pattern().expect("default pattern compiles");
    assert_eq!(extract(&pattern, "no brackets here"), None);
}

#[test]
fn mode_b_combined_effects() {
    let cleaner = Cleaner::new(Config {
        replace: Some(vec![rule("<[^>]*>", "", 0)]),
        dialogue: None,
        text_repetitions: true,
    });
    assert_eq!(cleaner.clean("ABAB<b>C</b>"), Some("ABC".to_string()));
}

#[test]
fn round_trip_stability() {
    let cleaner = Cleaner::new(Config {
        replace: Some(vec![rule("<[^>]*>", "", 0)]),
        dialogue: None,
        text_repetitions: true,
    });
    let out = cleaner.clean("ABAB<b>C</b>").expect("first pass changes the text");
    assert_eq!(cleaner.clean(&out), None);
}

#[test]
fn mode_c_dialogue_then_substitution() {
    let pattern = default_dialogue_pattern().expect("default pattern compiles");
    let cleaner = Cleaner::new(Config {
        replace: Some(vec![rule("ｘ", "ｙ", 0)]),
        dialogue: Some(pattern),
        text_repetitions: false,
    });
    assert_eq!(cleaner.clean("「ａｘｂ」"), Some("ａｙｂ".to_string()));
}

#[test]
fn mode_c_payload_without_substitution_still_counts() {
    let pattern = default_dialogue_pattern().expect("default pattern compiles");
    let cleaner = Cleaner::new(Config {
        replace: None,
        dialogue: Some(pattern),
        text_repetitions: false,
    });
    assert_eq!(cleaner.clean("「ａｂｃ」"), Some("ａｂｃ".to_string()));
}

#[test]
fn mode_c_falls_back_to_rules() {
    let pattern = default_dialogue_pattern().expect("default pattern compiles");
    let cleaner = Cleaner::new(Config {
        replace: Some(vec![rule("a", "b", 0)]),
        dialogue: Some(pattern),
        text_repetitions: false,
    });
    assert_eq!(cleaner.clean("aaa"), Some("bbb".to_string()));
}

#[test]
fn clean_never_returns_input() {
    let whole = Pattern::new("(.*)").expect("pattern compiles");
    let cleaner = Cleaner::new(Config {
        replace: None,
        dialogue: Some(whole),
        text_repetitions: false,
    });
    assert_eq!(cleaner.clean("abc"), None);
}

#[test]
fn invalid_pattern_is_rejected() {
    assert!(Pattern::new("(").is_err());
    assert!(Replace::new("[", "x".to_string(), 0).is_err());
}

#[test]
fn is_jp_detection() {
    assert!(is_jp("あ"));
    assert!(is_jp("this ends in kanji 漢"));
    assert!(is_jp("「」"));
    assert!(!is_jp("plain ascii only"));
    assert!(!is_jp(""));
}

#[test]
fn map_err_to_string_formats() {
    let failed: Result<u32, String> = Err("missing".to_string());
    assert_eq!(
        failed.map_err_to_string("Cannot open config file."),
        Err("Cannot open config file. Error: missing".to_string())
    );
    let fine: Result<u32, String> = Ok(7);
    assert_eq!(fine.map_err_to_string("Cannot open config file."), Ok(7));
}
