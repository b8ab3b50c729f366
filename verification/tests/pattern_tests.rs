use ownmon::pattern::{
    category_id_for_app, find_category, get_category_for_app, is_blacklisted, pattern_matches,
    pattern_matches_exact, AppCategoryRule, BlacklistEntry, Category,
};
use ownmon::text::{chars_of, str_eq};

fn entry(id: i64, pattern: &str) -> BlacklistEntry {
    BlacklistEntry {
        id,
        pattern: pattern.to_string(),
        description: None,
        created_at: "2024-01-01T00:00:00+00:00".to_string(),
    }
}

fn rule(pattern: &str, category_id: i64) -> AppCategoryRule {
    AppCategoryRule { process_pattern: pattern.to_string(), category_id }
}

fn category(id: i64, name: &str) -> Category {
    Category { id, name: name.to_string(), color: "#000000".to_string(), icon: None }
}

#[test]
fn star_matches_the_empty_text() {
    assert!(pattern_matches("*", ""));
    assert!(pattern_matches("*", "anything at all"));
    assert!(pattern_matches("**", ""));
    assert!(pattern_matches("", ""));
    assert!(!pattern_matches("", "a"));
}

#[test]
fn star_matches_any_run_of_characters() {
    assert!(pattern_matches("*.exe", "a.exe"));
    assert!(pattern_matches("*.exe", ".exe"));
    assert!(!pattern_matches("*.exe", "a.exe.bak"));
    assert!(pattern_matches("Netflix*", "Netflix"));
    assert!(pattern_matches("Netflix*", "Netflix.exe"));
    assert!(pattern_matches("*YouTube*", "Watch YouTube now"));
    assert!(pattern_matches("*YouTube*", "Watch Youtube now"));
    assert!(!pattern_matches("*YouTube*", "Watch Your Tube now"));
    assert!(pattern_matches("a*b*c", "aXbYc"));
    assert!(pattern_matches("a**b", "ab"));
    assert!(!pattern_matches("a*b*c", "aXbY"));
}

#[test]
fn question_mark_matches_exactly_one_character() {
    assert!(pattern_matches("a?c", "abc"));
    assert!(!pattern_matches("a?c", "abbc"));
    assert!(!pattern_matches("a?c", "ac"));
    assert!(pattern_matches("?", "\u{1F600}"));
    assert!(!pattern_matches("?", ""));
    assert!(pattern_matches("a?*", "ab"));
    assert!(!pattern_matches("a?*", "a"));
}

#[test]
fn plain_pattern_matches_itself_only() {
    assert!(pattern_matches("chrome.exe", "chrome.exe"));
    assert!(!pattern_matches("chrome.exe", "chrome.exe2"));
    assert!(!pattern_matches("chrome.exe", "chrome.ex"));
    assert!(!pattern_matches("a", "*"));
    assert!(pattern_matches("*", "*"));
}

#[test]
fn matching_ignores_letter_case() {
    assert!(pattern_matches("*.EXE", "a.exe"));
    assert!(pattern_matches("*.exe", "A.EXE"));
    assert!(pattern_matches("CHROME.exe", "chrome.EXE"));
    assert!(pattern_matches("chrome.exe", "Chrome.exe"));
    assert!(pattern_matches("\u{00C4}*", "\u{00E4}rger"));
    assert!(pattern_matches("A?C", "abc"));
    assert!(!pattern_matches("a?c", "ABBC"));
}

#[test]
fn no_blow_up_on_many_stars() {
    assert!(!pattern_matches("a*a*a*a*b", "aaaa"));
    let text = "a".repeat(2000);
    let pattern = "a*".repeat(40) + "b";
    assert!(!pattern_matches(&pattern, &text));
    let closing = "a*".repeat(40) + "a";
    assert!(pattern_matches(&closing, &text));
}

#[test]
fn blacklist_matches_by_pattern_and_without_case() {
    let entries = vec![entry(1, "ownmon.exe"), entry(2, "*secret*"), entry(3, "tmp??.exe")];
    assert!(is_blacklisted(&entries, "ownmon.exe"));
    assert!(is_blacklisted(&entries, "OwnMon.EXE"));
    assert!(is_blacklisted(&entries, "MySecretApp.exe"));
    assert!(is_blacklisted(&entries, "tmp42.exe"));
    assert!(!is_blacklisted(&entries, "tmp4.exe"));
    assert!(!is_blacklisted(&entries, "chrome.exe"));
    assert!(!is_blacklisted(&Vec::new(), "ownmon.exe"));
}

#[test]
fn category_lookup_prefers_exact_then_pattern_then_default() {
    let rules = vec![
        rule("*.exe", 6),
        rule("code.exe", 2),
        rule("Netflix*", 3),
        rule("*YouTube*", 4),
    ];
    // Exact rule wins although a pattern stands before it.
    assert_eq!(category_id_for_app(&rules, "code.exe"), 2);
    // Exactness counts letter case; the patterns do not.
    assert_eq!(category_id_for_app(&rules, "Code.exe"), 6);
    assert_eq!(category_id_for_app(&rules, "netflix"), 3);
    // The first pattern in the order of the rules wins.
    assert_eq!(category_id_for_app(&rules, "YouTube.exe"), 6);
    assert_eq!(category_id_for_app(&rules, "my youtube"), 4);
    assert_eq!(category_id_for_app(&rules, "unknown"), 1);
    assert_eq!(category_id_for_app(&Vec::new(), "code.exe"), 1);
}

#[test]
fn category_is_found_by_its_id() {
    let categories = vec![category(1, "Other"), category(2, "Work"), category(2, "Twice")];
    assert_eq!(find_category(&categories, 2).unwrap().name, "Work");
    assert_eq!(find_category(&categories, 1).unwrap().name, "Other");
    assert!(find_category(&categories, 3).is_none());
    let rules = vec![rule("code.exe", 2), rule("game.exe", 9)];
    assert_eq!(get_category_for_app(&rules, &categories, "code.exe").unwrap().name, "Work");
    assert_eq!(get_category_for_app(&rules, &categories, "other.exe").unwrap().name, "Other");
    assert!(get_category_for_app(&rules, &categories, "game.exe").is_none());
    assert_eq!(categories[0].clone().color, "#000000");
}

#[test]
fn text_helpers() {
    assert_eq!(chars_of("a\u{2014}b"), vec!['a', '\u{2014}', 'b']);
    assert!(chars_of("").is_empty());
    assert!(str_eq("abc", "abc"));
    assert!(!str_eq("abc", "abd"));
    assert!(!str_eq("abc", "ab"));
    assert!(str_eq("", ""));
}

#[test]
fn exact_matcher_counts_letter_case() {
    assert!(pattern_matches_exact("*.exe", "a.exe"));
    assert!(!pattern_matches_exact("*.EXE", "a.exe"));
    assert!(!pattern_matches_exact("chrome.exe", "Chrome.exe"));
    assert!(!pattern_matches_exact("*YouTube*", "Watch Youtube now"));
    assert!(pattern_matches_exact("a?c", "abc"));
    assert!(!pattern_matches_exact("a?c", "abbc"));
    assert!(pattern_matches_exact("*", ""));
    assert!(!pattern_matches_exact("a*a*a*a*b", "aaaa"));
}

#[test]
fn runs_of_stars_fold_to_one() {
    for text in ["", "ab", "aXb", "aXYZb", "ba", "a", "b"] {
        let one = pattern_matches("a*b", text);
        assert_eq!(pattern_matches("a**b", text), one);
        assert_eq!(pattern_matches("a*****b", text), one);
        assert_eq!(pattern_matches_exact("a***b", text), one);
    }
    assert_eq!(pattern_matches("***", "anything"), pattern_matches("*", "anything"));
    assert_eq!(pattern_matches("x?**", "x"), pattern_matches("x?*", "x"));
}
