//! What a new database is seeded with, and how the settings in it are read.
//!
//! Creating the tables and inserting the rows is the caller's work; which
//! rows a table gets, and whether it gets any, is decided here.

use crate::activity_store::{
    StoreConfig, DEFAULT_AFK_THRESHOLD_SECS, DEFAULT_MIN_SESSION_DURATION_SECS,
};
use crate::pattern::{AppCategoryRule, DEFAULT_CATEGORY_ID};
use crate::responses::ConfigSetting;
use vstd::prelude::*;
use vstd::string::*;

verus! {

/// Key of the setting for the shortest session that is kept.
pub open spec fn min_session_duration_key() -> Seq<char> {
    "min_session_duration_secs"@
}

/// Key of the setting for the time without input after which the user
/// counts as away.
pub open spec fn afk_threshold_key() -> Seq<char> {
    "afk_threshold_secs"@
}

/// The number that std's `str::parse::<i64>` reads from `text`, and nothing
/// where it refuses the text.
pub uninterp spec fn parsed_i64(text: Seq<char>) -> Option<i64>;

/// Calls std's `str::parse::<i64>`. The result is the one named by
/// `parsed_i64`; the error of the parser becomes `None`.
#[verifier::external_body]
fn parse_i64(text: &str) -> (number: Option<i64>)
    ensures
        number == parsed_i64(text@),
{
    text.parse::<i64>().ok()
}

/// The number that a setting gives: the one read from its text, or
/// `fallback` where the setting is absent or its text is no number.
pub open spec fn setting_or(text: Option<Seq<char>>, fallback: i64) -> i64 {
    match text {
        Some(t) => match parsed_i64(t) {
            Some(n) => n,
            None => fallback,
        },
        None => fallback,
    }
}

/// Reads the number of a setting, with `fallback` for a setting that is
/// absent or no number.
pub fn read_setting(text: Option<&str>, fallback: i64) -> (number: i64)
    ensures
        number == setting_or(
            match text {
                Some(t) => Some(t@),
                None => None,
            },
            fallback,
        ),
{
    match text {
        Some(t) => match parse_i64(t) {
            Some(n) => n,
            None => fallback,
        },
        None => fallback,
    }
}

/// The settings of the store from the texts of the configuration: the
/// shortest session that is kept and the threshold of being away, each with
/// its default where the text is absent or no number.
pub fn store_config_from(min_session_duration: Option<&str>, afk_threshold: Option<&str>) -> (config: StoreConfig)
    ensures
        config.min_session_duration_secs == setting_or(
            match min_session_duration {
                Some(t) => Some(t@),
                None => None,
            },
            DEFAULT_MIN_SESSION_DURATION_SECS,
        ),
        config.afk_threshold_secs == setting_or(
            match afk_threshold {
                Some(t) => Some(t@),
                None => None,
            },
            DEFAULT_AFK_THRESHOLD_SECS,
        ),
{
    StoreConfig {
        min_session_duration_secs: read_setting(
            min_session_duration,
            DEFAULT_MIN_SESSION_DURATION_SECS,
        ),
        afk_threshold_secs: read_setting(afk_threshold, DEFAULT_AFK_THRESHOLD_SECS),
    }
}

/// A pattern with which the blacklist begins.
#[derive(Debug)]
pub struct BlacklistSeed {
    pub pattern: String,
    pub description: String,
}

/// A category with which the list of categories begins.
#[derive(Debug)]
pub struct CategorySeed {
    pub name: String,
    pub color: String,
    pub icon: String,
}

/// Number of categories that a new database gets.
pub const DEFAULT_CATEGORY_COUNT: usize = 6;

/// Number of settings that a new database gets.
pub const DEFAULT_CONFIG_COUNT: usize = 6;

/// The blacklist of a new database, as pattern and description: the monitor
/// itself.
pub open spec fn blacklist_table() -> Seq<(Seq<char>, Seq<char>)> {
    seq![("ownmon.exe"@, "Self (monitoring app)"@)]
}

/// The categories of a new database, as name, colour and icon, in the order
/// in which they are inserted: the first of them gets the id of the default
/// category.
pub open spec fn category_table() -> Seq<(Seq<char>, Seq<char>, Seq<char>)> {
    seq![
        ("Other"@, "#9CA3AF"@, "\u{1F4C1}"@),
        ("Work"@, "#3B82F6"@, "\u{1F4BC}"@),
        ("Entertainment"@, "#EF4444"@, "\u{1F3AE}"@),
        ("Communication"@, "#10B981"@, "\u{1F4AC}"@),
        ("Browser"@, "#F59E0B"@, "\u{1F310}"@),
        ("System"@, "#6B7280"@, "\u{2699}\u{FE0F}"@),
    ]
}

/// The rules of a new database, as pattern and id of the category.
pub open spec fn rule_table() -> Seq<(Seq<char>, i64)> {
    seq![
        ("code.exe"@, 2i64),
        ("Code.exe"@, 2i64),
        ("devenv.exe"@, 2i64),
        ("Antigravity.exe"@, 2i64),
        ("rider64.exe"@, 2i64),
        ("idea64.exe"@, 2i64),
        ("pycharm64.exe"@, 2i64),
        ("Spotify.exe"@, 3i64),
        ("vlc.exe"@, 3i64),
        ("Netflix*"@, 3i64),
        ("*YouTube*"@, 3i64),
        ("Slack.exe"@, 4i64),
        ("Discord.exe"@, 4i64),
        ("Teams.exe"@, 4i64),
        ("Telegram.exe"@, 4i64),
        ("WhatsApp.exe"@, 4i64),
        ("Postman.exe"@, 4i64),
        ("chrome.exe"@, 5i64),
        ("firefox.exe"@, 5i64),
        ("msedge.exe"@, 5i64),
        ("brave.exe"@, 5i64),
        ("Explorer.EXE"@, 6i64),
        ("SearchHost.exe"@, 6i64),
        ("Taskmgr.exe"@, 6i64),
    ]
}

/// The settings of a new database, as key, value and description.
pub open spec fn config_table() -> Seq<(Seq<char>, Seq<char>, Seq<char>)> {
    seq![
        ("min_session_duration_secs"@, "10"@, "Minimum session duration to save (seconds)"@),
        ("afk_threshold_secs"@, "300"@, "Idle/AFK detection threshold (seconds)"@),
        ("poll_interval_ms"@, "100"@, "Window polling interval (milliseconds)"@),
        ("track_title_changes"@, "false"@, "Track title changes within same process"@),
        ("max_sessions"@, "1000"@, "Maximum sessions to keep in memory"@),
        ("prune_interval_secs"@, "3600"@, "How often to prune old sessions (seconds)"@),
    ]
}

/// What a list of blacklist seeds holds.
pub open spec fn blacklist_pairs(seeds: Seq<BlacklistSeed>) -> Seq<(Seq<char>, Seq<char>)> {
    Seq::new(seeds.len(), |i: int| (seeds[i].pattern@, seeds[i].description@))
}

/// What a list of category seeds holds.
pub open spec fn category_triples(seeds: Seq<CategorySeed>) -> Seq<(Seq<char>, Seq<char>, Seq<char>)> {
    Seq::new(seeds.len(), |i: int| (seeds[i].name@, seeds[i].color@, seeds[i].icon@))
}

/// What a list of rules holds.
pub open spec fn rule_pairs(rules: Seq<AppCategoryRule>) -> Seq<(Seq<char>, i64)> {
    Seq::new(rules.len(), |i: int| (rules[i].process_pattern@, rules[i].category_id))
}

/// What a list of settings with descriptions holds.
pub open spec fn setting_triples(settings: Seq<ConfigSetting>) -> Seq<(Seq<char>, Seq<char>, Seq<char>)> {
    Seq::new(
        settings.len(),
        |i: int|
            (
                settings[i].key@,
                settings[i].value@,
                match settings[i].description {
                    Some(d) => d@,
                    None => Seq::empty(),
                },
            ),
    )
}

/// Every rule names a category that a new database has, and none the
/// default category.
pub open spec fn rules_in_range(rules: Seq<(Seq<char>, i64)>) -> bool {
    forall|i: int|
        0 <= i < rules.len() ==> DEFAULT_CATEGORY_ID < (#[trigger] rules[i]).1
            <= DEFAULT_CATEGORY_COUNT
}

/// The rules of a new database name the categories of a new database only,
/// and leave the default category to the applications that no rule names.
pub proof fn lemma_rule_table_in_range()
    ensures
        rules_in_range(rule_table()),
        rule_table().len() == 24,
        category_table().len() == DEFAULT_CATEGORY_COUNT,
        category_table()[DEFAULT_CATEGORY_ID - 1].0 == "Other"@,
        config_table().len() == DEFAULT_CONFIG_COUNT,
{
}

/// The blacklist of a new database: the monitor itself.
pub fn default_blacklist() -> (seeds: Vec<BlacklistSeed>)
    ensures
        blacklist_pairs(seeds@) == blacklist_table(),
{
    let mut seeds: Vec<BlacklistSeed> = Vec::new();
    seeds.push(
        BlacklistSeed {
            pattern: String::from_str("ownmon.exe"),
            description: String::from_str("Self (monitoring app)"),
        },
    );
    assert(blacklist_pairs(seeds@) =~= blacklist_table());
    seeds
}

/// One category.
fn category(name: &str, color: &str, icon: &str) -> (seed: CategorySeed)
    ensures
        seed.name@ == name@,
        seed.color@ == color@,
        seed.icon@ == icon@,
{
    CategorySeed {
        name: String::from_str(name),
        color: String::from_str(color),
        icon: String::from_str(icon),
    }
}

/// The categories of a new database, in the order in which they are
/// inserted.
pub fn default_categories() -> (seeds: Vec<CategorySeed>)
    ensures
        category_triples(seeds@) == category_table(),
{
    let mut seeds: Vec<CategorySeed> = Vec::new();
    seeds.push(category("Other", "#9CA3AF", "\u{1F4C1}"));
    seeds.push(category("Work", "#3B82F6", "\u{1F4BC}"));
    seeds.push(category("Entertainment", "#EF4444", "\u{1F3AE}"));
    seeds.push(category("Communication", "#10B981", "\u{1F4AC}"));
    seeds.push(category("Browser", "#F59E0B", "\u{1F310}"));
    seeds.push(category("System", "#6B7280", "\u{2699}\u{FE0F}"));
    assert(category_triples(seeds@) =~= category_table());
    seeds
}

/// Adds the rule that puts `pattern` into the category `category_id`.
fn push_rule(rules: &mut Vec<AppCategoryRule>, pattern: &str, category_id: i64)
    ensures
        rule_pairs(final(rules)@) == rule_pairs(old(rules)@).push((pattern@, category_id)),
{
    rules.push(AppCategoryRule { process_pattern: String::from_str(pattern), category_id });
    assert(rule_pairs(rules@) =~= rule_pairs(old(rules)@).push((pattern@, category_id)));
}

/// The rules of a new database that put well-known applications into the
/// categories.
pub fn default_app_categories() -> (rules: Vec<AppCategoryRule>)
    ensures
        rule_pairs(rules@) == rule_table(),
{
    let mut rules: Vec<AppCategoryRule> = Vec::new();
    assert(rule_pairs(rules@) =~= Seq::empty());
    // Work
    push_rule(&mut rules, "code.exe", 2);
    push_rule(&mut rules, "Code.exe", 2);
    push_rule(&mut rules, "devenv.exe", 2);
    push_rule(&mut rules, "Antigravity.exe", 2);
    push_rule(&mut rules, "rider64.exe", 2);
    push_rule(&mut rules, "idea64.exe", 2);
    push_rule(&mut rules, "pycharm64.exe", 2);
    // Entertainment
    push_rule(&mut rules, "Spotify.exe", 3);
    push_rule(&mut rules, "vlc.exe", 3);
    push_rule(&mut rules, "Netflix*", 3);
    push_rule(&mut rules, "*YouTube*", 3);
    // Communication
    push_rule(&mut rules, "Slack.exe", 4);
    push_rule(&mut rules, "Discord.exe", 4);
    push_rule(&mut rules, "Teams.exe", 4);
    push_rule(&mut rules, "Telegram.exe", 4);
    push_rule(&mut rules, "WhatsApp.exe", 4);
    push_rule(&mut rules, "Postman.exe", 4);
    // Browser
    push_rule(&mut rules, "chrome.exe", 5);
    push_rule(&mut rules, "firefox.exe", 5);
    push_rule(&mut rules, "msedge.exe", 5);
    push_rule(&mut rules, "brave.exe", 5);
    // System
    push_rule(&mut rules, "Explorer.EXE", 6);
    push_rule(&mut rules, "SearchHost.exe", 6);
    push_rule(&mut rules, "Taskmgr.exe", 6);
    assert(rule_pairs(rules@) =~= rule_table());
    rules
}

/// One setting.
fn setting(key: &str, value: &str, description: &str) -> (made: ConfigSetting)
    ensures
        made.key@ == key@,
        made.value@ == value@,
        made.description matches Some(d) && d@ == description@,
{
    ConfigSetting {
        key: String::from_str(key),
        value: String::from_str(value),
        description: Some(String::from_str(description)),
    }
}

/// The settings of a new database, each with its default.
pub fn default_config() -> (settings: Vec<ConfigSetting>)
    ensures
        setting_triples(settings@) == config_table(),
        forall|i: int| 0 <= i < settings@.len() ==> (#[trigger] settings@[i]).description is Some,
{
    let mut settings: Vec<ConfigSetting> = Vec::new();
    settings.push(
        setting("min_session_duration_secs", "10", "Minimum session duration to save (seconds)"),
    );
    settings.push(setting("afk_threshold_secs", "300", "Idle/AFK detection threshold (seconds)"));
    settings.push(setting("poll_interval_ms", "100", "Window polling interval (milliseconds)"));
    settings.push(
        setting("track_title_changes", "false", "Track title changes within same process"),
    );
    settings.push(setting("max_sessions", "1000", "Maximum sessions to keep in memory"));
    settings.push(
        setting("prune_interval_secs", "3600", "How often to prune old sessions (seconds)"),
    );
    assert(setting_triples(settings@) =~= config_table());
    settings
}

/// The rows that a database is seeded with when it is opened.
#[derive(Debug)]
pub struct SeedPlan {
    pub blacklist: Vec<BlacklistSeed>,
    pub categories: Vec<CategorySeed>,
    pub app_categories: Vec<AppCategoryRule>,
    pub config: Vec<ConfigSetting>,
}

/// Decides what a database is seeded with, from the numbers of rows that its
/// tables hold: a table that holds rows is left alone, an empty one gets its
/// defaults. The rules for applications go with the categories.
pub fn seed_plan(blacklist_rows: i64, category_rows: i64, config_rows: i64) -> (plan: SeedPlan)
    ensures
        blacklist_pairs(plan.blacklist@) == if blacklist_rows == 0 {
            blacklist_table()
        } else {
            Seq::empty()
        },
        category_triples(plan.categories@) == if category_rows == 0 {
            category_table()
        } else {
            Seq::empty()
        },
        rule_pairs(plan.app_categories@) == if category_rows == 0 {
            rule_table()
        } else {
            Seq::empty()
        },
        setting_triples(plan.config@) == if config_rows == 0 {
            config_table()
        } else {
            Seq::empty()
        },
{
    let plan = SeedPlan {
        blacklist: if blacklist_rows == 0 {
            default_blacklist()
        } else {
            Vec::new()
        },
        categories: if category_rows == 0 {
            default_categories()
        } else {
            Vec::new()
        },
        app_categories: if category_rows == 0 {
            default_app_categories()
        } else {
            Vec::new()
        },
        config: if config_rows == 0 {
            default_config()
        } else {
            Vec::new()
        },
    };
    proof {
        if blacklist_rows != 0 {
            assert(blacklist_pairs(plan.blacklist@) =~= Seq::empty());
        }
        if category_rows != 0 {
            assert(category_triples(plan.categories@) =~= Seq::empty());
            assert(rule_pairs(plan.app_categories@) =~= Seq::empty());
        }
        if config_rows != 0 {
            assert(setting_triples(plan.config@) =~= Seq::empty());
        }
    }
    plan
}

} // verus!
