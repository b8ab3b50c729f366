//! Wildcard patterns over process names: `*` stands for any run of
//! characters, `?` for exactly one.

use crate::text::{chars_of, lowercase, str_eq, unicode_lowercase};
use vstd::prelude::*;

verus! {

/// Whether `text` matches `pattern`, letter case counting.
pub open spec fn glob_matches(pattern: Seq<char>, text: Seq<char>) -> bool
    decreases pattern.len(), text.len(),
{
    if pattern.len() == 0 {
        text.len() == 0
    } else if pattern[0] == '*' {
        glob_matches(pattern.drop_first(), text) || (text.len() > 0 && glob_matches(
            pattern,
            text.drop_first(),
        ))
    } else if text.len() == 0 {
        false
    } else if pattern[0] == '?' || pattern[0] == text[0] {
        glob_matches(pattern.drop_first(), text.drop_first())
    } else {
        false
    }
}

/// Whether `text` matches `pattern` when letter case is ignored: both are
/// taken in lower case.
pub open spec fn glob_matches_ignoring_case(pattern: Seq<char>, text: Seq<char>) -> bool {
    glob_matches(unicode_lowercase(pattern), unicode_lowercase(text))
}

/// Whether what is left of `text` from `j` on matches what is left of
/// `pattern` from `i` on.
pub open spec fn tail_matches(pattern: Seq<char>, text: Seq<char>, i: int, j: int) -> bool {
    glob_matches(pattern.skip(i), text.skip(j))
}

/// How a match of two tails follows from matches of shorter tails.
proof fn lemma_tail_step(pattern: Seq<char>, text: Seq<char>, i: int, j: int)
    requires
        0 <= i <= pattern.len(),
        0 <= j <= text.len(),
    ensures
        i == pattern.len() ==> tail_matches(pattern, text, i, j) == (j == text.len()),
        i < pattern.len() && pattern[i] == '*' ==> tail_matches(pattern, text, i, j) == (
        tail_matches(pattern, text, i + 1, j) || (j < text.len() && tail_matches(
            pattern,
            text,
            i,
            j + 1,
        ))),
        i < pattern.len() && pattern[i] != '*' ==> tail_matches(pattern, text, i, j) == (j
            < text.len() && (pattern[i] == '?' || pattern[i] == text[j]) && tail_matches(
            pattern,
            text,
            i + 1,
            j + 1,
        )),
{
    let p = pattern.skip(i);
    let t = text.skip(j);
    if i < pattern.len() {
        assert(p.drop_first() =~= pattern.skip(i + 1));
        assert(p[0] == pattern[i]);
    }
    if j < text.len() {
        assert(t.drop_first() =~= text.skip(j + 1));
        assert(t[0] == text[j]);
    }
}

/// A lone `*` matches every text, the empty one too.
pub proof fn lemma_star_matches_all(text: Seq<char>)
    ensures
        glob_matches(seq!['*'], text),
    decreases text.len(),
{
    let star = seq!['*'];
    assert(star.drop_first() =~= Seq::<char>::empty());
    if text.len() > 0 {
        lemma_star_matches_all(text.drop_first());
    } else {
        assert(glob_matches(star.drop_first(), text));
    }
}

/// Two `*` in a row match what one `*` matches.
pub proof fn lemma_double_star(rest: Seq<char>, text: Seq<char>)
    ensures
        glob_matches(seq!['*', '*'] + rest, text) == glob_matches(seq!['*'] + rest, text),
    decreases text.len(),
{
    let two = seq!['*', '*'] + rest;
    let one = seq!['*'] + rest;
    assert(two.drop_first() =~= one);
    assert(one.drop_first() =~= rest);
    if text.len() > 0 {
        lemma_double_star(rest, text.drop_first());
    }
}

/// Two `*` in a row, wherever they stand in a pattern, match what one `*`
/// matches in their place.
pub proof fn lemma_double_star_anywhere(before: Seq<char>, after: Seq<char>, text: Seq<char>)
    ensures
        glob_matches(before + seq!['*', '*'] + after, text) == glob_matches(
            before + seq!['*'] + after,
            text,
        ),
    decreases before.len(), text.len(),
{
    let two = before + seq!['*', '*'] + after;
    let one = before + seq!['*'] + after;
    if before.len() == 0 {
        assert(two =~= seq!['*', '*'] + after);
        assert(one =~= seq!['*'] + after);
        lemma_double_star(after, text);
    } else {
        let rest = before.drop_first();
        assert(two.drop_first() =~= rest + seq!['*', '*'] + after);
        assert(one.drop_first() =~= rest + seq!['*'] + after);
        assert(two[0] == before[0] && one[0] == before[0]);
        lemma_double_star_anywhere(rest, after, text);
        if text.len() > 0 {
            lemma_double_star_anywhere(rest, after, text.drop_first());
            if before[0] == '*' {
                lemma_double_star_anywhere(before, after, text.drop_first());
            }
        }
    }
}

/// A run of `count` times `*`.
pub open spec fn stars(count: nat) -> Seq<char> {
    Seq::new(count, |i: int| '*')
}

/// Consecutive `*` fold to one: a run of `*` of any length, wherever it
/// stands in a pattern, matches what one `*` matches in its place.
pub proof fn lemma_star_run_folds(before: Seq<char>, count: nat, after: Seq<char>, text: Seq<char>)
    requires
        count >= 1,
    ensures
        glob_matches(before + stars(count) + after, text) == glob_matches(
            before + seq!['*'] + after,
            text,
        ),
    decreases count,
{
    if count == 1 {
        assert(stars(1) =~= seq!['*']);
    } else {
        let shorter = stars((count - 1) as nat);
        let tail = stars((count - 2) as nat) + after;
        assert(before + stars(count) + after =~= before + seq!['*', '*'] + tail);
        assert(before + shorter + after =~= before + seq!['*'] + tail);
        lemma_double_star_anywhere(before, tail, text);
        lemma_star_run_folds(before, (count - 1) as nat, after, text);
    }
}

/// A pattern without `*` and `?` matches itself and no other text.
pub proof fn lemma_plain_pattern(pattern: Seq<char>, text: Seq<char>)
    requires
        forall|i: int| 0 <= i < pattern.len() ==> pattern[i] != '*' && pattern[i] != '?',
    ensures
        glob_matches(pattern, text) == (pattern == text),
    decreases pattern.len(),
{
    if pattern.len() == 0 {
        assert(glob_matches(pattern, text) == (text.len() == 0));
        if text.len() == 0 {
            assert(pattern =~= text);
        }
    } else if text.len() == 0 {
    } else {
        lemma_plain_pattern(pattern.drop_first(), text.drop_first());
        if pattern[0] == text[0] && pattern.drop_first() == text.drop_first() {
            assert(pattern.len() == pattern.drop_first().len() + 1);
            assert(text.len() == text.drop_first().len() + 1);
            assert forall|i: int| 0 <= i < pattern.len() implies pattern[i] == text[i] by {
                if i > 0 {
                    assert(pattern[i] == pattern.drop_first()[i - 1]);
                    assert(text[i] == text.drop_first()[i - 1]);
                }
            }
            assert(pattern =~= text);
        }
    }
}

/// Fills in the matches of all tails of the pattern against the tail of the
/// text from `j` on, given those against the tail from `j + 1` on.
fn match_column(pattern: &Vec<char>, text: &Vec<char>, j: usize, next: &Vec<bool>) -> (column: Vec<bool>)
    requires
        j < text@.len(),
        next@.len() == pattern@.len(),
        forall|i: int| 0 <= i < pattern@.len() ==> next@[i] == tail_matches(pattern@, text@, i, j + 1),
    ensures
        column@.len() == pattern@.len(),
        forall|i: int| 0 <= i < pattern@.len() ==> column@[i] == tail_matches(pattern@, text@, i, j as int),
{
    let m: usize = pattern.len();
    let mut column: Vec<bool> = vec![false; m];
    let n: usize = text.len();
    let at_end_next: bool = j + 1 == n;
    let mut i: usize = m;
    while i > 0
        invariant
            i <= m,
            m == pattern@.len(),
            j < text@.len(),
            at_end_next == (j + 1 == text@.len()),
            column@.len() == m,
            next@.len() == m,
            forall|k: int| 0 <= k < m ==> next@[k] == tail_matches(pattern@, text@, k, j + 1),
            forall|k: int| i <= k < m ==> column@[k] == tail_matches(pattern@, text@, k, j as int),
        decreases i,
    {
        i -= 1;
        proof {
            lemma_tail_step(pattern@, text@, i as int, j as int);
            lemma_tail_step(pattern@, text@, i + 1, j as int);
            lemma_tail_step(pattern@, text@, i + 1, j + 1);
        }
        let right_here: bool = if i + 1 < m {
            column[i + 1]
        } else {
            false
        };
        let right_next: bool = if i + 1 < m {
            next[i + 1]
        } else {
            at_end_next
        };
        let c: char = pattern[i];
        let value: bool = if c == '*' {
            right_here || next[i]
        } else {
            (c == '?' || c == text[j]) && right_next
        };
        column.set(i, value);
    }
    column
}

/// Tells whether `text` matches `pattern`, in which `*` stands for any run of
/// characters and `?` for exactly one, with letter case counting: the
/// matcher behind `pattern_matches`, for texts that are in one case already.
/// The work is bounded by the product of the two lengths.
pub fn pattern_matches_exact(pattern: &str, text: &str) -> (matched: bool)
    ensures
        matched == glob_matches(pattern@, text@),
{
    let p = chars_of(pattern);
    let t = chars_of(text);
    let m: usize = p.len();
    let n: usize = t.len();
    // Matches of the tails of the pattern against the empty tail of the text.
    let mut column: Vec<bool> = vec![false; m];
    let mut i: usize = m;
    while i > 0
        invariant
            i <= m,
            m == p@.len(),
            n == t@.len(),
            column@.len() == m,
            forall|k: int| i <= k < m ==> column@[k] == tail_matches(p@, t@, k, n as int),
        decreases i,
    {
        i -= 1;
        proof {
            lemma_tail_step(p@, t@, i as int, n as int);
            lemma_tail_step(p@, t@, i + 1, n as int);
        }
        let right: bool = if i + 1 < m {
            column[i + 1]
        } else {
            true
        };
        let value: bool = p[i] == '*' && right;
        column.set(i, value);
    }
    let mut j: usize = n;
    while j > 0
        invariant
            j <= n,
            m == p@.len(),
            n == t@.len(),
            column@.len() == m,
            forall|k: int| 0 <= k < m ==> column@[k] == tail_matches(p@, t@, k, j as int),
        decreases j,
    {
        j -= 1;
        column = match_column(&p, &t, j, &column);
    }
    proof {
        lemma_tail_step(p@, t@, 0, 0);
        assert(p@.skip(0) =~= p@);
        assert(t@.skip(0) =~= t@);
    }
    if m == 0 {
        n == 0
    } else {
        column[0]
    }
}

/// Tells whether `text` matches `pattern`, in which `*` stands for any run of
/// characters and `?` for exactly one. Letter case is ignored: both are taken
/// in lower case. The work is bounded by the product of the two lengths.
pub fn pattern_matches(pattern: &str, text: &str) -> (matched: bool)
    ensures
        matched == glob_matches_ignoring_case(pattern@, text@),
{
    let p = lowercase(pattern);
    let t = lowercase(text);
    pattern_matches_exact(p.as_str(), t.as_str())
}

/// A pattern of processes that are not to be tracked.
#[derive(Debug)]
pub struct BlacklistEntry {
    pub id: i64,
    pub pattern: String,
    pub description: Option<String>,
    pub created_at: String,
}

/// Whether `name` matches the pattern of one of `entries`, letter case
/// ignored.
pub open spec fn blacklisted(entries: Seq<BlacklistEntry>, name: Seq<char>) -> bool {
    exists|i: int|
        0 <= i < entries.len() && glob_matches_ignoring_case(
            (#[trigger] entries[i]).pattern@,
            name,
        )
}

/// Tells whether `process_name` matches one of the blacklist patterns, letter
/// case ignored.
pub fn is_blacklisted(entries: &Vec<BlacklistEntry>, process_name: &str) -> (listed: bool)
    ensures
        listed == blacklisted(entries@, process_name@),
{
    let name = lowercase(process_name);
    let mut i: usize = 0;
    while i < entries.len()
        invariant
            i <= entries@.len(),
            name@ == unicode_lowercase(process_name@),
            forall|k: int|
                0 <= k < i ==> !glob_matches_ignoring_case(
                    (#[trigger] entries@[k]).pattern@,
                    process_name@,
                ),
        decreases entries@.len() - i,
    {
        let pattern = lowercase(entries[i].pattern.as_str());
        if pattern_matches_exact(pattern.as_str(), name.as_str()) {
            return true;
        }
        i += 1;
    }
    false
}

/// A group that applications are sorted into.
#[derive(Debug)]
pub struct Category {
    pub id: i64,
    pub name: String,
    pub color: String,
    pub icon: Option<String>,
}

impl Clone for Category {
    fn clone(&self) -> (copy: Self)
        ensures
            copy == *self,
    {
        Category {
            id: self.id,
            name: self.name.clone(),
            color: self.color.clone(),
            icon: match &self.icon {
                Some(icon) => Some(icon.clone()),
                None => None,
            },
        }
    }
}

/// A rule that puts the processes matching a pattern into a category.
#[derive(Debug)]
pub struct AppCategoryRule {
    pub process_pattern: String,
    pub category_id: i64,
}

/// The id of the category for applications that no rule names.
pub const DEFAULT_CATEGORY_ID: i64 = 1;

/// Whether a rule of `rules` has exactly `name` for its pattern.
pub open spec fn has_exact_rule(rules: Seq<AppCategoryRule>, name: Seq<char>) -> bool {
    exists|i: int| 0 <= i < rules.len() && (#[trigger] rules[i]).process_pattern@ == name
}

/// The place of the first rule of `rules` with exactly `name` for its pattern.
pub open spec fn first_exact_rule(rules: Seq<AppCategoryRule>, name: Seq<char>) -> int {
    choose|i: int|
        0 <= i < rules.len() && (#[trigger] rules[i]).process_pattern@ == name && forall|k: int|
            0 <= k < i ==> (#[trigger] rules[k]).process_pattern@ != name
}

/// Whether a rule of `rules` matches `name` as a pattern, letter case ignored.
pub open spec fn has_matching_rule(rules: Seq<AppCategoryRule>, name: Seq<char>) -> bool {
    exists|i: int|
        0 <= i < rules.len() && glob_matches_ignoring_case(
            (#[trigger] rules[i]).process_pattern@,
            name,
        )
}

/// The place of the first rule of `rules` that matches `name` as a pattern.
pub open spec fn first_matching_rule(rules: Seq<AppCategoryRule>, name: Seq<char>) -> int {
    choose|i: int|
        0 <= i < rules.len() && glob_matches_ignoring_case(
            (#[trigger] rules[i]).process_pattern@,
            name,
        ) && forall|k: int|
            0 <= k < i ==> !glob_matches_ignoring_case(
                (#[trigger] rules[k]).process_pattern@,
                name,
            )
}

/// The id of the category of the application `name`: that of the rule which
/// names it exactly, else that of the first rule whose pattern it matches,
/// else the default.
pub open spec fn category_id_of(rules: Seq<AppCategoryRule>, name: Seq<char>) -> i64 {
    if has_exact_rule(rules, name) {
        rules[first_exact_rule(rules, name)].category_id
    } else if has_matching_rule(rules, name) {
        rules[first_matching_rule(rules, name)].category_id
    } else {
        DEFAULT_CATEGORY_ID
    }
}

/// Finds the id of the category of `process_name`: an exact rule comes first,
/// then the patterns in their order, then the default category.
pub fn category_id_for_app(rules: &Vec<AppCategoryRule>, process_name: &str) -> (id: i64)
    ensures
        id == category_id_of(rules@, process_name@),
{
    let mut i: usize = 0;
    while i < rules.len()
        invariant
            i <= rules@.len(),
            forall|k: int| 0 <= k < i ==> (#[trigger] rules@[k]).process_pattern@ != process_name@,
        decreases rules@.len() - i,
    {
        if str_eq(rules[i].process_pattern.as_str(), process_name) {
            proof {
                let w = first_exact_rule(rules@, process_name@);
                assert(w == i) by {
                    if w < i {
                        assert(rules@[w].process_pattern@ != process_name@);
                    }
                    if w > i {
                        assert(rules@[i as int].process_pattern@ != process_name@);
                    }
                }
            }
            return rules[i].category_id;
        }
        i += 1;
    }
    let name = lowercase(process_name);
    let mut j: usize = 0;
    while j < rules.len()
        invariant
            j <= rules@.len(),
            name@ == unicode_lowercase(process_name@),
            !has_exact_rule(rules@, process_name@),
            forall|k: int|
                0 <= k < j ==> !glob_matches_ignoring_case(
                    (#[trigger] rules@[k]).process_pattern@,
                    process_name@,
                ),
        decreases rules@.len() - j,
    {
        let pattern = lowercase(rules[j].process_pattern.as_str());
        if pattern_matches_exact(pattern.as_str(), name.as_str()) {
            proof {
                let w = first_matching_rule(rules@, process_name@);
                assert(w == j) by {
                    if w < j {
                        assert(!glob_matches_ignoring_case(
                            rules@[w].process_pattern@,
                            process_name@,
                        ));
                    }
                    if w > j {
                        assert(glob_matches_ignoring_case(
                            rules@[j as int].process_pattern@,
                            process_name@,
                        ));
                    }
                }
            }
            return rules[j].category_id;
        }
        j += 1;
    }
    DEFAULT_CATEGORY_ID
}

/// The first category at or behind the place `from` of `categories` with the
/// id `id`, if there is one.
pub open spec fn category_from(categories: Seq<Category>, id: i64, from: int) -> Option<Category>
    decreases categories.len() - from,
{
    if from < 0 || from >= categories.len() {
        None
    } else if categories[from].id == id {
        Some(categories[from])
    } else {
        category_from(categories, id, from + 1)
    }
}

/// The first category of `categories` with the id `id`, if there is one.
pub open spec fn category_with_id(categories: Seq<Category>, id: i64) -> Option<Category> {
    category_from(categories, id, 0)
}

/// The category of the application `name`: the one whose id the rules give,
/// if there is such a category.
pub open spec fn category_of(
    rules: Seq<AppCategoryRule>,
    categories: Seq<Category>,
    name: Seq<char>,
) -> Option<Category> {
    category_with_id(categories, category_id_of(rules, name))
}

/// Finds the first category of `categories` with the id `id`.
pub fn find_category(categories: &Vec<Category>, id: i64) -> (found: Option<Category>)
    ensures
        found == category_with_id(categories@, id),
{
    let mut i: usize = 0;
    while i < categories.len()
        invariant
            i <= categories@.len(),
            category_with_id(categories@, id) == category_from(categories@, id, i as int),
        decreases categories@.len() - i,
    {
        if categories[i].id == id {
            return Some(categories[i].clone());
        }
        i += 1;
    }
    None
}

/// Finds the category of `process_name`: an exact rule comes first, then the
/// patterns in their order, then the default category.
pub fn get_category_for_app(
    rules: &Vec<AppCategoryRule>,
    categories: &Vec<Category>,
    process_name: &str,
) -> (found: Option<Category>)
    ensures
        found == category_of(rules@, categories@, process_name@),
{
    find_category(categories, category_id_for_app(rules, process_name))
}

} // verus!
