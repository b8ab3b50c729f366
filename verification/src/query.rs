//! The shape of the queries that the query layer puts to the durable log:
//! which rows are asked for, in which order, and how many.
//!
//! What a client sends never becomes part of the SQL text: the text depends
//! only on which filters are present, and the values travel as parameters.

use crate::text::{chars_of, copy_of, str_eq, text_of};
use vstd::prelude::*;
use vstd::string::*;

verus! {

/// Number of rows that a query returns where the client names none.
pub const DEFAULT_QUERY_LIMIT: usize = 500;

/// Largest number of rows that a query returns.
pub const MAX_QUERY_LIMIT: usize = 2000;

/// Number of days of a timeline where the client names none.
pub const DEFAULT_TIMELINE_DAYS: i32 = 7;

/// `text` with every `from` replaced by `to`.
pub open spec fn replaced(text: Seq<char>, from: char, to: Seq<char>) -> Seq<char>
    decreases text.len(),
{
    if text.len() == 0 {
        Seq::empty()
    } else if text[0] == from {
        to + replaced(text.drop_first(), from, to)
    } else {
        seq![text[0]] + replaced(text.drop_first(), from, to)
    }
}

/// Calls std's `str::replace` with a character for its pattern: every `from`
/// in `text` becomes `to`, and nothing else changes.
#[verifier::external_body]
fn replace_char(text: &str, from: char, to: &str) -> (changed: String)
    ensures
        changed@ == replaced(text@, from, to@),
{
    text.replace(from, to)
}

/// Tells whether `c` occurs in `text`.
pub fn has_char(text: &str, c: char) -> (found: bool)
    ensures
        found == text@.contains(c),
{
    let chars = chars_of(text);
    let mut i: usize = 0;
    while i < chars.len()
        invariant
            i <= chars@.len(),
            chars@ == text@,
            forall|k: int| 0 <= k < i ==> chars@[k] != c,
        decreases chars@.len() - i,
    {
        if chars[i] == c {
            return true;
        }
        i += 1;
    }
    false
}

/// Which part of the rows a query returns.
#[derive(Debug, Clone, Copy, PartialEq, Eq, Structural)]
pub struct Page {
    /// Largest number of rows.
    pub limit: usize,
    /// Number of rows passed over.
    pub offset: usize,
    /// Whether the latest rows come first.
    pub order_desc: bool,
}

/// The page for what a client asked: five hundred rows where it names no
/// limit and never more than two thousand; no rows passed over where it names
/// no offset; the latest first unless it asks for `asc`.
pub open spec fn page_for(limit: Option<usize>, offset: Option<usize>, order: Option<Seq<char>>) -> Page {
    let wanted = match limit {
        Some(n) => n,
        None => DEFAULT_QUERY_LIMIT,
    };
    Page {
        limit: if wanted > MAX_QUERY_LIMIT {
            MAX_QUERY_LIMIT
        } else {
            wanted
        },
        offset: match offset {
            Some(n) => n,
            None => 0,
        },
        order_desc: order != Some("asc"@),
    }
}

/// Works out the page for what a client asked.
pub fn page_of(limit: Option<usize>, offset: Option<usize>, order: &Option<String>) -> (page: Page)
    ensures
        page == page_for(limit, offset, text_of(*order)),
{
    let wanted: usize = match limit {
        Some(n) => n,
        None => DEFAULT_QUERY_LIMIT,
    };
    let ascending: bool = match order {
        Some(o) => str_eq(o.as_str(), "asc"),
        None => false,
    };
    Page {
        limit: if wanted > MAX_QUERY_LIMIT {
            MAX_QUERY_LIMIT
        } else {
            wanted
        },
        offset: match offset {
            Some(n) => n,
            None => 0,
        },
        order_desc: !ascending,
    }
}

/// The date that a query is held to: the one the client names, or today where
/// it names no date and no bounds, so that no query reads the whole log.
pub open spec fn date_for(
    date: Option<Seq<char>>,
    from: Option<Seq<char>>,
    to: Option<Seq<char>>,
    today: Seq<char>,
) -> Option<Seq<char>> {
    if date is None && from is None && to is None {
        Some(today)
    } else {
        date
    }
}

/// Works out the date that a query is held to.
pub fn date_filter(date: &Option<String>, from: &Option<String>, to: &Option<String>, today: &str) -> (held: Option<String>)
    ensures
        text_of(held) == date_for(text_of(*date), text_of(*from), text_of(*to), today@),
{
    if date.is_none() && from.is_none() && to.is_none() {
        Some(String::from_str(today))
    } else {
        copy_of(date)
    }
}

/// What a client asks of the session log.
#[derive(Debug)]
pub struct SessionsQuery {
    /// A day, as `YYYY-MM-DD`.
    pub date: Option<String>,
    /// Earliest start.
    pub from: Option<String>,
    /// Latest start.
    pub to: Option<String>,
    /// Process name, exact or with `*` for any run of characters.
    pub app: Option<String>,
    /// Id of a category.
    pub category: Option<i64>,
    pub limit: Option<usize>,
    pub offset: Option<usize>,
    /// `asc` or `desc`.
    pub order: Option<String>,
}

/// What a client asks of the media log.
#[derive(Debug)]
pub struct MediaQuery {
    /// A day, as `YYYY-MM-DD`.
    pub date: Option<String>,
    /// Earliest start.
    pub from: Option<String>,
    /// Latest start.
    pub to: Option<String>,
    /// Artist, exact or with `*` for any run of characters.
    pub artist: Option<String>,
    /// Source application, exact or with `*` for any run of characters.
    pub source_app: Option<String>,
    pub limit: Option<usize>,
    pub offset: Option<usize>,
    /// `asc` or `desc`.
    pub order: Option<String>,
}

/// A query of the session log with its defaults filled in.
#[derive(Debug)]
pub struct SessionFilter {
    pub date: Option<String>,
    pub from: Option<String>,
    pub to: Option<String>,
    pub app: Option<String>,
    pub page: Page,
}

/// A query of the media log with its defaults filled in.
#[derive(Debug)]
pub struct MediaFilter {
    pub date: Option<String>,
    pub from: Option<String>,
    pub to: Option<String>,
    pub artist: Option<String>,
    pub source_app: Option<String>,
    pub page: Page,
}

impl SessionsQuery {
    /// Fills in the defaults of the query; `today` is the current date.
    pub fn plan(&self, today: &str) -> (filter: SessionFilter)
        ensures
            text_of(filter.date) == date_for(
                text_of(self.date),
                text_of(self.from),
                text_of(self.to),
                today@,
            ),
            text_of(filter.from) == text_of(self.from),
            text_of(filter.to) == text_of(self.to),
            text_of(filter.app) == text_of(self.app),
            filter.page == page_for(self.limit, self.offset, text_of(self.order)),
    {
        SessionFilter {
            date: date_filter(&self.date, &self.from, &self.to, today),
            from: copy_of(&self.from),
            to: copy_of(&self.to),
            app: copy_of(&self.app),
            page: page_of(self.limit, self.offset, &self.order),
        }
    }
}

impl MediaQuery {
    /// Fills in the defaults of the query; `today` is the current date.
    pub fn plan(&self, today: &str) -> (filter: MediaFilter)
        ensures
            text_of(filter.date) == date_for(
                text_of(self.date),
                text_of(self.from),
                text_of(self.to),
                today@,
            ),
            text_of(filter.from) == text_of(self.from),
            text_of(filter.to) == text_of(self.to),
            text_of(filter.artist) == text_of(self.artist),
            text_of(filter.source_app) == text_of(self.source_app),
            filter.page == page_for(self.limit, self.offset, text_of(self.order)),
    {
        MediaFilter {
            date: date_filter(&self.date, &self.from, &self.to, today),
            from: copy_of(&self.from),
            to: copy_of(&self.to),
            artist: copy_of(&self.artist),
            source_app: copy_of(&self.source_app),
            page: page_of(self.limit, self.offset, &self.order),
        }
    }
}

/// A query as the database takes it: the text for counting the rows, the text
/// for reading a page of them, and the values for the `?` of both, in their
/// order. The text for reading ends in `LIMIT ? OFFSET ?`, which take `limit`
/// and `offset`.
#[derive(Debug)]
pub struct SqlQuery {
    pub count_sql: String,
    pub select_sql: String,
    pub params: Vec<String>,
    pub limit: usize,
    pub offset: usize,
}

/// The condition on the start time for the filters that are present.
pub open spec fn time_conditions(has_date: bool, has_from: bool, has_to: bool) -> Seq<char> {
    "end_time IS NOT NULL"@ + (if has_date {
        " AND start_time LIKE ? || '%'"@
    } else {
        Seq::empty()
    }) + (if has_from {
        " AND start_time >= ?"@
    } else {
        Seq::empty()
    }) + (if has_to {
        " AND start_time <= ?"@
    } else {
        Seq::empty()
    })
}

/// The condition that holds `column` to `value`: a comparison with `LIKE`
/// where the value has a `*`, equality where it has none, nothing without a
/// value.
pub open spec fn match_condition(column: Seq<char>, value: Option<Seq<char>>) -> Seq<char> {
    match value {
        Some(v) => if v.contains('*') {
            " AND "@ + column + " LIKE ?"@
        } else {
            " AND "@ + column + " = ?"@
        },
        None => Seq::empty(),
    }
}

/// The value that goes with `match_condition`: with `%` for each `*` where
/// the comparison is with `LIKE`.
pub open spec fn match_param(value: Seq<char>) -> Seq<char> {
    if value.contains('*') {
        replaced(value, '*', "%"@)
    } else {
        value
    }
}

/// The values of the filters that are present, in the order of their `?`.
pub open spec fn filter_params(values: Seq<Option<Seq<char>>>) -> Seq<Seq<char>>
    decreases values.len(),
{
    if values.len() == 0 {
        Seq::empty()
    } else {
        match values.last() {
            Some(v) => filter_params(values.drop_last()).push(v),
            None => filter_params(values.drop_last()),
        }
    }
}

/// The words for the order of the rows.
pub open spec fn order_words(order_desc: bool) -> Seq<char> {
    if order_desc {
        "DESC"@
    } else {
        "ASC"@
    }
}

/// The conditions of a query of the session log.
pub open spec fn session_conditions(filter: SessionFilter) -> Seq<char> {
    time_conditions(filter.date is Some, filter.from is Some, filter.to is Some) + match_condition(
        "process_name"@,
        text_of(filter.app),
    )
}

/// The text that counts the rows of a query of the session log.
pub open spec fn session_count_sql(filter: SessionFilter) -> Seq<char> {
    "SELECT COUNT(*) FROM sessions WHERE "@ + session_conditions(filter)
}

/// The text that reads a page of the rows of a query of the session log.
pub open spec fn session_select_sql(filter: SessionFilter) -> Seq<char> {
    "SELECT id, process_name, window_title, start_time, end_time, keystrokes, clicks, scrolls, is_idle, CAST((julianday(end_time) - julianday(start_time)) * 86400 AS INTEGER) as duration FROM sessions WHERE "@
        + session_conditions(filter) + " ORDER BY start_time "@ + order_words(
        filter.page.order_desc,
    ) + " LIMIT ? OFFSET ?"@
}

/// The values of an optional filter that is matched with `match_condition`,
/// added to `params`.
pub open spec fn with_match_param(params: Seq<Seq<char>>, value: Option<Seq<char>>) -> Seq<Seq<char>> {
    match value {
        Some(v) => params.push(match_param(v)),
        None => params,
    }
}

/// The values for the `?` of a query of the session log.
pub open spec fn session_params(filter: SessionFilter) -> Seq<Seq<char>> {
    with_match_param(
        filter_params(seq![text_of(filter.date), text_of(filter.from), text_of(filter.to)]),
        text_of(filter.app),
    )
}

/// The conditions of a query of the media log.
pub open spec fn media_conditions(filter: MediaFilter) -> Seq<char> {
    time_conditions(filter.date is Some, filter.from is Some, filter.to is Some) + match_condition(
        "artist"@,
        text_of(filter.artist),
    ) + match_condition("source_app"@, text_of(filter.source_app))
}

/// The text that counts the rows of a query of the media log.
pub open spec fn media_count_sql(filter: MediaFilter) -> Seq<char> {
    "SELECT COUNT(*) FROM media WHERE "@ + media_conditions(filter)
}

/// The text that reads a page of the rows of a query of the media log.
pub open spec fn media_select_sql(filter: MediaFilter) -> Seq<char> {
    "SELECT id, title, artist, album, source_app, start_time, end_time, duration_secs FROM media WHERE "@
        + media_conditions(filter) + " ORDER BY start_time "@ + order_words(
        filter.page.order_desc,
    ) + " LIMIT ? OFFSET ?"@
}

/// The values for the `?` of a query of the media log.
pub open spec fn media_params(filter: MediaFilter) -> Seq<Seq<char>> {
    with_match_param(
        with_match_param(
            filter_params(seq![text_of(filter.date), text_of(filter.from), text_of(filter.to)]),
            text_of(filter.artist),
        ),
        text_of(filter.source_app),
    )
}

/// The texts of a list of strings.
pub open spec fn param_texts(params: Seq<String>) -> Seq<Seq<char>> {
    Seq::new(params.len(), |i: int| params[i]@)
}

/// Adds the conditions on the start time to `sql` and their values to
/// `params`.
fn push_time_conditions(
    sql: &mut String,
    params: &mut Vec<String>,
    date: &Option<String>,
    from: &Option<String>,
    to: &Option<String>,
)
    ensures
        final(sql)@ == old(sql)@ + time_conditions(date is Some, from is Some, to is Some),
        param_texts(final(params)@) == param_texts(old(params)@) + filter_params(
            seq![text_of(*date), text_of(*from), text_of(*to)],
        ),
{
    let ghost values = seq![text_of(*date), text_of(*from), text_of(*to)];
    proof {
        assert(values.drop_last() =~= seq![text_of(*date), text_of(*from)]);
        assert(values.drop_last().drop_last() =~= seq![text_of(*date)]);
        assert(values.drop_last().drop_last().drop_last() =~= Seq::<Option<Seq<char>>>::empty());
        reveal_with_fuel(filter_params, 4);
    }
    sql.append("end_time IS NOT NULL");
    if let Some(d) = date {
        sql.append(" AND start_time LIKE ? || '%'");
        params.push(d.clone());
    }
    if let Some(f) = from {
        sql.append(" AND start_time >= ?");
        params.push(f.clone());
    }
    if let Some(t) = to {
        sql.append(" AND start_time <= ?");
        params.push(t.clone());
    }
    assert(sql@ =~= old(sql)@ + time_conditions(date is Some, from is Some, to is Some));
    assert(param_texts(params@) =~= param_texts(old(params)@) + filter_params(values));
}

/// Adds the condition that holds `column` to `value` to `sql`, and the value
/// to `params`.
fn push_match_condition(sql: &mut String, params: &mut Vec<String>, column: &str, value: &Option<String>)
    ensures
        final(sql)@ == old(sql)@ + match_condition(column@, text_of(*value)),
        param_texts(final(params)@) == with_match_param(param_texts(old(params)@), text_of(*value)),
{
    if let Some(v) = value {
        sql.append(" AND ");
        sql.append(column);
        if has_char(v.as_str(), '*') {
            sql.append(" LIKE ?");
            params.push(replace_char(v.as_str(), '*', "%"));
        } else {
            sql.append(" = ?");
            params.push(v.clone());
        }
        assert(sql@ =~= old(sql)@ + match_condition(column@, text_of(*value)));
        assert(param_texts(params@) =~= param_texts(old(params)@).push(match_param(v@)));
    } else {
        assert(sql@ =~= old(sql)@ + match_condition(column@, text_of(*value)));
        assert(param_texts(params@) =~= param_texts(old(params)@));
    }
}

impl SessionFilter {
    /// Writes the query for the database. The two texts depend only on which
    /// filters are present and on the order; the values of the filters are
    /// the parameters.
    pub fn to_sql(&self) -> (query: SqlQuery)
        ensures
            query.count_sql@ == session_count_sql(*self),
            query.select_sql@ == session_select_sql(*self),
            param_texts(query.params@) == session_params(*self),
            query.limit == self.page.limit,
            query.offset == self.page.offset,
    {
        let mut conditions = String::new();
        let mut params: Vec<String> = Vec::new();
        push_time_conditions(&mut conditions, &mut params, &self.date, &self.from, &self.to);
        let ghost timed = param_texts(params@);
        proof {
            let head = seq![text_of(self.date), text_of(self.from), text_of(self.to)];
            assert(param_texts(Seq::<String>::empty()) =~= Seq::<Seq<char>>::empty());
            assert(timed =~= filter_params(head));
        }
        push_match_condition(&mut conditions, &mut params, "process_name", &self.app);
        let mut count_sql = String::from_str("SELECT COUNT(*) FROM sessions WHERE ");
        count_sql.append(conditions.as_str());
        let mut select_sql = String::from_str(
            "SELECT id, process_name, window_title, start_time, end_time, keystrokes, clicks, scrolls, is_idle, CAST((julianday(end_time) - julianday(start_time)) * 86400 AS INTEGER) as duration FROM sessions WHERE ",
        );
        select_sql.append(conditions.as_str());
        select_sql.append(" ORDER BY start_time ");
        if self.page.order_desc {
            select_sql.append("DESC");
        } else {
            select_sql.append("ASC");
        }
        select_sql.append(" LIMIT ? OFFSET ?");
        proof {
            assert(conditions@ =~= session_conditions(*self));
        }
        SqlQuery {
            count_sql,
            select_sql,
            params,
            limit: self.page.limit,
            offset: self.page.offset,
        }
    }
}

impl MediaFilter {
    /// Writes the query for the database. The two texts depend only on which
    /// filters are present and on the order; the values of the filters are
    /// the parameters.
    pub fn to_sql(&self) -> (query: SqlQuery)
        ensures
            query.count_sql@ == media_count_sql(*self),
            query.select_sql@ == media_select_sql(*self),
            param_texts(query.params@) == media_params(*self),
            query.limit == self.page.limit,
            query.offset == self.page.offset,
    {
        let mut conditions = String::new();
        let mut params: Vec<String> = Vec::new();
        push_time_conditions(&mut conditions, &mut params, &self.date, &self.from, &self.to);
        let ghost timed = param_texts(params@);
        proof {
            let head = seq![text_of(self.date), text_of(self.from), text_of(self.to)];
            assert(param_texts(Seq::<String>::empty()) =~= Seq::<Seq<char>>::empty());
            assert(timed =~= filter_params(head));
        }
        push_match_condition(&mut conditions, &mut params, "artist", &self.artist);
        push_match_condition(&mut conditions, &mut params, "source_app", &self.source_app);
        let mut count_sql = String::from_str("SELECT COUNT(*) FROM media WHERE ");
        count_sql.append(conditions.as_str());
        let mut select_sql = String::from_str(
            "SELECT id, title, artist, album, source_app, start_time, end_time, duration_secs FROM media WHERE ",
        );
        select_sql.append(conditions.as_str());
        select_sql.append(" ORDER BY start_time ");
        if self.page.order_desc {
            select_sql.append("DESC");
        } else {
            select_sql.append("ASC");
        }
        select_sql.append(" LIMIT ? OFFSET ?");
        proof {
            assert(conditions@ =~= media_conditions(*self));
        }
        SqlQuery {
            count_sql,
            select_sql,
            params,
            limit: self.page.limit,
            offset: self.page.offset,
        }
    }
}

/// The text of a query holds nothing of what the client sent: two queries of
/// the session log with the same filters present, `*` in the same of them,
/// and the same order have the same text.
pub proof fn lemma_session_sql_is_fixed(a: SessionFilter, b: SessionFilter)
    requires
        a.date is Some == b.date is Some,
        a.from is Some == b.from is Some,
        a.to is Some == b.to is Some,
        a.app is Some == b.app is Some,
        a.app is Some ==> a.app->0@.contains('*') == b.app->0@.contains('*'),
        a.page.order_desc == b.page.order_desc,
    ensures
        session_count_sql(a) == session_count_sql(b),
        session_select_sql(a) == session_select_sql(b),
{
}

} // verus!
