use vstd::prelude::*;

use crate::text::string_from_chars;

verus! {

/// The column a search is ordered by.
#[derive(Debug, Clone, Copy, PartialEq, Eq)]
pub enum SearchSortField {
    Name,
    Path,
    Extension,
    Size,
    Modified,
}

/// The direction of a search's order.
#[derive(Debug, Clone, Copy, PartialEq, Eq)]
pub enum SearchSortDirection {
    Asc,
    Desc,
}

/// A search over the indexed entries of one root (already normalized: `query`
/// and `extension` lowercased, `page` from 1).
#[derive(Debug, Clone, PartialEq, Eq)]
pub struct SearchQuery {
    pub root_path: String,
    pub query: String,
    pub extension: Option<String>,
    pub min_size: Option<i64>,
    pub max_size: Option<i64>,
    pub modified_after: Option<i64>,
    pub modified_before: Option<i64>,
    pub sort_by: SearchSortField,
    pub sort_direction: SearchSortDirection,
    pub page: i64,
    pub page_size: i64,
}

/// One entry found by a search.
#[derive(Debug, Clone, PartialEq, Eq)]
pub struct SearchEntry {
    pub id: i64,
    pub normalized_path: String,
    pub name: String,
    pub extension: Option<String>,
    pub kind: String,
    pub size: i64,
    pub modified_ms: Option<i64>,
}

/// One page of search results.
#[derive(Debug, Clone, PartialEq, Eq)]
pub struct SearchResult {
    pub entries: Vec<SearchEntry>,
    pub total: i64,
    pub page: i64,
    pub page_size: i64,
    pub total_pages: i64,
}

/// An entry shown in the explorer tree.
#[derive(Debug, Clone, PartialEq, Eq)]
pub struct ExplorerNode {
    pub id: i64,
    pub normalized_path: String,
    pub name: String,
    pub extension: Option<String>,
    pub kind: String,
    pub size: i64,
    pub modified_ms: Option<i64>,
    pub has_children: bool,
}

/// A value bound to a `?` placeholder of an SQL statement.
#[derive(Debug, Clone, PartialEq, Eq)]
pub enum SqlValue {
    Integer(i64),
    Text(String),
}

/// The view of a bound value.
pub enum SqlValueView {
    Integer(i64),
    Text(Seq<char>),
}

pub open spec fn sql_value_view(v: SqlValue) -> SqlValueView {
    match v {
        SqlValue::Integer(n) => SqlValueView::Integer(n),
        SqlValue::Text(t) => SqlValueView::Text(t@),
    }
}

pub open spec fn sql_values_view(values: Seq<SqlValue>) -> Seq<SqlValueView> {
    values.map_values(|v: SqlValue| sql_value_view(v))
}

/// The `LIKE` pattern that finds `query` anywhere.
pub open spec fn contains_pattern(query: Seq<char>) -> Seq<char> {
    "%"@ + query + "%"@
}

/// The `WHERE` clause of a search: the root, then each filter that the query
/// sets, joined by `AND`, with `?` for every value.
pub open spec fn search_where(query: SearchQuery) -> Seq<char> {
    "root_id = ?"@
        + (if query.query@.len() > 0 {
        " AND (unicode_lower(name) LIKE ? OR unicode_lower(normalized_path) LIKE ?)"@
    } else {
        Seq::empty()
    }) + (if query.extension is Some {
        " AND unicode_lower(COALESCE(extension, '')) = ?"@
    } else {
        Seq::empty()
    }) + (if query.min_size is Some {
        " AND size >= ?"@
    } else {
        Seq::empty()
    }) + (if query.max_size is Some {
        " AND size <= ?"@
    } else {
        Seq::empty()
    }) + (if query.modified_after is Some {
        " AND modified_ms >= ?"@
    } else {
        Seq::empty()
    }) + (if query.modified_before is Some {
        " AND modified_ms <= ?"@
    } else {
        Seq::empty()
    })
}

/// The values of a search's `WHERE` clause, in placeholder order.
pub open spec fn search_values(root_id: i64, query: SearchQuery) -> Seq<SqlValueView> {
    seq![SqlValueView::Integer(root_id)]
        + (if query.query@.len() > 0 {
        seq![
            SqlValueView::Text(contains_pattern(query.query@)),
            SqlValueView::Text(contains_pattern(query.query@)),
        ]
    } else {
        Seq::empty()
    }) + (match query.extension {
        Some(e) => seq![SqlValueView::Text(e@)],
        None => Seq::empty(),
    }) + (match query.min_size {
        Some(n) => seq![SqlValueView::Integer(n)],
        None => Seq::empty(),
    }) + (match query.max_size {
        Some(n) => seq![SqlValueView::Integer(n)],
        None => Seq::empty(),
    }) + (match query.modified_after {
        Some(n) => seq![SqlValueView::Integer(n)],
        None => Seq::empty(),
    }) + (match query.modified_before {
        Some(n) => seq![SqlValueView::Integer(n)],
        None => Seq::empty(),
    })
}

/// `part` occurs in `text`.
pub open spec fn occurs_in(text: Seq<char>, part: Seq<char>) -> bool {
    exists|i: int| 0 <= i && i + part.len() <= text.len() && #[trigger] text.subrange(i, i + part.len()) == part
}

proof fn lemma_occurs_between(before: Seq<char>, part: Seq<char>, after: Seq<char>)
    ensures
        occurs_in(before + part + after, part),
{
    let i = before.len() as int;
    assert((before + part + after).subrange(i, i + part.len()) =~= part);
}

/// The text pieces of a search's `WHERE` clause, in order.
spec fn where_pieces(q: SearchQuery) -> Seq<Seq<char>> {
    seq![
        "root_id = ?"@,
        if q.query@.len() > 0 {
            " AND (unicode_lower(name) LIKE ? OR unicode_lower(normalized_path) LIKE ?)"@
        } else {
            Seq::empty()
        },
        if q.extension is Some { " AND unicode_lower(COALESCE(extension, '')) = ?"@ } else { Seq::empty() },
        if q.min_size is Some { " AND size >= ?"@ } else { Seq::empty() },
        if q.max_size is Some { " AND size <= ?"@ } else { Seq::empty() },
        if q.modified_after is Some { " AND modified_ms >= ?"@ } else { Seq::empty() },
        if q.modified_before is Some { " AND modified_ms <= ?"@ } else { Seq::empty() },
    ]
}

proof fn lemma_where_piece_occurs(q: SearchQuery, k: int)
    requires
        0 <= k < 7,
    ensures
        occurs_in(search_where(q), where_pieces(q)[k]),
{
    let p = where_pieces(q);
    let w = search_where(q);
    assert(w == p[0] + p[1] + p[2] + p[3] + p[4] + p[5] + p[6]);
    let before = p.take(k).flatten();
    let after = p.skip(k + 1).flatten();
    if k == 0 {
        assert(w =~= Seq::<char>::empty() + p[0] + (p[1] + p[2] + p[3] + p[4] + p[5] + p[6]));
        lemma_occurs_between(Seq::empty(), p[0], p[1] + p[2] + p[3] + p[4] + p[5] + p[6]);
    } else if k == 1 {
        assert(w =~= p[0] + p[1] + (p[2] + p[3] + p[4] + p[5] + p[6]));
        lemma_occurs_between(p[0], p[1], p[2] + p[3] + p[4] + p[5] + p[6]);
    } else if k == 2 {
        assert(w =~= (p[0] + p[1]) + p[2] + (p[3] + p[4] + p[5] + p[6]));
        lemma_occurs_between(p[0] + p[1], p[2], p[3] + p[4] + p[5] + p[6]);
    } else if k == 3 {
        assert(w =~= (p[0] + p[1] + p[2]) + p[3] + (p[4] + p[5] + p[6]));
        lemma_occurs_between(p[0] + p[1] + p[2], p[3], p[4] + p[5] + p[6]);
    } else if k == 4 {
        assert(w =~= (p[0] + p[1] + p[2] + p[3]) + p[4] + (p[5] + p[6]));
        lemma_occurs_between(p[0] + p[1] + p[2] + p[3], p[4], p[5] + p[6]);
    } else if k == 5 {
        assert(w =~= (p[0] + p[1] + p[2] + p[3] + p[4]) + p[5] + p[6]);
        lemma_occurs_between(p[0] + p[1] + p[2] + p[3] + p[4], p[5], p[6]);
    } else {
        assert(w =~= (p[0] + p[1] + p[2] + p[3] + p[4] + p[5]) + p[6] + Seq::<char>::empty());
        lemma_occurs_between(p[0] + p[1] + p[2] + p[3] + p[4] + p[5], p[6], Seq::empty());
    }
}

/// The value pieces of a search, in placeholder order.
spec fn value_pieces(root_id: i64, q: SearchQuery) -> Seq<Seq<SqlValueView>> {
    seq![
        seq![SqlValueView::Integer(root_id)],
        if q.query@.len() > 0 {
            seq![SqlValueView::Text(contains_pattern(q.query@)), SqlValueView::Text(contains_pattern(q.query@))]
        } else {
            Seq::empty()
        },
        match q.extension {
            Some(e) => seq![SqlValueView::Text(e@)],
            None => Seq::empty(),
        },
        match q.min_size {
            Some(n) => seq![SqlValueView::Integer(n)],
            None => Seq::empty(),
        },
        match q.max_size {
            Some(n) => seq![SqlValueView::Integer(n)],
            None => Seq::empty(),
        },
        match q.modified_after {
            Some(n) => seq![SqlValueView::Integer(n)],
            None => Seq::empty(),
        },
        match q.modified_before {
            Some(n) => seq![SqlValueView::Integer(n)],
            None => Seq::empty(),
        },
    ]
}

proof fn lemma_piece_in_seven<T>(p: Seq<Seq<T>>, k: int)
    requires
        p.len() == 7,
        0 <= k < 7,
        p[k].len() > 0,
    ensures
        (p[0] + p[1] + p[2] + p[3] + p[4] + p[5] + p[6]).contains(p[k][0]),
{
    let w = p[0] + p[1] + p[2] + p[3] + p[4] + p[5] + p[6];
    let before: int = if k == 0 {
        0
    } else if k == 1 {
        p[0].len() as int
    } else if k == 2 {
        (p[0].len() + p[1].len()) as int
    } else if k == 3 {
        (p[0].len() + p[1].len() + p[2].len()) as int
    } else if k == 4 {
        (p[0].len() + p[1].len() + p[2].len() + p[3].len()) as int
    } else if k == 5 {
        (p[0].len() + p[1].len() + p[2].len() + p[3].len() + p[4].len()) as int
    } else {
        (p[0].len() + p[1].len() + p[2].len() + p[3].len() + p[4].len() + p[5].len()) as int
    };
    assert(w[before] == p[k][0]);
}

proof fn lemma_values_count(root_id: i64, q: SearchQuery)
    ensures
        search_values(root_id, q) == value_pieces(root_id, q)[0] + value_pieces(root_id, q)[1] + value_pieces(root_id, q)[2]
            + value_pieces(root_id, q)[3] + value_pieces(root_id, q)[4] + value_pieces(root_id, q)[5] + value_pieces(root_id, q)[6],
        search_values(root_id, q).len() == 1 + (if q.query@.len() > 0 { 2int } else { 0int })
            + (if q.extension is Some { 1int } else { 0int }) + (if q.min_size is Some { 1int } else { 0int })
            + (if q.max_size is Some { 1int } else { 0int }) + (if q.modified_after is Some { 1int } else { 0int })
            + (if q.modified_before is Some { 1int } else { 0int }),
{
    let p = value_pieces(root_id, q);
    assert(search_values(root_id, q) == p[0] + p[1] + p[2] + p[3] + p[4] + p[5] + p[6]);
}

proof fn lemma_where_starts_with_root(q: SearchQuery)
    ensures
        search_where(q).subrange(0, 11) == "root_id = ?"@,
{
    reveal_strlit("root_id = ?");
    let p = where_pieces(q);
    assert(search_where(q) == p[0] + p[1] + p[2] + p[3] + p[4] + p[5] + p[6]);
    assert(p[0].len() == 11);
    assert(search_where(q) =~= p[0] + (p[1] + p[2] + p[3] + p[4] + p[5] + p[6]));
    assert(search_where(q).subrange(0, 11) =~= p[0]);
}

/// A search is always confined to its root, and each filter adds exactly its
/// own values: the root's predicate and value come first, search text adds
/// two values, and the extension, each size bound and each time bound one
/// value each, whatever the other fields hold.
pub proof fn lemma_search_values_follow_filters(root_id: i64, query: SearchQuery)
    ensures
        search_values(root_id, query).len() == 1 + (if query.query@.len() > 0 { 2int } else { 0int })
            + (if query.extension is Some { 1int } else { 0int }) + (if query.min_size is Some { 1int } else { 0int })
            + (if query.max_size is Some { 1int } else { 0int }) + (if query.modified_after is Some { 1int } else { 0int })
            + (if query.modified_before is Some { 1int } else { 0int }),
        search_values(root_id, query)[0] == SqlValueView::Integer(root_id),
        search_where(query).subrange(0, 11) == "root_id = ?"@,
{
    lemma_values_count(root_id, query);
    lemma_where_starts_with_root(query);
    let v = value_pieces(root_id, query);
    assert(search_values(root_id, query)[0] == v[0][0]);
}

/// Search text, whatever the other fields hold, adds its `LIKE` predicate on
/// the name and the path, with the pattern that finds the text anywhere.
pub proof fn lemma_text_filter_stands_alone(root_id: i64, query: SearchQuery)
    ensures
        query.query@.len() > 0 ==> occurs_in(
            search_where(query),
            " AND (unicode_lower(name) LIKE ? OR unicode_lower(normalized_path) LIKE ?)"@,
        ) && search_values(root_id, query).contains(SqlValueView::Text("%"@ + query.query@ + "%"@)),
{
    if query.query@.len() > 0 {
        lemma_values_count(root_id, query);
        lemma_where_piece_occurs(query, 1);
        lemma_piece_in_seven(value_pieces(root_id, query), 1);
    }
}

/// An extension, whatever the other fields hold (search text or none),
/// adds its predicate with its value.
pub proof fn lemma_extension_filter_stands_alone(root_id: i64, query: SearchQuery)
    ensures
        query.extension matches Some(e) ==> occurs_in(search_where(query), " AND unicode_lower(COALESCE(extension, '')) = ?"@)
            && search_values(root_id, query).contains(SqlValueView::Text(e@)),
{
    if query.extension is Some {
        lemma_values_count(root_id, query);
        lemma_where_piece_occurs(query, 2);
        lemma_piece_in_seven(value_pieces(root_id, query), 2);
    }
}

/// Each size bound, whatever the other fields hold, adds its comparison with
/// its value.
pub proof fn lemma_size_filters_stand_alone(root_id: i64, query: SearchQuery)
    ensures
        query.min_size matches Some(n) ==> occurs_in(search_where(query), " AND size >= ?"@)
            && search_values(root_id, query).contains(SqlValueView::Integer(n)),
        query.max_size matches Some(n) ==> occurs_in(search_where(query), " AND size <= ?"@)
            && search_values(root_id, query).contains(SqlValueView::Integer(n)),
{
    lemma_values_count(root_id, query);
    if query.min_size is Some {
        lemma_where_piece_occurs(query, 3);
        lemma_piece_in_seven(value_pieces(root_id, query), 3);
    }
    if query.max_size is Some {
        lemma_where_piece_occurs(query, 4);
        lemma_piece_in_seven(value_pieces(root_id, query), 4);
    }
}

/// Each modification time bound, whatever the other fields hold, adds its
/// comparison with its value.
pub proof fn lemma_time_filters_stand_alone(root_id: i64, query: SearchQuery)
    ensures
        query.modified_after matches Some(n) ==> occurs_in(search_where(query), " AND modified_ms >= ?"@)
            && search_values(root_id, query).contains(SqlValueView::Integer(n)),
        query.modified_before matches Some(n) ==> occurs_in(search_where(query), " AND modified_ms <= ?"@)
            && search_values(root_id, query).contains(SqlValueView::Integer(n)),
{
    lemma_values_count(root_id, query);
    if query.modified_after is Some {
        lemma_where_piece_occurs(query, 5);
        lemma_piece_in_seven(value_pieces(root_id, query), 5);
    }
    if query.modified_before is Some {
        lemma_where_piece_occurs(query, 6);
        lemma_piece_in_seven(value_pieces(root_id, query), 6);
    }
}

fn push_text(out: &mut Vec<char>, s: &str)
    ensures
        final(out)@ == old(out)@ + s@,
{
    let n = s.unicode_len();
    let mut i: usize = 0;
    let ghost start = out@;
    while i < n
        invariant
            n == s@.len(),
            i <= n,
            out@ == start + s@.take(i as int),
        decreases n - i,
    {
        out.push(s.get_char(i));
        assert(s@.take((i + 1) as int) == s@.take(i as int).push(s@[i as int]));
        i = i + 1;
    }
    assert(s@.take(n as int) == s@);
}

fn pattern_of(query: &str) -> (r: String)
    ensures
        r@ == contains_pattern(query@),
{
    let mut out: Vec<char> = Vec::new();
    push_text(&mut out, "%");
    push_text(&mut out, query);
    push_text(&mut out, "%");
    string_from_chars(out.as_slice())
}

/// The `WHERE` clause and its values for a search within the root `root_id`.
pub fn search_predicates(root_id: i64, query: &SearchQuery) -> (r: (String, Vec<SqlValue>))
    ensures
        r.0@ == search_where(*query),
        sql_values_view(r.1@) == search_values(root_id, *query),
{
    let mut sql: Vec<char> = Vec::new();
    let mut values: Vec<SqlValue> = Vec::new();
    push_text(&mut sql, "root_id = ?");
    values.push(SqlValue::Integer(root_id));
    assert(sql_values_view(values@) == seq![SqlValueView::Integer(root_id)]);
    if query.query.as_str().unicode_len() > 0 {
        push_text(&mut sql, " AND (unicode_lower(name) LIKE ? OR unicode_lower(normalized_path) LIKE ?)");
        values.push(SqlValue::Text(pattern_of(query.query.as_str())));
        values.push(SqlValue::Text(pattern_of(query.query.as_str())));
    }
    assert(sql_values_view(values@) == seq![SqlValueView::Integer(root_id)] + (if query.query@.len() > 0 {
        seq![
            SqlValueView::Text(contains_pattern(query.query@)),
            SqlValueView::Text(contains_pattern(query.query@)),
        ]
    } else {
        Seq::<SqlValueView>::empty()
    }));
    let ghost v1 = sql_values_view(values@);
    match &query.extension {
        Some(extension) => {
            push_text(&mut sql, " AND unicode_lower(COALESCE(extension, '')) = ?");
            values.push(SqlValue::Text(extension.clone()));
        },
        None => {},
    }
    assert(sql_values_view(values@) == v1 + (match query.extension {
        Some(e) => seq![SqlValueView::Text(e@)],
        None => Seq::<SqlValueView>::empty(),
    }));
    let ghost v2 = sql_values_view(values@);
    match query.min_size {
        Some(n) => {
            push_text(&mut sql, " AND size >= ?");
            values.push(SqlValue::Integer(n));
        },
        None => {},
    }
    assert(sql_values_view(values@) == v2 + (match query.min_size {
        Some(n) => seq![SqlValueView::Integer(n)],
        None => Seq::<SqlValueView>::empty(),
    }));
    let ghost v3 = sql_values_view(values@);
    match query.max_size {
        Some(n) => {
            push_text(&mut sql, " AND size <= ?");
            values.push(SqlValue::Integer(n));
        },
        None => {},
    }
    assert(sql_values_view(values@) == v3 + (match query.max_size {
        Some(n) => seq![SqlValueView::Integer(n)],
        None => Seq::<SqlValueView>::empty(),
    }));
    let ghost v4 = sql_values_view(values@);
    match query.modified_after {
        Some(n) => {
            push_text(&mut sql, " AND modified_ms >= ?");
            values.push(SqlValue::Integer(n));
        },
        None => {},
    }
    assert(sql_values_view(values@) == v4 + (match query.modified_after {
        Some(n) => seq![SqlValueView::Integer(n)],
        None => Seq::<SqlValueView>::empty(),
    }));
    let ghost v5 = sql_values_view(values@);
    match query.modified_before {
        Some(n) => {
            push_text(&mut sql, " AND modified_ms <= ?");
            values.push(SqlValue::Integer(n));
        },
        None => {},
    }
    assert(sql_values_view(values@) == v5 + (match query.modified_before {
        Some(n) => seq![SqlValueView::Integer(n)],
        None => Seq::<SqlValueView>::empty(),
    }));
    (string_from_chars(sql.as_slice()), values)
}

} // verus!

verus! {

/// The column expression a search is ordered by.
pub open spec fn sort_column(field: SearchSortField) -> Seq<char> {
    match field {
        SearchSortField::Name => "unicode_lower(name)"@,
        SearchSortField::Path => "unicode_lower(normalized_path)"@,
        SearchSortField::Extension => "unicode_lower(extension)"@,
        SearchSortField::Size => "size"@,
        SearchSortField::Modified => "modified_ms"@,
    }
}

/// The SQL keyword of a sort direction.
pub open spec fn sort_keyword(direction: SearchSortDirection) -> Seq<char> {
    match direction {
        SearchSortDirection::Asc => "ASC"@,
        SearchSortDirection::Desc => "DESC"@,
    }
}

/// The `ORDER BY` term of a search, with missing values last.
pub open spec fn search_order(query: SearchQuery) -> Seq<char> {
    sort_column(query.sort_by) + " "@ + sort_keyword(query.sort_direction) + " NULLS LAST"@
}

/// The `ORDER BY` term of a search: its column, its direction, `NULLS LAST`.
pub fn order_clause(query: &SearchQuery) -> (r: String)
    ensures
        r@ == search_order(*query),
{
    let column = match query.sort_by {
        SearchSortField::Name => "unicode_lower(name)",
        SearchSortField::Path => "unicode_lower(normalized_path)",
        SearchSortField::Extension => "unicode_lower(extension)",
        SearchSortField::Size => "size",
        SearchSortField::Modified => "modified_ms",
    };
    let direction = match query.sort_direction {
        SearchSortDirection::Asc => "ASC",
        SearchSortDirection::Desc => "DESC",
    };
    let mut out: Vec<char> = Vec::new();
    push_text(&mut out, column);
    push_text(&mut out, " ");
    push_text(&mut out, direction);
    push_text(&mut out, " NULLS LAST");
    string_from_chars(out.as_slice())
}

/// Integer division rounded toward zero, as Rust divides `i64` values.
pub open spec fn div_toward_zero(a: int, b: int) -> int {
    if (a >= 0) == (b > 0) {
        if a >= 0 { a / b } else { (-a) / (-b) }
    } else {
        if a >= 0 { -(a / (-b)) } else { -((-a) / b) }
    }
}

/// The number of pages of `page_size` entries that `total` entries fill:
/// `(total + page_size - 1) / page_size`, or none for no entries.
pub open spec fn page_count(total: int, page_size: int) -> int {
    if total == 0 {
        0
    } else {
        div_toward_zero(total + page_size - 1, page_size)
    }
}

/// The number of pages a search's `total` entries fill.
pub fn total_pages(total: i64, page_size: i64) -> (r: i64)
    requires
        total >= 0,
        total > 0 ==> page_size != 0 && total + page_size <= i64::MAX,
    ensures
        r == page_count(total as int, page_size as int),
{
    if total == 0 {
        0
    } else {
        let n = total + page_size - 1;
        proof {
            lemma_quotient_bounds(n as int, page_size as int);
        }
        n.checked_div(page_size).unwrap()
    }
}

proof fn lemma_quotient_bounds(x: int, d: int)
    requires
        d != 0,
        i64::MIN <= x <= i64::MAX,
        i64::MIN <= d <= i64::MAX,
        x >= d || x >= 0,
    ensures
        i64::MIN <= div_toward_zero(x, d) <= i64::MAX,
{
    if x >= 0 && d > 0 {
        assert(0 <= x / d <= x) by (nonlinear_arith)
            requires
                x >= 0,
                d > 0,
        ;
    } else if x < 0 && d < 0 {
        assert(0 <= (-x) / (-d) <= 1) by (nonlinear_arith)
            requires
                x < 0,
                d < 0,
                x >= d,
        ;
    } else if x >= 0 && d < 0 {
        assert(0 <= x / (-d) <= x) by (nonlinear_arith)
            requires
                x >= 0,
                d < 0,
        ;
    } else {
        assert(0 <= (-x) / d <= -x) by (nonlinear_arith)
            requires
                x < 0,
                d > 0,
        ;
    }
}

/// The pages hold every entry, and the last page is not empty.
pub proof fn lemma_pages_cover_total(total: int, page_size: int)
    requires
        total > 0,
        page_size > 0,
    ensures
        page_count(total, page_size) * page_size >= total,
        (page_count(total, page_size) - 1) * page_size < total,
{
    assert(page_count(total, page_size) == (total + page_size - 1) / page_size);
    let q = (total + page_size - 1) / page_size;
    let r = (total + page_size - 1) % page_size;
    assert(q * page_size + r == total + page_size - 1) by (nonlinear_arith)
        requires
            q == (total + page_size - 1) / page_size,
            r == (total + page_size - 1) % page_size,
            page_size > 0,
    ;
    assert(0 <= r < page_size);
    assert((q - 1) * page_size == q * page_size - page_size) by (nonlinear_arith);
}

/// The number of entries skipped before the requested page.
pub open spec fn page_offset(page: int, page_size: int) -> int {
    (page - 1) * page_size
}

/// The number of entries to skip before a search's page.
pub fn search_offset(query: &SearchQuery) -> (r: i64)
    requires
        i64::MIN <= page_offset(query.page as int, query.page_size as int) <= i64::MAX,
        i64::MIN <= query.page - 1,
    ensures
        r == page_offset(query.page as int, query.page_size as int),
{
    (query.page - 1) * query.page_size
}

/// The statement that counts the entries a search finds.
pub open spec fn count_sql(query: SearchQuery) -> Seq<char> {
    "SELECT COUNT(*) FROM file_entries WHERE "@ + search_where(query)
}

/// The statement that reads one page of the entries a search finds, in the
/// search's order and then by id; its last two placeholders take the page size
/// and the offset.
pub open spec fn entries_sql(query: SearchQuery) -> Seq<char> {
    "SELECT id, normalized_path, name, extension, kind, size, modified_ms\n         FROM file_entries WHERE "@
        + search_where(query) + " ORDER BY "@ + search_order(query)
        + ", id ASC LIMIT ? OFFSET ?"@
}

/// The statement counting a search's entries in the root `root_id`, with its
/// values.
pub fn count_statement(root_id: i64, query: &SearchQuery) -> (r: (String, Vec<SqlValue>))
    ensures
        r.0@ == count_sql(*query),
        sql_values_view(r.1@) == search_values(root_id, *query),
{
    let (where_sql, values) = search_predicates(root_id, query);
    let mut sql: Vec<char> = Vec::new();
    push_text(&mut sql, "SELECT COUNT(*) FROM file_entries WHERE ");
    push_text(&mut sql, where_sql.as_str());
    (string_from_chars(sql.as_slice()), values)
}

/// The statement reading the requested page of a search's entries in the root
/// `root_id`, with its values: those of the search, then the page size and the
/// offset.
pub fn entries_statement(root_id: i64, query: &SearchQuery) -> (r: (String, Vec<SqlValue>))
    requires
        i64::MIN <= page_offset(query.page as int, query.page_size as int) <= i64::MAX,
        i64::MIN <= query.page - 1,
    ensures
        r.0@ == entries_sql(*query),
        sql_values_view(r.1@) == search_values(root_id, *query) + seq![
            SqlValueView::Integer(query.page_size),
            SqlValueView::Integer(page_offset(query.page as int, query.page_size as int) as i64),
        ],
{
    let (where_sql, values) = search_predicates(root_id, query);
    let order_sql = order_clause(query);
    let offset = search_offset(query);
    let mut sql: Vec<char> = Vec::new();
    push_text(&mut sql, "SELECT id, normalized_path, name, extension, kind, size, modified_ms\n         FROM file_entries WHERE ");
    push_text(&mut sql, where_sql.as_str());
    push_text(&mut sql, " ORDER BY ");
    push_text(&mut sql, order_sql.as_str());
    push_text(&mut sql, ", id ASC LIMIT ? OFFSET ?");
    let mut values = values;
    let ghost before = values@;
    values.push(SqlValue::Integer(query.page_size));
    values.push(SqlValue::Integer(offset));
    assert(values@ == before + seq![SqlValue::Integer(query.page_size), SqlValue::Integer(offset)]);
    assert(sql_values_view(values@) =~= sql_values_view(before) + seq![
        SqlValueView::Integer(query.page_size),
        SqlValueView::Integer(offset),
    ]);
    (string_from_chars(sql.as_slice()), values)
}

/// The result page for the entries found: it repeats the query's page and page
/// size and counts the pages that `total` entries fill.
pub fn search_result(entries: Vec<SearchEntry>, total: i64, query: &SearchQuery) -> (r: SearchResult)
    requires
        total >= 0,
        total > 0 ==> query.page_size != 0 && total + query.page_size <= i64::MAX,
    ensures
        r.entries == entries,
        r.total == total,
        r.page == query.page,
        r.page_size == query.page_size,
        r.total_pages == page_count(total as int, query.page_size as int),
{
    SearchResult {
        entries,
        total,
        page: query.page,
        page_size: query.page_size,
        total_pages: total_pages(total, query.page_size),
    }
}

/// The result of a search in a root that is not indexed: no entries, no pages.
pub fn empty_search_result(query: &SearchQuery) -> (r: SearchResult)
    ensures
        r.entries@.len() == 0,
        r.total == 0,
        r.page == query.page,
        r.page_size == query.page_size,
        r.total_pages == 0,
{
    search_result(Vec::new(), 0, query)
}

/// `path` with every `\` replaced by `/`.
pub open spec fn forward_slashes(path: Seq<char>) -> Seq<char> {
    path.map_values(|c: char| if c == '\\' { '/' } else { c })
}

/// The explorer's form of a parent path: separators written as `/`.
pub fn explorer_parent_path(parent_path: &str) -> (r: String)
    ensures
        r@ == forward_slashes(parent_path@),
{
    let n = parent_path.unicode_len();
    let mut out: Vec<char> = Vec::new();
    let mut i: usize = 0;
    while i < n
        invariant
            n == parent_path@.len(),
            i <= n,
            out@ == forward_slashes(parent_path@.take(i as int)),
        decreases n - i,
    {
        let c = parent_path.get_char(i);
        out.push(if c == '\\' { '/' } else { c });
        assert(parent_path@.take((i + 1) as int) == parent_path@.take(i as int).push(c));
        i = i + 1;
    }
    assert(parent_path@.take(n as int) == parent_path@);
    string_from_chars(out.as_slice())
}

/// An explorer node, kept only when it is a file.
pub fn only_file(node: Option<ExplorerNode>) -> (r: Option<ExplorerNode>)
    ensures
        r == (match node {
            Some(n) => if n.kind@ == "file"@ { Some(n) } else { None },
            None => None,
        }),
{
    match node {
        Some(n) => {
            if crate::text::str_equal(n.kind.as_str(), "file") {
                Some(n)
            } else {
                None
            }
        },
        None => None,
    }
}

} // verus!
