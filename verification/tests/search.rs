use knowledge_index::search::{
    count_statement, entries_statement, empty_search_result, explorer_parent_path, only_file, order_clause, search_offset,
    search_predicates, search_result, total_pages, ExplorerNode, SearchQuery, SearchSortDirection,
    SearchSortField, SqlValue,
};

fn query() -> SearchQuery {
    SearchQuery {
        root_path: "root".into(),
        query: String::new(),
        extension: None,
        min_size: None,
        max_size: None,
        modified_after: None,
        modified_before: None,
        sort_by: SearchSortField::Name,
        sort_direction: SearchSortDirection::Asc,
        page: 1,
        page_size: 50,
    }
}

fn node(kind: &str) -> ExplorerNode {
    ExplorerNode {
        id: 1,
        normalized_path: "C:/root/a".into(),
        name: "a".into(),
        extension: None,
        kind: kind.into(),
        size: 0,
        modified_ms: None,
        has_children: false,
    }
}

#[test]
fn root_only_search_has_one_predicate() {
    let (sql, values) = search_predicates(7, &query());
    assert_eq!(sql, "root_id = ?");
    assert_eq!(values, vec![SqlValue::Integer(7)]);
}

#[test]
fn every_filter_adds_its_predicate_in_order() {
    let mut q = query();
    q.query = "pdf".into();
    q.extension = Some("pdf".into());
    q.min_size = Some(10);
    q.max_size = Some(20);
    q.modified_after = Some(1);
    q.modified_before = Some(2);
    let (sql, values) = search_predicates(3, &q);
    assert_eq!(
        sql,
        "root_id = ? AND (unicode_lower(name) LIKE ? OR unicode_lower(normalized_path) LIKE ?) AND unicode_lower(COALESCE(extension, '')) = ? AND size >= ? AND size <= ? AND modified_ms >= ? AND modified_ms <= ?"
    );
    assert_eq!(
        values,
        vec![
            SqlValue::Integer(3),
            SqlValue::Text("%pdf%".into()),
            SqlValue::Text("%pdf%".into()),
            SqlValue::Text("pdf".into()),
            SqlValue::Integer(10),
            SqlValue::Integer(20),
            SqlValue::Integer(1),
            SqlValue::Integer(2),
        ]
    );
}

#[test]
fn order_clause_names_column_and_direction() {
    let mut q = query();
    assert_eq!(order_clause(&q), "unicode_lower(name) ASC NULLS LAST");
    q.sort_by = SearchSortField::Modified;
    q.sort_direction = SearchSortDirection::Desc;
    assert_eq!(order_clause(&q), "modified_ms DESC NULLS LAST");
    q.sort_by = SearchSortField::Path;
    assert_eq!(order_clause(&q), "unicode_lower(normalized_path) DESC NULLS LAST");
    q.sort_by = SearchSortField::Extension;
    assert_eq!(order_clause(&q), "unicode_lower(extension) DESC NULLS LAST");
    q.sort_by = SearchSortField::Size;
    assert_eq!(order_clause(&q), "size DESC NULLS LAST");
}

#[test]
fn pages_round_up() {
    assert_eq!(total_pages(2, 1), 2);
    assert_eq!(total_pages(5, 2), 3);
    assert_eq!(total_pages(4, 2), 2);
    assert_eq!(total_pages(0, 0), 0);
    assert_eq!(total_pages(1, 50), 1);
    assert_eq!(total_pages(5, -2), -1);
}

#[test]
fn offsets_skip_earlier_pages() {
    let mut q = query();
    assert_eq!(search_offset(&q), 0);
    q.page = 3;
    q.page_size = 10;
    assert_eq!(search_offset(&q), 20);
}

#[test]
fn results_carry_the_paging() {
    let mut q = query();
    q.page_size = 1;
    let result = search_result(Vec::new(), 2, &q);
    assert_eq!(result.total, 2);
    assert_eq!(result.total_pages, 2);
    assert_eq!(result.page, 1);
    let empty = empty_search_result(&query());
    assert_eq!(empty.total, 0);
    assert_eq!(empty.total_pages, 0);
    assert_eq!(empty.page_size, 50);
    assert!(empty.entries.is_empty());
}

#[test]
fn explorer_parents_use_forward_slashes() {
    assert_eq!(explorer_parent_path("C:\\root\\Alpha"), "C:/root/Alpha");
    assert_eq!(explorer_parent_path("C:/root"), "C:/root");
}

#[test]
fn only_files_resolve() {
    assert_eq!(only_file(Some(node("file"))), Some(node("file")));
    assert_eq!(only_file(Some(node("directory"))), None);
    assert_eq!(only_file(None), None);
}

#[test]
fn statements_count_and_page_the_search() {
    let mut q = query();
    q.query = "a".into();
    q.sort_by = SearchSortField::Size;
    q.sort_direction = SearchSortDirection::Desc;
    q.page = 3;
    q.page_size = 20;
    let (count_sql, count_values) = count_statement(9, &q);
    let (where_sql, values) = search_predicates(9, &q);
    assert_eq!(count_sql, format!("SELECT COUNT(*) FROM file_entries WHERE {where_sql}"));
    assert_eq!(count_values, values);
    let (entries_sql, entry_values) = entries_statement(9, &q);
    assert_eq!(
        entries_sql,
        format!(
            "SELECT id, normalized_path, name, extension, kind, size, modified_ms
         FROM file_entries WHERE {where_sql} ORDER BY size DESC NULLS LAST, id ASC LIMIT ? OFFSET ?"
        )
    );
    let mut expected = values;
    expected.push(SqlValue::Integer(20));
    expected.push(SqlValue::Integer(40));
    assert_eq!(entry_values, expected);
}
