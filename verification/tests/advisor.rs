use sqlite_handbook::index_advisor::{index_columns, rank_by_key, IndexDesigner, QueryPattern, MAX_INDEX_COLUMNS};

#[test]
fn rank_is_descending_and_stable() {
    assert_eq!(rank_by_key(&vec![]), Vec::<usize>::new());
    assert_eq!(rank_by_key(&vec![5]), vec![0]);
    assert_eq!(rank_by_key(&vec![1, 3, 2]), vec![1, 2, 0]);
    assert_eq!(rank_by_key(&vec![2, 7, 2, 7, 0, 2]), vec![1, 3, 0, 2, 5, 4]);
    assert_eq!(rank_by_key(&vec![4, 4, 4]), vec![0, 1, 2]);
}

#[test]
fn rank_follows_float_order_through_bit_patterns() {
    let sel = [0.25f64, 1.0, 0.0, 0.5, 0.25];
    let keys: Vec<u64> = sel.iter().map(|f| f.to_bits()).collect();
    assert_eq!(rank_by_key(&keys), vec![1, 3, 0, 4, 2]);
}

#[test]
fn index_columns_order_filters_then_fill() {
    let p = QueryPattern::new(
        "SELECT name, email FROM users WHERE status = ? AND city = ?",
        100,
        &["status", "city"],
        &["name", "email", "city", "age", "name"],
    );
    // city is more selective than status
    let cols = index_columns(&p, &vec![10, 20]);
    assert_eq!(cols, vec!["city", "status", "name", "email", "age"]);
}

#[test]
fn index_columns_keep_all_filters_beyond_the_cap() {
    let p = QueryPattern::new("q", 1, &["a", "b", "c", "d", "e", "f"], &["g"]);
    let cols = index_columns(&p, &vec![1, 2, 3, 4, 5, 6]);
    assert_eq!(cols, vec!["f", "e", "d", "c", "b", "a"]);
    assert!(cols.len() > MAX_INDEX_COLUMNS);
}

#[test]
fn index_columns_repeat_selected_duplicates() {
    let p = QueryPattern::new("q", 1, &["a"], &["x", "x", "a", "y", "z", "w"]);
    let cols = index_columns(&p, &vec![0]);
    assert_eq!(cols, vec!["a", "x", "x", "y", "z"]);
}

#[test]
fn designer_records_patterns() {
    let mut d = IndexDesigner::new(42u8, "users");
    assert_eq!(d.table(), "users");
    assert!(d.query_patterns().is_empty());
    d.add_query_pattern("SELECT * FROM users WHERE id = ?", 50, &["id"], &["name"]);
    d.add_query_pattern("SELECT * FROM users WHERE a = ?", 7, &["a", "b"], &[]);
    assert_eq!(*d.conn(), 42);
    let ps = d.query_patterns();
    assert_eq!(ps.len(), 2);
    assert_eq!(ps[0].sql, "SELECT * FROM users WHERE id = ?");
    assert_eq!(ps[0].frequency, 50);
    assert_eq!(ps[0].columns, vec!["id"]);
    assert_eq!(ps[0].select_columns, vec!["name"]);
    assert_eq!(ps[1].columns, vec!["a", "b"]);
    assert!(ps[1].select_columns.is_empty());
}
