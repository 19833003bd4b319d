use bewegung::results::{cell_kind, db_open_action, record_of, shape_answer, shape_batch, CellKind, DbOpen, QueryAnswer, ResultShape};

fn answer(cols: &[&str], rows: Vec<Vec<i64>>) -> QueryAnswer<i64> {
    QueryAnswer { columns: cols.iter().map(|c| c.to_string()).collect(), rows }
}

#[test]
fn records_map_columns_to_cells() {
    let rec = record_of(&vec!["b".to_string(), "a".to_string(), "b".to_string()], vec![1, 2, 3]);
    assert_eq!(rec.len(), 2);
    assert_eq!(rec.get("a"), Some(&2));
    // A later column of the same name wins.
    assert_eq!(rec.get("b"), Some(&3));
    assert_eq!(rec.key_at(0), "a");
}

#[test]
fn answers_become_records_or_tables() {
    match shape_answer(answer(&["x", "y"], vec![vec![1, 2], vec![3, 4]]), false) {
        ResultShape::Records(recs) => {
            assert_eq!(recs.len(), 2);
            assert_eq!(recs[1].get("y"), Some(&4));
        },
        _ => panic!("records expected"),
    }
    match shape_answer(answer(&["x", "y"], vec![vec![1, 2]]), true) {
        ResultShape::Table { columns, rows } => {
            assert_eq!(columns, vec!["x".to_string(), "y".to_string()]);
            assert_eq!(rows, vec![vec![1, 2]]);
        },
        _ => panic!("table expected"),
    }
}

#[test]
fn a_batch_stands_under_query_names() {
    let batch = shape_batch(
        vec![
            ("second".to_string(), answer(&["v"], vec![vec![1]])),
            ("first".to_string(), answer(&[], vec![])),
            ("second".to_string(), answer(&["v"], vec![vec![9]])),
        ],
        false,
    );
    assert_eq!(batch.len(), 2);
    assert_eq!(batch.key_at(0), "first");
    match batch.get("second") {
        Some(ResultShape::Records(recs)) => assert_eq!(recs[0].get("v"), Some(&9)),
        _ => panic!("records expected"),
    }
    match batch.get("first") {
        Some(ResultShape::Records(recs)) => assert!(recs.is_empty()),
        _ => panic!("records expected"),
    }
}

#[test]
fn the_database_opens_once_from_bytes() {
    assert!(matches!(db_open_action(true, 0), DbOpen::UseOpen));
    assert!(matches!(db_open_action(true, 10), DbOpen::UseOpen));
    assert!(matches!(db_open_action(false, 0), DbOpen::NoDatabase));
    assert!(matches!(db_open_action(false, 10), DbOpen::Open));
}

#[test]
fn cell_kinds_follow_sqlite_type_codes() {
    assert!(matches!(cell_kind(1), CellKind::Integer));
    assert!(matches!(cell_kind(2), CellKind::Float));
    assert!(matches!(cell_kind(3), CellKind::Text));
    assert!(matches!(cell_kind(4), CellKind::Null));
    assert!(matches!(cell_kind(5), CellKind::Null));
}
