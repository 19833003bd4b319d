use bewegung::db_load::{db_step, DbEvent, DbLoad};

fn done(s: DbLoad) -> Vec<u8> {
    match s {
        DbLoad::Done(b) => b,
        _ => panic!("not done"),
    }
}

#[test]
fn a_stored_copy_is_used_as_it_is() {
    assert_eq!(done(db_step(DbLoad::ReadStored, DbEvent::Stored(Some(vec![1, 2])))), vec![1, 2]);
    assert_eq!(done(db_step(DbLoad::ReadStored, DbEvent::Stored(Some(vec![])))), Vec::<u8>::new());
    assert!(matches!(db_step(DbLoad::ReadStored, DbEvent::Stored(None)), DbLoad::FetchPath));
}

#[test]
fn the_server_path_is_trimmed() {
    match db_step(DbLoad::FetchPath, DbEvent::PathText(Some("  db/chronik.sqlite\n".to_string()))) {
        DbLoad::FetchDb(u) => assert_eq!(u, "db/chronik.sqlite"),
        _ => panic!("fetch expected"),
    }
    assert!(done(db_step(DbLoad::FetchPath, DbEvent::PathText(Some(" \t".to_string())))).is_empty());
    assert!(done(db_step(DbLoad::FetchPath, DbEvent::PathText(None))).is_empty());
}

#[test]
fn a_fetched_database_is_stored_then_used() {
    let s = db_step(DbLoad::FetchDb("x".to_string()), DbEvent::DbBytes(Some(vec![7])));
    assert!(matches!(&s, DbLoad::Save(b) if b == &vec![7]));
    assert_eq!(done(db_step(s, DbEvent::Saved(true))), vec![7]);
    assert!(done(db_step(DbLoad::Save(vec![7]), DbEvent::Saved(false))).is_empty());
    assert!(done(db_step(DbLoad::FetchDb("x".to_string()), DbEvent::DbBytes(Some(vec![])))).is_empty());
    assert!(done(db_step(DbLoad::FetchDb("x".to_string()), DbEvent::DbBytes(None))).is_empty());
}

#[test]
fn other_outcomes_leave_the_state() {
    assert!(matches!(db_step(DbLoad::ReadStored, DbEvent::Saved(true)), DbLoad::ReadStored));
    assert_eq!(done(db_step(DbLoad::Done(vec![3]), DbEvent::Stored(None))), vec![3]);
}
