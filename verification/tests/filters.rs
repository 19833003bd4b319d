use bewegung::sql_filter::{
    apply_filters, format_sql_in, trip_label_filter, FilterObject, FilterValue, SqlFilterReplace,
};
use bewegung::text_map::TextMap;

fn list(items: &[Option<&str>]) -> FilterValue {
    FilterValue::List(items.iter().map(|o| o.map(|s| s.to_string())).collect())
}

#[test]
fn sql_in_quotes_and_escapes() {
    assert_eq!(format_sql_in(&list(&[Some("a"), Some("O'Brien")]), "(X)"), "('a','O''Brien')");
    assert_eq!(format_sql_in(&list(&[Some("only")]), "(X)"), "('only')");
}

#[test]
fn sql_in_falls_back_without_a_selection() {
    assert_eq!(format_sql_in(&FilterValue::Other, "(TripDomain)"), "(TripDomain)");
    assert_eq!(format_sql_in(&list(&[]), "(TripDomain)"), "(TripDomain)");
    // A non-empty list without text items gives an empty SQL list.
    assert_eq!(format_sql_in(&list(&[None, None]), "(TripDomain)"), "()");
}

#[test]
fn label_filter_joins_conditions() {
    assert_eq!(trip_label_filter(&FilterValue::Other), "1=1");
    assert_eq!(trip_label_filter(&list(&[])), "1=1");
    assert_eq!(
        trip_label_filter(&list(&[Some("a"), None, Some("b'c")])),
        "((',' || REPLACE(TripLabels,' ','') || ',') LIKE '%,a,%' AND (',' || REPLACE(TripLabels,' ','') || ',') LIKE '%,b''c,%')"
    );
}

#[test]
fn apply_filters_strips_comments_and_replaces() {
    let q = "SELECT /* a */ 1 WHERE g IN (ParticipantGroup) AND d IN (TripDomain) AND 1=1 AND 1=1";
    assert_eq!(
        apply_filters(q, "('x')", "('y')", "L"),
        "SELECT  a  1 WHERE g IN ('x') AND d IN ('y') AND L AND L"
    );
    // With every placeholder left as it is, only the comment markers go.
    assert_eq!(
        apply_filters(q, "(ParticipantGroup)", "(TripDomain)", "1=1"),
        q.replace("/*", "").replace("*/", "")
    );
}

#[test]
fn escaped_values_unescape_to_themselves() {
    for v in ["", "'", "''", "a'b", "it's 'quoted'", "x"] {
        let quoted = format_sql_in(&list(&[Some(v)]), "");
        let inner = &quoted[2..quoted.len() - 2];
        assert_eq!(inner.replace("''", "'"), v);
    }
}

fn groups() -> FilterObject {
    let mut g: FilterObject = TextMap::new();
    g.insert("TripDomain".to_string(), list(&[Some("Work"), Some("Fun")]));
    g.insert("ParticipantGroup".to_string(), list(&[]));
    g
}

#[test]
fn replace_filter_uses_address_filters() {
    let q = "d IN (TripDomain) AND g IN (ParticipantGroup)".to_string();
    assert_eq!(q.clone().replace_filter("(TripDomain)", &groups()), "d IN ('Work','Fun') AND g IN (ParticipantGroup)");
    // An empty list and an unknown placeholder leave the text as it is.
    assert_eq!(q.clone().replace_filter("(ParticipantGroup)", &groups()), q);
    assert_eq!(q.clone().replace_filter("(Other)", &groups()), q);
    assert_eq!(q.clone().replace_filter("(TripDomain)", &TextMap::new()), q);
}

#[test]
fn replace_filter_skips_items_that_are_not_text() {
    let q = "d IN (TripDomain)".to_string();
    let mut g: FilterObject = TextMap::new();
    g.insert("TripDomain".to_string(), list(&[None, Some("Work"), None]));
    assert_eq!(q.clone().replace_filter("(TripDomain)", &g), "d IN ('Work')");
    // A non-empty list with no text item gives an empty SQL list.
    let mut h: FilterObject = TextMap::new();
    h.insert("TripDomain".to_string(), list(&[None, None]));
    assert_eq!(q.clone().replace_filter("(TripDomain)", &h), "d IN ()");
    // Something that is not a list leaves the text as it is.
    let mut o: FilterObject = TextMap::new();
    o.insert("TripDomain".to_string(), FilterValue::Other);
    assert_eq!(q.clone().replace_filter("(TripDomain)", &o), q);
}

#[test]
fn replace_filter_order_and_repeat() {
    let q = "d IN (TripDomain) AND g IN (ParticipantGroup) OR d IN (TripDomain)".to_string();
    let mut g: FilterObject = TextMap::new();
    g.insert("TripDomain".to_string(), list(&[Some("Work")]));
    g.insert("ParticipantGroup".to_string(), list(&[Some("A"), Some("B")]));
    let one = q.clone().replace_filter("(TripDomain)", &g).replace_filter("(ParticipantGroup)", &g);
    let two = q.clone().replace_filter("(ParticipantGroup)", &g).replace_filter("(TripDomain)", &g);
    assert_eq!(one, "d IN ('Work') AND g IN ('A','B') OR d IN ('Work')");
    assert_eq!(one, two);
    let once = q.clone().replace_filter("(TripDomain)", &g);
    assert_eq!(once.clone().replace_filter("(TripDomain)", &g), once);
}
