use bewegung::query_params::{encode_search, parse_filter_groups, parse_search, ParamValue, QueryParams};
use bewegung::text::chars_of;
use bewegung::text_map::TextMap;

fn text(p: &QueryParams, k: &str) -> Option<String> {
    match p.get(k) {
        Some(ParamValue::Text(s)) => Some(s.clone()),
        _ => None,
    }
}

fn groups(p: &QueryParams) -> Vec<(String, Vec<String>)> {
    match p.get("f") {
        Some(ParamValue::Groups(g)) => (0..g.len()).map(|i| (g.key_at(i).clone(), g.value_at(i).clone())).collect(),
        _ => panic!("no filter object"),
    }
}

#[test]
fn parse_reads_pairs() {
    let p = parse_search("?path=trip:42&lang=de&empty=&flag");
    assert_eq!(text(&p, "path").as_deref(), Some("trip:42"));
    assert_eq!(text(&p, "lang").as_deref(), Some("de"));
    assert_eq!(text(&p, "empty").as_deref(), Some(""));
    assert_eq!(text(&p, "flag").as_deref(), Some(""));
    assert_eq!(p.len(), 4);
    // Keys come out in ascending order.
    assert_eq!(p.key_at(0), "empty");
    assert_eq!(p.key_at(3), "path");
}

#[test]
fn parse_decodes_percent_escapes() {
    let p = parse_search("?q=a%20b&k%3D=x+y");
    assert_eq!(text(&p, "q").as_deref(), Some("a b"));
    assert_eq!(text(&p, "k=").as_deref(), Some("x+y"));
    // Bytes that are not UTF-8 leave the text as it was.
    let bad = parse_search("?q=%FF");
    assert_eq!(text(&bad, "q").as_deref(), Some("%FF"));
}

#[test]
fn parse_skips_empty_keys_and_keeps_the_last() {
    let p = parse_search("?=x&&a=1&a=2");
    assert_eq!(p.len(), 1);
    assert_eq!(text(&p, "a").as_deref(), Some("2"));
    assert_eq!(parse_search("").len(), 0);
    assert_eq!(parse_search("?").len(), 0);
}

#[test]
fn parse_reads_the_filter_object() {
    let p = parse_search("?f=(TripDomain=Work,%20,Fun;;ParticipantGroup=;bad)");
    assert_eq!(
        groups(&p),
        vec![
            ("ParticipantGroup".to_string(), vec![]),
            ("TripDomain".to_string(), vec!["Work".to_string(), "Fun".to_string()]),
        ]
    );
    let plain = parse_search("?f=none");
    assert_eq!(text(&plain, "f").as_deref(), Some("none"));
    let g = parse_filter_groups(&chars_of("a=1"));
    assert_eq!(g.len(), 1);
}

#[test]
fn encode_writes_in_key_order() {
    let mut p: QueryParams = TextMap::new();
    p.insert("path".to_string(), ParamValue::Text("map".to_string()));
    let mut g = TextMap::new();
    g.insert("TripDomain".to_string(), vec!["Work".to_string(), "Fun".to_string()]);
    g.insert("ParticipantGroup".to_string(), vec!["Kids".to_string()]);
    p.insert("f".to_string(), ParamValue::Groups(g));
    let mut other = TextMap::new();
    other.insert("x".to_string(), vec!["y".to_string()]);
    p.insert("ignored".to_string(), ParamValue::Groups(other));
    assert_eq!(encode_search(&p), "f=(ParticipantGroup=Kids;TripDomain=Work,Fun)&path=map");
    assert_eq!(encode_search(&TextMap::new()), "");
}

#[test]
fn encode_then_parse_gives_the_parameters_back() {
    let mut p: QueryParams = TextMap::new();
    p.insert("path".to_string(), ParamValue::Text("trip:1".to_string()));
    p.insert("lang".to_string(), ParamValue::Text("a=b".to_string()));
    let mut g = TextMap::new();
    g.insert("TripDomain".to_string(), vec!["Work".to_string()]);
    g.insert("Empty".to_string(), vec![]);
    p.insert("f".to_string(), ParamValue::Groups(g));
    let back = parse_search(&format!("?{}", encode_search(&p)));
    assert_eq!(back.len(), 3);
    assert_eq!(text(&back, "path").as_deref(), Some("trip:1"));
    assert_eq!(text(&back, "lang").as_deref(), Some("a=b"));
    assert_eq!(groups(&back), vec![("Empty".to_string(), vec![]), ("TripDomain".to_string(), vec!["Work".to_string()])]);
}
