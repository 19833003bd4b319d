use bewegung::pages::{document_title, page_data, page_of, route, AfterLoad, PagePlan, StateValue, TitleSource};
use bewegung::resources::Resources;
use bewegung::sql_filter::{FilterSelection, FilterValue, SqlFilters};

fn resources() -> Resources {
    Resources {
        current_version: String::from("CURRENT_VERSION"),
        template_menu: String::from("TEMPLATE_MENU"),
        template_breadcrumbs: String::from("<nav>_PAGE_</nav>"),
        template_explore: String::from("TEMPLATE_EXPLORE"),
        template_overview_year: String::from("TEMPLATE_OVERVIEW_YEAR"),
        template_overview_country: String::from("TEMPLATE_OVERVIEW_COUNTRY"),
        template_overview_plain: String::from("TEMPLATE_OVERVIEW_PLAIN"),
        template_trip: String::from("TEMPLATE_TRIP"),
        template_images: String::from("TEMPLATE_IMAGES"),
        template_map: String::from("TEMPLATE_MAP"),
        template_statistics_summary: String::from("TEMPLATE_STATISTICS_SUMMARY"),
        template_statistics_visits: String::from("TEMPLATE_STATISTICS_VISITS"),
        template_statistics_overnights: String::from("TEMPLATE_STATISTICS_OVERNIGHTS"),
        template_statistics_themes: String::from("TEMPLATE_STATISTICS_THEMES"),
        template_dataset: String::from("TEMPLATE_DATASET"),
        template_source: String::from("TEMPLATE_SOURCE"),
        template_about: String::from("TEMPLATE_ABOUT"),
        template_search: String::from("TEMPLATE_SEARCH"),
        template_toolbox_report: String::from("TEMPLATE_TOOLBOX_REPORT"),
        template_toolbox_report_output: String::from("TEMPLATE_TOOLBOX_REPORT_OUTPUT"),
        template_toolbox_input: String::from("TEMPLATE_TOOLBOX_INPUT"),
        query_explore: String::from("SELECT * FROM t WHERE g IN (ParticipantGroup) AND d IN (TripDomain) AND 1=1 /* x */"),
        query_overview_year: String::from("QUERY_OVERVIEW_YEAR"),
        query_overview_country: String::from("QUERY_OVERVIEW_COUNTRY"),
        query_overview_plain: String::from("QUERY_OVERVIEW_PLAIN"),
        query_trip_previous: String::from("prev InnerId = InnerId OuterId = OuterId AND 1=1"),
        query_trip_next: String::from("QUERY_TRIP_NEXT"),
        query_trip_summary: String::from("SELECT * FROM s WHERE OuterId = OuterId OR InnerId = InnerId"),
        query_trip_events: String::from("e.InnerId = e.InnerId; o.OuterId = o.OuterId"),
        query_trip_unique_countries: String::from("QUERY_TRIP_UNIQUE_COUNTRIES"),
        query_trip_border_crossings: String::from("QUERY_TRIP_BORDER_CROSSINGS"),
        query_trip_map_pins_accommodation: String::from("QUERY_TRIP_MAP_PINS_ACCOMMODATION"),
        query_trip_map_pins_overall: String::from("QUERY_TRIP_MAP_PINS_OVERALL"),
        query_trip_immich_desc_search: String::from("QUERY_TRIP_IMMICH_DESC_SEARCH"),
        query_trip_immich_album_name: String::from("QUERY_TRIP_IMMICH_ALBUM_NAME"),
        query_trip_extension_movie: String::from("movie _OUTER_ID_"),
        query_statistics_visits: String::from("WITH x AS (/*a*/) SELECT\n    Country,\n    OL,\n    SS,\n    VSS,\n    PS,\n    OLMQ,\n    SSMQ,\n    VSSMQ,\n    PSMQ\nFROM Aggregated\nORDER BY OL DESC;"),
        query_statistics_overnights: String::from("QUERY_STATISTICS_OVERNIGHTS"),
        query_statistics_per_domain_year: String::from("QUERY_STATISTICS_PER_DOMAIN_YEAR"),
        query_statistics_theme_count: String::from("QUERY_STATISTICS_THEME_COUNT"),
        query_statistics_trip_count: String::from("QUERY_STATISTICS_TRIP_COUNT"),
        query_common_participant_groups: String::from("QUERY_COMMON_PARTICIPANT_GROUPS"),
        query_common_trip_domains: String::from("QUERY_COMMON_TRIP_DOMAINS"),
        query_common_trip_labels: String::from("QUERY_COMMON_TRIP_LABELS"),
        query_images_date_list: String::from("dates /*_OUTER_ID_*/"),
        query_images_photo_time: String::from("QUERY_IMAGES_PHOTO_TIME"),
        query_map_contour: String::from("QUERY_MAP_CONTOUR"),
        query_map_country: String::from("country _COUNTRY_ (TripDomain)"),
        query_map_country_list: String::from("QUERY_MAP_COUNTRY_LIST"),
        query_map_theme: String::from("theme _THEME_"),
        query_search_event: String::from("QUERY_SEARCH_EVENT"),
        query_search_trip: String::from("search /*_STRING_*/ 1=1"),
        query_report_all_overview: String::from("QUERY_REPORT_ALL_OVERVIEW"),
        query_report_all_events: String::from("QUERY_REPORT_ALL_EVENTS"),
        chart_js: String::from("CHART_JS"),
    }
}

fn no_filters() -> SqlFilters {
    SqlFilters::from_selection(&FilterSelection {
        participant_group: FilterValue::Other,
        trip_domain: FilterValue::List(vec![]),
        trip_label: FilterValue::Other,
    })
}

fn some_filters() -> SqlFilters {
    SqlFilters::from_selection(&FilterSelection {
        participant_group: FilterValue::List(vec![Some("Family".to_string()), None]),
        trip_domain: FilterValue::List(vec![Some("Work".to_string()), Some("Leisure".to_string())]),
        trip_label: FilterValue::List(vec![Some("ski".to_string())]),
    })
}

fn plan(page: &str) -> PagePlan {
    route(page, &resources(), &no_filters(), true).expect("page")
}

fn query_names(p: &PagePlan) -> Vec<&str> {
    p.queries.iter().map(|(n, _)| n.as_str()).collect()
}

fn query<'a>(p: &'a PagePlan, name: &str) -> &'a str {
    p.queries.iter().find(|(n, _)| n == name).map(|(_, q)| q.as_str()).expect("query")
}

fn title_pointer(p: &PagePlan) -> (String, String) {
    match &p.title {
        TitleSource::Translation { pointer, fallback } => (pointer.clone(), fallback.clone()),
        _ => panic!("not a translated title"),
    }
}

#[test]
fn explore_page_filters_its_query() {
    let p = route("explore", &resources(), &some_filters(), true).unwrap();
    assert_eq!(p.template, "explore");
    assert_eq!(title_pointer(&p), ("/explore/title".to_string(), "Explore".to_string()));
    assert_eq!(query_names(&p), vec!["explore"]);
    assert_eq!(
        query(&p, "explore"),
        "SELECT * FROM t WHERE g IN ('Family') AND d IN ('Work','Leisure') AND ((',' || REPLACE(TripLabels,' ','') || ',') LIKE '%,ski,%')  x "
    );
    assert!(matches!(p.state.as_slice(), [(k, StateValue::CoverPhotos)] if k == "cover_photos_list"));
    assert!(p.after.is_empty());
}

#[test]
fn explore_without_filters_keeps_placeholders() {
    let p = plan("explore");
    assert_eq!(query(&p, "explore"), "SELECT * FROM t WHERE g IN (ParticipantGroup) AND d IN (TripDomain) AND 1=1  x ");
}

#[test]
fn fixed_pages_have_their_templates() {
    let cases = [
        ("overview:year", "overview_year"),
        ("overview:country", "overview_country"),
        ("overview:plain", "overview_plain"),
        ("map", "map"),
        ("statistics:summary", "statistics_summary"),
        ("statistics:visits", "statistics_visits"),
        ("statistics:overnights", "statistics_overnights"),
        ("statistics:themes", "statistics_themes"),
        ("dataset", "dataset"),
        ("source", "source"),
        ("about", "about"),
        ("report", "report"),
        ("input", "toolbox"),
    ];
    for (page, template) in cases {
        assert_eq!(plan(page).template, template, "{page}");
    }
}

#[test]
fn unknown_pages_show_nothing() {
    for page in ["", "Explore", "trip:", "trip::", "images:abc", "map:", "map:region:x", "report:output:only", "nothing"] {
        assert!(route(page, &resources(), &no_filters(), true).is_none(), "{page}");
    }
}

#[test]
fn map_page_runs_contour_map() {
    let p = plan("map");
    assert_eq!(query_names(&p), vec!["map_country_list", "map_data", "common_trip_domains"]);
    assert_eq!(query(&p, "common_trip_domains"), "QUERY_COMMON_TRIP_DOMAINS");
    assert!(matches!(p.after.as_slice(), [AfterLoad::LoadContourMap]));
}

#[test]
fn statistics_summary_counts_countries() {
    let p = plan("statistics:summary");
    assert_eq!(
        query(&p, "statistics_visits"),
        "WITH x AS (a) SELECT COUNT(DISTINCT Country) AS TripCount FROM Aggregated;"
    );
    assert_eq!(query_names(&p), vec!["statistics_visits", "statistics_trip_count", "statistics_per_domain_year", "common_trip_domains"]);
    assert!(matches!(p.after.as_slice(), [AfterLoad::InitializeChart]));
    let v = plan("statistics:visits");
    assert!(query(&v, "statistics_visits").starts_with("WITH x AS (a) SELECT\n    Country,"));
}

#[test]
fn themes_title_comes_from_settings() {
    let p = plan("statistics:themes");
    assert!(matches!(&p.title, TitleSource::Setting { pointer, fallback } if pointer == "/Plugin/Theme/translation" && fallback == "Themes"));
}

#[test]
fn dataset_lists_the_shipped_texts() {
    let p = plan("dataset");
    match &p.state[0] {
        (k, StateValue::Names(names)) => {
            assert_eq!(k, "query_templates");
            assert_eq!(names.len(), 55);
            assert_eq!(names[0], "CURRENT_VERSION");
            assert_eq!(names[54], "CHART_JS");
        },
        _ => panic!("names expected"),
    }
    assert!(matches!(p.after.as_slice(), [AfterLoad::LoadCodeEditor, AfterLoad::InitiateSpreadsheet]));
}

#[test]
fn source_page_tells_whether_a_database_is_stored() {
    let stored = route("source", &resources(), &no_filters(), true).unwrap();
    assert!(matches!(&stored.state[0], (k, StateValue::Text(t)) if k == "db_loaded" && t == "stored"));
    let missing = route("source", &resources(), &no_filters(), false).unwrap();
    assert!(matches!(&missing.state[0], (k, StateValue::Text(t)) if k == "db_loaded" && t == "missing"));
}

#[test]
fn about_and_report_pages_hand_over_values() {
    let a = plan("about");
    assert!(a.queries.is_empty());
    assert!(matches!(&a.state[0], (k, StateValue::UpdateInfo) if k == "update_info"));
    assert!(matches!(&a.state[1], (k, StateValue::Text(t)) if k == "current_version" && t == "CURRENT_VERSION"));
    let r = plan("report");
    assert!(matches!(r.state.as_slice(), [(_, StateValue::DateNow), (_, StateValue::YearNow)]));
    let i = plan("input");
    assert!(matches!(i.after.as_slice(), [AfterLoad::InitCreateTrip]));
}

#[test]
fn trip_page_by_outer_id() {
    let p = plan("trip:T-7");
    assert!(matches!(&p.title, TitleSource::Text(t) if t == "T-7"));
    assert_eq!(query(&p, "trip_summary"), "SELECT * FROM s WHERE OuterId = 'T-7' OR InnerId = InnerId");
    assert_eq!(query(&p, "trip_events"), "e.InnerId = e.InnerId; o.OuterId = 'T-7'");
    assert_eq!(query(&p, "trip_previous"), "prev InnerId = InnerId OuterId = 'T-7' AND 1=1");
    assert_eq!(query(&p, "trip_extension_movie"), "movie T-7");
    assert_eq!(p.queries.len(), 12);
    assert!(matches!(p.after.as_slice(), [AfterLoad::LoadTripMap]));
    // An outer id wins over an inner id.
    let both = plan("trip:A:B");
    assert!(matches!(&both.title, TitleSource::Text(t) if t == "A"));
}

#[test]
fn trip_page_by_inner_id() {
    let p = plan("trip::I-3");
    assert!(matches!(&p.title, TitleSource::Text(t) if t == "I-3"));
    assert_eq!(query(&p, "trip_summary"), "SELECT * FROM s WHERE OuterId = OuterId OR InnerId = 'I-3'");
    assert_eq!(query(&p, "trip_events"), "e.InnerId = 'I-3'; o.OuterId = o.OuterId");
    assert_eq!(p.queries.len(), 11);
    assert!(!query_names(&p).contains(&"trip_extension_movie"));
}

#[test]
fn images_page_needs_id_and_date() {
    let p = plan("images:T-1:2024-05-01");
    assert!(matches!(&p.title, TitleSource::Text(t) if t == "T-1:2024-05-01"));
    assert_eq!(query(&p, "images_date_list"), "dates T-1");
    assert!(matches!(&p.state[0], (k, StateValue::Text(t)) if k == "trip_date" && t == "2024-05-01"));
    assert!(matches!(&p.state[1], (k, StateValue::Text(t)) if k == "trip_id" && t == "T-1"));
}

#[test]
fn map_country_and_theme_pages() {
    let c = route("map:country:SE", &resources(), &some_filters(), true).unwrap();
    assert_eq!(query(&c, "map_data"), "country SE ('Work','Leisure')");
    assert!(matches!(c.after.as_slice(), [AfterLoad::LoadCountryMap]));
    let t = plan("map:theme:castles");
    assert_eq!(query(&t, "map_data"), "theme castles");
    assert_eq!(query_names(&t), vec!["map_country_list", "common_trip_domains", "map_data"]);
    assert!(matches!(t.after.as_slice(), [AfterLoad::LoadThemeMap]));
}

#[test]
fn search_and_report_output_pages() {
    let s = plan("search:rome");
    assert_eq!(query(&s, "search_trip"), "search rome 1=1");
    assert!(matches!(&s.title, TitleSource::Text(t) if t == "rome"));
    let r = plan("report:output:My title:Back:side");
    assert_eq!(r.template, "report_output");
    assert!(matches!(&r.state[0], (k, StateValue::Text(t)) if k == "title_string" && t == "My title"));
    assert!(matches!(&r.state[1], (k, StateValue::Text(t)) if k == "backside_string" && t == "Back:side"));
}

#[test]
fn titles_resolve_with_fallback() {
    let p = plan("explore");
    let d = page_data(p, None);
    assert_eq!(d.title, "Explore");
    let d2 = page_data(plan("overview:year"), Some("Jahre".to_string()));
    assert_eq!(d2.title, "Jahre");
    assert_eq!(d2.template, "overview_year");
    let d3 = page_data(plan("search:x"), Some("ignored".to_string()));
    assert_eq!(d3.title, "x");
    assert_eq!(document_title("Map"), "Map - Immer in Bewegung");
}

#[test]
fn missing_path_means_explore() {
    assert_eq!(page_of(None), "explore");
    assert_eq!(page_of(Some("map".to_string())), "map");
}
