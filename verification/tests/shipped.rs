use bewegung::resources::{get_predefined_query, resource_names, Resources};

fn resources() -> Resources {
    Resources {
        current_version: String::from("CURRENT_VERSION"),
        template_menu: String::from("TEMPLATE_MENU"),
        template_breadcrumbs: String::from("<nav>_PAGE_</nav>"),
        template_explore: String::from("TEMPLATE_EXPLORE"),
        template_overview_year: String::from("TEMPLATE_OVERVIEW_YEAR"),
        template_overview_country: String::from("TEMPLATE_OVERVIEW_COUNTRY"),
        template_overview_plain: String::from("TEMPLATE_OVERVIEW_PLAIN"),
        template_trip: String::from("TEMPLATE_TRIP"),
        template_images: String::from("TEMPLATE_IMAGES"),
        template_map: String::from("TEMPLATE_MAP"),
        template_statistics_summary: String::from("TEMPLATE_STATISTICS_SUMMARY"),
        template_statistics_visits: String::from("TEMPLATE_STATISTICS_VISITS"),
        template_statistics_overnights: String::from("TEMPLATE_STATISTICS_OVERNIGHTS"),
        template_statistics_themes: String::from("TEMPLATE_STATISTICS_THEMES"),
        template_dataset: String::from("TEMPLATE_DATASET"),
        template_source: String::from("TEMPLATE_SOURCE"),
        template_about: String::from("TEMPLATE_ABOUT"),
        template_search: String::from("TEMPLATE_SEARCH"),
        template_toolbox_report: String::from("TEMPLATE_TOOLBOX_REPORT"),
        template_toolbox_report_output: String::from("TEMPLATE_TOOLBOX_REPORT_OUTPUT"),
        template_toolbox_input: String::from("TEMPLATE_TOOLBOX_INPUT"),
        query_explore: String::from("SELECT * FROM t WHERE g IN (ParticipantGroup) AND d IN (TripDomain) AND 1=1 /* x */"),
        query_overview_year: String::from("QUERY_OVERVIEW_YEAR"),
        query_overview_country: String::from("QUERY_OVERVIEW_COUNTRY"),
        query_overview_plain: String::from("QUERY_OVERVIEW_PLAIN"),
        query_trip_previous: String::from("prev InnerId = InnerId OuterId = OuterId AND 1=1"),
        query_trip_next: String::from("QUERY_TRIP_NEXT"),
        query_trip_summary: String::from("SELECT * FROM s WHERE OuterId = OuterId OR InnerId = InnerId"),
        query_trip_events: String::from("e.InnerId = e.InnerId; o.OuterId = o.OuterId"),
        query_trip_unique_countries: String::from("QUERY_TRIP_UNIQUE_COUNTRIES"),
        query_trip_border_crossings: String::from("QUERY_TRIP_BORDER_CROSSINGS"),
        query_trip_map_pins_accommodation: String::from("QUERY_TRIP_MAP_PINS_ACCOMMODATION"),
        query_trip_map_pins_overall: String::from("QUERY_TRIP_MAP_PINS_OVERALL"),
        query_trip_immich_desc_search: String::from("QUERY_TRIP_IMMICH_DESC_SEARCH"),
        query_trip_immich_album_name: String::from("QUERY_TRIP_IMMICH_ALBUM_NAME"),
        query_trip_extension_movie: String::from("movie _OUTER_ID_"),
        query_statistics_visits: String::from("WITH x AS (/*a*/) SELECT\n    Country,\n    OL,\n    SS,\n    VSS,\n    PS,\n    OLMQ,\n    SSMQ,\n    VSSMQ,\n    PSMQ\nFROM Aggregated\nORDER BY OL DESC;"),
        query_statistics_overnights: String::from("QUERY_STATISTICS_OVERNIGHTS"),
        query_statistics_per_domain_year: String::from("QUERY_STATISTICS_PER_DOMAIN_YEAR"),
        query_statistics_theme_count: String::from("QUERY_STATISTICS_THEME_COUNT"),
        query_statistics_trip_count: String::from("QUERY_STATISTICS_TRIP_COUNT"),
        query_common_participant_groups: String::from("QUERY_COMMON_PARTICIPANT_GROUPS"),
        query_common_trip_domains: String::from("QUERY_COMMON_TRIP_DOMAINS"),
        query_common_trip_labels: String::from("QUERY_COMMON_TRIP_LABELS"),
        query_images_date_list: String::from("dates /*_OUTER_ID_*/"),
        query_images_photo_time: String::from("QUERY_IMAGES_PHOTO_TIME"),
        query_map_contour: String::from("QUERY_MAP_CONTOUR"),
        query_map_country: String::from("country _COUNTRY_ (TripDomain)"),
        query_map_country_list: String::from("QUERY_MAP_COUNTRY_LIST"),
        query_map_theme: String::from("theme _THEME_"),
        query_search_event: String::from("QUERY_SEARCH_EVENT"),
        query_search_trip: String::from("search /*_STRING_*/ 1=1"),
        query_report_all_overview: String::from("QUERY_REPORT_ALL_OVERVIEW"),
        query_report_all_events: String::from("QUERY_REPORT_ALL_EVENTS"),
        chart_js: String::from("CHART_JS"),
    }
}

#[test]
fn predefined_queries_by_name() {
    let r = resources();
    assert_eq!(get_predefined_query(&r, "QUERY_MAP_THEME").as_deref(), Some("theme _THEME_"));
    assert_eq!(get_predefined_query(&r, "CHART_JS").as_deref(), Some("CHART_JS"));
    assert_eq!(get_predefined_query(&r, "TEMPLATE_MENU").as_deref(), Some("TEMPLATE_MENU"));
    assert_eq!(get_predefined_query(&r, "query_map_theme"), None);
    assert_eq!(get_predefined_query(&r, ""), None);
    assert_eq!(r.chart_js(), "CHART_JS");
}

#[test]
fn names_in_declaration_order() {
    let n = resource_names(&resources());
    assert_eq!(n.len(), 55);
    assert_eq!(n[1], "TEMPLATE_MENU");
    assert_eq!(n[21], "QUERY_EXPLORE");
}

#[test]
fn templates_with_breadcrumbs() {
    let t = resources().template_sources();
    assert_eq!(t.len(), 20);
    assert_eq!(t[0], ("menu".to_string(), "TEMPLATE_MENU".to_string()));
    assert_eq!(t[3], ("overview_year".to_string(), "<nav>overview:year</nav>TEMPLATE_OVERVIEW_YEAR".to_string()));
    assert_eq!(t[12], ("report".to_string(), "<nav>report</nav>TEMPLATE_TOOLBOX_REPORT".to_string()));
    assert_eq!(t[19], ("toolbox".to_string(), "TEMPLATE_TOOLBOX_INPUT".to_string()));
}
