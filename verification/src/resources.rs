//! The texts that the application ships with: its version, the page
//! templates, the SQL queries and the chart script, each under its name.
use vstd::prelude::*;
use vstd::string::*;
use crate::text::{chars_eq, chars_of, replace_all, spec_replace};

verus! {

/// The shipped texts, one field for each.
pub struct Resources {
    pub current_version: String,
    pub template_menu: String,
    pub template_breadcrumbs: String,
    pub template_explore: String,
    pub template_overview_year: String,
    pub template_overview_country: String,
    pub template_overview_plain: String,
    pub template_trip: String,
    pub template_images: String,
    pub template_map: String,
    pub template_statistics_summary: String,
    pub template_statistics_visits: String,
    pub template_statistics_overnights: String,
    pub template_statistics_themes: String,
    pub template_dataset: String,
    pub template_source: String,
    pub template_about: String,
    pub template_search: String,
    pub template_toolbox_report: String,
    pub template_toolbox_report_output: String,
    pub template_toolbox_input: String,
    pub query_explore: String,
    pub query_overview_year: String,
    pub query_overview_country: String,
    pub query_overview_plain: String,
    pub query_trip_previous: String,
    pub query_trip_next: String,
    pub query_trip_summary: String,
    pub query_trip_events: String,
    pub query_trip_unique_countries: String,
    pub query_trip_border_crossings: String,
    pub query_trip_map_pins_accommodation: String,
    pub query_trip_map_pins_overall: String,
    pub query_trip_immich_desc_search: String,
    pub query_trip_immich_album_name: String,
    pub query_trip_extension_movie: String,
    pub query_statistics_visits: String,
    pub query_statistics_overnights: String,
    pub query_statistics_per_domain_year: String,
    pub query_statistics_theme_count: String,
    pub query_statistics_trip_count: String,
    pub query_common_participant_groups: String,
    pub query_common_trip_domains: String,
    pub query_common_trip_labels: String,
    pub query_images_date_list: String,
    pub query_images_photo_time: String,
    pub query_map_contour: String,
    pub query_map_country: String,
    pub query_map_country_list: String,
    pub query_map_theme: String,
    pub query_search_event: String,
    pub query_search_trip: String,
    pub query_report_all_overview: String,
    pub query_report_all_events: String,
    pub chart_js: String,
}

/// The name of each shipped text, with the text, in the order in which they
/// are declared.
pub open spec fn spec_catalog(r: Resources) -> Seq<(Seq<char>, Seq<char>)> {
    seq![
        ("CURRENT_VERSION"@, r.current_version@),
        ("TEMPLATE_MENU"@, r.template_menu@),
        ("TEMPLATE_BREADCRUMBS"@, r.template_breadcrumbs@),
        ("TEMPLATE_EXPLORE"@, r.template_explore@),
        ("TEMPLATE_OVERVIEW_YEAR"@, r.template_overview_year@),
        ("TEMPLATE_OVERVIEW_COUNTRY"@, r.template_overview_country@),
        ("TEMPLATE_OVERVIEW_PLAIN"@, r.template_overview_plain@),
        ("TEMPLATE_TRIP"@, r.template_trip@),
        ("TEMPLATE_IMAGES"@, r.template_images@),
        ("TEMPLATE_MAP"@, r.template_map@),
        ("TEMPLATE_STATISTICS_SUMMARY"@, r.template_statistics_summary@),
        ("TEMPLATE_STATISTICS_VISITS"@, r.template_statistics_visits@),
        ("TEMPLATE_STATISTICS_OVERNIGHTS"@, r.template_statistics_overnights@),
        ("TEMPLATE_STATISTICS_THEMES"@, r.template_statistics_themes@),
        ("TEMPLATE_DATASET"@, r.template_dataset@),
        ("TEMPLATE_SOURCE"@, r.template_source@),
        ("TEMPLATE_ABOUT"@, r.template_about@),
        ("TEMPLATE_SEARCH"@, r.template_search@),
        ("TEMPLATE_TOOLBOX_REPORT"@, r.template_toolbox_report@),
        ("TEMPLATE_TOOLBOX_REPORT_OUTPUT"@, r.template_toolbox_report_output@),
        ("TEMPLATE_TOOLBOX_INPUT"@, r.template_toolbox_input@),
        ("QUERY_EXPLORE"@, r.query_explore@),
        ("QUERY_OVERVIEW_YEAR"@, r.query_overview_year@),
        ("QUERY_OVERVIEW_COUNTRY"@, r.query_overview_country@),
        ("QUERY_OVERVIEW_PLAIN"@, r.query_overview_plain@),
        ("QUERY_TRIP_PREVIOUS"@, r.query_trip_previous@),
        ("QUERY_TRIP_NEXT"@, r.query_trip_next@),
        ("QUERY_TRIP_SUMMARY"@, r.query_trip_summary@),
        ("QUERY_TRIP_EVENTS"@, r.query_trip_events@),
        ("QUERY_TRIP_UNIQUE_COUNTRIES"@, r.query_trip_unique_countries@),
        ("QUERY_TRIP_BORDER_CROSSINGS"@, r.query_trip_border_crossings@),
        ("QUERY_TRIP_MAP_PINS_ACCOMMODATION"@, r.query_trip_map_pins_accommodation@),
        ("QUERY_TRIP_MAP_PINS_OVERALL"@, r.query_trip_map_pins_overall@),
        ("QUERY_TRIP_IMMICH_DESC_SEARCH"@, r.query_trip_immich_desc_search@),
        ("QUERY_TRIP_IMMICH_ALBUM_NAME"@, r.query_trip_immich_album_name@),
        ("QUERY_TRIP_EXTENSION_MOVIE"@, r.query_trip_extension_movie@),
        ("QUERY_STATISTICS_VISITS"@, r.query_statistics_visits@),
        ("QUERY_STATISTICS_OVERNIGHTS"@, r.query_statistics_overnights@),
        ("QUERY_STATISTICS_PER_DOMAIN_YEAR"@, r.query_statistics_per_domain_year@),
        ("QUERY_STATISTICS_THEME_COUNT"@, r.query_statistics_theme_count@),
        ("QUERY_STATISTICS_TRIP_COUNT"@, r.query_statistics_trip_count@),
        ("QUERY_COMMON_PARTICIPANT_GROUPS"@, r.query_common_participant_groups@),
        ("QUERY_COMMON_TRIP_DOMAINS"@, r.query_common_trip_domains@),
        ("QUERY_COMMON_TRIP_LABELS"@, r.query_common_trip_labels@),
        ("QUERY_IMAGES_DATE_LIST"@, r.query_images_date_list@),
        ("QUERY_IMAGES_PHOTO_TIME"@, r.query_images_photo_time@),
        ("QUERY_MAP_CONTOUR"@, r.query_map_contour@),
        ("QUERY_MAP_COUNTRY"@, r.query_map_country@),
        ("QUERY_MAP_COUNTRY_LIST"@, r.query_map_country_list@),
        ("QUERY_MAP_THEME"@, r.query_map_theme@),
        ("QUERY_SEARCH_EVENT"@, r.query_search_event@),
        ("QUERY_SEARCH_TRIP"@, r.query_search_trip@),
        ("QUERY_REPORT_ALL_OVERVIEW"@, r.query_report_all_overview@),
        ("QUERY_REPORT_ALL_EVENTS"@, r.query_report_all_events@),
        ("CHART_JS"@, r.chart_js@),
    ]
}

/// The text of the first entry named `name`, if there is one.
pub open spec fn spec_find(c: Seq<(Seq<char>, Seq<char>)>, name: Seq<char>) -> Option<Seq<char>>
    decreases c.len(),
{
    if c.len() == 0 {
        None
    } else if c[0].0 == name {
        Some(c[0].1)
    } else {
        spec_find(c.drop_first(), name)
    }
}

/// The characters of each name and text.
pub open spec fn pairs_view(v: Seq<(String, String)>) -> Seq<(Seq<char>, Seq<char>)> {
    v.map_values(|e: (String, String)| (e.0@, e.1@))
}

impl Resources {
    /// Each shipped text under its name, in declaration order.
    pub fn catalog(&self) -> (res: Vec<(String, String)>)
        ensures
            pairs_view(res@) == spec_catalog(*self),
    {
        let mut v: Vec<(String, String)> = Vec::new();
        v.push(("CURRENT_VERSION".to_owned(), self.current_version.clone()));
        v.push(("TEMPLATE_MENU".to_owned(), self.template_menu.clone()));
        v.push(("TEMPLATE_BREADCRUMBS".to_owned(), self.template_breadcrumbs.clone()));
        v.push(("TEMPLATE_EXPLORE".to_owned(), self.template_explore.clone()));
        v.push(("TEMPLATE_OVERVIEW_YEAR".to_owned(), self.template_overview_year.clone()));
        v.push(("TEMPLATE_OVERVIEW_COUNTRY".to_owned(), self.template_overview_country.clone()));
        v.push(("TEMPLATE_OVERVIEW_PLAIN".to_owned(), self.template_overview_plain.clone()));
        v.push(("TEMPLATE_TRIP".to_owned(), self.template_trip.clone()));
        v.push(("TEMPLATE_IMAGES".to_owned(), self.template_images.clone()));
        v.push(("TEMPLATE_MAP".to_owned(), self.template_map.clone()));
        v.push(("TEMPLATE_STATISTICS_SUMMARY".to_owned(), self.template_statistics_summary.clone()));
        v.push(("TEMPLATE_STATISTICS_VISITS".to_owned(), self.template_statistics_visits.clone()));
        v.push(("TEMPLATE_STATISTICS_OVERNIGHTS".to_owned(), self.template_statistics_overnights.clone()));
        v.push(("TEMPLATE_STATISTICS_THEMES".to_owned(), self.template_statistics_themes.clone()));
        v.push(("TEMPLATE_DATASET".to_owned(), self.template_dataset.clone()));
        v.push(("TEMPLATE_SOURCE".to_owned(), self.template_source.clone()));
        v.push(("TEMPLATE_ABOUT".to_owned(), self.template_about.clone()));
        v.push(("TEMPLATE_SEARCH".to_owned(), self.template_search.clone()));
        v.push(("TEMPLATE_TOOLBOX_REPORT".to_owned(), self.template_toolbox_report.clone()));
        v.push(("TEMPLATE_TOOLBOX_REPORT_OUTPUT".to_owned(), self.template_toolbox_report_output.clone()));
        v.push(("TEMPLATE_TOOLBOX_INPUT".to_owned(), self.template_toolbox_input.clone()));
        v.push(("QUERY_EXPLORE".to_owned(), self.query_explore.clone()));
        v.push(("QUERY_OVERVIEW_YEAR".to_owned(), self.query_overview_year.clone()));
        v.push(("QUERY_OVERVIEW_COUNTRY".to_owned(), self.query_overview_country.clone()));
        v.push(("QUERY_OVERVIEW_PLAIN".to_owned(), self.query_overview_plain.clone()));
        v.push(("QUERY_TRIP_PREVIOUS".to_owned(), self.query_trip_previous.clone()));
        v.push(("QUERY_TRIP_NEXT".to_owned(), self.query_trip_next.clone()));
        v.push(("QUERY_TRIP_SUMMARY".to_owned(), self.query_trip_summary.clone()));
        v.push(("QUERY_TRIP_EVENTS".to_owned(), self.query_trip_events.clone()));
        v.push(("QUERY_TRIP_UNIQUE_COUNTRIES".to_owned(), self.query_trip_unique_countries.clone()));
        v.push(("QUERY_TRIP_BORDER_CROSSINGS".to_owned(), self.query_trip_border_crossings.clone()));
        v.push(("QUERY_TRIP_MAP_PINS_ACCOMMODATION".to_owned(), self.query_trip_map_pins_accommodation.clone()));
        v.push(("QUERY_TRIP_MAP_PINS_OVERALL".to_owned(), self.query_trip_map_pins_overall.clone()));
        v.push(("QUERY_TRIP_IMMICH_DESC_SEARCH".to_owned(), self.query_trip_immich_desc_search.clone()));
        v.push(("QUERY_TRIP_IMMICH_ALBUM_NAME".to_owned(), self.query_trip_immich_album_name.clone()));
        v.push(("QUERY_TRIP_EXTENSION_MOVIE".to_owned(), self.query_trip_extension_movie.clone()));
        v.push(("QUERY_STATISTICS_VISITS".to_owned(), self.query_statistics_visits.clone()));
        v.push(("QUERY_STATISTICS_OVERNIGHTS".to_owned(), self.query_statistics_overnights.clone()));
        v.push(("QUERY_STATISTICS_PER_DOMAIN_YEAR".to_owned(), self.query_statistics_per_domain_year.clone()));
        v.push(("QUERY_STATISTICS_THEME_COUNT".to_owned(), self.query_statistics_theme_count.clone()));
        v.push(("QUERY_STATISTICS_TRIP_COUNT".to_owned(), self.query_statistics_trip_count.clone()));
        v.push(("QUERY_COMMON_PARTICIPANT_GROUPS".to_owned(), self.query_common_participant_groups.clone()));
        v.push(("QUERY_COMMON_TRIP_DOMAINS".to_owned(), self.query_common_trip_domains.clone()));
        v.push(("QUERY_COMMON_TRIP_LABELS".to_owned(), self.query_common_trip_labels.clone()));
        v.push(("QUERY_IMAGES_DATE_LIST".to_owned(), self.query_images_date_list.clone()));
        v.push(("QUERY_IMAGES_PHOTO_TIME".to_owned(), self.query_images_photo_time.clone()));
        v.push(("QUERY_MAP_CONTOUR".to_owned(), self.query_map_contour.clone()));
        v.push(("QUERY_MAP_COUNTRY".to_owned(), self.query_map_country.clone()));
        v.push(("QUERY_MAP_COUNTRY_LIST".to_owned(), self.query_map_country_list.clone()));
        v.push(("QUERY_MAP_THEME".to_owned(), self.query_map_theme.clone()));
        v.push(("QUERY_SEARCH_EVENT".to_owned(), self.query_search_event.clone()));
        v.push(("QUERY_SEARCH_TRIP".to_owned(), self.query_search_trip.clone()));
        v.push(("QUERY_REPORT_ALL_OVERVIEW".to_owned(), self.query_report_all_overview.clone()));
        v.push(("QUERY_REPORT_ALL_EVENTS".to_owned(), self.query_report_all_events.clone()));
        v.push(("CHART_JS".to_owned(), self.chart_js.clone()));
        assert(pairs_view(v@) =~= spec_catalog(*self));
        v
    }

    /// The chart script.
    pub fn chart_js(&self) -> (res: String)
        ensures
            res@ == self.chart_js@,
    {
        self.chart_js.clone()
    }
}

/// The text of the first entry of `c` named `name`.
pub fn find_in(c: &Vec<(String, String)>, name: &str) -> (res: Option<String>)
    ensures
        res is Some == spec_find(pairs_view(c@), name@) is Some,
        res is Some ==> res->0@ == spec_find(pairs_view(c@), name@)->0,
{
    let nv = chars_of(name);
    let n = c.len();
    let mut i: usize = 0;
    assert(pairs_view(c@).skip(0) =~= pairs_view(c@));
    while i < n
        invariant
            n == c@.len(),
            nv@ == name@,
            i <= n,
            spec_find(pairs_view(c@), name@) == spec_find(pairs_view(c@).skip(i as int), name@),
        decreases n - i,
    {
        let ghost rest = pairs_view(c@).skip(i as int);
        assert(rest.drop_first() =~= pairs_view(c@).skip(i + 1));
        assert(rest[0] == (c@[i as int].0@, c@[i as int].1@));
        let kv = chars_of(c[i].0.as_str());
        if chars_eq(kv.as_slice(), nv.as_slice()) {
            return Some(c[i].1.clone());
        }
        i = i + 1;
    }
    None
}

/// The shipped text named `name` (a query, a template, the version or the
/// chart script), if there is one.
pub fn get_predefined_query(r: &Resources, name: &str) -> (res: Option<String>)
    ensures
        res is Some == spec_find(spec_catalog(*r), name@) is Some,
        res is Some ==> res->0@ == spec_find(spec_catalog(*r), name@)->0,
{
    let c = r.catalog();
    find_in(&c, name)
}

/// The names of the shipped texts, in declaration order.
pub fn resource_names(r: &Resources) -> (res: Vec<String>)
    ensures
        res@.len() == spec_catalog(*r).len(),
        forall|i: int| 0 <= i < res@.len() ==> (#[trigger] res@[i])@ == spec_catalog(*r)[i].0,
{
    let c = r.catalog();
    let mut out: Vec<String> = Vec::new();
    for i in 0..c.len()
        invariant
            pairs_view(c@) == spec_catalog(*r),
            out@.len() == i,
            forall|k: int| 0 <= k < i ==> (#[trigger] out@[k])@ == spec_catalog(*r)[k].0,
    {
        assert(pairs_view(c@)[i as int] == (c@[i as int].0@, c@[i as int].1@));
        out.push(c[i].0.clone());
    }
    out
}

/// A page template preceded by the breadcrumbs, in which `_PAGE_` names the page.
pub open spec fn with_crumbs(r: Resources, page: Seq<char>, body: Seq<char>) -> Seq<char> {
    spec_replace(r.template_breadcrumbs@, "_PAGE_"@, page) + body
}

/// The templates to register, each under its name, in registration order.
pub open spec fn spec_templates(r: Resources) -> Seq<(Seq<char>, Seq<char>)> {
    seq![
        ("menu"@, r.template_menu@),
        ("breadcrumbs"@, r.template_breadcrumbs@),
        ("explore"@, with_crumbs(r, "explore"@, r.template_explore@)),
        ("overview_year"@, with_crumbs(r, "overview:year"@, r.template_overview_year@)),
        ("overview_country"@, with_crumbs(r, "overview:country"@, r.template_overview_country@)),
        ("overview_plain"@, with_crumbs(r, "overview:plain"@, r.template_overview_plain@)),
        ("statistics_summary"@, with_crumbs(r, "statistics:summary"@, r.template_statistics_summary@)),
        ("statistics_visits"@, with_crumbs(r, "statistics:visits"@, r.template_statistics_visits@)),
        ("statistics_overnights"@, with_crumbs(r, "statistics:overnights"@, r.template_statistics_overnights@)),
        ("statistics_themes"@, with_crumbs(r, "statistics:themes"@, r.template_statistics_themes@)),
        ("source"@, with_crumbs(r, "source"@, r.template_source@)),
        ("about"@, with_crumbs(r, "about"@, r.template_about@)),
        ("report"@, with_crumbs(r, "report"@, r.template_toolbox_report@)),
        ("trip"@, r.template_trip@),
        ("images"@, r.template_images@),
        ("map"@, r.template_map@),
        ("dataset"@, r.template_dataset@),
        ("search"@, r.template_search@),
        ("report_output"@, r.template_toolbox_report_output@),
        ("toolbox"@, r.template_toolbox_input@),
    ]
}

impl Resources {
    /// The breadcrumbs for `page`, followed by `body`.
    fn crumbs(&self, page: &str, body: &String) -> (res: String)
        ensures
            res@ == with_crumbs(*self, page@, body@),
    {
        let mut s = replace_all(self.template_breadcrumbs.as_str(), "_PAGE_", page);
        s.append(body.as_str());
        s
    }

    /// The templates to register, each under its name: the page templates
    /// that show breadcrumbs get them in front.
    pub fn template_sources(&self) -> (res: Vec<(String, String)>)
        ensures
            pairs_view(res@) == spec_templates(*self),
    {
        let mut v: Vec<(String, String)> = Vec::new();
        v.push(("menu".to_owned(), self.template_menu.clone()));
        v.push(("breadcrumbs".to_owned(), self.template_breadcrumbs.clone()));
        v.push(("explore".to_owned(), self.crumbs("explore", &self.template_explore)));
        v.push(("overview_year".to_owned(), self.crumbs("overview:year", &self.template_overview_year)));
        v.push(("overview_country".to_owned(), self.crumbs("overview:country", &self.template_overview_country)));
        v.push(("overview_plain".to_owned(), self.crumbs("overview:plain", &self.template_overview_plain)));
        v.push(("statistics_summary".to_owned(), self.crumbs("statistics:summary", &self.template_statistics_summary)));
        v.push(("statistics_visits".to_owned(), self.crumbs("statistics:visits", &self.template_statistics_visits)));
        v.push(("statistics_overnights".to_owned(), self.crumbs("statistics:overnights", &self.template_statistics_overnights)));
        v.push(("statistics_themes".to_owned(), self.crumbs("statistics:themes", &self.template_statistics_themes)));
        v.push(("source".to_owned(), self.crumbs("source", &self.template_source)));
        v.push(("about".to_owned(), self.crumbs("about", &self.template_about)));
        v.push(("report".to_owned(), self.crumbs("report", &self.template_toolbox_report)));
        v.push(("trip".to_owned(), self.template_trip.clone()));
        v.push(("images".to_owned(), self.template_images.clone()));
        v.push(("map".to_owned(), self.template_map.clone()));
        v.push(("dataset".to_owned(), self.template_dataset.clone()));
        v.push(("search".to_owned(), self.template_search.clone()));
        v.push(("report_output".to_owned(), self.template_toolbox_report_output.clone()));
        v.push(("toolbox".to_owned(), self.template_toolbox_input.clone()));
        assert(pairs_view(v@) =~= spec_templates(*self));
        v
    }
}

/// No entry of `c` before position `i` is named `n`.
pub open spec fn absent_before(c: Seq<(Seq<char>, Seq<char>)>, n: Seq<char>, i: nat) -> bool
    decreases i,
{
    if i == 0 {
        true
    } else {
        absent_before(c, n, (i - 1) as nat) && c[i - 1].0 != n
    }
}

/// The first entry named `n` is the one at `i` when no earlier entry has that name.
pub proof fn lemma_find_at(c: Seq<(Seq<char>, Seq<char>)>, n: Seq<char>, i: int)
    requires
        0 <= i < c.len(),
        c[i].0 == n,
        forall|j: int| 0 <= j < i ==> #[trigger] c[j].0 != n,
    ensures
        spec_find(c, n) == Some(c[i].1),
    decreases i,
{
    if i > 0 {
        assert(c[0].0 != n);
        let d = c.drop_first();
        assert forall|j: int| 0 <= j < i - 1 implies #[trigger] d[j].0 != n by {
            assert(d[j] == c[j + 1]);
        }
        lemma_find_at(d, n, i - 1);
    }
}

/// An entry before position `i` is not named `n` when none is.
proof fn lemma_absent_before(c: Seq<(Seq<char>, Seq<char>)>, n: Seq<char>, i: nat, j: int)
    requires
        absent_before(c, n, i),
        0 <= j < i,
    ensures
        c[j].0 != n,
    decreases i,
{
    if j < i - 1 {
        lemma_absent_before(c, n, (i - 1) as nat, j);
    }
}

/// The first entry named `n` is the one at `i` when no earlier entry has that name,
/// checked one entry after another.
pub proof fn lemma_named_at(c: Seq<(Seq<char>, Seq<char>)>, n: Seq<char>, i: nat)
    requires
        i < c.len(),
        c[i as int].0 == n,
        absent_before(c, n, i),
    ensures
        spec_find(c, n) == Some(c[i as int].1),
{
    assert forall|j: int| 0 <= j < i implies #[trigger] c[j].0 != n by {
        lemma_absent_before(c, n, i, j);
    }
    lemma_find_at(c, n, i as int);
}

/// Each shipped text is found under its own name: looking up the name of a
/// query, a template, the version or the chart script gives that text.
#[verifier::spinoff_prover]
#[verifier::rlimit(100)]
pub proof fn law_each_text_under_its_name(r: Resources)
    ensures
        spec_find(spec_catalog(r), "CURRENT_VERSION"@) == Some(r.current_version@),
        spec_find(spec_catalog(r), "TEMPLATE_MENU"@) == Some(r.template_menu@),
        spec_find(spec_catalog(r), "TEMPLATE_BREADCRUMBS"@) == Some(r.template_breadcrumbs@),
        spec_find(spec_catalog(r), "TEMPLATE_EXPLORE"@) == Some(r.template_explore@),
        spec_find(spec_catalog(r), "TEMPLATE_OVERVIEW_YEAR"@) == Some(r.template_overview_year@),
        spec_find(spec_catalog(r), "TEMPLATE_OVERVIEW_COUNTRY"@) == Some(r.template_overview_country@),
        spec_find(spec_catalog(r), "TEMPLATE_OVERVIEW_PLAIN"@) == Some(r.template_overview_plain@),
        spec_find(spec_catalog(r), "TEMPLATE_TRIP"@) == Some(r.template_trip@),
        spec_find(spec_catalog(r), "TEMPLATE_IMAGES"@) == Some(r.template_images@),
        spec_find(spec_catalog(r), "TEMPLATE_MAP"@) == Some(r.template_map@),
        spec_find(spec_catalog(r), "TEMPLATE_STATISTICS_SUMMARY"@) == Some(r.template_statistics_summary@),
        spec_find(spec_catalog(r), "TEMPLATE_STATISTICS_VISITS"@) == Some(r.template_statistics_visits@),
        spec_find(spec_catalog(r), "TEMPLATE_STATISTICS_OVERNIGHTS"@) == Some(r.template_statistics_overnights@),
        spec_find(spec_catalog(r), "TEMPLATE_STATISTICS_THEMES"@) == Some(r.template_statistics_themes@),
        spec_find(spec_catalog(r), "TEMPLATE_DATASET"@) == Some(r.template_dataset@),
        spec_find(spec_catalog(r), "TEMPLATE_SOURCE"@) == Some(r.template_source@),
        spec_find(spec_catalog(r), "TEMPLATE_ABOUT"@) == Some(r.template_about@),
        spec_find(spec_catalog(r), "TEMPLATE_SEARCH"@) == Some(r.template_search@),
        spec_find(spec_catalog(r), "TEMPLATE_TOOLBOX_REPORT"@) == Some(r.template_toolbox_report@),
        spec_find(spec_catalog(r), "TEMPLATE_TOOLBOX_REPORT_OUTPUT"@) == Some(r.template_toolbox_report_output@),
        spec_find(spec_catalog(r), "TEMPLATE_TOOLBOX_INPUT"@) == Some(r.template_toolbox_input@),
        spec_find(spec_catalog(r), "QUERY_EXPLORE"@) == Some(r.query_explore@),
        spec_find(spec_catalog(r), "QUERY_OVERVIEW_YEAR"@) == Some(r.query_overview_year@),
        spec_find(spec_catalog(r), "QUERY_OVERVIEW_COUNTRY"@) == Some(r.query_overview_country@),
        spec_find(spec_catalog(r), "QUERY_OVERVIEW_PLAIN"@) == Some(r.query_overview_plain@),
        spec_find(spec_catalog(r), "QUERY_TRIP_PREVIOUS"@) == Some(r.query_trip_previous@),
        spec_find(spec_catalog(r), "QUERY_TRIP_NEXT"@) == Some(r.query_trip_next@),
        spec_find(spec_catalog(r), "QUERY_TRIP_SUMMARY"@) == Some(r.query_trip_summary@),
        spec_find(spec_catalog(r), "QUERY_TRIP_EVENTS"@) == Some(r.query_trip_events@),
        spec_find(spec_catalog(r), "QUERY_TRIP_UNIQUE_COUNTRIES"@) == Some(r.query_trip_unique_countries@),
        spec_find(spec_catalog(r), "QUERY_TRIP_BORDER_CROSSINGS"@) == Some(r.query_trip_border_crossings@),
        spec_find(spec_catalog(r), "QUERY_TRIP_MAP_PINS_ACCOMMODATION"@) == Some(r.query_trip_map_pins_accommodation@),
        spec_find(spec_catalog(r), "QUERY_TRIP_MAP_PINS_OVERALL"@) == Some(r.query_trip_map_pins_overall@),
        spec_find(spec_catalog(r), "QUERY_TRIP_IMMICH_DESC_SEARCH"@) == Some(r.query_trip_immich_desc_search@),
        spec_find(spec_catalog(r), "QUERY_TRIP_IMMICH_ALBUM_NAME"@) == Some(r.query_trip_immich_album_name@),
        spec_find(spec_catalog(r), "QUERY_TRIP_EXTENSION_MOVIE"@) == Some(r.query_trip_extension_movie@),
        spec_find(spec_catalog(r), "QUERY_STATISTICS_VISITS"@) == Some(r.query_statistics_visits@),
        spec_find(spec_catalog(r), "QUERY_STATISTICS_OVERNIGHTS"@) == Some(r.query_statistics_overnights@),
        spec_find(spec_catalog(r), "QUERY_STATISTICS_PER_DOMAIN_YEAR"@) == Some(r.query_statistics_per_domain_year@),
        spec_find(spec_catalog(r), "QUERY_STATISTICS_THEME_COUNT"@) == Some(r.query_statistics_theme_count@),
        spec_find(spec_catalog(r), "QUERY_STATISTICS_TRIP_COUNT"@) == Some(r.query_statistics_trip_count@),
        spec_find(spec_catalog(r), "QUERY_COMMON_PARTICIPANT_GROUPS"@) == Some(r.query_common_participant_groups@),
        spec_find(spec_catalog(r), "QUERY_COMMON_TRIP_DOMAINS"@) == Some(r.query_common_trip_domains@),
        spec_find(spec_catalog(r), "QUERY_COMMON_TRIP_LABELS"@) == Some(r.query_common_trip_labels@),
        spec_find(spec_catalog(r), "QUERY_IMAGES_DATE_LIST"@) == Some(r.query_images_date_list@),
        spec_find(spec_catalog(r), "QUERY_IMAGES_PHOTO_TIME"@) == Some(r.query_images_photo_time@),
        spec_find(spec_catalog(r), "QUERY_MAP_CONTOUR"@) == Some(r.query_map_contour@),
        spec_find(spec_catalog(r), "QUERY_MAP_COUNTRY"@) == Some(r.query_map_country@),
        spec_find(spec_catalog(r), "QUERY_MAP_COUNTRY_LIST"@) == Some(r.query_map_country_list@),
        spec_find(spec_catalog(r), "QUERY_MAP_THEME"@) == Some(r.query_map_theme@),
        spec_find(spec_catalog(r), "QUERY_SEARCH_EVENT"@) == Some(r.query_search_event@),
        spec_find(spec_catalog(r), "QUERY_SEARCH_TRIP"@) == Some(r.query_search_trip@),
        spec_find(spec_catalog(r), "QUERY_REPORT_ALL_OVERVIEW"@) == Some(r.query_report_all_overview@),
        spec_find(spec_catalog(r), "QUERY_REPORT_ALL_EVENTS"@) == Some(r.query_report_all_events@),
        spec_find(spec_catalog(r), "CHART_JS"@) == Some(r.chart_js@),
{
    let c = spec_catalog(r);
    reveal_strlit("CURRENT_VERSION");
    reveal_strlit("TEMPLATE_MENU");
    reveal_strlit("TEMPLATE_BREADCRUMBS");
    reveal_strlit("TEMPLATE_EXPLORE");
    reveal_strlit("TEMPLATE_OVERVIEW_YEAR");
    reveal_strlit("TEMPLATE_OVERVIEW_COUNTRY");
    reveal_strlit("TEMPLATE_OVERVIEW_PLAIN");
    reveal_strlit("TEMPLATE_TRIP");
    reveal_strlit("TEMPLATE_IMAGES");
    reveal_strlit("TEMPLATE_MAP");
    reveal_strlit("TEMPLATE_STATISTICS_SUMMARY");
    reveal_strlit("TEMPLATE_STATISTICS_VISITS");
    reveal_strlit("TEMPLATE_STATISTICS_OVERNIGHTS");
    reveal_strlit("TEMPLATE_STATISTICS_THEMES");
    reveal_strlit("TEMPLATE_DATASET");
    reveal_strlit("TEMPLATE_SOURCE");
    reveal_strlit("TEMPLATE_ABOUT");
    reveal_strlit("TEMPLATE_SEARCH");
    reveal_strlit("TEMPLATE_TOOLBOX_REPORT");
    reveal_strlit("TEMPLATE_TOOLBOX_REPORT_OUTPUT");
    reveal_strlit("TEMPLATE_TOOLBOX_INPUT");
    reveal_strlit("QUERY_EXPLORE");
    reveal_strlit("QUERY_OVERVIEW_YEAR");
    reveal_strlit("QUERY_OVERVIEW_COUNTRY");
    reveal_strlit("QUERY_OVERVIEW_PLAIN");
    reveal_strlit("QUERY_TRIP_PREVIOUS");
    reveal_strlit("QUERY_TRIP_NEXT");
    reveal_strlit("QUERY_TRIP_SUMMARY");
    reveal_strlit("QUERY_TRIP_EVENTS");
    reveal_strlit("QUERY_TRIP_UNIQUE_COUNTRIES");
    reveal_strlit("QUERY_TRIP_BORDER_CROSSINGS");
    reveal_strlit("QUERY_TRIP_MAP_PINS_ACCOMMODATION");
    reveal_strlit("QUERY_TRIP_MAP_PINS_OVERALL");
    reveal_strlit("QUERY_TRIP_IMMICH_DESC_SEARCH");
    reveal_strlit("QUERY_TRIP_IMMICH_ALBUM_NAME");
    reveal_strlit("QUERY_TRIP_EXTENSION_MOVIE");
    reveal_strlit("QUERY_STATISTICS_VISITS");
    reveal_strlit("QUERY_STATISTICS_OVERNIGHTS");
    reveal_strlit("QUERY_STATISTICS_PER_DOMAIN_YEAR");
    reveal_strlit("QUERY_STATISTICS_THEME_COUNT");
    reveal_strlit("QUERY_STATISTICS_TRIP_COUNT");
    reveal_strlit("QUERY_COMMON_PARTICIPANT_GROUPS");
    reveal_strlit("QUERY_COMMON_TRIP_DOMAINS");
    reveal_strlit("QUERY_COMMON_TRIP_LABELS");
    reveal_strlit("QUERY_IMAGES_DATE_LIST");
    reveal_strlit("QUERY_IMAGES_PHOTO_TIME");
    reveal_strlit("QUERY_MAP_CONTOUR");
    reveal_strlit("QUERY_MAP_COUNTRY");
    reveal_strlit("QUERY_MAP_COUNTRY_LIST");
    reveal_strlit("QUERY_MAP_THEME");
    reveal_strlit("QUERY_SEARCH_EVENT");
    reveal_strlit("QUERY_SEARCH_TRIP");
    reveal_strlit("QUERY_REPORT_ALL_OVERVIEW");
    reveal_strlit("QUERY_REPORT_ALL_EVENTS");
    reveal_strlit("CHART_JS");
    assert("CURRENT_VERSION"@.len() == 15);
    assert("TEMPLATE_MENU"@.len() == 13);
    assert("TEMPLATE_BREADCRUMBS"@.len() == 20);
    assert("TEMPLATE_EXPLORE"@.len() == 16);
    assert("TEMPLATE_OVERVIEW_YEAR"@.len() == 22);
    assert("TEMPLATE_OVERVIEW_COUNTRY"@.len() == 25);
    assert("TEMPLATE_OVERVIEW_PLAIN"@.len() == 23);
    assert("TEMPLATE_TRIP"@.len() == 13);
    assert("TEMPLATE_IMAGES"@.len() == 15);
    assert("TEMPLATE_MAP"@.len() == 12);
    assert("TEMPLATE_STATISTICS_SUMMARY"@.len() == 27);
    assert("TEMPLATE_STATISTICS_VISITS"@.len() == 26);
    assert("TEMPLATE_STATISTICS_OVERNIGHTS"@.len() == 30);
    assert("TEMPLATE_STATISTICS_THEMES"@.len() == 26);
    assert("TEMPLATE_DATASET"@.len() == 16);
    assert("TEMPLATE_SOURCE"@.len() == 15);
    assert("TEMPLATE_ABOUT"@.len() == 14);
    assert("TEMPLATE_SEARCH"@.len() == 15);
    assert("TEMPLATE_TOOLBOX_REPORT"@.len() == 23);
    assert("TEMPLATE_TOOLBOX_REPORT_OUTPUT"@.len() == 30);
    assert("TEMPLATE_TOOLBOX_INPUT"@.len() == 22);
    assert("QUERY_EXPLORE"@.len() == 13);
    assert("QUERY_OVERVIEW_YEAR"@.len() == 19);
    assert("QUERY_OVERVIEW_COUNTRY"@.len() == 22);
    assert("QUERY_OVERVIEW_PLAIN"@.len() == 20);
    assert("QUERY_TRIP_PREVIOUS"@.len() == 19);
    assert("QUERY_TRIP_NEXT"@.len() == 15);
    assert("QUERY_TRIP_SUMMARY"@.len() == 18);
    assert("QUERY_TRIP_EVENTS"@.len() == 17);
    assert("QUERY_TRIP_UNIQUE_COUNTRIES"@.len() == 27);
    assert("QUERY_TRIP_BORDER_CROSSINGS"@.len() == 27);
    assert("QUERY_TRIP_MAP_PINS_ACCOMMODATION"@.len() == 33);
    assert("QUERY_TRIP_MAP_PINS_OVERALL"@.len() == 27);
    assert("QUERY_TRIP_IMMICH_DESC_SEARCH"@.len() == 29);
    assert("QUERY_TRIP_IMMICH_ALBUM_NAME"@.len() == 28);
    assert("QUERY_TRIP_EXTENSION_MOVIE"@.len() == 26);
    assert("QUERY_STATISTICS_VISITS"@.len() == 23);
    assert("QUERY_STATISTICS_OVERNIGHTS"@.len() == 27);
    assert("QUERY_STATISTICS_PER_DOMAIN_YEAR"@.len() == 32);
    assert("QUERY_STATISTICS_THEME_COUNT"@.len() == 28);
    assert("QUERY_STATISTICS_TRIP_COUNT"@.len() == 27);
    assert("QUERY_COMMON_PARTICIPANT_GROUPS"@.len() == 31);
    assert("QUERY_COMMON_TRIP_DOMAINS"@.len() == 25);
    assert("QUERY_COMMON_TRIP_LABELS"@.len() == 24);
    assert("QUERY_IMAGES_DATE_LIST"@.len() == 22);
    assert("QUERY_IMAGES_PHOTO_TIME"@.len() == 23);
    assert("QUERY_MAP_CONTOUR"@.len() == 17);
    assert("QUERY_MAP_COUNTRY"@.len() == 17);
    assert("QUERY_MAP_COUNTRY_LIST"@.len() == 22);
    assert("QUERY_MAP_THEME"@.len() == 15);
    assert("QUERY_SEARCH_EVENT"@.len() == 18);
    assert("QUERY_SEARCH_TRIP"@.len() == 17);
    assert("QUERY_REPORT_ALL_OVERVIEW"@.len() == 25);
    assert("QUERY_REPORT_ALL_EVENTS"@.len() == 23);
    assert("CHART_JS"@.len() == 8);
    assert(spec_find(c, "CURRENT_VERSION"@) == Some(r.current_version@)) by {
        reveal_with_fuel(absent_before, 1);
        lemma_named_at(c, "CURRENT_VERSION"@, 0);
    }
    assert(spec_find(c, "TEMPLATE_MENU"@) == Some(r.template_menu@)) by {
        reveal_with_fuel(absent_before, 2);
        lemma_named_at(c, "TEMPLATE_MENU"@, 1);
    }
    assert(spec_find(c, "TEMPLATE_BREADCRUMBS"@) == Some(r.template_breadcrumbs@)) by {
        reveal_with_fuel(absent_before, 3);
        lemma_named_at(c, "TEMPLATE_BREADCRUMBS"@, 2);
    }
    assert(spec_find(c, "TEMPLATE_EXPLORE"@) == Some(r.template_explore@)) by {
        reveal_with_fuel(absent_before, 4);
        lemma_named_at(c, "TEMPLATE_EXPLORE"@, 3);
    }
    assert(spec_find(c, "TEMPLATE_OVERVIEW_YEAR"@) == Some(r.template_overview_year@)) by {
        reveal_with_fuel(absent_before, 5);
        lemma_named_at(c, "TEMPLATE_OVERVIEW_YEAR"@, 4);
    }
    assert(spec_find(c, "TEMPLATE_OVERVIEW_COUNTRY"@) == Some(r.template_overview_country@)) by {
        reveal_with_fuel(absent_before, 6);
        lemma_named_at(c, "TEMPLATE_OVERVIEW_COUNTRY"@, 5);
    }
    assert(spec_find(c, "TEMPLATE_OVERVIEW_PLAIN"@) == Some(r.template_overview_plain@)) by {
        reveal_with_fuel(absent_before, 7);
        lemma_named_at(c, "TEMPLATE_OVERVIEW_PLAIN"@, 6);
    }
    assert(spec_find(c, "TEMPLATE_TRIP"@) == Some(r.template_trip@)) by {
        reveal_with_fuel(absent_before, 8);
        assert("TEMPLATE_MENU"@[9] != "TEMPLATE_TRIP"@[9]);
        lemma_named_at(c, "TEMPLATE_TRIP"@, 7);
    }
    assert(spec_find(c, "TEMPLATE_IMAGES"@) == Some(r.template_images@)) by {
        reveal_with_fuel(absent_before, 9);
        assert("CURRENT_VERSION"@[0] != "TEMPLATE_IMAGES"@[0]);
        lemma_named_at(c, "TEMPLATE_IMAGES"@, 8);
    }
    assert(spec_find(c, "TEMPLATE_MAP"@) == Some(r.template_map@)) by {
        reveal_with_fuel(absent_before, 10);
        lemma_named_at(c, "TEMPLATE_MAP"@, 9);
    }
    assert(spec_find(c, "TEMPLATE_STATISTICS_SUMMARY"@) == Some(r.template_statistics_summary@)) by {
        reveal_with_fuel(absent_before, 11);
        lemma_named_at(c, "TEMPLATE_STATISTICS_SUMMARY"@, 10);
    }
    assert(spec_find(c, "TEMPLATE_STATISTICS_VISITS"@) == Some(r.template_statistics_visits@)) by {
        reveal_with_fuel(absent_before, 12);
        lemma_named_at(c, "TEMPLATE_STATISTICS_VISITS"@, 11);
    }
    assert(spec_find(c, "TEMPLATE_STATISTICS_OVERNIGHTS"@) == Some(r.template_statistics_overnights@)) by {
        reveal_with_fuel(absent_before, 13);
        lemma_named_at(c, "TEMPLATE_STATISTICS_OVERNIGHTS"@, 12);
    }
    assert(spec_find(c, "TEMPLATE_STATISTICS_THEMES"@) == Some(r.template_statistics_themes@)) by {
        reveal_with_fuel(absent_before, 14);
        assert("TEMPLATE_STATISTICS_VISITS"@[20] != "TEMPLATE_STATISTICS_THEMES"@[20]);
        lemma_named_at(c, "TEMPLATE_STATISTICS_THEMES"@, 13);
    }
    assert(spec_find(c, "TEMPLATE_DATASET"@) == Some(r.template_dataset@)) by {
        reveal_with_fuel(absent_before, 15);
        assert("TEMPLATE_EXPLORE"@[9] != "TEMPLATE_DATASET"@[9]);
        lemma_named_at(c, "TEMPLATE_DATASET"@, 14);
    }
    assert(spec_find(c, "TEMPLATE_SOURCE"@) == Some(r.template_source@)) by {
        reveal_with_fuel(absent_before, 16);
        assert("CURRENT_VERSION"@[0] != "TEMPLATE_SOURCE"@[0]);
        assert("TEMPLATE_IMAGES"@[9] != "TEMPLATE_SOURCE"@[9]);
        lemma_named_at(c, "TEMPLATE_SOURCE"@, 15);
    }
    assert(spec_find(c, "TEMPLATE_ABOUT"@) == Some(r.template_about@)) by {
        reveal_with_fuel(absent_before, 17);
        lemma_named_at(c, "TEMPLATE_ABOUT"@, 16);
    }
    assert(spec_find(c, "TEMPLATE_SEARCH"@) == Some(r.template_search@)) by {
        reveal_with_fuel(absent_before, 18);
        assert("CURRENT_VERSION"@[0] != "TEMPLATE_SEARCH"@[0]);
        assert("TEMPLATE_IMAGES"@[9] != "TEMPLATE_SEARCH"@[9]);
        assert("TEMPLATE_SOURCE"@[10] != "TEMPLATE_SEARCH"@[10]);
        lemma_named_at(c, "TEMPLATE_SEARCH"@, 17);
    }
    assert(spec_find(c, "TEMPLATE_TOOLBOX_REPORT"@) == Some(r.template_toolbox_report@)) by {
        reveal_with_fuel(absent_before, 19);
        assert("TEMPLATE_OVERVIEW_PLAIN"@[9] != "TEMPLATE_TOOLBOX_REPORT"@[9]);
        lemma_named_at(c, "TEMPLATE_TOOLBOX_REPORT"@, 18);
    }
    assert(spec_find(c, "TEMPLATE_TOOLBOX_REPORT_OUTPUT"@) == Some(r.template_toolbox_report_output@)) by {
        reveal_with_fuel(absent_before, 20);
        assert("TEMPLATE_STATISTICS_OVERNIGHTS"@[9] != "TEMPLATE_TOOLBOX_REPORT_OUTPUT"@[9]);
        lemma_named_at(c, "TEMPLATE_TOOLBOX_REPORT_OUTPUT"@, 19);
    }
    assert(spec_find(c, "TEMPLATE_TOOLBOX_INPUT"@) == Some(r.template_toolbox_input@)) by {
        reveal_with_fuel(absent_before, 21);
        assert("TEMPLATE_OVERVIEW_YEAR"@[9] != "TEMPLATE_TOOLBOX_INPUT"@[9]);
        lemma_named_at(c, "TEMPLATE_TOOLBOX_INPUT"@, 20);
    }
    assert(spec_find(c, "QUERY_EXPLORE"@) == Some(r.query_explore@)) by {
        reveal_with_fuel(absent_before, 22);
        assert("TEMPLATE_MENU"@[0] != "QUERY_EXPLORE"@[0]);
        assert("TEMPLATE_TRIP"@[0] != "QUERY_EXPLORE"@[0]);
        lemma_named_at(c, "QUERY_EXPLORE"@, 21);
    }
    assert(spec_find(c, "QUERY_OVERVIEW_YEAR"@) == Some(r.query_overview_year@)) by {
        reveal_with_fuel(absent_before, 23);
        lemma_named_at(c, "QUERY_OVERVIEW_YEAR"@, 22);
    }
    assert(spec_find(c, "QUERY_OVERVIEW_COUNTRY"@) == Some(r.query_overview_country@)) by {
        reveal_with_fuel(absent_before, 24);
        assert("TEMPLATE_OVERVIEW_YEAR"@[0] != "QUERY_OVERVIEW_COUNTRY"@[0]);
        assert("TEMPLATE_TOOLBOX_INPUT"@[0] != "QUERY_OVERVIEW_COUNTRY"@[0]);
        lemma_named_at(c, "QUERY_OVERVIEW_COUNTRY"@, 23);
    }
    assert(spec_find(c, "QUERY_OVERVIEW_PLAIN"@) == Some(r.query_overview_plain@)) by {
        reveal_with_fuel(absent_before, 25);
        assert("TEMPLATE_BREADCRUMBS"@[0] != "QUERY_OVERVIEW_PLAIN"@[0]);
        lemma_named_at(c, "QUERY_OVERVIEW_PLAIN"@, 24);
    }
    assert(spec_find(c, "QUERY_TRIP_PREVIOUS"@) == Some(r.query_trip_previous@)) by {
        reveal_with_fuel(absent_before, 26);
        assert("QUERY_OVERVIEW_YEAR"@[6] != "QUERY_TRIP_PREVIOUS"@[6]);
        lemma_named_at(c, "QUERY_TRIP_PREVIOUS"@, 25);
    }
    assert(spec_find(c, "QUERY_TRIP_NEXT"@) == Some(r.query_trip_next@)) by {
        reveal_with_fuel(absent_before, 27);
        assert("CURRENT_VERSION"@[0] != "QUERY_TRIP_NEXT"@[0]);
        assert("TEMPLATE_IMAGES"@[0] != "QUERY_TRIP_NEXT"@[0]);
        assert("TEMPLATE_SOURCE"@[0] != "QUERY_TRIP_NEXT"@[0]);
        assert("TEMPLATE_SEARCH"@[0] != "QUERY_TRIP_NEXT"@[0]);
        lemma_named_at(c, "QUERY_TRIP_NEXT"@, 26);
    }
    assert(spec_find(c, "QUERY_TRIP_SUMMARY"@) == Some(r.query_trip_summary@)) by {
        reveal_with_fuel(absent_before, 28);
        lemma_named_at(c, "QUERY_TRIP_SUMMARY"@, 27);
    }
    assert(spec_find(c, "QUERY_TRIP_EVENTS"@) == Some(r.query_trip_events@)) by {
        reveal_with_fuel(absent_before, 29);
        lemma_named_at(c, "QUERY_TRIP_EVENTS"@, 28);
    }
    assert(spec_find(c, "QUERY_TRIP_UNIQUE_COUNTRIES"@) == Some(r.query_trip_unique_countries@)) by {
        reveal_with_fuel(absent_before, 30);
        assert("TEMPLATE_STATISTICS_SUMMARY"@[0] != "QUERY_TRIP_UNIQUE_COUNTRIES"@[0]);
        lemma_named_at(c, "QUERY_TRIP_UNIQUE_COUNTRIES"@, 29);
    }
    assert(spec_find(c, "QUERY_TRIP_BORDER_CROSSINGS"@) == Some(r.query_trip_border_crossings@)) by {
        reveal_with_fuel(absent_before, 31);
        assert("TEMPLATE_STATISTICS_SUMMARY"@[0] != "QUERY_TRIP_BORDER_CROSSINGS"@[0]);
        assert("QUERY_TRIP_UNIQUE_COUNTRIES"@[11] != "QUERY_TRIP_BORDER_CROSSINGS"@[11]);
        lemma_named_at(c, "QUERY_TRIP_BORDER_CROSSINGS"@, 30);
    }
    assert(spec_find(c, "QUERY_TRIP_MAP_PINS_ACCOMMODATION"@) == Some(r.query_trip_map_pins_accommodation@)) by {
        reveal_with_fuel(absent_before, 32);
        lemma_named_at(c, "QUERY_TRIP_MAP_PINS_ACCOMMODATION"@, 31);
    }
    assert(spec_find(c, "QUERY_TRIP_MAP_PINS_OVERALL"@) == Some(r.query_trip_map_pins_overall@)) by {
        reveal_with_fuel(absent_before, 33);
        assert("TEMPLATE_STATISTICS_SUMMARY"@[0] != "QUERY_TRIP_MAP_PINS_OVERALL"@[0]);
        assert("QUERY_TRIP_UNIQUE_COUNTRIES"@[11] != "QUERY_TRIP_MAP_PINS_OVERALL"@[11]);
        assert("QUERY_TRIP_BORDER_CROSSINGS"@[11] != "QUERY_TRIP_MAP_PINS_OVERALL"@[11]);
        lemma_named_at(c, "QUERY_TRIP_MAP_PINS_OVERALL"@, 32);
    }
    assert(spec_find(c, "QUERY_TRIP_IMMICH_DESC_SEARCH"@) == Some(r.query_trip_immich_desc_search@)) by {
        reveal_with_fuel(absent_before, 34);
        lemma_named_at(c, "QUERY_TRIP_IMMICH_DESC_SEARCH"@, 33);
    }
    assert(spec_find(c, "QUERY_TRIP_IMMICH_ALBUM_NAME"@) == Some(r.query_trip_immich_album_name@)) by {
        reveal_with_fuel(absent_before, 35);
        lemma_named_at(c, "QUERY_TRIP_IMMICH_ALBUM_NAME"@, 34);
    }
    assert(spec_find(c, "QUERY_TRIP_EXTENSION_MOVIE"@) == Some(r.query_trip_extension_movie@)) by {
        reveal_with_fuel(absent_before, 36);
        assert("TEMPLATE_STATISTICS_VISITS"@[0] != "QUERY_TRIP_EXTENSION_MOVIE"@[0]);
        assert("TEMPLATE_STATISTICS_THEMES"@[0] != "QUERY_TRIP_EXTENSION_MOVIE"@[0]);
        lemma_named_at(c, "QUERY_TRIP_EXTENSION_MOVIE"@, 35);
    }
    assert(spec_find(c, "QUERY_STATISTICS_VISITS"@) == Some(r.query_statistics_visits@)) by {
        reveal_with_fuel(absent_before, 37);
        assert("TEMPLATE_OVERVIEW_PLAIN"@[0] != "QUERY_STATISTICS_VISITS"@[0]);
        assert("TEMPLATE_TOOLBOX_REPORT"@[0] != "QUERY_STATISTICS_VISITS"@[0]);
        lemma_named_at(c, "QUERY_STATISTICS_VISITS"@, 36);
    }
    assert(spec_find(c, "QUERY_STATISTICS_OVERNIGHTS"@) == Some(r.query_statistics_overnights@)) by {
        reveal_with_fuel(absent_before, 38);
        assert("TEMPLATE_STATISTICS_SUMMARY"@[0] != "QUERY_STATISTICS_OVERNIGHTS"@[0]);
        assert("QUERY_TRIP_UNIQUE_COUNTRIES"@[6] != "QUERY_STATISTICS_OVERNIGHTS"@[6]);
        assert("QUERY_TRIP_BORDER_CROSSINGS"@[6] != "QUERY_STATISTICS_OVERNIGHTS"@[6]);
        assert("QUERY_TRIP_MAP_PINS_OVERALL"@[6] != "QUERY_STATISTICS_OVERNIGHTS"@[6]);
        lemma_named_at(c, "QUERY_STATISTICS_OVERNIGHTS"@, 37);
    }
    assert(spec_find(c, "QUERY_STATISTICS_PER_DOMAIN_YEAR"@) == Some(r.query_statistics_per_domain_year@)) by {
        reveal_with_fuel(absent_before, 39);
        lemma_named_at(c, "QUERY_STATISTICS_PER_DOMAIN_YEAR"@, 38);
    }
    assert(spec_find(c, "QUERY_STATISTICS_THEME_COUNT"@) == Some(r.query_statistics_theme_count@)) by {
        reveal_with_fuel(absent_before, 40);
        assert("QUERY_TRIP_IMMICH_ALBUM_NAME"@[6] != "QUERY_STATISTICS_THEME_COUNT"@[6]);
        lemma_named_at(c, "QUERY_STATISTICS_THEME_COUNT"@, 39);
    }
    assert(spec_find(c, "QUERY_STATISTICS_TRIP_COUNT"@) == Some(r.query_statistics_trip_count@)) by {
        reveal_with_fuel(absent_before, 41);
        assert("TEMPLATE_STATISTICS_SUMMARY"@[0] != "QUERY_STATISTICS_TRIP_COUNT"@[0]);
        assert("QUERY_TRIP_UNIQUE_COUNTRIES"@[6] != "QUERY_STATISTICS_TRIP_COUNT"@[6]);
        assert("QUERY_TRIP_BORDER_CROSSINGS"@[6] != "QUERY_STATISTICS_TRIP_COUNT"@[6]);
        assert("QUERY_TRIP_MAP_PINS_OVERALL"@[6] != "QUERY_STATISTICS_TRIP_COUNT"@[6]);
        assert("QUERY_STATISTICS_OVERNIGHTS"@[17] != "QUERY_STATISTICS_TRIP_COUNT"@[17]);
        lemma_named_at(c, "QUERY_STATISTICS_TRIP_COUNT"@, 40);
    }
    assert(spec_find(c, "QUERY_COMMON_PARTICIPANT_GROUPS"@) == Some(r.query_common_participant_groups@)) by {
        reveal_with_fuel(absent_before, 42);
        lemma_named_at(c, "QUERY_COMMON_PARTICIPANT_GROUPS"@, 41);
    }
    assert(spec_find(c, "QUERY_COMMON_TRIP_DOMAINS"@) == Some(r.query_common_trip_domains@)) by {
        reveal_with_fuel(absent_before, 43);
        assert("TEMPLATE_OVERVIEW_COUNTRY"@[0] != "QUERY_COMMON_TRIP_DOMAINS"@[0]);
        lemma_named_at(c, "QUERY_COMMON_TRIP_DOMAINS"@, 42);
    }
    assert(spec_find(c, "QUERY_COMMON_TRIP_LABELS"@) == Some(r.query_common_trip_labels@)) by {
        reveal_with_fuel(absent_before, 44);
        lemma_named_at(c, "QUERY_COMMON_TRIP_LABELS"@, 43);
    }
    assert(spec_find(c, "QUERY_IMAGES_DATE_LIST"@) == Some(r.query_images_date_list@)) by {
        reveal_with_fuel(absent_before, 45);
        assert("TEMPLATE_OVERVIEW_YEAR"@[0] != "QUERY_IMAGES_DATE_LIST"@[0]);
        assert("TEMPLATE_TOOLBOX_INPUT"@[0] != "QUERY_IMAGES_DATE_LIST"@[0]);
        assert("QUERY_OVERVIEW_COUNTRY"@[6] != "QUERY_IMAGES_DATE_LIST"@[6]);
        lemma_named_at(c, "QUERY_IMAGES_DATE_LIST"@, 44);
    }
    assert(spec_find(c, "QUERY_IMAGES_PHOTO_TIME"@) == Some(r.query_images_photo_time@)) by {
        reveal_with_fuel(absent_before, 46);
        assert("TEMPLATE_OVERVIEW_PLAIN"@[0] != "QUERY_IMAGES_PHOTO_TIME"@[0]);
        assert("TEMPLATE_TOOLBOX_REPORT"@[0] != "QUERY_IMAGES_PHOTO_TIME"@[0]);
        assert("QUERY_STATISTICS_VISITS"@[6] != "QUERY_IMAGES_PHOTO_TIME"@[6]);
        lemma_named_at(c, "QUERY_IMAGES_PHOTO_TIME"@, 45);
    }
    assert(spec_find(c, "QUERY_MAP_CONTOUR"@) == Some(r.query_map_contour@)) by {
        reveal_with_fuel(absent_before, 47);
        assert("QUERY_TRIP_EVENTS"@[6] != "QUERY_MAP_CONTOUR"@[6]);
        lemma_named_at(c, "QUERY_MAP_CONTOUR"@, 46);
    }
    assert(spec_find(c, "QUERY_MAP_COUNTRY"@) == Some(r.query_map_country@)) by {
        reveal_with_fuel(absent_before, 48);
        assert("QUERY_TRIP_EVENTS"@[6] != "QUERY_MAP_COUNTRY"@[6]);
        assert("QUERY_MAP_CONTOUR"@[12] != "QUERY_MAP_COUNTRY"@[12]);
        lemma_named_at(c, "QUERY_MAP_COUNTRY"@, 47);
    }
    assert(spec_find(c, "QUERY_MAP_COUNTRY_LIST"@) == Some(r.query_map_country_list@)) by {
        reveal_with_fuel(absent_before, 49);
        assert("TEMPLATE_OVERVIEW_YEAR"@[0] != "QUERY_MAP_COUNTRY_LIST"@[0]);
        assert("TEMPLATE_TOOLBOX_INPUT"@[0] != "QUERY_MAP_COUNTRY_LIST"@[0]);
        assert("QUERY_OVERVIEW_COUNTRY"@[6] != "QUERY_MAP_COUNTRY_LIST"@[6]);
        assert("QUERY_IMAGES_DATE_LIST"@[6] != "QUERY_MAP_COUNTRY_LIST"@[6]);
        lemma_named_at(c, "QUERY_MAP_COUNTRY_LIST"@, 48);
    }
    assert(spec_find(c, "QUERY_MAP_THEME"@) == Some(r.query_map_theme@)) by {
        reveal_with_fuel(absent_before, 50);
        assert("CURRENT_VERSION"@[0] != "QUERY_MAP_THEME"@[0]);
        assert("TEMPLATE_IMAGES"@[0] != "QUERY_MAP_THEME"@[0]);
        assert("TEMPLATE_SOURCE"@[0] != "QUERY_MAP_THEME"@[0]);
        assert("TEMPLATE_SEARCH"@[0] != "QUERY_MAP_THEME"@[0]);
        assert("QUERY_TRIP_NEXT"@[6] != "QUERY_MAP_THEME"@[6]);
        lemma_named_at(c, "QUERY_MAP_THEME"@, 49);
    }
    assert(spec_find(c, "QUERY_SEARCH_EVENT"@) == Some(r.query_search_event@)) by {
        reveal_with_fuel(absent_before, 51);
        assert("QUERY_TRIP_SUMMARY"@[6] != "QUERY_SEARCH_EVENT"@[6]);
        lemma_named_at(c, "QUERY_SEARCH_EVENT"@, 50);
    }
    assert(spec_find(c, "QUERY_SEARCH_TRIP"@) == Some(r.query_search_trip@)) by {
        reveal_with_fuel(absent_before, 52);
        assert("QUERY_TRIP_EVENTS"@[6] != "QUERY_SEARCH_TRIP"@[6]);
        assert("QUERY_MAP_CONTOUR"@[6] != "QUERY_SEARCH_TRIP"@[6]);
        assert("QUERY_MAP_COUNTRY"@[6] != "QUERY_SEARCH_TRIP"@[6]);
        lemma_named_at(c, "QUERY_SEARCH_TRIP"@, 51);
    }
    assert(spec_find(c, "QUERY_REPORT_ALL_OVERVIEW"@) == Some(r.query_report_all_overview@)) by {
        reveal_with_fuel(absent_before, 53);
        assert("TEMPLATE_OVERVIEW_COUNTRY"@[0] != "QUERY_REPORT_ALL_OVERVIEW"@[0]);
        assert("QUERY_COMMON_TRIP_DOMAINS"@[6] != "QUERY_REPORT_ALL_OVERVIEW"@[6]);
        lemma_named_at(c, "QUERY_REPORT_ALL_OVERVIEW"@, 52);
    }
    assert(spec_find(c, "QUERY_REPORT_ALL_EVENTS"@) == Some(r.query_report_all_events@)) by {
        reveal_with_fuel(absent_before, 54);
        assert("TEMPLATE_OVERVIEW_PLAIN"@[0] != "QUERY_REPORT_ALL_EVENTS"@[0]);
        assert("TEMPLATE_TOOLBOX_REPORT"@[0] != "QUERY_REPORT_ALL_EVENTS"@[0]);
        assert("QUERY_STATISTICS_VISITS"@[6] != "QUERY_REPORT_ALL_EVENTS"@[6]);
        assert("QUERY_IMAGES_PHOTO_TIME"@[6] != "QUERY_REPORT_ALL_EVENTS"@[6]);
        lemma_named_at(c, "QUERY_REPORT_ALL_EVENTS"@, 53);
    }
    assert(spec_find(c, "CHART_JS"@) == Some(r.chart_js@)) by {
        reveal_with_fuel(absent_before, 55);
        lemma_named_at(c, "CHART_JS"@, 54);
    }
}

/// Each page template is registered under its name; the pages that show
/// breadcrumbs (explore, the overviews, the statistics, source, about and
/// report) get the breadcrumbs, with `_PAGE_` replaced by the page, in front
/// of their template.
#[verifier::spinoff_prover]
#[verifier::rlimit(100)]
pub proof fn law_each_template_under_its_name(r: Resources)
    ensures
        spec_find(spec_templates(r), "menu"@) == Some(r.template_menu@),
        spec_find(spec_templates(r), "breadcrumbs"@) == Some(r.template_breadcrumbs@),
        spec_find(spec_templates(r), "explore"@) == Some(spec_replace(r.template_breadcrumbs@, "_PAGE_"@, "explore"@) + r.template_explore@),
        spec_find(spec_templates(r), "overview_year"@) == Some(spec_replace(r.template_breadcrumbs@, "_PAGE_"@, "overview:year"@) + r.template_overview_year@),
        spec_find(spec_templates(r), "overview_country"@) == Some(spec_replace(r.template_breadcrumbs@, "_PAGE_"@, "overview:country"@) + r.template_overview_country@),
        spec_find(spec_templates(r), "overview_plain"@) == Some(spec_replace(r.template_breadcrumbs@, "_PAGE_"@, "overview:plain"@) + r.template_overview_plain@),
        spec_find(spec_templates(r), "statistics_summary"@) == Some(spec_replace(r.template_breadcrumbs@, "_PAGE_"@, "statistics:summary"@) + r.template_statistics_summary@),
        spec_find(spec_templates(r), "statistics_visits"@) == Some(spec_replace(r.template_breadcrumbs@, "_PAGE_"@, "statistics:visits"@) + r.template_statistics_visits@),
        spec_find(spec_templates(r), "statistics_overnights"@) == Some(spec_replace(r.template_breadcrumbs@, "_PAGE_"@, "statistics:overnights"@) + r.template_statistics_overnights@),
        spec_find(spec_templates(r), "statistics_themes"@) == Some(spec_replace(r.template_breadcrumbs@, "_PAGE_"@, "statistics:themes"@) + r.template_statistics_themes@),
        spec_find(spec_templates(r), "source"@) == Some(spec_replace(r.template_breadcrumbs@, "_PAGE_"@, "source"@) + r.template_source@),
        spec_find(spec_templates(r), "about"@) == Some(spec_replace(r.template_breadcrumbs@, "_PAGE_"@, "about"@) + r.template_about@),
        spec_find(spec_templates(r), "report"@) == Some(spec_replace(r.template_breadcrumbs@, "_PAGE_"@, "report"@) + r.template_toolbox_report@),
        spec_find(spec_templates(r), "trip"@) == Some(r.template_trip@),
        spec_find(spec_templates(r), "images"@) == Some(r.template_images@),
        spec_find(spec_templates(r), "map"@) == Some(r.template_map@),
        spec_find(spec_templates(r), "dataset"@) == Some(r.template_dataset@),
        spec_find(spec_templates(r), "search"@) == Some(r.template_search@),
        spec_find(spec_templates(r), "report_output"@) == Some(r.template_toolbox_report_output@),
        spec_find(spec_templates(r), "toolbox"@) == Some(r.template_toolbox_input@),
{
    let c = spec_templates(r);
    reveal_strlit("menu");
    reveal_strlit("breadcrumbs");
    reveal_strlit("explore");
    reveal_strlit("overview_year");
    reveal_strlit("overview_country");
    reveal_strlit("overview_plain");
    reveal_strlit("statistics_summary");
    reveal_strlit("statistics_visits");
    reveal_strlit("statistics_overnights");
    reveal_strlit("statistics_themes");
    reveal_strlit("source");
    reveal_strlit("about");
    reveal_strlit("report");
    reveal_strlit("trip");
    reveal_strlit("images");
    reveal_strlit("map");
    reveal_strlit("dataset");
    reveal_strlit("search");
    reveal_strlit("report_output");
    reveal_strlit("toolbox");
    assert("menu"@.len() == 4);
    assert("breadcrumbs"@.len() == 11);
    assert("explore"@.len() == 7);
    assert("overview_year"@.len() == 13);
    assert("overview_country"@.len() == 16);
    assert("overview_plain"@.len() == 14);
    assert("statistics_summary"@.len() == 18);
    assert("statistics_visits"@.len() == 17);
    assert("statistics_overnights"@.len() == 21);
    assert("statistics_themes"@.len() == 17);
    assert("source"@.len() == 6);
    assert("about"@.len() == 5);
    assert("report"@.len() == 6);
    assert("trip"@.len() == 4);
    assert("images"@.len() == 6);
    assert("map"@.len() == 3);
    assert("dataset"@.len() == 7);
    assert("search"@.len() == 6);
    assert("report_output"@.len() == 13);
    assert("toolbox"@.len() == 7);
    assert(spec_find(c, "menu"@) == Some(r.template_menu@)) by {
        reveal_with_fuel(absent_before, 1);
        lemma_named_at(c, "menu"@, 0);
    }
    assert(spec_find(c, "breadcrumbs"@) == Some(r.template_breadcrumbs@)) by {
        reveal_with_fuel(absent_before, 2);
        lemma_named_at(c, "breadcrumbs"@, 1);
    }
    assert(spec_find(c, "explore"@) == Some(spec_replace(r.template_breadcrumbs@, "_PAGE_"@, "explore"@) + r.template_explore@)) by {
        reveal_with_fuel(absent_before, 3);
        lemma_named_at(c, "explore"@, 2);
    }
    assert(spec_find(c, "overview_year"@) == Some(spec_replace(r.template_breadcrumbs@, "_PAGE_"@, "overview:year"@) + r.template_overview_year@)) by {
        reveal_with_fuel(absent_before, 4);
        lemma_named_at(c, "overview_year"@, 3);
    }
    assert(spec_find(c, "overview_country"@) == Some(spec_replace(r.template_breadcrumbs@, "_PAGE_"@, "overview:country"@) + r.template_overview_country@)) by {
        reveal_with_fuel(absent_before, 5);
        lemma_named_at(c, "overview_country"@, 4);
    }
    assert(spec_find(c, "overview_plain"@) == Some(spec_replace(r.template_breadcrumbs@, "_PAGE_"@, "overview:plain"@) + r.template_overview_plain@)) by {
        reveal_with_fuel(absent_before, 6);
        lemma_named_at(c, "overview_plain"@, 5);
    }
    assert(spec_find(c, "statistics_summary"@) == Some(spec_replace(r.template_breadcrumbs@, "_PAGE_"@, "statistics:summary"@) + r.template_statistics_summary@)) by {
        reveal_with_fuel(absent_before, 7);
        lemma_named_at(c, "statistics_summary"@, 6);
    }
    assert(spec_find(c, "statistics_visits"@) == Some(spec_replace(r.template_breadcrumbs@, "_PAGE_"@, "statistics:visits"@) + r.template_statistics_visits@)) by {
        reveal_with_fuel(absent_before, 8);
        lemma_named_at(c, "statistics_visits"@, 7);
    }
    assert(spec_find(c, "statistics_overnights"@) == Some(spec_replace(r.template_breadcrumbs@, "_PAGE_"@, "statistics:overnights"@) + r.template_statistics_overnights@)) by {
        reveal_with_fuel(absent_before, 9);
        lemma_named_at(c, "statistics_overnights"@, 8);
    }
    assert(spec_find(c, "statistics_themes"@) == Some(spec_replace(r.template_breadcrumbs@, "_PAGE_"@, "statistics:themes"@) + r.template_statistics_themes@)) by {
        reveal_with_fuel(absent_before, 10);
        assert("statistics_visits"@[11] != "statistics_themes"@[11]);
        lemma_named_at(c, "statistics_themes"@, 9);
    }
    assert(spec_find(c, "source"@) == Some(spec_replace(r.template_breadcrumbs@, "_PAGE_"@, "source"@) + r.template_source@)) by {
        reveal_with_fuel(absent_before, 11);
        lemma_named_at(c, "source"@, 10);
    }
    assert(spec_find(c, "about"@) == Some(spec_replace(r.template_breadcrumbs@, "_PAGE_"@, "about"@) + r.template_about@)) by {
        reveal_with_fuel(absent_before, 12);
        lemma_named_at(c, "about"@, 11);
    }
    assert(spec_find(c, "report"@) == Some(spec_replace(r.template_breadcrumbs@, "_PAGE_"@, "report"@) + r.template_toolbox_report@)) by {
        reveal_with_fuel(absent_before, 13);
        assert("source"@[0] != "report"@[0]);
        lemma_named_at(c, "report"@, 12);
    }
    assert(spec_find(c, "trip"@) == Some(r.template_trip@)) by {
        reveal_with_fuel(absent_before, 14);
        assert("menu"@[0] != "trip"@[0]);
        lemma_named_at(c, "trip"@, 13);
    }
    assert(spec_find(c, "images"@) == Some(r.template_images@)) by {
        reveal_with_fuel(absent_before, 15);
        assert("source"@[0] != "images"@[0]);
        assert("report"@[0] != "images"@[0]);
        lemma_named_at(c, "images"@, 14);
    }
    assert(spec_find(c, "map"@) == Some(r.template_map@)) by {
        reveal_with_fuel(absent_before, 16);
        lemma_named_at(c, "map"@, 15);
    }
    assert(spec_find(c, "dataset"@) == Some(r.template_dataset@)) by {
        reveal_with_fuel(absent_before, 17);
        assert("explore"@[0] != "dataset"@[0]);
        lemma_named_at(c, "dataset"@, 16);
    }
    assert(spec_find(c, "search"@) == Some(r.template_search@)) by {
        reveal_with_fuel(absent_before, 18);
        assert("source"@[1] != "search"@[1]);
        assert("report"@[0] != "search"@[0]);
        assert("images"@[0] != "search"@[0]);
        lemma_named_at(c, "search"@, 17);
    }
    assert(spec_find(c, "report_output"@) == Some(r.template_toolbox_report_output@)) by {
        reveal_with_fuel(absent_before, 19);
        assert("overview_year"@[0] != "report_output"@[0]);
        lemma_named_at(c, "report_output"@, 18);
    }
    assert(spec_find(c, "toolbox"@) == Some(r.template_toolbox_input@)) by {
        reveal_with_fuel(absent_before, 20);
        assert("explore"@[0] != "toolbox"@[0]);
        assert("dataset"@[0] != "toolbox"@[0]);
        lemma_named_at(c, "toolbox"@, 19);
    }
}

} // verus!
