//! What each page of the application shows: its title, its template, the SQL
//! queries whose results it renders, the scripts that run once it is shown,
//! and the extra values it hands to the template. The page comes from the
//! `path` parameter of the address.
use vstd::prelude::*;
use vstd::string::*;
use crate::resources::{absent_before, law_each_template_under_its_name, lemma_named_at, resource_names, spec_catalog, spec_find, spec_templates, Resources};
use crate::sql_filter::{spec_apply_filters, SqlFilters};
use crate::text::{chars_eq, chars_of, replace_all, spec_replace, spec_split_once, split_once_chars, strip_prefix_chars, string_of};

verus! {

/// Where the title of a page comes from.
pub enum TitleSource {
    /// The text at `pointer` in the translation, else `fallback`.
    Translation { pointer: String, fallback: String },
    /// The text at `pointer` in the settings, else `fallback`.
    Setting { pointer: String, fallback: String },
    /// This text.
    Text(String),
}

/// A script of the page that runs once the page is shown.
pub enum AfterLoad {
    LoadTripMap,
    LoadContourMap,
    LoadCountryMap,
    LoadThemeMap,
    LoadCodeEditor,
    InitiateSpreadsheet,
    InitializeChart,
    InitializeChartOvernights,
    CheckImmichAuthorization,
    InitCreateTrip,
}

/// An extra value that a page hands to its template.
pub enum StateValue {
    /// This text.
    Text(String),
    /// These names.
    Names(Vec<String>),
    /// The stored map from trips to their cover photos.
    CoverPhotos,
    /// The answer of the update check.
    UpdateInfo,
    /// Today's date, `YYYY-MM-DD`.
    DateNow,
    /// The current year.
    YearNow,
}

/// What a page shows.
pub struct PagePlan {
    pub title: TitleSource,
    pub template: String,
    /// The queries to run, each under the name its result gets.
    pub queries: Vec<(String, String)>,
    pub after: Vec<AfterLoad>,
    /// The extra values for the template, each under its name.
    pub state: Vec<(String, StateValue)>,
}

/// The model of a title source.
pub enum TitleView {
    Translation(Seq<char>, Seq<char>),
    Setting(Seq<char>, Seq<char>),
    Text(Seq<char>),
}

/// The model of an extra value.
pub enum StateView {
    Text(Seq<char>),
    Names(Seq<Seq<char>>),
    CoverPhotos,
    UpdateInfo,
    DateNow,
    YearNow,
}

/// The model of what a page shows.
#[verifier::ext_equal]
pub struct PlanView {
    pub title: TitleView,
    pub template: Seq<char>,
    pub queries: Seq<(Seq<char>, Seq<char>)>,
    pub after: Seq<AfterLoad>,
    pub state: Seq<(Seq<char>, StateView)>,
}

pub open spec fn title_view(t: TitleSource) -> TitleView {
    match t {
        TitleSource::Translation { pointer, fallback } => TitleView::Translation(pointer@, fallback@),
        TitleSource::Setting { pointer, fallback } => TitleView::Setting(pointer@, fallback@),
        TitleSource::Text(s) => TitleView::Text(s@),
    }
}

/// The characters of each string.
pub open spec fn strings_view(v: Seq<String>) -> Seq<Seq<char>> {
    v.map_values(|s: String| s@)
}

pub open spec fn state_view(v: StateValue) -> StateView {
    match v {
        StateValue::Text(s) => StateView::Text(s@),
        StateValue::Names(n) => StateView::Names(strings_view(n@)),
        StateValue::CoverPhotos => StateView::CoverPhotos,
        StateValue::UpdateInfo => StateView::UpdateInfo,
        StateValue::DateNow => StateView::DateNow,
        StateValue::YearNow => StateView::YearNow,
    }
}

pub open spec fn plan_view(p: PagePlan) -> PlanView {
    PlanView {
        title: title_view(p.title),
        template: p.template@,
        queries: p.queries@.map_values(|e: (String, String)| (e.0@, e.1@)),
        after: p.after@,
        state: p.state@.map_values(|e: (String, StateValue)| (e.0@, state_view(e.1))),
    }
}

/// The names of the shipped texts.
pub open spec fn catalog_names(r: Resources) -> Seq<Seq<char>> {
    spec_catalog(r).map_values(|e: (Seq<char>, Seq<char>)| e.0)
}

/// `q` with the filters applied.
pub open spec fn filt(f: SqlFilters, q: Seq<char>) -> Seq<char> {
    spec_apply_filters(q, f.group@, f.domain@, f.label@)
}

/// The comparison `= 'id'` that picks one trip.
pub open spec fn quoted_id(id: Seq<char>) -> Seq<char> {
    "= '"@ + id + "'"@
}

/// The comparison `= 'id'` that picks one trip.
fn quote_id(id: &str) -> (res: String)
    ensures
        res@ == quoted_id(id@),
{
    let mut s = "= '".to_owned();
    s.append(id);
    s.append("'");
    s
}

/// The plan of the page `explore`.
pub open spec fn plan_explore(r: Resources, f: SqlFilters) -> PlanView {
    PlanView {
        title: TitleView::Translation("/explore/title"@, "Explore"@),
        template: "explore"@,
        queries: seq![("explore"@, filt(f, r.query_explore@))],
        after: seq![],
        state: seq![("cover_photos_list"@, StateView::CoverPhotos)],
    }
}

/// Builds the plan of the page `explore`.
fn page_explore(r: &Resources, f: &SqlFilters) -> (res: PagePlan)
    ensures
        plan_view(res) == plan_explore(*r, *f),
{
    let mut queries: Vec<(String, String)> = Vec::new();
    queries.push(("explore".to_owned(), f.apply(r.query_explore.as_str())));
    let after: Vec<AfterLoad> = Vec::new();
    let mut state: Vec<(String, StateValue)> = Vec::new();
    state.push(("cover_photos_list".to_owned(), StateValue::CoverPhotos));
    let res = PagePlan { title: TitleSource::Translation { pointer: "/explore/title".to_owned(), fallback: "Explore".to_owned() }, template: "explore".to_owned(), queries, after, state };
    assert(plan_view(res) =~= plan_explore(*r, *f));
    res
}

/// The plan of the page `overview_year`.
pub open spec fn plan_overview_year(r: Resources, f: SqlFilters) -> PlanView {
    PlanView {
        title: TitleView::Translation("/overview/year"@, "Overview: Year"@),
        template: "overview_year"@,
        queries: seq![("overview_year"@, filt(f, r.query_overview_year@))],
        after: seq![],
        state: seq![],
    }
}

/// Builds the plan of the page `overview_year`.
fn page_overview_year(r: &Resources, f: &SqlFilters) -> (res: PagePlan)
    ensures
        plan_view(res) == plan_overview_year(*r, *f),
{
    let mut queries: Vec<(String, String)> = Vec::new();
    queries.push(("overview_year".to_owned(), f.apply(r.query_overview_year.as_str())));
    let after: Vec<AfterLoad> = Vec::new();
    let state: Vec<(String, StateValue)> = Vec::new();
    let res = PagePlan { title: TitleSource::Translation { pointer: "/overview/year".to_owned(), fallback: "Overview: Year".to_owned() }, template: "overview_year".to_owned(), queries, after, state };
    assert(plan_view(res) =~= plan_overview_year(*r, *f));
    res
}

/// The plan of the page `overview_country`.
pub open spec fn plan_overview_country(r: Resources, f: SqlFilters) -> PlanView {
    PlanView {
        title: TitleView::Translation("/overview/country"@, "Overview: Country"@),
        template: "overview_country"@,
        queries: seq![("overview_country"@, filt(f, r.query_overview_country@))],
        after: seq![],
        state: seq![],
    }
}

/// Builds the plan of the page `overview_country`.
fn page_overview_country(r: &Resources, f: &SqlFilters) -> (res: PagePlan)
    ensures
        plan_view(res) == plan_overview_country(*r, *f),
{
    let mut queries: Vec<(String, String)> = Vec::new();
    queries.push(("overview_country".to_owned(), f.apply(r.query_overview_country.as_str())));
    let after: Vec<AfterLoad> = Vec::new();
    let state: Vec<(String, StateValue)> = Vec::new();
    let res = PagePlan { title: TitleSource::Translation { pointer: "/overview/country".to_owned(), fallback: "Overview: Country".to_owned() }, template: "overview_country".to_owned(), queries, after, state };
    assert(plan_view(res) =~= plan_overview_country(*r, *f));
    res
}

/// The plan of the page `overview_plain`.
pub open spec fn plan_overview_plain(r: Resources, f: SqlFilters) -> PlanView {
    PlanView {
        title: TitleView::Translation("/overview/plain"@, "Overview: Plain"@),
        template: "overview_plain"@,
        queries: seq![("overview_plain"@, filt(f, r.query_overview_plain@))],
        after: seq![],
        state: seq![],
    }
}

/// Builds the plan of the page `overview_plain`.
fn page_overview_plain(r: &Resources, f: &SqlFilters) -> (res: PagePlan)
    ensures
        plan_view(res) == plan_overview_plain(*r, *f),
{
    let mut queries: Vec<(String, String)> = Vec::new();
    queries.push(("overview_plain".to_owned(), f.apply(r.query_overview_plain.as_str())));
    let after: Vec<AfterLoad> = Vec::new();
    let state: Vec<(String, StateValue)> = Vec::new();
    let res = PagePlan { title: TitleSource::Translation { pointer: "/overview/plain".to_owned(), fallback: "Overview: Plain".to_owned() }, template: "overview_plain".to_owned(), queries, after, state };
    assert(plan_view(res) =~= plan_overview_plain(*r, *f));
    res
}

/// The plan of the page `map`.
pub open spec fn plan_map(r: Resources, f: SqlFilters) -> PlanView {
    PlanView {
        title: TitleView::Translation("/map/title"@, "Map"@),
        template: "map"@,
        queries: seq![("map_country_list"@, filt(f, r.query_map_country_list@)), ("map_data"@, filt(f, r.query_map_contour@)), ("common_trip_domains"@, r.query_common_trip_domains@)],
        after: seq![AfterLoad::LoadContourMap],
        state: seq![],
    }
}

/// Builds the plan of the page `map`.
fn page_map(r: &Resources, f: &SqlFilters) -> (res: PagePlan)
    ensures
        plan_view(res) == plan_map(*r, *f),
{
    let mut queries: Vec<(String, String)> = Vec::new();
    queries.push(("map_country_list".to_owned(), f.apply(r.query_map_country_list.as_str())));
    queries.push(("map_data".to_owned(), f.apply(r.query_map_contour.as_str())));
    queries.push(("common_trip_domains".to_owned(), r.query_common_trip_domains.clone()));
    let mut after: Vec<AfterLoad> = Vec::new();
    after.push(AfterLoad::LoadContourMap);
    let state: Vec<(String, StateValue)> = Vec::new();
    let res = PagePlan { title: TitleSource::Translation { pointer: "/map/title".to_owned(), fallback: "Map".to_owned() }, template: "map".to_owned(), queries, after, state };
    assert(plan_view(res) =~= plan_map(*r, *f));
    res
}

/// The plan of the page `statistics_summary`.
pub open spec fn plan_statistics_summary(r: Resources, f: SqlFilters) -> PlanView {
    PlanView {
        title: TitleView::Translation("/statistics/summary"@, "Statistics: Summary"@),
        template: "statistics_summary"@,
        queries: seq![("statistics_visits"@, filt(f, spec_replace(spec_replace(spec_replace(r.query_statistics_visits@, "SELECT\n    Country,\n    OL,\n    SS,\n    VSS,\n    PS,\n    OLMQ,\n    SSMQ,\n    VSSMQ,\n    PSMQ\nFROM Aggregated\nORDER BY OL DESC;"@, "SELECT COUNT(DISTINCT Country) AS TripCount FROM Aggregated;"@), "/*"@, ""@), "*/"@, ""@))), ("statistics_trip_count"@, filt(f, r.query_statistics_trip_count@)), ("statistics_per_domain_year"@, filt(f, r.query_statistics_per_domain_year@)), ("common_trip_domains"@, r.query_common_trip_domains@)],
        after: seq![AfterLoad::InitializeChart],
        state: seq![],
    }
}

/// Builds the plan of the page `statistics_summary`.
fn page_statistics_summary(r: &Resources, f: &SqlFilters) -> (res: PagePlan)
    ensures
        plan_view(res) == plan_statistics_summary(*r, *f),
{
    let mut queries: Vec<(String, String)> = Vec::new();
    let sql = replace_all(r.query_statistics_visits.as_str(), "SELECT\n    Country,\n    OL,\n    SS,\n    VSS,\n    PS,\n    OLMQ,\n    SSMQ,\n    VSSMQ,\n    PSMQ\nFROM Aggregated\nORDER BY OL DESC;", "SELECT COUNT(DISTINCT Country) AS TripCount FROM Aggregated;");
    let sql = replace_all(sql.as_str(), "/*", "");
    let sql = replace_all(sql.as_str(), "*/", "");
    queries.push(("statistics_visits".to_owned(), f.apply(sql.as_str())));
    queries.push(("statistics_trip_count".to_owned(), f.apply(r.query_statistics_trip_count.as_str())));
    queries.push(("statistics_per_domain_year".to_owned(), f.apply(r.query_statistics_per_domain_year.as_str())));
    queries.push(("common_trip_domains".to_owned(), r.query_common_trip_domains.clone()));
    let mut after: Vec<AfterLoad> = Vec::new();
    after.push(AfterLoad::InitializeChart);
    let state: Vec<(String, StateValue)> = Vec::new();
    let res = PagePlan { title: TitleSource::Translation { pointer: "/statistics/summary".to_owned(), fallback: "Statistics: Summary".to_owned() }, template: "statistics_summary".to_owned(), queries, after, state };
    assert(plan_view(res) =~= plan_statistics_summary(*r, *f));
    res
}

/// The plan of the page `statistics_visits`.
pub open spec fn plan_statistics_visits(r: Resources, f: SqlFilters) -> PlanView {
    PlanView {
        title: TitleView::Translation("/statistics/visits"@, "Statistics: Visits"@),
        template: "statistics_visits"@,
        queries: seq![("statistics_visits"@, filt(f, spec_replace(spec_replace(r.query_statistics_visits@, "/*"@, ""@), "*/"@, ""@)))],
        after: seq![],
        state: seq![],
    }
}

/// Builds the plan of the page `statistics_visits`.
fn page_statistics_visits(r: &Resources, f: &SqlFilters) -> (res: PagePlan)
    ensures
        plan_view(res) == plan_statistics_visits(*r, *f),
{
    let mut queries: Vec<(String, String)> = Vec::new();
    let sql = replace_all(r.query_statistics_visits.as_str(), "/*", "");
    let sql = replace_all(sql.as_str(), "*/", "");
    queries.push(("statistics_visits".to_owned(), f.apply(sql.as_str())));
    let after: Vec<AfterLoad> = Vec::new();
    let state: Vec<(String, StateValue)> = Vec::new();
    let res = PagePlan { title: TitleSource::Translation { pointer: "/statistics/visits".to_owned(), fallback: "Statistics: Visits".to_owned() }, template: "statistics_visits".to_owned(), queries, after, state };
    assert(plan_view(res) =~= plan_statistics_visits(*r, *f));
    res
}

/// The plan of the page `statistics_overnights`.
pub open spec fn plan_statistics_overnights(r: Resources, f: SqlFilters) -> PlanView {
    PlanView {
        title: TitleView::Translation("/statistics/overnights"@, "Statistics: Overnights"@),
        template: "statistics_overnights"@,
        queries: seq![("statistics_overnights"@, filt(f, spec_replace(spec_replace(r.query_statistics_overnights@, "/*"@, ""@), "*/"@, ""@)))],
        after: seq![AfterLoad::InitializeChartOvernights],
        state: seq![],
    }
}

/// Builds the plan of the page `statistics_overnights`.
fn page_statistics_overnights(r: &Resources, f: &SqlFilters) -> (res: PagePlan)
    ensures
        plan_view(res) == plan_statistics_overnights(*r, *f),
{
    let mut queries: Vec<(String, String)> = Vec::new();
    let sql = replace_all(r.query_statistics_overnights.as_str(), "/*", "");
    let sql = replace_all(sql.as_str(), "*/", "");
    queries.push(("statistics_overnights".to_owned(), f.apply(sql.as_str())));
    let mut after: Vec<AfterLoad> = Vec::new();
    after.push(AfterLoad::InitializeChartOvernights);
    let state: Vec<(String, StateValue)> = Vec::new();
    let res = PagePlan { title: TitleSource::Translation { pointer: "/statistics/overnights".to_owned(), fallback: "Statistics: Overnights".to_owned() }, template: "statistics_overnights".to_owned(), queries, after, state };
    assert(plan_view(res) =~= plan_statistics_overnights(*r, *f));
    res
}

/// The plan of the page `statistics_themes`.
pub open spec fn plan_statistics_themes(r: Resources, f: SqlFilters) -> PlanView {
    PlanView {
        title: TitleView::Setting("/Plugin/Theme/translation"@, "Themes"@),
        template: "statistics_themes"@,
        queries: seq![("statistics_theme_count"@, filt(f, r.query_statistics_theme_count@))],
        after: seq![],
        state: seq![],
    }
}

/// Builds the plan of the page `statistics_themes`.
fn page_statistics_themes(r: &Resources, f: &SqlFilters) -> (res: PagePlan)
    ensures
        plan_view(res) == plan_statistics_themes(*r, *f),
{
    let mut queries: Vec<(String, String)> = Vec::new();
    queries.push(("statistics_theme_count".to_owned(), f.apply(r.query_statistics_theme_count.as_str())));
    let after: Vec<AfterLoad> = Vec::new();
    let state: Vec<(String, StateValue)> = Vec::new();
    let res = PagePlan { title: TitleSource::Setting { pointer: "/Plugin/Theme/translation".to_owned(), fallback: "Themes".to_owned() }, template: "statistics_themes".to_owned(), queries, after, state };
    assert(plan_view(res) =~= plan_statistics_themes(*r, *f));
    res
}

/// The plan of the page `dataset`.
pub open spec fn plan_dataset(r: Resources, f: SqlFilters) -> PlanView {
    PlanView {
        title: TitleView::Translation("/dataset/title"@, "Dataset"@),
        template: "dataset"@,
        queries: seq![("table_list"@, "SELECT name FROM sqlite_master WHERE type IN ('table', 'view') ORDER BY name;"@), ("stored_custom_queries"@, "SELECT ROWID, Name FROM com_CodeCollection WHERE Target = 'BewDataset';"@)],
        after: seq![AfterLoad::LoadCodeEditor, AfterLoad::InitiateSpreadsheet],
        state: seq![("query_templates"@, StateView::Names(catalog_names(r)))],
    }
}

/// Builds the plan of the page `dataset`.
fn page_dataset(r: &Resources, f: &SqlFilters) -> (res: PagePlan)
    ensures
        plan_view(res) == plan_dataset(*r, *f),
{
    let mut queries: Vec<(String, String)> = Vec::new();
    queries.push(("table_list".to_owned(), "SELECT name FROM sqlite_master WHERE type IN ('table', 'view') ORDER BY name;".to_owned()));
    queries.push(("stored_custom_queries".to_owned(), "SELECT ROWID, Name FROM com_CodeCollection WHERE Target = 'BewDataset';".to_owned()));
    let mut after: Vec<AfterLoad> = Vec::new();
    after.push(AfterLoad::LoadCodeEditor);
    after.push(AfterLoad::InitiateSpreadsheet);
    let mut state: Vec<(String, StateValue)> = Vec::new();
    let names = resource_names(r);
    assert(strings_view(names@) =~= catalog_names(*r));
    state.push(("query_templates".to_owned(), StateValue::Names(names)));
    let res = PagePlan { title: TitleSource::Translation { pointer: "/dataset/title".to_owned(), fallback: "Dataset".to_owned() }, template: "dataset".to_owned(), queries, after, state };
    assert(plan_view(res) =~= plan_dataset(*r, *f));
    res
}

/// The plan of the page `source`.
pub open spec fn plan_source(r: Resources, f: SqlFilters, db_stored: bool) -> PlanView {
    let db_word = if db_stored { "stored"@ } else { "missing"@ };
    PlanView {
        title: TitleView::Translation("/source/title"@, "Source"@),
        template: "source"@,
        queries: seq![("cover_photo_original_paths"@, "SELECT OuterId, CoverPhoto FROM bewa_Overview WHERE CoverPhoto IS NOT NULL;"@)],
        after: seq![AfterLoad::CheckImmichAuthorization],
        state: seq![("db_loaded"@, StateView::Text(db_word))],
    }
}

/// Builds the plan of the page `source`.
fn page_source(r: &Resources, f: &SqlFilters, db_stored: bool) -> (res: PagePlan)
    ensures
        plan_view(res) == plan_source(*r, *f, db_stored),
{
    let db_word: String = if db_stored { "stored".to_owned() } else { "missing".to_owned() };
    let mut queries: Vec<(String, String)> = Vec::new();
    queries.push(("cover_photo_original_paths".to_owned(), "SELECT OuterId, CoverPhoto FROM bewa_Overview WHERE CoverPhoto IS NOT NULL;".to_owned()));
    let mut after: Vec<AfterLoad> = Vec::new();
    after.push(AfterLoad::CheckImmichAuthorization);
    let mut state: Vec<(String, StateValue)> = Vec::new();
    state.push(("db_loaded".to_owned(), StateValue::Text(db_word.clone())));
    let res = PagePlan { title: TitleSource::Translation { pointer: "/source/title".to_owned(), fallback: "Source".to_owned() }, template: "source".to_owned(), queries, after, state };
    assert(plan_view(res) =~= plan_source(*r, *f, db_stored));
    res
}

/// The plan of the page `about`.
pub open spec fn plan_about(r: Resources, f: SqlFilters) -> PlanView {
    PlanView {
        title: TitleView::Translation("/about/title"@, "About"@),
        template: "about"@,
        queries: seq![],
        after: seq![],
        state: seq![("update_info"@, StateView::UpdateInfo), ("current_version"@, StateView::Text(r.current_version@))],
    }
}

/// Builds the plan of the page `about`.
fn page_about(r: &Resources, f: &SqlFilters) -> (res: PagePlan)
    ensures
        plan_view(res) == plan_about(*r, *f),
{
    let queries: Vec<(String, String)> = Vec::new();
    let after: Vec<AfterLoad> = Vec::new();
    let mut state: Vec<(String, StateValue)> = Vec::new();
    state.push(("update_info".to_owned(), StateValue::UpdateInfo));
    state.push(("current_version".to_owned(), StateValue::Text(r.current_version.clone())));
    let res = PagePlan { title: TitleSource::Translation { pointer: "/about/title".to_owned(), fallback: "About".to_owned() }, template: "about".to_owned(), queries, after, state };
    assert(plan_view(res) =~= plan_about(*r, *f));
    res
}

/// The plan of the page `report`.
pub open spec fn plan_report(r: Resources, f: SqlFilters) -> PlanView {
    PlanView {
        title: TitleView::Translation("/toolbox/report"@, "Report"@),
        template: "report"@,
        queries: seq![],
        after: seq![],
        state: seq![("date_now"@, StateView::DateNow), ("year_now"@, StateView::YearNow)],
    }
}

/// Builds the plan of the page `report`.
fn page_report(r: &Resources, f: &SqlFilters) -> (res: PagePlan)
    ensures
        plan_view(res) == plan_report(*r, *f),
{
    let queries: Vec<(String, String)> = Vec::new();
    let after: Vec<AfterLoad> = Vec::new();
    let mut state: Vec<(String, StateValue)> = Vec::new();
    state.push(("date_now".to_owned(), StateValue::DateNow));
    state.push(("year_now".to_owned(), StateValue::YearNow));
    let res = PagePlan { title: TitleSource::Translation { pointer: "/toolbox/report".to_owned(), fallback: "Report".to_owned() }, template: "report".to_owned(), queries, after, state };
    assert(plan_view(res) =~= plan_report(*r, *f));
    res
}

/// The plan of the page `input`.
pub open spec fn plan_input(r: Resources, f: SqlFilters) -> PlanView {
    PlanView {
        title: TitleView::Translation("/toolbox/input"@, "Input"@),
        template: "toolbox"@,
        queries: seq![],
        after: seq![AfterLoad::InitCreateTrip],
        state: seq![],
    }
}

/// Builds the plan of the page `input`.
fn page_input(r: &Resources, f: &SqlFilters) -> (res: PagePlan)
    ensures
        plan_view(res) == plan_input(*r, *f),
{
    let queries: Vec<(String, String)> = Vec::new();
    let mut after: Vec<AfterLoad> = Vec::new();
    after.push(AfterLoad::InitCreateTrip);
    let state: Vec<(String, StateValue)> = Vec::new();
    let res = PagePlan { title: TitleSource::Translation { pointer: "/toolbox/input".to_owned(), fallback: "Input".to_owned() }, template: "toolbox".to_owned(), queries, after, state };
    assert(plan_view(res) =~= plan_input(*r, *f));
    res
}

/// The plan of the page `trip_inner`.
pub open spec fn plan_trip_inner(r: Resources, f: SqlFilters, id: Seq<char>) -> PlanView {
    PlanView {
        title: TitleView::Text(id),
        template: "trip"@,
        queries: seq![("trip_summary"@, spec_replace(r.query_trip_summary@, "= InnerId"@, quoted_id(id))), ("trip_events"@, spec_replace(r.query_trip_events@, "= e.InnerId"@, quoted_id(id))), ("common_trip_domains"@, r.query_common_trip_domains@), ("trip_unique_countries"@, spec_replace(r.query_trip_unique_countries@, "= InnerId"@, quoted_id(id))), ("trip_border_crossings"@, spec_replace(r.query_trip_border_crossings@, "= a.InnerId"@, quoted_id(id))), ("trip_map_pins_overall"@, spec_replace(r.query_trip_map_pins_overall@, "= InnerId"@, quoted_id(id))), ("trip_map_pins_accommodation"@, spec_replace(r.query_trip_map_pins_accommodation@, "= o.InnerId"@, quoted_id(id))), ("trip_previous"@, filt(f, spec_replace(r.query_trip_previous@, "= InnerId"@, quoted_id(id)))), ("trip_next"@, filt(f, spec_replace(r.query_trip_next@, "= InnerId"@, quoted_id(id)))), ("trip_immich_desc_search"@, spec_replace(r.query_trip_immich_desc_search@, "= InnerId"@, quoted_id(id))), ("trip_immich_album_name"@, spec_replace(r.query_trip_immich_album_name@, "= InnerId"@, quoted_id(id)))],
        after: seq![AfterLoad::LoadTripMap],
        state: seq![("cover_photos_list"@, StateView::CoverPhotos)],
    }
}

/// Builds the plan of the page `trip_inner`.
fn page_trip_inner(r: &Resources, f: &SqlFilters, id: &String) -> (res: PagePlan)
    ensures
        plan_view(res) == plan_trip_inner(*r, *f, id@),
{
    let mut queries: Vec<(String, String)> = Vec::new();
    let quoted = quote_id(id.as_str());
    let sql = replace_all(r.query_trip_summary.as_str(), "= InnerId", quoted.as_str());
    queries.push(("trip_summary".to_owned(), sql));
    let sql = replace_all(r.query_trip_events.as_str(), "= e.InnerId", quoted.as_str());
    queries.push(("trip_events".to_owned(), sql));
    queries.push(("common_trip_domains".to_owned(), r.query_common_trip_domains.clone()));
    let sql = replace_all(r.query_trip_unique_countries.as_str(), "= InnerId", quoted.as_str());
    queries.push(("trip_unique_countries".to_owned(), sql));
    let sql = replace_all(r.query_trip_border_crossings.as_str(), "= a.InnerId", quoted.as_str());
    queries.push(("trip_border_crossings".to_owned(), sql));
    let sql = replace_all(r.query_trip_map_pins_overall.as_str(), "= InnerId", quoted.as_str());
    queries.push(("trip_map_pins_overall".to_owned(), sql));
    let sql = replace_all(r.query_trip_map_pins_accommodation.as_str(), "= o.InnerId", quoted.as_str());
    queries.push(("trip_map_pins_accommodation".to_owned(), sql));
    let sql = replace_all(r.query_trip_previous.as_str(), "= InnerId", quoted.as_str());
    queries.push(("trip_previous".to_owned(), f.apply(sql.as_str())));
    let sql = replace_all(r.query_trip_next.as_str(), "= InnerId", quoted.as_str());
    queries.push(("trip_next".to_owned(), f.apply(sql.as_str())));
    let sql = replace_all(r.query_trip_immich_desc_search.as_str(), "= InnerId", quoted.as_str());
    queries.push(("trip_immich_desc_search".to_owned(), sql));
    let sql = replace_all(r.query_trip_immich_album_name.as_str(), "= InnerId", quoted.as_str());
    queries.push(("trip_immich_album_name".to_owned(), sql));
    let mut after: Vec<AfterLoad> = Vec::new();
    after.push(AfterLoad::LoadTripMap);
    let mut state: Vec<(String, StateValue)> = Vec::new();
    state.push(("cover_photos_list".to_owned(), StateValue::CoverPhotos));
    let res = PagePlan { title: TitleSource::Text(id.clone()), template: "trip".to_owned(), queries, after, state };
    assert(plan_view(res) =~= plan_trip_inner(*r, *f, id@));
    res
}

/// The plan of the page `trip_outer`.
pub open spec fn plan_trip_outer(r: Resources, f: SqlFilters, id: Seq<char>) -> PlanView {
    PlanView {
        title: TitleView::Text(id),
        template: "trip"@,
        queries: seq![("trip_summary"@, spec_replace(r.query_trip_summary@, "= OuterId"@, quoted_id(id))), ("trip_events"@, spec_replace(r.query_trip_events@, "= o.OuterId"@, quoted_id(id))), ("common_trip_domains"@, r.query_common_trip_domains@), ("trip_unique_countries"@, spec_replace(r.query_trip_unique_countries@, "= OuterId"@, quoted_id(id))), ("trip_border_crossings"@, spec_replace(r.query_trip_border_crossings@, "= b.OuterId"@, quoted_id(id))), ("trip_map_pins_overall"@, spec_replace(r.query_trip_map_pins_overall@, "= OuterId"@, quoted_id(id))), ("trip_map_pins_accommodation"@, spec_replace(r.query_trip_map_pins_accommodation@, "= o.OuterId"@, quoted_id(id))), ("trip_previous"@, filt(f, spec_replace(r.query_trip_previous@, "= OuterId"@, quoted_id(id)))), ("trip_next"@, filt(f, spec_replace(r.query_trip_next@, "= OuterId"@, quoted_id(id)))), ("trip_immich_desc_search"@, spec_replace(r.query_trip_immich_desc_search@, "= OuterId"@, quoted_id(id))), ("trip_immich_album_name"@, spec_replace(r.query_trip_immich_album_name@, "= OuterId"@, quoted_id(id))), ("trip_extension_movie"@, spec_replace(r.query_trip_extension_movie@, "_OUTER_ID_"@, id))],
        after: seq![AfterLoad::LoadTripMap],
        state: seq![("cover_photos_list"@, StateView::CoverPhotos)],
    }
}

/// Builds the plan of the page `trip_outer`.
fn page_trip_outer(r: &Resources, f: &SqlFilters, id: &String) -> (res: PagePlan)
    ensures
        plan_view(res) == plan_trip_outer(*r, *f, id@),
{
    let mut queries: Vec<(String, String)> = Vec::new();
    let quoted = quote_id(id.as_str());
    let sql = replace_all(r.query_trip_summary.as_str(), "= OuterId", quoted.as_str());
    queries.push(("trip_summary".to_owned(), sql));
    let sql = replace_all(r.query_trip_events.as_str(), "= o.OuterId", quoted.as_str());
    queries.push(("trip_events".to_owned(), sql));
    queries.push(("common_trip_domains".to_owned(), r.query_common_trip_domains.clone()));
    let sql = replace_all(r.query_trip_unique_countries.as_str(), "= OuterId", quoted.as_str());
    queries.push(("trip_unique_countries".to_owned(), sql));
    let sql = replace_all(r.query_trip_border_crossings.as_str(), "= b.OuterId", quoted.as_str());
    queries.push(("trip_border_crossings".to_owned(), sql));
    let sql = replace_all(r.query_trip_map_pins_overall.as_str(), "= OuterId", quoted.as_str());
    queries.push(("trip_map_pins_overall".to_owned(), sql));
    let sql = replace_all(r.query_trip_map_pins_accommodation.as_str(), "= o.OuterId", quoted.as_str());
    queries.push(("trip_map_pins_accommodation".to_owned(), sql));
    let sql = replace_all(r.query_trip_previous.as_str(), "= OuterId", quoted.as_str());
    queries.push(("trip_previous".to_owned(), f.apply(sql.as_str())));
    let sql = replace_all(r.query_trip_next.as_str(), "= OuterId", quoted.as_str());
    queries.push(("trip_next".to_owned(), f.apply(sql.as_str())));
    let sql = replace_all(r.query_trip_immich_desc_search.as_str(), "= OuterId", quoted.as_str());
    queries.push(("trip_immich_desc_search".to_owned(), sql));
    let sql = replace_all(r.query_trip_immich_album_name.as_str(), "= OuterId", quoted.as_str());
    queries.push(("trip_immich_album_name".to_owned(), sql));
    let sql = replace_all(r.query_trip_extension_movie.as_str(), "_OUTER_ID_", id.as_str());
    queries.push(("trip_extension_movie".to_owned(), sql));
    let mut after: Vec<AfterLoad> = Vec::new();
    after.push(AfterLoad::LoadTripMap);
    let mut state: Vec<(String, StateValue)> = Vec::new();
    state.push(("cover_photos_list".to_owned(), StateValue::CoverPhotos));
    let res = PagePlan { title: TitleSource::Text(id.clone()), template: "trip".to_owned(), queries, after, state };
    assert(plan_view(res) =~= plan_trip_outer(*r, *f, id@));
    res
}

/// The plan of the page `images`.
pub open spec fn plan_images(r: Resources, f: SqlFilters, suffix: Seq<char>, trip_id: Seq<char>, trip_date: Seq<char>) -> PlanView {
    PlanView {
        title: TitleView::Text(suffix),
        template: "images"@,
        queries: seq![("images_date_list"@, spec_replace(r.query_images_date_list@, "/*_OUTER_ID_*/"@, trip_id)), ("common_trip_domains"@, r.query_common_trip_domains@), ("images_photo_time"@, spec_replace(r.query_images_photo_time@, "/*_OUTER_ID_*/"@, trip_id))],
        after: seq![],
        state: seq![("trip_date"@, StateView::Text(trip_date)), ("trip_id"@, StateView::Text(trip_id))],
    }
}

/// Builds the plan of the page `images`.
fn page_images(r: &Resources, f: &SqlFilters, suffix: &String, trip_id: &String, trip_date: &String) -> (res: PagePlan)
    ensures
        plan_view(res) == plan_images(*r, *f, suffix@, trip_id@, trip_date@),
{
    let mut queries: Vec<(String, String)> = Vec::new();
    let sql = replace_all(r.query_images_date_list.as_str(), "/*_OUTER_ID_*/", trip_id.as_str());
    queries.push(("images_date_list".to_owned(), sql));
    queries.push(("common_trip_domains".to_owned(), r.query_common_trip_domains.clone()));
    let sql = replace_all(r.query_images_photo_time.as_str(), "/*_OUTER_ID_*/", trip_id.as_str());
    queries.push(("images_photo_time".to_owned(), sql));
    let after: Vec<AfterLoad> = Vec::new();
    let mut state: Vec<(String, StateValue)> = Vec::new();
    state.push(("trip_date".to_owned(), StateValue::Text(trip_date.clone())));
    state.push(("trip_id".to_owned(), StateValue::Text(trip_id.clone())));
    let res = PagePlan { title: TitleSource::Text(suffix.clone()), template: "images".to_owned(), queries, after, state };
    assert(plan_view(res) =~= plan_images(*r, *f, suffix@, trip_id@, trip_date@));
    res
}

/// The plan of the page `map_country`.
pub open spec fn plan_map_country(r: Resources, f: SqlFilters, country: Seq<char>) -> PlanView {
    PlanView {
        title: TitleView::Translation("/map/title"@, "Map"@),
        template: "map"@,
        queries: seq![("map_country_list"@, filt(f, r.query_map_country_list@)), ("common_trip_domains"@, r.query_common_trip_domains@), ("map_data"@, filt(f, spec_replace(r.query_map_country@, "_COUNTRY_"@, country)))],
        after: seq![AfterLoad::LoadCountryMap],
        state: seq![],
    }
}

/// Builds the plan of the page `map_country`.
fn page_map_country(r: &Resources, f: &SqlFilters, country: &String) -> (res: PagePlan)
    ensures
        plan_view(res) == plan_map_country(*r, *f, country@),
{
    let mut queries: Vec<(String, String)> = Vec::new();
    queries.push(("map_country_list".to_owned(), f.apply(r.query_map_country_list.as_str())));
    queries.push(("common_trip_domains".to_owned(), r.query_common_trip_domains.clone()));
    let sql = replace_all(r.query_map_country.as_str(), "_COUNTRY_", country.as_str());
    queries.push(("map_data".to_owned(), f.apply(sql.as_str())));
    let mut after: Vec<AfterLoad> = Vec::new();
    after.push(AfterLoad::LoadCountryMap);
    let state: Vec<(String, StateValue)> = Vec::new();
    let res = PagePlan { title: TitleSource::Translation { pointer: "/map/title".to_owned(), fallback: "Map".to_owned() }, template: "map".to_owned(), queries, after, state };
    assert(plan_view(res) =~= plan_map_country(*r, *f, country@));
    res
}

/// The plan of the page `map_theme`.
pub open spec fn plan_map_theme(r: Resources, f: SqlFilters, theme: Seq<char>) -> PlanView {
    PlanView {
        title: TitleView::Translation("/map/title"@, "Map"@),
        template: "map"@,
        queries: seq![("map_country_list"@, filt(f, r.query_map_country_list@)), ("common_trip_domains"@, r.query_common_trip_domains@), ("map_data"@, filt(f, spec_replace(r.query_map_theme@, "_THEME_"@, theme)))],
        after: seq![AfterLoad::LoadThemeMap],
        state: seq![],
    }
}

/// Builds the plan of the page `map_theme`.
fn page_map_theme(r: &Resources, f: &SqlFilters, theme: &String) -> (res: PagePlan)
    ensures
        plan_view(res) == plan_map_theme(*r, *f, theme@),
{
    let mut queries: Vec<(String, String)> = Vec::new();
    queries.push(("map_country_list".to_owned(), f.apply(r.query_map_country_list.as_str())));
    queries.push(("common_trip_domains".to_owned(), r.query_common_trip_domains.clone()));
    let sql = replace_all(r.query_map_theme.as_str(), "_THEME_", theme.as_str());
    queries.push(("map_data".to_owned(), f.apply(sql.as_str())));
    let mut after: Vec<AfterLoad> = Vec::new();
    after.push(AfterLoad::LoadThemeMap);
    let state: Vec<(String, StateValue)> = Vec::new();
    let res = PagePlan { title: TitleSource::Translation { pointer: "/map/title".to_owned(), fallback: "Map".to_owned() }, template: "map".to_owned(), queries, after, state };
    assert(plan_view(res) =~= plan_map_theme(*r, *f, theme@));
    res
}

/// The plan of the page `search`.
pub open spec fn plan_search(r: Resources, f: SqlFilters, suffix: Seq<char>) -> PlanView {
    PlanView {
        title: TitleView::Text(suffix),
        template: "search"@,
        queries: seq![("search_trip"@, filt(f, spec_replace(r.query_search_trip@, "/*_STRING_*/"@, suffix))), ("search_event"@, filt(f, spec_replace(r.query_search_event@, "/*_STRING_*/"@, suffix)))],
        after: seq![],
        state: seq![],
    }
}

/// Builds the plan of the page `search`.
fn page_search(r: &Resources, f: &SqlFilters, suffix: &String) -> (res: PagePlan)
    ensures
        plan_view(res) == plan_search(*r, *f, suffix@),
{
    let mut queries: Vec<(String, String)> = Vec::new();
    let sql = replace_all(r.query_search_trip.as_str(), "/*_STRING_*/", suffix.as_str());
    queries.push(("search_trip".to_owned(), f.apply(sql.as_str())));
    let sql = replace_all(r.query_search_event.as_str(), "/*_STRING_*/", suffix.as_str());
    queries.push(("search_event".to_owned(), f.apply(sql.as_str())));
    let after: Vec<AfterLoad> = Vec::new();
    let state: Vec<(String, StateValue)> = Vec::new();
    let res = PagePlan { title: TitleSource::Text(suffix.clone()), template: "search".to_owned(), queries, after, state };
    assert(plan_view(res) =~= plan_search(*r, *f, suffix@));
    res
}

/// The plan of the page `report_output`.
pub open spec fn plan_report_output(r: Resources, f: SqlFilters, suffix: Seq<char>, title_str: Seq<char>, backside_str: Seq<char>) -> PlanView {
    PlanView {
        title: TitleView::Text(suffix),
        template: "report_output"@,
        queries: seq![("all_overview"@, filt(f, r.query_report_all_overview@)), ("all_events"@, filt(f, r.query_report_all_events@))],
        after: seq![],
        state: seq![("title_string"@, StateView::Text(title_str)), ("backside_string"@, StateView::Text(backside_str))],
    }
}

/// Builds the plan of the page `report_output`.
fn page_report_output(r: &Resources, f: &SqlFilters, suffix: &String, title_str: &String, backside_str: &String) -> (res: PagePlan)
    ensures
        plan_view(res) == plan_report_output(*r, *f, suffix@, title_str@, backside_str@),
{
    let mut queries: Vec<(String, String)> = Vec::new();
    queries.push(("all_overview".to_owned(), f.apply(r.query_report_all_overview.as_str())));
    queries.push(("all_events".to_owned(), f.apply(r.query_report_all_events.as_str())));
    let after: Vec<AfterLoad> = Vec::new();
    let mut state: Vec<(String, StateValue)> = Vec::new();
    state.push(("title_string".to_owned(), StateValue::Text(title_str.clone())));
    state.push(("backside_string".to_owned(), StateValue::Text(backside_str.clone())));
    let res = PagePlan { title: TitleSource::Text(suffix.clone()), template: "report_output".to_owned(), queries, after, state };
    assert(plan_view(res) =~= plan_report_output(*r, *f, suffix@, title_str@, backside_str@));
    res
}

/// The trip page for `trip:OUTER` or `trip::INNER`: by the outer id when one is
/// given, else by the inner id; no page when neither is given.
pub open spec fn spec_trip_page(rest: Seq<char>, r: Resources, f: SqlFilters) -> Option<PlanView> {
    let (outer, inner) = spec_split_once(rest, ':');
    if outer.len() > 0 {
        Some(plan_trip_outer(r, f, outer))
    } else {
        match inner {
            Some(i) => if i.len() > 0 {
                Some(plan_trip_inner(r, f, i))
            } else {
                None
            },
            None => None,
        }
    }
}

/// The plan of the page `page`, if it names one. Exact names come first;
/// then `trip:…`, `images:ID:DATE`, `map:country:…`, `map:theme:…`,
/// `search:…` and `report:output:TITLE:BACK`.
pub open spec fn spec_route(page: Seq<char>, r: Resources, f: SqlFilters, db_stored: bool) -> Option<PlanView> {
    if page == "explore"@ {
        Some(plan_explore(r, f))
    } else if page == "overview:year"@ {
        Some(plan_overview_year(r, f))
    } else if page == "overview:country"@ {
        Some(plan_overview_country(r, f))
    } else if page == "overview:plain"@ {
        Some(plan_overview_plain(r, f))
    } else if page == "map"@ {
        Some(plan_map(r, f))
    } else if page == "statistics:summary"@ {
        Some(plan_statistics_summary(r, f))
    } else if page == "statistics:visits"@ {
        Some(plan_statistics_visits(r, f))
    } else if page == "statistics:overnights"@ {
        Some(plan_statistics_overnights(r, f))
    } else if page == "statistics:themes"@ {
        Some(plan_statistics_themes(r, f))
    } else if page == "dataset"@ {
        Some(plan_dataset(r, f))
    } else if page == "source"@ {
        Some(plan_source(r, f, db_stored))
    } else if page == "about"@ {
        Some(plan_about(r, f))
    } else if page == "report"@ {
        Some(plan_report(r, f))
    } else if page == "input"@ {
        Some(plan_input(r, f))
    } else if "trip:"@.is_prefix_of(page) {
        spec_trip_page(page.skip("trip:"@.len() as int), r, f)
    } else if "images:"@.is_prefix_of(page) {
        let suffix = page.skip("images:"@.len() as int);
        match spec_split_once(suffix, ':').1 {
            Some(date) => Some(plan_images(r, f, suffix, spec_split_once(suffix, ':').0, date)),
            None => None,
        }
    } else if "map:"@.is_prefix_of(page) {
        let suffix = page.skip("map:"@.len() as int);
        if "country:"@.is_prefix_of(suffix) {
            Some(plan_map_country(r, f, suffix.skip("country:"@.len() as int)))
        } else if "theme:"@.is_prefix_of(suffix) {
            Some(plan_map_theme(r, f, suffix.skip("theme:"@.len() as int)))
        } else {
            None
        }
    } else if "search:"@.is_prefix_of(page) {
        Some(plan_search(r, f, page.skip("search:"@.len() as int)))
    } else if "report:output:"@.is_prefix_of(page) {
        let suffix = page.skip("report:output:"@.len() as int);
        match spec_split_once(suffix, ':').1 {
            Some(back) => Some(plan_report_output(r, f, suffix, spec_split_once(suffix, ':').0, back)),
            None => None,
        }
    } else {
        None
    }
}

/// The number of page prefixes (`trip:`, `images:`, `map:`, `search:`,
/// `report:output:`) that `page` starts with.
pub open spec fn prefix_count(page: Seq<char>) -> int {
    (if "trip:"@.is_prefix_of(page) { 1int } else { 0int }) + (if "images:"@.is_prefix_of(page) {
        1int
    } else {
        0int
    }) + (if "map:"@.is_prefix_of(page) { 1int } else { 0int }) + (if "search:"@.is_prefix_of(page) {
        1int
    } else {
        0int
    }) + (if "report:output:"@.is_prefix_of(page) { 1int } else { 0int })
}

/// No page starts with two of the page prefixes, so which prefixed page is
/// shown does not depend on the order in which the prefixes are tried.
pub proof fn law_page_prefixes_exclusive(page: Seq<char>)
    ensures
        prefix_count(page) <= 1,
{
    reveal_strlit("trip:");
    reveal_strlit("images:");
    reveal_strlit("map:");
    reveal_strlit("search:");
    reveal_strlit("report:output:");
    if "trip:"@.is_prefix_of(page) {
        assert("trip:"@[0] == 't');
        assert(page.subrange(0, "trip:"@.len() as int)[0] == page[0]);
    }
    if "images:"@.is_prefix_of(page) {
        assert("images:"@[0] == 'i');
        assert(page.subrange(0, "images:"@.len() as int)[0] == page[0]);
    }
    if "map:"@.is_prefix_of(page) {
        assert("map:"@[0] == 'm');
        assert(page.subrange(0, "map:"@.len() as int)[0] == page[0]);
    }
    if "search:"@.is_prefix_of(page) {
        assert("search:"@[0] == 's');
        assert(page.subrange(0, "search:"@.len() as int)[0] == page[0]);
    }
    if "report:output:"@.is_prefix_of(page) {
        assert("report:output:"@[0] == 'r');
        assert(page.subrange(0, "report:output:"@.len() as int)[0] == page[0]);
    }
}

/// Whether the characters `pv` are the text `t`.
fn is_text(pv: &Vec<char>, t: &str) -> (res: bool)
    ensures
        res == (pv@ == t@),
{
    let tv = chars_of(t);
    chars_eq(pv.as_slice(), tv.as_slice())
}

/// The part of `pv` after the prefix `t`, if it starts with `t`.
fn after_prefix(pv: &Vec<char>, t: &str) -> (res: Option<Vec<char>>)
    ensures
        res is Some == t@.is_prefix_of(pv@),
        res is Some ==> res->0@ == pv@.skip(t@.len() as int),
{
    let tv = chars_of(t);
    strip_prefix_chars(pv.as_slice(), tv.as_slice())
}

/// The trip page for the text after `trip:`.
fn trip_page(rest: &Vec<char>, r: &Resources, f: &SqlFilters) -> (res: Option<PagePlan>)
    ensures
        res is Some == spec_trip_page(rest@, *r, *f) is Some,
        res is Some ==> plan_view(res->0) == spec_trip_page(rest@, *r, *f)->0,
{
    let (outer, inner) = split_once_chars(rest.as_slice(), ':');
    if outer.len() > 0 {
        let id = string_of(outer.as_slice());
        Some(page_trip_outer(r, f, &id))
    } else {
        match inner {
            Some(i) => {
                if i.len() > 0 {
                    let id = string_of(i.as_slice());
                    Some(page_trip_inner(r, f, &id))
                } else {
                    None
                }
            },
            None => None,
        }
    }
}

/// What the page `page` shows, if it names a page; `db_stored` tells whether
/// a database is stored (the `source` page shows it).
pub fn route(page: &str, r: &Resources, f: &SqlFilters, db_stored: bool) -> (res: Option<PagePlan>)
    ensures
        res is Some == spec_route(page@, *r, *f, db_stored) is Some,
        res is Some ==> plan_view(res->0) == spec_route(page@, *r, *f, db_stored)->0,
{
    let pv = chars_of(page);
    if is_text(&pv, "explore") {
        return Some(page_explore(r, f));
    }
    if is_text(&pv, "overview:year") {
        return Some(page_overview_year(r, f));
    }
    if is_text(&pv, "overview:country") {
        return Some(page_overview_country(r, f));
    }
    if is_text(&pv, "overview:plain") {
        return Some(page_overview_plain(r, f));
    }
    if is_text(&pv, "map") {
        return Some(page_map(r, f));
    }
    if is_text(&pv, "statistics:summary") {
        return Some(page_statistics_summary(r, f));
    }
    if is_text(&pv, "statistics:visits") {
        return Some(page_statistics_visits(r, f));
    }
    if is_text(&pv, "statistics:overnights") {
        return Some(page_statistics_overnights(r, f));
    }
    if is_text(&pv, "statistics:themes") {
        return Some(page_statistics_themes(r, f));
    }
    if is_text(&pv, "dataset") {
        return Some(page_dataset(r, f));
    }
    if is_text(&pv, "source") {
        return Some(page_source(r, f, db_stored));
    }
    if is_text(&pv, "about") {
        return Some(page_about(r, f));
    }
    if is_text(&pv, "report") {
        return Some(page_report(r, f));
    }
    if is_text(&pv, "input") {
        return Some(page_input(r, f));
    }
    if let Some(rest) = after_prefix(&pv, "trip:") {
        return trip_page(&rest, r, f);
    }
    if let Some(suffix) = after_prefix(&pv, "images:") {
        let (id, date) = split_once_chars(suffix.as_slice(), ':');
        return match date {
            Some(d) => {
                let s = string_of(suffix.as_slice());
                let i = string_of(id.as_slice());
                let dd = string_of(d.as_slice());
                Some(page_images(r, f, &s, &i, &dd))
            },
            None => None,
        };
    }
    if let Some(suffix) = after_prefix(&pv, "map:") {
        if let Some(country) = after_prefix(&suffix, "country:") {
            let c = string_of(country.as_slice());
            return Some(page_map_country(r, f, &c));
        }
        if let Some(theme) = after_prefix(&suffix, "theme:") {
            let t = string_of(theme.as_slice());
            return Some(page_map_theme(r, f, &t));
        }
        return None;
    }
    if let Some(suffix) = after_prefix(&pv, "search:") {
        let s = string_of(suffix.as_slice());
        return Some(page_search(r, f, &s));
    }
    if let Some(suffix) = after_prefix(&pv, "report:output:") {
        let (title, back) = split_once_chars(suffix.as_slice(), ':');
        return match back {
            Some(b) => {
                let s = string_of(suffix.as_slice());
                let t = string_of(title.as_slice());
                let bb = string_of(b.as_slice());
                Some(page_report_output(r, f, &s, &t, &bb))
            },
            None => None,
        };
    }
    None
}

/// The page named by the `path` parameter, `explore` when there is none.
pub fn page_of(path: Option<String>) -> (res: String)
    ensures
        res@ == match path {
            Some(p) => p@,
            None => "explore"@,
        },
{
    match path {
        Some(p) => p,
        None => "explore".to_owned(),
    }
}

/// The title, template and queries of a page, once its title is resolved.
pub struct PageData {
    pub title: String,
    pub template: String,
    pub queries: Vec<(String, String)>,
}

/// The title of a plan whose source, if it is a translation or a setting,
/// resolved to `found`.
pub open spec fn spec_title(t: TitleSource, found: Option<String>) -> Seq<char> {
    match t {
        TitleSource::Text(s) => s@,
        TitleSource::Translation { pointer, fallback } => match found {
            Some(s) => s@,
            None => fallback@,
        },
        TitleSource::Setting { pointer, fallback } => match found {
            Some(s) => s@,
            None => fallback@,
        },
    }
}

/// The title, template and queries of `plan`, where `found` is the text that
/// the title's pointer leads to in the translation or the settings, if any.
pub fn page_data(plan: PagePlan, found: Option<String>) -> (res: PageData)
    ensures
        res.title@ == spec_title(plan.title, found),
        res.template == plan.template,
        res.queries == plan.queries,
{
    let title = match plan.title {
        TitleSource::Text(s) => s,
        TitleSource::Translation { pointer, fallback } => match found {
            Some(s) => s,
            None => fallback,
        },
        TitleSource::Setting { pointer, fallback } => match found {
            Some(s) => s,
            None => fallback,
        },
    };
    PageData { title, template: plan.template, queries: plan.queries }
}

/// A title that a page takes from the translation or the settings is the
/// text found there whenever one was found, and its fallback only when none
/// was; a fixed title is that text, whatever was found.
pub proof fn law_title_found_or_fallback(t: TitleSource, found: Option<String>)
    ensures
        !(t is Text) && found is Some ==> spec_title(t, found) == found->0@,
        t matches TitleSource::Translation { fallback, .. } ==> spec_title(t, None) == fallback@,
        t matches TitleSource::Setting { fallback, .. } ==> spec_title(t, None) == fallback@,
        t matches TitleSource::Text(s) ==> spec_title(t, found) == s@,
{
}

/// The window title of a page.
pub fn document_title(title: &str) -> (res: String)
    ensures
        res@ == title@ + " - Immer in Bewegung"@,
{
    let mut s = title.to_owned();
    s.append(" - Immer in Bewegung");
    s
}

/// The query named `name` that the page at `page` runs, if it runs one.
pub open spec fn page_query(page: Seq<char>, r: Resources, f: SqlFilters, db_stored: bool, name: Seq<char>) -> Option<Seq<char>> {
    match spec_route(page, r, f, db_stored) {
        Some(plan) => spec_find(plan.queries, name),
        None => None,
    }
}

/// `q` with its comment markers `/*` and `*/` removed.
pub open spec fn uncommented(q: Seq<char>) -> Seq<char> {
    spec_replace(spec_replace(q, "/*"@, ""@), "*/"@, ""@)
}

/// The pages whose data the selected filters narrow (explore, the overviews,
/// the map and the statistics) run each of their shipped queries, uncommented
/// where the page asks for it, with the SQL filters of the selection applied.
#[verifier::spinoff_prover]
#[verifier::rlimit(100)]
pub proof fn law_filtered_pages_apply_filters(r: Resources, f: SqlFilters, db_stored: bool)
    ensures
        page_query("explore"@, r, f, db_stored, "explore"@) == Some(spec_apply_filters(r.query_explore@, f.group@, f.domain@, f.label@)),
        page_query("overview:year"@, r, f, db_stored, "overview_year"@) == Some(spec_apply_filters(r.query_overview_year@, f.group@, f.domain@, f.label@)),
        page_query("overview:country"@, r, f, db_stored, "overview_country"@) == Some(spec_apply_filters(r.query_overview_country@, f.group@, f.domain@, f.label@)),
        page_query("overview:plain"@, r, f, db_stored, "overview_plain"@) == Some(spec_apply_filters(r.query_overview_plain@, f.group@, f.domain@, f.label@)),
        page_query("map"@, r, f, db_stored, "map_country_list"@) == Some(spec_apply_filters(r.query_map_country_list@, f.group@, f.domain@, f.label@)),
        page_query("map"@, r, f, db_stored, "map_data"@) == Some(spec_apply_filters(r.query_map_contour@, f.group@, f.domain@, f.label@)),
        page_query("statistics:summary"@, r, f, db_stored, "statistics_visits"@) == Some(spec_apply_filters(uncommented(spec_replace(r.query_statistics_visits@, "SELECT\n    Country,\n    OL,\n    SS,\n    VSS,\n    PS,\n    OLMQ,\n    SSMQ,\n    VSSMQ,\n    PSMQ\nFROM Aggregated\nORDER BY OL DESC;"@, "SELECT COUNT(DISTINCT Country) AS TripCount FROM Aggregated;"@)), f.group@, f.domain@, f.label@)),
        page_query("statistics:summary"@, r, f, db_stored, "statistics_trip_count"@) == Some(spec_apply_filters(r.query_statistics_trip_count@, f.group@, f.domain@, f.label@)),
        page_query("statistics:summary"@, r, f, db_stored, "statistics_per_domain_year"@) == Some(spec_apply_filters(r.query_statistics_per_domain_year@, f.group@, f.domain@, f.label@)),
        page_query("statistics:visits"@, r, f, db_stored, "statistics_visits"@) == Some(spec_apply_filters(uncommented(r.query_statistics_visits@), f.group@, f.domain@, f.label@)),
        page_query("statistics:overnights"@, r, f, db_stored, "statistics_overnights"@) == Some(spec_apply_filters(uncommented(r.query_statistics_overnights@), f.group@, f.domain@, f.label@)),
        page_query("statistics:themes"@, r, f, db_stored, "statistics_theme_count"@) == Some(spec_apply_filters(r.query_statistics_theme_count@, f.group@, f.domain@, f.label@)),
{
    reveal_strlit("about");
    reveal_strlit("common_trip_domains");
    reveal_strlit("dataset");
    reveal_strlit("explore");
    reveal_strlit("input");
    reveal_strlit("map");
    reveal_strlit("map_country_list");
    reveal_strlit("map_data");
    reveal_strlit("overview:country");
    reveal_strlit("overview:plain");
    reveal_strlit("overview:year");
    reveal_strlit("overview_country");
    reveal_strlit("overview_plain");
    reveal_strlit("overview_year");
    reveal_strlit("report");
    reveal_strlit("source");
    reveal_strlit("statistics:overnights");
    reveal_strlit("statistics:summary");
    reveal_strlit("statistics:themes");
    reveal_strlit("statistics:visits");
    reveal_strlit("statistics_overnights");
    reveal_strlit("statistics_per_domain_year");
    reveal_strlit("statistics_theme_count");
    reveal_strlit("statistics_trip_count");
    reveal_strlit("statistics_visits");
    assert("about"@.len() == 5);
    assert("common_trip_domains"@.len() == 19);
    assert("dataset"@.len() == 7);
    assert("explore"@.len() == 7);
    assert("input"@.len() == 5);
    assert("map"@.len() == 3);
    assert("map_country_list"@.len() == 16);
    assert("map_data"@.len() == 8);
    assert("overview:country"@.len() == 16);
    assert("overview:plain"@.len() == 14);
    assert("overview:year"@.len() == 13);
    assert("overview_country"@.len() == 16);
    assert("overview_plain"@.len() == 14);
    assert("overview_year"@.len() == 13);
    assert("report"@.len() == 6);
    assert("source"@.len() == 6);
    assert("statistics:overnights"@.len() == 21);
    assert("statistics:summary"@.len() == 18);
    assert("statistics:themes"@.len() == 17);
    assert("statistics:visits"@.len() == 17);
    assert("statistics_overnights"@.len() == 21);
    assert("statistics_per_domain_year"@.len() == 26);
    assert("statistics_theme_count"@.len() == 22);
    assert("statistics_trip_count"@.len() == 21);
    assert("statistics_visits"@.len() == 17);
    assert(spec_route("explore"@, r, f, db_stored) is Some) by {
    }
    assert(page_query("explore"@, r, f, db_stored, "explore"@) == Some(spec_apply_filters(r.query_explore@, f.group@, f.domain@, f.label@))) by {
        reveal_with_fuel(absent_before, 1);
        lemma_named_at(spec_route("explore"@, r, f, db_stored)->0.queries, "explore"@, 0);
    }
    assert(spec_route("overview:year"@, r, f, db_stored) is Some) by {
    }
    assert(page_query("overview:year"@, r, f, db_stored, "overview_year"@) == Some(spec_apply_filters(r.query_overview_year@, f.group@, f.domain@, f.label@))) by {
        reveal_with_fuel(absent_before, 1);
        lemma_named_at(spec_route("overview:year"@, r, f, db_stored)->0.queries, "overview_year"@, 0);
    }
    assert(spec_route("overview:country"@, r, f, db_stored) is Some) by {
    }
    assert(page_query("overview:country"@, r, f, db_stored, "overview_country"@) == Some(spec_apply_filters(r.query_overview_country@, f.group@, f.domain@, f.label@))) by {
        reveal_with_fuel(absent_before, 1);
        lemma_named_at(spec_route("overview:country"@, r, f, db_stored)->0.queries, "overview_country"@, 0);
    }
    assert(spec_route("overview:plain"@, r, f, db_stored) is Some) by {
    }
    assert(page_query("overview:plain"@, r, f, db_stored, "overview_plain"@) == Some(spec_apply_filters(r.query_overview_plain@, f.group@, f.domain@, f.label@))) by {
        reveal_with_fuel(absent_before, 1);
        lemma_named_at(spec_route("overview:plain"@, r, f, db_stored)->0.queries, "overview_plain"@, 0);
    }
    assert(spec_route("map"@, r, f, db_stored) is Some) by {
    }
    assert(page_query("map"@, r, f, db_stored, "map_country_list"@) == Some(spec_apply_filters(r.query_map_country_list@, f.group@, f.domain@, f.label@))) by {
        reveal_with_fuel(absent_before, 1);
        lemma_named_at(spec_route("map"@, r, f, db_stored)->0.queries, "map_country_list"@, 0);
    }
    assert(page_query("map"@, r, f, db_stored, "map_data"@) == Some(spec_apply_filters(r.query_map_contour@, f.group@, f.domain@, f.label@))) by {
        reveal_with_fuel(absent_before, 2);
        lemma_named_at(spec_route("map"@, r, f, db_stored)->0.queries, "map_data"@, 1);
    }
    assert(spec_route("statistics:summary"@, r, f, db_stored) is Some) by {
    }
    assert(page_query("statistics:summary"@, r, f, db_stored, "statistics_visits"@) == Some(spec_apply_filters(uncommented(spec_replace(r.query_statistics_visits@, "SELECT\n    Country,\n    OL,\n    SS,\n    VSS,\n    PS,\n    OLMQ,\n    SSMQ,\n    VSSMQ,\n    PSMQ\nFROM Aggregated\nORDER BY OL DESC;"@, "SELECT COUNT(DISTINCT Country) AS TripCount FROM Aggregated;"@)), f.group@, f.domain@, f.label@))) by {
        reveal_with_fuel(absent_before, 1);
        lemma_named_at(spec_route("statistics:summary"@, r, f, db_stored)->0.queries, "statistics_visits"@, 0);
    }
    assert(page_query("statistics:summary"@, r, f, db_stored, "statistics_trip_count"@) == Some(spec_apply_filters(r.query_statistics_trip_count@, f.group@, f.domain@, f.label@))) by {
        reveal_with_fuel(absent_before, 2);
        lemma_named_at(spec_route("statistics:summary"@, r, f, db_stored)->0.queries, "statistics_trip_count"@, 1);
    }
    assert(page_query("statistics:summary"@, r, f, db_stored, "statistics_per_domain_year"@) == Some(spec_apply_filters(r.query_statistics_per_domain_year@, f.group@, f.domain@, f.label@))) by {
        reveal_with_fuel(absent_before, 3);
        lemma_named_at(spec_route("statistics:summary"@, r, f, db_stored)->0.queries, "statistics_per_domain_year"@, 2);
    }
    assert(spec_route("statistics:visits"@, r, f, db_stored) is Some) by {
    }
    assert(page_query("statistics:visits"@, r, f, db_stored, "statistics_visits"@) == Some(spec_apply_filters(uncommented(r.query_statistics_visits@), f.group@, f.domain@, f.label@))) by {
        reveal_with_fuel(absent_before, 1);
        lemma_named_at(spec_route("statistics:visits"@, r, f, db_stored)->0.queries, "statistics_visits"@, 0);
    }
    assert(spec_route("statistics:overnights"@, r, f, db_stored) is Some) by {
    }
    assert(page_query("statistics:overnights"@, r, f, db_stored, "statistics_overnights"@) == Some(spec_apply_filters(uncommented(r.query_statistics_overnights@), f.group@, f.domain@, f.label@))) by {
        reveal_with_fuel(absent_before, 1);
        lemma_named_at(spec_route("statistics:overnights"@, r, f, db_stored)->0.queries, "statistics_overnights"@, 0);
    }
    assert(spec_route("statistics:themes"@, r, f, db_stored) is Some) by {
        assert("statistics:visits"@[11] != "statistics:themes"@[11]);
    }
    assert(page_query("statistics:themes"@, r, f, db_stored, "statistics_theme_count"@) == Some(spec_apply_filters(r.query_statistics_theme_count@, f.group@, f.domain@, f.label@))) by {
        assert("statistics:visits"@[11] != "statistics:themes"@[11]);
        reveal_with_fuel(absent_before, 1);
        lemma_named_at(spec_route("statistics:themes"@, r, f, db_stored)->0.queries, "statistics_theme_count"@, 0);
    }
}

/// A text that starts with `p` has `p` as a prefix, and what follows it is `c`.
pub proof fn lemma_prefix_concat(p: Seq<char>, c: Seq<char>)
    ensures
        p.is_prefix_of(p + c),
        (p + c).skip(p.len() as int) == c,
        forall|i: int| 0 <= i < p.len() ==> #[trigger] (p + c)[i] == p[i],
{
    assert((p + c).subrange(0, p.len() as int) =~= p);
    assert((p + c).skip(p.len() as int) =~= c);
}

/// A text that differs from `p` at a position inside both does not start with `p`.
pub proof fn lemma_not_prefix(p: Seq<char>, s: Seq<char>, i: int)
    requires
        0 <= i < p.len(),
        i < s.len(),
        p[i] != s[i],
    ensures
        !p.is_prefix_of(s),
{
    if p.is_prefix_of(s) {
        assert(s.subrange(0, p.len() as int)[i] == s[i]);
    }
}

/// The pages that take an argument from their address and whose data the
/// selected filters narrow (a country or theme map, a search, a report) run
/// their shipped queries, with the argument put in where the page asks for
/// it, with the SQL filters of the selection applied.
pub proof fn law_filtered_argument_pages_apply_filters(r: Resources, f: SqlFilters, db_stored: bool, arg: Seq<char>)
    ensures
        page_query("map:country:"@ + arg, r, f, db_stored, "map_country_list"@) == Some(spec_apply_filters(r.query_map_country_list@, f.group@, f.domain@, f.label@)),
        page_query("map:country:"@ + arg, r, f, db_stored, "map_data"@) == Some(spec_apply_filters(spec_replace(r.query_map_country@, "_COUNTRY_"@, arg), f.group@, f.domain@, f.label@)),
        page_query("map:theme:"@ + arg, r, f, db_stored, "map_country_list"@) == Some(spec_apply_filters(r.query_map_country_list@, f.group@, f.domain@, f.label@)),
        page_query("map:theme:"@ + arg, r, f, db_stored, "map_data"@) == Some(spec_apply_filters(spec_replace(r.query_map_theme@, "_THEME_"@, arg), f.group@, f.domain@, f.label@)),
        page_query("search:"@ + arg, r, f, db_stored, "search_trip"@) == Some(spec_apply_filters(spec_replace(r.query_search_trip@, "/*_STRING_*/"@, arg), f.group@, f.domain@, f.label@)),
        page_query("search:"@ + arg, r, f, db_stored, "search_event"@) == Some(spec_apply_filters(spec_replace(r.query_search_event@, "/*_STRING_*/"@, arg), f.group@, f.domain@, f.label@)),
        spec_split_once(arg, ':').1 is Some ==> page_query("report:output:"@ + arg, r, f, db_stored, "all_overview"@) == Some(spec_apply_filters(r.query_report_all_overview@, f.group@, f.domain@, f.label@)),
        spec_split_once(arg, ':').1 is Some ==> page_query("report:output:"@ + arg, r, f, db_stored, "all_events"@) == Some(spec_apply_filters(r.query_report_all_events@, f.group@, f.domain@, f.label@)),
{
    lemma_queries_of_map_country(r, f, db_stored, arg);
    lemma_queries_of_map_theme(r, f, db_stored, arg);
    lemma_queries_of_search(r, f, db_stored, arg);
    lemma_queries_of_report_output(r, f, db_stored, arg);
}

#[verifier::spinoff_prover]
#[verifier::rlimit(100)]
proof fn lemma_queries_of_map_country(r: Resources, f: SqlFilters, db_stored: bool, arg: Seq<char>)
    ensures
        page_query("map:country:"@ + arg, r, f, db_stored, "map_country_list"@) == Some(spec_apply_filters(r.query_map_country_list@, f.group@, f.domain@, f.label@)),
        page_query("map:country:"@ + arg, r, f, db_stored, "map_data"@) == Some(spec_apply_filters(spec_replace(r.query_map_country@, "_COUNTRY_"@, arg), f.group@, f.domain@, f.label@)),
{{
    reveal_strlit("about");
    reveal_strlit("common_trip_domains");
    reveal_strlit("country:");
    reveal_strlit("dataset");
    reveal_strlit("explore");
    reveal_strlit("images:");
    reveal_strlit("input");
    reveal_strlit("map");
    reveal_strlit("map:");
    reveal_strlit("map:country:");
    reveal_strlit("map_country_list");
    reveal_strlit("map_data");
    reveal_strlit("overview:country");
    reveal_strlit("overview:plain");
    reveal_strlit("overview:year");
    reveal_strlit("report");
    reveal_strlit("report:output:");
    reveal_strlit("search:");
    reveal_strlit("source");
    reveal_strlit("statistics:overnights");
    reveal_strlit("statistics:summary");
    reveal_strlit("statistics:themes");
    reveal_strlit("statistics:visits");
    reveal_strlit("theme:");
    reveal_strlit("trip:");
    assert("about"@.len() == 5);
    assert("common_trip_domains"@.len() == 19);
    assert("country:"@.len() == 8);
    assert("dataset"@.len() == 7);
    assert("explore"@.len() == 7);
    assert("images:"@.len() == 7);
    assert("input"@.len() == 5);
    assert("map"@.len() == 3);
    assert("map:"@.len() == 4);
    assert("map:country:"@.len() == 12);
    assert("map_country_list"@.len() == 16);
    assert("map_data"@.len() == 8);
    assert("overview:country"@.len() == 16);
    assert("overview:plain"@.len() == 14);
    assert("overview:year"@.len() == 13);
    assert("report"@.len() == 6);
    assert("report:output:"@.len() == 14);
    assert("search:"@.len() == 7);
    assert("source"@.len() == 6);
    assert("statistics:overnights"@.len() == 21);
    assert("statistics:summary"@.len() == 18);
    assert("statistics:themes"@.len() == 17);
    assert("statistics:visits"@.len() == 17);
    assert("theme:"@.len() == 6);
    assert("trip:"@.len() == 5);
    assert(page_query("map:country:"@ + arg, r, f, db_stored, "map_country_list"@) == Some(spec_apply_filters(r.query_map_country_list@, f.group@, f.domain@, f.label@))) by {
        let page = "map:country:"@ + arg;
        lemma_prefix_concat("map:country:"@, arg);
        assert("overview:year"@[0] != page[0]);
        assert("overview:country"@[0] != page[0]);
        assert("overview:plain"@[0] != page[0]);
        assert("statistics:summary"@[0] != page[0]);
        assert("statistics:visits"@[0] != page[0]);
        assert("statistics:overnights"@[0] != page[0]);
        assert("statistics:themes"@[0] != page[0]);
        lemma_not_prefix("trip:"@, page, 0);
        lemma_not_prefix("images:"@, page, 0);
        lemma_prefix_concat("map:"@, "country:"@ + arg);
        assert("map:"@ + ("country:"@ + arg) =~= page);
        lemma_prefix_concat("country:"@, arg);
        reveal_with_fuel(absent_before, 1);
        lemma_named_at(spec_route(page, r, f, db_stored)->0.queries, "map_country_list"@, 0);
    }
    assert(page_query("map:country:"@ + arg, r, f, db_stored, "map_data"@) == Some(spec_apply_filters(spec_replace(r.query_map_country@, "_COUNTRY_"@, arg), f.group@, f.domain@, f.label@))) by {
        let page = "map:country:"@ + arg;
        lemma_prefix_concat("map:country:"@, arg);
        assert("overview:year"@[0] != page[0]);
        assert("overview:country"@[0] != page[0]);
        assert("overview:plain"@[0] != page[0]);
        assert("statistics:summary"@[0] != page[0]);
        assert("statistics:visits"@[0] != page[0]);
        assert("statistics:overnights"@[0] != page[0]);
        assert("statistics:themes"@[0] != page[0]);
        lemma_not_prefix("trip:"@, page, 0);
        lemma_not_prefix("images:"@, page, 0);
        lemma_prefix_concat("map:"@, "country:"@ + arg);
        assert("map:"@ + ("country:"@ + arg) =~= page);
        lemma_prefix_concat("country:"@, arg);
        reveal_with_fuel(absent_before, 3);
        lemma_named_at(spec_route(page, r, f, db_stored)->0.queries, "map_data"@, 2);
    }
}}

#[verifier::spinoff_prover]
#[verifier::rlimit(100)]
proof fn lemma_queries_of_map_theme(r: Resources, f: SqlFilters, db_stored: bool, arg: Seq<char>)
    ensures
        page_query("map:theme:"@ + arg, r, f, db_stored, "map_country_list"@) == Some(spec_apply_filters(r.query_map_country_list@, f.group@, f.domain@, f.label@)),
        page_query("map:theme:"@ + arg, r, f, db_stored, "map_data"@) == Some(spec_apply_filters(spec_replace(r.query_map_theme@, "_THEME_"@, arg), f.group@, f.domain@, f.label@)),
{{
    reveal_strlit("about");
    reveal_strlit("common_trip_domains");
    reveal_strlit("country:");
    reveal_strlit("dataset");
    reveal_strlit("explore");
    reveal_strlit("images:");
    reveal_strlit("input");
    reveal_strlit("map");
    reveal_strlit("map:");
    reveal_strlit("map:theme:");
    reveal_strlit("map_country_list");
    reveal_strlit("map_data");
    reveal_strlit("overview:country");
    reveal_strlit("overview:plain");
    reveal_strlit("overview:year");
    reveal_strlit("report");
    reveal_strlit("report:output:");
    reveal_strlit("search:");
    reveal_strlit("source");
    reveal_strlit("statistics:overnights");
    reveal_strlit("statistics:summary");
    reveal_strlit("statistics:themes");
    reveal_strlit("statistics:visits");
    reveal_strlit("theme:");
    reveal_strlit("trip:");
    assert("about"@.len() == 5);
    assert("common_trip_domains"@.len() == 19);
    assert("country:"@.len() == 8);
    assert("dataset"@.len() == 7);
    assert("explore"@.len() == 7);
    assert("images:"@.len() == 7);
    assert("input"@.len() == 5);
    assert("map"@.len() == 3);
    assert("map:"@.len() == 4);
    assert("map:theme:"@.len() == 10);
    assert("map_country_list"@.len() == 16);
    assert("map_data"@.len() == 8);
    assert("overview:country"@.len() == 16);
    assert("overview:plain"@.len() == 14);
    assert("overview:year"@.len() == 13);
    assert("report"@.len() == 6);
    assert("report:output:"@.len() == 14);
    assert("search:"@.len() == 7);
    assert("source"@.len() == 6);
    assert("statistics:overnights"@.len() == 21);
    assert("statistics:summary"@.len() == 18);
    assert("statistics:themes"@.len() == 17);
    assert("statistics:visits"@.len() == 17);
    assert("theme:"@.len() == 6);
    assert("trip:"@.len() == 5);
    assert(page_query("map:theme:"@ + arg, r, f, db_stored, "map_country_list"@) == Some(spec_apply_filters(r.query_map_country_list@, f.group@, f.domain@, f.label@))) by {
        let page = "map:theme:"@ + arg;
        lemma_prefix_concat("map:theme:"@, arg);
        assert("overview:year"@[0] != page[0]);
        assert("overview:country"@[0] != page[0]);
        assert("overview:plain"@[0] != page[0]);
        assert("statistics:summary"@[0] != page[0]);
        assert("statistics:visits"@[0] != page[0]);
        assert("statistics:overnights"@[0] != page[0]);
        assert("statistics:themes"@[0] != page[0]);
        lemma_not_prefix("trip:"@, page, 0);
        lemma_not_prefix("images:"@, page, 0);
        lemma_prefix_concat("map:"@, "theme:"@ + arg);
        assert("map:"@ + ("theme:"@ + arg) =~= page);
        lemma_prefix_concat("theme:"@, arg);
        lemma_not_prefix("country:"@, "theme:"@ + arg, 0);
        reveal_with_fuel(absent_before, 1);
        lemma_named_at(spec_route(page, r, f, db_stored)->0.queries, "map_country_list"@, 0);
    }
    assert(page_query("map:theme:"@ + arg, r, f, db_stored, "map_data"@) == Some(spec_apply_filters(spec_replace(r.query_map_theme@, "_THEME_"@, arg), f.group@, f.domain@, f.label@))) by {
        let page = "map:theme:"@ + arg;
        lemma_prefix_concat("map:theme:"@, arg);
        assert("overview:year"@[0] != page[0]);
        assert("overview:country"@[0] != page[0]);
        assert("overview:plain"@[0] != page[0]);
        assert("statistics:summary"@[0] != page[0]);
        assert("statistics:visits"@[0] != page[0]);
        assert("statistics:overnights"@[0] != page[0]);
        assert("statistics:themes"@[0] != page[0]);
        lemma_not_prefix("trip:"@, page, 0);
        lemma_not_prefix("images:"@, page, 0);
        lemma_prefix_concat("map:"@, "theme:"@ + arg);
        assert("map:"@ + ("theme:"@ + arg) =~= page);
        lemma_prefix_concat("theme:"@, arg);
        lemma_not_prefix("country:"@, "theme:"@ + arg, 0);
        reveal_with_fuel(absent_before, 3);
        lemma_named_at(spec_route(page, r, f, db_stored)->0.queries, "map_data"@, 2);
    }
}}

#[verifier::spinoff_prover]
#[verifier::rlimit(100)]
proof fn lemma_queries_of_search(r: Resources, f: SqlFilters, db_stored: bool, arg: Seq<char>)
    ensures
        page_query("search:"@ + arg, r, f, db_stored, "search_trip"@) == Some(spec_apply_filters(spec_replace(r.query_search_trip@, "/*_STRING_*/"@, arg), f.group@, f.domain@, f.label@)),
        page_query("search:"@ + arg, r, f, db_stored, "search_event"@) == Some(spec_apply_filters(spec_replace(r.query_search_event@, "/*_STRING_*/"@, arg), f.group@, f.domain@, f.label@)),
{{
    reveal_strlit("about");
    reveal_strlit("dataset");
    reveal_strlit("explore");
    reveal_strlit("images:");
    reveal_strlit("input");
    reveal_strlit("map");
    reveal_strlit("map:");
    reveal_strlit("overview:country");
    reveal_strlit("overview:plain");
    reveal_strlit("overview:year");
    reveal_strlit("report");
    reveal_strlit("report:output:");
    reveal_strlit("search:");
    reveal_strlit("search_event");
    reveal_strlit("search_trip");
    reveal_strlit("source");
    reveal_strlit("statistics:overnights");
    reveal_strlit("statistics:summary");
    reveal_strlit("statistics:themes");
    reveal_strlit("statistics:visits");
    reveal_strlit("trip:");
    assert("about"@.len() == 5);
    assert("dataset"@.len() == 7);
    assert("explore"@.len() == 7);
    assert("images:"@.len() == 7);
    assert("input"@.len() == 5);
    assert("map"@.len() == 3);
    assert("map:"@.len() == 4);
    assert("overview:country"@.len() == 16);
    assert("overview:plain"@.len() == 14);
    assert("overview:year"@.len() == 13);
    assert("report"@.len() == 6);
    assert("report:output:"@.len() == 14);
    assert("search:"@.len() == 7);
    assert("search_event"@.len() == 12);
    assert("search_trip"@.len() == 11);
    assert("source"@.len() == 6);
    assert("statistics:overnights"@.len() == 21);
    assert("statistics:summary"@.len() == 18);
    assert("statistics:themes"@.len() == 17);
    assert("statistics:visits"@.len() == 17);
    assert("trip:"@.len() == 5);
    assert(page_query("search:"@ + arg, r, f, db_stored, "search_trip"@) == Some(spec_apply_filters(spec_replace(r.query_search_trip@, "/*_STRING_*/"@, arg), f.group@, f.domain@, f.label@))) by {
        let page = "search:"@ + arg;
        lemma_prefix_concat("search:"@, arg);
        assert("explore"@[0] != page[0]);
        assert("overview:year"@[0] != page[0]);
        assert("overview:country"@[0] != page[0]);
        assert("overview:plain"@[0] != page[0]);
        assert("statistics:summary"@[1] != page[1]);
        assert("statistics:visits"@[1] != page[1]);
        assert("statistics:overnights"@[1] != page[1]);
        assert("statistics:themes"@[1] != page[1]);
        assert("dataset"@[0] != page[0]);
        lemma_not_prefix("trip:"@, page, 0);
        lemma_not_prefix("images:"@, page, 0);
        lemma_not_prefix("map:"@, page, 0);
        reveal_with_fuel(absent_before, 1);
        lemma_named_at(spec_route(page, r, f, db_stored)->0.queries, "search_trip"@, 0);
    }
    assert(page_query("search:"@ + arg, r, f, db_stored, "search_event"@) == Some(spec_apply_filters(spec_replace(r.query_search_event@, "/*_STRING_*/"@, arg), f.group@, f.domain@, f.label@))) by {
        let page = "search:"@ + arg;
        lemma_prefix_concat("search:"@, arg);
        assert("explore"@[0] != page[0]);
        assert("overview:year"@[0] != page[0]);
        assert("overview:country"@[0] != page[0]);
        assert("overview:plain"@[0] != page[0]);
        assert("statistics:summary"@[1] != page[1]);
        assert("statistics:visits"@[1] != page[1]);
        assert("statistics:overnights"@[1] != page[1]);
        assert("statistics:themes"@[1] != page[1]);
        assert("dataset"@[0] != page[0]);
        lemma_not_prefix("trip:"@, page, 0);
        lemma_not_prefix("images:"@, page, 0);
        lemma_not_prefix("map:"@, page, 0);
        reveal_with_fuel(absent_before, 2);
        lemma_named_at(spec_route(page, r, f, db_stored)->0.queries, "search_event"@, 1);
    }
}}

#[verifier::spinoff_prover]
#[verifier::rlimit(100)]
proof fn lemma_queries_of_report_output(r: Resources, f: SqlFilters, db_stored: bool, arg: Seq<char>)
    ensures
        spec_split_once(arg, ':').1 is Some ==> page_query("report:output:"@ + arg, r, f, db_stored, "all_overview"@) == Some(spec_apply_filters(r.query_report_all_overview@, f.group@, f.domain@, f.label@)),
        spec_split_once(arg, ':').1 is Some ==> page_query("report:output:"@ + arg, r, f, db_stored, "all_events"@) == Some(spec_apply_filters(r.query_report_all_events@, f.group@, f.domain@, f.label@)),
{{
    reveal_strlit("about");
    reveal_strlit("all_events");
    reveal_strlit("all_overview");
    reveal_strlit("dataset");
    reveal_strlit("explore");
    reveal_strlit("images:");
    reveal_strlit("input");
    reveal_strlit("map");
    reveal_strlit("map:");
    reveal_strlit("overview:country");
    reveal_strlit("overview:plain");
    reveal_strlit("overview:year");
    reveal_strlit("report");
    reveal_strlit("report:output:");
    reveal_strlit("search:");
    reveal_strlit("source");
    reveal_strlit("statistics:overnights");
    reveal_strlit("statistics:summary");
    reveal_strlit("statistics:themes");
    reveal_strlit("statistics:visits");
    reveal_strlit("trip:");
    assert("about"@.len() == 5);
    assert("all_events"@.len() == 10);
    assert("all_overview"@.len() == 12);
    assert("dataset"@.len() == 7);
    assert("explore"@.len() == 7);
    assert("images:"@.len() == 7);
    assert("input"@.len() == 5);
    assert("map"@.len() == 3);
    assert("map:"@.len() == 4);
    assert("overview:country"@.len() == 16);
    assert("overview:plain"@.len() == 14);
    assert("overview:year"@.len() == 13);
    assert("report"@.len() == 6);
    assert("report:output:"@.len() == 14);
    assert("search:"@.len() == 7);
    assert("source"@.len() == 6);
    assert("statistics:overnights"@.len() == 21);
    assert("statistics:summary"@.len() == 18);
    assert("statistics:themes"@.len() == 17);
    assert("statistics:visits"@.len() == 17);
    assert("trip:"@.len() == 5);
    assert(spec_split_once(arg, ':').1 is Some ==> page_query("report:output:"@ + arg, r, f, db_stored, "all_overview"@) == Some(spec_apply_filters(r.query_report_all_overview@, f.group@, f.domain@, f.label@))) by {
        let page = "report:output:"@ + arg;
        lemma_prefix_concat("report:output:"@, arg);
        assert("overview:country"@[0] != page[0]);
        assert("overview:plain"@[0] != page[0]);
        assert("statistics:summary"@[0] != page[0]);
        assert("statistics:visits"@[0] != page[0]);
        assert("statistics:overnights"@[0] != page[0]);
        assert("statistics:themes"@[0] != page[0]);
        lemma_not_prefix("trip:"@, page, 0);
        lemma_not_prefix("images:"@, page, 0);
        lemma_not_prefix("map:"@, page, 0);
        lemma_not_prefix("search:"@, page, 0);
        reveal_with_fuel(absent_before, 1);
        if spec_split_once(arg, ':').1 is Some {
            lemma_named_at(spec_route(page, r, f, db_stored)->0.queries, "all_overview"@, 0);
        }
    }
    assert(spec_split_once(arg, ':').1 is Some ==> page_query("report:output:"@ + arg, r, f, db_stored, "all_events"@) == Some(spec_apply_filters(r.query_report_all_events@, f.group@, f.domain@, f.label@))) by {
        let page = "report:output:"@ + arg;
        lemma_prefix_concat("report:output:"@, arg);
        assert("overview:country"@[0] != page[0]);
        assert("overview:plain"@[0] != page[0]);
        assert("statistics:summary"@[0] != page[0]);
        assert("statistics:visits"@[0] != page[0]);
        assert("statistics:overnights"@[0] != page[0]);
        assert("statistics:themes"@[0] != page[0]);
        lemma_not_prefix("trip:"@, page, 0);
        lemma_not_prefix("images:"@, page, 0);
        lemma_not_prefix("map:"@, page, 0);
        lemma_not_prefix("search:"@, page, 0);
        reveal_with_fuel(absent_before, 2);
        if spec_split_once(arg, ':').1 is Some {
            lemma_named_at(spec_route(page, r, f, db_stored)->0.queries, "all_events"@, 1);
        }
    }
}}

/// What each page of the application with a fixed address shows: where its
/// title comes from, the template it is rendered with, the scripts that run
/// after it loads and the values it hands to the template (and, for the pages
/// whose data the filters do not narrow, the queries it runs).
#[verifier::spinoff_prover]
#[verifier::rlimit(100)]
pub proof fn law_fixed_pages(r: Resources, f: SqlFilters, db_stored: bool)
    ensures
        spec_route("explore"@, r, f, db_stored) is Some,
        spec_route("explore"@, r, f, db_stored)->0.title == TitleView::Translation("/explore/title"@, "Explore"@),
        spec_route("explore"@, r, f, db_stored)->0.template == "explore"@,
        spec_route("explore"@, r, f, db_stored)->0.after.len() == 0,
        spec_route("explore"@, r, f, db_stored)->0.state == seq![("cover_photos_list"@, StateView::CoverPhotos)],
        spec_route("overview:year"@, r, f, db_stored) is Some,
        spec_route("overview:year"@, r, f, db_stored)->0.title == TitleView::Translation("/overview/year"@, "Overview: Year"@),
        spec_route("overview:year"@, r, f, db_stored)->0.template == "overview_year"@,
        spec_route("overview:year"@, r, f, db_stored)->0.after.len() == 0,
        spec_route("overview:year"@, r, f, db_stored)->0.state.len() == 0,
        spec_route("overview:country"@, r, f, db_stored) is Some,
        spec_route("overview:country"@, r, f, db_stored)->0.title == TitleView::Translation("/overview/country"@, "Overview: Country"@),
        spec_route("overview:country"@, r, f, db_stored)->0.template == "overview_country"@,
        spec_route("overview:country"@, r, f, db_stored)->0.after.len() == 0,
        spec_route("overview:country"@, r, f, db_stored)->0.state.len() == 0,
        spec_route("overview:plain"@, r, f, db_stored) is Some,
        spec_route("overview:plain"@, r, f, db_stored)->0.title == TitleView::Translation("/overview/plain"@, "Overview: Plain"@),
        spec_route("overview:plain"@, r, f, db_stored)->0.template == "overview_plain"@,
        spec_route("overview:plain"@, r, f, db_stored)->0.after.len() == 0,
        spec_route("overview:plain"@, r, f, db_stored)->0.state.len() == 0,
        spec_route("map"@, r, f, db_stored) is Some,
        spec_route("map"@, r, f, db_stored)->0.title == TitleView::Translation("/map/title"@, "Map"@),
        spec_route("map"@, r, f, db_stored)->0.template == "map"@,
        spec_route("map"@, r, f, db_stored)->0.after == seq![AfterLoad::LoadContourMap],
        spec_route("map"@, r, f, db_stored)->0.state.len() == 0,
        spec_route("statistics:summary"@, r, f, db_stored) is Some,
        spec_route("statistics:summary"@, r, f, db_stored)->0.title == TitleView::Translation("/statistics/summary"@, "Statistics: Summary"@),
        spec_route("statistics:summary"@, r, f, db_stored)->0.template == "statistics_summary"@,
        spec_route("statistics:summary"@, r, f, db_stored)->0.after == seq![AfterLoad::InitializeChart],
        spec_route("statistics:summary"@, r, f, db_stored)->0.state.len() == 0,
        spec_route("statistics:visits"@, r, f, db_stored) is Some,
        spec_route("statistics:visits"@, r, f, db_stored)->0.title == TitleView::Translation("/statistics/visits"@, "Statistics: Visits"@),
        spec_route("statistics:visits"@, r, f, db_stored)->0.template == "statistics_visits"@,
        spec_route("statistics:visits"@, r, f, db_stored)->0.after.len() == 0,
        spec_route("statistics:visits"@, r, f, db_stored)->0.state.len() == 0,
        spec_route("statistics:overnights"@, r, f, db_stored) is Some,
        spec_route("statistics:overnights"@, r, f, db_stored)->0.title == TitleView::Translation("/statistics/overnights"@, "Statistics: Overnights"@),
        spec_route("statistics:overnights"@, r, f, db_stored)->0.template == "statistics_overnights"@,
        spec_route("statistics:overnights"@, r, f, db_stored)->0.after == seq![AfterLoad::InitializeChartOvernights],
        spec_route("statistics:overnights"@, r, f, db_stored)->0.state.len() == 0,
        spec_route("statistics:themes"@, r, f, db_stored) is Some,
        spec_route("statistics:themes"@, r, f, db_stored)->0.title == TitleView::Setting("/Plugin/Theme/translation"@, "Themes"@),
        spec_route("statistics:themes"@, r, f, db_stored)->0.template == "statistics_themes"@,
        spec_route("statistics:themes"@, r, f, db_stored)->0.after.len() == 0,
        spec_route("statistics:themes"@, r, f, db_stored)->0.state.len() == 0,
        spec_route("dataset"@, r, f, db_stored) is Some,
        spec_route("dataset"@, r, f, db_stored)->0.title == TitleView::Translation("/dataset/title"@, "Dataset"@),
        spec_route("dataset"@, r, f, db_stored)->0.template == "dataset"@,
        spec_route("dataset"@, r, f, db_stored)->0.after == seq![AfterLoad::LoadCodeEditor, AfterLoad::InitiateSpreadsheet],
        spec_route("dataset"@, r, f, db_stored)->0.state == seq![("query_templates"@, StateView::Names(catalog_names(r)))],
        spec_route("dataset"@, r, f, db_stored)->0.queries == seq![("table_list"@, "SELECT name FROM sqlite_master WHERE type IN ('table', 'view') ORDER BY name;"@), ("stored_custom_queries"@, "SELECT ROWID, Name FROM com_CodeCollection WHERE Target = 'BewDataset';"@)],
        spec_route("source"@, r, f, db_stored) is Some,
        spec_route("source"@, r, f, db_stored)->0.title == TitleView::Translation("/source/title"@, "Source"@),
        spec_route("source"@, r, f, db_stored)->0.template == "source"@,
        spec_route("source"@, r, f, db_stored)->0.after == seq![AfterLoad::CheckImmichAuthorization],
        spec_route("source"@, r, f, db_stored)->0.state == seq![("db_loaded"@, StateView::Text((if db_stored { "stored"@ } else { "missing"@ })))],
        spec_route("source"@, r, f, db_stored)->0.queries == seq![("cover_photo_original_paths"@, "SELECT OuterId, CoverPhoto FROM bewa_Overview WHERE CoverPhoto IS NOT NULL;"@)],
        spec_route("about"@, r, f, db_stored) is Some,
        spec_route("about"@, r, f, db_stored)->0.title == TitleView::Translation("/about/title"@, "About"@),
        spec_route("about"@, r, f, db_stored)->0.template == "about"@,
        spec_route("about"@, r, f, db_stored)->0.after.len() == 0,
        spec_route("about"@, r, f, db_stored)->0.state == seq![("update_info"@, StateView::UpdateInfo), ("current_version"@, StateView::Text(r.current_version@))],
        spec_route("about"@, r, f, db_stored)->0.queries.len() == 0,
        spec_route("report"@, r, f, db_stored) is Some,
        spec_route("report"@, r, f, db_stored)->0.title == TitleView::Translation("/toolbox/report"@, "Report"@),
        spec_route("report"@, r, f, db_stored)->0.template == "report"@,
        spec_route("report"@, r, f, db_stored)->0.after.len() == 0,
        spec_route("report"@, r, f, db_stored)->0.state == seq![("date_now"@, StateView::DateNow), ("year_now"@, StateView::YearNow)],
        spec_route("report"@, r, f, db_stored)->0.queries.len() == 0,
        spec_route("input"@, r, f, db_stored) is Some,
        spec_route("input"@, r, f, db_stored)->0.title == TitleView::Translation("/toolbox/input"@, "Input"@),
        spec_route("input"@, r, f, db_stored)->0.template == "toolbox"@,
        spec_route("input"@, r, f, db_stored)->0.after == seq![AfterLoad::InitCreateTrip],
        spec_route("input"@, r, f, db_stored)->0.state.len() == 0,
        spec_route("input"@, r, f, db_stored)->0.queries.len() == 0,
{
    reveal_strlit("explore");
    reveal_strlit("overview:year");
    reveal_strlit("overview:country");
    reveal_strlit("overview:plain");
    reveal_strlit("map");
    reveal_strlit("statistics:summary");
    reveal_strlit("statistics:visits");
    reveal_strlit("statistics:overnights");
    reveal_strlit("statistics:themes");
    reveal_strlit("dataset");
    reveal_strlit("source");
    reveal_strlit("about");
    reveal_strlit("report");
    reveal_strlit("input");
    assert("explore"@.len() == 7);
    assert("overview:year"@.len() == 13);
    assert("overview:country"@.len() == 16);
    assert("overview:plain"@.len() == 14);
    assert("map"@.len() == 3);
    assert("statistics:summary"@.len() == 18);
    assert("statistics:visits"@.len() == 17);
    assert("statistics:overnights"@.len() == 21);
    assert("statistics:themes"@.len() == 17);
    assert("dataset"@.len() == 7);
    assert("source"@.len() == 6);
    assert("about"@.len() == 5);
    assert("report"@.len() == 6);
    assert("input"@.len() == 5);
    assert(spec_route("explore"@, r, f, db_stored) is Some) by {
    }
    assert(spec_route("overview:year"@, r, f, db_stored) is Some) by {
    }
    assert(spec_route("overview:country"@, r, f, db_stored) is Some) by {
    }
    assert(spec_route("overview:plain"@, r, f, db_stored) is Some) by {
    }
    assert(spec_route("map"@, r, f, db_stored) is Some) by {
    }
    assert(spec_route("statistics:summary"@, r, f, db_stored) is Some) by {
    }
    assert(spec_route("statistics:visits"@, r, f, db_stored) is Some) by {
    }
    assert(spec_route("statistics:overnights"@, r, f, db_stored) is Some) by {
    }
    assert(spec_route("statistics:themes"@, r, f, db_stored) is Some) by {
        assert("statistics:visits"@[11] != "statistics:themes"@[11]);
    }
    assert(spec_route("dataset"@, r, f, db_stored) is Some) by {
        assert("explore"@[0] != "dataset"@[0]);
    }
    assert(spec_route("source"@, r, f, db_stored) is Some) by {
    }
    assert(spec_route("about"@, r, f, db_stored) is Some) by {
    }
    assert(spec_route("report"@, r, f, db_stored) is Some) by {
        assert("source"@[0] != "report"@[0]);
    }
    assert(spec_route("input"@, r, f, db_stored) is Some) by {
        assert("about"@[0] != "input"@[0]);
    }
}

/// The template that a page of the application is rendered with is one that
/// is registered; a page that shows breadcrumbs gets breadcrumbs that name
/// its own address, in front of its template.
pub proof fn law_pages_use_registered_templates(r: Resources, f: SqlFilters, db_stored: bool)
    ensures
        spec_find(spec_templates(r), spec_route("explore"@, r, f, db_stored)->0.template) == Some(spec_replace(r.template_breadcrumbs@, "_PAGE_"@, "explore"@) + r.template_explore@),
        spec_find(spec_templates(r), spec_route("overview:year"@, r, f, db_stored)->0.template) == Some(spec_replace(r.template_breadcrumbs@, "_PAGE_"@, "overview:year"@) + r.template_overview_year@),
        spec_find(spec_templates(r), spec_route("overview:country"@, r, f, db_stored)->0.template) == Some(spec_replace(r.template_breadcrumbs@, "_PAGE_"@, "overview:country"@) + r.template_overview_country@),
        spec_find(spec_templates(r), spec_route("overview:plain"@, r, f, db_stored)->0.template) == Some(spec_replace(r.template_breadcrumbs@, "_PAGE_"@, "overview:plain"@) + r.template_overview_plain@),
        spec_find(spec_templates(r), spec_route("map"@, r, f, db_stored)->0.template) == Some(r.template_map@),
        spec_find(spec_templates(r), spec_route("statistics:summary"@, r, f, db_stored)->0.template) == Some(spec_replace(r.template_breadcrumbs@, "_PAGE_"@, "statistics:summary"@) + r.template_statistics_summary@),
        spec_find(spec_templates(r), spec_route("statistics:visits"@, r, f, db_stored)->0.template) == Some(spec_replace(r.template_breadcrumbs@, "_PAGE_"@, "statistics:visits"@) + r.template_statistics_visits@),
        spec_find(spec_templates(r), spec_route("statistics:overnights"@, r, f, db_stored)->0.template) == Some(spec_replace(r.template_breadcrumbs@, "_PAGE_"@, "statistics:overnights"@) + r.template_statistics_overnights@),
        spec_find(spec_templates(r), spec_route("statistics:themes"@, r, f, db_stored)->0.template) == Some(spec_replace(r.template_breadcrumbs@, "_PAGE_"@, "statistics:themes"@) + r.template_statistics_themes@),
        spec_find(spec_templates(r), spec_route("dataset"@, r, f, db_stored)->0.template) == Some(r.template_dataset@),
        spec_find(spec_templates(r), spec_route("source"@, r, f, db_stored)->0.template) == Some(spec_replace(r.template_breadcrumbs@, "_PAGE_"@, "source"@) + r.template_source@),
        spec_find(spec_templates(r), spec_route("about"@, r, f, db_stored)->0.template) == Some(spec_replace(r.template_breadcrumbs@, "_PAGE_"@, "about"@) + r.template_about@),
        spec_find(spec_templates(r), spec_route("report"@, r, f, db_stored)->0.template) == Some(spec_replace(r.template_breadcrumbs@, "_PAGE_"@, "report"@) + r.template_toolbox_report@),
        spec_find(spec_templates(r), spec_route("input"@, r, f, db_stored)->0.template) == Some(r.template_toolbox_input@),
{
    law_fixed_pages(r, f, db_stored);
    law_each_template_under_its_name(r);
}

// ----- pages with an argument -----

/// Splitting a text without `c` gives the whole text and nothing after it.
pub proof fn lemma_split_once_absent(a: Seq<char>, c: char)
    requires
        !a.contains(c),
    ensures
        spec_split_once(a, c) == (a, None::<Seq<char>>),
    decreases a.len(),
{
    if a.len() > 0 {
        assert(a[0] != c) by {
            if a[0] == c {
                assert(a.contains(a[0]));
            }
        }
        assert(!a.drop_first().contains(c)) by {
            if a.drop_first().contains(c) {
                let k = choose|k: int| 0 <= k < a.drop_first().len() && a.drop_first()[k] == c;
                assert(a[k + 1] == c);
            }
        }
        lemma_split_once_absent(a.drop_first(), c);
        assert(seq![a[0]] + a.drop_first() =~= a);
    }
}

/// Splitting `a`, `c`, `b` where `a` holds no `c` gives `a` and `b`.
pub proof fn lemma_split_once_at(a: Seq<char>, c: char, b: Seq<char>)
    requires
        !a.contains(c),
    ensures
        spec_split_once(a + seq![c] + b, c) == (a, Some(b)),
    decreases a.len(),
{
    let s = a + seq![c] + b;
    if a.len() == 0 {
        assert(s[0] == c);
        assert(s.drop_first() =~= b);
        assert(a =~= Seq::<char>::empty());
    } else {
        assert(a[0] != c) by {
            if a[0] == c {
                assert(a.contains(a[0]));
            }
        }
        assert(s[0] == a[0]);
        assert(!a.drop_first().contains(c)) by {
            if a.drop_first().contains(c) {
                let k = choose|k: int| 0 <= k < a.drop_first().len() && a.drop_first()[k] == c;
                assert(a[k + 1] == c);
            }
        }
        assert(s.drop_first() =~= a.drop_first() + seq![c] + b);
        lemma_split_once_at(a.drop_first(), c, b);
        assert(seq![a[0]] + a.drop_first() =~= a);
    }
}

/// The page `trip:ID` of a trip by its outer id `ID` (not empty, without `:`) shows that trip: each trip query picks it by its outer id.
#[verifier::spinoff_prover]
#[verifier::rlimit(100)]
pub proof fn law_trip_page_by_outer_id(r: Resources, f: SqlFilters, db_stored: bool, id: Seq<char>)
    requires
        id.len() > 0,
        !id.contains(':'),
    ensures
        spec_route("trip:"@ + id, r, f, db_stored) is Some,
        spec_route("trip:"@ + id, r, f, db_stored)->0.title == TitleView::Text(id),
        spec_route("trip:"@ + id, r, f, db_stored)->0.template == "trip"@,
        spec_route("trip:"@ + id, r, f, db_stored)->0.queries == seq![("trip_summary"@, spec_replace(r.query_trip_summary@, "= OuterId"@, ("= '"@ + id + "'"@))), ("trip_events"@, spec_replace(r.query_trip_events@, "= o.OuterId"@, ("= '"@ + id + "'"@))), ("common_trip_domains"@, r.query_common_trip_domains@), ("trip_unique_countries"@, spec_replace(r.query_trip_unique_countries@, "= OuterId"@, ("= '"@ + id + "'"@))), ("trip_border_crossings"@, spec_replace(r.query_trip_border_crossings@, "= b.OuterId"@, ("= '"@ + id + "'"@))), ("trip_map_pins_overall"@, spec_replace(r.query_trip_map_pins_overall@, "= OuterId"@, ("= '"@ + id + "'"@))), ("trip_map_pins_accommodation"@, spec_replace(r.query_trip_map_pins_accommodation@, "= o.OuterId"@, ("= '"@ + id + "'"@))), ("trip_previous"@, spec_apply_filters(spec_replace(r.query_trip_previous@, "= OuterId"@, ("= '"@ + id + "'"@)), f.group@, f.domain@, f.label@)), ("trip_next"@, spec_apply_filters(spec_replace(r.query_trip_next@, "= OuterId"@, ("= '"@ + id + "'"@)), f.group@, f.domain@, f.label@)), ("trip_immich_desc_search"@, spec_replace(r.query_trip_immich_desc_search@, "= OuterId"@, ("= '"@ + id + "'"@))), ("trip_immich_album_name"@, spec_replace(r.query_trip_immich_album_name@, "= OuterId"@, ("= '"@ + id + "'"@))), ("trip_extension_movie"@, spec_replace(r.query_trip_extension_movie@, "_OUTER_ID_"@, id))],
        spec_route("trip:"@ + id, r, f, db_stored)->0.after == seq![AfterLoad::LoadTripMap],
        spec_route("trip:"@ + id, r, f, db_stored)->0.state == seq![("cover_photos_list"@, StateView::CoverPhotos)],
{
    reveal_strlit(":");
    reveal_strlit("about");
    reveal_strlit("dataset");
    reveal_strlit("explore");
    reveal_strlit("images:");
    reveal_strlit("input");
    reveal_strlit("map");
    reveal_strlit("map:");
    reveal_strlit("overview:country");
    reveal_strlit("overview:plain");
    reveal_strlit("overview:year");
    reveal_strlit("report");
    reveal_strlit("report:output:");
    reveal_strlit("search:");
    reveal_strlit("source");
    reveal_strlit("statistics:overnights");
    reveal_strlit("statistics:summary");
    reveal_strlit("statistics:themes");
    reveal_strlit("statistics:visits");
    reveal_strlit("trip:");
    assert(":"@.len() == 1);
    assert("about"@.len() == 5);
    assert("dataset"@.len() == 7);
    assert("explore"@.len() == 7);
    assert("images:"@.len() == 7);
    assert("input"@.len() == 5);
    assert("map"@.len() == 3);
    assert("map:"@.len() == 4);
    assert("overview:country"@.len() == 16);
    assert("overview:plain"@.len() == 14);
    assert("overview:year"@.len() == 13);
    assert("report"@.len() == 6);
    assert("report:output:"@.len() == 14);
    assert("search:"@.len() == 7);
    assert("source"@.len() == 6);
    assert("statistics:overnights"@.len() == 21);
    assert("statistics:summary"@.len() == 18);
    assert("statistics:themes"@.len() == 17);
    assert("statistics:visits"@.len() == 17);
    assert("trip:"@.len() == 5);
    let rest = id;
    let page = "trip:"@ + rest;
    assert(page =~= "trip:"@ + id);
    lemma_prefix_concat("trip:"@, rest);
    assert("explore"@[0] != page[0]);
    assert("overview:year"@[0] != page[0]);
    assert("overview:country"@[0] != page[0]);
    assert("overview:plain"@[0] != page[0]);
    assert("statistics:summary"@[0] != page[0]);
    assert("statistics:visits"@[0] != page[0]);
    assert("statistics:overnights"@[0] != page[0]);
    assert("statistics:themes"@[0] != page[0]);
    assert("dataset"@[0] != page[0]);
    assert("source"@[0] != page[0]);
    assert("about"@[0] != page[0]);
    assert("report"@[0] != page[0]);
    assert("input"@[0] != page[0]);
    lemma_split_once_absent(id, ':');
    assert(rest.skip(0) =~= rest);
    assert(spec_route(page, r, f, db_stored) == Some(plan_trip_outer(r, f, id)));
}

/// The page `trip::ID` of a trip by its inner id `ID` (not empty) shows that trip: each trip query picks it by its inner id.
#[verifier::spinoff_prover]
#[verifier::rlimit(100)]
pub proof fn law_trip_page_by_inner_id(r: Resources, f: SqlFilters, db_stored: bool, id: Seq<char>)
    requires
        id.len() > 0,
    ensures
        spec_route("trip::"@ + id, r, f, db_stored) is Some,
        spec_route("trip::"@ + id, r, f, db_stored)->0.title == TitleView::Text(id),
        spec_route("trip::"@ + id, r, f, db_stored)->0.template == "trip"@,
        spec_route("trip::"@ + id, r, f, db_stored)->0.queries == seq![("trip_summary"@, spec_replace(r.query_trip_summary@, "= InnerId"@, ("= '"@ + id + "'"@))), ("trip_events"@, spec_replace(r.query_trip_events@, "= e.InnerId"@, ("= '"@ + id + "'"@))), ("common_trip_domains"@, r.query_common_trip_domains@), ("trip_unique_countries"@, spec_replace(r.query_trip_unique_countries@, "= InnerId"@, ("= '"@ + id + "'"@))), ("trip_border_crossings"@, spec_replace(r.query_trip_border_crossings@, "= a.InnerId"@, ("= '"@ + id + "'"@))), ("trip_map_pins_overall"@, spec_replace(r.query_trip_map_pins_overall@, "= InnerId"@, ("= '"@ + id + "'"@))), ("trip_map_pins_accommodation"@, spec_replace(r.query_trip_map_pins_accommodation@, "= o.InnerId"@, ("= '"@ + id + "'"@))), ("trip_previous"@, spec_apply_filters(spec_replace(r.query_trip_previous@, "= InnerId"@, ("= '"@ + id + "'"@)), f.group@, f.domain@, f.label@)), ("trip_next"@, spec_apply_filters(spec_replace(r.query_trip_next@, "= InnerId"@, ("= '"@ + id + "'"@)), f.group@, f.domain@, f.label@)), ("trip_immich_desc_search"@, spec_replace(r.query_trip_immich_desc_search@, "= InnerId"@, ("= '"@ + id + "'"@))), ("trip_immich_album_name"@, spec_replace(r.query_trip_immich_album_name@, "= InnerId"@, ("= '"@ + id + "'"@)))],
        spec_route("trip::"@ + id, r, f, db_stored)->0.after == seq![AfterLoad::LoadTripMap],
        spec_route("trip::"@ + id, r, f, db_stored)->0.state == seq![("cover_photos_list"@, StateView::CoverPhotos)],
{
    reveal_strlit(":");
    reveal_strlit("about");
    reveal_strlit("dataset");
    reveal_strlit("explore");
    reveal_strlit("images:");
    reveal_strlit("input");
    reveal_strlit("map");
    reveal_strlit("map:");
    reveal_strlit("overview:country");
    reveal_strlit("overview:plain");
    reveal_strlit("overview:year");
    reveal_strlit("report");
    reveal_strlit("report:output:");
    reveal_strlit("search:");
    reveal_strlit("source");
    reveal_strlit("statistics:overnights");
    reveal_strlit("statistics:summary");
    reveal_strlit("statistics:themes");
    reveal_strlit("statistics:visits");
    reveal_strlit("trip:");
    reveal_strlit("trip::");
    assert(":"@.len() == 1);
    assert("about"@.len() == 5);
    assert("dataset"@.len() == 7);
    assert("explore"@.len() == 7);
    assert("images:"@.len() == 7);
    assert("input"@.len() == 5);
    assert("map"@.len() == 3);
    assert("map:"@.len() == 4);
    assert("overview:country"@.len() == 16);
    assert("overview:plain"@.len() == 14);
    assert("overview:year"@.len() == 13);
    assert("report"@.len() == 6);
    assert("report:output:"@.len() == 14);
    assert("search:"@.len() == 7);
    assert("source"@.len() == 6);
    assert("statistics:overnights"@.len() == 21);
    assert("statistics:summary"@.len() == 18);
    assert("statistics:themes"@.len() == 17);
    assert("statistics:visits"@.len() == 17);
    assert("trip:"@.len() == 5);
    assert("trip::"@.len() == 6);
    let rest = ":"@ + id;
    let page = "trip:"@ + rest;
    assert(page =~= "trip::"@ + id);
    lemma_prefix_concat("trip:"@, rest);
    assert("explore"@[0] != page[0]);
    assert("overview:year"@[0] != page[0]);
    assert("overview:country"@[0] != page[0]);
    assert("overview:plain"@[0] != page[0]);
    assert("statistics:summary"@[0] != page[0]);
    assert("statistics:visits"@[0] != page[0]);
    assert("statistics:overnights"@[0] != page[0]);
    assert("statistics:themes"@[0] != page[0]);
    assert("dataset"@[0] != page[0]);
    assert("source"@[0] != page[0]);
    assert("about"@[0] != page[0]);
    assert("report"@[0] != page[0]);
    assert("input"@[0] != page[0]);
    lemma_split_once_at(Seq::<char>::empty(), ':', id);
    assert(Seq::<char>::empty() + seq![':'] + id =~= rest);
    assert(rest.skip(0) =~= rest);
    assert(spec_route(page, r, f, db_stored) == Some(plan_trip_inner(r, f, id)));
}

/// The page `images:ID:DATE` (an outer id without `:`) shows the photos of that trip on that date.
#[verifier::spinoff_prover]
#[verifier::rlimit(100)]
pub proof fn law_images_page(r: Resources, f: SqlFilters, db_stored: bool, trip_id: Seq<char>, trip_date: Seq<char>)
    requires
        !trip_id.contains(':'),
    ensures
        spec_route("images:"@ + trip_id + ":"@ + trip_date, r, f, db_stored) is Some,
        spec_route("images:"@ + trip_id + ":"@ + trip_date, r, f, db_stored)->0.title == TitleView::Text((trip_id + ":"@ + trip_date)),
        spec_route("images:"@ + trip_id + ":"@ + trip_date, r, f, db_stored)->0.template == "images"@,
        spec_route("images:"@ + trip_id + ":"@ + trip_date, r, f, db_stored)->0.queries == seq![("images_date_list"@, spec_replace(r.query_images_date_list@, "/*_OUTER_ID_*/"@, trip_id)), ("common_trip_domains"@, r.query_common_trip_domains@), ("images_photo_time"@, spec_replace(r.query_images_photo_time@, "/*_OUTER_ID_*/"@, trip_id))],
        spec_route("images:"@ + trip_id + ":"@ + trip_date, r, f, db_stored)->0.after.len() == 0,
        spec_route("images:"@ + trip_id + ":"@ + trip_date, r, f, db_stored)->0.state == seq![("trip_date"@, StateView::Text(trip_date)), ("trip_id"@, StateView::Text(trip_id))],
{
    reveal_strlit(":");
    reveal_strlit("about");
    reveal_strlit("dataset");
    reveal_strlit("explore");
    reveal_strlit("images:");
    reveal_strlit("input");
    reveal_strlit("map");
    reveal_strlit("map:");
    reveal_strlit("overview:country");
    reveal_strlit("overview:plain");
    reveal_strlit("overview:year");
    reveal_strlit("report");
    reveal_strlit("report:output:");
    reveal_strlit("search:");
    reveal_strlit("source");
    reveal_strlit("statistics:overnights");
    reveal_strlit("statistics:summary");
    reveal_strlit("statistics:themes");
    reveal_strlit("statistics:visits");
    reveal_strlit("trip:");
    assert(":"@.len() == 1);
    assert("about"@.len() == 5);
    assert("dataset"@.len() == 7);
    assert("explore"@.len() == 7);
    assert("images:"@.len() == 7);
    assert("input"@.len() == 5);
    assert("map"@.len() == 3);
    assert("map:"@.len() == 4);
    assert("overview:country"@.len() == 16);
    assert("overview:plain"@.len() == 14);
    assert("overview:year"@.len() == 13);
    assert("report"@.len() == 6);
    assert("report:output:"@.len() == 14);
    assert("search:"@.len() == 7);
    assert("source"@.len() == 6);
    assert("statistics:overnights"@.len() == 21);
    assert("statistics:summary"@.len() == 18);
    assert("statistics:themes"@.len() == 17);
    assert("statistics:visits"@.len() == 17);
    assert("trip:"@.len() == 5);
    let rest = trip_id + ":"@ + trip_date;
    let page = "images:"@ + rest;
    assert(page =~= "images:"@ + trip_id + ":"@ + trip_date);
    lemma_prefix_concat("images:"@, rest);
    assert("explore"@[0] != page[0]);
    assert("overview:year"@[0] != page[0]);
    assert("overview:country"@[0] != page[0]);
    assert("overview:plain"@[0] != page[0]);
    assert("statistics:summary"@[0] != page[0]);
    assert("statistics:visits"@[0] != page[0]);
    assert("statistics:overnights"@[0] != page[0]);
    assert("statistics:themes"@[0] != page[0]);
    assert("dataset"@[0] != page[0]);
    lemma_not_prefix("trip:"@, page, 0);
    lemma_split_once_at(trip_id, ':', trip_date);
    assert(trip_id + seq![':'] + trip_date =~= rest);
    assert(spec_route(page, r, f, db_stored) == Some(plan_images(r, f, rest, trip_id, trip_date)));
}

/// The page `map:country:C` shows the map of the country `C`.
#[verifier::spinoff_prover]
#[verifier::rlimit(100)]
pub proof fn law_country_map_page(r: Resources, f: SqlFilters, db_stored: bool, country: Seq<char>)
    ensures
        spec_route("map:country:"@ + country, r, f, db_stored) is Some,
        spec_route("map:country:"@ + country, r, f, db_stored)->0.title == TitleView::Translation("/map/title"@, "Map"@),
        spec_route("map:country:"@ + country, r, f, db_stored)->0.template == "map"@,
        spec_route("map:country:"@ + country, r, f, db_stored)->0.queries == seq![("map_country_list"@, spec_apply_filters(r.query_map_country_list@, f.group@, f.domain@, f.label@)), ("common_trip_domains"@, r.query_common_trip_domains@), ("map_data"@, spec_apply_filters(spec_replace(r.query_map_country@, "_COUNTRY_"@, country), f.group@, f.domain@, f.label@))],
        spec_route("map:country:"@ + country, r, f, db_stored)->0.after == seq![AfterLoad::LoadCountryMap],
        spec_route("map:country:"@ + country, r, f, db_stored)->0.state.len() == 0,
{
    reveal_strlit(":");
    reveal_strlit("about");
    reveal_strlit("country:");
    reveal_strlit("dataset");
    reveal_strlit("explore");
    reveal_strlit("images:");
    reveal_strlit("input");
    reveal_strlit("map");
    reveal_strlit("map:");
    reveal_strlit("map:country:");
    reveal_strlit("overview:country");
    reveal_strlit("overview:plain");
    reveal_strlit("overview:year");
    reveal_strlit("report");
    reveal_strlit("report:output:");
    reveal_strlit("search:");
    reveal_strlit("source");
    reveal_strlit("statistics:overnights");
    reveal_strlit("statistics:summary");
    reveal_strlit("statistics:themes");
    reveal_strlit("statistics:visits");
    reveal_strlit("theme:");
    reveal_strlit("trip:");
    assert(":"@.len() == 1);
    assert("about"@.len() == 5);
    assert("country:"@.len() == 8);
    assert("dataset"@.len() == 7);
    assert("explore"@.len() == 7);
    assert("images:"@.len() == 7);
    assert("input"@.len() == 5);
    assert("map"@.len() == 3);
    assert("map:"@.len() == 4);
    assert("map:country:"@.len() == 12);
    assert("overview:country"@.len() == 16);
    assert("overview:plain"@.len() == 14);
    assert("overview:year"@.len() == 13);
    assert("report"@.len() == 6);
    assert("report:output:"@.len() == 14);
    assert("search:"@.len() == 7);
    assert("source"@.len() == 6);
    assert("statistics:overnights"@.len() == 21);
    assert("statistics:summary"@.len() == 18);
    assert("statistics:themes"@.len() == 17);
    assert("statistics:visits"@.len() == 17);
    assert("theme:"@.len() == 6);
    assert("trip:"@.len() == 5);
    let rest = "country:"@ + country;
    let page = "map:"@ + rest;
    assert(page =~= "map:country:"@ + country);
    lemma_prefix_concat("map:"@, rest);
    assert("explore"@[0] != page[0]);
    assert("overview:year"@[0] != page[0]);
    assert("overview:country"@[0] != page[0]);
    assert("overview:plain"@[0] != page[0]);
    assert("statistics:summary"@[0] != page[0]);
    assert("statistics:visits"@[0] != page[0]);
    assert("statistics:overnights"@[0] != page[0]);
    assert("statistics:themes"@[0] != page[0]);
    assert("dataset"@[0] != page[0]);
    assert("source"@[0] != page[0]);
    assert("about"@[0] != page[0]);
    assert("report"@[0] != page[0]);
    assert("input"@[0] != page[0]);
    lemma_not_prefix("trip:"@, page, 0);
    lemma_not_prefix("images:"@, page, 0);
    lemma_prefix_concat("country:"@, country);
    assert(spec_route(page, r, f, db_stored) == Some(plan_map_country(r, f, country)));
}

/// The page `map:theme:T` shows the map of the theme `T`.
#[verifier::spinoff_prover]
#[verifier::rlimit(100)]
pub proof fn law_theme_map_page(r: Resources, f: SqlFilters, db_stored: bool, theme: Seq<char>)
    ensures
        spec_route("map:theme:"@ + theme, r, f, db_stored) is Some,
        spec_route("map:theme:"@ + theme, r, f, db_stored)->0.title == TitleView::Translation("/map/title"@, "Map"@),
        spec_route("map:theme:"@ + theme, r, f, db_stored)->0.template == "map"@,
        spec_route("map:theme:"@ + theme, r, f, db_stored)->0.queries == seq![("map_country_list"@, spec_apply_filters(r.query_map_country_list@, f.group@, f.domain@, f.label@)), ("common_trip_domains"@, r.query_common_trip_domains@), ("map_data"@, spec_apply_filters(spec_replace(r.query_map_theme@, "_THEME_"@, theme), f.group@, f.domain@, f.label@))],
        spec_route("map:theme:"@ + theme, r, f, db_stored)->0.after == seq![AfterLoad::LoadThemeMap],
        spec_route("map:theme:"@ + theme, r, f, db_stored)->0.state.len() == 0,
{
    reveal_strlit(":");
    reveal_strlit("about");
    reveal_strlit("country:");
    reveal_strlit("dataset");
    reveal_strlit("explore");
    reveal_strlit("images:");
    reveal_strlit("input");
    reveal_strlit("map");
    reveal_strlit("map:");
    reveal_strlit("map:theme:");
    reveal_strlit("overview:country");
    reveal_strlit("overview:plain");
    reveal_strlit("overview:year");
    reveal_strlit("report");
    reveal_strlit("report:output:");
    reveal_strlit("search:");
    reveal_strlit("source");
    reveal_strlit("statistics:overnights");
    reveal_strlit("statistics:summary");
    reveal_strlit("statistics:themes");
    reveal_strlit("statistics:visits");
    reveal_strlit("theme:");
    reveal_strlit("trip:");
    assert(":"@.len() == 1);
    assert("about"@.len() == 5);
    assert("country:"@.len() == 8);
    assert("dataset"@.len() == 7);
    assert("explore"@.len() == 7);
    assert("images:"@.len() == 7);
    assert("input"@.len() == 5);
    assert("map"@.len() == 3);
    assert("map:"@.len() == 4);
    assert("map:theme:"@.len() == 10);
    assert("overview:country"@.len() == 16);
    assert("overview:plain"@.len() == 14);
    assert("overview:year"@.len() == 13);
    assert("report"@.len() == 6);
    assert("report:output:"@.len() == 14);
    assert("search:"@.len() == 7);
    assert("source"@.len() == 6);
    assert("statistics:overnights"@.len() == 21);
    assert("statistics:summary"@.len() == 18);
    assert("statistics:themes"@.len() == 17);
    assert("statistics:visits"@.len() == 17);
    assert("theme:"@.len() == 6);
    assert("trip:"@.len() == 5);
    let rest = "theme:"@ + theme;
    let page = "map:"@ + rest;
    assert(page =~= "map:theme:"@ + theme);
    lemma_prefix_concat("map:"@, rest);
    assert("explore"@[0] != page[0]);
    assert("overview:year"@[0] != page[0]);
    assert("overview:country"@[0] != page[0]);
    assert("overview:plain"@[0] != page[0]);
    assert("statistics:summary"@[0] != page[0]);
    assert("statistics:visits"@[0] != page[0]);
    assert("statistics:overnights"@[0] != page[0]);
    assert("statistics:themes"@[0] != page[0]);
    assert("dataset"@[0] != page[0]);
    assert("source"@[0] != page[0]);
    assert("about"@[0] != page[0]);
    assert("report"@[0] != page[0]);
    assert("input"@[0] != page[0]);
    lemma_not_prefix("trip:"@, page, 0);
    lemma_not_prefix("images:"@, page, 0);
    lemma_prefix_concat("theme:"@, theme);
    lemma_not_prefix("country:"@, rest, 0);
    assert(spec_route(page, r, f, db_stored) == Some(plan_map_theme(r, f, theme)));
}

/// The page `search:S` searches the trips and the events for `S`.
#[verifier::spinoff_prover]
#[verifier::rlimit(100)]
pub proof fn law_search_page(r: Resources, f: SqlFilters, db_stored: bool, text: Seq<char>)
    ensures
        spec_route("search:"@ + text, r, f, db_stored) is Some,
        spec_route("search:"@ + text, r, f, db_stored)->0.title == TitleView::Text(text),
        spec_route("search:"@ + text, r, f, db_stored)->0.template == "search"@,
        spec_route("search:"@ + text, r, f, db_stored)->0.queries == seq![("search_trip"@, spec_apply_filters(spec_replace(r.query_search_trip@, "/*_STRING_*/"@, text), f.group@, f.domain@, f.label@)), ("search_event"@, spec_apply_filters(spec_replace(r.query_search_event@, "/*_STRING_*/"@, text), f.group@, f.domain@, f.label@))],
        spec_route("search:"@ + text, r, f, db_stored)->0.after.len() == 0,
        spec_route("search:"@ + text, r, f, db_stored)->0.state.len() == 0,
{
    reveal_strlit(":");
    reveal_strlit("about");
    reveal_strlit("dataset");
    reveal_strlit("explore");
    reveal_strlit("images:");
    reveal_strlit("input");
    reveal_strlit("map");
    reveal_strlit("map:");
    reveal_strlit("overview:country");
    reveal_strlit("overview:plain");
    reveal_strlit("overview:year");
    reveal_strlit("report");
    reveal_strlit("report:output:");
    reveal_strlit("search:");
    reveal_strlit("source");
    reveal_strlit("statistics:overnights");
    reveal_strlit("statistics:summary");
    reveal_strlit("statistics:themes");
    reveal_strlit("statistics:visits");
    reveal_strlit("trip:");
    assert(":"@.len() == 1);
    assert("about"@.len() == 5);
    assert("dataset"@.len() == 7);
    assert("explore"@.len() == 7);
    assert("images:"@.len() == 7);
    assert("input"@.len() == 5);
    assert("map"@.len() == 3);
    assert("map:"@.len() == 4);
    assert("overview:country"@.len() == 16);
    assert("overview:plain"@.len() == 14);
    assert("overview:year"@.len() == 13);
    assert("report"@.len() == 6);
    assert("report:output:"@.len() == 14);
    assert("search:"@.len() == 7);
    assert("source"@.len() == 6);
    assert("statistics:overnights"@.len() == 21);
    assert("statistics:summary"@.len() == 18);
    assert("statistics:themes"@.len() == 17);
    assert("statistics:visits"@.len() == 17);
    assert("trip:"@.len() == 5);
    let rest = text;
    let page = "search:"@ + rest;
    assert(page =~= "search:"@ + text);
    lemma_prefix_concat("search:"@, rest);
    assert("explore"@[0] != page[0]);
    assert("overview:year"@[0] != page[0]);
    assert("overview:country"@[0] != page[0]);
    assert("overview:plain"@[0] != page[0]);
    assert("statistics:summary"@[1] != page[1]);
    assert("statistics:visits"@[1] != page[1]);
    assert("statistics:overnights"@[1] != page[1]);
    assert("statistics:themes"@[1] != page[1]);
    assert("dataset"@[0] != page[0]);
    lemma_not_prefix("trip:"@, page, 0);
    lemma_not_prefix("images:"@, page, 0);
    lemma_not_prefix("map:"@, page, 0);
    assert(spec_route(page, r, f, db_stored) == Some(plan_search(r, f, text)));
}

/// The page `report:output:TITLE:BACK` (a title without `:`) renders the report with that title and back side.
#[verifier::spinoff_prover]
#[verifier::rlimit(100)]
pub proof fn law_report_output_page(r: Resources, f: SqlFilters, db_stored: bool, title_str: Seq<char>, backside_str: Seq<char>)
    requires
        !title_str.contains(':'),
    ensures
        spec_route("report:output:"@ + title_str + ":"@ + backside_str, r, f, db_stored) is Some,
        spec_route("report:output:"@ + title_str + ":"@ + backside_str, r, f, db_stored)->0.title == TitleView::Text((title_str + ":"@ + backside_str)),
        spec_route("report:output:"@ + title_str + ":"@ + backside_str, r, f, db_stored)->0.template == "report_output"@,
        spec_route("report:output:"@ + title_str + ":"@ + backside_str, r, f, db_stored)->0.queries == seq![("all_overview"@, spec_apply_filters(r.query_report_all_overview@, f.group@, f.domain@, f.label@)), ("all_events"@, spec_apply_filters(r.query_report_all_events@, f.group@, f.domain@, f.label@))],
        spec_route("report:output:"@ + title_str + ":"@ + backside_str, r, f, db_stored)->0.after.len() == 0,
        spec_route("report:output:"@ + title_str + ":"@ + backside_str, r, f, db_stored)->0.state == seq![("title_string"@, StateView::Text(title_str)), ("backside_string"@, StateView::Text(backside_str))],
{
    reveal_strlit(":");
    reveal_strlit("about");
    reveal_strlit("dataset");
    reveal_strlit("explore");
    reveal_strlit("images:");
    reveal_strlit("input");
    reveal_strlit("map");
    reveal_strlit("map:");
    reveal_strlit("overview:country");
    reveal_strlit("overview:plain");
    reveal_strlit("overview:year");
    reveal_strlit("report");
    reveal_strlit("report:output:");
    reveal_strlit("search:");
    reveal_strlit("source");
    reveal_strlit("statistics:overnights");
    reveal_strlit("statistics:summary");
    reveal_strlit("statistics:themes");
    reveal_strlit("statistics:visits");
    reveal_strlit("trip:");
    assert(":"@.len() == 1);
    assert("about"@.len() == 5);
    assert("dataset"@.len() == 7);
    assert("explore"@.len() == 7);
    assert("images:"@.len() == 7);
    assert("input"@.len() == 5);
    assert("map"@.len() == 3);
    assert("map:"@.len() == 4);
    assert("overview:country"@.len() == 16);
    assert("overview:plain"@.len() == 14);
    assert("overview:year"@.len() == 13);
    assert("report"@.len() == 6);
    assert("report:output:"@.len() == 14);
    assert("search:"@.len() == 7);
    assert("source"@.len() == 6);
    assert("statistics:overnights"@.len() == 21);
    assert("statistics:summary"@.len() == 18);
    assert("statistics:themes"@.len() == 17);
    assert("statistics:visits"@.len() == 17);
    assert("trip:"@.len() == 5);
    let rest = title_str + ":"@ + backside_str;
    let page = "report:output:"@ + rest;
    assert(page =~= "report:output:"@ + title_str + ":"@ + backside_str);
    lemma_prefix_concat("report:output:"@, rest);
    assert("overview:country"@[0] != page[0]);
    assert("overview:plain"@[0] != page[0]);
    assert("statistics:summary"@[0] != page[0]);
    assert("statistics:visits"@[0] != page[0]);
    assert("statistics:overnights"@[0] != page[0]);
    assert("statistics:themes"@[0] != page[0]);
    lemma_not_prefix("trip:"@, page, 0);
    lemma_not_prefix("images:"@, page, 0);
    lemma_not_prefix("map:"@, page, 0);
    lemma_not_prefix("search:"@, page, 0);
    lemma_split_once_at(title_str, ':', backside_str);
    assert(title_str + seq![':'] + backside_str =~= rest);
    assert(spec_route(page, r, f, db_stored) == Some(plan_report_output(r, f, rest, title_str, backside_str)));
}

// ----- end of pages with an argument -----

} // verus!
