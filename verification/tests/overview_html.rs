use bewegung::overview::{overview_html, row_html, OverviewRow};

fn row(inner: &str, outer: Option<&str>) -> OverviewRow {
    OverviewRow {
        InnerId: Some(inner.to_string()),
        ParticipantGroup: Some("Family".to_string()),
        OuterId: outer.map(|s| s.to_string()),
        OverallDestination: Some("Rome".to_string()),
        DepartureDate: Some("2024-01-01".to_string()),
        ReturnDate: None,
        MapPins: None,
        TripDescription: None,
        StartNode: None,
        EndNode: None,
        PhotoStarttime: None,
        PhotoEndtime: None,
        PhotoAlbums: None,
        CoverPhoto: None,
        DocumentationNote: None,
    }
}

#[test]
fn one_row_per_trip() {
    let r = row("I1", Some("O1"));
    let want = format!(
        r#"
            <tr>
            <td>{}</td>
            <td>{}</td>
            <td>{}</td>
            <td>{}</td>
            <td>{}</td>
            <td>{}</td>
            </tr>
            "#,
        "I1", "O1", "Family", "Rome", "2024-01-01", ""
    );
    assert_eq!(row_html(&r), want);
}

#[test]
fn table_wraps_the_rows() {
    let rows = vec![row("I1", None), row("I2", Some("O2"))];
    let body = format!("{}{}", row_html(&rows[0]), row_html(&rows[1]));
    let html = overview_html(&rows);
    assert!(html.starts_with("\n        <h2>Overview</h2>\n        <table border=\"1\" cellspacing=\"0\" cellpadding=\"6\">"));
    assert!(html.contains(&body));
    assert!(html.ends_with("\n        </tbody>\n        </table>\n        "));
    assert!(overview_html(&vec![]).contains("<tbody>\n        \n        </tbody>"));
}
