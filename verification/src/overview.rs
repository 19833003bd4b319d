//! The overview table of trips: one row per trip with its ids, its
//! participants, its destination and its dates.
use vstd::prelude::*;
use vstd::string::*;

verus! {

/// One trip of the overview, as the overview query gives it.
#[allow(non_snake_case)]
pub struct OverviewRow {
    pub InnerId: Option<String>,
    pub ParticipantGroup: Option<String>,
    pub OuterId: Option<String>,
    pub OverallDestination: Option<String>,
    pub DepartureDate: Option<String>,
    pub ReturnDate: Option<String>,
    pub MapPins: Option<String>,
    pub TripDescription: Option<String>,
    pub StartNode: Option<String>,
    pub EndNode: Option<String>,
    pub PhotoStarttime: Option<String>,
    pub PhotoEndtime: Option<String>,
    pub PhotoAlbums: Option<String>,
    pub CoverPhoto: Option<String>,
    pub DocumentationNote: Option<String>,
}

/// A missing text shows as nothing.
pub open spec fn or_empty(o: Option<String>) -> Seq<char> {
    match o {
        Some(s) => s@,
        None => Seq::<char>::empty(),
    }
}

/// The table row of a trip: its inner id, outer id, participants,
/// destination, departure and return.
pub open spec fn spec_row_html(r: OverviewRow) -> Seq<char> {
    "\n            <tr>\n            <td>"@ + or_empty(r.InnerId) + "</td>\n            <td>"@ + or_empty(r.OuterId) + "</td>\n            <td>"@ + or_empty(r.ParticipantGroup) + "</td>\n            <td>"@ + or_empty(r.OverallDestination) + "</td>\n            <td>"@ + or_empty(r.DepartureDate) + "</td>\n            <td>"@ + or_empty(r.ReturnDate) + "</td>\n            </tr>\n            "@
}

/// The rows of the trips, one after another.
pub open spec fn spec_rows_html(rows: Seq<OverviewRow>) -> Seq<char>
    decreases rows.len(),
{
    if rows.len() == 0 {
        Seq::<char>::empty()
    } else {
        spec_rows_html(rows.drop_last()) + spec_row_html(rows.last())
    }
}

/// The overview: a heading and a table with a head row and the trips' rows.
pub open spec fn spec_overview_html(rows: Seq<OverviewRow>) -> Seq<char> {
    "\n        <h2>Overview</h2>\n        <table border=\"1\" cellspacing=\"0\" cellpadding=\"6\">\n        <thead>\n        <tr>\n        <th>InnerId</th>\n        <th>OuterId</th>\n        <th>Participant</th>\n        <th>Destination</th>\n        <th>Departure</th>\n        <th>Return</th>\n        </tr>\n        </thead>\n        <tbody>\n        "@ + spec_rows_html(rows) + "\n        </tbody>\n        </table>\n        "@
}

/// The cells `cells`, each between `<td>` and `</td>` on a line of its own.
pub open spec fn html_cells(cells: Seq<Seq<char>>) -> Seq<char>
    decreases cells.len(),
{
    if cells.len() == 0 {
        Seq::<char>::empty()
    } else {
        html_cells(cells.drop_last()) + "\n            <td>"@ + cells.last() + "</td>"@
    }
}

/// A table row holding the cells `cells`.
pub open spec fn html_row(cells: Seq<Seq<char>>) -> Seq<char> {
    "\n            <tr>"@ + html_cells(cells) + "\n            </tr>\n            "@
}

/// What the overview shows of a trip, column by column: inner id, outer id,
/// participants, destination, departure and return, a missing one as nothing.
pub open spec fn shown_fields(r: OverviewRow) -> Seq<Seq<char>> {
    seq![
        or_empty(r.InnerId),
        or_empty(r.OuterId),
        or_empty(r.ParticipantGroup),
        or_empty(r.OverallDestination),
        or_empty(r.DepartureDate),
        or_empty(r.ReturnDate),
    ]
}

/// One more cell: if the row so far, `t + x`, is `p` followed by a closing
/// `c`, then with the next cell it is `p`, the separator `c + o`, the field
/// and again a closing `c`.
proof fn lemma_next_cell(t: Seq<char>, x: Seq<char>, p: Seq<char>, o: Seq<char>, field: Seq<char>, c: Seq<char>)
    requires
        t + x == p + c,
    ensures
        t + (x + o + field + c) == p + (c + o) + field + c,
{
    assert(t + (x + o + field + c) =~= (t + x) + o + field + c);
    assert(p + (c + o) + field + c =~= (p + c) + o + field + c);
}

/// The row of a trip is a table row of six cells, each holding the field of
/// its column: the inner id, the outer id, the participants, the destination,
/// the departure and the return.
pub proof fn law_row_shows_each_field(r: OverviewRow)
    ensures
        spec_row_html(r) == html_row(shown_fields(r)),
{
    let c = shown_fields(r);
    let t = "\n            <tr>"@;
    let o = "\n            <td>"@;
    let cl = "</td>"@;
    let e = "\n            </tr>\n            "@;
    let first = "\n            <tr>\n            <td>"@;
    let sep = "</td>\n            <td>"@;
    let last = "</td>\n            </tr>\n            "@;
    reveal_strlit("\n            <tr>\n            <td>");
    reveal_strlit("</td>\n            <td>");
    reveal_strlit("</td>\n            </tr>\n            ");
    reveal_strlit("\n            <tr>");
    reveal_strlit("\n            <td>");
    reveal_strlit("</td>");
    reveal_strlit("\n            </tr>\n            ");
    assert(first =~= t + o);
    assert(sep =~= cl + o);
    assert(last =~= cl + e);
    let x0 = Seq::<char>::empty();
    assert(t + x0 =~= t);
    let x1 = html_cells(c.take(1));
    let x2 = html_cells(c.take(2));
    let x3 = html_cells(c.take(3));
    let x4 = html_cells(c.take(4));
    let x5 = html_cells(c.take(5));
    let x6 = html_cells(c.take(6));
    assert(c.take(1).drop_last() =~= c.take(0));
    assert(c.take(2).drop_last() =~= c.take(1));
    assert(c.take(3).drop_last() =~= c.take(2));
    assert(c.take(4).drop_last() =~= c.take(3));
    assert(c.take(5).drop_last() =~= c.take(4));
    assert(c.take(6).drop_last() =~= c.take(5));
    assert(c.take(6) =~= c);
    assert(x1 == html_cells(c.take(0)) + o + c[0] + cl);
    assert(x2 == x1 + o + c[1] + cl);
    assert(x3 == x2 + o + c[2] + cl);
    assert(x4 == x3 + o + c[3] + cl);
    assert(x5 == x4 + o + c[4] + cl);
    assert(x6 == x5 + o + c[5] + cl);
    let p1 = first + c[0];
    assert(t + x1 == p1 + cl) by {
        assert(html_cells(c.take(0)) == x0);
        assert(t + x1 =~= (t + o) + c[0] + cl);
    }
    lemma_next_cell(t, x1, p1, o, c[1], cl);
    let p2 = p1 + sep + c[1];
    lemma_next_cell(t, x2, p2, o, c[2], cl);
    let p3 = p2 + sep + c[2];
    lemma_next_cell(t, x3, p3, o, c[3], cl);
    let p4 = p3 + sep + c[3];
    lemma_next_cell(t, x4, p4, o, c[4], cl);
    let p5 = p4 + sep + c[4];
    lemma_next_cell(t, x5, p5, o, c[5], cl);
    let p6 = p5 + sep + c[5];
    assert(spec_row_html(r) == p6 + last);
    assert(html_row(c) =~= (t + x6) + e);
    assert(p6 + last =~= (p6 + cl) + e);
}

/// The rows of the trips, the first trip first, each a table row of the
/// fields it shows.
pub open spec fn rows_in_order(rows: Seq<OverviewRow>) -> Seq<char>
    decreases rows.len(),
{
    if rows.len() == 0 {
        Seq::<char>::empty()
    } else {
        html_row(shown_fields(rows[0])) + rows_in_order(rows.drop_first())
    }
}

proof fn lemma_rows_in_order_push(rows: Seq<OverviewRow>, x: OverviewRow)
    ensures
        rows_in_order(rows.push(x)) == rows_in_order(rows) + html_row(shown_fields(x)),
    decreases rows.len(),
{
    if rows.len() == 0 {
        assert(rows.push(x).drop_first() =~= Seq::<OverviewRow>::empty());
        assert(rows.push(x)[0] == x);
        assert(rows_in_order(rows.push(x).drop_first()) == Seq::<char>::empty());
        assert(rows_in_order(rows) == Seq::<char>::empty());
        assert(html_row(shown_fields(x)) + Seq::<char>::empty() =~= html_row(shown_fields(x)));
        assert(Seq::<char>::empty() + html_row(shown_fields(x)) =~= html_row(shown_fields(x)));
    } else {
        assert(rows.push(x).drop_first() =~= rows.drop_first().push(x));
        lemma_rows_in_order_push(rows.drop_first(), x);
        assert(rows.push(x)[0] == rows[0]);
        let h = html_row(shown_fields(rows[0]));
        assert(h + (rows_in_order(rows.drop_first()) + html_row(shown_fields(x))) =~= (h + rows_in_order(
            rows.drop_first(),
        )) + html_row(shown_fields(x)));
    }
}

/// The body of the overview table holds one row per trip, in the order given,
/// the first trip first; each row shows the fields of its trip.
pub proof fn law_overview_rows_in_order(rows: Seq<OverviewRow>)
    ensures
        spec_rows_html(rows) == rows_in_order(rows),
    decreases rows.len(),
{
    if rows.len() > 0 {
        law_overview_rows_in_order(rows.drop_last());
        law_row_shows_each_field(rows.last());
        lemma_rows_in_order_push(rows.drop_last(), rows.last());
        assert(rows.drop_last().push(rows.last()) =~= rows);
    }
}

/// The column heads `names`, each between `<th>` and `</th>` on a line of its own.
pub open spec fn html_heads(names: Seq<Seq<char>>) -> Seq<char>
    decreases names.len(),
{
    if names.len() == 0 {
        Seq::<char>::empty()
    } else {
        html_heads(names.drop_last()) + "\n        <th>"@ + names.last() + "</th>"@
    }
}

/// The overview is a heading and a table whose head names the six columns in
/// order (inner id, outer id, participant, destination, departure, return)
/// and whose body holds the rows of the trips in the order given.
pub proof fn law_overview_table(rows: Seq<OverviewRow>)
    ensures
        spec_overview_html(rows) == "\n        <h2>Overview</h2>\n        <table border=\"1\" cellspacing=\"0\" cellpadding=\"6\">\n        <thead>\n        <tr>"@
            + html_heads(seq!["InnerId"@, "OuterId"@, "Participant"@, "Destination"@, "Departure"@, "Return"@])
            + "\n        </tr>\n        </thead>\n        <tbody>\n        "@ + rows_in_order(rows)
            + "\n        </tbody>\n        </table>\n        "@,
{
    law_overview_rows_in_order(rows);
    let names = seq!["InnerId"@, "OuterId"@, "Participant"@, "Destination"@, "Departure"@, "Return"@];
    reveal_with_fuel(html_heads, 7);
    reveal_strlit("\n        <h2>Overview</h2>\n        <table border=\"1\" cellspacing=\"0\" cellpadding=\"6\">\n        <thead>\n        <tr>\n        <th>InnerId</th>\n        <th>OuterId</th>\n        <th>Participant</th>\n        <th>Destination</th>\n        <th>Departure</th>\n        <th>Return</th>\n        </tr>\n        </thead>\n        <tbody>\n        ");
    reveal_strlit("\n        <h2>Overview</h2>\n        <table border=\"1\" cellspacing=\"0\" cellpadding=\"6\">\n        <thead>\n        <tr>");
    reveal_strlit("\n        </tr>\n        </thead>\n        <tbody>\n        ");
    reveal_strlit("\n        <th>");
    reveal_strlit("</th>");
    reveal_strlit("InnerId");
    reveal_strlit("OuterId");
    reveal_strlit("Participant");
    reveal_strlit("Destination");
    reveal_strlit("Departure");
    reveal_strlit("Return");
    assert(names.drop_last().drop_last().drop_last().drop_last().drop_last().drop_last() =~= Seq::<Seq<char>>::empty());
    let head = "\n        <h2>Overview</h2>\n        <table border=\"1\" cellspacing=\"0\" cellpadding=\"6\">\n        <thead>\n        <tr>\n        <th>InnerId</th>\n        <th>OuterId</th>\n        <th>Participant</th>\n        <th>Destination</th>\n        <th>Departure</th>\n        <th>Return</th>\n        </tr>\n        </thead>\n        <tbody>\n        "@;
    let h2 = "\n        <h2>Overview</h2>\n        <table border=\"1\" cellspacing=\"0\" cellpadding=\"6\">\n        <thead>\n        <tr>"@ + html_heads(names)
        + "\n        </tr>\n        </thead>\n        <tbody>\n        "@;
    assert(head =~= h2);
}

fn append_opt(s: &mut String, o: &Option<String>)
    ensures
        final(s)@ == old(s)@ + or_empty(*o),
{
    match o {
        Some(t) => s.append(t.as_str()),
        None => {
            assert(old(s)@ + Seq::<char>::empty() =~= old(s)@);
        },
    }
}

/// The table row of one trip.
pub fn row_html(r: &OverviewRow) -> (res: String)
    ensures
        res@ == spec_row_html(*r),
{
    let mut s = "\n            <tr>\n            <td>".to_owned();
    append_opt(&mut s, &r.InnerId);
    s.append("</td>\n            <td>");
    append_opt(&mut s, &r.OuterId);
    s.append("</td>\n            <td>");
    append_opt(&mut s, &r.ParticipantGroup);
    s.append("</td>\n            <td>");
    append_opt(&mut s, &r.OverallDestination);
    s.append("</td>\n            <td>");
    append_opt(&mut s, &r.DepartureDate);
    s.append("</td>\n            <td>");
    append_opt(&mut s, &r.ReturnDate);
    s.append("</td>\n            </tr>\n            ");
    s
}

/// The overview table of the trips, in the order given.
pub fn overview_html(rows: &Vec<OverviewRow>) -> (res: String)
    ensures
        res@ == spec_overview_html(rows@),
{
    let mut body = String::new();
    let n = rows.len();
    assert(rows@.take(0) =~= Seq::<OverviewRow>::empty());
    for i in 0..n
        invariant
            n == rows@.len(),
            body@ == spec_rows_html(rows@.take(i as int)),
    {
        assert(rows@.take(i + 1).drop_last() =~= rows@.take(i as int));
        assert(rows@.take(i + 1).last() == rows@[i as int]);
        let row = row_html(&rows[i]);
        body.append(row.as_str());
    }
    assert(rows@.take(n as int) =~= rows@);
    let mut s = "\n        <h2>Overview</h2>\n        <table border=\"1\" cellspacing=\"0\" cellpadding=\"6\">\n        <thead>\n        <tr>\n        <th>InnerId</th>\n        <th>OuterId</th>\n        <th>Participant</th>\n        <th>Destination</th>\n        <th>Departure</th>\n        <th>Return</th>\n        </tr>\n        </thead>\n        <tbody>\n        ".to_owned();
    s.append(body.as_str());
    s.append("\n        </tbody>\n        </table>\n        ");
    s
}

} // verus!
