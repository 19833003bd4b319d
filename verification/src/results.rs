//! The shape in which query results reach the templates, and the decisions
//! around the in-memory database.
//!
//! A query answers with its column names and its rows of cell values. The
//! results of a batch of queries stand each under the name of its query:
//! either as a list of records (one object per row, keyed by column name), or,
//! where the order of the columns matters, as a table with the column names
//! and the rows as plain lists.
use vstd::prelude::*;
use crate::text_map::TextMap;

verus! {

/// What one query answered: its column names and its rows, each row holding
/// one cell value per column. A query that could not be prepared answers with
/// no columns and no rows.
pub struct QueryAnswer<V> {
    pub columns: Vec<String>,
    pub rows: Vec<Vec<V>>,
}

/// The results of one query as the templates receive them.
pub enum ResultShape<V> {
    /// One record per row, each mapping column names to cell values.
    Records(Vec<TextMap<V>>),
    /// The column names, and the rows as plain lists.
    Table { columns: Vec<String>, rows: Vec<Vec<V>> },
}

/// The record of one row: each column name mapped to its cell, a later column
/// of the same name replacing an earlier one.
pub open spec fn spec_record<V>(cols: Seq<Seq<char>>, vals: Seq<V>) -> Map<Seq<char>, V>
    decreases cols.len(),
{
    if cols.len() == 0 || vals.len() == 0 {
        Map::empty()
    } else {
        spec_record(cols.drop_last(), vals.drop_last()).insert(cols.last(), vals.last())
    }
}

/// The record of a row maps the name of each column to the cell of that column, where no later column has the same name.
pub proof fn law_record_holds_each<V>(cols: Seq<Seq<char>>, vals: Seq<V>, i: int)
    requires
        cols.len() == vals.len(),
        0 <= i < cols.len(),
        forall|j: int| i < j < cols.len() ==> #[trigger] cols[j] != cols[i],
    ensures
        spec_record(cols, vals).dom().contains(cols[i]),
        spec_record(cols, vals)[cols[i]] == vals[i],
    decreases cols.len(),
{
    if i < cols.len() - 1 {
        let n = cols.len() - 1;
        assert forall|j: int| i < j < cols.drop_last().len() implies #[trigger] cols.drop_last()[j] != cols.drop_last()[i] by {
            assert(cols.drop_last()[j] == cols[j]);
        }
        law_record_holds_each(cols.drop_last(), vals.drop_last(), i);
        assert(cols.last() == cols[n]);
        assert(cols.drop_last()[i] == cols[i]);
        assert(vals.drop_last()[i] == vals[i]);
    } else {
        assert(cols.last() == cols[i]);
        assert(vals.last() == vals[i]);
    }
}

/// The keys of the record of a row are exactly the column names.
pub proof fn law_record_keys<V>(cols: Seq<Seq<char>>, vals: Seq<V>, k: Seq<char>)
    requires
        cols.len() == vals.len(),
    ensures
        spec_record(cols, vals).dom().contains(k) == cols.contains(k),
    decreases cols.len(),
{
    if cols.len() > 0 {
        law_record_keys(cols.drop_last(), vals.drop_last(), k);
        if cols.contains(k) {
            let j = choose|j: int| 0 <= j < cols.len() && cols[j] == k;
            if j < cols.len() - 1 {
                assert(cols.drop_last()[j] == k);
            }
        }
        if cols.drop_last().contains(k) {
            let j = choose|j: int| 0 <= j < cols.drop_last().len() && cols.drop_last()[j] == k;
            assert(cols[j] == k);
        }
        if cols.last() == k {
            assert(cols[cols.len() - 1] == k);
        }
    }
}

/// The characters of each string.
pub open spec fn names_view(v: Seq<String>) -> Seq<Seq<char>> {
    v.map_values(|s: String| s@)
}

/// The record of one row of cells under the given column names.
pub fn record_of<V>(columns: &Vec<String>, values: Vec<V>) -> (res: TextMap<V>)
    requires
        values@.len() == columns@.len(),
    ensures
        res.wf(),
        res@ == spec_record(names_view(columns@), values@),
{
    let mut values = values;
    let ghost vals = values@;
    let ghost cols = names_view(columns@);
    let n = columns.len();
    let mut rec: TextMap<V> = TextMap::new();
    let mut i: usize = 0;
    assert(cols.take(0) =~= Seq::<Seq<char>>::empty());
    while i < n
        invariant
            n == columns@.len(),
            n == vals.len(),
            cols == names_view(columns@),
            i <= n,
            values@ == vals.skip(i as int),
            rec.wf(),
            rec@ == spec_record(cols.take(i as int), vals.take(i as int)),
        decreases n - i,
    {
        let v = values.remove(0);
        assert(v == vals[i as int]);
        assert(values@ =~= vals.skip(i + 1));
        let ghost r0 = rec@;
        rec.insert(columns[i].clone(), v);
        assert(cols.take(i + 1).drop_last() =~= cols.take(i as int));
        assert(vals.take(i + 1).drop_last() =~= vals.take(i as int));
        assert(cols.take(i + 1).last() == columns@[i as int]@);
        assert(vals.take(i + 1).last() == vals[i as int]);
        i = i + 1;
    }
    assert(cols.take(n as int) =~= cols);
    assert(vals.take(n as int) =~= vals);
    rec
}

/// Whether every row holds one cell per column.
pub open spec fn rows_fit<V>(a: QueryAnswer<V>) -> bool {
    forall|j: int| 0 <= j < a.rows@.len() ==> (#[trigger] a.rows@[j])@.len() == a.columns@.len()
}

/// Whether `s` is the shape of the answer `a`: the table of its columns and
/// rows when `keep_order`, else one record per row.
pub open spec fn shaped<V>(a: QueryAnswer<V>, keep_order: bool, s: ResultShape<V>) -> bool {
    if keep_order {
        s == (ResultShape::Table { columns: a.columns, rows: a.rows })
    } else {
        match s {
            ResultShape::Records(recs) => {
                &&& recs@.len() == a.rows@.len()
                &&& forall|k: int| 0 <= k < recs@.len() ==> {
                    &&& (#[trigger] recs@[k]).wf()
                    &&& recs@[k]@ == spec_record(names_view(a.columns@), a.rows@[k]@)
                }
            },
            ResultShape::Table { .. } => false,
        }
    }
}

/// The results of one query: a table when `keep_order`, records otherwise.
pub fn shape_answer<V>(answer: QueryAnswer<V>, keep_order: bool) -> (res: ResultShape<V>)
    requires
        rows_fit(answer),
    ensures
        shaped(answer, keep_order, res),
{
    if keep_order {
        return ResultShape::Table { columns: answer.columns, rows: answer.rows };
    }
    let QueryAnswer { columns, rows } = answer;
    let mut rows = rows;
    let ghost all = rows@;
    let n = rows.len();
    let mut recs: Vec<TextMap<V>> = Vec::new();
    let mut i: usize = 0;
    while i < n
        invariant
            n == all.len(),
            i <= n,
            rows@ == all.skip(i as int),
            recs@.len() == i,
            forall|j: int| 0 <= j < all.len() ==> (#[trigger] all[j])@.len() == columns@.len(),
            forall|j: int| 0 <= j < i ==> {
                &&& (#[trigger] recs@[j]).wf()
                &&& recs@[j]@ == spec_record(names_view(columns@), all[j]@)
            },
        decreases n - i,
    {
        let row = rows.remove(0);
        assert(row == all[i as int]);
        assert(rows@ =~= all.skip(i + 1));
        let rec = record_of(&columns, row);
        recs.push(rec);
        i = i + 1;
    }
    ResultShape::Records(recs)
}

/// The results of a batch of queries, each under the name of its query, a
/// later query of the same name replacing an earlier one.
pub open spec fn spec_batch<V>(names: Seq<Seq<char>>, shapes: Seq<ResultShape<V>>) -> Map<Seq<char>, ResultShape<V>>
    decreases names.len(),
{
    if names.len() == 0 || shapes.len() == 0 {
        Map::empty()
    } else {
        spec_batch(names.drop_last(), shapes.drop_last()).insert(names.last(), shapes.last())
    }
}

/// The results of a batch hold, under the name of each query, the shape of that query, where no later query has the same name.
pub proof fn law_batch_holds_each<V>(names: Seq<Seq<char>>, shapes: Seq<ResultShape<V>>, i: int)
    requires
        names.len() == shapes.len(),
        0 <= i < names.len(),
        forall|j: int| i < j < names.len() ==> #[trigger] names[j] != names[i],
    ensures
        spec_batch(names, shapes).dom().contains(names[i]),
        spec_batch(names, shapes)[names[i]] == shapes[i],
    decreases names.len(),
{
    if i < names.len() - 1 {
        let n = names.len() - 1;
        assert forall|j: int| i < j < names.drop_last().len() implies #[trigger] names.drop_last()[j] != names.drop_last()[i] by {
            assert(names.drop_last()[j] == names[j]);
        }
        law_batch_holds_each(names.drop_last(), shapes.drop_last(), i);
        assert(names.last() == names[n]);
        assert(names.drop_last()[i] == names[i]);
        assert(shapes.drop_last()[i] == shapes[i]);
    } else {
        assert(names.last() == names[i]);
        assert(shapes.last() == shapes[i]);
    }
}

/// The results of a batch are under exactly the names of its queries.
pub proof fn law_batch_keys<V>(names: Seq<Seq<char>>, shapes: Seq<ResultShape<V>>, k: Seq<char>)
    requires
        names.len() == shapes.len(),
    ensures
        spec_batch(names, shapes).dom().contains(k) == names.contains(k),
    decreases names.len(),
{
    if names.len() > 0 {
        law_batch_keys(names.drop_last(), shapes.drop_last(), k);
        if names.contains(k) {
            let j = choose|j: int| 0 <= j < names.len() && names[j] == k;
            if j < names.len() - 1 {
                assert(names.drop_last()[j] == k);
            }
        }
        if names.drop_last().contains(k) {
            let j = choose|j: int| 0 <= j < names.drop_last().len() && names.drop_last()[j] == k;
            assert(names[j] == k);
        }
        if names.last() == k {
            assert(names[names.len() - 1] == k);
        }
    }
}

/// The names of the queries of a batch.
pub open spec fn answer_names<V>(a: Seq<(String, QueryAnswer<V>)>) -> Seq<Seq<char>> {
    a.map_values(|e: (String, QueryAnswer<V>)| e.0@)
}

/// Whether `m` holds the shapes `shapes` of the answers, each under the name
/// of its query.
pub open spec fn batch_of<V>(
    answers: Seq<(String, QueryAnswer<V>)>,
    keep_order: bool,
    shapes: Seq<ResultShape<V>>,
    m: Map<Seq<char>, ResultShape<V>>,
) -> bool {
    &&& shapes.len() == answers.len()
    &&& m == spec_batch(answer_names(answers), shapes)
    &&& forall|j: int| 0 <= j < answers.len() ==> shaped(#[trigger] answers[j].1, keep_order, shapes[j])
}

/// The answers of a batch of queries, each under the name of its query, put
/// in the shape that `shape_answer` gives.
pub fn shape_batch<V>(answers: Vec<(String, QueryAnswer<V>)>, keep_order: bool) -> (res: TextMap<ResultShape<V>>)
    requires
        forall|j: int| 0 <= j < answers@.len() ==> rows_fit(#[trigger] answers@[j].1),
    ensures
        res.wf(),
        exists|shapes: Seq<ResultShape<V>>| #[trigger] batch_of(answers@, keep_order, shapes, res@),
{
    let mut answers = answers;
    let ghost all = answers@;
    let ghost names = answer_names(all);
    let n = answers.len();
    let mut out: TextMap<ResultShape<V>> = TextMap::new();
    let ghost mut shapes: Seq<ResultShape<V>> = Seq::empty();
    let mut i: usize = 0;
    assert(names.take(0) =~= Seq::<Seq<char>>::empty());
    while i < n
        invariant
            n == all.len(),
            names == answer_names(all),
            i <= n,
            answers@ == all.skip(i as int),
            shapes.len() == i,
            out.wf(),
            out@ == spec_batch(names.take(i as int), shapes),
            forall|j: int| 0 <= j < all.len() ==> rows_fit(#[trigger] all[j].1),
            forall|j: int| 0 <= j < i ==> shaped(#[trigger] all[j].1, keep_order, shapes[j]),
        decreases n - i,
    {
        let (name, answer) = answers.remove(0);
        assert(all[i as int] == (name, answer));
        assert(answers@ =~= all.skip(i + 1));
        assert(rows_fit(all[i as int].1));
        let shape = shape_answer(answer, keep_order);
        let ghost s0 = shapes;
        proof {
            shapes = shapes.push(shape);
        }
        assert(names.take(i + 1).drop_last() =~= names.take(i as int));
        assert(names.take(i + 1).last() == name@);
        assert(shapes.drop_last() =~= s0);
        out.insert(name, shape);
        i = i + 1;
    }
    assert(names.take(n as int) =~= names);
    assert(batch_of(all, keep_order, shapes, out@));
    out
}

/// What to do about the in-memory database when its bytes are at hand.
pub enum DbOpen {
    /// It is open already: use it.
    UseOpen,
    /// There are no bytes: there is no database.
    NoDatabase,
    /// Open a database from the bytes.
    Open,
}

/// The database is opened once, from non-empty bytes; later calls use it.
pub fn db_open_action(already_open: bool, byte_count: usize) -> (res: DbOpen)
    ensures
        already_open ==> res == DbOpen::UseOpen,
        !already_open && byte_count == 0 ==> res == DbOpen::NoDatabase,
        !already_open && byte_count > 0 ==> res == DbOpen::Open,
{
    if already_open {
        DbOpen::UseOpen
    } else if byte_count == 0 {
        DbOpen::NoDatabase
    } else {
        DbOpen::Open
    }
}

/// The kind of a cell value, from SQLite's type code of the column.
pub enum CellKind {
    Integer,
    Float,
    Text,
    Null,
}

/// The kind of cell that a SQLite type code calls for: integer (1), float
/// (2) and text (3); anything else is null.
pub fn cell_kind(type_code: i32) -> (res: CellKind)
    ensures
        type_code == 1 ==> res == CellKind::Integer,
        type_code == 2 ==> res == CellKind::Float,
        type_code == 3 ==> res == CellKind::Text,
        type_code != 1 && type_code != 2 && type_code != 3 ==> res == CellKind::Null,
{
    if type_code == 1 {
        CellKind::Integer
    } else if type_code == 2 {
        CellKind::Float
    } else if type_code == 3 {
        CellKind::Text
    } else {
        CellKind::Null
    }
}

} // verus!
