//! Where the database bytes come from at start-up: the copy stored in the
//! browser if there is one; otherwise the server file named in
//! `server_db_path.txt`, which is then stored for next time. Each step waits
//! for outside work (a read, a fetch, a write); the decisions stand here, as
//! the next state for the state and the outcome of that work.
use vstd::prelude::*;
use crate::text::{chars_blank, chars_of, is_blank, spec_trim, string_of, trim_chars};

verus! {

/// Where the loading of the database stands.
pub enum DbLoad {
    /// Read the stored copy.
    ReadStored,
    /// Fetch the text that names the server file.
    FetchPath,
    /// Fetch the database from this address.
    FetchDb(String),
    /// Store these bytes, then use them.
    Save(Vec<u8>),
    /// Finished with these bytes; empty when there is no database.
    Done(Vec<u8>),
}

/// The outcome of the outside work of a step.
pub enum DbEvent {
    /// The stored copy, if there is one.
    Stored(Option<Vec<u8>>),
    /// The text that names the server file, if it could be fetched.
    PathText(Option<String>),
    /// The fetched database, if the fetch succeeded.
    DbBytes(Option<Vec<u8>>),
    /// Whether storing succeeded.
    Saved(bool),
}

/// The model of a loading state.
pub enum DbLoadView {
    ReadStored,
    FetchPath,
    FetchDb(Seq<char>),
    Save(Seq<u8>),
    Done(Seq<u8>),
}

pub open spec fn load_view(s: DbLoad) -> DbLoadView {
    match s {
        DbLoad::ReadStored => DbLoadView::ReadStored,
        DbLoad::FetchPath => DbLoadView::FetchPath,
        DbLoad::FetchDb(u) => DbLoadView::FetchDb(u@),
        DbLoad::Save(b) => DbLoadView::Save(b@),
        DbLoad::Done(b) => DbLoadView::Done(b@),
    }
}

/// The next state: a stored copy is used as it is; otherwise the trimmed,
/// non-blank server path is fetched; a fetched non-empty database is stored
/// and used once storing succeeds; every failure ends with no database. An
/// outcome that does not belong to the state leaves the state as it is.
pub open spec fn spec_db_step(s: DbLoad, e: DbEvent) -> DbLoadView {
    match (s, e) {
        (DbLoad::ReadStored, DbEvent::Stored(found)) => match found {
            Some(b) => DbLoadView::Done(b@),
            None => DbLoadView::FetchPath,
        },
        (DbLoad::FetchPath, DbEvent::PathText(text)) => match text {
            Some(p) => if !is_blank(p@) {
                DbLoadView::FetchDb(spec_trim(p@))
            } else {
                DbLoadView::Done(Seq::<u8>::empty())
            },
            None => DbLoadView::Done(Seq::<u8>::empty()),
        },
        (DbLoad::FetchDb(_), DbEvent::DbBytes(got)) => match got {
            Some(b) => if b@.len() > 0 {
                DbLoadView::Save(b@)
            } else {
                DbLoadView::Done(Seq::<u8>::empty())
            },
            None => DbLoadView::Done(Seq::<u8>::empty()),
        },
        (DbLoad::Save(b), DbEvent::Saved(ok)) => if ok {
            DbLoadView::Done(b@)
        } else {
            DbLoadView::Done(Seq::<u8>::empty())
        },
        (s, _) => load_view(s),
    }
}

/// The state after the outcome `e` of the outside work of state `s`.
pub fn db_step(s: DbLoad, e: DbEvent) -> (res: DbLoad)
    ensures
        load_view(res) == spec_db_step(s, e),
{
    match (s, e) {
        (DbLoad::ReadStored, DbEvent::Stored(found)) => match found {
            Some(b) => DbLoad::Done(b),
            None => DbLoad::FetchPath,
        },
        (DbLoad::FetchPath, DbEvent::PathText(text)) => match text {
            Some(p) => {
                let cs = chars_of(p.as_str());
                if !chars_blank(cs.as_slice()) {
                    let t = trim_chars(cs.as_slice());
                    DbLoad::FetchDb(string_of(t.as_slice()))
                } else {
                    DbLoad::Done(Vec::new())
                }
            },
            None => DbLoad::Done(Vec::new()),
        },
        (DbLoad::FetchDb(u), DbEvent::DbBytes(got)) => match got {
            Some(b) => if b.len() > 0 {
                DbLoad::Save(b)
            } else {
                DbLoad::Done(Vec::new())
            },
            None => DbLoad::Done(Vec::new()),
        },
        (DbLoad::Save(b), DbEvent::Saved(ok)) => if ok {
            DbLoad::Done(b)
        } else {
            DbLoad::Done(Vec::new())
        },
        (s, _) => s,
    }
}

/// How loading the database goes, step by step: a stored copy is used as it
/// is; a fetched non-empty database is stored and then used, byte for byte,
/// once storing succeeds; each failure (no path text, a blank path, a failed
/// or empty fetch, failed storing) ends with no database; and a finished load
/// stays finished whatever comes after.
pub proof fn law_db_loading(stored: Vec<u8>, path: String, url: String, fetched: Vec<u8>, e: DbEvent, done: Vec<u8>)
    ensures
        spec_db_step(DbLoad::ReadStored, DbEvent::Stored(Some(stored))) == DbLoadView::Done(stored@),
        spec_db_step(DbLoad::ReadStored, DbEvent::Stored(None)) == DbLoadView::FetchPath,
        spec_db_step(DbLoad::FetchPath, DbEvent::PathText(None)) == DbLoadView::Done(Seq::<u8>::empty()),
        is_blank(path@) ==> spec_db_step(DbLoad::FetchPath, DbEvent::PathText(Some(path)))
            == DbLoadView::Done(Seq::<u8>::empty()),
        !is_blank(path@) ==> spec_db_step(DbLoad::FetchPath, DbEvent::PathText(Some(path)))
            == DbLoadView::FetchDb(spec_trim(path@)),
        spec_db_step(DbLoad::FetchDb(url), DbEvent::DbBytes(None)) == DbLoadView::Done(Seq::<u8>::empty()),
        fetched@.len() == 0 ==> spec_db_step(DbLoad::FetchDb(url), DbEvent::DbBytes(Some(fetched)))
            == DbLoadView::Done(Seq::<u8>::empty()),
        fetched@.len() > 0 ==> spec_db_step(DbLoad::FetchDb(url), DbEvent::DbBytes(Some(fetched)))
            == DbLoadView::Save(fetched@),
        spec_db_step(DbLoad::Save(fetched), DbEvent::Saved(true)) == DbLoadView::Done(fetched@),
        spec_db_step(DbLoad::Save(fetched), DbEvent::Saved(false)) == DbLoadView::Done(Seq::<u8>::empty()),
        spec_db_step(DbLoad::Done(done), e) == DbLoadView::Done(done@),
{
}

} // verus!
