//! The change ledger: the persistent map from tracked path to last-known
//! fingerprint, stored in an in-memory SQLite database through rusqlite.
//!
//! The database connection is opaque; what the `files` table holds is named
//! by `ledger_rows`, and each SQL operation the ledger performs is a trusted
//! wrapper whose contract states that operation's effect on the rows.

use vstd::prelude::*;

verus! {

#[verifier::external_type_specification]
#[verifier::external_body]
pub struct ExConnection(rusqlite::Connection);

#[verifier::external_type_specification]
#[verifier::external_body]
pub struct ExSqlError(rusqlite::Error);

/// The rows of the connection's `files` table: path text to fingerprint
/// text, keyed by the table's primary key. While the table does not exist
/// the connection holds no rows.
pub uninterp spec fn ledger_rows(conn: rusqlite::Connection) -> Map<Seq<char>, Seq<char>>;

/// Relies on rusqlite::Connection::open_in_memory: a freshly opened
/// in-memory database holds no tables, so no rows.
#[verifier::external_body]
fn open_memory_db() -> (r: Result<rusqlite::Connection, rusqlite::Error>)
    ensures
        (match r {
            Ok(conn) => ledger_rows(conn) == Map::<Seq<char>, Seq<char>>::empty(),
            Err(_) => true,
        }),
{
    rusqlite::Connection::open_in_memory()
}

/// Relies on rusqlite::Connection::execute running `CREATE TABLE IF NOT
/// EXISTS`: it creates an empty table or keeps the existing one, and never
/// touches rows.
#[verifier::external_body]
fn create_files_table(conn: &mut rusqlite::Connection) -> (r: Result<(), rusqlite::Error>)
    ensures
        ledger_rows(*final(conn)) == ledger_rows(*old(conn)),
{
    match conn.execute(
        "CREATE TABLE IF NOT EXISTS files (path TEXT PRIMARY KEY, hash TEXT NOT NULL)",
        (),
    ) {
        Ok(_) => Ok(()),
        Err(e) => Err(e),
    }
}

/// Relies on rusqlite::Connection::query_row running a single-row SELECT by
/// the primary key: it yields the row's hash column when the key is present
/// and fails with QueryReturnedNoRows when it is absent.
#[verifier::external_body]
fn select_row(conn: &rusqlite::Connection, path: &str) -> (r: Result<
    Option<String>,
    rusqlite::Error,
>)
    ensures
        r matches Ok(found) ==> (match found {
            Some(hash) => ledger_rows(*conn).contains_key(path@) && ledger_rows(*conn)[path@]
                == hash@,
            None => !ledger_rows(*conn).contains_key(path@),
        }),
{
    match conn.query_row(
        "SELECT hash FROM files WHERE path = ?1",
        [path],
        |row| row.get::<usize, String>(0),
    ) {
        Ok(hash) => Ok(Some(hash)),
        Err(rusqlite::Error::QueryReturnedNoRows) => Ok(None),
        Err(e) => Err(e),
    }
}

/// Relies on rusqlite::Connection::execute running INSERT on a table whose
/// `path` column is the primary key: it adds the row when the key is absent
/// and fails on a duplicate key, and a failed statement changes no rows.
#[verifier::external_body]
fn insert_row(conn: &mut rusqlite::Connection, path: &str, hash: &str) -> (r: Result<
    (),
    rusqlite::Error,
>)
    ensures
        r is Ok ==> !ledger_rows(*old(conn)).contains_key(path@) && ledger_rows(*final(conn))
            == ledger_rows(*old(conn)).insert(path@, hash@),
        r is Err ==> ledger_rows(*final(conn)) == ledger_rows(*old(conn)),
{
    match conn.execute("INSERT INTO files (path, hash) VALUES (?1, ?2)", (path, hash)) {
        Ok(_) => Ok(()),
        Err(e) => Err(e),
    }
}

/// Relies on rusqlite::Connection::execute running UPDATE by the primary
/// key: it rewrites the row's hash when the key is present and changes
/// nothing when it is absent, and a failed statement changes no rows.
#[verifier::external_body]
fn update_row(conn: &mut rusqlite::Connection, path: &str, hash: &str) -> (r: Result<
    (),
    rusqlite::Error,
>)
    ensures
        r is Ok ==> ledger_rows(*final(conn)) == (if ledger_rows(*old(conn)).contains_key(path@) {
            ledger_rows(*old(conn)).insert(path@, hash@)
        } else {
            ledger_rows(*old(conn))
        }),
        r is Err ==> ledger_rows(*final(conn)) == ledger_rows(*old(conn)),
{
    match conn.execute("UPDATE files SET hash = ?1 WHERE path = ?2", (hash, path)) {
        Ok(_) => Ok(()),
        Err(e) => Err(e),
    }
}

/// A storage-layer failure: the ledger could reach no decision for the
/// path in hand. The caller skips that path and carries on.
#[derive(Clone, Copy, Debug, PartialEq, Eq, Structural)]
pub struct LedgerError;

/// Whether a newly computed fingerprint amounts to a genuine change against
/// what the ledger last stored: it does when the path was never recorded, or
/// when the stored fingerprint differs.
pub open spec fn spec_changed(rows: Map<Seq<char>, Seq<char>>, key: Seq<char>, fp: Seq<char>) -> bool {
    !rows.contains_key(key) || rows[key] != fp
}

/// Decides `spec_changed` from what a lookup returned: the stored
/// fingerprint, if any, against the newly computed one.
pub fn decide_change(stored: Option<&String>, fp: &str) -> (r: bool)
    ensures
        r == (match stored {
            Some(h) => h@ != fp@,
            None => true,
        }),
{
    match stored {
        Some(h) => !h.eq(&fp.to_owned()),
        None => true,
    }
}

/// The persistent map from tracked path to the fingerprint of the last
/// content this component successfully read for it. At most one entry per
/// path: the path is the table's primary key.
pub struct ChangeLedger {
    conn: rusqlite::Connection,
}

impl View for ChangeLedger {
    type V = Map<Seq<char>, Seq<char>>;

    closed spec fn view(&self) -> Map<Seq<char>, Seq<char>> {
        ledger_rows(self.conn)
    }
}

impl ChangeLedger {
    /// Opens a fresh, empty ledger.
    pub fn new() -> (r: Result<ChangeLedger, LedgerError>)
        ensures
            r matches Ok(ledger) ==> ledger@ == Map::<Seq<char>, Seq<char>>::empty(),
    {
        match open_memory_db() {
            Ok(mut conn) => match create_files_table(&mut conn) {
                Ok(()) => Ok(ChangeLedger { conn }),
                Err(_) => Err(LedgerError),
            },
            Err(_) => Err(LedgerError),
        }
    }

    /// The fingerprint stored for a path, if any.
    pub fn lookup(&self, path: &str) -> (r: Result<Option<String>, LedgerError>)
        ensures
            r matches Ok(found) ==> (match found {
                Some(hash) => self@.contains_key(path@) && self@[path@] == hash@,
                None => !self@.contains_key(path@),
            }),
    {
        match select_row(&self.conn, path) {
            Ok(found) => Ok(found),
            Err(_) => Err(LedgerError),
        }
    }

    /// Records a baseline fingerprint: inserts when the path is absent and
    /// keeps the stored entry when it is present. On failure the ledger is
    /// unchanged.
    pub fn record_initial(&mut self, path: &str, fp: &str) -> (r: Result<(), LedgerError>)
        ensures
            r is Ok ==> final(self)@ == (if old(self)@.contains_key(path@) {
                old(self)@
            } else {
                old(self)@.insert(path@, fp@)
            }),
            r is Err ==> final(self)@ == old(self)@,
    {
        match select_row(&self.conn, path) {
            Ok(Some(_)) => Ok(()),
            Ok(None) => match insert_row(&mut self.conn, path, fp) {
                Ok(()) => Ok(()),
                Err(_) => Err(LedgerError),
            },
            Err(_) => Err(LedgerError),
        }
    }

    /// Records a freshly computed fingerprint and reports whether it amounts
    /// to a genuine change: an unrecorded path is inserted and is a change; a
    /// differing fingerprint is rewritten and is a change; an equal one
    /// leaves the row as it is and is no change. On success the ledger maps
    /// the path to the given fingerprint; on failure it is unchanged.
    pub fn record_update(&mut self, path: &str, fp: &str) -> (r: Result<bool, LedgerError>)
        ensures
            r matches Ok(changed) ==> final(self)@ == old(self)@.insert(path@, fp@) && changed
                == spec_changed(old(self)@, path@, fp@),
            r is Err ==> final(self)@ == old(self)@,
    {
        match select_row(&self.conn, path) {
            Ok(None) => match insert_row(&mut self.conn, path, fp) {
                Ok(()) => Ok(true),
                Err(_) => Err(LedgerError),
            },
            Ok(Some(stored)) => {
                if decide_change(Some(&stored), fp) {
                    match update_row(&mut self.conn, path, fp) {
                        Ok(()) => Ok(true),
                        Err(_) => Err(LedgerError),
                    }
                } else {
                    proof {
                        assert(ledger_rows(self.conn).insert(path@, fp@) =~= ledger_rows(
                            self.conn,
                        ));
                    }
                    Ok(false)
                }
            },
            Err(_) => Err(LedgerError),
        }
    }
}

} // verus!
