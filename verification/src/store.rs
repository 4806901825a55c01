//! Trusted boundary to the SQLite table that backs the snapshot index.
//!
//! The table is abstracted by two sequences of rows in id (insertion) order:
//! the rows visible to queries on the live connection, and the rows that are
//! durably committed.  Between a flush and the next, the visible rows are the
//! committed rows followed by the inserts of the open transaction.  Every
//! store failure is treated as fatal: a metadata index that cannot trust its
//! own storage must not keep serving answers, so each wrapper aborts instead
//! of returning an error.

use vstd::prelude::*;

verus! {

#[verifier::external_type_specification]
#[verifier::external_body]
pub struct ExConnection(sqlite3::Connection);

/// SQLite's default limit on the length of one value (`SQLITE_MAX_LENGTH`):
/// the wrappers promise their behaviour only for fields below it, which also
/// keeps every length well inside the C `int` that a bind passes it as.
pub const MAX_FIELD_BYTES: usize = 1000000000;

/// Every row of the snapshot table visible to queries on this connection,
/// in id (insertion) order.
pub uninterp spec fn table_rows(db: sqlite3::Connection) -> Seq<crate::SnapRow>;

/// The rows of the snapshot table that are durable: after a crash, a fresh
/// connection to the same database sees exactly these.
pub uninterp spec fn committed_rows(db: sqlite3::Connection) -> Seq<crate::SnapRow>;

/// The path the connection was opened at: which database file (or `:memory:`
/// store) the handle is bound to, fixed when it is opened.
pub uninterp spec fn db_path(db: sqlite3::Connection) -> Seq<char>;

/// Whether an explicit transaction is open on the connection.  Outside one
/// the connection is in autocommit mode: a write would become durable at
/// statement end.
pub uninterp spec fn txn_open(db: sqlite3::Connection) -> bool;

/// Relies on `sqlite3::open`: opens the database at `path`, creating it when
/// absent, and binds the handle to it.  A fresh connection has no
/// transaction open, so it sees exactly the committed contents, and
/// `":memory:"` names a new, empty, in-memory database.  The model speaks
/// of one live connection per database — the handle owns its store
/// exclusively, as the index's design demands — so rows written through a
/// second simultaneous connection to the same path are outside it.
#[verifier::external_body]
pub(crate) fn open_db(path: &str) -> (db: sqlite3::Connection)
    ensures
        db_path(db) == path@,
        !txn_open(db),
        table_rows(db) == committed_rows(db),
        path@ == ":memory:"@ ==> committed_rows(db) == Seq::<crate::SnapRow>::empty(),
{
    sqlite3::open(path).expect("snapshot store: cannot open database")
}

/// Relies on `Connection::execute` running `CREATE TABLE IF NOT EXISTS`: it
/// creates the snapshot table when missing and leaves an existing table, and
/// so every row, untouched; it opens or closes no transaction.
#[verifier::external_body]
pub(crate) fn create_table(db: &mut sqlite3::Connection)
    ensures
        table_rows(*final(db)) == table_rows(*old(db)),
        committed_rows(*final(db)) == committed_rows(*old(db)),
        db_path(*final(db)) == db_path(*old(db)),
        txn_open(*final(db)) == txn_open(*old(db)),
{
    db.execute(
        "CREATE TABLE IF NOT EXISTS snapshot_index (id INTEGER PRIMARY KEY AUTOINCREMENT, family BLOB, hash BLOB, tree_ref BLOB)",
    ).expect("snapshot store: cannot create table")
}

/// Relies on `Connection::execute` running `BEGIN`: it opens a transaction
/// and changes no row, neither visible nor committed.  With one already
/// open, `BEGIN` errors and the wrapper aborts, so that state is excluded.
#[verifier::external_body]
pub(crate) fn begin_txn(db: &mut sqlite3::Connection)
    requires
        !txn_open(*old(db)),
    ensures
        txn_open(*final(db)),
        table_rows(*final(db)) == table_rows(*old(db)),
        committed_rows(*final(db)) == committed_rows(*old(db)),
        db_path(*final(db)) == db_path(*old(db)),
{
    db.execute("BEGIN").expect("snapshot store: cannot begin transaction")
}

/// Relies on `Connection::execute` running `COMMIT`: every row visible on
/// this connection becomes durable, the visible rows themselves do not
/// change, and the transaction is closed.  With none open, `COMMIT` errors
/// and the wrapper aborts, so that state is excluded.
#[verifier::external_body]
pub(crate) fn commit_txn(db: &mut sqlite3::Connection)
    requires
        txn_open(*old(db)),
    ensures
        !txn_open(*final(db)),
        table_rows(*final(db)) == table_rows(*old(db)),
        committed_rows(*final(db)) == table_rows(*old(db)),
        db_path(*final(db)) == db_path(*old(db)),
{
    db.execute("COMMIT").expect("snapshot store: cannot commit transaction")
}

/// Relies on `Connection::prepare`, `Statement::bind` and `Statement::next`
/// running an `INSERT`: one row holding `(family, hash, tree_ref)` is
/// appended after every existing row (`AUTOINCREMENT` assigns a strictly
/// larger id, never a reused one, and fails — aborting here — when the ids
/// are exhausted) inside the open transaction, which the `requires` demands,
/// so the committed rows are untouched and the transaction stays open.  The
/// family is stored as its UTF-8 bytes, at most four per character, and
/// every field is kept under `MAX_FIELD_BYTES` by the `requires`: a machine
/// limit, since a bind passes its length as a C `int`, which a longer field
/// would overflow.
#[verifier::external_body]
pub(crate) fn insert_row(
    db: &mut sqlite3::Connection,
    family: &str,
    hash: &Vec<u8>,
    tree_ref: &Vec<u8>,
)
    requires
        txn_open(*old(db)),
        4 * family@.len() <= MAX_FIELD_BYTES,
        hash@.len() <= MAX_FIELD_BYTES,
        tree_ref@.len() <= MAX_FIELD_BYTES,
    ensures
        txn_open(*final(db)),
        table_rows(*final(db)) == table_rows(*old(db)).push((family@, hash@, tree_ref@)),
        committed_rows(*final(db)) == committed_rows(*old(db)),
        db_path(*final(db)) == db_path(*old(db)),
{
    let mut stm = db
        .prepare("INSERT INTO snapshot_index (family, hash, tree_ref) VALUES (?, ?, ?)")
        .expect("snapshot store: cannot prepare insert");
    stm.bind(1, family.as_bytes()).expect("snapshot store: cannot bind family");
    stm.bind(2, &hash[..]).expect("snapshot store: cannot bind hash");
    stm.bind(3, &tree_ref[..]).expect("snapshot store: cannot bind tree_ref");
    stm.next().expect("snapshot store: insert failed");
}

/// Relies on `Connection::prepare`, `Statement::next` and `Statement::read`
/// running a `SELECT` ordered by id: returns every row of the snapshot table
/// visible on this connection, in id order, each family decoded from the
/// UTF-8 bytes it was stored as.
#[verifier::external_body]
pub(crate) fn scan_rows(db: &sqlite3::Connection) -> (rows: Vec<(String, Vec<u8>, Vec<u8>)>)
    ensures
        crate::row_views(rows@) == table_rows(*db),
{
    let mut stm = db
        .prepare("SELECT family, hash, tree_ref FROM snapshot_index ORDER BY id")
        .expect("snapshot store: cannot prepare lookup");
    let mut rows = Vec::new();
    while stm.next().expect("snapshot store: lookup failed") == sqlite3::State::Row {
        let family: Vec<u8> = stm.read(0).expect("snapshot store: cannot read family");
        let hash: Vec<u8> = stm.read(1).expect("snapshot store: cannot read hash");
        let tree_ref: Vec<u8> = stm.read(2).expect("snapshot store: cannot read tree_ref");
        let family = String::from_utf8(family).expect("snapshot store: family is not UTF-8");
        rows.push((family, hash, tree_ref));
    }
    rows
}

} // verus!
