//! Metadata index for a deduplicating, content-addressed backup engine.
//!
//! For every named backup series (a *family*) the index durably records the
//! chronological sequence of content-tree roots produced by successive backup
//! runs.  Records are appended inside an always-open, deferred transaction of
//! a SQLite table and become durable only at an explicit flush, which commits
//! and immediately reopens a transaction.  A latest-snapshot query answers
//! from the record with the greatest store-assigned id for its family.

use vstd::prelude::*;

pub mod store;

verus! {

/// The root identifier of a backup's content tree: an opaque byte string
/// produced by the hashing subsystem.  Equality is byte-wise; the index never
/// interprets it.
#[derive(Debug, PartialEq, Eq)]
pub struct ContentHash {
    pub bytes: Vec<u8>,
}

impl View for ContentHash {
    type V = Seq<u8>;

    open spec fn view(&self) -> Seq<u8> {
        self.bytes@
    }
}

/// One persisted snapshot record, abstractly: the family it belongs to, the
/// content-tree root hash, and the opaque tree reference, in that order.
/// Records stand in sequences ordered by their store-assigned id, so a
/// sequence index plays the role of the id: higher index, later record.
pub type SnapRow = (Seq<char>, Seq<u8>, Seq<u8>);

/// The record for `family` with the greatest id among `rows` (scanning from
/// the most recent end), projected to its hash and tree reference; `None`
/// when no record of the family exists.
pub open spec fn latest_of(rows: Seq<SnapRow>, family: Seq<char>) -> Option<(Seq<u8>, Seq<u8>)>
    decreases rows.len(),
{
    if rows.len() == 0 {
        None
    } else if rows.last().0 == family {
        Some((rows.last().1, rows.last().2))
    } else {
        latest_of(rows.drop_last(), family)
    }
}

/// The abstraction of a vector of fetched records to the rows it stands for.
pub open spec fn row_views(rows: Seq<(String, Vec<u8>, Vec<u8>)>) -> Seq<SnapRow> {
    rows.map(|i: int, r: (String, Vec<u8>, Vec<u8>)| (r.0@, r.1@, r.2@))
}

/// The view of a latest-snapshot reply.
pub open spec fn latest_view(r: Option<(ContentHash, Vec<u8>)>) -> Option<(Seq<u8>, Seq<u8>)> {
    match r {
        Some(p) => Some((p.0@, p.1@)),
        None => None,
    }
}

/// A request to the snapshot index service.
pub enum Msg {
    /// Register a new snapshot for a family by its hash and persistent tree
    /// reference.
    Add(String, ContentHash, Vec<u8>),
    /// Extract the latest snapshot data recorded for a family.
    Latest(String),
    /// Commit the backing table and open a fresh transaction.
    Flush,
}

/// The reply matching each request.
pub enum Reply {
    AddOK,
    Latest(Option<(ContentHash, Vec<u8>)>),
    FlushOK,
}

/// The append-only history of snapshot records, backed by one SQLite table
/// that is always inside an open, deferred transaction.  All access to the
/// table goes through this type; inserts become durable only at `flush`.
pub struct SnapshotIndex {
    dbh: sqlite3::Connection,
}

impl SnapshotIndex {
    /// Every row visible to queries on this index, in id (insertion) order:
    /// the committed rows followed by the inserts of the open transaction.
    pub closed spec fn rows(self) -> Seq<SnapRow> {
        store::table_rows(self.dbh)
    }

    /// The rows that are durable: after a crash, a restarted index on the
    /// same database starts from exactly these.
    pub closed spec fn committed(self) -> Seq<SnapRow> {
        store::committed_rows(self.dbh)
    }

    /// The path of the database this index is backed by: every record it
    /// adds goes to the store at this path, and durable records survive
    /// there across a restart.
    pub closed spec fn path(self) -> Seq<char> {
        store::db_path(self.dbh)
    }

    /// The abstract state this index is in.
    pub open spec fn state(self) -> IndexState {
        IndexState { rows: self.rows(), committed: self.committed() }
    }

    /// Well-formedness, established by the constructors and preserved by
    /// every operation: a deferred transaction is open (so an insert is
    /// batched, never autocommitted), and the durable rows are a prefix of
    /// the visible ones — committed history is append-only, never rewritten.
    pub closed spec fn well_formed(self) -> bool {
        &&& store::txn_open(self.dbh)
        &&& self.committed().is_prefix_of(self.rows())
    }

    /// Opens (creating when absent) the backing table at `path` and begins
    /// the first deferred transaction.  The index is bound to the store at
    /// `path`: a fresh index sees exactly the rows that are durable there,
    /// and the in-memory store starts with none.
    pub fn new(path: String) -> (si: SnapshotIndex)
        ensures
            si.well_formed(),
            si.path() == path@,
            si.rows() == si.committed(),
            path@ == ":memory:"@ ==> si.rows() == Seq::<SnapRow>::empty(),
    {
        let mut dbh = store::open_db(path.as_str());
        store::create_table(&mut dbh);
        store::begin_txn(&mut dbh);
        SnapshotIndex { dbh }
    }

    /// An index backed by a fresh in-memory table with the same transactional
    /// behaviour as an on-disk one: its history starts empty.
    pub fn new_for_testing() -> (si: SnapshotIndex)
        ensures
            si.well_formed(),
            si.path() == ":memory:"@,
            si.rows() == Seq::<SnapRow>::empty(),
            si.committed() == Seq::<SnapRow>::empty(),
    {
        SnapshotIndex::new(":memory:".to_owned())
    }

    /// Appends one record for `family` inside the open transaction.  It is
    /// visible to later queries on this index at once, but durable only
    /// after the next `flush`.  Each field must stay under the store's
    /// length limit (`store::MAX_FIELD_BYTES`; for the family, counting at
    /// most four UTF-8 bytes per character): a machine limit, nothing more.
    pub fn add_snapshot(&mut self, family: String, hash: ContentHash, tree_ref: Vec<u8>)
        requires
            old(self).well_formed(),
            4 * family@.len() <= store::MAX_FIELD_BYTES,
            hash@.len() <= store::MAX_FIELD_BYTES,
            tree_ref@.len() <= store::MAX_FIELD_BYTES,
        ensures
            final(self).well_formed(),
            final(self).path() == old(self).path(),
            final(self).rows() == old(self).rows().push((family@, hash@, tree_ref@)),
            final(self).committed() == old(self).committed(),
            final(self).state() == spec_add(old(self).state(), (family@, hash@, tree_ref@)),
    {
        store::insert_row(&mut self.dbh, family.as_str(), &hash.bytes, &tree_ref);
        proof {
            assert(self.committed() =~= self.rows().subrange(0, self.committed().len() as int));
        }
    }

    /// The hash and tree reference of the most recently added record for
    /// `family` (the one with the greatest id), or `None` when the family
    /// has no record.  Read-only, and it answers from the visible rows, so
    /// it sees records that are not yet flushed.
    pub fn latest_snapshot(&self, family: String) -> (r: Option<(ContentHash, Vec<u8>)>)
        ensures
            latest_view(r) == latest_of(self.rows(), family@),
            latest_view(r) == spec_latest(self.state(), family@),
    {
        let mut fetched = store::scan_rows(&self.dbh);
        loop
            invariant
                latest_of(self.rows(), family@) == latest_of(row_views(fetched@), family@),
            decreases fetched@.len(),
        {
            let ghost pre = fetched@;
            match fetched.pop() {
                None => {
                    return None;
                },
                Some(row) => {
                    proof {
                        assert(row_views(pre).last() == (row.0@, row.1@, row.2@));
                        assert(row_views(pre).drop_last() =~= row_views(fetched@));
                    }
                    if row.0 == family {
                        return Some((ContentHash { bytes: row.1 }, row.2));
                    }
                },
            }
        }
    }

    /// Commits the open transaction, making every record added so far
    /// durable, then immediately begins a new one, so the index is always
    /// inside an open transaction.  The visible rows do not change, so no
    /// query result does either, and no durable row is lost: the old durable
    /// rows are a prefix of the new ones.
    pub fn flush(&mut self)
        requires
            old(self).well_formed(),
        ensures
            final(self).well_formed(),
            final(self).path() == old(self).path(),
            final(self).rows() == old(self).rows(),
            final(self).committed() == old(self).rows(),
            old(self).committed().is_prefix_of(final(self).committed()),
            final(self).state() == spec_flush(old(self).state()),
    {
        store::commit_txn(&mut self.dbh);
        store::begin_txn(&mut self.dbh);
        proof {
            assert(self.committed() =~= self.rows().subrange(0, self.committed().len() as int));
        }
    }

    /// Processes one request to completion and produces its reply.  This is
    /// the serialized service boundary: an owner that feeds it one message at
    /// a time, in arrival order, gives the index a total order over all
    /// operations.  The fields of an `Add` must stay under the store's
    /// length limit, as for `add_snapshot`.
    pub fn handle(&mut self, msg: Msg) -> (r: Reply)
        requires
            old(self).well_formed(),
            msg matches Msg::Add(family, hash, tree_ref) ==> (
                4 * family@.len() <= store::MAX_FIELD_BYTES
                && hash@.len() <= store::MAX_FIELD_BYTES
                && tree_ref@.len() <= store::MAX_FIELD_BYTES
            ),
        ensures
            final(self).well_formed(),
            final(self).path() == old(self).path(),
            match msg {
                Msg::Add(family, hash, tree_ref) => (
                    final(self).rows() == old(self).rows().push((family@, hash@, tree_ref@))
                    && final(self).committed() == old(self).committed()
                    && r is AddOK
                ),
                Msg::Latest(family) => (
                    *final(self) == *old(self)
                    && (r matches Reply::Latest(res)
                        && latest_view(res) == latest_of(old(self).rows(), family@))
                ),
                Msg::Flush => (
                    final(self).rows() == old(self).rows()
                    && final(self).committed() == old(self).rows()
                    && r is FlushOK
                ),
            },
    {
        match msg {
            Msg::Add(family, hash, tree_ref) => {
                self.add_snapshot(family, hash, tree_ref);
                Reply::AddOK
            },
            Msg::Latest(family) => Reply::Latest(self.latest_snapshot(family)),
            Msg::Flush => {
                self.flush();
                Reply::FlushOK
            },
        }
    }
}

/// The abstract state of a snapshot index: the rows every query sees, and
/// the rows that survive a crash.
pub ghost struct IndexState {
    pub rows: Seq<SnapRow>,
    pub committed: Seq<SnapRow>,
}

/// What `add_snapshot` does to the abstract state (its `ensures`, restated):
/// the row is appended to the visible rows; the durable rows are untouched.
pub open spec fn spec_add(s: IndexState, row: SnapRow) -> IndexState {
    IndexState { rows: s.rows.push(row), committed: s.committed }
}

/// What `flush` does to the abstract state (its `ensures`, restated): the
/// visible rows become the durable ones and stay visible unchanged.
pub open spec fn spec_flush(s: IndexState) -> IndexState {
    IndexState { rows: s.rows, committed: s.rows }
}

/// What `latest_snapshot` answers from the abstract state (its `ensures`,
/// restated): the latest visible record of the family.
pub open spec fn spec_latest(s: IndexState, family: Seq<char>) -> Option<(Seq<u8>, Seq<u8>)> {
    latest_of(s.rows, family)
}

/// Round-trip law: after adding a record for a family and flushing, a
/// latest-snapshot query for that family yields exactly the hash and tree
/// reference just added.
pub proof fn lemma_add_flush_latest(s: IndexState, family: Seq<char>, hash: Seq<u8>, tree_ref: Seq<u8>)
    ensures
        spec_latest(spec_flush(spec_add(s, (family, hash, tree_ref))), family)
            == Some((hash, tree_ref)),
{
    let pushed = s.rows.push((family, hash, tree_ref));
    assert(pushed.last() == (family, hash, tree_ref));
}

/// Ordering law: of two records added for the same family, the later one
/// wins a latest-snapshot query, whatever the hash values are.
pub proof fn lemma_latest_is_most_recent(
    s: IndexState,
    family: Seq<char>,
    hash1: Seq<u8>,
    tree_ref1: Seq<u8>,
    hash2: Seq<u8>,
    tree_ref2: Seq<u8>,
)
    ensures
        spec_latest(spec_add(spec_add(s, (family, hash1, tree_ref1)), (family, hash2, tree_ref2)), family)
            == Some((hash2, tree_ref2)),
{
    let pushed = s.rows.push((family, hash1, tree_ref1)).push((family, hash2, tree_ref2));
    assert(pushed.last() == (family, hash2, tree_ref2));
}

/// Family isolation law: adding a record for one family leaves the
/// latest-snapshot answer of every other family as it was.
pub proof fn lemma_family_isolation(
    s: IndexState,
    family: Seq<char>,
    hash: Seq<u8>,
    tree_ref: Seq<u8>,
    other: Seq<char>,
)
    requires
        other != family,
    ensures
        spec_latest(spec_add(s, (family, hash, tree_ref)), other) == spec_latest(s, other),
{
    let pushed = s.rows.push((family, hash, tree_ref));
    assert(pushed.last().0 != other);
    assert(pushed.drop_last() =~= s.rows);
}

/// Empty-family law: a family none of whose records exist answers `None`.
pub proof fn lemma_latest_absent_family(rows: Seq<SnapRow>, family: Seq<char>)
    requires
        forall|i: int| 0 <= i < rows.len() ==> rows[i].0 != family,
    ensures
        latest_of(rows, family) == None::<(Seq<u8>, Seq<u8>)>,
    decreases rows.len(),
{
    if rows.len() > 0 {
        assert(rows.last().0 != family);
        assert forall|i: int| 0 <= i < rows.drop_last().len() implies rows.drop_last()[i].0
            != family by {
            assert(rows.drop_last()[i] == rows[i]);
        }
        lemma_latest_absent_family(rows.drop_last(), family);
    }
}

/// Flush idempotence law: flushing is idempotent on the abstract state, and
/// it changes no latest-snapshot answer, so repeated flushes with no
/// intervening add leave every query result as it was.
pub proof fn lemma_flush_idempotent(s: IndexState, family: Seq<char>)
    ensures
        spec_flush(spec_flush(s)) == spec_flush(s),
        spec_latest(spec_flush(s), family) == spec_latest(s, family),
{
}

/// Append-only law: of a well-formed index, the durable rows are a prefix of
/// the visible ones — once committed, a row is never updated or removed by
/// any operation of this core, only followed by later ones.
pub proof fn lemma_committed_is_prefix(si: SnapshotIndex)
    requires
        si.well_formed(),
    ensures
        si.committed().is_prefix_of(si.rows()),
{
}

/// Durability boundary law: a record that was only added is not yet among
/// the durable rows (a crash loses it), while after a flush it is.
pub proof fn lemma_durability_boundary(s: IndexState, row: SnapRow)
    ensures
        spec_add(s, row).committed == s.committed,
        spec_flush(spec_add(s, row)).committed.contains(row),
{
    let pushed = s.rows.push(row);
    assert(pushed[s.rows.len() as int] == row);
}

} // verus!
