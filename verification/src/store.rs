//! The fact store: one relational table of `(topic, text, id)` rows, held
//! behind a `rusqlite` connection. The abstract contents of the table is the
//! multiset `db_facts` of its rows; every operation is specified against it.

use vstd::prelude::*;
use vstd::multiset::Multiset;

verus! {

/// One stored fact, abstractly: `(topic, text, id)`.
pub type FactRow = (Seq<char>, Seq<char>, u64);

#[verifier::external_type_specification]
#[verifier::external_body]
pub struct ExConnection(rusqlite::Connection);

#[verifier::external_type_specification]
#[verifier::external_body]
pub struct ExSqlError(rusqlite::Error);

/// The multiset of `(topic, text, id)` rows of the `facts` table reachable
/// through this connection (empty when the table does not exist). The stored
/// 64-bit integer identifiers are reinterpreted as unsigned, a bijection.
pub uninterp spec fn db_facts(c: rusqlite::Connection) -> Multiset<FactRow>;

/// The rows of `m` whose topic is exactly `topic`.
pub open spec fn with_topic(m: Multiset<FactRow>, topic: Seq<char>) -> Multiset<FactRow> {
    m.filter(|f: FactRow| f.0 == topic)
}

/// The rows of `m` that do not carry the identifier `id`.
pub open spec fn without_id(m: Multiset<FactRow>, id: u64) -> Multiset<FactRow> {
    m.filter(|f: FactRow| f.2 != id)
}

/// How many rows a topic lookup returns out of `n` matching rows: all of
/// them, but at most seven.
pub open spec fn sample_len(n: nat) -> nat {
    if n >= 7 {
        7
    } else {
        n
    }
}

/// A storage-layer failure, carrying the underlying database error.
#[derive(Debug)]
pub struct StoreError {
    pub cause: rusqlite::Error,
}

/// Relies on rusqlite::Connection::open_in_memory: a fresh in-memory
/// database holds no tables, hence no fact rows.
#[verifier::external_body]
fn open_memory_conn() -> (r: Result<rusqlite::Connection, rusqlite::Error>)
    ensures
        r matches Ok(c) ==> db_facts(c) == Multiset::<FactRow>::empty(),
{
    rusqlite::Connection::open_in_memory()
}

/// Relies on rusqlite::Connection::open: opens or creates the database file;
/// nothing is known of the rows it already holds.
#[verifier::external_body]
fn open_path_conn(path: &str) -> (r: Result<rusqlite::Connection, rusqlite::Error>)
{
    rusqlite::Connection::open(path)
}

/// Relies on rusqlite::Connection::execute with CREATE TABLE IF NOT EXISTS:
/// creating a table, or leaving an existing one in place, adds or removes no
/// row.
#[verifier::external_body]
fn ensure_schema(conn: &mut rusqlite::Connection) -> (r: Result<(), rusqlite::Error>)
    ensures
        db_facts(*final(conn)) == db_facts(*old(conn)),
{
    conn.execute(
        "CREATE TABLE IF NOT EXISTS facts (userid VARCHAR(64), text TEXT, id INT, topic TEXT)",
        [],
    ).map(|_| ())
}

/// Relies on rusqlite::Connection::execute with a parameterized INSERT: on
/// success exactly the one given row is added; a failed statement changes
/// nothing.
#[verifier::external_body]
fn insert_row(conn: &mut rusqlite::Connection, topic: &str, text: &str, id: u64) -> (r: Result<
    (),
    rusqlite::Error,
>)
    ensures
        r is Ok ==> db_facts(*final(conn)) == db_facts(*old(conn)).insert((topic@, text@, id)),
        r is Err ==> db_facts(*final(conn)) == db_facts(*old(conn)),
{
    conn.execute("INSERT INTO facts (topic, text, id) VALUES (?1, ?2, ?3)", (topic, text, id as i64))
        .map(|_| ())
}

/// Relies on rusqlite::Connection::execute with a parameterized DELETE: on
/// success exactly the rows with the given id are removed; a failed
/// statement changes nothing.
#[verifier::external_body]
fn delete_rows_by_id(conn: &mut rusqlite::Connection, id: u64) -> (r: Result<(), rusqlite::Error>)
    ensures
        r is Ok ==> db_facts(*final(conn)) == without_id(db_facts(*old(conn)), id),
        r is Err ==> db_facts(*final(conn)) == db_facts(*old(conn)),
{
    conn.execute("DELETE FROM facts WHERE id = ?1", (id as i64,)).map(|_| ())
}

/// Relies on rusqlite::Connection::query_row with SELECT ... ORDER BY
/// RANDOM() LIMIT 1: it yields some row of the table exactly when the table
/// is non-empty, and QueryReturnedNoRows otherwise.
#[verifier::external_body]
fn query_random_row(conn: &rusqlite::Connection) -> (r: Result<
    Option<(String, String)>,
    rusqlite::Error,
>)
    ensures
        r matches Ok(o) ==> ((o is None) <==> db_facts(*conn).len() == 0),
        r matches Ok(Some(p)) ==> exists|id: u64| db_facts(*conn).contains((p.0@, p.1@, id)),
{
    let res = conn.query_row(
        "SELECT topic, text FROM facts ORDER BY RANDOM() LIMIT 1",
        [],
        |row| Ok((row.get(0)?, row.get(1)?)),
    );
    match res {
        Ok(p) => Ok(Some(p)),
        Err(rusqlite::Error::QueryReturnedNoRows) => Ok(None),
        Err(e) => Err(e),
    }
}

/// Relies on rusqlite::Statement::query_map with SELECT ... WHERE topic=?1
/// ORDER BY RANDOM() LIMIT 7: it yields `(text, id)` of distinct matching
/// rows, in some order, all of them when seven or fewer match and exactly
/// seven otherwise.
#[verifier::external_body]
fn query_topic_rows(conn: &rusqlite::Connection, topic: &str) -> (r: Result<
    Vec<(String, u64)>,
    rusqlite::Error,
>)
    ensures
        r matches Ok(rows) ==> rows@.map_values(|p: (String, u64)| (topic@, p.0@, p.1))
            .to_multiset().subset_of(with_topic(db_facts(*conn), topic@)),
        r matches Ok(rows) ==> rows@.len() == sample_len(with_topic(db_facts(*conn), topic@).len()),
{
    let mut stmt = conn.prepare(
        "SELECT text, id FROM facts WHERE topic = ?1 ORDER BY RANDOM() LIMIT 7",
    )?;
    let rows = stmt.query_map((topic,), |row| Ok((row.get(0)?, row.get::<_, i64>(1)? as u64)))?;
    rows.collect()
}

/// Relies on rusqlite::Connection::cache_flush: it writes buffered pages to
/// durable storage and neither adds nor removes rows.
#[verifier::external_body]
fn flush_conn(conn: &mut rusqlite::Connection) -> (r: Result<(), rusqlite::Error>)
    ensures
        db_facts(*final(conn)) == db_facts(*old(conn)),
{
    conn.cache_flush()
}

/// The fact store: a database connection whose `facts` table holds the
/// stored facts. Its view is the multiset of `(topic, text, id)` rows.
pub struct FactStore {
    conn: rusqlite::Connection,
}

impl View for FactStore {
    type V = Multiset<FactRow>;

    closed spec fn view(&self) -> Multiset<FactRow> {
        db_facts(self.conn)
    }
}

impl FactStore {
    /// Opens a fresh, empty in-memory store.
    pub fn open_in_memory() -> (r: Result<FactStore, StoreError>)
        ensures
            r matches Ok(s) ==> s@ == Multiset::<FactRow>::empty(),
    {
        match open_memory_conn() {
            Ok(mut conn) => match ensure_schema(&mut conn) {
                Ok(_) => Ok(FactStore { conn }),
                Err(e) => Err(StoreError { cause: e }),
            },
            Err(e) => Err(StoreError { cause: e }),
        }
    }

    /// Opens the store kept in the given database file, creating the file
    /// and the table when absent. Rows already in the file are kept.
    pub fn open(path: &str) -> (r: Result<FactStore, StoreError>) {
        match open_path_conn(path) {
            Ok(mut conn) => match ensure_schema(&mut conn) {
                Ok(_) => Ok(FactStore { conn }),
                Err(e) => Err(StoreError { cause: e }),
            },
            Err(e) => Err(StoreError { cause: e }),
        }
    }

    /// Persists one new fact row. On success the store gains exactly the row
    /// `(topic, text, id)`; on failure it is unchanged.
    pub fn insert(&mut self, topic: &str, text: &str, id: u64) -> (r: Result<(), StoreError>)
        ensures
            r is Ok ==> final(self)@ == old(self)@.insert((topic@, text@, id)),
            r is Err ==> final(self)@ == old(self)@,
    {
        match insert_row(&mut self.conn, topic, text, id) {
            Ok(_) => Ok(()),
            Err(e) => Err(StoreError { cause: e }),
        }
    }

    /// Removes every fact whose identifier is `id`, and only those. Succeeds
    /// also when no row matches; on failure the store is unchanged.
    pub fn delete_by_id(&mut self, id: u64) -> (r: Result<(), StoreError>)
        ensures
            r is Ok ==> final(self)@ == without_id(old(self)@, id),
            r is Err ==> final(self)@ == old(self)@,
    {
        match delete_rows_by_id(&mut self.conn, id) {
            Ok(_) => Ok(()),
            Err(e) => Err(StoreError { cause: e }),
        }
    }

    /// Picks one stored fact at random: `None` exactly when the store is
    /// empty, otherwise the `(topic, text)` of some stored fact.
    pub fn random_one(&self) -> (r: Result<Option<(String, String)>, StoreError>)
        ensures
            r matches Ok(o) ==> ((o is None) <==> self@.len() == 0),
            r matches Ok(Some(p)) ==> exists|id: u64| self@.contains((p.0@, p.1@, id)),
    {
        match query_random_row(&self.conn) {
            Ok(o) => Ok(o),
            Err(e) => Err(StoreError { cause: e }),
        }
    }

    /// Returns the `(text, id)` of facts stored under `topic`, in random
    /// order without replacement: all of them when seven or fewer are
    /// stored, exactly seven of them otherwise.
    pub fn topic_facts(&self, topic: &str) -> (r: Result<Vec<(String, u64)>, StoreError>)
        ensures
            r matches Ok(rows) ==> rows@.map_values(|p: (String, u64)| (topic@, p.0@, p.1))
                .to_multiset().subset_of(with_topic(self@, topic@)),
            r matches Ok(rows) ==> rows@.len() == sample_len(with_topic(self@, topic@).len()),
    {
        match query_topic_rows(&self.conn, topic) {
            Ok(rows) => Ok(rows),
            Err(e) => Err(StoreError { cause: e }),
        }
    }

    /// Forces buffered writes out to durable storage; advisory only, the
    /// stored facts are untouched.
    pub fn flush(&mut self) -> (r: Result<(), StoreError>)
        ensures
            final(self)@ == old(self)@,
    {
        match flush_conn(&mut self.conn) {
            Ok(_) => Ok(()),
            Err(e) => Err(StoreError { cause: e }),
        }
    }
}

/// Deleting an identifier removes every fact carrying it from every later
/// topic lookup, and leaves every other fact's multiplicity untouched.
pub proof fn lemma_delete_excludes(m: Multiset<FactRow>, id: u64, topic: Seq<char>)
    ensures
        forall|f: FactRow| f.2 == id ==> with_topic(without_id(m, id), topic).count(f) == 0,
        forall|f: FactRow|
            f.2 != id ==> with_topic(without_id(m, id), topic).count(f) == with_topic(
                m,
                topic,
            ).count(f),
{
}

} // verus!
