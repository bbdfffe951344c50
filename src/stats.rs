//! Usage statistics: a store of download events, normalised into packages, versions
//! and events, and the snapshot computed from it.
use vstd::prelude::*;

use crate::text::decimal_text_of;

verus! {

#[verifier::external_type_specification]
#[verifier::external_body]
pub struct ExConnection(rusqlite::Connection);

#[verifier::external_type_specification]
#[verifier::external_body]
pub struct ExSqlError(rusqlite::Error);

#[verifier::external_type_specification]
#[verifier::external_body]
pub struct ExJsonError(serde_json::Error);

/// The rows of the `crates` table: the id of each package name. The tables are those
/// that `Database::new` lays out, written through one connection only.
pub uninterp spec fn crate_rows(c: rusqlite::Connection) -> Map<Seq<char>, i64>;

/// The rows of the `crate_versions` table: the id of each (package id, version).
pub uninterp spec fn version_rows(c: rusqlite::Connection) -> Map<(i64, Seq<char>), i64>;

/// The rows of the `downloads` table in the order they were added: version id, hit
/// flag and size. The time of each row is left out.
pub uninterp spec fn download_rows(c: rusqlite::Connection) -> Seq<(i64, bool, i64)>;

/// The three tables and their unique indices on package name and on (package id,
/// version) are in place.
pub uninterp spec fn tables_ready(c: rusqlite::Connection) -> bool;

/// The database that the connection was opened on, as its path or URI was written.
pub uninterp spec fn store_location(c: rusqlite::Connection) -> Seq<char>;

/// The store as a whole.
pub struct StoreView {
    pub crates: Map<Seq<char>, i64>,
    pub versions: Map<(i64, Seq<char>), i64>,
    pub downloads: Seq<(i64, bool, i64)>,
}

pub open spec fn store_of(c: rusqlite::Connection) -> StoreView {
    StoreView { crates: crate_rows(c), versions: version_rows(c), downloads: download_rows(c) }
}

pub open spec fn schema_sql() -> Seq<char> {
    "CREATE TABLE IF NOT EXISTS crates (id INTEGER PRIMARY KEY AUTOINCREMENT, name TEXT); CREATE TABLE IF NOT EXISTS crate_versions (id INTEGER PRIMARY KEY AUTOINCREMENT, version TEXT, crate_id INTEGER); CREATE TABLE IF NOT EXISTS downloads (version_id INTEGER, time TIMESTAMP, hit BOOLEAN, size BIGINT); CREATE UNIQUE INDEX IF NOT EXISTS unique_crate_names ON crates (name); CREATE UNIQUE INDEX IF NOT EXISTS unique_crate_versions ON crate_versions (crate_id, version);"@
}

pub open spec fn insert_crate_sql() -> Seq<char> {
    "INSERT OR IGNORE INTO crates (name) VALUES (?1)"@
}

pub open spec fn crate_id_sql() -> Seq<char> {
    "SELECT id FROM crates WHERE name = ?1"@
}

pub open spec fn insert_version_sql() -> Seq<char> {
    "INSERT OR IGNORE INTO crate_versions (crate_id, version) VALUES (?1, ?2)"@
}

pub open spec fn version_id_sql() -> Seq<char> {
    "SELECT id FROM crate_versions WHERE crate_id = ?1 AND version = ?2"@
}

pub open spec fn downloads_sql() -> Seq<char> {
    "SELECT count(*) FROM downloads WHERE time > datetime('now', '-' || ?1)"@
}

pub open spec fn hits_sql() -> Seq<char> {
    "SELECT count(*) FROM downloads WHERE time > datetime('now', '-' || ?1) AND hit = 1"@
}

pub open spec fn saved_sql() -> Seq<char> {
    "SELECT COALESCE(sum(size), 0) FROM downloads WHERE time > datetime('now', '-' || ?1) AND hit = 1"@
}

pub open spec fn insert_download_sql() -> Seq<char> {
    "INSERT INTO downloads (version_id, time, hit, size) VALUES (?1, datetime('now'), ?2, ?3)"@
}

/// Relies on `rusqlite::Connection::open`: opens (or creates) the database that `path`
/// names, URIs included.
#[verifier::external_body]
fn open_connection(path: &str) -> (r: Result<rusqlite::Connection, rusqlite::Error>)
    ensures
        r matches Ok(c) ==> store_location(c) == path@,
{
    rusqlite::Connection::open(path)
}

/// Relies on `rusqlite::Connection::execute_batch` running the schema statements: each
/// creates a table or index only where it is missing, so no row changes, and on
/// success all of them are in place.
#[verifier::external_body]
fn create_tables(c: &mut rusqlite::Connection, sql: &str) -> (r: Result<(), rusqlite::Error>)
    requires
        sql@ == schema_sql(),
    ensures
        store_of(*final(c)) == store_of(*old(c)),
        store_location(*final(c)) == store_location(*old(c)),
        r is Ok ==> tables_ready(*final(c)),
{
    c.execute_batch(sql)
}

/// Relies on `rusqlite::Connection::execute` running `INSERT OR IGNORE` on `crates`:
/// with the unique index on `name`, a missing name gets a row with a fresh id and a
/// present one is left alone. A failed statement changes nothing.
#[verifier::external_body]
fn insert_crate(c: &mut rusqlite::Connection, sql: &str, name: &str) -> (r: Result<
    usize,
    rusqlite::Error,
>)
    requires
        sql@ == insert_crate_sql(),
        tables_ready(*old(c)),
    ensures
        tables_ready(*final(c)),
        store_location(*final(c)) == store_location(*old(c)),
        version_rows(*final(c)) == version_rows(*old(c)),
        download_rows(*final(c)) == download_rows(*old(c)),
        r is Ok ==> crate_rows(*final(c)).dom() == crate_rows(*old(c)).dom().insert(name@),
        r is Ok ==> forall|k: Seq<char>| #[trigger]
            crate_rows(*old(c)).contains_key(k) ==> crate_rows(*final(c))[k] == crate_rows(
                *old(c),
            )[k],
        r is Err ==> crate_rows(*final(c)) == crate_rows(*old(c)),
{
    c.execute(sql, (name,))
}

/// Relies on `rusqlite::Connection::query_row` selecting the id of a package name;
/// it fails when there is no such row.
#[verifier::external_body]
fn crate_id(c: &rusqlite::Connection, sql: &str, name: &str) -> (r: Result<i64, rusqlite::Error>)
    requires
        sql@ == crate_id_sql(),
    ensures
        r matches Ok(id) ==> crate_rows(*c).contains_key(name@) && crate_rows(*c)[name@] == id,
{
    c.query_row(sql, (name,), |row| row.get(0))
}

/// Relies on `rusqlite::Connection::execute` running `INSERT OR IGNORE` on
/// `crate_versions`: with the unique index on (package id, version), a missing pair
/// gets a row with a fresh id and a present one is left alone. A failed statement
/// changes nothing.
#[verifier::external_body]
fn insert_version(c: &mut rusqlite::Connection, sql: &str, crate_id: i64, version: &str) -> (r:
    Result<usize, rusqlite::Error>)
    requires
        sql@ == insert_version_sql(),
        tables_ready(*old(c)),
    ensures
        tables_ready(*final(c)),
        store_location(*final(c)) == store_location(*old(c)),
        crate_rows(*final(c)) == crate_rows(*old(c)),
        download_rows(*final(c)) == download_rows(*old(c)),
        r is Ok ==> version_rows(*final(c)).dom() == version_rows(*old(c)).dom().insert(
            (crate_id, version@),
        ),
        r is Ok ==> forall|k: (i64, Seq<char>)| #[trigger]
            version_rows(*old(c)).contains_key(k) ==> version_rows(*final(c))[k] == version_rows(
                *old(c),
            )[k],
        r is Err ==> version_rows(*final(c)) == version_rows(*old(c)),
{
    c.execute(sql, (crate_id, version))
}

/// Relies on `rusqlite::Connection::query_row` selecting the id of a (package id,
/// version) pair; it fails when there is no such row.
#[verifier::external_body]
fn version_id(c: &rusqlite::Connection, sql: &str, crate_id: i64, version: &str) -> (r: Result<
    i64,
    rusqlite::Error,
>)
    requires
        sql@ == version_id_sql(),
    ensures
        r matches Ok(id) ==> version_rows(*c).contains_key((crate_id, version@)) && version_rows(
            *c,
        )[(crate_id, version@)] == id,
{
    c.query_row(sql, (crate_id, version), |row| row.get(0))
}

/// Relies on `rusqlite::Connection::execute` running a plain `INSERT` on `downloads`:
/// one row is appended, stamped with the current time. A failed statement changes
/// nothing.
#[verifier::external_body]
fn insert_download(
    c: &mut rusqlite::Connection,
    sql: &str,
    version_id: i64,
    hit: bool,
    size: i64,
) -> (r: Result<usize, rusqlite::Error>)
    requires
        sql@ == insert_download_sql(),
        tables_ready(*old(c)),
    ensures
        tables_ready(*final(c)),
        store_location(*final(c)) == store_location(*old(c)),
        crate_rows(*final(c)) == crate_rows(*old(c)),
        version_rows(*final(c)) == version_rows(*old(c)),
        r is Ok ==> download_rows(*final(c)) == download_rows(*old(c)).push(
            (version_id, hit, size),
        ),
        r is Err ==> download_rows(*final(c)) == download_rows(*old(c)),
{
    c.execute(sql, (version_id, hit, size))
}

/// The number of hit rows among the first `n` rows of `d`.
pub open spec fn hit_count(d: Seq<(i64, bool, i64)>, n: int) -> nat
    decreases n,
{
    if n <= 0 {
        0
    } else if d[n - 1].1 {
        hit_count(d, n - 1) + 1
    } else {
        hit_count(d, n - 1)
    }
}

/// The sum of the sizes of the hit rows among the first `n` rows of `d` whose index is
/// in `w`.
pub open spec fn hit_bytes(d: Seq<(i64, bool, i64)>, w: Set<int>, n: int) -> int
    decreases n,
{
    if n <= 0 {
        0
    } else if d[n - 1].1 && w.contains(n - 1) {
        hit_bytes(d, w, n - 1) + d[n - 1].2
    } else {
        hit_bytes(d, w, n - 1)
    }
}

/// The sizes of the hit rows in no window at all add up to nothing.
pub proof fn lemma_hit_bytes_empty(d: Seq<(i64, bool, i64)>, n: int)
    ensures
        hit_bytes(d, Set::empty(), n) == 0,
    decreases n,
{
    if n > 0 {
        lemma_hit_bytes_empty(d, n - 1);
    }
}

/// Relies on `rusqlite::Connection::query_row` reading the one number that an
/// aggregate query over the time window `window` returns: the count of events, the
/// count of hits, or the bytes that hits saved. Which rows fall in the window depends
/// on the clock, so of a count only its bounds are stated, and of the sum only that it
/// adds up the hit rows of some set. SQLite's `sum` fails rather than overflow.
#[verifier::external_body]
fn query_number(c: &rusqlite::Connection, sql: &str, window: &str) -> (r: Result<
    i64,
    rusqlite::Error,
>)
    requires
        sql@ == downloads_sql() || sql@ == hits_sql() || sql@ == saved_sql(),
    ensures
        sql@ == downloads_sql() ==> (r matches Ok(n) ==> 0 <= n <= download_rows(*c).len()),
        sql@ == hits_sql() ==> (r matches Ok(n) ==> 0 <= n <= hit_count(
            download_rows(*c),
            download_rows(*c).len() as int,
        )),
        sql@ == saved_sql() ==> (r matches Ok(n) ==> exists|w: Set<int>|
            n == hit_bytes(download_rows(*c), w, download_rows(*c).len() as int)),
{
    c.query_row(sql, (window,), |row| row.get(0))
}

/// Why the store could not record an event or be opened.
#[derive(PartialEq, Eq, Structural, Clone, Copy, Debug)]
pub enum StoreError {
    Persistence,
}

/// The persistent store of download events.
pub struct Database {
    conn: rusqlite::Connection,
}

impl View for Database {
    type V = StoreView;

    closed spec fn view(&self) -> StoreView {
        store_of(self.conn)
    }
}

/// What recording one event does to the store: the package gets a row unless it had
/// one, its version gets a row under the package's id unless it had one, rows that
/// were there keep their ids, and one event row for that version is appended.
pub open spec fn recorded(
    s0: StoreView,
    s1: StoreView,
    name: Seq<char>,
    version: Seq<char>,
    hit: bool,
    size: i64,
) -> bool {
    let cid = s1.crates[name];
    &&& s1.crates.dom() == s0.crates.dom().insert(name)
    &&& forall|k: Seq<char>| #[trigger] s0.crates.contains_key(k) ==> s1.crates[k] == s0.crates[k]
    &&& s1.versions.dom() == s0.versions.dom().insert((cid, version))
    &&& forall|k: (i64, Seq<char>)| #[trigger]
        s0.versions.contains_key(k) ==> s1.versions[k] == s0.versions[k]
    &&& s1.downloads == s0.downloads.push((s1.versions[(cid, version)], hit, size))
}

/// Recording two events for the same package and version leaves one package row and
/// one version row for them, and two event rows, both for that version.
pub proof fn lemma_same_version_twice(
    s0: StoreView,
    s1: StoreView,
    s2: StoreView,
    name: Seq<char>,
    version: Seq<char>,
    hit1: bool,
    size1: i64,
    hit2: bool,
    size2: i64,
)
    requires
        recorded(s0, s1, name, version, hit1, size1),
        recorded(s1, s2, name, version, hit2, size2),
    ensures
        s2.crates.dom() == s0.crates.dom().insert(name),
        s2.versions.dom() == s0.versions.dom().insert((s2.crates[name], version)),
        s2.downloads.len() == s0.downloads.len() + 2,
        s2.downloads.subrange(0, s0.downloads.len() as int) == s0.downloads,
        s2.downloads[s0.downloads.len() as int].0 == s2.versions[(s2.crates[name], version)],
        s2.downloads[s0.downloads.len() + 1 as int].0 == s2.versions[(s2.crates[name], version)],
{
    assert(s1.crates.contains_key(name));
    let cid = s1.crates[name];
    assert(s2.crates[name] == cid);
    assert(s1.versions.contains_key((cid, version)));
    assert(s2.versions[(cid, version)] == s1.versions[(cid, version)]);
    assert(s1.versions.dom().insert((cid, version)) == s1.versions.dom());
    assert(s2.downloads.subrange(0, s0.downloads.len() as int) =~= s0.downloads);
}

impl Database {
    pub closed spec fn wf(&self) -> bool {
        tables_ready(self.conn)
    }

    /// The database this store was opened on.
    pub closed spec fn location(&self) -> Seq<char> {
        store_location(self.conn)
    }

    /// Opens the store at `connection_string` (a shared in-memory store when there is
    /// none) and lays out its tables where they are missing.
    ///
    /// What the contracts of this type say of the rows holds while this value is the
    /// only one that writes to that database. The shared in-memory store is one database
    /// for the whole process: open one writer on it, and readers as needed.
    pub fn new(connection_string: Option<String>) -> (r: Result<Database, StoreError>)
        ensures
            r matches Ok(db) ==> db.wf() && db.location() == match connection_string {
                Some(s) => s@,
                None => "file::memory:?cache=shared"@,
            },
    {
        let conn = match connection_string {
            Some(s) => open_connection(s.as_str()),
            None => open_connection("file::memory:?cache=shared"),
        };
        match conn {
            Err(_) => Err(StoreError::Persistence),
            Ok(mut conn) => {
                let schema = "CREATE TABLE IF NOT EXISTS crates (id INTEGER PRIMARY KEY AUTOINCREMENT, name TEXT); CREATE TABLE IF NOT EXISTS crate_versions (id INTEGER PRIMARY KEY AUTOINCREMENT, version TEXT, crate_id INTEGER); CREATE TABLE IF NOT EXISTS downloads (version_id INTEGER, time TIMESTAMP, hit BOOLEAN, size BIGINT); CREATE UNIQUE INDEX IF NOT EXISTS unique_crate_names ON crates (name); CREATE UNIQUE INDEX IF NOT EXISTS unique_crate_versions ON crate_versions (crate_id, version);";
                match create_tables(&mut conn, schema) {
                    Ok(()) => Ok(Database { conn }),
                    Err(_) => Err(StoreError::Persistence),
                }
            },
        }
    }

    /// Records one download event: the package and version rows are added where
    /// missing, and one event row, stamped with the current time, is appended. On
    /// failure no event row is added.
    pub fn add_request(&mut self, crate_name: &str, crate_version: &str, hit: bool, size: i64) -> (r:
        Result<(), StoreError>)
        requires
            old(self).wf(),
        ensures
            final(self).wf(),
            final(self).location() == old(self).location(),
            r is Ok ==> recorded(
                old(self)@,
                final(self)@,
                crate_name@,
                crate_version@,
                hit,
                size,
            ),
            r is Err ==> final(self)@.downloads == old(self)@.downloads,
    {
        if insert_crate(&mut self.conn, "INSERT OR IGNORE INTO crates (name) VALUES (?1)", crate_name).is_err() {
            return Err(StoreError::Persistence);
        }
        let cid = match crate_id(&self.conn, "SELECT id FROM crates WHERE name = ?1", crate_name) {
            Ok(id) => id,
            Err(_) => {
                return Err(StoreError::Persistence);
            },
        };
        if insert_version(
            &mut self.conn,
            "INSERT OR IGNORE INTO crate_versions (crate_id, version) VALUES (?1, ?2)",
            cid,
            crate_version,
        ).is_err() {
            return Err(StoreError::Persistence);
        }
        let vid = match version_id(
            &self.conn,
            "SELECT id FROM crate_versions WHERE crate_id = ?1 AND version = ?2",
            cid,
            crate_version,
        ) {
            Ok(id) => id,
            Err(_) => {
                return Err(StoreError::Persistence);
            },
        };
        match insert_download(
            &mut self.conn,
            "INSERT INTO downloads (version_id, time, hit, size) VALUES (?1, datetime('now'), ?2, ?3)",
            vid,
            hit,
            size,
        ) {
            Ok(_) => Ok(()),
            Err(_) => Err(StoreError::Persistence),
        }
    }

    /// The number of events in the window of `time` before now (`"24 hours"`), or 0
    /// when the store cannot say.
    pub fn downloads(&self, time: &str) -> (r: i32)
        ensures
            0 <= r <= self@.downloads.len(),
    {
        count_or_zero(
            &query_number(
                &self.conn,
                "SELECT count(*) FROM downloads WHERE time > datetime('now', '-' || ?1)",
                time,
            ),
        )
    }

    /// The number of hits in the window of `time` before now, or 0 when the store
    /// cannot say.
    pub fn hits(&self, time: &str) -> (r: i32)
        ensures
            0 <= r <= hit_count(self@.downloads, self@.downloads.len() as int),
    {
        count_or_zero(
            &query_number(
                &self.conn,
                "SELECT count(*) FROM downloads WHERE time > datetime('now', '-' || ?1) AND hit = 1",
                time,
            ),
        )
    }

    /// The bytes served from the cache in the window of `time` before now, or 0 when
    /// the store cannot say.
    pub fn bandwidth_saved(&self, time: &str) -> (r: i64)
        ensures
            exists|w: Set<int>|
                r as int == hit_bytes(self@.downloads, w, self@.downloads.len() as int),
    {
        let q = query_number(
            &self.conn,
            "SELECT COALESCE(sum(size), 0) FROM downloads WHERE time > datetime('now', '-' || ?1) AND hit = 1",
            time,
        );
        proof {
            lemma_hit_bytes_empty(self@.downloads, self@.downloads.len() as int);
            if q is Err {
                assert(0 == hit_bytes(self@.downloads, Set::empty(), self@.downloads.len() as int));
            }
        }
        sum_or_zero(&q)
    }

    /// The snapshot of the last 24 hours.
    pub fn stats(&self) -> (r: Statistics)
        ensures
            0 <= r.downloads <= self@.downloads.len(),
            0 <= r.hits <= hit_count(self@.downloads, self@.downloads.len() as int),
            r.misses == r.downloads - r.hits,
            exists|w: Set<int>|
                r.bandwidth_saved as int == hit_bytes(
                    self@.downloads,
                    w,
                    self@.downloads.len() as int,
                ),
    {
        let downloads = self.downloads("24 hours");
        let hits = self.hits("24 hours");
        let bandwidth_saved = self.bandwidth_saved("24 hours");
        Statistics::from_counts(downloads, hits, bandwidth_saved)
    }
}

/// A count read from the store: the number when it fits in 32 bits, else 0.
pub fn count_or_zero(q: &Result<i64, rusqlite::Error>) -> (r: i32)
    ensures
        r == match q {
            Ok(n) => if i32::MIN <= *n <= i32::MAX {
                *n as i32
            } else {
                0i32
            },
            Err(_) => 0i32,
        },
{
    match q {
        Ok(n) => if i32::MIN as i64 <= *n && *n <= i32::MAX as i64 {
            *n as i32
        } else {
            0
        },
        Err(_) => 0,
    }
}

/// A sum read from the store, or 0 when there is none.
pub fn sum_or_zero(q: &Result<i64, rusqlite::Error>) -> (r: i64)
    ensures
        r == match q {
            Ok(n) => *n,
            Err(_) => 0i64,
        },
{
    match q {
        Ok(n) => *n,
        Err(_) => 0,
    }
}

/// The usage over a window of time.
#[derive(Clone, Copy, Debug)]
pub struct Statistics {
    pub downloads: i64,
    pub hits: i64,
    pub misses: i64,
    pub bandwidth_saved: i64,
}

/// `v` in decimal, with a leading `-` when it is negative.
pub open spec fn integer_text_of(v: int) -> Seq<char> {
    if v < 0 {
        "-"@ + decimal_text_of((-v) as nat)
    } else {
        decimal_text_of(v as nat)
    }
}

/// `a` comes before `b` in the order of their characters' code points.
pub open spec fn text_less(a: Seq<char>, b: Seq<char>) -> bool
    decreases a.len(),
{
    if a.len() == 0 {
        b.len() > 0
    } else if b.len() == 0 {
        false
    } else if a[0] != b[0] {
        (a[0] as u32) < (b[0] as u32)
    } else {
        text_less(a.drop_first(), b.drop_first())
    }
}

/// A JSON object key that is written out as it is: lower-case ASCII letters and `_`.
pub open spec fn plain_key(k: Seq<char>) -> bool {
    forall|i: int| 0 <= i < k.len() ==> ('a' <= #[trigger] k[i] <= 'z' || k[i] == '_')
}

/// The members of a JSON object, from member `i` on, each as `"key":value`, separated
/// by commas.
pub open spec fn members_text(fields: Seq<(Seq<char>, i64)>) -> Seq<char>
    decreases fields.len(),
{
    if fields.len() == 0 {
        seq![]
    } else {
        let member = "\""@ + fields[0].0 + "\":"@ + integer_text_of(fields[0].1 as int);
        if fields.len() == 1 {
            member
        } else {
            member + ","@ + members_text(fields.drop_first())
        }
    }
}

/// The compact JSON text of an object with the integer members `fields`.
pub open spec fn json_object_of(fields: Seq<(Seq<char>, i64)>) -> Seq<char> {
    "{"@ + members_text(fields) + "}"@
}

/// Relies on `serde_json::to_string` on a `BTreeMap<String, i64>`: a compact object
/// whose members come in key order, each key quoted (these keys need no escape), each
/// value in decimal. Writing such a map to a string cannot fail.
#[verifier::external_body]
fn json_of_members(fields: &Vec<(String, i64)>) -> (r: Result<String, serde_json::Error>)
    requires
        forall|i: int| 0 <= i < fields@.len() ==> plain_key(#[trigger] fields@[i].0@),
        forall|i: int|
            0 <= i < fields@.len() - 1 ==> text_less(#[trigger] fields@[i].0@, fields@[i + 1].0@),
    ensures
        r is Ok,
        r is Ok ==> r->Ok_0@ == json_object_of(fields@.map_values(|f: (String, i64)| (f.0@, f.1))),
{
    serde_json::to_string(&fields.iter().cloned().collect::<std::collections::BTreeMap<String, i64>>())
}

impl Statistics {
    /// The snapshot of `downloads` events, of which `hits` were hits that saved
    /// `bandwidth_saved` bytes; every other event was a miss.
    pub fn from_counts(downloads: i32, hits: i32, bandwidth_saved: i64) -> (r: Statistics)
        ensures
            r.downloads == downloads,
            r.hits == hits,
            r.misses == downloads - hits,
            r.bandwidth_saved == bandwidth_saved,
    {
        Statistics {
            downloads: downloads as i64,
            hits: hits as i64,
            misses: downloads as i64 - hits as i64,
            bandwidth_saved,
        }
    }

    /// The snapshot as a JSON object with the members `bandwidth_saved`, `downloads`,
    /// `hits` and `misses`, in that order.
    pub fn as_json(&self) -> (r: String)
        ensures
            r@ == json_object_of(
                seq![
                    ("bandwidth_saved"@, self.bandwidth_saved),
                    ("downloads"@, self.downloads),
                    ("hits"@, self.hits),
                    ("misses"@, self.misses),
                ],
            ),
    {
        let mut fields: Vec<(String, i64)> = Vec::new();
        fields.push((String::from_str("bandwidth_saved"), self.bandwidth_saved));
        fields.push((String::from_str("downloads"), self.downloads));
        fields.push((String::from_str("hits"), self.hits));
        fields.push((String::from_str("misses"), self.misses));
        proof {
            reveal_strlit("bandwidth_saved");
            reveal_strlit("downloads");
            reveal_strlit("hits");
            reveal_strlit("misses");
            assert(fields@.map_values(|f: (String, i64)| (f.0@, f.1)) =~= seq![
                ("bandwidth_saved"@, self.bandwidth_saved),
                ("downloads"@, self.downloads),
                ("hits"@, self.hits),
                ("misses"@, self.misses),
            ]);
        }
        match json_of_members(&fields) {
            Ok(s) => s,
            Err(_) => String::new(),
        }
    }
}

} // verus!
