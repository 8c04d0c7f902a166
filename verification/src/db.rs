//! The persistent inode catalog: a SQLite store holding the inode table,
//! the tag index, the history log and the trash log.
//!
//! The store itself is an outside crate; each operation the catalog needs
//! is wrapped in a trusted function whose contract describes, over the
//! abstract contents of the four tables, what the underlying SQL does.
//! Everything above those wrappers is verified.
//!
//! The four table models are functions of the connection value, so they
//! assume the process touches the store through one connection only: a
//! write committed through another connection to the same file would
//! change what this one reads while its value stands still, falsifying a
//! read contract.  The deployment therefore shares a single handle, under
//! one lock, between the dispatcher and the analyzer.

use vstd::prelude::*;
use rusqlite::OptionalExtension;

verus! {

#[verifier::external_type_specification]
#[verifier::external_body]
pub struct ExConnection(rusqlite::Connection);

#[verifier::external_type_specification]
#[verifier::external_body]
pub struct ExSqlError(rusqlite::Error);

/// The rows of `inodes`: id -> (parent id, name), as read through this
/// connection, assuming it is the process's only connection to the store.
pub uninterp spec fn inode_table(c: rusqlite::Connection) -> Map<u64, (u64, Seq<char>)>;

/// The rows of `file_tags`: the set of (inode id, tag) pairs.
pub uninterp spec fn tag_table(c: rusqlite::Connection) -> Set<(u64, Seq<char>)>;

/// The rows of `file_history` in insertion order: (inode id, timestamp, backup path).
pub uninterp spec fn history_table(c: rusqlite::Connection) -> Seq<(u64, u64, Seq<char>)>;

/// The rows of `trash` in insertion order: (original path, backup path, deleted at).
pub uninterp spec fn trash_table(c: rusqlite::Connection) -> Seq<(Seq<char>, Seq<char>, u64)>;

/// True when no two rows of the inode table carry the same (parent, name) pair.
pub open spec fn unique_pairs(m: Map<u64, (u64, Seq<char>)>) -> bool {
    forall|k1: u64, k2: u64|
        m.contains_key(k1) && m.contains_key(k2) && m[k1] == m[k2] ==> k1 == k2
}

/// `v` lists exactly the distinct tags of the tag index `s`, each once,
/// in some order.
pub open spec fn tags_listing(s: Set<(u64, Seq<char>)>, v: Seq<String>) -> bool {
    &&& forall|j: int| 0 <= j < v.len() ==> exists|i: u64| s.contains((i, (#[trigger] v[j])@))
    &&& forall|p: (u64, Seq<char>)| #[trigger] s.contains(p) ==> exists|j: int|
        0 <= j < v.len() && v[j]@ == p.1
    &&& forall|j1: int, j2: int| 0 <= j1 < j2 < v.len() ==> v[j1]@ != v[j2]@
}

/// `v` lists exactly the (id, name) rows of the inode table `m` whose id
/// carries `tag` in the tag index `s`, one per id, in some order.
pub open spec fn files_listing(
    m: Map<u64, (u64, Seq<char>)>,
    s: Set<(u64, Seq<char>)>,
    tag: Seq<char>,
    v: Seq<(u64, String)>,
) -> bool {
    &&& forall|j: int| 0 <= j < v.len() ==> m.contains_key((#[trigger] v[j]).0)
        && m[v[j].0].1 == v[j].1@ && s.contains((v[j].0, tag))
    &&& forall|k: u64| m.contains_key(k) && s.contains((k, tag)) ==> exists|j: int|
        0 <= j < v.len() && (#[trigger] v[j]).0 == k
    &&& forall|j1: int, j2: int| 0 <= j1 < j2 < v.len() ==> v[j1].0 != v[j2].0
}

/// `v` is the history log `h`, row for row, in order.
pub open spec fn history_listing(h: Seq<(u64, u64, Seq<char>)>, v: Seq<(u64, u64, String)>) -> bool {
    &&& v.len() == h.len()
    &&& forall|j: int| 0 <= j < v.len() ==> (#[trigger] v[j]).0 == h[j].0 && v[j].1 == h[j].1
        && v[j].2@ == h[j].2
}

/// `v` is the trash log `t`, row for row, in order.
pub open spec fn trash_listing(t: Seq<(Seq<char>, Seq<char>, u64)>, v: Seq<(String, String, u64)>) -> bool {
    &&& v.len() == t.len()
    &&& forall|j: int| 0 <= j < v.len() ==> (#[trigger] v[j]).0@ == t[j].0 && v[j].1@ == t[j].1
        && v[j].2 == t[j].2
}

/// Relies on `rusqlite::Connection::open`: opening the path `":memory:"`
/// yields a fresh, empty in-memory database, so all four tables are empty.
#[verifier::external_body]
fn w_open(path: &str) -> (r: Result<rusqlite::Connection, rusqlite::Error>)
    ensures
        path@ == ":memory:"@ ==> (r matches Ok(c) ==> inode_table(c) == Map::<u64, (u64,
            Seq<char>)>::empty() && tag_table(c) == Set::<(u64, Seq<char>)>::empty()
            && history_table(c) == Seq::<(u64, u64, Seq<char>)>::empty() && trash_table(c)
            == Seq::<(Seq<char>, Seq<char>, u64)>::empty()),
{
    rusqlite::Connection::open(path)
}

/// Relies on `rusqlite::Connection::execute_batch`: sets the journal and
/// synchronous pragmas, creates the four tables when absent, and inserts the
/// root row `(1, 1, '')` unless a row with id 1 or name pair (1, "") exists
/// (`INSERT OR IGNORE` skips on any constraint violation).  Pragmas and
/// `CREATE TABLE IF NOT EXISTS` leave the rows of every table unchanged.
#[verifier::external_body]
fn w_init_schema(conn: &mut rusqlite::Connection) -> (r: Result<(), rusqlite::Error>)
    ensures
        tag_table(*final(conn)) == tag_table(*old(conn)),
        history_table(*final(conn)) == history_table(*old(conn)),
        trash_table(*final(conn)) == trash_table(*old(conn)),
        r matches Ok(_) ==> inode_table(*final(conn)) == (if inode_table(*old(conn)).contains_key(1)
            || (exists|k: u64| inode_table(*old(conn)).contains_key(k) && inode_table(*old(conn))[k]
            == (1u64, Seq::<char>::empty())) {
            inode_table(*old(conn))
        } else {
            inode_table(*old(conn)).insert(1, (1u64, Seq::<char>::empty()))
        }),
        r matches Err(_) ==> inode_table(*final(conn)) == inode_table(*old(conn))
            || inode_table(*final(conn)) == inode_table(*old(conn)).insert(1, (1u64,
            Seq::<char>::empty())),
{
    conn.execute_batch(
        "PRAGMA journal_mode = WAL; PRAGMA synchronous = NORMAL; CREATE TABLE IF NOT EXISTS inodes (id INTEGER PRIMARY KEY, parent_id INTEGER, name TEXT NOT NULL, UNIQUE(parent_id, name)); CREATE TABLE IF NOT EXISTS file_tags (inode_id INTEGER, tag TEXT, PRIMARY KEY(inode_id, tag)); CREATE TABLE IF NOT EXISTS file_history (id INTEGER PRIMARY KEY, inode_id INTEGER, timestamp INTEGER, backup_path TEXT); CREATE TABLE IF NOT EXISTS trash (id INTEGER PRIMARY KEY, original_path TEXT, backup_path TEXT, deleted_at INTEGER); INSERT OR IGNORE INTO inodes (id, parent_id, name) VALUES (1, 1, '');",
    )
}

/// Relies on `rusqlite::Connection::query_row` over
/// `SELECT id FROM inodes WHERE parent_id = ?1 AND name = ?2`: a returned id
/// is a row with exactly that pair; no row means no such pair.
#[verifier::external_body]
fn w_get_inode(conn: &rusqlite::Connection, parent: u64, name: &str) -> (r: Result<
    Option<u64>,
    rusqlite::Error,
>)
    ensures
        r matches Ok(o) ==> match o {
            Some(id) => inode_table(*conn).contains_key(id) && inode_table(*conn)[id] == (
                parent,
                name@,
            ),
            None => forall|k: u64|
                inode_table(*conn).contains_key(k) ==> inode_table(*conn)[k] != (parent, name@),
        },
{
    conn.query_row(
        "SELECT id FROM inodes WHERE parent_id = ?1 AND name = ?2",
        (parent as i64, name),
        |row| row.get::<usize, i64>(0),
    ).optional().map(|o| o.map(|v| v as u64))
}

/// Relies on `rusqlite::Connection::execute` over
/// `INSERT INTO inodes (parent_id, name) VALUES (?1, ?2)` and on
/// `Connection::last_insert_rowid`: SQLite assigns an unused rowid, and the
/// UNIQUE(parent_id, name) constraint fails the insert when the pair exists;
/// a failed statement leaves the table unchanged.
#[verifier::external_body]
fn w_create_inode(conn: &mut rusqlite::Connection, parent: u64, name: &str) -> (r: Result<
    u64,
    rusqlite::Error,
>)
    ensures
        tag_table(*final(conn)) == tag_table(*old(conn)),
        history_table(*final(conn)) == history_table(*old(conn)),
        trash_table(*final(conn)) == trash_table(*old(conn)),
        r matches Ok(id) ==> !inode_table(*old(conn)).contains_key(id) && inode_table(*final(conn))
            == inode_table(*old(conn)).insert(id, (parent, name@)) && (forall|k: u64|
            inode_table(*old(conn)).contains_key(k) ==> inode_table(*old(conn))[k] != (
                parent,
                name@,
            )),
        r matches Err(_) ==> inode_table(*final(conn)) == inode_table(*old(conn)),
{
    conn.execute("INSERT INTO inodes (parent_id, name) VALUES (?1, ?2)", (parent as i64, name))?;
    Ok(conn.last_insert_rowid() as u64)
}

/// Relies on `rusqlite::Connection::query_row` over
/// `SELECT parent_id, name FROM inodes WHERE id = ?1`.
#[verifier::external_body]
fn w_get_entry(conn: &rusqlite::Connection, inode: u64) -> (r: Result<
    Option<(u64, String)>,
    rusqlite::Error,
>)
    ensures
        r matches Ok(o) ==> match o {
            Some(e) => inode_table(*conn).contains_key(inode) && inode_table(*conn)[inode] == (
                e.0,
                e.1@,
            ),
            None => !inode_table(*conn).contains_key(inode),
        },
{
    conn.query_row(
        "SELECT parent_id, name FROM inodes WHERE id = ?1",
        (inode as i64,),
        |row| Ok((row.get::<usize, i64>(0)? as u64, row.get(1)?)),
    ).optional()
}

/// Relies on `rusqlite::Connection::execute` over
/// `INSERT OR IGNORE INTO file_tags (inode_id, tag) VALUES (?1, ?2)`:
/// an upsert into a set keyed by the whole pair.
#[verifier::external_body]
fn w_add_tag(conn: &mut rusqlite::Connection, inode: u64, tag: &str) -> (r: Result<
    (),
    rusqlite::Error,
>)
    ensures
        inode_table(*final(conn)) == inode_table(*old(conn)),
        history_table(*final(conn)) == history_table(*old(conn)),
        trash_table(*final(conn)) == trash_table(*old(conn)),
        r matches Ok(_) ==> tag_table(*final(conn)) == tag_table(*old(conn)).insert((inode, tag@)),
        r matches Err(_) ==> tag_table(*final(conn)) == tag_table(*old(conn)),
{
    conn.execute("INSERT OR IGNORE INTO file_tags (inode_id, tag) VALUES (?1, ?2)", (inode as i64, tag))?;
    Ok(())
}

/// Relies on `rusqlite::Statement::query` over
/// `SELECT DISTINCT tag FROM file_tags`: every returned tag is carried by
/// some inode, every tag carried by some inode is returned, and no tag is
/// returned twice.  The order of the rows is not specified.
#[verifier::external_body]
fn w_get_tags(conn: &rusqlite::Connection) -> (r: Result<Vec<String>, rusqlite::Error>)
    ensures
        r matches Ok(v) ==> tags_listing(tag_table(*conn), v@),
{
    let mut stmt = conn.prepare("SELECT DISTINCT tag FROM file_tags")?;
    let mut rows = stmt.query(())?;
    let mut out = Vec::new();
    while let Some(row) = rows.next()? {
        out.push(row.get(0)?);
    }
    Ok(out)
}

/// Relies on `rusqlite::Statement::query` over the join
/// `SELECT i.id, i.name FROM inodes i JOIN file_tags t ON i.id = t.inode_id
/// WHERE t.tag = ?1`: the returned pairs are exactly the inode rows whose id
/// carries the tag, one per id.  The order of the rows is not specified.
#[verifier::external_body]
fn w_files_with_tag(conn: &rusqlite::Connection, tag: &str) -> (r: Result<
    Vec<(u64, String)>,
    rusqlite::Error,
>)
    ensures
        r matches Ok(v) ==> files_listing(inode_table(*conn), tag_table(*conn), tag@, v@),
{
    let mut stmt = conn.prepare(
        "SELECT i.id, i.name FROM inodes i JOIN file_tags t ON i.id = t.inode_id WHERE t.tag = ?1",
    )?;
    let mut rows = stmt.query((tag,))?;
    let mut out = Vec::new();
    while let Some(row) = rows.next()? {
        out.push((row.get::<usize, i64>(0)? as u64, row.get(1)?));
    }
    Ok(out)
}

/// Relies on `rusqlite::Connection::execute` over
/// `INSERT INTO file_history (inode_id, timestamp, backup_path)`: appends one
/// row; a failed statement changes nothing.
#[verifier::external_body]
fn w_add_history(conn: &mut rusqlite::Connection, inode: u64, ts: u64, path: &str) -> (r: Result<
    (),
    rusqlite::Error,
>)
    ensures
        inode_table(*final(conn)) == inode_table(*old(conn)),
        tag_table(*final(conn)) == tag_table(*old(conn)),
        trash_table(*final(conn)) == trash_table(*old(conn)),
        r matches Ok(_) ==> history_table(*final(conn)) == history_table(*old(conn)).push(
            (inode, ts, path@)),
        r matches Err(_) ==> history_table(*final(conn)) == history_table(*old(conn)),
{
    conn.execute(
        "INSERT INTO file_history (inode_id, timestamp, backup_path) VALUES (?1, ?2, ?3)",
        (inode as i64, ts as i64, path),
    )?;
    Ok(())
}

/// Relies on `rusqlite::Statement::query` over `SELECT inode_id, timestamp,
/// backup_path FROM file_history ORDER BY id`: rows come back in insertion
/// order, since ids are assigned in increasing order and never reused here.
#[verifier::external_body]
fn w_get_history(conn: &rusqlite::Connection) -> (r: Result<
    Vec<(u64, u64, String)>,
    rusqlite::Error,
>)
    ensures
        r matches Ok(v) ==> history_listing(history_table(*conn), v@),
{
    let mut stmt = conn.prepare(
        "SELECT inode_id, timestamp, backup_path FROM file_history ORDER BY id",
    )?;
    let mut rows = stmt.query(())?;
    let mut out = Vec::new();
    while let Some(row) = rows.next()? {
        out.push((row.get::<usize, i64>(0)? as u64, row.get::<usize, i64>(1)? as u64, row.get(2)?));
    }
    Ok(out)
}

/// Relies on `rusqlite::Connection::execute` over
/// `INSERT INTO trash (original_path, backup_path, deleted_at)`.
#[verifier::external_body]
fn w_add_trash(conn: &mut rusqlite::Connection, original: &str, backup: &str, ts: u64) -> (r:
    Result<(), rusqlite::Error>)
    ensures
        inode_table(*final(conn)) == inode_table(*old(conn)),
        tag_table(*final(conn)) == tag_table(*old(conn)),
        history_table(*final(conn)) == history_table(*old(conn)),
        r matches Ok(_) ==> trash_table(*final(conn)) == trash_table(*old(conn)).push(
            (original@, backup@, ts)),
        r matches Err(_) ==> trash_table(*final(conn)) == trash_table(*old(conn)),
{
    conn.execute(
        "INSERT INTO trash (original_path, backup_path, deleted_at) VALUES (?1, ?2, ?3)",
        (original, backup, ts as i64),
    )?;
    Ok(())
}

/// Relies on `rusqlite::Statement::query` over `SELECT original_path,
/// backup_path, deleted_at FROM trash ORDER BY id`: insertion order, as for
/// the history log.
#[verifier::external_body]
fn w_get_trash(conn: &rusqlite::Connection) -> (r: Result<
    Vec<(String, String, u64)>,
    rusqlite::Error,
>)
    ensures
        r matches Ok(v) ==> trash_listing(trash_table(*conn), v@),
{
    let mut stmt = conn.prepare(
        "SELECT original_path, backup_path, deleted_at FROM trash ORDER BY id",
    )?;
    let mut rows = stmt.query(())?;
    let mut out = Vec::new();
    while let Some(row) = rows.next()? {
        out.push((row.get(0)?, row.get(1)?, row.get::<usize, i64>(2)? as u64));
    }
    Ok(out)
}

/// Relies on `rusqlite::Connection::execute` over
/// `DELETE FROM inodes WHERE id = ?`: removes the row with that id, if any.
#[verifier::external_body]
fn w_delete_inode(conn: &mut rusqlite::Connection, inode: u64) -> (r: Result<(), rusqlite::Error>)
    ensures
        tag_table(*final(conn)) == tag_table(*old(conn)),
        history_table(*final(conn)) == history_table(*old(conn)),
        trash_table(*final(conn)) == trash_table(*old(conn)),
        r matches Ok(_) ==> inode_table(*final(conn)) == inode_table(*old(conn)).remove(inode),
        r matches Err(_) ==> inode_table(*final(conn)) == inode_table(*old(conn)),
{
    conn.execute("DELETE FROM inodes WHERE id = ?1", (inode as i64,))?;
    Ok(())
}

/// Relies on `rusqlite::Connection::execute` over
/// `UPDATE inodes SET parent_id = ?1, name = ?2 WHERE id = ?3`: rewrites the
/// row with that id, if any.  When that row exists, the
/// UNIQUE(parent_id, name) constraint fails the update if another row
/// already carries the new pair, leaving the table unchanged; when it does
/// not exist, nothing is written and nothing is checked.
#[verifier::external_body]
fn w_rename_inode(conn: &mut rusqlite::Connection, inode: u64, new_parent: u64, new_name: &str) -> (
    r: Result<(), rusqlite::Error>)
    ensures
        tag_table(*final(conn)) == tag_table(*old(conn)),
        history_table(*final(conn)) == history_table(*old(conn)),
        trash_table(*final(conn)) == trash_table(*old(conn)),
        r matches Ok(_) ==> inode_table(*final(conn)) == (if inode_table(
            *old(conn)).contains_key(inode) {
            inode_table(*old(conn)).insert(inode, (new_parent, new_name@))
        } else {
            inode_table(*old(conn))
        }) && (inode_table(*old(conn)).contains_key(inode) ==> (forall|k: u64|
            inode_table(*old(conn)).contains_key(k) && k != inode ==> inode_table(*old(conn))[k]
                != (new_parent, new_name@))),
        r matches Err(_) ==> inode_table(*final(conn)) == inode_table(*old(conn)),
{
    conn.execute(
        "UPDATE inodes SET parent_id = ?1, name = ?2 WHERE id = ?3",
        (new_parent as i64, new_name, inode as i64),
    )?;
    Ok(())
}

/// The error the catalog reports when the underlying store fails.
pub struct CatalogError;

/// A handle on the catalog store.
pub struct Database {
    conn: rusqlite::Connection,
}

impl Database {
    /// The inode table: id -> (parent id, name).
    pub closed spec fn inodes(&self) -> Map<u64, (u64, Seq<char>)> {
        inode_table(self.conn)
    }

    /// The tag index: the set of (inode id, tag) pairs.
    pub closed spec fn tags(&self) -> Set<(u64, Seq<char>)> {
        tag_table(self.conn)
    }

    /// The history log in insertion order: (inode id, timestamp, backup path).
    pub closed spec fn history(&self) -> Seq<(u64, u64, Seq<char>)> {
        history_table(self.conn)
    }

    /// The trash log in insertion order: (original path, backup path, deleted at).
    pub closed spec fn trash(&self) -> Seq<(Seq<char>, Seq<char>, u64)> {
        trash_table(self.conn)
    }

    /// Opens (or creates) the store at `path` and prepares the schema.  The
    /// statements create missing tables and upsert the root row only, so an
    /// existing store keeps every row it had; after a successful open the
    /// inode table holds id 1, or a pre-existing row already carried the
    /// root pair (1, "").  The path `":memory:"` opens a fresh private store
    /// whose contents are then exactly the root row.
    pub fn new(path: &str) -> (r: Result<Database, CatalogError>)
        ensures
            r matches Ok(db) ==> db.inodes().contains_key(1) || (exists|k: u64|
                db.inodes().contains_key(k) && db.inodes()[k] == (1u64, Seq::<char>::empty())),
            r matches Ok(db) ==> (path@ == ":memory:"@ ==> db.inodes() == Map::<u64, (u64,
                Seq<char>)>::empty().insert(1, (1u64, Seq::<char>::empty())) && db.tags()
                == Set::<(u64, Seq<char>)>::empty() && db.history() == Seq::<(u64, u64,
                Seq<char>)>::empty() && db.trash() == Seq::<(Seq<char>, Seq<char>,
                u64)>::empty() && unique_pairs(db.inodes())),
    {
        let conn = match w_open(path) {
            Ok(c) => c,
            Err(_) => {
                return Err(CatalogError);
            },
        };
        let mut conn = conn;
        match w_init_schema(&mut conn) {
            Ok(_) => Ok(Database { conn }),
            Err(_) => Err(CatalogError),
        }
    }

    /// Looks the pair (parent, name) up in the inode table.
    pub fn get_inode(&self, parent: u64, name: &str) -> (r: Result<Option<u64>, CatalogError>)
        ensures
            r matches Ok(o) ==> match o {
                Some(id) => self.inodes().contains_key(id) && self.inodes()[id] == (parent, name@),
                None => forall|k: u64|
                    self.inodes().contains_key(k) ==> self.inodes()[k] != (parent, name@),
            },
    {
        match w_get_inode(&self.conn, parent, name) {
            Ok(o) => Ok(o),
            Err(_) => Err(CatalogError),
        }
    }

    /// Inserts a new row (parent, name) and returns its fresh id.  Fails when
    /// the pair is already present.
    pub fn create_inode(&mut self, parent: u64, name: &str) -> (r: Result<u64, CatalogError>)
        ensures
            final(self).tags() == old(self).tags(),
            final(self).history() == old(self).history(),
            final(self).trash() == old(self).trash(),
            r matches Ok(id) ==> !old(self).inodes().contains_key(id) && final(self).inodes()
                == old(self).inodes().insert(id, (parent, name@)) && (forall|k: u64|
                old(self).inodes().contains_key(k) ==> old(self).inodes()[k] != (parent, name@)),
            r matches Err(_) ==> final(self).inodes() == old(self).inodes(),
            unique_pairs(old(self).inodes()) ==> unique_pairs(final(self).inodes()),
    {
        match w_create_inode(&mut self.conn, parent, name) {
            Ok(id) => Ok(id),
            Err(_) => Err(CatalogError),
        }
    }

    /// Reads the (parent, name) entry of an inode id.
    pub fn get_inode_entry(&self, inode: u64) -> (r: Result<Option<(u64, String)>, CatalogError>)
        ensures
            r matches Ok(o) ==> match o {
                Some(e) => self.inodes().contains_key(inode) && self.inodes()[inode] == (e.0, e.1@),
                None => !self.inodes().contains_key(inode),
            },
    {
        match w_get_entry(&self.conn, inode) {
            Ok(o) => Ok(o),
            Err(_) => Err(CatalogError),
        }
    }

    /// Records that `inode` carries `tag`; repeating the call changes nothing.
    pub fn add_tag(&mut self, inode: u64, tag: &str) -> (r: Result<(), CatalogError>)
        ensures
            final(self).inodes() == old(self).inodes(),
            final(self).history() == old(self).history(),
            final(self).trash() == old(self).trash(),
            r matches Ok(_) ==> final(self).tags() == old(self).tags().insert((inode, tag@)),
            r matches Err(_) ==> final(self).tags() == old(self).tags(),
    {
        match w_add_tag(&mut self.conn, inode, tag) {
            Ok(_) => Ok(()),
            Err(_) => Err(CatalogError),
        }
    }

    /// Lists every distinct tag, in no particular order.
    pub fn get_tags(&self) -> (r: Result<Vec<String>, CatalogError>)
        ensures
            r matches Ok(v) ==> tags_listing(self.tags(), v@),
    {
        match w_get_tags(&self.conn) {
            Ok(v) => Ok(v),
            Err(_) => Err(CatalogError),
        }
    }

    /// Lists the (id, name) of every inode carrying `tag`, one per id, in no
    /// particular order.
    pub fn get_files_with_tag(&self, tag: &str) -> (r: Result<Vec<(u64, String)>, CatalogError>)
        ensures
            r matches Ok(v) ==> files_listing(self.inodes(), self.tags(), tag@, v@),
    {
        match w_files_with_tag(&self.conn, tag) {
            Ok(v) => Ok(v),
            Err(_) => Err(CatalogError),
        }
    }

    /// Appends a history row for `inode` at the present time.
    pub fn add_history(&mut self, inode: u64, path: &str) -> (r: Result<(), CatalogError>)
        ensures
            final(self).inodes() == old(self).inodes(),
            final(self).tags() == old(self).tags(),
            final(self).trash() == old(self).trash(),
            r matches Ok(_) ==> exists|ts: u64|
                final(self).history() == old(self).history().push((inode, ts, path@)),
            r matches Err(_) ==> final(self).history() == old(self).history(),
    {
        let ts = crate::clock::unix_now();
        match w_add_history(&mut self.conn, inode, ts, path) {
            Ok(_) => {
                proof {
                    assert(self.history() == old(self).history().push((inode, ts, path@)));
                }
                Ok(())
            },
            Err(_) => Err(CatalogError),
        }
    }

    /// Reads the whole history log in insertion order.
    pub fn get_history(&self) -> (r: Result<Vec<(u64, u64, String)>, CatalogError>)
        ensures
            r matches Ok(v) ==> history_listing(self.history(), v@),
    {
        match w_get_history(&self.conn) {
            Ok(v) => Ok(v),
            Err(_) => Err(CatalogError),
        }
    }

    /// Appends a trash row at the present time.
    pub fn add_trash(&mut self, original_path: &str, backup_path: &str) -> (r: Result<
        (),
        CatalogError,
    >)
        ensures
            final(self).inodes() == old(self).inodes(),
            final(self).tags() == old(self).tags(),
            final(self).history() == old(self).history(),
            r matches Ok(_) ==> exists|ts: u64|
                final(self).trash() == old(self).trash().push((original_path@, backup_path@, ts)),
            r matches Err(_) ==> final(self).trash() == old(self).trash(),
    {
        let ts = crate::clock::unix_now();
        match w_add_trash(&mut self.conn, original_path, backup_path, ts) {
            Ok(_) => {
                proof {
                    assert(self.trash() == old(self).trash().push(
                        (original_path@, backup_path@, ts)));
                }
                Ok(())
            },
            Err(_) => Err(CatalogError),
        }
    }

    /// Reads the whole trash log in insertion order.
    pub fn get_trash(&self) -> (r: Result<Vec<(String, String, u64)>, CatalogError>)
        ensures
            r matches Ok(v) ==> trash_listing(self.trash(), v@),
    {
        match w_get_trash(&self.conn) {
            Ok(v) => Ok(v),
            Err(_) => Err(CatalogError),
        }
    }

    /// Removes the row of `inode`, if any.
    pub fn delete_inode(&mut self, inode: u64) -> (r: Result<(), CatalogError>)
        ensures
            final(self).tags() == old(self).tags(),
            final(self).history() == old(self).history(),
            final(self).trash() == old(self).trash(),
            r matches Ok(_) ==> final(self).inodes() == old(self).inodes().remove(inode),
            r matches Err(_) ==> final(self).inodes() == old(self).inodes(),
            unique_pairs(old(self).inodes()) ==> unique_pairs(final(self).inodes()),
    {
        match w_delete_inode(&mut self.conn, inode) {
            Ok(_) => Ok(()),
            Err(_) => Err(CatalogError),
        }
    }

    /// Rewrites the row of `inode` to (new_parent, new_name).  Fails when
    /// another row already carries that pair.
    pub fn rename_inode(&mut self, inode: u64, new_parent: u64, new_name: &str) -> (r: Result<
        (),
        CatalogError,
    >)
        ensures
            final(self).tags() == old(self).tags(),
            final(self).history() == old(self).history(),
            final(self).trash() == old(self).trash(),
            r matches Ok(_) ==> final(self).inodes() == (if old(self).inodes().contains_key(inode) {
                old(self).inodes().insert(inode, (new_parent, new_name@))
            } else {
                old(self).inodes()
            }) && (old(self).inodes().contains_key(inode) ==> (forall|k: u64|
                old(self).inodes().contains_key(k) && k != inode ==> old(self).inodes()[k] != (
                    new_parent,
                    new_name@,
                ))),
            r matches Err(_) ==> final(self).inodes() == old(self).inodes(),
            unique_pairs(old(self).inodes()) ==> unique_pairs(final(self).inodes()),
    {
        match w_rename_inode(&mut self.conn, inode, new_parent, new_name) {
            Ok(_) => Ok(()),
            Err(_) => Err(CatalogError),
        }
    }
}

/// At most one row of a well-formed inode table carries a given
/// (parent, name) pair: two ids mapped to the same pair are the same id.
pub proof fn lemma_pair_has_one_row(m: Map<u64, (u64, Seq<char>)>, k1: u64, k2: u64)
    requires
        unique_pairs(m),
        m.contains_key(k1),
        m.contains_key(k2),
        m[k1] == m[k2],
    ensures
        k1 == k2,
{
}

/// Recording a tag twice leaves exactly the row that recording it once
/// leaves: the tag index cannot hold duplicates.
pub proof fn lemma_add_tag_idempotent(s: Set<(u64, Seq<char>)>, inode: u64, tag: Seq<char>)
    ensures
        s.insert((inode, tag)).insert((inode, tag)) == s.insert((inode, tag)),
{
    assert(s.insert((inode, tag)).insert((inode, tag)) =~= s.insert((inode, tag)));
}

} // verus!
