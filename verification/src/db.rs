//! The trusted boundary to the embedded database engine. The post table held
//! by a connection is modelled as a sequence of rows in insertion order;
//! each operation wrapper states what the engine's documented behaviour
//! guarantees about that sequence, and nothing more.

use vstd::prelude::*;
use crate::post::{Post, RowModel, rows_ascending, rows_text_clean};

verus! {

#[verifier::external_type_specification]
#[verifier::external_body]
pub struct ExConnection(sqlite::Connection);

#[verifier::external_type_specification]
#[verifier::external_body]
pub struct ExSqliteError(sqlite::Error);

/// The rows of the post table held by a connection, in insertion order.
pub uninterp spec fn db_rows(conn: sqlite::Connection) -> Seq<RowModel>;

/// Relies on `sqlite::open` and `sqlite::Connection::execute`: opens a fresh
/// in-memory database, creates the post table — `id` an AUTOINCREMENT
/// primary key, `user` and `content` required text, `createdAt` defaulted to
/// the epoch seconds at insertion — and seeds it with one row
/// (`user = 'Bob'`, `content = 'First twit'`). The first AUTOINCREMENT key
/// of a fresh table is 1.
#[verifier::external_body]
pub(crate) fn open_seeded() -> (r: Result<sqlite::Connection, sqlite::Error>)
    ensures
        r matches Ok(conn) ==> {
            &&& db_rows(conn).len() == 1
            &&& db_rows(conn)[0].id == 1
            &&& db_rows(conn)[0].user == "Bob"@
            &&& db_rows(conn)[0].content == "First twit"@
            &&& rows_text_clean(db_rows(conn))
        },
{
    let conn = sqlite::open(":memory:")?;
    conn.execute(
        "CREATE TABLE twits (
            id INTEGER PRIMARY KEY AUTOINCREMENT,
            user TEXT NOT NULL,
            content TEXT NOT NULL,
            createdAt INTEGER DEFAULT (strftime('%s','now'))
        );
        INSERT INTO twits (user, content) VALUES ('Bob', 'First twit');",
    )?;
    Ok(conn)
}

/// Relies on `sqlite::Connection::prepare`, `sqlite::Statement::bind` and
/// `sqlite::Statement::next` on an `INSERT ... RETURNING` statement: a
/// successful insert appends exactly one row holding the given user and
/// content, whose id and creation time are read back from the inserted row.
/// An AUTOINCREMENT primary key is strictly greater than every key ever
/// assigned in the table before, and a failed statement leaves the table
/// unchanged (statement-level atomicity). Text columns are read back
/// NUL-terminated, so only NUL-free text is accepted for storage.
#[verifier::external_body]
pub(crate) fn insert_row(conn: &mut sqlite::Connection, user: &str, content: &str) -> (r: Result<
    (i64, i64),
    sqlite::Error,
>)
    requires
        !user@.contains('\0'),
        !content@.contains('\0'),
    ensures
        r matches Ok(idts) ==> {
            &&& db_rows(*final(conn)) == db_rows(*old(conn)).push(
                (RowModel { id: idts.0, user: user@, content: content@, created_at: idts.1 }),
            )
            &&& forall|i: int|
                0 <= i < db_rows(*old(conn)).len() ==> db_rows(*old(conn))[i].id < idts.0
        },
        r is Err ==> db_rows(*final(conn)) == db_rows(*old(conn)),
{
    let mut stmt = conn.prepare(
        "INSERT INTO twits (user, content) VALUES (?, ?) RETURNING id, createdAt",
    )?;
    stmt.bind((1, user))?;
    stmt.bind((2, content))?;
    match stmt.next()? {
        sqlite::State::Row => {
            let id = stmt.read::<i64, _>("id")?;
            let created_at = stmt.read::<i64, _>("createdAt")?;
            Ok((id, created_at))
        },
        sqlite::State::Done => Err(sqlite::Error { code: None, message: None }),
    }
}

/// Relies on `sqlite::Connection::prepare`, `sqlite::Statement::bind`,
/// `sqlite::Statement::next` and `sqlite::Statement::read` on a
/// `SELECT ... ORDER BY id LIMIT 1 OFFSET ?` statement: a successful call
/// returns the `k`-th row of the post table in ascending id order — so, when
/// the table's ids ascend in insertion order and its text is NUL-free (text
/// columns are read back NUL-terminated), the `k`-th row of the model — or
/// `None` when fewer than `k + 1` rows exist. Reading leaves the table
/// unchanged.
#[verifier::external_body]
pub(crate) fn select_row_at(conn: &mut sqlite::Connection, k: usize) -> (r: Result<
    Option<Post>,
    sqlite::Error,
>)
    ensures
        db_rows(*final(conn)) == db_rows(*old(conn)),
        r matches Ok(opt) ==> ((rows_ascending(db_rows(*old(conn))) && rows_text_clean(
            db_rows(*old(conn)),
        )) ==> match opt {
            Option::Some(p) => k < db_rows(*old(conn)).len() && p.matches_row(
                db_rows(*old(conn))[k as int],
            ),
            Option::None => k >= db_rows(*old(conn)).len(),
        }),
{
    let mut stmt = conn.prepare(
        "SELECT id, user, content, createdAt FROM twits ORDER BY id LIMIT 1 OFFSET ?",
    )?;
    stmt.bind((1, k as i64))?;
    match stmt.next()? {
        sqlite::State::Row => Ok(Some(Post {
            id: Some(stmt.read::<i64, _>("id")?),
            user: stmt.read::<String, _>("user")?,
            content: stmt.read::<String, _>("content")?,
            created_at: Some(stmt.read::<i64, _>("createdAt")?),
        })),
        sqlite::State::Done => Ok(None),
    }
}

} // verus!
