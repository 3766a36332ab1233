//! The catalog's schema as an ordered list of migrations, for the runner
//! that applies each version once.

use vstd::prelude::*;
use vstd::string::*;

verus! {

/// The direction of a migration.
#[derive(Clone, Copy, Debug, PartialEq, Eq, Structural)]
pub enum MigrationKind {
    Up,
    Down,
}

/// One step of the schema's history.
#[derive(Clone, Copy, Debug, PartialEq, Eq)]
pub struct Migration {
    pub version: i64,
    pub description: &'static str,
    pub sql: &'static str,
    pub kind: MigrationKind,
}

/// A `Migration` as plain values.
pub struct MigrationView {
    pub version: i64,
    pub description: Seq<char>,
    pub sql: Seq<char>,
    pub kind: MigrationKind,
}

impl View for Migration {
    type V = MigrationView;

    open spec fn view(&self) -> MigrationView {
        MigrationView {
            version: self.version,
            description: self.description@,
            sql: self.sql@,
            kind: self.kind,
        }
    }
}

/// The step up to `version`, with its description and its statements.
pub open spec fn step_up(version: i64, description: Seq<char>, sql: Seq<char>) -> MigrationView {
    MigrationView { version, description, sql, kind: MigrationKind::Up }
}

/// The history of the schema: every step with its version, what it is for
/// and the statements that carry it out, oldest first.
pub open spec fn schema_history() -> Seq<MigrationView> {
    seq![
        step_up(
            1,
            "create settings table"@,
            "CREATE TABLE IF NOT EXISTS settings (key TEXT PRIMARY KEY, value TEXT NOT NULL)"@,
        ),
        step_up(
            2,
            "create library table"@,
            "CREATE TABLE IF NOT EXISTS library (id TEXT PRIMARY KEY, name TEXT NOT NULL, size INTEGER NOT NULL, path TEXT NOT NULL, added_at INTEGER NOT NULL)"@,
        ),
        step_up(
            3,
            "create books table"@,
            "
        CREATE TABLE IF NOT EXISTS books (
          id TEXT PRIMARY KEY,
          title TEXT,
          author TEXT,
          cover_path TEXT,
          file_path TEXT NOT NULL,
          format TEXT NOT NULL,
          file_hash TEXT,
          file_size INTEGER NOT NULL,
          mtime INTEGER,
          last_read_position TEXT,
          processed_for_search INTEGER DEFAULT 0,
          added_at INTEGER NOT NULL
        );
        CREATE UNIQUE INDEX IF NOT EXISTS idx_books_hash ON books(file_hash);
      "@,
        ),
        step_up(
            4,
            "create highlights table"@,
            "
        CREATE TABLE IF NOT EXISTS highlights (
          id TEXT PRIMARY KEY,
          book_id TEXT NOT NULL,
          content TEXT NOT NULL,
          context_range TEXT NOT NULL,
          color TEXT NOT NULL,
          note TEXT,
          created_at INTEGER NOT NULL,
          FOREIGN KEY(book_id) REFERENCES books(id) ON DELETE CASCADE
        );
      "@,
        ),
        step_up(
            5,
            "create chats table"@,
            "
        CREATE TABLE IF NOT EXISTS chats (
          id TEXT PRIMARY KEY,
          session_id TEXT NOT NULL,
          role TEXT NOT NULL,
          content TEXT NOT NULL,
          reference_highlight_id TEXT,
          created_at INTEGER NOT NULL
        );
      "@,
        ),
        step_up(
            6,
            "create drafts table"@,
            "
        CREATE TABLE IF NOT EXISTS drafts (
          id TEXT PRIMARY KEY,
          editor_doc TEXT NOT NULL,
          updated_at INTEGER NOT NULL
        );
      "@,
        ),
        step_up(
            7,
            "create book_text_index table"@,
            "
        CREATE VIRTUAL TABLE IF NOT EXISTS book_text_index
        USING fts5(book_id, chunk, chunk_id, page, created_at);
      "@,
        ),
        step_up(
            8,
            "add books.last_opened_at"@,
            "
        ALTER TABLE books ADD COLUMN last_opened_at INTEGER;
        CREATE INDEX IF NOT EXISTS idx_books_last_opened ON books(last_opened_at);
      "@,
        ),
        step_up(
            9,
            "add books.deleted_at"@,
            "
        ALTER TABLE books ADD COLUMN deleted_at INTEGER;
        CREATE INDEX IF NOT EXISTS idx_books_deleted_at ON books(deleted_at);
      "@,
        ),
    ]
}

/// A list of migrations as plain values.
pub open spec fn history_of(steps: Seq<Migration>) -> Seq<MigrationView> {
    Seq::new(steps.len(), |i: int| steps[i]@)
}

/// Whether `steps` is a well-ordered history: all steps go up, and the step
/// at place `i` has version `i + 1`, so that versions start at 1 and rise by
/// one without a gap.
pub open spec fn is_ordered_history(steps: Seq<MigrationView>) -> bool {
    forall|i: int|
        0 <= i < steps.len() ==> (#[trigger] steps[i]).version == i + 1 && steps[i].kind
            == MigrationKind::Up
}

/// Whether every step of `steps` says what it is for and what to run, and no
/// two steps say the same of themselves.
pub open spec fn is_described_history(steps: Seq<MigrationView>) -> bool {
    &&& forall|i: int|
        0 <= i < steps.len() ==> (#[trigger] steps[i]).description.len() > 0 && steps[i].sql.len()
            > 0
    &&& forall|i: int, j: int|
        0 <= i < j < steps.len() ==> (#[trigger] steps[i]).description != (
        #[trigger] steps[j]).description
}

fn step(version: i64, description: &'static str, sql: &'static str) -> (m: Migration)
    ensures
        m@ == step_up(version, description@, sql@),
{
    Migration { version, description, sql, kind: MigrationKind::Up }
}

/// The migrations of the catalog, oldest first.
pub fn migrations() -> (steps: Vec<Migration>)
    ensures
        history_of(steps@) == schema_history(),
        steps@.len() == 9,
        is_ordered_history(history_of(steps@)),
        is_described_history(history_of(steps@)),
{
    let mut steps: Vec<Migration> = Vec::new();
    steps.push(step(
        1,
        "create settings table",
        "CREATE TABLE IF NOT EXISTS settings (key TEXT PRIMARY KEY, value TEXT NOT NULL)",
    ));
    steps.push(step(
        2,
        "create library table",
        "CREATE TABLE IF NOT EXISTS library (id TEXT PRIMARY KEY, name TEXT NOT NULL, size INTEGER NOT NULL, path TEXT NOT NULL, added_at INTEGER NOT NULL)",
    ));
    steps.push(step(
        3,
        "create books table",
        "
        CREATE TABLE IF NOT EXISTS books (
          id TEXT PRIMARY KEY,
          title TEXT,
          author TEXT,
          cover_path TEXT,
          file_path TEXT NOT NULL,
          format TEXT NOT NULL,
          file_hash TEXT,
          file_size INTEGER NOT NULL,
          mtime INTEGER,
          last_read_position TEXT,
          processed_for_search INTEGER DEFAULT 0,
          added_at INTEGER NOT NULL
        );
        CREATE UNIQUE INDEX IF NOT EXISTS idx_books_hash ON books(file_hash);
      ",
    ));
    steps.push(step(
        4,
        "create highlights table",
        "
        CREATE TABLE IF NOT EXISTS highlights (
          id TEXT PRIMARY KEY,
          book_id TEXT NOT NULL,
          content TEXT NOT NULL,
          context_range TEXT NOT NULL,
          color TEXT NOT NULL,
          note TEXT,
          created_at INTEGER NOT NULL,
          FOREIGN KEY(book_id) REFERENCES books(id) ON DELETE CASCADE
        );
      ",
    ));
    steps.push(step(
        5,
        "create chats table",
        "
        CREATE TABLE IF NOT EXISTS chats (
          id TEXT PRIMARY KEY,
          session_id TEXT NOT NULL,
          role TEXT NOT NULL,
          content TEXT NOT NULL,
          reference_highlight_id TEXT,
          created_at INTEGER NOT NULL
        );
      ",
    ));
    steps.push(step(
        6,
        "create drafts table",
        "
        CREATE TABLE IF NOT EXISTS drafts (
          id TEXT PRIMARY KEY,
          editor_doc TEXT NOT NULL,
          updated_at INTEGER NOT NULL
        );
      ",
    ));
    steps.push(step(
        7,
        "create book_text_index table",
        "
        CREATE VIRTUAL TABLE IF NOT EXISTS book_text_index
        USING fts5(book_id, chunk, chunk_id, page, created_at);
      ",
    ));
    steps.push(step(
        8,
        "add books.last_opened_at",
        "
        ALTER TABLE books ADD COLUMN last_opened_at INTEGER;
        CREATE INDEX IF NOT EXISTS idx_books_last_opened ON books(last_opened_at);
      ",
    ));
    steps.push(step(
        9,
        "add books.deleted_at",
        "
        ALTER TABLE books ADD COLUMN deleted_at INTEGER;
        CREATE INDEX IF NOT EXISTS idx_books_deleted_at ON books(deleted_at);
      ",
    ));
    proof {
        assert(history_of(steps@) =~= schema_history());
        lemma_schema_history_is_ordered();
        lemma_schema_history_is_described();
    }
    steps
}

/// The history of the schema is well ordered: nine steps, all up, with the
/// versions 1 to 9 in turn.
pub proof fn lemma_schema_history_is_ordered()
    ensures
        schema_history().len() == 9,
        is_ordered_history(schema_history()),
{
}

/// Every step of the schema's history has a description and statements, and
/// no two steps share a description.
pub proof fn lemma_schema_history_is_described()
    ensures
        is_described_history(schema_history()),
{
    reveal_strlit("create settings table");
    reveal_strlit("create library table");
    reveal_strlit("create books table");
    reveal_strlit("create highlights table");
    reveal_strlit("create chats table");
    reveal_strlit("create drafts table");
    reveal_strlit("create book_text_index table");
    reveal_strlit("add books.last_opened_at");
    reveal_strlit("add books.deleted_at");
    reveal_strlit(
        "CREATE TABLE IF NOT EXISTS settings (key TEXT PRIMARY KEY, value TEXT NOT NULL)",
    );
    reveal_strlit(
        "CREATE TABLE IF NOT EXISTS library (id TEXT PRIMARY KEY, name TEXT NOT NULL, size INTEGER NOT NULL, path TEXT NOT NULL, added_at INTEGER NOT NULL)",
    );
    reveal_strlit(
        "
        CREATE TABLE IF NOT EXISTS books (
          id TEXT PRIMARY KEY,
          title TEXT,
          author TEXT,
          cover_path TEXT,
          file_path TEXT NOT NULL,
          format TEXT NOT NULL,
          file_hash TEXT,
          file_size INTEGER NOT NULL,
          mtime INTEGER,
          last_read_position TEXT,
          processed_for_search INTEGER DEFAULT 0,
          added_at INTEGER NOT NULL
        );
        CREATE UNIQUE INDEX IF NOT EXISTS idx_books_hash ON books(file_hash);
      ",
    );
    reveal_strlit(
        "
        CREATE TABLE IF NOT EXISTS highlights (
          id TEXT PRIMARY KEY,
          book_id TEXT NOT NULL,
          content TEXT NOT NULL,
          context_range TEXT NOT NULL,
          color TEXT NOT NULL,
          note TEXT,
          created_at INTEGER NOT NULL,
          FOREIGN KEY(book_id) REFERENCES books(id) ON DELETE CASCADE
        );
      ",
    );
    reveal_strlit(
        "
        CREATE TABLE IF NOT EXISTS chats (
          id TEXT PRIMARY KEY,
          session_id TEXT NOT NULL,
          role TEXT NOT NULL,
          content TEXT NOT NULL,
          reference_highlight_id TEXT,
          created_at INTEGER NOT NULL
        );
      ",
    );
    reveal_strlit(
        "
        CREATE TABLE IF NOT EXISTS drafts (
          id TEXT PRIMARY KEY,
          editor_doc TEXT NOT NULL,
          updated_at INTEGER NOT NULL
        );
      ",
    );
    reveal_strlit(
        "
        CREATE VIRTUAL TABLE IF NOT EXISTS book_text_index
        USING fts5(book_id, chunk, chunk_id, page, created_at);
      ",
    );
    reveal_strlit(
        "
        ALTER TABLE books ADD COLUMN last_opened_at INTEGER;
        CREATE INDEX IF NOT EXISTS idx_books_last_opened ON books(last_opened_at);
      ",
    );
    reveal_strlit(
        "
        ALTER TABLE books ADD COLUMN deleted_at INTEGER;
        CREATE INDEX IF NOT EXISTS idx_books_deleted_at ON books(deleted_at);
      ",
    );
    let h = schema_history();
    assert forall|i: int, j: int| 0 <= i < j < h.len() implies h[i].description
        != h[j].description by {
        lemma_descriptions_differ(i, j);
    }
}

/// The descriptions of two steps of the history differ: in their length,
/// or else in their eighth character.
proof fn lemma_descriptions_differ(i: int, j: int)
    requires
        0 <= i < j < 9,
    ensures
        schema_history()[i].description != schema_history()[j].description,
{
    reveal_strlit("create settings table");
    reveal_strlit("create library table");
    reveal_strlit("create books table");
    reveal_strlit("create highlights table");
    reveal_strlit("create chats table");
    reveal_strlit("create drafts table");
    reveal_strlit("create book_text_index table");
    reveal_strlit("add books.last_opened_at");
    reveal_strlit("add books.deleted_at");
    let h = schema_history();
    let a = h[i].description;
    let b = h[j].description;
    if a.len() == b.len() {
        assert(a[7] != b[7]);
    }
}

/// In a well-ordered history a later step has a higher version.
pub proof fn lemma_versions_increase(steps: Seq<MigrationView>, i: int, j: int)
    requires
        is_ordered_history(steps),
        0 <= i < j < steps.len(),
    ensures
        steps[i].version < steps[j].version,
{
}

} // verus!
