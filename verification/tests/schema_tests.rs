use readwrite_flow::schema::{migrations, MigrationKind};

#[test]
fn migrations_are_nine_in_rising_versions() {
    let steps = migrations();
    assert_eq!(steps.len(), 9);
    for (i, step) in steps.iter().enumerate() {
        assert_eq!(step.version, i as i64 + 1);
        assert_eq!(step.kind, MigrationKind::Up);
    }
}

#[test]
fn migrations_first_and_last_descriptions() {
    let steps = migrations();
    assert_eq!(steps[0].description, "create settings table");
    assert_eq!(
        steps[0].sql,
        "CREATE TABLE IF NOT EXISTS settings (key TEXT PRIMARY KEY, value TEXT NOT NULL)"
    );
    assert_eq!(steps[2].description, "create books table");
    assert!(steps[2].sql.contains("CREATE UNIQUE INDEX IF NOT EXISTS idx_books_hash ON books(file_hash);"));
    assert_eq!(steps[8].description, "add books.deleted_at");
}

#[test]
fn migrations_are_described_and_distinct() {
    let steps = migrations();
    for (i, step) in steps.iter().enumerate() {
        assert!(!step.description.is_empty());
        assert!(!step.sql.is_empty());
        for other in &steps[i + 1..] {
            assert_ne!(step.description, other.description);
        }
    }
}

#[test]
fn migrations_descriptions_in_order() {
    let descriptions: Vec<&str> = migrations().iter().map(|m| m.description).collect();
    assert_eq!(
        descriptions,
        vec![
            "create settings table",
            "create library table",
            "create books table",
            "create highlights table",
            "create chats table",
            "create drafts table",
            "create book_text_index table",
            "add books.last_opened_at",
            "add books.deleted_at",
        ]
    );
}
