use rusqlite::Connection;
use stickyflow::error::StoreError;
use stickyflow::schema::schema_migration;

const ALL_COLUMNS: [&str; 17] = [
    "id", "title_cipher", "content_cipher", "color", "note_type", "pinned", "sticky_open",
    "sticky_compact", "compact_x", "compact_y", "expanded_x", "expanded_y", "expanded_width",
    "expanded_height", "opacity", "created_at", "updated_at",
];

fn columns(connection: &Connection) -> Vec<String> {
    let mut statement = connection.prepare("PRAGMA table_info(notes)").unwrap();
    let names = statement.query_map([], |row| row.get::<_, String>(1)).unwrap();
    let mut names: Vec<String> = names.map(|name| name.unwrap()).collect();
    names.sort();
    names
}

fn expected_columns() -> Vec<String> {
    let mut names: Vec<String> = ALL_COLUMNS.iter().map(|name| name.to_string()).collect();
    names.sort();
    names
}

fn user_version(connection: &Connection) -> i64 {
    connection.query_row("PRAGMA user_version", [], |row| row.get(0)).unwrap()
}

/// A database as an older release left it.
fn database_at(version: i64, existing: &[&str]) -> Connection {
    let connection = Connection::open_in_memory().unwrap();
    let definitions: Vec<String> = existing
        .iter()
        .map(|name| match *name {
            "id" => "id TEXT PRIMARY KEY".to_string(),
            other => format!("{other} INTEGER"),
        })
        .collect();
    connection
        .execute_batch(&format!(
            "CREATE TABLE notes ({}); PRAGMA user_version = {version};",
            definitions.join(", ")
        ))
        .unwrap();
    connection
}

#[test]
fn current_schema_needs_no_migration() {
    assert_eq!(schema_migration(5), Ok(None));
}

#[test]
fn unknown_schema_versions_are_refused() {
    assert_eq!(schema_migration(6), Err(StoreError::UnsupportedSchemaVersion(6)));
    assert_eq!(schema_migration(-1), Err(StoreError::UnsupportedSchemaVersion(-1)));
}

#[test]
fn version_four_only_adds_opacity() {
    assert_eq!(
        schema_migration(4).unwrap().unwrap(),
        "BEGIN IMMEDIATE;\nALTER TABLE notes ADD COLUMN opacity INTEGER NOT NULL DEFAULT 100;\nPRAGMA user_version = 5;\nCOMMIT;\n"
    );
}

#[test]
fn a_fresh_database_gets_the_current_schema() {
    let connection = Connection::open_in_memory().unwrap();
    connection.execute_batch(&schema_migration(0).unwrap().unwrap()).unwrap();
    assert_eq!(columns(&connection), expected_columns());
    assert_eq!(user_version(&connection), 5);
}

#[test]
fn every_older_database_reaches_the_current_schema() {
    let base = ["id", "title_cipher", "content_cipher", "color", "note_type", "pinned", "created_at", "updated_at"];
    let mut v2: Vec<&str> = base.to_vec();
    v2.push("sticky_open");
    let mut v3 = v2.clone();
    v3.extend(["sticky_compact", "expanded_width", "expanded_height"]);
    let mut v4 = v3.clone();
    v4.extend(["compact_x", "compact_y", "expanded_x", "expanded_y"]);
    for (version, existing) in [(1, base.to_vec()), (2, v2), (3, v3), (4, v4)] {
        let connection = database_at(version, &existing);
        let script = schema_migration(version).unwrap().unwrap();
        connection.execute_batch(&script).unwrap();
        assert_eq!(columns(&connection), expected_columns(), "upgrade from {version}");
        assert_eq!(user_version(&connection), 5);
    }
}

#[test]
fn defaults_of_added_columns_apply_to_existing_notes() {
    let connection = database_at(4, &["id", "opacity_placeholder"]);
    connection.execute("INSERT INTO notes (id) VALUES ('n')", []).unwrap();
    connection.execute_batch(&schema_migration(4).unwrap().unwrap()).unwrap();
    let opacity: i64 = connection.query_row("SELECT opacity FROM notes WHERE id = 'n'", [], |row| row.get(0)).unwrap();
    assert_eq!(opacity, 100);
}
