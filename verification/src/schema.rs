use vstd::prelude::*;

use crate::error::StoreError;

verus! {

/// The schema version that the program writes and reads.
pub const CURRENT_SCHEMA_VERSION: i64 = 5;

/// The columns of the `notes` table.
#[derive(Debug, Clone, Copy, PartialEq, Eq, Structural)]
pub enum NoteColumn {
    Id,
    TitleCipher,
    ContentCipher,
    Color,
    NoteType,
    Pinned,
    StickyOpen,
    StickyCompact,
    CompactX,
    CompactY,
    ExpandedX,
    ExpandedY,
    ExpandedWidth,
    ExpandedHeight,
    Opacity,
    CreatedAt,
    UpdatedAt,
}

/// The SQL definition of a column, as `CREATE TABLE` and `ALTER TABLE ... ADD
/// COLUMN` write it.
pub open spec fn column_definition_text(column: NoteColumn) -> Seq<char> {
    match column {
        NoteColumn::Id => "id TEXT PRIMARY KEY"@,
        NoteColumn::TitleCipher => "title_cipher BLOB NOT NULL"@,
        NoteColumn::ContentCipher => "content_cipher BLOB NOT NULL"@,
        NoteColumn::Color => "color TEXT NOT NULL"@,
        NoteColumn::NoteType => "note_type TEXT NOT NULL"@,
        NoteColumn::Pinned => "pinned INTEGER NOT NULL DEFAULT 0"@,
        NoteColumn::StickyOpen => "sticky_open INTEGER NOT NULL DEFAULT 0"@,
        NoteColumn::StickyCompact => "sticky_compact INTEGER NOT NULL DEFAULT 0"@,
        NoteColumn::CompactX => "compact_x INTEGER"@,
        NoteColumn::CompactY => "compact_y INTEGER"@,
        NoteColumn::ExpandedX => "expanded_x INTEGER"@,
        NoteColumn::ExpandedY => "expanded_y INTEGER"@,
        NoteColumn::ExpandedWidth => "expanded_width INTEGER NOT NULL DEFAULT 360"@,
        NoteColumn::ExpandedHeight => "expanded_height INTEGER NOT NULL DEFAULT 320"@,
        NoteColumn::Opacity => "opacity INTEGER NOT NULL DEFAULT 100"@,
        NoteColumn::CreatedAt => "created_at INTEGER NOT NULL"@,
        NoteColumn::UpdatedAt => "updated_at INTEGER NOT NULL"@,
    }
}

/// The SQL definition of a column.
pub fn column_definition(column: NoteColumn) -> (text: &'static str)
    ensures
        text@ == column_definition_text(column),
{
    match column {
        NoteColumn::Id => "id TEXT PRIMARY KEY",
        NoteColumn::TitleCipher => "title_cipher BLOB NOT NULL",
        NoteColumn::ContentCipher => "content_cipher BLOB NOT NULL",
        NoteColumn::Color => "color TEXT NOT NULL",
        NoteColumn::NoteType => "note_type TEXT NOT NULL",
        NoteColumn::Pinned => "pinned INTEGER NOT NULL DEFAULT 0",
        NoteColumn::StickyOpen => "sticky_open INTEGER NOT NULL DEFAULT 0",
        NoteColumn::StickyCompact => "sticky_compact INTEGER NOT NULL DEFAULT 0",
        NoteColumn::CompactX => "compact_x INTEGER",
        NoteColumn::CompactY => "compact_y INTEGER",
        NoteColumn::ExpandedX => "expanded_x INTEGER",
        NoteColumn::ExpandedY => "expanded_y INTEGER",
        NoteColumn::ExpandedWidth => "expanded_width INTEGER NOT NULL DEFAULT 360",
        NoteColumn::ExpandedHeight => "expanded_height INTEGER NOT NULL DEFAULT 320",
        NoteColumn::Opacity => "opacity INTEGER NOT NULL DEFAULT 100",
        NoteColumn::CreatedAt => "created_at INTEGER NOT NULL",
        NoteColumn::UpdatedAt => "updated_at INTEGER NOT NULL",
    }
}

/// Whether `text` ends with `suffix`.
pub open spec fn ends_with(text: Seq<char>, suffix: Seq<char>) -> bool {
    suffix.len() <= text.len() && text.subrange(text.len() - suffix.len(), text.len() as int)
        == suffix
}

/// What a row written without some columns holds there. A new note is
/// unpinned, has no sticky window open and is not shown as a chip: those
/// flags are `NOT NULL` with default 0. Its expanded window is remembered as
/// 360 by 320 pixels at full opacity. Its window positions are unset: those
/// columns are nullable, with no default.
pub proof fn lemma_omitted_columns_read_as_defaults()
    ensures
        ends_with(column_definition_text(NoteColumn::Pinned), " INTEGER NOT NULL DEFAULT 0"@),
        ends_with(column_definition_text(NoteColumn::StickyOpen), " INTEGER NOT NULL DEFAULT 0"@),
        ends_with(column_definition_text(NoteColumn::StickyCompact), " INTEGER NOT NULL DEFAULT 0"@),
        ends_with(column_definition_text(NoteColumn::ExpandedWidth), " INTEGER NOT NULL DEFAULT 360"@),
        ends_with(column_definition_text(NoteColumn::ExpandedHeight), " INTEGER NOT NULL DEFAULT 320"@),
        ends_with(column_definition_text(NoteColumn::Opacity), " INTEGER NOT NULL DEFAULT 100"@),
        ends_with(column_definition_text(NoteColumn::CompactX), "_x INTEGER"@),
        ends_with(column_definition_text(NoteColumn::CompactY), "_y INTEGER"@),
        ends_with(column_definition_text(NoteColumn::ExpandedX), "_x INTEGER"@),
        ends_with(column_definition_text(NoteColumn::ExpandedY), "_y INTEGER"@),
{
    reveal_strlit(" INTEGER NOT NULL DEFAULT 0");
    reveal_strlit(" INTEGER NOT NULL DEFAULT 360");
    reveal_strlit(" INTEGER NOT NULL DEFAULT 320");
    reveal_strlit(" INTEGER NOT NULL DEFAULT 100");
    reveal_strlit("_x INTEGER");
    reveal_strlit("_y INTEGER");
    reveal_strlit("pinned INTEGER NOT NULL DEFAULT 0");
    reveal_strlit("sticky_open INTEGER NOT NULL DEFAULT 0");
    reveal_strlit("sticky_compact INTEGER NOT NULL DEFAULT 0");
    reveal_strlit("expanded_width INTEGER NOT NULL DEFAULT 360");
    reveal_strlit("expanded_height INTEGER NOT NULL DEFAULT 320");
    reveal_strlit("opacity INTEGER NOT NULL DEFAULT 100");
    reveal_strlit("compact_x INTEGER");
    reveal_strlit("compact_y INTEGER");
    reveal_strlit("expanded_x INTEGER");
    reveal_strlit("expanded_y INTEGER");
    let p = column_definition_text(NoteColumn::Pinned);
    assert(p.subrange(p.len() - 27, p.len() as int) =~= " INTEGER NOT NULL DEFAULT 0"@);
    let so = column_definition_text(NoteColumn::StickyOpen);
    assert(so.subrange(so.len() - 27, so.len() as int) =~= " INTEGER NOT NULL DEFAULT 0"@);
    let sc = column_definition_text(NoteColumn::StickyCompact);
    assert(sc.subrange(sc.len() - 27, sc.len() as int) =~= " INTEGER NOT NULL DEFAULT 0"@);
    let w = column_definition_text(NoteColumn::ExpandedWidth);
    assert(w.subrange(w.len() - 29, w.len() as int) =~= " INTEGER NOT NULL DEFAULT 360"@);
    let h = column_definition_text(NoteColumn::ExpandedHeight);
    assert(h.subrange(h.len() - 29, h.len() as int) =~= " INTEGER NOT NULL DEFAULT 320"@);
    let o = column_definition_text(NoteColumn::Opacity);
    assert(o.subrange(o.len() - 29, o.len() as int) =~= " INTEGER NOT NULL DEFAULT 100"@);
    let cx = column_definition_text(NoteColumn::CompactX);
    assert(cx.subrange(cx.len() - 10, cx.len() as int) =~= "_x INTEGER"@);
    let cy = column_definition_text(NoteColumn::CompactY);
    assert(cy.subrange(cy.len() - 10, cy.len() as int) =~= "_y INTEGER"@);
    let ex = column_definition_text(NoteColumn::ExpandedX);
    assert(ex.subrange(ex.len() - 10, ex.len() as int) =~= "_x INTEGER"@);
    let ey = column_definition_text(NoteColumn::ExpandedY);
    assert(ey.subrange(ey.len() - 10, ey.len() as int) =~= "_y INTEGER"@);
}

/// The columns of the current schema, in table order.
pub open spec fn current_columns() -> Seq<NoteColumn> {
    seq![
        NoteColumn::Id,
        NoteColumn::TitleCipher,
        NoteColumn::ContentCipher,
        NoteColumn::Color,
        NoteColumn::NoteType,
        NoteColumn::Pinned,
        NoteColumn::StickyOpen,
        NoteColumn::StickyCompact,
        NoteColumn::CompactX,
        NoteColumn::CompactY,
        NoteColumn::ExpandedX,
        NoteColumn::ExpandedY,
        NoteColumn::ExpandedWidth,
        NoteColumn::ExpandedHeight,
        NoteColumn::Opacity,
        NoteColumn::CreatedAt,
        NoteColumn::UpdatedAt,
    ]
}

/// The columns that schema version `version` introduced over the one before
/// it; version 1 created the table with its first columns.
pub open spec fn introduced_columns(version: int) -> Set<NoteColumn> {
    if version == 1 {
        set![
            NoteColumn::Id,
            NoteColumn::TitleCipher,
            NoteColumn::ContentCipher,
            NoteColumn::Color,
            NoteColumn::NoteType,
            NoteColumn::Pinned,
            NoteColumn::CreatedAt,
            NoteColumn::UpdatedAt,
        ]
    } else if version == 2 {
        set![NoteColumn::StickyOpen]
    } else if version == 3 {
        set![NoteColumn::StickyCompact, NoteColumn::ExpandedWidth, NoteColumn::ExpandedHeight]
    } else if version == 4 {
        set![NoteColumn::CompactX, NoteColumn::CompactY, NoteColumn::ExpandedX, NoteColumn::ExpandedY]
    } else if version == 5 {
        set![NoteColumn::Opacity]
    } else {
        Set::empty()
    }
}

/// The columns a database at `version` has: those introduced by every
/// version up to it (none at version 0, before the table exists).
pub open spec fn columns_at_version(version: int) -> Set<NoteColumn>
    decreases version,
{
    if version <= 0 {
        Set::empty()
    } else {
        columns_at_version(version - 1).union(introduced_columns(version))
    }
}

/// The columns that the upgrade from `version` adds with `ALTER TABLE`, in
/// the order the upgrade adds them.
pub open spec fn upgrade_columns(version: int) -> Seq<NoteColumn> {
    if version == 1 {
        seq![
            NoteColumn::StickyOpen,
            NoteColumn::StickyCompact,
            NoteColumn::CompactX,
            NoteColumn::CompactY,
            NoteColumn::ExpandedX,
            NoteColumn::ExpandedY,
            NoteColumn::ExpandedWidth,
            NoteColumn::ExpandedHeight,
            NoteColumn::Opacity,
        ]
    } else if version == 2 {
        seq![
            NoteColumn::StickyCompact,
            NoteColumn::CompactX,
            NoteColumn::CompactY,
            NoteColumn::ExpandedX,
            NoteColumn::ExpandedY,
            NoteColumn::ExpandedWidth,
            NoteColumn::ExpandedHeight,
            NoteColumn::Opacity,
        ]
    } else if version == 3 {
        seq![
            NoteColumn::CompactX,
            NoteColumn::CompactY,
            NoteColumn::ExpandedX,
            NoteColumn::ExpandedY,
            NoteColumn::Opacity,
        ]
    } else if version == 4 {
        seq![NoteColumn::Opacity]
    } else {
        Seq::empty()
    }
}

/// The columns that the upgrade from `version` adds.
pub fn upgrade_columns_for(version: i64) -> (columns: Vec<NoteColumn>)
    ensures
        columns@ == upgrade_columns(version as int),
{
    if version == 1 {
        vec![
            NoteColumn::StickyOpen,
            NoteColumn::StickyCompact,
            NoteColumn::CompactX,
            NoteColumn::CompactY,
            NoteColumn::ExpandedX,
            NoteColumn::ExpandedY,
            NoteColumn::ExpandedWidth,
            NoteColumn::ExpandedHeight,
            NoteColumn::Opacity,
        ]
    } else if version == 2 {
        vec![
            NoteColumn::StickyCompact,
            NoteColumn::CompactX,
            NoteColumn::CompactY,
            NoteColumn::ExpandedX,
            NoteColumn::ExpandedY,
            NoteColumn::ExpandedWidth,
            NoteColumn::ExpandedHeight,
            NoteColumn::Opacity,
        ]
    } else if version == 3 {
        vec![
            NoteColumn::CompactX,
            NoteColumn::CompactY,
            NoteColumn::ExpandedX,
            NoteColumn::ExpandedY,
            NoteColumn::Opacity,
        ]
    } else if version == 4 {
        vec![NoteColumn::Opacity]
    } else {
        Vec::new()
    }
}

/// `ALTER TABLE` statements adding the given columns, one per line.
pub open spec fn add_column_statements(columns: Seq<NoteColumn>) -> Seq<char>
    decreases columns.len(),
{
    if columns.len() == 0 {
        Seq::empty()
    } else {
        add_column_statements(columns.drop_last()) + "ALTER TABLE notes ADD COLUMN "@
            + column_definition_text(columns.last()) + ";\n"@
    }
}

/// Column definitions separated by commas, one per line.
pub open spec fn column_list(columns: Seq<NoteColumn>) -> Seq<char>
    decreases columns.len(),
{
    if columns.len() == 0 {
        Seq::empty()
    } else if columns.len() == 1 {
        column_definition_text(columns[0])
    } else {
        column_list(columns.drop_last()) + ",\n"@ + column_definition_text(columns.last())
    }
}

/// The SQL batch that brings a database at `version` to the current schema:
/// creating the table at version 0, adding the missing columns in one
/// transaction at versions 1 to 4; nothing at the current version.
pub open spec fn migration_script(version: int) -> Option<Seq<char>> {
    if version == 0 {
        Some(
            "CREATE TABLE IF NOT EXISTS notes (\n"@ + column_list(current_columns()) + "\n);\n"@
                + "PRAGMA user_version = 5;\n"@,
        )
    } else if 1 <= version <= 4 {
        Some(
            "BEGIN IMMEDIATE;\n"@ + add_column_statements(upgrade_columns(version))
                + "PRAGMA user_version = 5;\n"@ + "COMMIT;\n"@,
        )
    } else {
        None
    }
}

/// The SQL batch that upgrades a database whose `user_version` is `version`,
/// `None` when it is already current.
pub fn schema_migration(version: i64) -> (r: Result<Option<String>, StoreError>)
    ensures
        0 <= version <= 4 ==> (r matches Ok(Some(sql)) && migration_script(version as int) == Some(
            sql@,
        )),
        version == CURRENT_SCHEMA_VERSION ==> r matches Ok(None),
        (version < 0 || version > CURRENT_SCHEMA_VERSION) ==> (r matches Err(
            StoreError::UnsupportedSchemaVersion(v),
        ) && v == version),
{
    if version == CURRENT_SCHEMA_VERSION {
        return Ok(None);
    }
    if version < 0 || version > CURRENT_SCHEMA_VERSION {
        return Err(StoreError::UnsupportedSchemaVersion(version));
    }
    let mut sql = String::new();
    if version == 0 {
        let columns = vec![
            NoteColumn::Id,
            NoteColumn::TitleCipher,
            NoteColumn::ContentCipher,
            NoteColumn::Color,
            NoteColumn::NoteType,
            NoteColumn::Pinned,
            NoteColumn::StickyOpen,
            NoteColumn::StickyCompact,
            NoteColumn::CompactX,
            NoteColumn::CompactY,
            NoteColumn::ExpandedX,
            NoteColumn::ExpandedY,
            NoteColumn::ExpandedWidth,
            NoteColumn::ExpandedHeight,
            NoteColumn::Opacity,
            NoteColumn::CreatedAt,
            NoteColumn::UpdatedAt,
        ];
        assert(columns@ =~= current_columns());
        sql.append("CREATE TABLE IF NOT EXISTS notes (\n");
        let ghost prefix = sql@;
        let mut i: usize = 0;
        while i < columns.len()
            invariant
                i <= columns@.len(),
                columns@ == current_columns(),
                sql@ == prefix + column_list(columns@.subrange(0, i as int)),
            decreases columns@.len() - i,
        {
            if i > 0 {
                sql.append(",\n");
            }
            sql.append(column_definition(columns[i]));
            proof {
                let done = columns@.subrange(0, i as int + 1);
                assert(done.drop_last() =~= columns@.subrange(0, i as int));
                if i == 0 {
                    assert(columns@.subrange(0, 0) =~= Seq::<NoteColumn>::empty());
                }
            }
            i = i + 1;
        }
        assert(columns@.subrange(0, columns@.len() as int) =~= columns@);
        sql.append("\n);\n");
        sql.append("PRAGMA user_version = 5;\n");
    } else {
        let columns = upgrade_columns_for(version);
        sql.append("BEGIN IMMEDIATE;\n");
        let ghost prefix = sql@;
        let mut i: usize = 0;
        while i < columns.len()
            invariant
                i <= columns@.len(),
                columns@ == upgrade_columns(version as int),
                sql@ == prefix + add_column_statements(columns@.subrange(0, i as int)),
            decreases columns@.len() - i,
        {
            sql.append("ALTER TABLE notes ADD COLUMN ");
            sql.append(column_definition(columns[i]));
            sql.append(";\n");
            proof {
                let done = columns@.subrange(0, i as int + 1);
                assert(done.drop_last() =~= columns@.subrange(0, i as int));
            }
            i = i + 1;
        }
        assert(columns@.subrange(0, columns@.len() as int) =~= columns@);
        sql.append("PRAGMA user_version = 5;\n");
        sql.append("COMMIT;\n");
    }
    Ok(Some(sql))
}

/// Whether `part` occurs in `text`.
pub open spec fn contains_text(text: Seq<char>, part: Seq<char>) -> bool {
    exists|k: int|
        0 <= k && k + part.len() <= text.len() && #[trigger] text.subrange(k, k + part.len())
            == part
}

/// Text found in a text is found in any longer text that starts with it or
/// ends with it.
proof fn lemma_contains_in_longer(text: Seq<char>, part: Seq<char>, before: Seq<char>, after: Seq<char>)
    requires
        contains_text(text, part),
    ensures
        contains_text(before + text + after, part),
{
    let k = choose|k: int|
        0 <= k && k + part.len() <= text.len() && #[trigger] text.subrange(k, k + part.len())
            == part;
    let whole = before + text + after;
    let j = before.len() + k;
    assert(whole.subrange(j, j + part.len()) =~= text.subrange(k, k + part.len()));
}

proof fn lemma_contains_itself(text: Seq<char>)
    ensures
        contains_text(text, text),
{
    let k: int = 0;
    assert(text.subrange(k, k + text.len()) =~= text);
}

/// Each column of a list has its definition in the list's text.
proof fn lemma_column_list_declares(columns: Seq<NoteColumn>, i: int)
    requires
        0 <= i < columns.len(),
    ensures
        contains_text(column_list(columns), column_definition_text(columns[i])),
    decreases columns.len(),
{
    let def = column_definition_text(columns[i]);
    lemma_contains_itself(def);
    if columns.len() == 1 {
        assert(column_list(columns) == def);
    } else if i == columns.len() - 1 {
        lemma_contains_in_longer(def, def, column_list(columns.drop_last()) + ",\n"@, Seq::empty());
        assert(column_list(columns.drop_last()) + ",\n"@ + def =~= column_list(columns.drop_last()) + ",\n"@ + def + Seq::<char>::empty());
    } else {
        lemma_column_list_declares(columns.drop_last(), i);
        assert(columns.drop_last()[i] == columns[i]);
        let rest = ",\n"@ + column_definition_text(columns.last());
        lemma_contains_in_longer(column_list(columns.drop_last()), def, Seq::empty(), rest);
        assert(Seq::<char>::empty() + column_list(columns.drop_last()) + rest =~= column_list(columns));
    }
}

/// The `ALTER TABLE` statement adding a column.
pub open spec fn add_column_statement(column: NoteColumn) -> Seq<char> {
    "ALTER TABLE notes ADD COLUMN "@ + column_definition_text(column) + ";\n"@
}

/// Each column of a list has its `ALTER TABLE` statement in the statements
/// adding the list.
proof fn lemma_add_column_statements_declare(columns: Seq<NoteColumn>, i: int)
    requires
        0 <= i < columns.len(),
    ensures
        contains_text(add_column_statements(columns), add_column_statement(columns[i])),
    decreases columns.len(),
{
    let statement = add_column_statement(columns[i]);
    let before = add_column_statements(columns.drop_last());
    assert(add_column_statements(columns) =~= before + add_column_statement(columns.last()));
    if i == columns.len() - 1 {
        lemma_contains_itself(statement);
        lemma_contains_in_longer(statement, statement, before, Seq::empty());
        assert(before + statement + Seq::<char>::empty() =~= before + statement);
    } else {
        lemma_add_column_statements_declare(columns.drop_last(), i);
        assert(columns.drop_last()[i] == columns[i]);
        lemma_contains_in_longer(before, statement, Seq::empty(), add_column_statement(columns.last()));
        assert(Seq::<char>::empty() + before + add_column_statement(columns.last()) =~= before
            + add_column_statement(columns.last()));
    }
}

/// The scripts write each column with its definition: creating the table
/// declares every column of the current schema with it, and the upgrade from
/// an older version adds each missing column with an `ALTER TABLE` statement
/// carrying it. So a database created or upgraded by them gives every column
/// the default its definition states.
pub proof fn lemma_migrations_use_column_definitions(version: int, column: NoteColumn)
    requires
        0 <= version <= 4,
    ensures
        version == 0 && current_columns().contains(column) ==> (migration_script(version) matches Some(
            sql,
        ) && contains_text(sql, column_definition_text(column))),
        1 <= version && upgrade_columns(version).contains(column) ==> (migration_script(
            version,
        ) matches Some(sql) && contains_text(sql, add_column_statement(column))),
{
    if version == 0 && current_columns().contains(column) {
        let i = choose|i: int| 0 <= i < current_columns().len() && current_columns()[i] == column;
        lemma_column_list_declares(current_columns(), i);
        lemma_contains_in_longer(
            column_list(current_columns()),
            column_definition_text(column),
            "CREATE TABLE IF NOT EXISTS notes (\n"@,
            "\n);\n"@ + "PRAGMA user_version = 5;\n"@,
        );
        assert("CREATE TABLE IF NOT EXISTS notes (\n"@ + column_list(current_columns()) + ("\n);\n"@
            + "PRAGMA user_version = 5;\n"@) =~= "CREATE TABLE IF NOT EXISTS notes (\n"@ + column_list(
            current_columns(),
        ) + "\n);\n"@ + "PRAGMA user_version = 5;\n"@);
    }
    if 1 <= version && upgrade_columns(version).contains(column) {
        let columns = upgrade_columns(version);
        let i = choose|i: int| 0 <= i < columns.len() && columns[i] == column;
        lemma_add_column_statements_declare(columns, i);
        lemma_contains_in_longer(
            add_column_statements(columns),
            add_column_statement(column),
            "BEGIN IMMEDIATE;\n"@,
            "PRAGMA user_version = 5;\n"@ + "COMMIT;\n"@,
        );
        assert("BEGIN IMMEDIATE;\n"@ + add_column_statements(columns) + ("PRAGMA user_version = 5;\n"@
            + "COMMIT;\n"@) =~= "BEGIN IMMEDIATE;\n"@ + add_column_statements(columns)
            + "PRAGMA user_version = 5;\n"@ + "COMMIT;\n"@);
    }
}

/// Every upgrade adds exactly the columns that the database lacks: none it
/// already has (which `ALTER TABLE` would refuse), none twice, and afterwards
/// the database has the columns of the current schema. Creating the table at
/// version 0 writes each current column once.
pub proof fn lemma_migrations_reach_current_schema(version: int)
    requires
        0 <= version <= 4,
    ensures
        version == 0 ==> current_columns().to_set() == columns_at_version(CURRENT_SCHEMA_VERSION as int),
        version == 0 ==> current_columns().no_duplicates(),
        1 <= version ==> upgrade_columns(version).no_duplicates(),
        1 <= version ==> upgrade_columns(version).to_set().disjoint(columns_at_version(version)),
        1 <= version ==> columns_at_version(version).union(upgrade_columns(version).to_set())
            == columns_at_version(CURRENT_SCHEMA_VERSION as int),
{
    reveal_with_fuel(columns_at_version, 6);
    let all = columns_at_version(5);
    assert(current_columns().to_set() =~= all);
    if version >= 1 {
        let up = upgrade_columns(version);
        assert(up.to_set().disjoint(columns_at_version(version)));
        assert(columns_at_version(version).union(up.to_set()) =~= all);
    }
}

} // verus!
