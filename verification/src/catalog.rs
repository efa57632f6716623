//! Shapes of the tables: columns, keys and constraints.
use vstd::prelude::*;

use crate::record_write;
use crate::schema;
use crate::schema::{column_default, unique_constraint, ColumnDefault, ColumnList, ColumnListView};

verus! {

/// Kind of a column.
#[derive(Clone, Copy, Debug, PartialEq, Eq, Structural)]
pub enum ColumnKind {
    /// Byte string.
    Bytes,
    /// Full-range unsigned number.
    Number,
    /// Two-byte integer.
    Int2,
    /// Four-byte integer.
    Int4,
    /// Eight-byte integer.
    Int8,
    /// Text.
    Text,
    /// Truth value.
    Bool,
    /// Instant.
    Instant,
}

/// One column of a table.
#[derive(Clone, Copy, Debug, PartialEq, Eq)]
pub struct ColumnShape {
    /// Name.
    pub name: &'static str,
    /// Kind.
    pub kind: ColumnKind,
    /// The column may be absent.
    pub nullable: bool,
    /// The column alone is the key.
    pub sole_key: bool,
    /// Default.
    pub default_value: Option<ColumnDefault>,
}

/// One table.
pub struct TableShape {
    /// Name.
    pub name: &'static str,
    /// A table of that name may be there already.
    pub if_not_exists: bool,
    /// Columns, in order.
    pub columns: Vec<ColumnShape>,
    /// Key of several columns.
    pub primary_key: Option<ColumnList>,
    /// Unique constraint besides the key.
    pub unique: Option<ColumnList>,
}

/// One table, as contracts speak of it.
#[verifier::ext_equal]
pub struct TableView {
    /// Name.
    pub name: &'static str,
    /// A table of that name may be there already.
    pub if_not_exists: bool,
    /// Columns, in order.
    pub columns: Seq<ColumnShape>,
    /// Key of several columns.
    pub primary_key: Option<ColumnListView>,
    /// Unique constraint besides the key.
    pub unique: Option<ColumnListView>,
}

/// A column list, where there is one, as contracts speak of it.
pub open spec fn optional_list(list: Option<ColumnList>) -> Option<ColumnListView> {
    match list {
        Some(list) => Some(list@),
        None => None,
    }
}

impl View for TableShape {
    type V = TableView;

    open spec fn view(&self) -> TableView {
        TableView {
            name: self.name,
            if_not_exists: self.if_not_exists,
            columns: self.columns@,
            primary_key: optional_list(self.primary_key),
            unique: optional_list(self.unique),
        }
    }
}

/// Tables as contracts speak of them.
pub open spec fn table_views(tables: Seq<TableShape>) -> Seq<TableView> {
    tables.map_values(|table: TableShape| table@)
}

/// The table with some columns, of which the first ones are its key.
pub open spec fn shape_of(
    name: &'static str,
    primary_key_name: &'static str,
    if_not_exists: bool,
    columns: Seq<&'static str>,
    kinds: Seq<ColumnKind>,
    nullable: Seq<bool>,
    keys: nat,
) -> TableView {
    TableView {
        name,
        if_not_exists,
        columns: Seq::new(
            columns.len(),
            |i: int|
                ColumnShape {
                    name: columns[i],
                    kind: kinds[i],
                    nullable: nullable[i],
                    sole_key: keys == 1 && i == 0,
                    default_value: schema::default_of(name@, columns[i]@),
                },
        ),
        primary_key: if keys > 1 {
            Some(
                ColumnListView {
                    name: primary_key_name,
                    table: name,
                    columns: columns.take(keys as int),
                },
            )
        } else {
            None
        },
        unique: schema::unique_of(name@),
    }
}

/// Makes a table of some columns, of which the first ones are its key.
pub fn generated_table(
    name: &'static str,
    primary_key_name: &'static str,
    if_not_exists: bool,
    columns: &[&'static str],
    kinds: &[ColumnKind],
    nullable: &[bool],
    keys: usize,
) -> (result: TableShape)
    requires
        columns@.len() == kinds@.len(),
        columns@.len() == nullable@.len(),
        keys <= columns@.len(),
    ensures
        result@ == shape_of(
            name,
            primary_key_name,
            if_not_exists,
            columns@,
            kinds@,
            nullable@,
            keys as nat,
        ),
{
    let ghost shape = shape_of(
        name,
        primary_key_name,
        if_not_exists,
        columns@,
        kinds@,
        nullable@,
        keys as nat,
    );
    let mut definitions: Vec<ColumnShape> = Vec::new();
    let mut index: usize = 0;
    while index < columns.len()
        invariant
            index <= columns@.len(),
            columns@.len() == kinds@.len(),
            columns@.len() == nullable@.len(),
            shape == shape_of(
                name,
                primary_key_name,
                if_not_exists,
                columns@,
                kinds@,
                nullable@,
                keys as nat,
            ),
            definitions@.len() == index,
            forall|i: int| 0 <= i < index ==> #[trigger] definitions@[i] == shape.columns[i],
        decreases columns@.len() - index,
    {
        definitions.push(
            ColumnShape {
                name: columns[index],
                kind: kinds[index],
                nullable: nullable[index],
                sole_key: keys == 1 && index == 0,
                default_value: column_default(name, columns[index]),
            },
        );
        index = index + 1;
    }
    assert(definitions@ =~= shape.columns);
    let primary_key = if keys > 1 {
        let mut names: Vec<&'static str> = Vec::new();
        let mut position: usize = 0;
        while position < keys
            invariant
                position <= keys,
                keys <= columns@.len(),
                names@ == columns@.take(position as int),
            decreases keys - position,
        {
            names.push(columns[position]);
            position = position + 1;
            assert(names@ =~= columns@.take(position as int));
        }
        Some(ColumnList { name: primary_key_name, table: name, columns: names })
    } else {
        None
    };
    let unique = unique_constraint(name);
    TableShape { name, if_not_exists, columns: definitions, primary_key, unique }
}

/// Columns of `schema_migrations`, keys first.
pub const LEDGER_COLUMNS: [&'static str; 3] = [
    "version",
    "checksum",
    "applied_at",
];

/// Kinds of the columns of `schema_migrations`.
pub const LEDGER_KINDS: [ColumnKind; 3] = [
    ColumnKind::Int4,
    ColumnKind::Bytes,
    ColumnKind::Instant,
];

/// Which columns of `schema_migrations` may be absent.
pub const LEDGER_NULLABLE: [bool; 3] = [
    false,
    false,
    false,
];

/// Columns of `authority_heads`, keys first.
pub const AUTHORITY_HEAD_COLUMNS: [&'static str; 3] = [
    "filesystem_id",
    "current_revision",
    "oldest_retained_revision",
];

/// Kinds of the columns of `authority_heads`.
pub const AUTHORITY_HEAD_KINDS: [ColumnKind; 3] = [
    ColumnKind::Bytes,
    ColumnKind::Number,
    ColumnKind::Number,
];

/// Which columns of `authority_heads` may be absent.
pub const AUTHORITY_HEAD_NULLABLE: [bool; 3] = [
    false,
    false,
    false,
];

/// Kinds of the columns of `filesystem_records`.
pub const FILESYSTEM_KINDS: [ColumnKind; 7] = [
    ColumnKind::Bytes,
    ColumnKind::Number,
    ColumnKind::Number,
    ColumnKind::Bytes,
    ColumnKind::Number,
    ColumnKind::Number,
    ColumnKind::Number,
];

/// Which columns of `filesystem_records` may be absent.
pub const FILESYSTEM_NULLABLE: [bool; 7] = [
    false,
    false,
    false,
    false,
    false,
    false,
    false,
];

/// Kinds of the columns of `inodes`.
pub const INODE_KINDS: [ColumnKind; 32] = [
    ColumnKind::Bytes,
    ColumnKind::Bytes,
    ColumnKind::Number,
    ColumnKind::Number,
    ColumnKind::Int4,
    ColumnKind::Bytes,
    ColumnKind::Bytes,
    ColumnKind::Int8,
    ColumnKind::Int4,
    ColumnKind::Int8,
    ColumnKind::Int4,
    ColumnKind::Int8,
    ColumnKind::Int4,
    ColumnKind::Int8,
    ColumnKind::Int4,
    ColumnKind::Number,
    ColumnKind::Number,
    ColumnKind::Number,
    ColumnKind::Int2,
    ColumnKind::Bytes,
    ColumnKind::Bytes,
    ColumnKind::Number,
    ColumnKind::Number,
    ColumnKind::Number,
    ColumnKind::Text,
    ColumnKind::Bytes,
    ColumnKind::Int2,
    ColumnKind::Number,
    ColumnKind::Bytes,
    ColumnKind::Int8,
    ColumnKind::Int8,
    ColumnKind::Bytes,
];

/// Which columns of `inodes` may be absent.
pub const INODE_NULLABLE: [bool; 32] = [
    false,
    false,
    false,
    false,
    false,
    false,
    false,
    false,
    false,
    false,
    false,
    false,
    false,
    false,
    false,
    false,
    false,
    false,
    false,
    true,
    true,
    true,
    true,
    true,
    true,
    true,
    true,
    true,
    true,
    true,
    true,
    true,
];

/// Kinds of the columns of `directory_entries`.
pub const DIRECTORY_ENTRY_KINDS: [ColumnKind; 6] = [
    ColumnKind::Bytes,
    ColumnKind::Bytes,
    ColumnKind::Bytes,
    ColumnKind::Number,
    ColumnKind::Bytes,
    ColumnKind::Number,
];

/// Which columns of `directory_entries` may be absent.
pub const DIRECTORY_ENTRY_NULLABLE: [bool; 6] = [
    false,
    false,
    false,
    false,
    false,
    false,
];

/// Kinds of the columns of `opens`.
pub const OPEN_KINDS: [ColumnKind; 8] = [
    ColumnKind::Bytes,
    ColumnKind::Bytes,
    ColumnKind::Bytes,
    ColumnKind::Bytes,
    ColumnKind::Int2,
    ColumnKind::Bool,
    ColumnKind::Number,
    ColumnKind::Number,
];

/// Which columns of `opens` may be absent.
pub const OPEN_NULLABLE: [bool; 8] = [
    false,
    false,
    false,
    false,
    false,
    false,
    false,
    false,
];

/// Kinds of the columns of `open_pins`.
pub const OPEN_PIN_KINDS: [ColumnKind; 4] = [
    ColumnKind::Bytes,
    ColumnKind::Bytes,
    ColumnKind::Bytes,
    ColumnKind::Number,
];

/// Which columns of `open_pins` may be absent.
pub const OPEN_PIN_NULLABLE: [bool; 4] = [
    false,
    false,
    false,
    false,
];

/// Kinds of the columns of `orphans`.
pub const ORPHAN_KINDS: [ColumnKind; 5] = [
    ColumnKind::Bytes,
    ColumnKind::Bytes,
    ColumnKind::Number,
    ColumnKind::Number,
    ColumnKind::Number,
];

/// Which columns of `orphans` may be absent.
pub const ORPHAN_NULLABLE: [bool; 5] = [
    false,
    false,
    false,
    false,
    false,
];

/// Kinds of the columns of `locks`.
pub const LOCK_KINDS: [ColumnKind; 10] = [
    ColumnKind::Bytes,
    ColumnKind::Bytes,
    ColumnKind::Bytes,
    ColumnKind::Number,
    ColumnKind::Number,
    ColumnKind::Int2,
    ColumnKind::Bytes,
    ColumnKind::Bytes,
    ColumnKind::Number,
    ColumnKind::Number,
];

/// Which columns of `locks` may be absent.
pub const LOCK_NULLABLE: [bool; 10] = [
    false,
    false,
    false,
    false,
    true,
    false,
    false,
    false,
    false,
    false,
];

/// Kinds of the columns of `xattrs`.
pub const XATTR_KINDS: [ColumnKind; 5] = [
    ColumnKind::Bytes,
    ColumnKind::Bytes,
    ColumnKind::Bytes,
    ColumnKind::Bytes,
    ColumnKind::Number,
];

/// Which columns of `xattrs` may be absent.
pub const XATTR_NULLABLE: [bool; 5] = [
    false,
    false,
    false,
    false,
    false,
];

/// Kinds of the columns of `xattr_staging`.
pub const XATTR_STAGING_KINDS: [ColumnKind; 7] = [
    ColumnKind::Bytes,
    ColumnKind::Bytes,
    ColumnKind::Bytes,
    ColumnKind::Bytes,
    ColumnKind::Number,
    ColumnKind::Bytes,
    ColumnKind::Number,
];

/// Which columns of `xattr_staging` may be absent.
pub const XATTR_STAGING_NULLABLE: [bool; 7] = [
    false,
    false,
    false,
    false,
    false,
    false,
    false,
];

/// Kinds of the columns of `mutation_results`.
pub const MUTATION_KINDS: [ColumnKind; 13] = [
    ColumnKind::Bytes,
    ColumnKind::Bytes,
    ColumnKind::Bytes,
    ColumnKind::Bytes,
    ColumnKind::Bytes,
    ColumnKind::Bytes,
    ColumnKind::Number,
    ColumnKind::Int4,
    ColumnKind::Int4,
    ColumnKind::Bytes,
    ColumnKind::Number,
    ColumnKind::Number,
    ColumnKind::Number,
];

/// Which columns of `mutation_results` may be absent.
pub const MUTATION_NULLABLE: [bool; 13] = [
    false,
    false,
    false,
    false,
    false,
    false,
    false,
    false,
    false,
    false,
    false,
    false,
    false,
];

/// Columns of `writer_fences`, keys first.
pub const WRITER_FENCE_COLUMNS: [&'static str; 7] = [
    "filesystem_id",
    "writer_scope_id",
    "greatest_fencing_token",
    "active_holder_id",
    "active_lease_id",
    "active_deadline_tick",
    "active_record_revision",
];

/// Kinds of the columns of `writer_fences`.
pub const WRITER_FENCE_KINDS: [ColumnKind; 7] = [
    ColumnKind::Bytes,
    ColumnKind::Bytes,
    ColumnKind::Number,
    ColumnKind::Bytes,
    ColumnKind::Bytes,
    ColumnKind::Number,
    ColumnKind::Number,
];

/// Which columns of `writer_fences` may be absent.
pub const WRITER_FENCE_NULLABLE: [bool; 7] = [
    false,
    false,
    false,
    true,
    true,
    true,
    true,
];

/// Columns of `writer_lease_operations`, keys first.
pub const LEASE_OPERATION_COLUMNS: [&'static str; 10] = [
    "filesystem_id",
    "lease_operation_id",
    "operation_kind",
    "request_fingerprint",
    "outcome_tag",
    "grant_scope_id",
    "grant_holder_id",
    "grant_lease_id",
    "grant_deadline_tick",
    "grant_fencing_token",
];

/// Kinds of the columns of `writer_lease_operations`.
pub const LEASE_OPERATION_KINDS: [ColumnKind; 10] = [
    ColumnKind::Bytes,
    ColumnKind::Bytes,
    ColumnKind::Int2,
    ColumnKind::Bytes,
    ColumnKind::Int2,
    ColumnKind::Bytes,
    ColumnKind::Bytes,
    ColumnKind::Bytes,
    ColumnKind::Number,
    ColumnKind::Number,
];

/// Which columns of `writer_lease_operations` may be absent.
pub const LEASE_OPERATION_NULLABLE: [bool; 10] = [
    false,
    false,
    false,
    false,
    false,
    true,
    true,
    true,
    true,
    true,
];

/// Columns of `change_commits`, keys first.
pub const CHANGE_COMMIT_COLUMNS: [&'static str; 5] = [
    "filesystem_id",
    "revision",
    "origin_kind",
    "origin_id",
    "key_count",
];

/// Kinds of the columns of `change_commits`.
pub const CHANGE_COMMIT_KINDS: [ColumnKind; 5] = [
    ColumnKind::Bytes,
    ColumnKind::Number,
    ColumnKind::Int2,
    ColumnKind::Bytes,
    ColumnKind::Int4,
];

/// Which columns of `change_commits` may be absent.
pub const CHANGE_COMMIT_NULLABLE: [bool; 5] = [
    false,
    false,
    false,
    false,
    false,
];

/// Columns of `change_keys`, keys first.
pub const CHANGE_KEY_COLUMNS: [&'static str; 6] = [
    "filesystem_id",
    "revision",
    "ordinal",
    "family_tag",
    "component_a",
    "component_b",
];

/// Kinds of the columns of `change_keys`.
pub const CHANGE_KEY_KINDS: [ColumnKind; 6] = [
    ColumnKind::Bytes,
    ColumnKind::Number,
    ColumnKind::Int4,
    ColumnKind::Int2,
    ColumnKind::Bytes,
    ColumnKind::Bytes,
];

/// Which columns of `change_keys` may be absent.
pub const CHANGE_KEY_NULLABLE: [bool; 6] = [
    false,
    false,
    false,
    false,
    true,
    true,
];

/// The table of applied migrations.
pub open spec fn ledger_shape() -> TableView {
    shape_of(
        "w9pt_fs_state_schema_migrations",
        "w9pt_fs_state_schema_migrations_pkey",
        true,
        LEDGER_COLUMNS@,
        LEDGER_KINDS@,
        LEDGER_NULLABLE@,
        1,
    )
}

/// The table of applied migrations.
pub fn ledger_table() -> (result: TableShape)
    ensures
        result@ == ledger_shape(),
{
    generated_table(
        "w9pt_fs_state_schema_migrations",
        "w9pt_fs_state_schema_migrations_pkey",
        true,
        &LEDGER_COLUMNS,
        &LEDGER_KINDS,
        &LEDGER_NULLABLE,
        1,
    )
}

/// The tables of the initial migration, in order.
pub open spec fn production_shapes() -> Seq<TableView> {
    seq![
        shape_of(
            "w9pt_fs_state_authority_heads",
            "w9pt_fs_state_authority_heads_pkey",
            false,
            AUTHORITY_HEAD_COLUMNS@,
            AUTHORITY_HEAD_KINDS@,
            AUTHORITY_HEAD_NULLABLE@,
            1,
        ),
        shape_of(
            "w9pt_fs_state_filesystem_records",
            "w9pt_fs_state_filesystem_records_pkey",
            false,
            record_write::FILESYSTEM_COLUMNS@,
            FILESYSTEM_KINDS@,
            FILESYSTEM_NULLABLE@,
            1,
        ),
        shape_of(
            "w9pt_fs_state_inodes",
            "w9pt_fs_state_inodes_pkey",
            false,
            record_write::INODE_COLUMNS@,
            INODE_KINDS@,
            INODE_NULLABLE@,
            2,
        ),
        shape_of(
            "w9pt_fs_state_directory_entries",
            "w9pt_fs_state_directory_entries_pkey",
            false,
            record_write::DIRECTORY_ENTRY_COLUMNS@,
            DIRECTORY_ENTRY_KINDS@,
            DIRECTORY_ENTRY_NULLABLE@,
            3,
        ),
        shape_of(
            "w9pt_fs_state_opens",
            "w9pt_fs_state_opens_pkey",
            false,
            record_write::OPEN_COLUMNS@,
            OPEN_KINDS@,
            OPEN_NULLABLE@,
            2,
        ),
        shape_of(
            "w9pt_fs_state_open_pins",
            "w9pt_fs_state_open_pins_pkey",
            false,
            record_write::OPEN_PIN_COLUMNS@,
            OPEN_PIN_KINDS@,
            OPEN_PIN_NULLABLE@,
            3,
        ),
        shape_of(
            "w9pt_fs_state_orphans",
            "w9pt_fs_state_orphans_pkey",
            false,
            record_write::ORPHAN_COLUMNS@,
            ORPHAN_KINDS@,
            ORPHAN_NULLABLE@,
            2,
        ),
        shape_of(
            "w9pt_fs_state_locks",
            "w9pt_fs_state_locks_pkey",
            false,
            record_write::LOCK_COLUMNS@,
            LOCK_KINDS@,
            LOCK_NULLABLE@,
            3,
        ),
        shape_of(
            "w9pt_fs_state_xattrs",
            "w9pt_fs_state_xattrs_pkey",
            false,
            record_write::XATTR_COLUMNS@,
            XATTR_KINDS@,
            XATTR_NULLABLE@,
            3,
        ),
        shape_of(
            "w9pt_fs_state_xattr_staging",
            "w9pt_fs_state_xattr_staging_pkey",
            false,
            record_write::XATTR_STAGING_COLUMNS@,
            XATTR_STAGING_KINDS@,
            XATTR_STAGING_NULLABLE@,
            2,
        ),
        shape_of(
            "w9pt_fs_state_mutation_results",
            "w9pt_fs_state_mutation_results_pkey",
            false,
            record_write::MUTATION_COLUMNS@,
            MUTATION_KINDS@,
            MUTATION_NULLABLE@,
            2,
        ),
        shape_of(
            "w9pt_fs_state_writer_fences",
            "w9pt_fs_state_writer_fences_pkey",
            false,
            WRITER_FENCE_COLUMNS@,
            WRITER_FENCE_KINDS@,
            WRITER_FENCE_NULLABLE@,
            2,
        ),
        shape_of(
            "w9pt_fs_state_writer_lease_operations",
            "w9pt_fs_state_writer_lease_operations_pkey",
            false,
            LEASE_OPERATION_COLUMNS@,
            LEASE_OPERATION_KINDS@,
            LEASE_OPERATION_NULLABLE@,
            2,
        ),
        shape_of(
            "w9pt_fs_state_change_commits",
            "w9pt_fs_state_change_commits_pkey",
            false,
            CHANGE_COMMIT_COLUMNS@,
            CHANGE_COMMIT_KINDS@,
            CHANGE_COMMIT_NULLABLE@,
            2,
        ),
        shape_of(
            "w9pt_fs_state_change_keys",
            "w9pt_fs_state_change_keys_pkey",
            false,
            CHANGE_KEY_COLUMNS@,
            CHANGE_KEY_KINDS@,
            CHANGE_KEY_NULLABLE@,
            3,
        ),
    ]
}

/// The tables of the initial migration, in order.
pub fn production_tables() -> (result: Vec<TableShape>)
    ensures
        table_views(result@) == production_shapes(),
{
    let result = vec![
        generated_table(
            "w9pt_fs_state_authority_heads",
            "w9pt_fs_state_authority_heads_pkey",
            false,
            &AUTHORITY_HEAD_COLUMNS,
            &AUTHORITY_HEAD_KINDS,
            &AUTHORITY_HEAD_NULLABLE,
            1,
        ),
        generated_table(
            "w9pt_fs_state_filesystem_records",
            "w9pt_fs_state_filesystem_records_pkey",
            false,
            &record_write::FILESYSTEM_COLUMNS,
            &FILESYSTEM_KINDS,
            &FILESYSTEM_NULLABLE,
            1,
        ),
        generated_table(
            "w9pt_fs_state_inodes",
            "w9pt_fs_state_inodes_pkey",
            false,
            &record_write::INODE_COLUMNS,
            &INODE_KINDS,
            &INODE_NULLABLE,
            2,
        ),
        generated_table(
            "w9pt_fs_state_directory_entries",
            "w9pt_fs_state_directory_entries_pkey",
            false,
            &record_write::DIRECTORY_ENTRY_COLUMNS,
            &DIRECTORY_ENTRY_KINDS,
            &DIRECTORY_ENTRY_NULLABLE,
            3,
        ),
        generated_table(
            "w9pt_fs_state_opens",
            "w9pt_fs_state_opens_pkey",
            false,
            &record_write::OPEN_COLUMNS,
            &OPEN_KINDS,
            &OPEN_NULLABLE,
            2,
        ),
        generated_table(
            "w9pt_fs_state_open_pins",
            "w9pt_fs_state_open_pins_pkey",
            false,
            &record_write::OPEN_PIN_COLUMNS,
            &OPEN_PIN_KINDS,
            &OPEN_PIN_NULLABLE,
            3,
        ),
        generated_table(
            "w9pt_fs_state_orphans",
            "w9pt_fs_state_orphans_pkey",
            false,
            &record_write::ORPHAN_COLUMNS,
            &ORPHAN_KINDS,
            &ORPHAN_NULLABLE,
            2,
        ),
        generated_table(
            "w9pt_fs_state_locks",
            "w9pt_fs_state_locks_pkey",
            false,
            &record_write::LOCK_COLUMNS,
            &LOCK_KINDS,
            &LOCK_NULLABLE,
            3,
        ),
        generated_table(
            "w9pt_fs_state_xattrs",
            "w9pt_fs_state_xattrs_pkey",
            false,
            &record_write::XATTR_COLUMNS,
            &XATTR_KINDS,
            &XATTR_NULLABLE,
            3,
        ),
        generated_table(
            "w9pt_fs_state_xattr_staging",
            "w9pt_fs_state_xattr_staging_pkey",
            false,
            &record_write::XATTR_STAGING_COLUMNS,
            &XATTR_STAGING_KINDS,
            &XATTR_STAGING_NULLABLE,
            2,
        ),
        generated_table(
            "w9pt_fs_state_mutation_results",
            "w9pt_fs_state_mutation_results_pkey",
            false,
            &record_write::MUTATION_COLUMNS,
            &MUTATION_KINDS,
            &MUTATION_NULLABLE,
            2,
        ),
        generated_table(
            "w9pt_fs_state_writer_fences",
            "w9pt_fs_state_writer_fences_pkey",
            false,
            &WRITER_FENCE_COLUMNS,
            &WRITER_FENCE_KINDS,
            &WRITER_FENCE_NULLABLE,
            2,
        ),
        generated_table(
            "w9pt_fs_state_writer_lease_operations",
            "w9pt_fs_state_writer_lease_operations_pkey",
            false,
            &LEASE_OPERATION_COLUMNS,
            &LEASE_OPERATION_KINDS,
            &LEASE_OPERATION_NULLABLE,
            2,
        ),
        generated_table(
            "w9pt_fs_state_change_commits",
            "w9pt_fs_state_change_commits_pkey",
            false,
            &CHANGE_COMMIT_COLUMNS,
            &CHANGE_COMMIT_KINDS,
            &CHANGE_COMMIT_NULLABLE,
            2,
        ),
        generated_table(
            "w9pt_fs_state_change_keys",
            "w9pt_fs_state_change_keys_pkey",
            false,
            &CHANGE_KEY_COLUMNS,
            &CHANGE_KEY_KINDS,
            &CHANGE_KEY_NULLABLE,
            3,
        ),
    ];
    assert(table_views(result@) =~= production_shapes());
    result
}

/// The ledger and the tables of the initial migration are the tables of the
/// schema, in its order.
pub proof fn law_tables_are_the_schema(index: int)
    requires
        0 <= index < schema::TABLE_NAMES@.len(),
    ensures
        production_shapes().len() + 1 == schema::TABLE_NAMES@.len(),
        schema::TABLE_NAMES@[index] == (if index == 0 {
            ledger_shape().name
        } else {
            production_shapes()[index - 1].name
        }),
{
}

} // verus!
