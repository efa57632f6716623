use std::collections::BTreeSet;

use w9pt_fs_state_postgres::catalog::{ledger_table, production_tables, ColumnKind};
use w9pt_fs_state_postgres::schema::{
    column_default, production_indexes, unique_constraint, ColumnDefault, CHECK_CONSTRAINT_DDL,
    CONSTRAINT_NAMES, DEFERRED_FOREIGN_KEY_DDL, INDEX_NAMES, INITIAL_MIGRATION_NAME,
    INITIAL_MIGRATION_VERSION, TABLE_NAMES,
};

#[test]
fn initial_migration_is_identified() {
    assert_eq!(INITIAL_MIGRATION_NAME, "m20260904_182105_create_w9pt_fs_state");
    assert_eq!(INITIAL_MIGRATION_VERSION, 1);
}

#[test]
fn generated_catalog_names_are_complete_unique_and_postgres_bounded() {
    assert_eq!(TABLE_NAMES.len(), 16);
    assert_eq!(INDEX_NAMES.len(), 23);
    assert_eq!(CONSTRAINT_NAMES.len(), 172);
    for names in [&TABLE_NAMES[..], &INDEX_NAMES[..], &CONSTRAINT_NAMES[..]] {
        assert!(names.iter().all(|name| name.starts_with("w9pt_fs_state_")));
        assert!(names.iter().all(|name| name.len() <= 63));
        assert_eq!(names.iter().copied().collect::<BTreeSet<_>>().len(), names.len());
    }
    let ddl: String = CHECK_CONSTRAINT_DDL
        .iter()
        .chain(DEFERRED_FOREIGN_KEY_DDL.iter())
        .copied()
        .collect();
    assert_eq!(ddl.matches("ADD CONSTRAINT").count(), 153);
    assert_eq!(ddl.matches("DEFERRABLE INITIALLY DEFERRED").count(), 13);
}

#[test]
fn indexes_and_defaults_belong_to_known_tables() {
    let names: BTreeSet<&str> = INDEX_NAMES.iter().copied().collect();
    for index in production_indexes() {
        assert!(names.contains(index.name), "{}", index.name);
        assert!(TABLE_NAMES.contains(&index.table));
        assert!(!index.columns.is_empty());
    }
    assert_eq!(
        column_default("w9pt_fs_state_authority_heads", "current_revision"),
        Some(ColumnDefault::One)
    );
    assert_eq!(column_default("w9pt_fs_state_inodes", "mode"), None);
    assert!(unique_constraint("w9pt_fs_state_inodes").is_some());
    assert!(unique_constraint("w9pt_fs_state_xattrs").is_none());
}

#[test]
fn tables_are_those_of_the_schema_and_cover_their_keys() {
    let mut tables = vec![ledger_table()];
    assert!(tables[0].if_not_exists);
    tables.extend(production_tables());
    assert_eq!(tables.iter().map(|table| table.name).collect::<Vec<_>>(), TABLE_NAMES);
    for table in &tables {
        let columns: BTreeSet<&str> = table.columns.iter().map(|column| column.name).collect();
        assert_eq!(columns.len(), table.columns.len(), "{}", table.name);
        let keys = table.columns.iter().filter(|column| column.sole_key).count();
        assert_eq!(keys == 1, table.primary_key.is_none(), "{}", table.name);
        for list in table.primary_key.iter().chain(table.unique.iter()) {
            assert_eq!(list.table, table.name);
            assert!(list.columns.iter().all(|column| columns.contains(column)), "{}", list.name);
            assert!(INDEX_NAMES.contains(&list.name), "{}", list.name);
        }
        for list in production_indexes().iter().filter(|list| list.table == table.name) {
            assert!(list.columns.iter().all(|column| columns.contains(column)), "{}", list.name);
        }
    }
    assert_eq!(tables[0].columns[2].default_value, Some(ColumnDefault::ClockTimestamp));
    assert_eq!(tables[1].columns[1].default_value, Some(ColumnDefault::One));
    let inodes = &tables[3];
    assert_eq!(inodes.columns[4].kind, ColumnKind::Int4);
    assert!(inodes.columns[19].nullable && !inodes.columns[18].nullable);
}
