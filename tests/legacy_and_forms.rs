use accounts_db::layout::DbFiles;
use accounts_db::legacy::{migrate_from_legacy, migration_summary, LegacyError};
use accounts_db::schema::Table;
use accounts_db::validators::{parse_positive_int, validate_category_id, validate_not_empty};

#[test]
fn legacy_copy_needs_backup() {
    let db = DbFiles { file_name: "accounts.db".to_string() };
    let r = migrate_from_legacy(&db, &vec!["accounts.db".to_string()]);
    assert!(matches!(r, Err(LegacyError::NoBackup)));
    assert_eq!(LegacyError::NoBackup.message(), "没有找到旧数据备份文件");
}

#[test]
fn legacy_copy_in_dependency_order() {
    let db = DbFiles { file_name: "accounts.db".to_string() };
    let copy = migrate_from_legacy(&db, &vec!["accounts.db.legacy".to_string()]).ok().unwrap();
    assert_eq!(copy.legacy_file, "accounts.db.legacy");
    assert_eq!(copy.tables.len(), 4);
    assert!(copy.tables[0] == Table::Categories);
    assert!(copy.tables[3] == Table::InstallmentDetails);
    assert!(copy.tables[1].upsert_sql().starts_with("INSERT OR REPLACE INTO transactions"));
    assert_eq!(copy.tables[0].column_count(), 5);
    assert_eq!(copy.tables[3].column_count(), 7);
}

#[test]
fn legacy_summary_text() {
    assert_eq!(
        migration_summary(6, 120, 3),
        "迁移完成！已导入 6 个分类、120 条交易记录、3 个分期计划"
    );
    assert_eq!(
        migration_summary(0, 0, 0),
        "迁移完成！已导入 0 个分类、0 条交易记录、0 个分期计划"
    );
}

#[test]
fn category_must_be_chosen() {
    assert_eq!(validate_category_id(0), Err("请选择分类"));
    assert_eq!(validate_category_id(5), Ok(()));
}

#[test]
fn blank_field_is_refused() {
    assert_eq!(validate_not_empty("  \t", "Name"), Err("Name"));
    assert_eq!(validate_not_empty("", "Name"), Err("Name"));
    assert_eq!(validate_not_empty(" x ", "Name"), Ok(()));
    assert_eq!(validate_not_empty("\u{3000}\u{a0}\n", "Name"), Err("Name"));
}

#[test]
fn positive_ints() {
    assert_eq!(parse_positive_int("42"), Ok(42));
    assert_eq!(parse_positive_int("+7"), Ok(7));
    assert_eq!(parse_positive_int("2147483647"), Ok(2147483647));
    let bad = Err("请输入有效的正整数");
    assert_eq!(parse_positive_int("0"), bad);
    assert_eq!(parse_positive_int("-3"), bad);
    assert_eq!(parse_positive_int("2147483648"), bad);
    assert_eq!(parse_positive_int(""), bad);
    assert_eq!(parse_positive_int("+"), bad);
    assert_eq!(parse_positive_int("12a"), bad);
    assert_eq!(parse_positive_int(" 5"), bad);
}
