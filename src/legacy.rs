//! Copying the rows of a quarantined database into the fresh one: table by
//! table in dependency order, each row upserted by its primary key, so that
//! the copy can be run again safely.

use vstd::prelude::*;
use crate::layout::{DbFiles, legacy_name};
use crate::schema::Table;
use crate::text::{concat, decimal, to_decimal};

verus! {

/// Why the copy from the backup could not start.
pub enum LegacyError {
    /// There is no quarantined backup beside the database.
    NoBackup,
}

impl LegacyError {
    /// A description of the error for the user.
    pub fn message(&self) -> (r: String)
        ensures
            r@ == "没有找到旧数据备份文件"@,
    {
        String::from_str("没有找到旧数据备份文件")
    }
}

/// The copy to carry out: the backup file to open, and the tables to copy,
/// in order.
pub struct LegacyCopy {
    pub legacy_file: String,
    pub tables: Vec<Table>,
}

/// Tables in the order in which rows can be copied without breaking a
/// foreign key: each table after the tables it refers to.
pub open spec fn copy_order() -> Seq<Table> {
    seq![Table::Categories, Table::Transactions, Table::Installments, Table::InstallmentDetails]
}

/// A table's rows keyed by primary key, after upserting the rows in order.
pub open spec fn upsert_all<R>(m: Map<i64, R>, rows: Seq<(i64, R)>) -> Map<i64, R>
    decreases rows.len(),
{
    if rows.len() == 0 {
        m
    } else {
        upsert_all(m.insert(rows[0].0, rows[0].1), rows.skip(1))
    }
}

proof fn lemma_upsert_all_union<R>(m: Map<i64, R>, rows: Seq<(i64, R)>)
    ensures
        upsert_all(m, rows) == m.union_prefer_right(upsert_all(Map::empty(), rows)),
    decreases rows.len(),
{
    if rows.len() == 0 {
        assert(m.union_prefer_right(Map::<i64, R>::empty()) =~= m);
    } else {
        let (k, v) = rows[0];
        let rest = rows.skip(1);
        lemma_upsert_all_union(m.insert(k, v), rest);
        lemma_upsert_all_union(Map::<i64, R>::empty().insert(k, v), rest);
        let l = upsert_all(Map::<i64, R>::empty(), rest);
        assert(m.insert(k, v).union_prefer_right(l) =~= m.union_prefer_right(
            Map::<i64, R>::empty().insert(k, v).union_prefer_right(l),
        ));
    }
}

/// Upserting the same rows a second time changes nothing: the table holds
/// the same keys (so the same row count) and the same rows as after the
/// first time, and no key is duplicated.
pub proof fn lemma_upsert_idempotent<R>(m: Map<i64, R>, rows: Seq<(i64, R)>)
    ensures
        upsert_all(upsert_all(m, rows), rows) == upsert_all(m, rows),
        upsert_all(m, rows).dom() == m.dom() + rows.map_values(|p: (i64, R)| p.0).to_set(),
    decreases rows.len(),
{
    let l = upsert_all(Map::<i64, R>::empty(), rows);
    lemma_upsert_all_union(m, rows);
    lemma_upsert_all_union(upsert_all(m, rows), rows);
    assert(m.union_prefer_right(l).union_prefer_right(l) =~= m.union_prefer_right(l));
    if rows.len() > 0 {
        let (k, v) = rows[0];
        let rest = rows.skip(1);
        lemma_upsert_idempotent(m.insert(k, v), rest);
        let keys = rows.map_values(|p: (i64, R)| p.0);
        let rest_keys = rest.map_values(|p: (i64, R)| p.0);
        assert(rest_keys =~= keys.skip(1));
        assert forall|x: i64| keys.to_set().contains(x) <==> (x == k || rest_keys.to_set().contains(x))
            by {
            if keys.to_set().contains(x) {
                let j = choose|j: int| 0 <= j < keys.len() && keys[j] == x;
                if j > 0 {
                    assert(rest_keys[j - 1] == x);
                }
            }
            if rest_keys.to_set().contains(x) {
                let j = choose|j: int| 0 <= j < rest_keys.len() && rest_keys[j] == x;
                assert(keys[j + 1] == x);
            }
            if x == k {
                assert(keys[0] == x);
            }
        }
        assert(upsert_all(m, rows).dom() =~= m.dom() + keys.to_set());
    } else {
        assert(rows.map_values(|p: (i64, R)| p.0).to_set() =~= Set::<i64>::empty());
        assert(m.dom() + Set::<i64>::empty() =~= m.dom());
    }
}

/// The query that reads every row of a table from the backup.
pub open spec fn select_sql(t: Table) -> Seq<char> {
    match t {
        Table::Categories => "SELECT id, name, icon, created_at, updated_at FROM categories"@,
        Table::Transactions =>
            "SELECT id, category_id, amount, transaction_date, note, created_at FROM transactions"@,
        Table::Installments =>
            "SELECT id, category_id, total_amount, installment_count, start_date, note, created_at FROM installments"@,
        Table::InstallmentDetails =>
            "SELECT id, installment_id, sequence_number, amount, due_date, is_paid, paid_date FROM installment_details"@,
    }
}

/// The statement that upserts one row, its columns bound in the order that
/// `select_sql` reads them.
pub open spec fn upsert_sql(t: Table) -> Seq<char> {
    match t {
        Table::Categories =>
            "INSERT OR REPLACE INTO categories (id, name, icon, created_at, updated_at) VALUES (?, ?, ?, ?, ?)"@,
        Table::Transactions =>
            "INSERT OR REPLACE INTO transactions (id, category_id, amount, transaction_date, note, created_at) VALUES (?, ?, ?, ?, ?, ?)"@,
        Table::Installments =>
            "INSERT OR REPLACE INTO installments (id, category_id, total_amount, installment_count, start_date, note, created_at) VALUES (?, ?, ?, ?, ?, ?, ?)"@,
        Table::InstallmentDetails =>
            "INSERT OR REPLACE INTO installment_details (id, installment_id, sequence_number, amount, due_date, is_paid, paid_date) VALUES (?, ?, ?, ?, ?, ?, ?)"@,
    }
}

/// The number of columns copied from a table.
pub open spec fn column_count(t: Table) -> nat {
    match t {
        Table::Categories => 5,
        Table::Transactions => 6,
        _ => 7,
    }
}

impl Table {
    /// The query that reads every row of this table from the backup.
    pub fn select_sql(&self) -> (r: &'static str)
        ensures
            r@ == select_sql(*self),
    {
        match self {
            Table::Categories => "SELECT id, name, icon, created_at, updated_at FROM categories",
            Table::Transactions =>
                "SELECT id, category_id, amount, transaction_date, note, created_at FROM transactions",
            Table::Installments =>
                "SELECT id, category_id, total_amount, installment_count, start_date, note, created_at FROM installments",
            Table::InstallmentDetails =>
                "SELECT id, installment_id, sequence_number, amount, due_date, is_paid, paid_date FROM installment_details",
        }
    }

    /// The statement that upserts one row of this table.
    pub fn upsert_sql(&self) -> (r: &'static str)
        ensures
            r@ == upsert_sql(*self),
    {
        match self {
            Table::Categories =>
                "INSERT OR REPLACE INTO categories (id, name, icon, created_at, updated_at) VALUES (?, ?, ?, ?, ?)",
            Table::Transactions =>
                "INSERT OR REPLACE INTO transactions (id, category_id, amount, transaction_date, note, created_at) VALUES (?, ?, ?, ?, ?, ?)",
            Table::Installments =>
                "INSERT OR REPLACE INTO installments (id, category_id, total_amount, installment_count, start_date, note, created_at) VALUES (?, ?, ?, ?, ?, ?, ?)",
            Table::InstallmentDetails =>
                "INSERT OR REPLACE INTO installment_details (id, installment_id, sequence_number, amount, due_date, is_paid, paid_date) VALUES (?, ?, ?, ?, ?, ?, ?)",
        }
    }

    /// The number of columns copied from this table.
    pub fn column_count(&self) -> (r: usize)
        ensures
            r == column_count(*self),
    {
        match self {
            Table::Categories => 5,
            Table::Transactions => 6,
            _ => 7,
        }
    }
}

/// The copy from the quarantined backup, given the entries of the database's
/// directory: `NoBackup` exactly when the backup is not among them.
pub fn migrate_from_legacy(db: &DbFiles, entries: &Vec<String>) -> (r: Result<LegacyCopy, LegacyError>)
    ensures
        r is Err <==> !exists|i: int|
            0 <= i < entries@.len() && entries@[i]@ == legacy_name(db.file_name@),
        r matches Ok(c) ==> c.legacy_file@ == legacy_name(db.file_name@) && c.tables@
            == copy_order(),
{
    if !crate::layout::has_legacy_db(db, entries) {
        return Err(LegacyError::NoBackup);
    }
    let mut tables: Vec<Table> = Vec::new();
    tables.push(Table::Categories);
    tables.push(Table::Transactions);
    tables.push(Table::Installments);
    tables.push(Table::InstallmentDetails);
    assert(tables@ =~= copy_order());
    Ok(LegacyCopy { legacy_file: db.legacy_name(), tables })
}

/// The report for the user after a copy, with the number of categories,
/// transactions and installment plans copied.
pub fn migration_summary(categories: u64, transactions: u64, installments: u64) -> (r: String)
    ensures
        r@ == "迁移完成！已导入 "@ + decimal(categories as nat) + " 个分类、"@ + decimal(
            transactions as nat,
        ) + " 条交易记录、"@ + decimal(installments as nat) + " 个分期计划"@,
{
    let r = concat("迁移完成！已导入 ", to_decimal(categories).as_str());
    let r = concat(r.as_str(), " 个分类、");
    let r = concat(r.as_str(), to_decimal(transactions).as_str());
    let r = concat(r.as_str(), " 条交易记录、");
    let r = concat(r.as_str(), to_decimal(installments).as_str());
    concat(r.as_str(), " 个分期计划")
}

} // verus!
