//! The schema: four tables, three indexes and the default categories,
//! created by steps that are safe to run on every start.

use vstd::prelude::*;
use crate::text::concat;

verus! {

/// A table of the schema.
#[derive(PartialEq, Eq, Structural, Clone, Copy)]
pub enum Table {
    Categories,
    Transactions,
    Installments,
    InstallmentDetails,
}

/// A supporting index of the schema.
#[derive(PartialEq, Eq, Structural, Clone, Copy)]
pub enum Index {
    TransactionDate,
    TransactionCategory,
    InstallmentDueDate,
}

/// One statement of a migration.
pub enum SchemaStep {
    /// Turn on foreign-key enforcement for the connection.
    EnableForeignKeys,
    /// Create the table unless it exists.
    CreateTable(Table),
    /// Create the index unless it exists.
    CreateIndex(Index),
    /// Add a category with this name and icon.
    InsertCategory { name: String, icon: String },
}

/// A statement of a migration, over character sequences.
pub enum StepModel {
    EnableForeignKeys,
    CreateTable(Table),
    CreateIndex(Index),
    InsertCategory { name: Seq<char>, icon: Seq<char> },
}

impl View for SchemaStep {
    type V = StepModel;

    open spec fn view(&self) -> StepModel {
        match self {
            SchemaStep::EnableForeignKeys => StepModel::EnableForeignKeys,
            SchemaStep::CreateTable(t) => StepModel::CreateTable(*t),
            SchemaStep::CreateIndex(i) => StepModel::CreateIndex(*i),
            SchemaStep::InsertCategory { name, icon } => StepModel::InsertCategory {
                name: name@,
                icon: icon@,
            },
        }
    }
}

/// What a database holds, as far as migration is concerned: whether foreign
/// keys are enforced, the tables and indexes present, and the category rows
/// (name and icon) in order.
pub struct Catalog {
    pub foreign_keys: bool,
    pub tables: Set<Table>,
    pub indexes: Set<Index>,
    pub categories: Seq<(Seq<char>, Seq<char>)>,
}

/// The categories of a fresh database, as (name, icon).
pub open spec fn default_categories() -> Seq<(Seq<char>, Seq<char>)> {
    seq![
        ("食物"@, "🍔"@),
        ("交通"@, "🚗"@),
        ("日用品"@, "🛒"@),
        ("孩子"@, "👶"@),
        ("学习"@, "📚"@),
        ("其它"@, "📦"@),
    ]
}

/// Every table of the schema.
pub open spec fn all_tables() -> Set<Table> {
    set![Table::Categories, Table::Transactions, Table::Installments, Table::InstallmentDetails]
}

/// Every index of the schema.
pub open spec fn all_indexes() -> Set<Index> {
    set![Index::TransactionDate, Index::TransactionCategory, Index::InstallmentDueDate]
}

/// The catalog after one statement.
pub open spec fn apply_step(c: Catalog, s: StepModel) -> Catalog {
    match s {
        StepModel::EnableForeignKeys => Catalog { foreign_keys: true, ..c },
        StepModel::CreateTable(t) => Catalog { tables: c.tables.insert(t), ..c },
        StepModel::CreateIndex(i) => Catalog { indexes: c.indexes.insert(i), ..c },
        StepModel::InsertCategory { name, icon } => Catalog {
            categories: c.categories.push((name, icon)),
            ..c
        },
    }
}

/// The catalog after the statements, in order.
pub open spec fn apply_steps(c: Catalog, steps: Seq<StepModel>) -> Catalog
    decreases steps.len(),
{
    if steps.len() == 0 {
        c
    } else {
        apply_steps(apply_step(c, steps[0]), steps.skip(1))
    }
}

/// The statements that every migration runs: foreign keys first, then the
/// tables (categories before the tables that refer to it), then the indexes.
pub open spec fn schema_plan() -> Seq<StepModel> {
    seq![
        StepModel::EnableForeignKeys,
        StepModel::CreateTable(Table::Categories),
        StepModel::CreateTable(Table::Transactions),
        StepModel::CreateTable(Table::Installments),
        StepModel::CreateTable(Table::InstallmentDetails),
        StepModel::CreateIndex(Index::TransactionDate),
        StepModel::CreateIndex(Index::TransactionCategory),
        StepModel::CreateIndex(Index::InstallmentDueDate),
    ]
}

/// The statements that add the given categories.
pub open spec fn inserts_of(rows: Seq<(Seq<char>, Seq<char>)>) -> Seq<StepModel> {
    rows.map_values(|p: (Seq<char>, Seq<char>)| StepModel::InsertCategory { name: p.0, icon: p.1 })
}

/// The seeding statements, given how many categories there are: the
/// defaults when there are none, nothing otherwise.
pub open spec fn seed_plan(category_count: int) -> Seq<StepModel> {
    if category_count == 0 {
        inserts_of(default_categories())
    } else {
        seq![]
    }
}

/// The catalog after one whole migration.
pub open spec fn migrated(c: Catalog) -> Catalog {
    let c1 = apply_steps(c, schema_plan());
    apply_steps(c1, seed_plan(c1.categories.len() as int))
}

proof fn lemma_apply_inserts(c: Catalog, rows: Seq<(Seq<char>, Seq<char>)>)
    ensures
        apply_steps(c, inserts_of(rows)) == (Catalog { categories: c.categories + rows, ..c }),
    decreases rows.len(),
{
    let steps = inserts_of(rows);
    if rows.len() == 0 {
        assert(c.categories + rows =~= c.categories);
    } else {
        let c1 = apply_step(c, steps[0]);
        assert(steps.skip(1) =~= inserts_of(rows.skip(1)));
        lemma_apply_inserts(c1, rows.skip(1));
        assert(c1.categories + rows.skip(1) =~= c.categories + rows);
    }
}

proof fn lemma_apply_schema(c: Catalog)
    ensures
        apply_steps(c, schema_plan()) == (Catalog {
            foreign_keys: true,
            tables: c.tables + all_tables(),
            indexes: c.indexes + all_indexes(),
            categories: c.categories,
        }),
{
    let p = schema_plan();
    let c1 = apply_step(c, p[0]);
    let c2 = apply_step(c1, p[1]);
    let c3 = apply_step(c2, p[2]);
    let c4 = apply_step(c3, p[3]);
    let c5 = apply_step(c4, p[4]);
    let c6 = apply_step(c5, p[5]);
    let c7 = apply_step(c6, p[6]);
    let c8 = apply_step(c7, p[7]);
    let t1 = p.skip(1);
    let t2 = t1.skip(1);
    let t3 = t2.skip(1);
    let t4 = t3.skip(1);
    let t5 = t4.skip(1);
    let t6 = t5.skip(1);
    let t7 = t6.skip(1);
    let t8 = t7.skip(1);
    assert(t1[0] == p[1] && t2[0] == p[2] && t3[0] == p[3] && t4[0] == p[4]);
    assert(t5[0] == p[5] && t6[0] == p[6] && t7[0] == p[7] && t8.len() == 0);
    assert(apply_steps(c8, t8) == c8);
    assert(apply_steps(c7, t7) == c8);
    assert(apply_steps(c6, t6) == c8);
    assert(apply_steps(c5, t5) == c8);
    assert(apply_steps(c4, t4) == c8);
    assert(apply_steps(c3, t3) == c8);
    assert(apply_steps(c2, t2) == c8);
    assert(apply_steps(c1, t1) == c8);
    assert(c8.tables =~= c.tables + all_tables());
    assert(c8.indexes =~= c.indexes + all_indexes());
}

/// Migration is idempotent: a second run changes nothing, in particular it
/// adds no category. A first run on a database without categories leaves
/// exactly the defaults; on one with categories it leaves them as they were.
pub proof fn lemma_migrate_idempotent(c: Catalog)
    ensures
        migrated(migrated(c)) == migrated(c),
        migrated(c).foreign_keys,
        migrated(c).tables == c.tables + all_tables(),
        migrated(c).indexes == c.indexes + all_indexes(),
        c.categories.len() == 0 ==> migrated(c).categories == default_categories(),
        c.categories.len() > 0 ==> migrated(c).categories == c.categories,
{
    let c1 = apply_steps(c, schema_plan());
    lemma_apply_schema(c);
    let m = migrated(c);
    if c.categories.len() == 0 {
        lemma_apply_inserts(c1, default_categories());
        assert(c.categories + default_categories() =~= default_categories());
    } else {
        assert(apply_steps(c1, seq![]) == c1);
    }
    let m1 = apply_steps(m, schema_plan());
    lemma_apply_schema(m);
    assert(m1.tables =~= m.tables);
    assert(m1.indexes =~= m.indexes);
    assert(m1 == m);
    assert(m.categories.len() > 0);
    assert(apply_steps(m1, seq![]) == m1);
}

/// The SQL text that creates a table.
pub open spec fn table_sql(t: Table) -> Seq<char> {
    match t {
        Table::Categories => "CREATE TABLE IF NOT EXISTS categories (\n    id INTEGER PRIMARY KEY AUTOINCREMENT,\n    name TEXT NOT NULL,\n    icon TEXT,\n    created_at TEXT NOT NULL DEFAULT (datetime('now')),\n    updated_at TEXT NOT NULL DEFAULT (datetime('now'))\n)"@,
        Table::Transactions => "CREATE TABLE IF NOT EXISTS transactions (\n    id INTEGER PRIMARY KEY AUTOINCREMENT,\n    category_id INTEGER NOT NULL,\n    amount REAL NOT NULL,\n    transaction_date TEXT NOT NULL DEFAULT (datetime('now')),\n    note TEXT,\n    created_at TEXT NOT NULL DEFAULT (datetime('now')),\n    FOREIGN KEY(category_id) REFERENCES categories(id) ON DELETE CASCADE\n)"@,
        Table::Installments => "CREATE TABLE IF NOT EXISTS installments (\n    id INTEGER PRIMARY KEY AUTOINCREMENT,\n    category_id INTEGER NOT NULL,\n    total_amount REAL NOT NULL,\n    installment_count INTEGER NOT NULL,\n    start_date TEXT NOT NULL,\n    note TEXT,\n    created_at TEXT NOT NULL DEFAULT (datetime('now')),\n    FOREIGN KEY(category_id) REFERENCES categories(id) ON DELETE CASCADE\n)"@,
        Table::InstallmentDetails => "CREATE TABLE IF NOT EXISTS installment_details (\n    id INTEGER PRIMARY KEY AUTOINCREMENT,\n    installment_id INTEGER NOT NULL,\n    sequence_number INTEGER NOT NULL,\n    amount REAL NOT NULL,\n    due_date TEXT NOT NULL,\n    is_paid INTEGER NOT NULL DEFAULT 0,\n    paid_date TEXT,\n    FOREIGN KEY(installment_id) REFERENCES installments(id) ON DELETE CASCADE\n)"@,
    }
}

/// The SQL text that creates an index.
pub open spec fn index_sql(i: Index) -> Seq<char> {
    match i {
        Index::TransactionDate => "CREATE INDEX IF NOT EXISTS idx_transactions_date ON transactions(transaction_date)"@,
        Index::TransactionCategory => "CREATE INDEX IF NOT EXISTS idx_transactions_category ON transactions(category_id)"@,
        Index::InstallmentDueDate => "CREATE INDEX IF NOT EXISTS idx_installment_details_due_date ON installment_details(due_date)"@,
    }
}

/// The SQL text of a statement; an insert takes its name and icon as the
/// two parameters.
pub open spec fn step_sql(s: StepModel) -> Seq<char> {
    match s {
        StepModel::EnableForeignKeys => "PRAGMA foreign_keys = ON"@,
        StepModel::CreateTable(t) => table_sql(t),
        StepModel::CreateIndex(i) => index_sql(i),
        StepModel::InsertCategory { .. } => "INSERT INTO categories (name, icon) VALUES (?, ?)"@,
    }
}

/// What a failed statement reports: a note on what failed, then the
/// engine's message.
pub open spec fn step_failure(s: StepModel, engine: Seq<char>) -> Seq<char> {
    match s {
        StepModel::EnableForeignKeys => "Failed to enable foreign keys: "@ + engine,
        StepModel::InsertCategory { .. } => "Failed to insert default category: "@ + engine,
        _ => engine,
    }
}

impl SchemaStep {
    /// The SQL text of this statement.
    pub fn sql(&self) -> (r: &'static str)
        ensures
            r@ == step_sql(self@),
    {
        match self {
            SchemaStep::EnableForeignKeys => "PRAGMA foreign_keys = ON",
            SchemaStep::CreateTable(t) => match t {
                Table::Categories => "CREATE TABLE IF NOT EXISTS categories (\n    id INTEGER PRIMARY KEY AUTOINCREMENT,\n    name TEXT NOT NULL,\n    icon TEXT,\n    created_at TEXT NOT NULL DEFAULT (datetime('now')),\n    updated_at TEXT NOT NULL DEFAULT (datetime('now'))\n)",
                Table::Transactions => "CREATE TABLE IF NOT EXISTS transactions (\n    id INTEGER PRIMARY KEY AUTOINCREMENT,\n    category_id INTEGER NOT NULL,\n    amount REAL NOT NULL,\n    transaction_date TEXT NOT NULL DEFAULT (datetime('now')),\n    note TEXT,\n    created_at TEXT NOT NULL DEFAULT (datetime('now')),\n    FOREIGN KEY(category_id) REFERENCES categories(id) ON DELETE CASCADE\n)",
                Table::Installments => "CREATE TABLE IF NOT EXISTS installments (\n    id INTEGER PRIMARY KEY AUTOINCREMENT,\n    category_id INTEGER NOT NULL,\n    total_amount REAL NOT NULL,\n    installment_count INTEGER NOT NULL,\n    start_date TEXT NOT NULL,\n    note TEXT,\n    created_at TEXT NOT NULL DEFAULT (datetime('now')),\n    FOREIGN KEY(category_id) REFERENCES categories(id) ON DELETE CASCADE\n)",
                Table::InstallmentDetails => "CREATE TABLE IF NOT EXISTS installment_details (\n    id INTEGER PRIMARY KEY AUTOINCREMENT,\n    installment_id INTEGER NOT NULL,\n    sequence_number INTEGER NOT NULL,\n    amount REAL NOT NULL,\n    due_date TEXT NOT NULL,\n    is_paid INTEGER NOT NULL DEFAULT 0,\n    paid_date TEXT,\n    FOREIGN KEY(installment_id) REFERENCES installments(id) ON DELETE CASCADE\n)",
            },
            SchemaStep::CreateIndex(i) => match i {
                Index::TransactionDate => "CREATE INDEX IF NOT EXISTS idx_transactions_date ON transactions(transaction_date)",
                Index::TransactionCategory => "CREATE INDEX IF NOT EXISTS idx_transactions_category ON transactions(category_id)",
                Index::InstallmentDueDate => "CREATE INDEX IF NOT EXISTS idx_installment_details_due_date ON installment_details(due_date)",
            },
            SchemaStep::InsertCategory { .. } => "INSERT INTO categories (name, icon) VALUES (?, ?)",
        }
    }

    /// The parameters bound to this statement, in order.
    pub fn params(&self) -> (r: Vec<String>)
        ensures
            r@.map_values(|p: String| p@) == match self@ {
                StepModel::InsertCategory { name, icon } => seq![name, icon],
                _ => seq![],
            },
    {
        let mut r: Vec<String> = Vec::new();
        match self {
            SchemaStep::InsertCategory { name, icon } => {
                r.push(name.clone());
                r.push(icon.clone());
            },
            _ => {},
        }
        assert(r@.map_values(|p: String| p@) =~= match self@ {
            StepModel::InsertCategory { name, icon } => seq![name, icon],
            _ => seq![],
        });
        r
    }

    /// What to report when the engine refuses this statement with `engine`.
    pub fn failure_message(&self, engine: &str) -> (r: String)
        ensures
            r@ == step_failure(self@, engine@),
    {
        match self {
            SchemaStep::EnableForeignKeys => concat("Failed to enable foreign keys: ", engine),
            SchemaStep::InsertCategory { .. } => concat("Failed to insert default category: ", engine),
            _ => String::from_str(engine),
        }
    }
}

/// Query that counts the categories.
pub fn category_count_query() -> (r: &'static str)
    ensures
        r@ == "SELECT COUNT(*) FROM categories"@,
{
    "SELECT COUNT(*) FROM categories"
}

/// The statements that every migration runs, in order.
pub fn schema_steps() -> (r: Vec<SchemaStep>)
    ensures
        r@.map_values(|s: SchemaStep| s@) == schema_plan(),
{
    let mut r: Vec<SchemaStep> = Vec::new();
    r.push(SchemaStep::EnableForeignKeys);
    r.push(SchemaStep::CreateTable(Table::Categories));
    r.push(SchemaStep::CreateTable(Table::Transactions));
    r.push(SchemaStep::CreateTable(Table::Installments));
    r.push(SchemaStep::CreateTable(Table::InstallmentDetails));
    r.push(SchemaStep::CreateIndex(Index::TransactionDate));
    r.push(SchemaStep::CreateIndex(Index::TransactionCategory));
    r.push(SchemaStep::CreateIndex(Index::InstallmentDueDate));
    assert(r@.map_values(|s: SchemaStep| s@) =~= schema_plan());
    r
}

/// The seeding statements, given the category count that was read after the
/// tables were created (`None` when no count could be read, which counts as
/// an empty table).
pub fn seed_steps(category_count: Option<i64>) -> (r: Vec<SchemaStep>)
    ensures
        r@.map_values(|s: SchemaStep| s@) == seed_plan(
            match category_count {
                Some(n) => n as int,
                None => 0,
            },
        ),
{
    let mut r: Vec<SchemaStep> = Vec::new();
    let empty = match category_count {
        Some(n) => n == 0,
        None => true,
    };
    if empty {
        r.push(SchemaStep::InsertCategory { name: String::from_str("食物"), icon: String::from_str("🍔") });
        r.push(SchemaStep::InsertCategory { name: String::from_str("交通"), icon: String::from_str("🚗") });
        r.push(SchemaStep::InsertCategory { name: String::from_str("日用品"), icon: String::from_str("🛒") });
        r.push(SchemaStep::InsertCategory { name: String::from_str("孩子"), icon: String::from_str("👶") });
        r.push(SchemaStep::InsertCategory { name: String::from_str("学习"), icon: String::from_str("📚") });
        r.push(SchemaStep::InsertCategory { name: String::from_str("其它"), icon: String::from_str("📦") });
        assert(r@.map_values(|s: SchemaStep| s@) =~= inserts_of(default_categories()));
    } else {
        assert(r@.map_values(|s: SchemaStep| s@) =~= seq![]);
    }
    r
}

} // verus!
