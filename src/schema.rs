//! The description of the tables and columns that prompts are built from,
//! and the fixed description used when the store cannot be introspected.

use vstd::prelude::*;

verus! {

broadcast use vstd::string::group_string_axioms;

/// One column of a table: its name, declared type and whether it admits NULL.
pub struct ColumnDescriptor {
    pub name: String,
    pub declared_type: String,
    pub nullable: bool,
}

/// A table with its columns in source order.
pub struct TableSchema {
    pub name: String,
    pub columns: Vec<ColumnDescriptor>,
}

/// The tables of the store, each name once.
pub struct SchemaDescription {
    pub tables: Vec<TableSchema>,
}

pub type ColumnView = (Seq<char>, Seq<char>, bool);

pub type TableView = (Seq<char>, Seq<ColumnView>);

impl View for ColumnDescriptor {
    type V = ColumnView;

    open spec fn view(&self) -> ColumnView {
        (self.name@, self.declared_type@, self.nullable)
    }
}

pub open spec fn columns_view(cs: Seq<ColumnDescriptor>) -> Seq<ColumnView> {
    cs.map_values(|c: ColumnDescriptor| c@)
}

impl View for TableSchema {
    type V = TableView;

    open spec fn view(&self) -> TableView {
        (self.name@, columns_view(self.columns@))
    }
}

impl View for SchemaDescription {
    type V = Seq<TableView>;

    open spec fn view(&self) -> Seq<TableView> {
        self.tables@.map_values(|t: TableSchema| t@)
    }
}

/// No table name occurs twice.
pub open spec fn tables_unique(s: Seq<TableView>) -> bool {
    forall|i: int, j: int| 0 <= i < j < s.len() ==> s[i].0 != s[j].0
}

impl SchemaDescription {
    pub open spec fn wf(&self) -> bool {
        tables_unique(self@)
    }

    /// A description with no tables.
    pub fn new() -> (r: SchemaDescription)
        ensures
            r@ == Seq::<TableView>::empty(),
            r.wf(),
    {
        let r = SchemaDescription { tables: Vec::new() };
        assert(r@ =~= Seq::<TableView>::empty());
        r
    }

    pub fn is_empty(&self) -> (r: bool)
        ensures
            r == (self@.len() == 0),
    {
        self.tables.len() == 0
    }

    /// Adds a table, or replaces the columns of the table of that name.
    pub fn insert_table(&mut self, name: String, columns: Vec<ColumnDescriptor>)
        requires
            old(self).wf(),
        ensures
            final(self).wf(),
            ({
                let t = (name@, columns_view(columns@));
                match table_index(old(self)@, name@) {
                    Some(i) => final(self)@ == old(self)@.update(i, t),
                    None => final(self)@ == old(self)@.push(t),
                }
            }),
    {
        let ghost before = self@;
        let mut j: usize = 0;
        while j < self.tables.len()
            invariant
                j <= self.tables@.len(),
                self@ == before,
                before == old(self)@,
                tables_unique(before),
                forall|a: int| 0 <= a < j ==> before[a].0 != name@,
            decreases self.tables.len() - j,
        {
            if self.tables[j].name == name {
                proof {
                    lemma_first_name(before, name@, j as int);
                }
                self.tables.set(j, TableSchema { name, columns });
                proof {
                    assert(self@ =~= before.update(
                        j as int,
                        (name@, columns_view(columns@)),
                    ));
                    assert(table_index(before, name@) == Some(j as int));
                    assert(before[j as int].0 == name@);
                    assert forall|a: int| 0 <= a < self@.len() implies self@[a].0 == before[a].0 by {}
                    assert(tables_unique(self@));
                }
                return;
            }
            j = j + 1;
        }
        proof {
            lemma_no_name(before, name@);
        }
        self.tables.push(TableSchema { name, columns });
        proof {
            assert(self@ =~= before.push((name@, columns_view(columns@))));
        }
    }
}

/// The first position at or after `i` of the table named `k`.
pub open spec fn first_name_from(s: Seq<TableView>, k: Seq<char>, i: int) -> Option<int>
    decreases s.len() - i,
{
    if i < 0 || i >= s.len() {
        None
    } else if s[i].0 == k {
        Some(i)
    } else {
        first_name_from(s, k, i + 1)
    }
}

/// The position of the table named `k`, if any.
pub open spec fn table_index(s: Seq<TableView>, k: Seq<char>) -> Option<int> {
    first_name_from(s, k, 0)
}

proof fn lemma_first_name(s: Seq<TableView>, k: Seq<char>, j: int)
    requires
        0 <= j < s.len(),
        s[j].0 == k,
        forall|a: int| 0 <= a < j ==> s[a].0 != k,
    ensures
        first_name_from(s, k, 0) == Some(j),
{
    lemma_first_name_from(s, k, 0, j);
}

proof fn lemma_first_name_from(s: Seq<TableView>, k: Seq<char>, x: int, j: int)
    requires
        0 <= x <= j < s.len(),
        s[j].0 == k,
        forall|a: int| 0 <= a < j ==> s[a].0 != k,
    ensures
        first_name_from(s, k, x) == Some(j),
    decreases j - x,
{
    if x < j {
        lemma_first_name_from(s, k, x + 1, j);
    }
}

proof fn lemma_no_name(s: Seq<TableView>, k: Seq<char>)
    requires
        forall|a: int| 0 <= a < s.len() ==> s[a].0 != k,
    ensures
        first_name_from(s, k, 0).is_none(),
{
    lemma_no_name_from(s, k, 0);
}

proof fn lemma_no_name_from(s: Seq<TableView>, k: Seq<char>, x: int)
    requires
        0 <= x,
        forall|a: int| 0 <= a < s.len() ==> s[a].0 != k,
    ensures
        first_name_from(s, k, x).is_none(),
    decreases s.len() - x,
{
    if x < s.len() {
        lemma_no_name_from(s, k, x + 1);
    }
}

/// A column as the store's catalog reports it: nullable when the catalog's
/// `is_nullable` reads `YES`.
pub fn column_from_catalog(name: String, data_type: String, is_nullable: &str) -> (r: ColumnDescriptor)
    ensures
        r@ == (name@, data_type@, is_nullable@ == "YES"@),
{
    let yes = String::from_str("YES");
    let flag = String::from_str(is_nullable);
    ColumnDescriptor { name, declared_type: data_type, nullable: flag == yes }
}

/// The columns of the fixed description's one table.
pub open spec fn fallback_columns() -> Seq<ColumnView> {
    seq![
        ("id"@, "integer"@, false),
        ("model"@, "varchar(50)"@, false),
        ("mpg"@, "numeric(5,1)"@, true),
        ("cyl"@, "integer"@, true),
        ("disp"@, "numeric(6,1)"@, true),
        ("hp"@, "integer"@, true),
        ("drat"@, "numeric(4,2)"@, true),
        ("wt"@, "numeric(5,3)"@, true),
        ("qsec"@, "numeric(5,2)"@, true),
        ("vs"@, "integer"@, true),
        ("am"@, "integer"@, true),
        ("gear"@, "integer"@, true),
        ("carb"@, "integer"@, true),
    ]
}

/// The fixed description: the one `cars` table.
pub open spec fn fallback_schema() -> Seq<TableView> {
    seq![("cars"@, fallback_columns())]
}

fn column(name: &str, declared_type: &str, nullable: bool) -> (r: ColumnDescriptor)
    ensures
        r@ == (name@, declared_type@, nullable),
{
    ColumnDescriptor {
        name: String::from_str(name),
        declared_type: String::from_str(declared_type),
        nullable,
    }
}

/// The fixed description used when the store cannot be introspected.
pub fn get_hardcoded_schema() -> (r: SchemaDescription)
    ensures
        r@ == fallback_schema(),
        r.wf(),
{
    let mut columns: Vec<ColumnDescriptor> = Vec::new();
    columns.push(column("id", "integer", false));
    columns.push(column("model", "varchar(50)", false));
    columns.push(column("mpg", "numeric(5,1)", true));
    columns.push(column("cyl", "integer", true));
    columns.push(column("disp", "numeric(6,1)", true));
    columns.push(column("hp", "integer", true));
    columns.push(column("drat", "numeric(4,2)", true));
    columns.push(column("wt", "numeric(5,3)", true));
    columns.push(column("qsec", "numeric(5,2)", true));
    columns.push(column("vs", "integer", true));
    columns.push(column("am", "integer", true));
    columns.push(column("gear", "integer", true));
    columns.push(column("carb", "integer", true));
    assert(columns_view(columns@) =~= fallback_columns());
    let mut tables: Vec<TableSchema> = Vec::new();
    tables.push(TableSchema { name: String::from_str("cars"), columns });
    let r = SchemaDescription { tables };
    assert(r@ =~= fallback_schema());
    r
}

/// The schema handed to the translator: the introspected one when the
/// attempt succeeded as a whole, else the fixed description. Never fails.
pub fn schema_or_fallback(introspected: Option<SchemaDescription>) -> (r: SchemaDescription)
    ensures
        match introspected {
            Some(s) => r@ == s@,
            None => r@ == fallback_schema(),
        },
{
    match introspected {
        Some(s) => s,
        None => get_hardcoded_schema(),
    }
}

} // verus!
