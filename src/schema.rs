//! The fixed schema of the catalog store and the statements that create it.
use vstd::prelude::*;

verus! {

/// Storage class of a column.
#[derive(Clone, Copy, Debug, PartialEq, Eq, Structural)]
pub enum ColumnType {
    Integer,
    Text,
}

/// A column of a table.
#[derive(Debug)]
pub struct Column {
    pub name: String,
    pub column_type: ColumnType,
    /// Whether the column may hold NULL.
    pub nullable: bool,
}

/// A column of a table that must match a column of another table.
#[derive(Debug)]
pub struct ForeignKey {
    pub column: String,
    pub table: String,
    pub referenced: String,
}

/// A table: its columns, the columns of its primary key, and its foreign keys.
#[derive(Debug)]
pub struct Table {
    pub name: String,
    pub columns: Vec<Column>,
    pub primary_key: Vec<String>,
    pub foreign_keys: Vec<ForeignKey>,
}

pub struct ColumnModel {
    pub name: Seq<char>,
    pub column_type: ColumnType,
    pub nullable: bool,
}

pub struct ForeignKeyModel {
    pub column: Seq<char>,
    pub table: Seq<char>,
    pub referenced: Seq<char>,
}

pub struct TableModel {
    pub name: Seq<char>,
    pub columns: Seq<ColumnModel>,
    pub primary_key: Seq<Seq<char>>,
    pub foreign_keys: Seq<ForeignKeyModel>,
}

pub open spec fn string_views(s: Seq<String>) -> Seq<Seq<char>> {
    s.map_values(|x: String| x@)
}

impl View for Column {
    type V = ColumnModel;

    open spec fn view(&self) -> ColumnModel {
        ColumnModel { name: self.name@, column_type: self.column_type, nullable: self.nullable }
    }
}

impl View for ForeignKey {
    type V = ForeignKeyModel;

    open spec fn view(&self) -> ForeignKeyModel {
        ForeignKeyModel { column: self.column@, table: self.table@, referenced: self.referenced@ }
    }
}

impl View for Table {
    type V = TableModel;

    open spec fn view(&self) -> TableModel {
        TableModel {
            name: self.name@,
            columns: self.columns@.map_values(|c: Column| c@),
            primary_key: string_views(self.primary_key@),
            foreign_keys: self.foreign_keys@.map_values(|f: ForeignKey| f@),
        }
    }
}

pub open spec fn table_views(ts: Seq<Table>) -> Seq<TableModel> {
    ts.map_values(|t: Table| t@)
}

/// The items joined, with `sep` between each two neighbours.
pub open spec fn joined(items: Seq<Seq<char>>, sep: Seq<char>) -> Seq<char>
    decreases items.len(),
{
    if items.len() == 0 {
        Seq::empty()
    } else if items.len() == 1 {
        items[0]
    } else {
        joined(items.drop_last(), sep) + sep + items.last()
    }
}

pub open spec fn type_sql(t: ColumnType) -> Seq<char> {
    match t {
        ColumnType::Integer => "INTEGER"@,
        ColumnType::Text => "TEXT"@,
    }
}

/// `name TYPE`, followed by ` NOT NULL` for a column that must hold a value.
pub open spec fn column_sql(c: ColumnModel) -> Seq<char> {
    c.name + " "@ + type_sql(c.column_type) + if c.nullable {
        Seq::empty()
    } else {
        " NOT NULL"@
    }
}

pub open spec fn primary_key_sql(columns: Seq<Seq<char>>) -> Seq<char> {
    "PRIMARY KEY("@ + joined(columns, ", "@) + ")"@
}

pub open spec fn foreign_key_sql(f: ForeignKeyModel) -> Seq<char> {
    "FOREIGN KEY("@ + f.column + ") REFERENCES "@ + f.table + "("@ + f.referenced + ")"@
}

pub open spec fn column_clauses(cs: Seq<ColumnModel>) -> Seq<Seq<char>> {
    cs.map_values(|c: ColumnModel| column_sql(c))
}

pub open spec fn foreign_key_clauses(fs: Seq<ForeignKeyModel>) -> Seq<Seq<char>> {
    fs.map_values(|f: ForeignKeyModel| foreign_key_sql(f))
}

/// The definitions inside a table's parentheses: its columns, its primary key
/// (where it has one), then its foreign keys.
pub open spec fn table_clauses(t: TableModel) -> Seq<Seq<char>> {
    column_clauses(t.columns) + (if t.primary_key.len() > 0 {
        seq![primary_key_sql(t.primary_key)]
    } else {
        Seq::empty()
    }) + foreign_key_clauses(t.foreign_keys)
}

/// The statement that creates table `t`.
pub open spec fn table_sql(t: TableModel) -> Seq<char> {
    "CREATE TABLE "@ + t.name + " ("@ + joined(table_clauses(t), ", "@) + ");"@
}

/// The statements that create the tables, one per line.
pub open spec fn schema_sql(ts: Seq<TableModel>) -> Seq<char> {
    joined(ts.map_values(|t: TableModel| table_sql(t)), "\n"@)
}

/// Joins the strings with `sep` between neighbours.
pub fn join(items: &Vec<String>, sep: &str) -> (r: String)
    ensures
        r@ == joined(string_views(items@), sep@),
{
    let mut r = String::new();
    let mut i: usize = 0;
    while i < items.len()
        invariant
            0 <= i <= items.len(),
            r@ == joined(string_views(items@).take(i as int), sep@),
        decreases items.len() - i,
    {
        let ghost before = r@;
        if i > 0 {
            r.append(sep);
        }
        r.append(items[i].as_str());
        proof {
            let v = string_views(items@);
            assert(v.take(i + 1).drop_last() =~= v.take(i as int));
            if i == 0 {
                assert(before =~= Seq::<char>::empty());
                assert(r@ =~= v.take(1)[0]);
            }
        }
        i += 1;
    }
    assert(string_views(items@).take(items.len() as int) =~= string_views(items@));
    r
}

fn type_text(t: ColumnType) -> (r: &'static str)
    ensures
        r@ == type_sql(t),
{
    match t {
        ColumnType::Integer => "INTEGER",
        ColumnType::Text => "TEXT",
    }
}

/// The definition of one column.
pub fn column_definition(c: &Column) -> (r: String)
    ensures
        r@ == column_sql(c@),
{
    let mut r = c.name.clone();
    r.append(" ");
    r.append(type_text(c.column_type));
    if !c.nullable {
        r.append(" NOT NULL");
    } else {
        assert(r@ =~= r@ + Seq::<char>::empty());
    }
    r
}

/// The primary-key clause over the given columns.
pub fn primary_key_definition(columns: &Vec<String>) -> (r: String)
    ensures
        r@ == primary_key_sql(string_views(columns@)),
{
    let mut r = String::from_str("PRIMARY KEY(");
    let inner = join(columns, ", ");
    r.append(inner.as_str());
    r.append(")");
    r
}

/// The clause of one foreign key.
pub fn foreign_key_definition(f: &ForeignKey) -> (r: String)
    ensures
        r@ == foreign_key_sql(f@),
{
    let mut r = String::from_str("FOREIGN KEY(");
    r.append(f.column.as_str());
    r.append(") REFERENCES ");
    r.append(f.table.as_str());
    r.append("(");
    r.append(f.referenced.as_str());
    r.append(")");
    r
}

/// The statement that creates the table.
pub fn create_table_sql(t: &Table) -> (r: String)
    ensures
        r@ == table_sql(t@),
{
    let mut clauses: Vec<String> = Vec::new();
    let mut i: usize = 0;
    while i < t.columns.len()
        invariant
            0 <= i <= t.columns.len(),
            string_views(clauses@) =~= column_clauses(t@.columns.take(i as int)),
        decreases t.columns.len() - i,
    {
        let ghost prev = clauses@;
        let c = column_definition(&t.columns[i]);
        clauses.push(c);
        proof {
            let cs = t@.columns;
            assert(string_views(clauses@) =~= string_views(prev).push(column_sql(cs[i as int])));
            assert(cs.take(i + 1) =~= cs.take(i as int).push(cs[i as int]));
            assert(column_clauses(cs.take(i + 1)) =~= column_clauses(cs.take(i as int)).push(
                column_sql(cs[i as int]),
            ));
        }
        i += 1;
    }
    assert(t@.columns.take(t.columns.len() as int) =~= t@.columns);
    let ghost after_columns = string_views(clauses@);
    if t.primary_key.len() > 0 {
        let k = primary_key_definition(&t.primary_key);
        clauses.push(k);
    }
    let ghost after_key = string_views(clauses@);
    let mut j: usize = 0;
    while j < t.foreign_keys.len()
        invariant
            0 <= j <= t.foreign_keys.len(),
            string_views(clauses@) =~= after_key + foreign_key_clauses(t@.foreign_keys.take(j as int)),
        decreases t.foreign_keys.len() - j,
    {
        let ghost prev = clauses@;
        let f = foreign_key_definition(&t.foreign_keys[j]);
        clauses.push(f);
        proof {
            let fs = t@.foreign_keys;
            assert(string_views(clauses@) =~= string_views(prev).push(foreign_key_sql(fs[j as int])));
            assert(fs.take(j + 1) =~= fs.take(j as int).push(fs[j as int]));
            assert(foreign_key_clauses(fs.take(j + 1)) =~= foreign_key_clauses(fs.take(j as int)).push(
                foreign_key_sql(fs[j as int]),
            ));
        }
        j += 1;
    }
    assert(t@.foreign_keys.take(t.foreign_keys.len() as int) =~= t@.foreign_keys);
    assert(string_views(clauses@) =~= table_clauses(t@));
    let mut r = String::from_str("CREATE TABLE ");
    r.append(t.name.as_str());
    r.append(" (");
    let body = join(&clauses, ", ");
    r.append(body.as_str());
    r.append(");");
    r
}

/// The statements that create the tables, one per line.
pub fn schema_statements(tables: &Vec<Table>) -> (r: String)
    ensures
        r@ == schema_sql(table_views(tables@)),
{
    let mut statements: Vec<String> = Vec::new();
    let mut i: usize = 0;
    while i < tables.len()
        invariant
            0 <= i <= tables.len(),
            string_views(statements@) =~= table_views(tables@).take(i as int).map_values(
                |t: TableModel| table_sql(t),
            ),
        decreases tables.len() - i,
    {
        let ghost prev = statements@;
        let s = create_table_sql(&tables[i]);
        statements.push(s);
        proof {
            let ts = table_views(tables@);
            assert(string_views(statements@) =~= string_views(prev).push(table_sql(ts[i as int])));
            assert(ts.take(i + 1) =~= ts.take(i as int).push(ts[i as int]));
            assert(ts.take(i + 1).map_values(|t: TableModel| table_sql(t)) =~= ts.take(
                i as int,
            ).map_values(|t: TableModel| table_sql(t)).push(table_sql(ts[i as int])));
        }
        i += 1;
    }
    assert(table_views(tables@).take(tables.len() as int) =~= table_views(tables@));
    join(&statements, "\n")
}

pub open spec fn column_model(name: Seq<char>, column_type: ColumnType, nullable: bool) -> ColumnModel {
    ColumnModel { name, column_type, nullable }
}

/// An entry of the catalog, keyed by its id.
pub open spec fn entry_table_model() -> TableModel {
    TableModel {
        name: "Entry"@,
        columns: seq![
            column_model("id"@, ColumnType::Integer, false),
            column_model("cover_type"@, ColumnType::Text, false),
            column_model("media_id"@, ColumnType::Integer, false),
            column_model("num_favorites"@, ColumnType::Integer, false),
            column_model("num_pages"@, ColumnType::Integer, false),
            column_model("page_types"@, ColumnType::Text, false),
            column_model("scanlator"@, ColumnType::Text, true),
            column_model("title_english"@, ColumnType::Text, true),
            column_model("title_japanese"@, ColumnType::Text, true),
            column_model("title_pretty"@, ColumnType::Text, true),
            column_model("upload_date"@, ColumnType::Text, false),
        ],
        primary_key: seq!["id"@],
        foreign_keys: Seq::empty(),
    }
}

/// A tag, keyed by its id.
pub open spec fn tag_table_model() -> TableModel {
    TableModel {
        name: "Tag"@,
        columns: seq![
            column_model("id"@, ColumnType::Integer, false),
            column_model("name"@, ColumnType::Text, false),
            column_model("type"@, ColumnType::Text, false),
            column_model("url"@, ColumnType::Text, false),
        ],
        primary_key: seq!["id"@],
        foreign_keys: Seq::empty(),
    }
}

/// The relation between entries and tags: one row per pair, each side
/// referring to an existing row.
pub open spec fn entry_tag_table_model() -> TableModel {
    TableModel {
        name: "Entry_Tag"@,
        columns: seq![
            column_model("entry_id"@, ColumnType::Integer, false),
            column_model("tag_id"@, ColumnType::Integer, false),
        ],
        primary_key: seq!["entry_id"@, "tag_id"@],
        foreign_keys: seq![
            ForeignKeyModel { column: "entry_id"@, table: "Entry"@, referenced: "id"@ },
            ForeignKeyModel { column: "tag_id"@, table: "Tag"@, referenced: "id"@ },
        ],
    }
}

/// The tables that a new store is created with.
pub open spec fn catalog_model() -> Seq<TableModel> {
    seq![entry_table_model(), tag_table_model(), entry_tag_table_model()]
}

fn column(name: &str, column_type: ColumnType, nullable: bool) -> (r: Column)
    ensures
        r@ == column_model(name@, column_type, nullable),
{
    Column { name: String::from_str(name), column_type, nullable }
}

fn foreign_key(column: &str, table: &str, referenced: &str) -> (r: ForeignKey)
    ensures
        r@ == (ForeignKeyModel { column: column@, table: table@, referenced: referenced@ }),
{
    ForeignKey {
        column: String::from_str(column),
        table: String::from_str(table),
        referenced: String::from_str(referenced),
    }
}

fn entry_table() -> (r: Table)
    ensures
        r@ == entry_table_model(),
{
    let columns = vec![
        column("id", ColumnType::Integer, false),
        column("cover_type", ColumnType::Text, false),
        column("media_id", ColumnType::Integer, false),
        column("num_favorites", ColumnType::Integer, false),
        column("num_pages", ColumnType::Integer, false),
        column("page_types", ColumnType::Text, false),
        column("scanlator", ColumnType::Text, true),
        column("title_english", ColumnType::Text, true),
        column("title_japanese", ColumnType::Text, true),
        column("title_pretty", ColumnType::Text, true),
        column("upload_date", ColumnType::Text, false),
    ];
    let r = Table {
        name: String::from_str("Entry"),
        columns,
        primary_key: vec![String::from_str("id")],
        foreign_keys: Vec::new(),
    };
    assert(r@.columns =~= entry_table_model().columns);
    assert(r@.primary_key =~= entry_table_model().primary_key);
    assert(r@.foreign_keys =~= entry_table_model().foreign_keys);
    r
}

fn tag_table() -> (r: Table)
    ensures
        r@ == tag_table_model(),
{
    let columns = vec![
        column("id", ColumnType::Integer, false),
        column("name", ColumnType::Text, false),
        column("type", ColumnType::Text, false),
        column("url", ColumnType::Text, false),
    ];
    let r = Table {
        name: String::from_str("Tag"),
        columns,
        primary_key: vec![String::from_str("id")],
        foreign_keys: Vec::new(),
    };
    assert(r@.columns =~= tag_table_model().columns);
    assert(r@.primary_key =~= tag_table_model().primary_key);
    assert(r@.foreign_keys =~= tag_table_model().foreign_keys);
    r
}

fn entry_tag_table() -> (r: Table)
    ensures
        r@ == entry_tag_table_model(),
{
    let columns = vec![
        column("entry_id", ColumnType::Integer, false),
        column("tag_id", ColumnType::Integer, false),
    ];
    let r = Table {
        name: String::from_str("Entry_Tag"),
        columns,
        primary_key: vec![String::from_str("entry_id"), String::from_str("tag_id")],
        foreign_keys: vec![foreign_key("entry_id", "Entry", "id"), foreign_key("tag_id", "Tag", "id")],
    };
    assert(r@.columns =~= entry_tag_table_model().columns);
    assert(r@.primary_key =~= entry_tag_table_model().primary_key);
    assert(r@.foreign_keys =~= entry_tag_table_model().foreign_keys);
    r
}

/// The tables of a new store: `Entry`, `Tag` and `Entry_Tag`.
pub fn catalog_tables() -> (r: Vec<Table>)
    ensures
        table_views(r@) == catalog_model(),
{
    let r = vec![entry_table(), tag_table(), entry_tag_table()];
    assert(table_views(r@) =~= catalog_model());
    r
}

/// The statements that create the tables of a new store.
pub fn create_schema_sql() -> (r: String)
    ensures
        r@ == schema_sql(catalog_model()),
{
    let tables = catalog_tables();
    schema_statements(&tables)
}

pub open spec fn has_column(t: TableModel, name: Seq<char>) -> bool {
    exists|k: int| 0 <= k < t.columns.len() && (#[trigger] t.columns[k]).name == name && !t.columns[k].nullable
}

/// Whether the tables form a consistent schema: names of tables are distinct,
/// every table has a primary key over columns of its own that must hold a
/// value, and every foreign key joins such a column to the one-column primary
/// key of a table of the schema.
pub open spec fn well_formed(ts: Seq<TableModel>) -> bool {
    &&& forall|a: int, b: int| 0 <= a < b < ts.len() ==> (#[trigger] ts[a]).name != (#[trigger] ts[b]).name
    &&& forall|a: int| 0 <= a < ts.len() ==> (#[trigger] ts[a]).primary_key.len() > 0
    &&& forall|a: int, k: int|
        0 <= a < ts.len() && 0 <= k < ts[a].primary_key.len() ==> has_column(
            ts[a],
            #[trigger] ts[a].primary_key[k],
        )
    &&& forall|a: int, f: int|
        0 <= a < ts.len() && 0 <= f < ts[a].foreign_keys.len() ==> {
            let fk = #[trigger] ts[a].foreign_keys[f];
            &&& has_column(ts[a], fk.column)
            &&& exists|b: int|
                0 <= b < ts.len() && (#[trigger] ts[b]).name == fk.table && ts[b].primary_key
                    == seq![fk.referenced]
        }
}

/// The catalog is a consistent schema: entries and tags are keyed by their id,
/// and the relation by the pair of ids, each referring to an existing row.
pub proof fn lemma_catalog_well_formed()
    ensures
        well_formed(catalog_model()),
{
    let ts = catalog_model();
    let e = entry_table_model();
    let t = tag_table_model();
    let r = entry_tag_table_model();
    reveal_strlit("Entry");
    reveal_strlit("Tag");
    reveal_strlit("Entry_Tag");
    assert(has_column(e, "id"@)) by {
        assert(e.columns[0].name == "id"@);
    }
    assert(has_column(t, "id"@)) by {
        assert(t.columns[0].name == "id"@);
    }
    assert(has_column(r, "entry_id"@)) by {
        assert(r.columns[0].name == "entry_id"@);
    }
    assert(has_column(r, "tag_id"@)) by {
        assert(r.columns[1].name == "tag_id"@);
    }
    assert(ts[0].primary_key == seq!["id"@]);
    assert(ts[1].primary_key == seq!["id"@]);
    assert(ts[2].foreign_keys[0].table == ts[0].name);
    assert(ts[2].foreign_keys[1].table == ts[1].name);
}

} // verus!
