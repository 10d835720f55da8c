use catalog_store::schema::{
    catalog_tables, column_definition, create_schema_sql, create_table_sql, foreign_key_definition,
    join, primary_key_definition, schema_statements, Column, ColumnType, ForeignKey, Table,
};

const ENTRY_SQL: &str = "CREATE TABLE Entry (id INTEGER NOT NULL, cover_type TEXT NOT NULL, \
media_id INTEGER NOT NULL, num_favorites INTEGER NOT NULL, num_pages INTEGER NOT NULL, \
page_types TEXT NOT NULL, scanlator TEXT, title_english TEXT, title_japanese TEXT, \
title_pretty TEXT, upload_date TEXT NOT NULL, PRIMARY KEY(id));";

const TAG_SQL: &str = "CREATE TABLE Tag (id INTEGER NOT NULL, name TEXT NOT NULL, \
type TEXT NOT NULL, url TEXT NOT NULL, PRIMARY KEY(id));";

const ENTRY_TAG_SQL: &str = "CREATE TABLE Entry_Tag (entry_id INTEGER NOT NULL, \
tag_id INTEGER NOT NULL, PRIMARY KEY(entry_id, tag_id), \
FOREIGN KEY(entry_id) REFERENCES Entry(id), FOREIGN KEY(tag_id) REFERENCES Tag(id));";

#[test]
fn schema_creates_exactly_the_three_tables() {
    let expected = format!("{}\n{}\n{}", ENTRY_SQL, TAG_SQL, ENTRY_TAG_SQL);
    assert_eq!(create_schema_sql(), expected);
}

#[test]
fn catalog_tables_and_columns() {
    let tables = catalog_tables();
    let names: Vec<&str> = tables.iter().map(|t| t.name.as_str()).collect();
    assert_eq!(names, vec!["Entry", "Tag", "Entry_Tag"]);
    let entry: Vec<&str> = tables[0].columns.iter().map(|c| c.name.as_str()).collect();
    assert_eq!(
        entry,
        vec![
            "id",
            "cover_type",
            "media_id",
            "num_favorites",
            "num_pages",
            "page_types",
            "scanlator",
            "title_english",
            "title_japanese",
            "title_pretty",
            "upload_date"
        ]
    );
    let nullable: Vec<&str> =
        tables[0].columns.iter().filter(|c| c.nullable).map(|c| c.name.as_str()).collect();
    assert_eq!(nullable, vec!["scanlator", "title_english", "title_japanese", "title_pretty"]);
    assert_eq!(tables[2].primary_key, vec!["entry_id".to_string(), "tag_id".to_string()]);
    assert_eq!(tables[2].foreign_keys.len(), 2);
    assert_eq!(create_table_sql(&tables[1]), TAG_SQL);
    assert_eq!(create_table_sql(&tables[2]), ENTRY_TAG_SQL);
}

#[test]
fn join_puts_separator_between_neighbours() {
    assert_eq!(join(&vec![], ", "), "");
    assert_eq!(join(&vec!["a".to_string()], ", "), "a");
    assert_eq!(join(&vec!["a".to_string(), "b".to_string(), "c".to_string()], ", "), "a, b, c");
}

#[test]
fn column_clauses() {
    let c = Column { name: "title".to_string(), column_type: ColumnType::Text, nullable: true };
    assert_eq!(column_definition(&c), "title TEXT");
    let c = Column { name: "n".to_string(), column_type: ColumnType::Integer, nullable: false };
    assert_eq!(column_definition(&c), "n INTEGER NOT NULL");
    assert_eq!(primary_key_definition(&vec!["a".to_string(), "b".to_string()]), "PRIMARY KEY(a, b)");
    let f = ForeignKey { column: "x".to_string(), table: "T".to_string(), referenced: "id".to_string() };
    assert_eq!(foreign_key_definition(&f), "FOREIGN KEY(x) REFERENCES T(id)");
}

#[test]
fn table_without_key_and_empty_schema() {
    let t = Table {
        name: "Log".to_string(),
        columns: vec![Column { name: "line".to_string(), column_type: ColumnType::Text, nullable: true }],
        primary_key: vec![],
        foreign_keys: vec![],
    };
    assert_eq!(create_table_sql(&t), "CREATE TABLE Log (line TEXT);");
    assert_eq!(schema_statements(&vec![]), "");
    assert_eq!(schema_statements(&vec![t]), "CREATE TABLE Log (line TEXT);");
}
