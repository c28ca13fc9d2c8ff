use nl2sql::prompt::{default_model, format_schema_for_prompt, generate_prompt, resolve_model, system_prompt};
use nl2sql::schema::{column_from_catalog, get_hardcoded_schema, schema_or_fallback, ColumnDescriptor, SchemaDescription};

fn col(name: &str, ty: &str) -> ColumnDescriptor {
    ColumnDescriptor { name: name.to_string(), declared_type: ty.to_string(), nullable: true }
}

#[test]
fn hardcoded_schema_is_cars() {
    let s = get_hardcoded_schema();
    assert_eq!(s.tables.len(), 1);
    assert_eq!(s.tables[0].name, "cars");
    assert_eq!(s.tables[0].columns.len(), 13);
    assert_eq!(s.tables[0].columns[0].name, "id");
    assert!(!s.tables[0].columns[0].nullable);
    assert_eq!(s.tables[0].columns[2].declared_type, "numeric(5,1)");
    assert_eq!(s.tables[0].columns[12].name, "carb");
}

#[test]
fn unreachable_introspection_falls_back() {
    let s = schema_or_fallback(None);
    assert_eq!(s.tables.len(), 1);
    assert_eq!(s.tables[0].name, "cars");
    let mut live = SchemaDescription::new();
    live.insert_table("trucks".to_string(), vec![col("id", "integer")]);
    let s = schema_or_fallback(Some(live));
    assert_eq!(s.tables[0].name, "trucks");
}

#[test]
fn insert_table_replaces_same_name() {
    let mut s = SchemaDescription::new();
    assert!(s.is_empty());
    s.insert_table("a".to_string(), vec![col("x", "integer")]);
    s.insert_table("b".to_string(), vec![]);
    s.insert_table("a".to_string(), vec![col("y", "text"), col("z", "text")]);
    assert_eq!(s.tables.len(), 2);
    assert_eq!(s.tables[0].name, "a");
    assert_eq!(s.tables[0].columns.len(), 2);
    assert_eq!(s.tables[0].columns[0].name, "y");
}

#[test]
fn catalog_nullability() {
    let c = column_from_catalog("mpg".to_string(), "numeric".to_string(), "YES");
    assert!(c.nullable);
    let c = column_from_catalog("id".to_string(), "integer".to_string(), "NO");
    assert!(!c.nullable);
    let c = column_from_catalog("id".to_string(), "integer".to_string(), "yes");
    assert!(!c.nullable);
}

#[test]
fn schema_lines() {
    let mut s = SchemaDescription::new();
    assert_eq!(format_schema_for_prompt(&s), "No schema available.");
    s.insert_table("cars".to_string(), vec![col("id", "integer"), col("model", "varchar(50)")]);
    assert_eq!(format_schema_for_prompt(&s), "Table: cars (id integer, model varchar(50))");
    s.insert_table("empty".to_string(), vec![]);
    assert_eq!(
        format_schema_for_prompt(&s),
        "Table: cars (id integer, model varchar(50))\nTable: empty ()"
    );
}

#[test]
fn prompt_embeds_schema_question_and_format() {
    let mut s = SchemaDescription::new();
    s.insert_table("cars".to_string(), vec![col("id", "integer")]);
    let p = generate_prompt("show all cars", Some(&s));
    assert!(p.starts_with("\nGiven the following PostgreSQL database schema:\n\nTable: cars (id integer)\n\n"));
    assert!(p.contains("\"show all cars\""));
    assert!(p.contains("SQL: <the SQL query>\nEXPLANATION: <brief explanation of how the query works>\nCONFIDENCE: <a number from 0 to 1 indicating confidence>"));
    let q = generate_prompt("q", None);
    assert!(q.contains("schema:\n\nNo schema available.\n\n"));
}

#[test]
fn model_choice() {
    assert_eq!(default_model(), "gpt-3.5-turbo");
    assert_eq!(resolve_model(Some("m1".to_string()), Some("m2".to_string())), "m1");
    assert_eq!(resolve_model(None, Some("m2".to_string())), "m2");
    assert_eq!(resolve_model(None, None), "gpt-4");
    assert!(system_prompt().starts_with("You are a helpful assistant"));
}
