use schema_migrate::create_table::{Column, CreateTable};
use schema_migrate::errors::SchemaError;
use schema_migrate::remove_column::RemoveColumn;
use schema_migrate::schema;
use schema_migrate::schema::Schema;

fn plain_column(name: &str) -> Column {
    Column {
        name: name.to_string(),
        data_type: "text".to_string(),
        nullable: true,
        default: None,
    }
}

#[test]
fn schema_replay_keeps_only_remaining_columns() {
    let create = CreateTable {
        name: "users".to_string(),
        columns: vec![plain_column("id"), plain_column("name")],
        primary_key: vec!["id".to_string()],
        foreign_keys: vec![],
    };
    let remove = RemoveColumn {
        table: "users".to_string(),
        column: "name".to_string(),
        down: None,
    };
    let mut schema = Schema::new();
    create.update_schema(&mut schema).unwrap();
    remove.update_schema(&mut schema).unwrap();
    let table = schema.find_table(&"users".to_string()).unwrap();
    let names: Vec<String> = table.columns.iter().map(|c| c.name.clone()).collect();
    assert_eq!(names, vec!["id".to_string()]);
}

#[test]
fn find_table_unknown_name_is_not_found() {
    let schema = Schema::new();
    assert_eq!(
        schema.find_table(&"ghosts".to_string()).err(),
        Some(SchemaError::NotFound)
    );
}

#[test]
fn add_table_rejects_duplicate_name() {
    let mut schema = Schema::new();
    let first = schema::Table::new("users".to_string());
    schema.add_table(first).unwrap();
    let second = schema::Table::new("users".to_string());
    assert_eq!(schema.add_table(second), Err(SchemaError::Conflict));
}

#[test]
fn table_remove_column_unknown_name_is_not_found() {
    let mut table = schema::Table::new("users".to_string());
    table.add_column(schema::Column {
        name: "id".to_string(),
        real_name: None,
        data_type: "integer".to_string(),
        nullable: false,
    });
    assert_eq!(table.remove_column(&"age".to_string()), Err(SchemaError::NotFound));
    assert_eq!(table.remove_column(&"id".to_string()), Ok(()));
    assert!(table.columns.is_empty());
}
