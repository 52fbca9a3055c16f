use schema_migrate::conn::RecordingConn;
use schema_migrate::create_table::{Column, CreateTable, ForeignKey};
use schema_migrate::errors::{MigrationError, SchemaError};
use schema_migrate::schema::Schema;

fn users_action() -> CreateTable {
    CreateTable {
        name: "users".to_string(),
        columns: vec![Column {
            name: "id".to_string(),
            data_type: "integer".to_string(),
            nullable: false,
            default: None,
        }],
        primary_key: vec!["id".to_string()],
        foreign_keys: vec![],
    }
}

#[test]
fn create_table_describe() {
    assert_eq!(users_action().describe(), "Creating table \"users\"");
}

#[test]
fn create_table_run_emits_single_create_statement() {
    let action = users_action();
    let mut db = RecordingConn::new();
    let schema = Schema::new();
    let r = action.run(&mut db, &schema);
    assert!(r.is_ok());
    assert_eq!(db.statements.len(), 1);
    assert_eq!(
        db.statements[0],
        "CREATE TABLE \"users\" (\"id\" integer NOT NULL, PRIMARY KEY (\"id\"))"
    );
    assert!(!db.statements[0].contains("FOREIGN KEY"));
}

#[test]
fn create_table_statement_with_default_and_nullable() {
    let action = CreateTable {
        name: "posts".to_string(),
        columns: vec![
            Column {
                name: "id".to_string(),
                data_type: "integer".to_string(),
                nullable: false,
                default: None,
            },
            Column {
                name: "title".to_string(),
                data_type: "text".to_string(),
                nullable: true,
                default: Some("'untitled'".to_string()),
            },
        ],
        primary_key: vec!["id".to_string()],
        foreign_keys: vec![],
    };
    assert_eq!(
        action.create_statement(),
        "CREATE TABLE \"posts\" (\"id\" integer NOT NULL, \"title\" text DEFAULT 'untitled', PRIMARY KEY (\"id\"))"
    );
}

#[test]
fn create_table_statement_with_foreign_key() {
    let action = CreateTable {
        name: "posts".to_string(),
        columns: vec![
            Column {
                name: "id".to_string(),
                data_type: "integer".to_string(),
                nullable: false,
                default: None,
            },
            Column {
                name: "author_id".to_string(),
                data_type: "integer".to_string(),
                nullable: false,
                default: None,
            },
        ],
        primary_key: vec!["id".to_string()],
        foreign_keys: vec![ForeignKey {
            columns: vec!["author_id".to_string()],
            referenced_table: "users".to_string(),
            referenced_columns: vec!["id".to_string()],
        }],
    };
    assert_eq!(
        action.create_statement(),
        "CREATE TABLE \"posts\" (\"id\" integer NOT NULL, \"author_id\" integer NOT NULL, \
         PRIMARY KEY (\"id\"), FOREIGN KEY (\"author_id\") REFERENCES \"users\" (\"id\"))"
    );
}

#[test]
fn create_table_update_schema_inserts_table() {
    let action = users_action();
    let mut schema = Schema::new();
    action.update_schema(&mut schema).unwrap();
    let table = schema.find_table(&"users".to_string()).unwrap();
    assert_eq!(table.name, "users");
    assert_eq!(table.columns.len(), 1);
    assert_eq!(table.columns[0].name, "id");
    assert_eq!(table.columns[0].real_name, None);
    assert_eq!(table.columns[0].data_type, "integer");
    assert!(!table.columns[0].nullable);
    assert_eq!(table.primary_key, vec!["id".to_string()]);
}

#[test]
fn create_table_update_schema_twice_conflicts() {
    let action = users_action();
    let mut schema = Schema::new();
    action.update_schema(&mut schema).unwrap();
    assert_eq!(action.update_schema(&mut schema), Err(SchemaError::Conflict));
}

#[test]
fn create_table_complete_submits_nothing() {
    let action = users_action();
    let mut db = RecordingConn::new();
    let schema = Schema::new();
    assert!(action.complete(&mut db, &schema).is_ok());
    assert_eq!(db.statements.len(), 0);
}

#[test]
fn create_table_abort_drops_table() {
    let action = users_action();
    let mut db = RecordingConn::new();
    assert!(action.abort(&mut db).is_ok());
    assert_eq!(db.statements, vec!["DROP TABLE IF EXISTS \"users\"".to_string()]);
}

#[test]
fn create_table_run_propagates_execution_error() {
    let action = users_action();
    let mut db = RecordingConn::new_failing();
    let schema = Schema::new();
    let r = action.run(&mut db, &schema);
    assert!(matches!(r, Err(MigrationError::Execution(_))));
}
