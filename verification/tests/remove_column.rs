use schema_migrate::conn::RecordingConn;
use schema_migrate::create_table::{Column, CreateTable};
use schema_migrate::errors::{MigrationError, SchemaError};
use schema_migrate::remove_column::RemoveColumn;
use schema_migrate::schema::Schema;

const TRIGGER_SCRIPT: &str = "CREATE OR REPLACE FUNCTION \"remove_column_users_email\"() \
     RETURNS TRIGGER AS $$ BEGIN IF NEW.\"email\" IS NULL THEN DECLARE \
     \"id\" public.\"users\".\"id\"%TYPE := NEW.\"id\"; \
     \"email\" public.\"users\".\"email\"%TYPE := NEW.\"email\"; \
     BEGIN NEW.\"email\" = 'unknown'; END; END IF; RETURN NEW; END $$ language 'plpgsql'; \
     DROP TRIGGER IF EXISTS \"remove_column_users_email\" ON \"users\"; \
     CREATE TRIGGER \"remove_column_users_email\" BEFORE UPDATE OR INSERT ON \"users\" \
     FOR EACH ROW EXECUTE PROCEDURE \"remove_column_users_email\"();";

fn users_schema() -> Schema {
    let create = CreateTable {
        name: "users".to_string(),
        columns: vec![
            Column {
                name: "id".to_string(),
                data_type: "integer".to_string(),
                nullable: false,
                default: None,
            },
            Column {
                name: "email".to_string(),
                data_type: "text".to_string(),
                nullable: true,
                default: None,
            },
        ],
        primary_key: vec!["id".to_string()],
        foreign_keys: vec![],
    };
    let mut schema = Schema::new();
    create.update_schema(&mut schema).unwrap();
    schema
}

fn remove_email() -> RemoveColumn {
    RemoveColumn {
        table: "users".to_string(),
        column: "email".to_string(),
        down: Some("'unknown'".to_string()),
    }
}

#[test]
fn remove_column_trigger_name_is_derived_from_table_and_column() {
    assert_eq!(remove_email().trigger_name(), "remove_column_users_email");
}

#[test]
fn remove_column_describe() {
    assert_eq!(
        remove_email().describe(),
        "Removing column \"email\" from \"users\""
    );
}

#[test]
fn remove_column_run_installs_backfill_trigger() {
    let action = remove_email();
    let schema = users_schema();
    let mut db = RecordingConn::new();
    assert!(action.run(&mut db, &schema).is_ok());
    assert_eq!(db.statements.len(), 1);
    assert_eq!(db.statements[0], TRIGGER_SCRIPT);
}

#[test]
fn remove_column_run_twice_is_idempotent() {
    let action = remove_email();
    let schema = users_schema();
    let mut db = RecordingConn::new();
    assert!(action.run(&mut db, &schema).is_ok());
    assert!(action.run(&mut db, &schema).is_ok());
    assert_eq!(db.statements.len(), 2);
    assert_eq!(db.statements[0], db.statements[1]);
    assert!(db.statements[0].contains("CREATE OR REPLACE FUNCTION"));
    assert!(db.statements[0].contains("DROP TRIGGER IF EXISTS"));
}

#[test]
fn remove_column_run_without_down_submits_nothing() {
    let action = RemoveColumn {
        table: "users".to_string(),
        column: "email".to_string(),
        down: None,
    };
    let schema = users_schema();
    let mut db = RecordingConn::new();
    assert!(action.run(&mut db, &schema).is_ok());
    assert_eq!(db.statements.len(), 0);
}

#[test]
fn remove_column_run_unknown_table_is_not_found() {
    let action = remove_email();
    let schema = Schema::new();
    let mut db = RecordingConn::new();
    let r = action.run(&mut db, &schema);
    assert_eq!(r, Err(MigrationError::Schema(SchemaError::NotFound)));
    assert_eq!(db.statements.len(), 0);
}

#[test]
fn remove_column_complete_drops_column_and_machinery() {
    let action = remove_email();
    let schema = users_schema();
    let mut db = RecordingConn::new();
    assert!(action.complete(&mut db, &schema).is_ok());
    assert_eq!(
        db.statements,
        vec![
            "ALTER TABLE \"users\" DROP COLUMN \"email\"; \
             DROP TRIGGER IF EXISTS \"remove_column_users_email\" ON \"users\"; \
             DROP FUNCTION IF EXISTS \"remove_column_users_email\";"
                .to_string()
        ]
    );
}

#[test]
fn remove_column_complete_after_repeated_run_is_the_same() {
    let action = remove_email();
    let schema = users_schema();
    let mut once = RecordingConn::new();
    assert!(action.complete(&mut once, &schema).is_ok());
    let mut twice = RecordingConn::new();
    assert!(action.run(&mut twice, &schema).is_ok());
    assert!(action.run(&mut twice, &schema).is_ok());
    assert!(action.complete(&mut twice, &schema).is_ok());
    assert_eq!(once.statements[0], twice.statements[2]);
}

#[test]
fn remove_column_abort_drops_machinery_only() {
    let action = remove_email();
    let mut db = RecordingConn::new();
    assert!(action.abort(&mut db).is_ok());
    assert_eq!(
        db.statements,
        vec![
            "DROP TRIGGER IF EXISTS \"remove_column_users_email\" ON \"users\"; \
             DROP FUNCTION IF EXISTS \"remove_column_users_email\";"
                .to_string()
        ]
    );
    assert!(!db.statements[0].contains("DROP COLUMN"));
}

#[test]
fn remove_column_update_schema_deletes_column() {
    let action = remove_email();
    let mut schema = users_schema();
    action.update_schema(&mut schema).unwrap();
    let table = schema.find_table(&"users".to_string()).unwrap();
    assert_eq!(table.columns.len(), 1);
    assert_eq!(table.columns[0].name, "id");
}

#[test]
fn remove_column_update_schema_unknown_table_is_not_found() {
    let action = remove_email();
    let mut schema = Schema::new();
    assert_eq!(action.update_schema(&mut schema), Err(SchemaError::NotFound));
}

#[test]
fn remove_column_update_schema_unknown_column_is_not_found() {
    let action = RemoveColumn {
        table: "users".to_string(),
        column: "age".to_string(),
        down: None,
    };
    let mut schema = users_schema();
    assert_eq!(action.update_schema(&mut schema), Err(SchemaError::NotFound));
}
