use schema_migrate::action::Action;
use schema_migrate::conn::RecordingConn;
use schema_migrate::create_table::{Column, CreateTable};
use schema_migrate::remove_column::RemoveColumn;
use schema_migrate::schema::Schema;

fn pass_actions() -> Vec<Action> {
    vec![
        Action::CreateTable(CreateTable {
            name: "users".to_string(),
            columns: vec![
                Column {
                    name: "id".to_string(),
                    data_type: "integer".to_string(),
                    nullable: false,
                    default: None,
                },
                Column {
                    name: "email".to_string(),
                    data_type: "text".to_string(),
                    nullable: true,
                    default: None,
                },
            ],
            primary_key: vec!["id".to_string()],
            foreign_keys: vec![],
        }),
        Action::RemoveColumn(RemoveColumn {
            table: "users".to_string(),
            column: "email".to_string(),
            down: Some("'unknown'".to_string()),
        }),
    ]
}

#[test]
fn action_kind_tags() {
    let actions = pass_actions();
    assert_eq!(actions[0].kind(), "create_table");
    assert_eq!(actions[1].kind(), "remove_column");
}

#[test]
fn action_describe_dispatches() {
    let actions = pass_actions();
    assert_eq!(actions[0].describe(), "Creating table \"users\"");
    assert_eq!(
        actions[1].describe(),
        "Removing column \"email\" from \"users\""
    );
}

#[test]
fn pass_runs_in_order_and_replays_schema() {
    let actions = pass_actions();
    let mut db = RecordingConn::new();
    let mut schema = Schema::new();
    for action in &actions {
        action.run(&mut db, &schema).unwrap();
        action.update_schema(&mut schema).unwrap();
    }
    assert_eq!(db.statements.len(), 2);
    assert!(db.statements[0].starts_with("CREATE TABLE \"users\" ("));
    assert!(db.statements[1].starts_with("CREATE OR REPLACE FUNCTION \"remove_column_users_email\"()"));
    // The removal's trigger still declares the departing column, because at
    // run time the logical schema still carried it.
    assert!(db.statements[1].contains("\"email\" public.\"users\".\"email\"%TYPE := NEW.\"email\";"));
    let table = schema.find_table(&"users".to_string()).unwrap();
    assert_eq!(table.columns.len(), 1);
    assert_eq!(table.columns[0].name, "id");

    let mut complete_db = RecordingConn::new();
    for action in &actions {
        action.complete(&mut complete_db, &schema).unwrap();
    }
    assert_eq!(complete_db.statements.len(), 1);
    assert!(complete_db.statements[0].starts_with("ALTER TABLE \"users\" DROP COLUMN \"email\";"));
}

#[test]
fn failed_pass_aborts_in_reverse_order() {
    let actions = pass_actions();
    let mut db = RecordingConn::new();
    let mut schema = Schema::new();
    for action in &actions {
        action.run(&mut db, &schema).unwrap();
        action.update_schema(&mut schema).unwrap();
    }
    let mut abort_db = RecordingConn::new();
    for action in actions.iter().rev() {
        action.abort(&mut abort_db).unwrap();
    }
    assert_eq!(
        abort_db.statements,
        vec![
            "DROP TRIGGER IF EXISTS \"remove_column_users_email\" ON \"users\"; \
             DROP FUNCTION IF EXISTS \"remove_column_users_email\";"
                .to_string(),
            "DROP TABLE IF EXISTS \"users\"".to_string(),
        ]
    );
}
