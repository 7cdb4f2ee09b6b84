use sql_connector::settings::ConnectionSettings;

#[test]
fn test_connectionsettings_get_gets_field() {
    let settings: ConnectionSettings = ConnectionSettings::new("localhost", "1433", "sa", "SomeTestPass123!");

    let server: &str = settings.get("server");
    let port: &str = settings.get("port");
    let user: &str = settings.get("user");
    let password: &str = settings.get("password");

    assert_eq!(server, String::from("localhost"));
    assert_eq!(port, "1433");
    assert_eq!(user, String::from("sa"));
    assert_eq!(password, String::from("SomeTestPass123!"));
}

#[test]
fn test_connectionsettings_update_updates_field_value() {
    let mut settings: ConnectionSettings = ConnectionSettings::new("localhost", "1433", "sa", "SomeTestPass123!");

    let new_server_value: &str = "https://localhost";
    let new_port_value: &str = "8080";
    let new_user_value: &str = "user";
    let new_pass_value: &str = "password";

    let _ = settings.update("server", new_server_value);
    let _ = settings.update("port", new_port_value);
    let _ = settings.update("user", new_user_value);
    let _ = settings.update("password", new_pass_value);

    assert_eq!(settings.get("server"), new_server_value);
    assert_eq!(settings.get("port"), new_port_value);
    assert_eq!(settings.get("user"), new_user_value);
    assert_eq!(settings.get("password"), new_pass_value);
}

#[test]
fn test_connectionsettings_new_creates_instance() {
    let settings = ConnectionSettings::new("localhost", "1433", "sa", "SomePassword123!");

    assert_eq!(settings.get("server"), "localhost");
    assert_eq!(settings.get("port"), "1433");
    assert_eq!(settings.get("user"), "sa");
    assert_eq!(settings.get("password"), "SomePassword123!");
    assert!(!settings.is_from_file());
}

#[test]
fn unknown_field_is_an_error_and_reads_as_empty() {
    let settings = ConnectionSettings::new("localhost", "1433", "sa", "pw");
    assert_eq!(settings.get_result("database"), Err(String::from("invalid field name to get 'database'")));
    assert_eq!(settings.get_result("port"), Ok("1433"));
    assert_eq!(settings.get("database"), "");
    assert_eq!(settings.get("Server"), "");
}

#[test]
fn update_of_unknown_field_changes_nothing() {
    let mut settings = ConnectionSettings::new("localhost", "1433", "sa", "pw");
    assert_eq!(settings.update("database", "other"), Ok(()));
    assert_eq!(settings.get("server"), "localhost");
    assert_eq!(settings.get("port"), "1433");
    assert_eq!(settings.get("user"), "sa");
    assert_eq!(settings.get("password"), "pw");
}

#[test]
fn settings_from_file_are_marked() {
    let settings = ConnectionSettings::from_file_values("db.local", "1433", "sa", "pw");
    assert!(settings.is_from_file());
    assert_eq!(settings.get("server"), "db.local");
}

#[test]
fn save_config_writes_one_toml_table() {
    let mut settings = ConnectionSettings::from_file_values("localhost", "1433", "sa", "SomeTestPass123!");
    let _ = settings.update("server", "https://localhost");
    let text = settings.save_config().unwrap();
    assert_eq!(
        text,
        "[connection_settings]\npassword = \"SomeTestPass123!\"\nport = \"1433\"\nserver = \"https://localhost\"\nuser = \"sa\"\n"
    );
}
