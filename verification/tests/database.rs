use sensor_relay::database::{Database, Setting};

fn some(text: &str) -> Option<String> {
    Some(text.to_string())
}

#[test]
fn all_four_settings_make_a_database() {
    let database = Database::from_environment(
        some("http://127.0.0.1:8086"),
        some("user"),
        some("pass"),
        some("influxdb"),
    );
    assert_eq!(
        database,
        Ok(Database {
            address: "http://127.0.0.1:8086".to_string(),
            username: "user".to_string(),
            password: "pass".to_string(),
            database: "influxdb".to_string(),
        })
    );
}

#[test]
fn a_missing_setting_is_named() {
    assert_eq!(
        Database::from_environment(None, some("u"), some("p"), some("d")),
        Err(Setting::Address)
    );
    assert_eq!(
        Database::from_environment(some("a"), None, some("p"), some("d")),
        Err(Setting::User)
    );
    assert_eq!(
        Database::from_environment(some("a"), some("u"), None, some("d")),
        Err(Setting::Password)
    );
    assert_eq!(
        Database::from_environment(some("a"), some("u"), some("p"), None),
        Err(Setting::Database)
    );
}

#[test]
fn the_first_missing_setting_is_named() {
    assert_eq!(Database::from_environment(None, None, None, None), Err(Setting::Address));
    assert_eq!(Database::from_environment(some("a"), None, some("p"), None), Err(Setting::User));
    assert_eq!(
        Database::from_environment(some("a"), some("u"), None, None),
        Err(Setting::Password)
    );
}

#[test]
fn an_empty_setting_is_present() {
    let database = Database::from_environment(some(""), some(""), some(""), some("")).unwrap();
    assert_eq!(database.address, "");
    assert_eq!(database.database, "");
}

#[test]
fn settings_come_from_their_variables() {
    assert_eq!(Setting::Address.variable(), "INFLUX_ADDRESS");
    assert_eq!(Setting::User.variable(), "INFLUX_USER");
    assert_eq!(Setting::Password.variable(), "INFLUX_PASSWORD");
    assert_eq!(Setting::Database.variable(), "INFLUX_DATABASE");
}
