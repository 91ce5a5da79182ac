use drive_gauges::binary64::Binary64;
use drive_gauges::influx_db::{
    ClientFault, ConfigError, Flaw, InfluxDBConnection, QueryError, QueryReply, Series, Setting,
    StorageUsage,
};
use influxdb::Query;

fn row(time: &str, hardware: &str, value: f64) -> StorageUsage {
    StorageUsage {
        time: String::from(time),
        hardware: String::from(hardware),
        value: Binary64::from_bits(value.to_bits()),
    }
}

fn group(values: Vec<StorageUsage>) -> Series {
    Series { name: String::from("Load"), values }
}

fn some(text: &str) -> Option<String> {
    Some(String::from(text))
}

fn connection() -> InfluxDBConnection {
    match InfluxDBConnection::new(
        some("http://localhost:8086"),
        some("metrics"),
        some("reader"),
        some("secret"),
    ) {
        Ok(connection) => connection,
        Err(e) => panic!("no connection: {:?}", e),
    }
}

fn labels(rows: &[StorageUsage]) -> Vec<(String, String, u64)> {
    rows.iter().map(|r| (r.time.clone(), r.hardware.clone(), r.value.to_bits())).collect()
}

#[test]
fn settings_are_read_from_four_variables() {
    assert_eq!(Setting::Host.variable(), "DB_HOST");
    assert_eq!(Setting::Database.variable(), "DB_NAME");
    assert_eq!(Setting::Username.variable(), "DB_USER");
    assert_eq!(Setting::Password.variable(), "DB_PASSWORD");
}

#[test]
fn connection_keeps_url_and_database() {
    let connection = connection();
    assert_eq!(connection.client.database_url(), "http://localhost:8086");
    assert_eq!(connection.client.database_name(), "metrics");
}

#[test]
fn connection_keeps_the_credentials() {
    let connection = connection();
    let parameters: Vec<(String, String)> = (&connection.client).into();
    assert_eq!(
        parameters,
        vec![
            (String::from("db"), String::from("metrics")),
            (String::from("u"), String::from("reader")),
            (String::from("p"), String::from("secret")),
        ]
    );
}

#[test]
fn missing_host_is_reported() {
    let r = InfluxDBConnection::new(None, some("metrics"), some("reader"), some("secret"));
    assert!(matches!(r, Err(ConfigError::Missing(Setting::Host))));
}

#[test]
fn missing_database_is_reported() {
    let r = InfluxDBConnection::new(some("h"), None, some("reader"), some("secret"));
    assert!(matches!(r, Err(ConfigError::Missing(Setting::Database))));
}

#[test]
fn missing_username_is_reported() {
    let r = InfluxDBConnection::new(some("h"), some("metrics"), None, some("secret"));
    assert!(matches!(r, Err(ConfigError::Missing(Setting::Username))));
}

#[test]
fn missing_password_is_reported() {
    let r = InfluxDBConnection::new(some("h"), some("metrics"), some("reader"), None);
    assert!(matches!(r, Err(ConfigError::Missing(Setting::Password))));
}

#[test]
fn first_missing_setting_wins() {
    let r = InfluxDBConnection::new(some("h"), None, None, None);
    assert!(matches!(r, Err(ConfigError::Missing(Setting::Database))));
    let r = InfluxDBConnection::new(None, None, None, None);
    assert!(matches!(r, Err(ConfigError::Missing(Setting::Host))));
    let r = InfluxDBConnection::new(some("h"), some("d"), None, None);
    assert!(matches!(r, Err(ConfigError::Missing(Setting::Username))));
}

#[test]
fn query_asks_for_the_latest_load_of_each_disk() {
    let query = InfluxDBConnection::storage_load_query();
    let text = match query.build() {
        Ok(valid) => valid.get(),
        Err(e) => panic!("no query: {:?}", e),
    };
    assert_eq!(
        text,
        "SELECT hardware, value FROM Load WHERE app = 'ohm' and hardware_type = 'HDD' and sensor = 'Used Space' GROUP BY hardware LIMIT 1"
    );
}

#[test]
fn first_row_of_each_group_in_order() {
    let reply = QueryReply::Groups(vec![
        group(vec![row("t1", "C:", 41.5), row("t0", "C:", 40.0)]),
        group(vec![row("t1", "D:", 88.0)]),
        group(vec![row("t1", "C:", 41.5)]),
    ]);
    let rows = match connection().get_storage_load(reply) {
        Ok(rows) => rows,
        Err(e) => panic!("no readings: {:?}", e),
    };
    assert_eq!(
        labels(&rows),
        vec![
            (String::from("t1"), String::from("C:"), 41.5f64.to_bits()),
            (String::from("t1"), String::from("D:"), 88.0f64.to_bits()),
            (String::from("t1"), String::from("C:"), 41.5f64.to_bits()),
        ]
    );
}

#[test]
fn no_group_is_an_empty_result() {
    let r = connection().get_storage_load(QueryReply::Groups(Vec::new()));
    assert!(matches!(r, Err(QueryError::Empty)));
}

#[test]
fn group_without_row_is_malformed() {
    let reply = QueryReply::Groups(vec![group(vec![row("t1", "C:", 41.5)]), group(Vec::new())]);
    assert!(matches!(
        connection().get_storage_load(reply),
        Err(QueryError::Malformed(Flaw::GroupWithoutRow))
    ));
    let reply = QueryReply::Groups(vec![group(Vec::new())]);
    assert!(matches!(
        connection().get_storage_load(reply),
        Err(QueryError::Malformed(Flaw::GroupWithoutRow))
    ));
    let reply = QueryReply::Groups(vec![group(Vec::new()), group(vec![row("t1", "C:", 41.5)])]);
    assert!(matches!(
        connection().get_storage_load(reply),
        Err(QueryError::Malformed(Flaw::GroupWithoutRow))
    ));
}

#[test]
fn one_group_gives_one_reading() {
    let reply = QueryReply::Groups(vec![group(vec![row("t1", "C:", 41.5)])]);
    let rows = match connection().get_storage_load(reply) {
        Ok(rows) => rows,
        Err(e) => panic!("no readings: {:?}", e),
    };
    assert_eq!(labels(&rows), vec![(String::from("t1"), String::from("C:"), 41.5f64.to_bits())]);
}

#[test]
fn answer_without_result_is_an_empty_result() {
    assert!(matches!(connection().get_storage_load(QueryReply::NoResult), Err(QueryError::Empty)));
}

#[test]
fn faults_of_the_transport() {
    let faults = [
        ClientFault::UrlConstruction,
        ClientFault::Protocol,
        ClientFault::Authentication,
        ClientFault::Authorization,
        ClientFault::Connection,
    ];
    for fault in faults {
        assert_eq!(QueryError::from_fault(fault), QueryError::Transport(fault));
        let r = connection().get_storage_load(QueryReply::Fault(fault));
        assert!(matches!(r, Err(QueryError::Transport(f)) if f == fault));
    }
}

#[test]
fn faults_of_the_answer() {
    let faults = [ClientFault::InvalidQuery, ClientFault::Deserialization, ClientFault::Database];
    for fault in faults {
        assert_eq!(QueryError::from_fault(fault), QueryError::Malformed(Flaw::Driver(fault)));
        let r = connection().get_storage_load(QueryReply::Fault(fault));
        assert!(matches!(r, Err(QueryError::Malformed(Flaw::Driver(f))) if f == fault));
    }
}

#[test]
fn copy_of_a_row_says_the_same() {
    let original = row("t1", "C:", 41.5);
    let copy = original.clone();
    assert_eq!(labels(&[copy]), labels(&[original]));
}
