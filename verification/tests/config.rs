use scylla_pg::config::PGConfig;
use scylla_pg::monitor::PGMonitorConfig;

#[test]
fn default_case() {
    let config = PGConfig::default();

    assert_eq!(
        config,
        PGConfig {
            pg_host: "".to_owned(),
            pg_port: 1234,
            pg_user: "".to_owned(),
            pg_password: "".to_owned(),
            pg_database: "".to_owned(),
        }
    );
}

#[test]
fn monitor_config_default_is_zero() {
    let config = PGMonitorConfig::default();
    assert_eq!(config.poll_interval, 0);
    assert_eq!(config.task_retention_time, 0);
}
