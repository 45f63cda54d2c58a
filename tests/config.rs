use queue_relay::config::{Config, ConfigError, Handler, Mode};

#[test]
fn defaults_apply_when_nothing_is_configured() {
    let c = Config::assemble(None, None, None, Mode::Print).unwrap();
    assert_eq!(c.amqp_addr, "amqp://127.0.0.1:5672/%2f");
    assert_eq!(c.log_level, "info");
    assert_eq!(c.queue_name, "example_queue");
    assert_eq!(c.consumer_tag, "my_consumer");
    assert_eq!(c.handler.mode(), Mode::Print);
}

#[test]
fn configured_values_win_over_defaults() {
    let c = Config::assemble(
        Some("amqp://broker:5672/vh".to_string()),
        Some("debug".to_string()),
        None,
        Mode::Print,
    )
    .unwrap();
    assert_eq!(c.amqp_addr, "amqp://broker:5672/vh");
    assert_eq!(c.log_level, "debug");
}

#[test]
fn persist_mode_without_database_url_is_refused() {
    let r = Config::assemble(Some("amqp://x".to_string()), None, None, Mode::Persist);
    assert_eq!(r.err(), Some(ConfigError::MissingDatabaseUrl));
}

#[test]
fn persist_mode_keeps_the_database_url() {
    let c = Config::assemble(None, None, Some("mysql://u@db/app".to_string()), Mode::Persist).unwrap();
    assert_eq!(c.handler.mode(), Mode::Persist);
    match c.handler {
        Handler::Persist(url) => assert_eq!(url, "mysql://u@db/app"),
        Handler::Print => panic!("expected the store handler"),
    }
}

#[test]
fn print_mode_ignores_a_database_url() {
    let c = Config::assemble(None, None, Some("mysql://db".to_string()), Mode::Print).unwrap();
    assert!(matches!(c.handler, Handler::Print));
}
