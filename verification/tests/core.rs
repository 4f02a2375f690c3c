use egress_proxy_sql_poller::poller::BatchRequest;
use egress_proxy_sql_poller::poller::FetchFailure;
use egress_proxy_sql_poller::poller::LoopAction;
use egress_proxy_sql_poller::poller::LoopEvent;
use egress_proxy_sql_poller::poller::LoopState;
use egress_proxy_sql_poller::poller::Poller;
use egress_proxy_sql_poller::settings::ConfigError;
use egress_proxy_sql_poller::settings::Database;
use egress_proxy_sql_poller::settings::Settings;
use egress_proxy_sql_poller::storage::NoopStorage;
use egress_proxy_sql_poller::storage::Storage;
use egress_proxy_sql_poller::storage::StorageDriver;
use egress_proxy_sql_poller::storage::new_storage;

const NOOP_SENTINEL: &str = "fetching batch from noop";
const PSQL_PAYLOAD: &str = "getting batch with psql";

fn database(driver: &str) -> Database {
    Database {
        driver: driver.to_string(),
        address: "localhost:5432".to_string(),
        username: "postgres".to_string(),
        password: "root".to_string(),
    }
}

fn settings(driver: &str, poll_interval: u64) -> Settings {
    Settings::new(
        database(driver),
        egress_proxy_sql_poller::settings::Poller { poll_interval },
    )
    .expect("positive interval must be accepted")
}

#[test]
fn factory_recognized_returns_postgres_driver() {
    // The built-in default backend name and its short alias both select the
    // PostgreSQL backend.
    for name in ["postgresql", "postgres"] {
        let driver = new_storage(name);
        assert!(matches!(driver, StorageDriver::Postgres(_)), "name {:?}", name);
        let payload = driver.fetch_batch("123".to_string());
        assert_eq!(payload, PSQL_PAYLOAD, "name {:?}", name);
    }
}

#[test]
fn factory_unrecognized_falls_back_to_noop() {
    let unrecognized = [
        "",
        "noop",
        "Postgres",
        "POSTGRES",
        "Postgresql",
        "POSTGRESQL",
        "postgress",
        "postgresqll",
        "unknown-backend-xyz",
        "mysql",
    ];
    for name in unrecognized {
        let driver = new_storage(name);
        assert!(matches!(driver, StorageDriver::Noop(_)), "name {:?}", name);
        let payload = driver.fetch_batch("123".to_string());
        assert_eq!(payload, NOOP_SENTINEL, "name {:?}", name);
    }
}

#[test]
fn noop_fetch_always_succeeds_with_sentinel() {
    let noop = NoopStorage;
    assert_eq!(noop.fetch_batch("123".to_string()), NOOP_SENTINEL);
    assert_eq!(noop.fetch_batch("another-batch".to_string()), NOOP_SENTINEL);
    assert_eq!(noop.fetch_batch("".to_string()), NOOP_SENTINEL);
}

#[test]
fn exec_returns_the_driver_payload() {
    let ok = Poller::exec(Box::new(new_storage("postgres")));
    assert_eq!(ok.unwrap(), PSQL_PAYLOAD);
    let fallback = Poller::exec(Box::new(new_storage("unknown-backend-xyz")));
    assert_eq!(fallback.unwrap(), NOOP_SENTINEL);
}

#[test]
fn default_settings_match_the_documented_defaults() {
    let s = Settings::default();
    assert_eq!(s.poller.poll_interval, 15);
    assert_eq!(s.database.driver, "postgresql");
    assert_eq!(s.database.address, "localhost:5432");
    assert_eq!(s.database.username, "postgres");
    assert_eq!(s.database.password, "root");
}

#[test]
fn settings_reject_a_zero_poll_interval() {
    let r = Settings::new(
        database("postgres"),
        egress_proxy_sql_poller::settings::Poller { poll_interval: 0 },
    );
    assert!(matches!(r, Err(ConfigError::NonPositivePollInterval)));
}

#[test]
fn settings_accept_any_positive_poll_interval() {
    let s = settings("postgres", 1);
    assert_eq!(s.poller.poll_interval, 1);
    let s = settings("", u64::MAX);
    assert_eq!(s.poller.poll_interval, u64::MAX);
}

#[test]
fn batch_request_requires_a_non_empty_identifier() {
    assert!(BatchRequest::new("".to_string()).is_none());
    let r = BatchRequest::new("123".to_string()).expect("non-empty identifier");
    assert_eq!(r.id, "123");
}

#[test]
fn a_tick_dispatches_exactly_one_unit() {
    let s = settings("postgres", 15);
    let mut state = LoopState::new();
    let action = state.step(&s, LoopEvent::Tick);
    assert_eq!(state.ticks, 1);
    assert_eq!(state.dispatched, 1);
    match action {
        LoopAction::Dispatch(driver, request) => {
            assert!(matches!(driver, StorageDriver::Postgres(_)));
            assert_eq!(request.id, "123");
        }
        LoopAction::Continue => panic!("a tick must dispatch a fetch unit"),
    }
}

#[test]
fn a_failed_unit_does_not_stop_subsequent_ticks() {
    let s = settings("unknown-backend-xyz", 1);
    let mut state = LoopState::new();

    let first = state.step(&s, LoopEvent::Tick);
    assert!(matches!(first, LoopAction::Dispatch(..)));

    let failure = FetchFailure {
        driver: "unknown-backend-xyz".to_string(),
        batch_id: "123".to_string(),
        cause: "simulated unit failure".to_string(),
    };
    let reported = state.step(&s, LoopEvent::UnitFailed(failure));
    assert!(matches!(reported, LoopAction::Continue));
    assert_eq!(state.failed, 1);

    let second = state.step(&s, LoopEvent::Tick);
    assert!(matches!(second, LoopAction::Dispatch(..)));
    assert_eq!(state.ticks, 2);
    assert_eq!(state.dispatched, 2);
}

#[test]
fn unit_outcomes_are_recorded_independently_of_order() {
    let s = settings("postgres", 15);

    let mut first_order = LoopState::new();
    let _ = first_order.step(&s, LoopEvent::Tick);
    let _ = first_order.step(&s, LoopEvent::Tick);
    let _ = first_order.step(&s, LoopEvent::UnitSucceeded);
    let failure = FetchFailure {
        driver: "postgres".to_string(),
        batch_id: "123".to_string(),
        cause: "simulated unit failure".to_string(),
    };
    let _ = first_order.step(&s, LoopEvent::UnitFailed(failure));

    let mut second_order = LoopState::new();
    let _ = second_order.step(&s, LoopEvent::Tick);
    let _ = second_order.step(&s, LoopEvent::Tick);
    let failure = FetchFailure {
        driver: "postgres".to_string(),
        batch_id: "123".to_string(),
        cause: "simulated unit failure".to_string(),
    };
    let _ = second_order.step(&s, LoopEvent::UnitFailed(failure));
    let _ = second_order.step(&s, LoopEvent::UnitSucceeded);

    assert_eq!(first_order.ticks, second_order.ticks);
    assert_eq!(first_order.dispatched, second_order.dispatched);
    assert_eq!(first_order.completed, second_order.completed);
    assert_eq!(first_order.failed, second_order.failed);
}
