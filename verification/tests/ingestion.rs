//! The pipeline around the decoder: topic discovery, the channel, the
//! persistence write path, and the drain loop's failure isolation.

use brewski::broker::{make_subscriptions, BrokerConfig, DeliveryLevel};
use brewski::channel::IngestionChannel;
use brewski::envpayload::{DecodeError, EnvSensorReading};
use brewski::pipeline::{drain_channel, handle_message, should_retry};
use brewski::store::{PersistenceError, SensorStore};
use brewski::topics::{dedup_topics, get_recv_topics};

fn store_with(sensors: &[(u64, &str, &str)]) -> SensorStore {
    let mut store = SensorStore::new();
    for (id, name, topic) in sensors {
        assert!(store.add_sensor(*id, String::from(*name), String::from(*topic)));
    }
    store
}

fn reading_for(name: &str) -> EnvSensorReading {
    let payload = format!("{name} 22.5 101.3 55.0 320");
    EnvSensorReading::from_string(payload).unwrap()
}

#[test]
fn topics_of_empty_store_are_empty() {
    let store = SensorStore::new();
    let topics = get_recv_topics(&store);
    assert!(topics.is_empty());
}

#[test]
fn shared_topics_are_listed_once() {
    let store = store_with(&[
        (1, "tank1", "cellar/env"),
        (2, "tank2", "cellar/env"),
        (3, "porch", "porch/env"),
    ]);
    let mut topics = get_recv_topics(&store);
    topics.sort();
    assert_eq!(topics, vec!["cellar/env".to_string(), "porch/env".to_string()]);
}

#[test]
fn dedup_keeps_first_occurrences() {
    let rows = vec![
        "a".to_string(),
        "b".to_string(),
        "a".to_string(),
        "c".to_string(),
        "b".to_string(),
    ];
    let out = dedup_topics(&rows);
    assert_eq!(out, vec!["a".to_string(), "b".to_string(), "c".to_string()]);
}

#[test]
fn dedup_of_nothing_is_nothing() {
    let rows: Vec<String> = Vec::new();
    assert!(dedup_topics(&rows).is_empty());
}

#[test]
fn duplicate_sensor_names_are_refused() {
    let mut store = store_with(&[(1, "tank1", "cellar/env")]);
    assert!(!store.add_sensor(9, String::from("tank1"), String::from("other/env")));
    assert_eq!(store.sensors.len(), 1);
}

#[test]
fn known_sensor_appends_one_row() {
    let mut store = store_with(&[(7, "tank1", "cellar/env")]);
    let rd = reading_for("tank1");
    assert_eq!(rd.log_to_database(&mut store), Ok(1));
    assert_eq!(store.readings.len(), 1);
    let row = &store.readings[0];
    assert_eq!(row.sensor_id, 7);
    assert_eq!(row.temperature, "22.5");
    assert_eq!(row.pressure, "101.3");
    assert_eq!(row.rel_humid, "55.0");
    assert_eq!(row.lux, "320");
}

#[test]
fn unknown_sensor_writes_nothing() {
    let mut store = store_with(&[(7, "tank1", "cellar/env")]);
    let rd = reading_for("cellar9");
    assert_eq!(rd.log_to_database(&mut store), Err(PersistenceError::UnknownSensor));
    assert!(store.readings.is_empty());
}

#[test]
fn channel_is_first_in_first_out() {
    let mut chn = IngestionChannel::new();
    chn.send(reading_for("a"));
    chn.send(reading_for("b"));
    chn.send(reading_for("c"));
    assert_eq!(chn.len(), 3);
    assert_eq!(chn.receive().sensor.name, "a");
    assert_eq!(chn.receive().sensor.name, "b");
    assert_eq!(chn.receive().sensor.name, "c");
    assert_eq!(chn.len(), 0);
}

#[test]
fn drain_attempts_every_reading_exactly_once() {
    let mut store = store_with(&[(1, "tank1", "t1"), (2, "tank2", "t2")]);
    let mut chn = IngestionChannel::new();
    chn.send(reading_for("tank1"));
    chn.send(reading_for("nobody"));
    chn.send(reading_for("tank2"));
    let outcomes = drain_channel(&mut chn, &mut store);
    assert_eq!(
        outcomes,
        vec![Ok(1), Err(PersistenceError::UnknownSensor), Ok(1)]
    );
    assert_eq!(chn.len(), 0);
    assert_eq!(store.readings.len(), 2);
    assert_eq!(store.readings[0].sensor_id, 1);
    assert_eq!(store.readings[1].sensor_id, 2);
}

#[test]
fn near_simultaneous_messages_both_persist() {
    let mut store = store_with(&[(1, "tank1", "t1"), (2, "tank2", "t2")]);
    // Two messages on different topics may reach the channel in either
    // order; the row count grows by exactly two either way.
    for order in [["tank1", "tank2"], ["tank2", "tank1"]] {
        let before = store.readings.len();
        let mut chn = IngestionChannel::new();
        for name in order {
            chn.send(reading_for(name));
        }
        let outcomes = drain_channel(&mut chn, &mut store);
        assert_eq!(outcomes, vec![Ok(1), Ok(1)]);
        assert_eq!(store.readings.len(), before + 2);
    }
}

#[test]
fn failed_decode_leaves_the_channel_alone() {
    let mut chn = IngestionChannel::new();
    assert_eq!(
        handle_message(&mut chn, String::from("tank1 22.5 101.3")),
        Err(DecodeError::MissingField)
    );
    assert_eq!(chn.len(), 0);
    // The pipeline keeps serving: a later good message still flows through.
    assert_eq!(handle_message(&mut chn, String::from("tank1 22.5 101.3 55.0 320")), Ok(()));
    assert_eq!(chn.len(), 1);
    let mut store = store_with(&[(7, "tank1", "cellar/env")]);
    let outcomes = drain_channel(&mut chn, &mut store);
    assert_eq!(outcomes, vec![Ok(1)]);
    assert_eq!(store.readings.len(), 1);
}

#[test]
fn zero_sensors_idle_without_error() {
    let store = SensorStore::new();
    let topics = get_recv_topics(&store);
    let subs = make_subscriptions(&topics);
    assert!(subs.is_empty());
    let mut chn = IngestionChannel::new();
    let mut store = store;
    let outcomes = drain_channel(&mut chn, &mut store);
    assert!(outcomes.is_empty());
    assert!(store.readings.is_empty());
}

#[test]
fn subscriptions_are_at_most_once() {
    let topics = vec!["a/env".to_string(), "b/env".to_string()];
    let subs = make_subscriptions(&topics);
    assert_eq!(subs.len(), 2);
    for (sub, topic) in subs.iter().zip(topics.iter()) {
        assert_eq!(&sub.topic, topic);
        assert_eq!(sub.level, DeliveryLevel::AtMostOnce);
    }
}

#[test]
fn broker_config_has_fixed_bounds() {
    let cfg = BrokerConfig::new(String::from("brewski"), String::from("localhost:1883"));
    assert_eq!(cfg.client_id, "brewski");
    assert_eq!(cfg.broker, "localhost:1883");
    assert_eq!(cfg.keep_alive_secs, 5);
    assert_eq!(cfg.reconnect_attempts, 3);
}

#[test]
fn only_store_outages_are_retried() {
    assert!(should_retry(&PersistenceError::StoreUnavailable, 0, 3));
    assert!(should_retry(&PersistenceError::StoreUnavailable, 2, 3));
    assert!(!should_retry(&PersistenceError::StoreUnavailable, 3, 3));
    assert!(!should_retry(&PersistenceError::UnknownSensor, 0, 3));
}
