use sensor_bridge::bridge::{config_reply, sensor_list, status_reply, Reply, STATUS_INTERNAL_ERROR, STATUS_OK};
use sensor_bridge::model::{SensorConfig, SensorStatus};
use sensor_bridge::publisher::{CommandPublisher, PublisherAction, PublisherEvent};
use sensor_bridge::subscriber::{on_item, StatusItem, SubscriberAction};
use std::collections::HashMap;

fn config(t: &str, frequency: u32, power: u32, squelti: u32) -> SensorConfig {
    SensorConfig { sensor_type: t.to_string(), frequency, power, squelti }
}

fn status(t: &str, frequency: u32, power: u32, squelti: u32) -> SensorStatus {
    SensorStatus { sensor_type: t.to_string(), frequency, power, squelti }
}

fn zero_config() -> SensorConfig {
    config("", 0, 0, 0)
}

/// Runs the subscriber decisions over the items into an in-memory store, as
/// the store task does.
fn drain(store: &mut HashMap<String, SensorStatus>, items: Vec<StatusItem>) -> bool {
    for item in items {
        match on_item(item) {
            SubscriberAction::Store { key, status } => {
                store.insert(key, status);
            }
            SubscriberAction::Skip => {}
            SubscriberAction::Stop => return false,
        }
    }
    true
}

fn read_status(store: &HashMap<String, SensorStatus>, key: &str) -> Reply<SensorConfig> {
    status_reply(store.get(key).cloned())
}

fn submit(p: &mut CommandPublisher, ticket: u64, c: SensorConfig) -> Vec<PublisherAction> {
    p.step(PublisherEvent::Submit { ticket, command: c })
}

#[test]
fn list_has_two_modules() {
    let r = sensor_list();
    assert_eq!(r.code, 200);
    assert_eq!(r.body.len(), 2);
    assert_eq!(r.body[0].name, "Sensor_Module_A");
    assert_eq!(r.body[0].path, "/sensor/module_A");
    assert_eq!(r.body[1].name, "Sensor_Module_B");
    assert_eq!(r.body[1].path, "/sensor/module_B");
}

#[test]
fn keys_are_sensor_types() {
    assert_eq!(config("radio", 1, 2, 3).key(), "radio");
    assert_eq!(status("gps", 1, 2, 3).key(), "gps");
    assert_eq!(status("", 0, 0, 0).key(), "");
}

#[test]
fn defaults_are_zero_valued() {
    assert_eq!(SensorConfig::default(), zero_config());
    assert_eq!(SensorStatus::default(), status("", 0, 0, 0));
}

#[test]
fn accepted_command_is_echoed() {
    let c = config("radio", u32::MAX, 0, 7);
    let r = config_reply(c.clone(), true);
    assert_eq!(r.code, STATUS_OK);
    assert_eq!(r.body, c);
}

#[test]
fn rejected_command_answers_zero() {
    let r = config_reply(config("radio", 100, 5, 2), false);
    assert_eq!(r.code, STATUS_INTERNAL_ERROR);
    assert_eq!(r.body, zero_config());
}

#[test]
fn publish_failure_releases_writer() {
    let mut p = CommandPublisher::new();
    let acts = submit(&mut p, 1, config("radio", 100, 5, 2));
    assert_eq!(acts, vec![PublisherAction::Publish { ticket: 1, command: config("radio", 100, 5, 2) }]);
    assert!(p.is_busy());
    let acts = p.step(PublisherEvent::Published { ok: false });
    assert_eq!(
        acts,
        vec![PublisherAction::Respond { ticket: 1, reply: Reply { code: 500, body: zero_config() } }]
    );
    assert!(!p.is_busy());
    let acts = submit(&mut p, 2, config("radio", 101, 5, 2));
    assert_eq!(acts, vec![PublisherAction::Publish { ticket: 2, command: config("radio", 101, 5, 2) }]);
    let acts = p.step(PublisherEvent::Published { ok: true });
    assert_eq!(
        acts,
        vec![PublisherAction::Respond { ticket: 2, reply: Reply { code: 200, body: config("radio", 101, 5, 2) } }]
    );
}

#[test]
fn concurrent_submits_never_overlap() {
    let mut p = CommandPublisher::new();
    let mut all = Vec::new();
    all.extend(submit(&mut p, 1, config("a", 1, 1, 1)));
    all.extend(submit(&mut p, 2, config("b", 2, 2, 2)));
    all.extend(submit(&mut p, 3, config("c", 3, 3, 3)));
    all.extend(p.step(PublisherEvent::Published { ok: true }));
    all.extend(submit(&mut p, 4, config("d", 4, 4, 4)));
    all.extend(p.step(PublisherEvent::Published { ok: false }));
    all.extend(p.step(PublisherEvent::Published { ok: true }));
    all.extend(p.step(PublisherEvent::Published { ok: true }));
    all.extend(p.step(PublisherEvent::Published { ok: true }));
    assert!(!p.is_busy());
    let mut held = false;
    let mut published = Vec::new();
    let mut answered = Vec::new();
    for a in &all {
        match a {
            PublisherAction::Publish { ticket, .. } => {
                assert!(!held);
                held = true;
                published.push(*ticket);
            }
            PublisherAction::Respond { ticket, reply } => {
                assert!(held);
                held = false;
                answered.push((*ticket, reply.code));
            }
        }
    }
    assert_eq!(published, vec![1, 2, 3, 4]);
    assert_eq!(answered, vec![(1, 200), (2, 500), (3, 200), (4, 200)]);
}

#[test]
fn stray_completion_is_ignored() {
    let mut p = CommandPublisher::new();
    assert!(p.step(PublisherEvent::Published { ok: true }).is_empty());
    assert!(!p.is_busy());
}

#[test]
fn last_write_wins_per_key() {
    let mut store = HashMap::new();
    let running = drain(
        &mut store,
        vec![
            StatusItem::Value(status("radio", 1, 1, 1)),
            StatusItem::Value(status("gps", 9, 9, 9)),
            StatusItem::Value(status("radio", 2, 2, 2)),
            StatusItem::Disposed,
            StatusItem::Failed,
            StatusItem::Value(status("radio", 3, 3, 3)),
        ],
    );
    assert!(running);
    let r = read_status(&store, "radio");
    assert_eq!(r.code, 200);
    assert_eq!(r.body, config("radio", 3, 3, 3));
    assert_eq!(read_status(&store, "gps").body, config("gps", 9, 9, 9));
}

#[test]
fn end_of_stream_stops_loop() {
    let mut store = HashMap::new();
    let running = drain(
        &mut store,
        vec![
            StatusItem::Value(status("radio", 1, 1, 1)),
            StatusItem::Ended,
            StatusItem::Value(status("radio", 2, 2, 2)),
        ],
    );
    assert!(!running);
    assert_eq!(read_status(&store, "radio").body, config("radio", 1, 1, 1));
}

#[test]
fn disposal_keeps_stale_entry() {
    assert_eq!(on_item(StatusItem::Disposed), SubscriberAction::Skip);
    assert_eq!(on_item(StatusItem::Failed), SubscriberAction::Skip);
    assert_eq!(on_item(StatusItem::Ended), SubscriberAction::Stop);
    assert_eq!(
        on_item(StatusItem::Value(status("radio", 0, u32::MAX, 0))),
        SubscriberAction::Store { key: "radio".to_string(), status: status("radio", 0, u32::MAX, 0) }
    );
}

#[test]
fn unknown_key_reads_zero() {
    let store = HashMap::new();
    let r = read_status(&store, "radio");
    assert_eq!(r.code, 500);
    assert_eq!(r.body, zero_config());
    let r = status_reply(None);
    assert_eq!(r.code, 500);
    assert_eq!(r.body, zero_config());
}

#[test]
fn radio_round_scenario() {
    let mut p = CommandPublisher::new();
    let cmd = config("radio", 100, 5, 2);
    let acts = submit(&mut p, 7, cmd.clone());
    assert_eq!(acts, vec![PublisherAction::Publish { ticket: 7, command: cmd.clone() }]);
    let acts = p.step(PublisherEvent::Published { ok: true });
    assert_eq!(acts, vec![PublisherAction::Respond { ticket: 7, reply: Reply { code: 200, body: cmd.clone() } }]);

    let mut store = HashMap::new();
    assert!(drain(&mut store, vec![StatusItem::Value(status("radio", 100, 5, 2))]));
    let r = read_status(&store, "radio");
    assert_eq!(r.code, 200);
    assert_eq!(r.body, cmd);

    submit(&mut p, 8, config("radio", 100, 5, 2));
    let acts = p.step(PublisherEvent::Published { ok: false });
    assert_eq!(acts, vec![PublisherAction::Respond { ticket: 8, reply: Reply { code: 500, body: zero_config() } }]);
}
