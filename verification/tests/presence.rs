use routecord::config::Config;
use routecord::presence::{clone_kv_if_some, PresenceAssets, PresencePayload};
use routecord::rpc::{DiscordRPC, RpcCommand, SyncAttempt};
use serde_json::Value;
use std::sync::Arc;

const SECRETS: &[u8] = br#"{"token": "t", "user_id": 1}"#;

fn config(settings: &str) -> Arc<Config> {
    Arc::new(Config::new(Some(settings.as_bytes()), Some(SECRETS)).expect("a configuration"))
}

fn names(list: &[&str]) -> Vec<String> {
    list.iter().map(|name| name.to_string()).collect()
}

fn text(value: &str) -> Value {
    Value::String(value.to_string())
}

fn applied(command: RpcCommand) -> PresencePayload {
    match command {
        RpcCommand::Apply(payload) => payload,
        RpcCommand::Keep => panic!("expected an Apply, got Keep"),
        RpcCommand::Clear => panic!("expected an Apply, got Clear"),
    }
}

#[test]
fn first_of_two_templates_wins() {
    let mut rpc = DiscordRPC::new(config(
        r#"{"rpc": {"A": {"name": "from a"}, "B": {"name": "from b"}}}"#,
    ));
    let outcome = rpc.tick(&names(&["A", "B"]));
    assert!(outcome.warnings.is_empty());
    let payload = applied(outcome.command);
    assert_eq!(payload.name, text("from a"));
}

#[test]
fn order_of_enumeration_decides() {
    let mut rpc = DiscordRPC::new(config(
        r#"{"rpc": {"A": {"name": "from a"}, "B": {"name": "from b"}}}"#,
    ));
    let payload = applied(rpc.tick(&names(&["B", "A"])).command);
    assert_eq!(payload.name, text("from b"));
}

#[test]
fn second_process_wins_where_first_has_no_template() {
    let mut rpc = DiscordRPC::new(config(r#"{"rpc": {"B": {"name": "from b"}}}"#));
    let outcome = rpc.tick(&names(&["A", "B"]));
    assert!(outcome.warnings.is_empty());
    let payload = applied(outcome.command);
    assert_eq!(payload.name, text("from b"));
}

#[test]
fn same_payload_on_two_ticks_is_applied_once() {
    let mut rpc = DiscordRPC::new(config(r#"{"rpc": {"A": {"name": "a", "state": "s"}}}"#));
    let running = names(&["A"]);
    let payload = applied(rpc.tick(&running).command);
    rpc.confirm(payload, true);
    let second = rpc.tick(&running);
    assert!(matches!(second.command, RpcCommand::Keep));
    assert_eq!(second.process, Some("A".to_string()));
    assert!(matches!(rpc.tick(&running).command, RpcCommand::Keep));
    assert_eq!(rpc.last_set_rpc().expect("a presence").name, text("a"));
}

#[test]
fn disappearing_process_clears_and_goes_idle() {
    let mut rpc = DiscordRPC::new(config(r#"{"rpc": {"A": {"name": "a"}}}"#));
    let payload = applied(rpc.tick(&names(&["A"])).command);
    rpc.confirm(payload, true);
    assert!(rpc.last_set_rpc().is_some());
    let outcome = rpc.tick(&names(&["other"]));
    assert!(matches!(outcome.command, RpcCommand::Clear));
    assert!(outcome.warnings.is_empty());
    assert!(rpc.last_set_rpc().is_none());
}

#[test]
fn empty_process_list_clears() {
    let mut rpc = DiscordRPC::new(config(r#"{"rpc": {"A": {"name": "a"}}}"#));
    let outcome = rpc.tick(&Vec::new());
    assert!(matches!(outcome.command, RpcCommand::Clear));
    assert!(rpc.last_set_rpc().is_none());
}

#[test]
fn template_without_name_is_never_applied_and_warns_once() {
    let mut rpc = DiscordRPC::new(config(r#"{"rpc": {"A": {"details": "d", "state": "s"}}}"#));
    for _ in 0..3 {
        let outcome = rpc.tick(&names(&["A"]));
        assert!(matches!(outcome.command, RpcCommand::Clear));
        assert_eq!(outcome.warnings, vec!["A".to_string()]);
        assert!(rpc.last_set_rpc().is_none());
    }
}

#[test]
fn nameless_template_is_skipped_and_the_next_candidate_wins() {
    let mut rpc = DiscordRPC::new(config(
        r#"{"rpc": {"A": {"details": "d"}, "B": {"name": "from b"}}}"#,
    ));
    let outcome = rpc.tick(&names(&["x", "A", "y", "B", "A"]));
    assert_eq!(outcome.warnings, vec!["A".to_string()]);
    assert_eq!(outcome.process, Some("B".to_string()));
    assert_eq!(applied(outcome.command).name, text("from b"));
}

#[test]
fn every_listed_nameless_candidate_is_warned_about() {
    let mut rpc = DiscordRPC::new(config(r#"{"rpc": {"A": {}, "C": {"state": 1}}}"#));
    let outcome = rpc.tick(&names(&["A", "B", "C", "A"]));
    assert!(matches!(outcome.command, RpcCommand::Clear));
    assert_eq!(outcome.process, None);
    assert_eq!(outcome.warnings, names(&["A", "C", "A"]));
}

#[test]
fn refused_payload_is_not_remembered() {
    let mut rpc = DiscordRPC::new(config(r#"{"rpc": {"A": {"name": "a"}}}"#));
    let running = names(&["A"]);
    let payload = applied(rpc.tick(&running).command);
    rpc.confirm(payload, false);
    assert!(rpc.last_set_rpc().is_none());
    let again = applied(rpc.tick(&running).command);
    assert_eq!(again.name, text("a"));
}

#[test]
fn refused_change_keeps_the_presence_shown_before() {
    let mut rpc = DiscordRPC::new(config(
        r#"{"rpc": {"A": {"name": "a"}, "B": {"name": "b"}}}"#,
    ));
    let first = applied(rpc.tick(&names(&["A"])).command);
    rpc.confirm(first, true);
    let second = applied(rpc.tick(&names(&["B"])).command);
    assert_eq!(second.name, text("b"));
    rpc.confirm(second, false);
    assert_eq!(rpc.last_set_rpc().expect("a presence").name, text("a"));
    assert!(matches!(rpc.tick(&names(&["A"])).command, RpcCommand::Keep));
}

#[test]
fn changed_winner_is_applied() {
    let mut rpc = DiscordRPC::new(config(
        r#"{"rpc": {"A": {"name": "a"}, "B": {"name": "b"}}}"#,
    ));
    let first = applied(rpc.tick(&names(&["A", "B"])).command);
    rpc.confirm(first, true);
    let second = applied(rpc.tick(&names(&["B"])).command);
    assert_eq!(second.name, text("b"));
    rpc.confirm(second, true);
    assert_eq!(rpc.last_set_rpc().expect("a presence").name, text("b"));
}

#[test]
fn starting_the_watch_clears() {
    let mut rpc = DiscordRPC::new(config(r#"{"rpc": {"A": {"name": "a"}}}"#));
    assert!(matches!(rpc.start_process_watcher(), RpcCommand::Clear));
    assert!(rpc.last_set_rpc().is_none());
    let payload = applied(rpc.tick(&names(&["A"])).command);
    rpc.confirm(payload, true);
    assert!(matches!(rpc.start_process_watcher(), RpcCommand::Clear));
    assert!(rpc.last_set_rpc().is_none());
}

#[test]
fn settings_without_templates_always_clear() {
    let mut rpc = DiscordRPC::new(config(r#"{"enable_rpc": true}"#));
    let outcome = rpc.tick(&names(&["A", "B"]));
    assert!(matches!(outcome.command, RpcCommand::Clear));
    assert!(outcome.warnings.is_empty());
}

#[test]
fn one_process_is_judged_by_its_template_and_by_what_is_shown() {
    let mut rpc = DiscordRPC::new(config(
        r#"{"rpc": {"A": {"name": "a"}, "N": {"state": "s"}}}"#,
    ));
    assert!(matches!(rpc.try_sync_rpc_to_process("none"), SyncAttempt::NoTemplate));
    assert!(matches!(rpc.try_sync_rpc_to_process("N"), SyncAttempt::MissingName));
    let payload = match rpc.try_sync_rpc_to_process("A") {
        SyncAttempt::Changed(payload) => payload,
        _ => panic!("expected a changed payload"),
    };
    rpc.confirm(payload, true);
    assert!(matches!(rpc.try_sync_rpc_to_process("A"), SyncAttempt::Unchanged));
}

#[test]
fn payload_copies_the_entries_that_are_there() {
    let template: Value = serde_json::from_str(
        r#"{"name": "n", "details": "d", "state": "s", "type": 3, "other": true,
            "assets": {"large_image": "li", "small_text": "st", "extra": 1}}"#,
    )
    .unwrap();
    let payload = PresencePayload::from_template(&template).expect("a payload");
    assert_eq!(payload.name, text("n"));
    assert_eq!(payload.details, Some(text("d")));
    assert_eq!(payload.state, Some(text("s")));
    assert_eq!(payload.activity_type, Some(Value::from(3u64)));
    let assets = payload.assets.expect("assets");
    assert_eq!(assets.large_image, Some(text("li")));
    assert_eq!(assets.large_text, None);
    assert_eq!(assets.small_image, None);
    assert_eq!(assets.small_text, Some(text("st")));
}

#[test]
fn payload_makes_nothing_up() {
    let template: Value = serde_json::from_str(r#"{"name": null}"#).unwrap();
    let payload = PresencePayload::from_template(&template).expect("a payload");
    assert_eq!(payload.name, Value::Null);
    assert_eq!(payload.details, None);
    assert_eq!(payload.state, None);
    assert_eq!(payload.activity_type, None);
    assert!(payload.assets.is_none());
}

#[test]
fn template_without_name_gives_no_payload() {
    let template: Value = serde_json::from_str(r#"{"details": "d", "assets": {}}"#).unwrap();
    assert!(PresencePayload::from_template(&template).is_none());
    assert!(PresencePayload::from_template(&text("name")).is_none());
    assert!(PresencePayload::from_template(&Value::Null).is_none());
}

#[test]
fn assets_that_are_no_object_give_empty_assets() {
    let template: Value = serde_json::from_str(r#"{"name": "n", "assets": 5}"#).unwrap();
    let payload = PresencePayload::from_template(&template).expect("a payload");
    let assets = payload.assets.expect("assets");
    assert_eq!(assets.large_image, None);
    assert_eq!(assets.large_text, None);
    assert_eq!(assets.small_image, None);
    assert_eq!(assets.small_text, None);
}

#[test]
fn assets_are_copied_entry_by_entry() {
    let declared: Value = serde_json::from_str(
        r#"{"large_image": 1, "large_text": "lt", "small_image": [2], "small_text": null}"#,
    )
    .unwrap();
    let assets = PresenceAssets::from_template(&declared);
    assert_eq!(assets.large_image, Some(Value::from(1u64)));
    assert_eq!(assets.large_text, Some(text("lt")));
    assert_eq!(assets.small_image, Some(Value::Array(vec![Value::from(2u64)])));
    assert_eq!(assets.small_text, Some(Value::Null));
}

#[test]
fn copying_an_entry_takes_the_entry_and_not_its_parent() {
    let target: Value = serde_json::from_str(r#"{"key": {"inner": 1}, "k": 2}"#).unwrap();
    let inner: Value = serde_json::from_str(r#"{"inner": 1}"#).unwrap();
    assert_eq!(clone_kv_if_some("key", &target), Some(inner));
    assert_eq!(clone_kv_if_some("k", &target), Some(Value::from(2u64)));
    assert_eq!(clone_kv_if_some("inner", &target), None);
    assert_eq!(clone_kv_if_some("key", &Value::Array(Vec::new())), None);
}

#[test]
fn payloads_are_compared_by_value() {
    let build = |source: &str| {
        let template: Value = serde_json::from_str(source).unwrap();
        PresencePayload::from_template(&template).expect("a payload")
    };
    let base = build(r#"{"name": "n", "details": "d", "assets": {"large_text": "x"}}"#);
    assert!(base.same(&build(r#"{"assets": {"large_text": "x"}, "details": "d", "name": "n"}"#)));
    assert!(!base.same(&build(r#"{"name": "m", "details": "d", "assets": {"large_text": "x"}}"#)));
    assert!(!base.same(&build(r#"{"name": "n", "assets": {"large_text": "x"}}"#)));
    assert!(!base.same(&build(r#"{"name": "n", "details": "d"}"#)));
    assert!(!base.same(&build(r#"{"name": "n", "details": "d", "assets": {"large_text": "y"}}"#)));
    assert!(!base.same(&build(r#"{"name": "n", "details": "d", "state": 1, "assets": {"large_text": "x"}}"#)));
    assert!(!base.same(&build(r#"{"name": "n", "details": "d", "type": 0, "assets": {"large_text": "x"}}"#)));
    let one = build(r#"{"name": 1}"#);
    assert!(one.same(&build(r#"{"name": 1}"#)));
    assert!(!one.same(&build(r#"{"name": 1.0}"#)));
    assert!(!one.same(&build(r#"{"name": "1"}"#)));
}

#[test]
fn assets_are_compared_by_value() {
    let build = |source: &str| {
        let declared: Value = serde_json::from_str(source).unwrap();
        PresenceAssets::from_template(&declared)
    };
    let base = build(r#"{"large_image": "a", "small_image": "b"}"#);
    assert!(base.same(&build(r#"{"small_image": "b", "large_image": "a", "unused": 1}"#)));
    assert!(!base.same(&build(r#"{"large_image": "a"}"#)));
    assert!(!base.same(&build(r#"{"large_image": "a", "small_image": "c"}"#)));
    assert!(!base.same(&build(r#"{"large_image": "a", "small_image": "b", "small_text": "t"}"#)));
    assert!(!base.same(&build(r#"{"large_image": "a", "small_image": "b", "large_text": "t"}"#)));
}
