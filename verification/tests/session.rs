use sacana::events::RawEvent;
use sacana::handler::{check_channels, get_users, newest_timestamp, prepare_replay};
use sacana::handler::{CommandHandler, Directory};
use sacana::runtime_error::Error;
use sacana::slack::{Channel, ChannelType};
use sacana::timestamp::{parse_timestamp, Timestamp};

fn handler() -> CommandHandler {
    let mut users = Directory::new();
    users.upsert("U2".to_string(), "alice".to_string());
    CommandHandler {
        pic_of_response: true,
        api_token: "test-token".to_string(),
        local_host_name: "hostB".to_string(),
        hosts: vec!["hostB".to_string()],
        channels: vec!["C1".to_string()],
        users,
        my_id: "U1".to_string(),
        uri_format: "https://k/{}".to_string(),
        last_timestamp: None,
    }
}

fn chat(channel: &str, user: &str, text: &str, ts: &str) -> RawEvent {
    RawEvent {
        event_type: Some("message".to_string()),
        channel: Some(channel.to_string()),
        user: Some(user.to_string()),
        text: Some(text.to_string()),
        ts: Some(ts.to_string()),
        changed_user_id: None,
        changed_user_name: None,
    }
}

fn history(ts: &str) -> RawEvent {
    RawEvent {
        event_type: Some("message".to_string()),
        channel: None,
        user: Some("U3".to_string()),
        text: Some("noise".to_string()),
        ts: Some(ts.to_string()),
        changed_user_id: None,
        changed_user_name: None,
    }
}

#[test]
fn watermark_tracks_the_last_event_of_a_sequence() {
    let mut h = handler();
    let kind = Some(ChannelType::PublicChannel);
    for ts in ["1.000000", "2.000000", "3.000000"] {
        let o = h.on_event(&chat("C1", "U3", "noise", ts), kind);
        assert!(o.skipped.is_none());
    }
    assert_eq!(h.last_timestamp, parse_timestamp("3.000000"));
}

#[test]
fn watermark_never_regresses() {
    let mut h = handler();
    let kind = Some(ChannelType::PublicChannel);
    h.on_event(&chat("C1", "U3", "noise", "5.000000"), kind);
    h.on_event(&chat("C1", "U3", "late", "2.000000"), kind);
    assert_eq!(h.last_timestamp, parse_timestamp("5.000000"));
}

#[test]
fn watermark_moves_for_messages_that_bear_no_command() {
    let mut h = handler();
    let o = h.on_event(
        &chat("C1", "U3", "no mention here", "4.000000"),
        Some(ChannelType::PublicChannel),
    );
    assert!(o.effects.is_empty());
    assert_eq!(h.last_timestamp, parse_timestamp("4.000000"));
}

#[test]
fn control_events_leave_the_watermark_alone() {
    let mut h = handler();
    let hello = RawEvent {
        event_type: Some("hello".to_string()),
        channel: None,
        user: None,
        text: None,
        ts: None,
        changed_user_id: None,
        changed_user_name: None,
    };
    let o = h.on_event(&hello, None);
    assert!(!o.goodbye);
    assert!(o.skipped.is_none());
    assert!(h.last_timestamp.is_none());
}

#[test]
fn goodbye_ends_the_listen_loop() {
    let mut h = handler();
    let bye = RawEvent {
        event_type: Some("goodbye".to_string()),
        channel: None,
        user: None,
        text: None,
        ts: None,
        changed_user_id: None,
        changed_user_name: None,
    };
    let o = h.on_event(&bye, None);
    assert!(o.goodbye);
}

#[test]
fn directory_changes_update_the_cache() {
    let mut h = handler();
    let ev = RawEvent {
        event_type: Some("team_join".to_string()),
        channel: None,
        user: None,
        text: None,
        ts: None,
        changed_user_id: Some("U9".to_string()),
        changed_user_name: Some("carol".to_string()),
    };
    let o = h.on_event(&ev, None);
    assert!(o.skipped.is_none());
    assert_eq!(h.users.get("U9"), Some("carol".to_string()));
}

#[test]
fn directory_lookup_takes_the_latest_entry() {
    let mut d = Directory::new();
    d.upsert("U2".to_string(), "alice".to_string());
    d.upsert("U2".to_string(), "alicia".to_string());
    assert_eq!(d.get("U2"), Some("alicia".to_string()));
    assert_eq!(d.get("U9"), None);
}

#[test]
fn replay_processes_missed_and_live_events_exactly_once_in_order() {
    let mut h = handler();
    let kind = Some(ChannelType::PublicChannel);
    // Live traffic up to the disconnect.
    h.on_event(&chat("C1", "U3", "before", "2.000000"), kind);
    let watermark = h.last_timestamp;
    assert_eq!(watermark, parse_timestamp("2.000000"));

    // The platform answers a history request strictly newer than the
    // watermark, newest first.
    let fetched = vec![history("5.000000"), history("4.000000"), history("3.000000")];
    for m in &fetched {
        let ts = parse_timestamp(m.ts.as_deref().unwrap()).unwrap();
        let w = watermark.unwrap();
        assert!(w.secs < ts.secs || (w.secs == ts.secs && w.nanos < ts.nanos));
    }
    let newest = newest_timestamp(&fetched).unwrap();
    assert_eq!(newest, parse_timestamp("5.000000"));

    // Replay runs oldest first through the very same pipeline.
    let replay = prepare_replay(fetched, "C1");
    let tss: Vec<&str> = replay.iter().map(|m| m.ts.as_deref().unwrap()).collect();
    assert_eq!(tss, vec!["3.000000", "4.000000", "5.000000"]);
    let mut seen: Vec<String> = Vec::new();
    for m in &replay {
        assert_eq!(m.channel.as_deref(), Some("C1"));
        let o = h.on_event(m, kind);
        assert!(o.skipped.is_none());
        seen.push(m.ts.clone().unwrap());
    }
    h.absorb_timestamps(vec![newest]);
    assert_eq!(h.last_timestamp, parse_timestamp("5.000000"));

    // Resumed live listening continues from there; nothing is seen twice.
    let o = h.on_event(&chat("C1", "U3", "after", "6.000000"), kind);
    assert!(o.skipped.is_none());
    seen.push("6.000000".to_string());
    assert_eq!(h.last_timestamp, parse_timestamp("6.000000"));
    let mut sorted = seen.clone();
    sorted.sort();
    sorted.dedup();
    assert_eq!(sorted, seen, "the union of missed and live events, in order, none twice");
}

#[test]
fn catch_up_with_an_unreadable_timestamp_is_fatal() {
    let fetched = vec![history("not-a-timestamp")];
    assert!(matches!(newest_timestamp(&fetched), Err(Error::BadTimestamp)));
}

#[test]
fn the_host_list_reads_one_name_per_line() {
    let hosts = sacana::handler::parse_host_list("\nhostB\nhostC\n");
    assert_eq!(hosts, vec!["hostB".to_string(), "hostC".to_string()]);
    assert_eq!(hosts[0], "hostB", "the first entry is the designated responder");
}

#[test]
fn channel_names_resolve_to_identifiers() {
    let listed = vec![
        Channel { id: "C1".to_string(), name: "ops".to_string() },
        Channel { id: "C2".to_string(), name: "general".to_string() },
        Channel { id: "C3".to_string(), name: "ops".to_string() },
    ];
    let ids = check_channels(&listed, &vec!["ops".to_string(), "general".to_string()]).unwrap();
    assert_eq!(ids, vec!["C3".to_string(), "C2".to_string()]);
}

#[test]
fn a_missing_channel_fails_the_directory_refresh() {
    let listed = vec![Channel { id: "C1".to_string(), name: "ops".to_string() }];
    let r = check_channels(&listed, &vec!["nowhere".to_string()]);
    match r {
        Err(Error::NoChannel(n)) => {
            assert_eq!(n, "nowhere");
        },
        _ => panic!("a missing channel is fatal for the refresh"),
    }
}

#[test]
fn member_records_build_the_directory() {
    let a: serde_json::Value =
        "{\"id\":\"U2\",\"profile\":{\"display_name_normalized\":\"alice\"}}".parse().unwrap();
    let b: serde_json::Value =
        "{\"id\":\"U3\",\"profile\":{\"display_name_normalized\":\"bob\"}}".parse().unwrap();
    let d = get_users(&vec![a, b]).unwrap();
    assert_eq!(d.get("U2"), Some("alice".to_string()));
    assert_eq!(d.get("U3"), Some("bob".to_string()));
}

#[test]
fn a_directory_built_from_pairs_is_exactly_their_snapshot() {
    let d = sacana::handler::build_directory(vec![
        ("U2".to_string(), "alice".to_string()),
        ("U3".to_string(), "bob".to_string()),
        ("U2".to_string(), "alicia".to_string()),
    ]);
    assert_eq!(d.get("U2"), Some("alicia".to_string()));
    assert_eq!(d.get("U3"), Some("bob".to_string()));
    assert_eq!(d.get("U4"), None);
}

#[test]
fn member_records_extract_to_pairs_in_order() {
    let a: serde_json::Value =
        "{\"id\":\"U2\",\"profile\":{\"display_name_normalized\":\"alice\"}}".parse().unwrap();
    let b: serde_json::Value =
        "{\"id\":\"U3\",\"profile\":{\"display_name_normalized\":\"bob\"}}".parse().unwrap();
    let ps = sacana::handler::member_pairs(&vec![a, b]).unwrap();
    assert_eq!(
        ps,
        vec![("U2".to_string(), "alice".to_string()), ("U3".to_string(), "bob".to_string())]
    );
}

#[test]
fn the_reachability_probe_stops_retries_or_gives_up() {
    let step = sacana::slack::retry_step;
    assert!(matches!(step(0, true), sacana::slack::RetryAction::Stop));
    assert!(matches!(step(4, true), sacana::slack::RetryAction::Stop));
    assert!(matches!(step(0, false), sacana::slack::RetryAction::SleepAndRetry));
    assert!(matches!(step(3, false), sacana::slack::RetryAction::SleepAndRetry));
    assert!(matches!(step(4, false), sacana::slack::RetryAction::Fail));
    assert!(matches!(step(9, false), sacana::slack::RetryAction::Fail));
}

#[test]
fn a_member_record_without_a_name_fails_the_refresh() {
    let a: serde_json::Value = "{\"id\":\"U2\"}".parse().unwrap();
    let r = get_users(&vec![a]);
    assert!(r.is_err());
}

#[test]
fn startup_is_announced_in_every_monitored_channel() {
    let h = handler();
    let es = h.report_startup();
    assert_eq!(es.len(), 1);
    match &es[0] {
        sacana::slack::Effect::Post { channel, text } => {
            assert_eq!(channel, "C1");
            assert_eq!(text, "Hello, this is sacana@hostB.");
        },
        _ => panic!("the announcement is a channel post"),
    }
}

#[test]
fn absorbing_timestamps_folds_them_forward() {
    let mut h = handler();
    h.absorb_timestamps(vec![
        Some(Timestamp { secs: 3, nanos: 0 }),
        None,
        Some(Timestamp { secs: 2, nanos: 0 }),
    ]);
    assert_eq!(h.last_timestamp, Some(Timestamp { secs: 3, nanos: 0 }));
}
