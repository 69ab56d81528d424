use sacana::handler::{CommandHandler, Directory};
use sacana::linux_user_manage::{LinuxError, StepRequest, StepResult};
use sacana::runtime_error::{Error, JsonError};
use sacana::slack::{add_reaction, post_message, ChannelType, Effect};

fn handler() -> CommandHandler {
    let mut users = Directory::new();
    users.upsert("U2".to_string(), "alice".to_string());
    CommandHandler {
        pic_of_response: true,
        api_token: "test-token".to_string(),
        local_host_name: "hostB".to_string(),
        hosts: vec!["hostB".to_string()],
        channels: vec!["C1".to_string()],
        users,
        my_id: "U1".to_string(),
        uri_format: "https://k/{}".to_string(),
        last_timestamp: None,
    }
}

fn chat_event(channel: &str, user: &str, text: &str, ts: &str) -> sacana::events::RawEvent {
    sacana::events::RawEvent {
        event_type: Some("message".to_string()),
        channel: Some(channel.to_string()),
        user: Some(user.to_string()),
        text: Some(text.to_string()),
        ts: Some(ts.to_string()),
        changed_user_id: None,
        changed_user_name: None,
    }
}

fn post_text(e: &Effect) -> &str {
    match e {
        Effect::Post { text, .. } => text,
        _ => panic!("expected a channel post"),
    }
}

fn react_name(e: &Effect) -> &str {
    match e {
        Effect::React { name, .. } => name,
        _ => panic!("expected a reaction"),
    }
}

#[test]
fn create_for_another_host_stays_silent() {
    let h = handler();
    let mut hosts = h.hosts.clone();
    hosts.push("hostC".to_string());
    let h = CommandHandler { hosts, ..h };
    let ev = chat_event("C1", "U2", "<@U1> create hostC", "3.000100");
    let o = h.message(&ev, Some(ChannelType::PublicChannel)).unwrap();
    assert!(o.effects.is_empty());
    assert!(o.pending.is_none());
    assert!(o.ts.is_some());
}

#[test]
fn create_for_an_unknown_host_is_rejected_without_any_action() {
    let h = handler();
    let ev = chat_event("C1", "U2", "<@U1> create hostA", "3.000100");
    let o = h.message(&ev, Some(ChannelType::PublicChannel)).unwrap();
    assert!(o.pending.is_none(), "no account action may start for a foreign host");
    assert_eq!(o.effects.len(), 3);
    assert_eq!(post_text(&o.effects[0]), "<@U2> Invalid hostname 'hostA'.");
    assert_eq!(react_name(&o.effects[1]), "x");
    assert!(matches!(&o.effects[2], Effect::PostEphemeralHelp { .. }));
}

#[test]
fn create_on_the_local_host_starts_the_account_action() {
    let h = handler();
    let ev = chat_event("C1", "U2", "<@U1> create hostB", "3.000100");
    let o = h.message(&ev, Some(ChannelType::PublicChannel)).unwrap();
    assert!(o.effects.is_empty());
    let p = o.pending.expect("the local host must act");
    assert_eq!(p.user_id, "U2");
    assert_eq!(p.channel, "C1");
    assert_eq!(p.timestamp, "3.000100");
    assert_eq!(p.slack_message, "creating account is succeeded.");
    match p.task.request() {
        Some(StepRequest::HttpHead { uri }) => assert_eq!(uri, "https://k/alice"),
        _ => panic!("a create begins by probing the key source"),
    }
}

#[test]
fn existing_account_fails_the_create_and_skips_the_key_refresh() {
    let h = handler();
    let ev = chat_event("C1", "U2", "<@U1> create hostB", "3.000100");
    let o = h.message(&ev, Some(ChannelType::PublicChannel)).unwrap();
    let p = o.pending.unwrap();
    let mut task = p.task;
    task.advance(StepResult::Http { success: true, body: String::new() });
    assert!(matches!(task.request(), Some(StepRequest::ReadPasswd)));
    task.advance(StepResult::Lines {
        lines: vec!["alice:x:1000:1000:,:/home/alice:/bin/bash".to_string()],
    });
    assert!(task.request().is_none(), "a failed action asks for nothing more");
    let outcome = task.into_outcome().unwrap();
    let err = outcome.unwrap_err();
    assert_eq!(err.message(), "Your account already exists on hostB");
    let es = h.handle_command_result(&p.user_id, &p.channel, &p.timestamp, Err(err), "", "");
    assert_eq!(es.len(), 2);
    assert_eq!(post_text(&es[0]), "<@U2> Your account already exists on hostB");
    assert_eq!(react_name(&es[1]), "x");
}

#[test]
fn a_create_runs_through_probe_user_keys_and_permissions() {
    let h = handler();
    let ev = chat_event("C1", "U2", "<@U1> create hostB", "3.000100");
    let p = h.message(&ev, Some(ChannelType::PublicChannel)).unwrap().pending.unwrap();
    let mut task = p.task;
    task.advance(StepResult::Http { success: true, body: String::new() });
    assert!(matches!(task.request(), Some(StepRequest::ReadPasswd)));
    task.advance(StepResult::Lines { lines: vec![] });
    match task.request() {
        Some(StepRequest::Run { program, args }) => {
            assert_eq!(program, "useradd");
            assert_eq!(args, vec!["-m", "-s", "/bin/bash", "-p", "", "alice"]);
        },
        _ => panic!("an absent account is created next"),
    }
    task.advance(StepResult::Status { success: true, code: Some(0) });
    assert!(matches!(task.request(), Some(StepRequest::ReadPasswd)));
    task.advance(StepResult::Lines {
        lines: vec!["alice:x:1000:1000:,:/home/alice:/bin/bash".to_string()],
    });
    match task.request() {
        Some(StepRequest::MakeDir { path }) => assert_eq!(path, "/home/alice/.ssh"),
        _ => panic!("the ssh directory comes next"),
    }
    task.advance(StepResult::Io { ok: true, message: String::new() });
    match task.request() {
        Some(StepRequest::HttpGet { uri }) => assert_eq!(uri, "https://k/alice"),
        _ => panic!("the keys are fetched next"),
    }
    task.advance(StepResult::Http { success: true, body: "ssh-ed25519 AAA".to_string() });
    match task.request() {
        Some(StepRequest::WriteFile { path, contents }) => {
            assert_eq!(path, "/home/alice/.ssh/authorized_keys");
            assert_eq!(contents, "ssh-ed25519 AAA");
        },
        _ => panic!("the keys are written next"),
    }
    task.advance(StepResult::Io { ok: true, message: String::new() });
    match task.request() {
        Some(StepRequest::Run { program, args }) => {
            assert_eq!(program, "chmod");
            assert_eq!(args, vec!["700", "/home/alice/.ssh"]);
        },
        _ => panic!("permissions are restricted next"),
    }
    task.advance(StepResult::Status { success: true, code: Some(0) });
    match task.request() {
        Some(StepRequest::Run { program, args }) => {
            assert_eq!(program, "chown");
            assert_eq!(args, vec!["-R", "alice:alice", "/home/alice/.ssh"]);
        },
        _ => panic!("ownership is handed over last"),
    }
    task.advance(StepResult::Status { success: true, code: Some(0) });
    assert!(task.request().is_none());
    assert!(task.into_outcome().unwrap().is_ok());
}

#[test]
fn join_checks_the_account_then_calls_usermod() {
    let h = handler();
    let ev = chat_event("C1", "U2", "<@U1> join devs hostB", "3.000100");
    let p = h.message(&ev, Some(ChannelType::PublicChannel)).unwrap().pending.unwrap();
    assert_eq!(p.slack_message, "joined devs group.");
    let mut task = p.task;
    assert!(matches!(task.request(), Some(StepRequest::ReadPasswd)));
    task.advance(StepResult::Lines {
        lines: vec!["alice:x:1000:1000:,:/home/alice:/bin/bash".to_string()],
    });
    match task.request() {
        Some(StepRequest::Run { program, args }) => {
            assert_eq!(program, "usermod");
            assert_eq!(args, vec!["-aG", "devs", "alice"]);
        },
        _ => panic!("the group membership is changed next"),
    }
}

#[test]
fn update_for_a_missing_account_reports_it() {
    let h = handler();
    let ev = chat_event("C1", "U2", "<@U1> update hostB", "3.000100");
    let p = h.message(&ev, Some(ChannelType::PublicChannel)).unwrap().pending.unwrap();
    assert_eq!(p.slack_message, "updating key is succeeded.");
    let mut task = p.task;
    task.advance(StepResult::Lines { lines: vec![] });
    let err = task.into_outcome().unwrap().unwrap_err();
    assert_eq!(err.message(), "Your account doesn't exist on hostB");
}

#[test]
fn ping_answers_in_thread_even_without_the_responder_flag() {
    let h = CommandHandler { pic_of_response: false, ..handler() };
    let ev = chat_event("C1", "U2", "<@U1> ping", "3.000100");
    let o = h.message(&ev, Some(ChannelType::PublicChannel)).unwrap();
    assert_eq!(o.effects.len(), 1);
    match &o.effects[0] {
        Effect::PostToThread { channel, ts, text } => {
            assert_eq!(channel, "C1");
            assert_eq!(ts, "3.000100");
            assert_eq!(text, "pong@hostB");
        },
        _ => panic!("a ping is answered in-thread"),
    }
}

#[test]
fn invalid_commands_are_rejected_with_the_reference() {
    let h = handler();
    let o = h.dm("D1", "U2", "make me a sandwich", "4.000000").unwrap();
    assert_eq!(o.effects.len(), 3);
    assert_eq!(post_text(&o.effects[0]), "<@U2> Invalid command sequence.");
    assert_eq!(react_name(&o.effects[1]), "x");
    assert!(matches!(&o.effects[2], Effect::PostEphemeralHelp { .. }));
    assert!(o.pending.is_none());
}

#[test]
fn silent_processes_reject_nothing() {
    let h = CommandHandler { pic_of_response: false, ..handler() };
    let o = h.dm("D1", "U2", "nonsense", "4.000000").unwrap();
    assert!(o.effects.is_empty());
    assert!(o.ts.is_some(), "silent processes still move the watermark");
}

#[test]
fn help_in_a_direct_message_shows_the_reference() {
    let h = handler();
    let o = h.dm("D1", "U2", "help", "4.000000").unwrap();
    assert_eq!(o.effects.len(), 2);
    match &o.effects[0] {
        Effect::PostEphemeralHelp { channel, user, attachments } => {
            assert_eq!(channel, "D1");
            assert_eq!(user, "U2");
            assert_eq!(attachments.len(), 6);
            assert_eq!(attachments[0].color, "#007dc6");
            assert_eq!(
                attachments[0].text,
                "*<@U1> create _HOSTNAME_*\nCreates you an account on _HOSTNAME_"
            );
            assert_eq!(
                attachments[0].fallback,
                "*<@U1> create _HOSTNAME_*: creates you an account on _HOSTNAME_"
            );
            let fields = attachments[0].fields.as_ref().unwrap();
            assert_eq!(fields[0].title, "_HOSTNAME_");
            assert!(fields[0].short);
            assert_eq!(fields[1].title, "available on");
            assert_eq!(fields[1].value, "<#C1>");
            assert_eq!(
                attachments[1].text.contains("Retrieves all public keys from `https://k/alice`"),
                true
            );
            assert_eq!(attachments[4].fields.as_ref().unwrap()[0].value, "DM(<@U1>)");
            assert!(!attachments[4].fields.as_ref().unwrap()[0].short);
            assert_eq!(attachments[5].text, "*_HOSTNAME_ list*\n    hostB");
            assert_eq!(attachments[5].fallback, "*_HOSTNAME_ list*: hostB");
            assert!(attachments[5].fields.is_none());
        },
        _ => panic!("help shows the ephemeral reference"),
    }
    assert_eq!(react_name(&o.effects[1]), "ballot_box_with_check");
}

#[test]
fn successful_actions_are_confirmed_with_a_circle() {
    let h = handler();
    let es = h.handle_command_result("U2", "C1", "5.0", Ok(()), "", "creating account is succeeded.");
    assert_eq!(es.len(), 2);
    assert_eq!(post_text(&es[0]), "<@U2> creating account is succeeded.");
    assert_eq!(react_name(&es[1]), "o");
}

#[test]
fn effect_bodies_and_endpoints_are_exact() {
    let e = post_message("C1", "hi");
    assert_eq!(e.endpoint(), "https://slack.com/api/chat.postMessage");
    let params = e.params();
    assert_eq!(params.len(), 3);
    assert_eq!(params[0], ("channel".to_string(), "C1".to_string()));
    assert_eq!(params[1], ("text".to_string(), "hi".to_string()));
    assert_eq!(params[2], ("as_user".to_string(), "true".to_string()));
    let e = add_reaction("C1", "5.0", "x");
    assert_eq!(e.endpoint(), "https://slack.com/api/reactions.add");
    let params = e.params();
    assert_eq!(params[0], ("name".to_string(), "x".to_string()));
    assert_eq!(params[1], ("channel".to_string(), "C1".to_string()));
    assert_eq!(params[2], ("timestamp".to_string(), "5.0".to_string()));
}

#[test]
fn error_texts_match_their_variants() {
    assert_eq!(
        Error::NoChannel("general".to_string()).message(),
        "there is no channel named general"
    );
    assert_eq!(
        Error::Linux(LinuxError::Command("useradd", 1)).message(),
        "`useradd` failed. status code: 1"
    );
    assert_eq!(
        Error::Linux(LinuxError::CommandKilled("chmod")).message(),
        "`chmod` is killed by signal"
    );
    assert_eq!(
        Error::Linux(LinuxError::HeadPublicKey("https://k/a".to_string(), "gone".to_string()))
            .message(),
        "can't access https://k/a: gone"
    );
    assert_eq!(
        Error::Linux(LinuxError::GIDAlreadyExists("1000".to_string(), "users".to_string()))
            .message(),
        "GID 1000 already exists: users"
    );
    assert_eq!(Error::Json(JsonError::AsStr).message(), "Internal error: JSON value isn't string");
    assert_eq!(
        Error::CaughtGoodBye.message(),
        "goodbye event was caught. try to reconnect..."
    );
    assert_eq!(Error::NonEvent.message(), "receive non-event object on RTM");
}

#[test]
fn a_create_with_a_taken_gid_fails_before_touching_the_host() {
    let mut task = sacana::linux_user_manage::create_account(
        "bob",
        "hostB",
        "https://k/{}",
        Some("1001"),
        Some("2000"),
    );
    task.advance(StepResult::Http { success: true, body: String::new() });
    assert!(matches!(task.request(), Some(StepRequest::ReadGroup)));
    task.advance(StepResult::Lines {
        lines: vec!["users:x:2000:".to_string()],
    });
    assert!(task.request().is_none());
    let err = task.into_outcome().unwrap().unwrap_err();
    assert_eq!(err.message(), "GID 2000 already exists: users");
}

#[test]
fn a_create_with_a_free_gid_adds_the_group_and_passes_ids_on() {
    let mut task = sacana::linux_user_manage::create_account(
        "bob",
        "hostB",
        "https://k/{}",
        Some("1001"),
        Some("2000"),
    );
    task.advance(StepResult::Http { success: true, body: String::new() });
    task.advance(StepResult::Lines {
        lines: vec!["users:x:100:".to_string()],
    });
    match task.request() {
        Some(StepRequest::Run { program, args }) => {
            assert_eq!(program, "groupadd");
            assert_eq!(args, vec!["-g", "2000", "bob"]);
        },
        _ => panic!("a free gid is taken next"),
    }
    task.advance(StepResult::Status { success: true, code: Some(0) });
    assert!(matches!(task.request(), Some(StepRequest::ReadPasswd)));
    task.advance(StepResult::Lines { lines: vec![] });
    match task.request() {
        Some(StepRequest::Run { program, args }) => {
            assert_eq!(program, "useradd");
            assert_eq!(
                args,
                vec!["-m", "-s", "/bin/bash", "-p", "", "-u", "1001", "-g", "2000", "bob"]
            );
        },
        _ => panic!("the account is created with the asked ids"),
    }
}

#[test]
fn command_statuses_map_to_their_errors() {
    let from_command_status = sacana::linux_user_manage::from_command_status;
    assert!(from_command_status("chmod", true, Some(0)).is_ok());
    assert!(matches!(
        from_command_status("chmod", false, Some(1)),
        Err(LinuxError::Command("chmod", 1))
    ));
    assert!(matches!(
        from_command_status("chmod", false, None),
        Err(LinuxError::CommandKilled("chmod"))
    ));
}

#[test]
fn unknown_requesters_are_a_per_event_error() {
    let h = handler();
    let o = h.dm("D1", "U9", "create hostB", "4.000000");
    assert!(matches!(o, Err(Error::UnknownUser(_))));
}
