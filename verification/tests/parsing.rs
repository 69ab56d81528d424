use sacana::command::{parse, ParsedCommand};
use sacana::runtime_error::path_join;
use sacana::strings::{fill_template, i32_dec, make_head_lower, split_ws, trim_char, u64_dec};

#[test]
fn help_is_direct_message_only() {
    assert!(matches!(parse("help", true, "U1"), ParsedCommand::Help));
    assert!(matches!(parse("help", false, "U1"), ParsedCommand::Invalid));
    assert!(matches!(parse("<@U1> help", false, "U1"), ParsedCommand::Invalid));
    assert!(matches!(parse("<@U1> help", true, "U1"), ParsedCommand::Help));
}

#[test]
fn ping_parses_everywhere() {
    assert!(matches!(parse("ping", true, "U1"), ParsedCommand::Ping));
    assert!(matches!(parse("<@U1> ping", false, "U1"), ParsedCommand::Ping));
}

#[test]
fn create_takes_one_host() {
    match parse("<@U1> create hostA", false, "U1") {
        ParsedCommand::Create { host } => assert_eq!(host, "hostA"),
        _ => panic!("expected a create command"),
    }
    match parse("create hostA", true, "U1") {
        ParsedCommand::Create { host } => assert_eq!(host, "hostA"),
        _ => panic!("expected a create command"),
    }
    assert!(matches!(parse("<@U1> create", false, "U1"), ParsedCommand::Invalid));
    assert!(matches!(parse("<@U1> create a b", false, "U1"), ParsedCommand::Invalid));
}

#[test]
fn update_takes_one_host() {
    match parse("<@U1> update hostA", false, "U1") {
        ParsedCommand::Update { host } => assert_eq!(host, "hostA"),
        _ => panic!("expected an update command"),
    }
}

#[test]
fn join_takes_group_and_host() {
    match parse("<@U1> join devs hostA", false, "U1") {
        ParsedCommand::Join { group, host } => {
            assert_eq!(group, "devs");
            assert_eq!(host, "hostA");
        },
        _ => panic!("expected a join command"),
    }
    assert!(matches!(parse("<@U1> join devs", false, "U1"), ParsedCommand::Invalid));
}

#[test]
fn unknown_words_are_invalid() {
    assert!(matches!(parse("frobnicate", true, "U1"), ParsedCommand::Invalid));
    assert!(matches!(parse("", true, "U1"), ParsedCommand::Invalid));
    assert!(matches!(parse("<@U1>", false, "U1"), ParsedCommand::Invalid));
}

#[test]
fn keywords_are_case_sensitive() {
    assert!(matches!(parse("Ping", true, "U1"), ParsedCommand::Invalid));
    assert!(matches!(parse("HELP", true, "U1"), ParsedCommand::Invalid));
}

#[test]
fn split_ws_drops_all_whitespace_runs() {
    let toks = split_ws("  a \t b\nc  ");
    assert_eq!(toks, vec!["a".to_string(), "b".to_string(), "c".to_string()]);
    let none: Vec<String> = Vec::new();
    assert_eq!(split_ws("   "), none);
}

#[test]
fn head_lowering_touches_only_the_first_ascii_capital() {
    assert_eq!(make_head_lower("Creates you an account"), "creates you an account");
    assert_eq!(make_head_lower("shows"), "shows");
    assert_eq!(make_head_lower(""), "");
}

#[test]
fn template_filling_replaces_every_placeholder() {
    assert_eq!(fill_template("https://k/{}/keys", "alice"), "https://k/alice/keys");
    assert_eq!(fill_template("{}{}", "x"), "xx");
    assert_eq!(fill_template("plain", "x"), "plain");
}

#[test]
fn path_join_follows_path_buffer_pushes() {
    assert_eq!(path_join(&["/home/alice", ".ssh"]).unwrap(), "/home/alice/.ssh");
    assert_eq!(path_join(&["/home/alice/.ssh", "authorized_keys"]).unwrap(),
        "/home/alice/.ssh/authorized_keys");
    assert_eq!(path_join(&["/a", "/b"]).unwrap(), "/b");
    assert_eq!(path_join(&[]).unwrap(), "");
}

#[test]
fn quote_trimming_strips_both_ends() {
    assert_eq!(trim_char("\"hi\"", '"'), "hi");
    assert_eq!(trim_char("\"\"\"", '"'), "");
    assert_eq!(trim_char("a\"b", '"'), "a\"b");
}

#[test]
fn decimal_rendering_is_exact() {
    assert_eq!(u64_dec(0), "0");
    assert_eq!(u64_dec(1234567890), "1234567890");
    assert_eq!(i32_dec(-3), "-3");
    assert_eq!(i32_dec(127), "127");
}
