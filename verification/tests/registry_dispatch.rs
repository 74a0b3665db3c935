use cmdbot::auth::AuthState;
use cmdbot::commands::{registry, PingCommand, UptimeCommand, ShutdownCommand};
use cmdbot::dispatch::{dispatch, failure_reply, rejection_text, DispatchDecision, split_spaces_str};
use cmdbot::help::{help_detail, help_overview};
use cmdbot::registry::{lookup, CommandCategory, CommandKind};
use cmdbot::token::application_id_from_token;

#[test]
fn lookup_finds_each_name() {
    let reg = registry();
    for name in ["shutdown", "help", "ping", "uptime", "weather"] {
        let d = lookup(&reg, name).expect("name should resolve");
        assert_eq!(d.name, name);
    }
}

#[test]
fn lookup_alias_matches_name() {
    let reg = registry();
    let by_alias = lookup(&reg, "latency").expect("alias should resolve");
    let by_name = lookup(&reg, "ping").expect("name should resolve");
    assert_eq!(by_alias.name, by_name.name);
    assert_eq!(by_alias.name, "ping");
}

#[test]
fn lookup_is_case_insensitive() {
    let reg = registry();
    let upper = lookup(&reg, "PING").expect("upper-case should resolve");
    let lower = lookup(&reg, "ping").expect("lower-case should resolve");
    assert_eq!(upper.name, lower.name);
    assert_eq!(lookup(&reg, "LaTeNcY").unwrap().name, "ping");
}

#[test]
fn lookup_unknown_gives_nothing() {
    let reg = registry();
    assert!(lookup(&reg, "nosuch").is_none());
    assert!(lookup(&reg, "").is_none());
}

#[test]
fn registry_names_unique_and_lowercase() {
    let reg = registry();
    let names: Vec<&str> = reg.iter().map(|d| d.name.as_str()).collect();
    for (i, n) in names.iter().enumerate() {
        assert_eq!(n.to_lowercase(), **n);
        for (j, m) in names.iter().enumerate() {
            if i != j {
                assert_ne!(n, m);
            }
        }
    }
}

#[test]
fn shutdown_is_the_only_privileged_command() {
    let reg = registry();
    for d in reg.iter() {
        let privileged = d.category == CommandCategory::Developer;
        assert_eq!(d.is_developer(), privileged);
        assert_eq!(privileged, d.kind == CommandKind::Shutdown);
    }
}

#[test]
fn dispatch_ping_invokes_for_anyone() {
    let reg = registry();
    let auth = AuthState::new();
    let d = dispatch("<ping", false, true, true, 42, &auth, &reg);
    match d {
        DispatchDecision::Invoke { kind, args } => {
            assert_eq!(kind, CommandKind::Ping);
            assert!(args.is_empty());
        }
        _ => panic!("expected an invocation"),
    }
    // one reply with a millisecond figure follows the invocation
    assert_eq!(PingCommand.response_text(42), "42 ms");
}

#[test]
fn dispatch_shutdown_rejected_for_non_developer() {
    let reg = registry();
    let mut auth = AuthState::new();
    auth.record_connection(Some(7));
    let d = dispatch("<shutdown", false, true, true, 42, &auth, &reg);
    assert!(matches!(d, DispatchDecision::Reject));
    assert_eq!(
        rejection_text(),
        "You do not have permissions to execute the command!"
    );
}

#[test]
fn dispatch_shutdown_invoked_for_developer() {
    let reg = registry();
    let mut auth = AuthState::new();
    auth.record_connection(Some(7));
    let d = dispatch("<shutdown", false, true, true, 7, &auth, &reg);
    match d {
        DispatchDecision::Invoke { kind, .. } => assert_eq!(kind, CommandKind::Shutdown),
        _ => panic!("a seeded developer may invoke privileged commands"),
    }
}

#[test]
fn dispatch_ignores_ineligible_messages() {
    let reg = registry();
    let auth = AuthState::new();
    // wrong prefix
    assert!(matches!(dispatch("ping", false, true, true, 1, &auth, &reg), DispatchDecision::Ignore));
    // bot author
    assert!(matches!(dispatch("<ping", true, true, true, 1, &auth, &reg), DispatchDecision::Ignore));
    // direct message
    assert!(matches!(dispatch("<ping", false, false, true, 1, &auth, &reg), DispatchDecision::Ignore));
    // system message
    assert!(matches!(dispatch("<ping", false, true, false, 1, &auth, &reg), DispatchDecision::Ignore));
    // empty content
    assert!(matches!(dispatch("", false, true, true, 1, &auth, &reg), DispatchDecision::Ignore));
    // bare prefix
    assert!(matches!(dispatch("<", false, true, true, 1, &auth, &reg), DispatchDecision::Ignore));
    // unknown command token
    assert!(matches!(dispatch("<nosuch", false, true, true, 1, &auth, &reg), DispatchDecision::Ignore));
}

#[test]
fn dispatch_passes_arguments_verbatim() {
    let reg = registry();
    let auth = AuthState::new();
    let d = dispatch("<WEATHER New  York", false, true, true, 1, &auth, &reg);
    match d {
        DispatchDecision::Invoke { kind, args } => {
            assert_eq!(kind, CommandKind::Weather);
            // a double space yields an empty token, kept verbatim
            assert_eq!(args, vec!["New".to_string(), "".to_string(), "York".to_string()]);
        }
        _ => panic!("expected an invocation"),
    }
}

#[test]
fn split_keeps_empty_tokens() {
    let toks = split_spaces_str("a  b ");
    assert_eq!(toks, vec!["a".to_string(), "".to_string(), "b".to_string(), "".to_string()]);
    assert_eq!(split_spaces_str(""), vec!["".to_string()]);
}

#[test]
fn seeding_happens_at_most_once() {
    let mut auth = AuthState::new();
    assert!(!auth.is_developer(7));
    auth.record_connection(Some(7));
    assert!(auth.is_developer(7));
    // a reconnection carrying another owner must not reseed
    auth.record_connection(Some(9));
    assert!(auth.is_developer(7));
    assert!(!auth.is_developer(9));
}

#[test]
fn failed_first_seed_never_retries() {
    let mut auth = AuthState::new();
    auth.record_connection(None);
    auth.record_connection(Some(7));
    assert!(!auth.is_developer(7));
}

#[test]
fn failure_reply_is_bounded() {
    let long = "x".repeat(3000);
    let r = failure_reply(&long).unwrap();
    assert_eq!(r.chars().count(), 2000);
    assert!(r.ends_with("..."));
    let short = "boom";
    assert_eq!(failure_reply(short), Some("boom".to_string()));
}

#[test]
fn help_detail_for_ping() {
    let reg = registry();
    let h = help_detail(&reg, "ping").expect("ping should resolve");
    assert_eq!(h.title, "<ping");
    assert_eq!(h.category, "General");
    assert_eq!(h.description, "Sends the bot's current response latency");
    assert_eq!(h.aliases, Some("latency".to_string()));
    assert_eq!(h.usages, None);
}

#[test]
fn help_detail_for_privileged_command() {
    let reg = registry();
    let h = help_detail(&reg, "shutdown").expect("shutdown should resolve");
    assert_eq!(h.title, "<shutdown (developer-only)");
    assert_eq!(h.category, "Developer");
    assert_eq!(h.aliases, None);
    assert_eq!(h.usages, None);
}

#[test]
fn help_detail_renders_usages() {
    let reg = registry();
    let h = help_detail(&reg, "weather").expect("weather should resolve");
    assert_eq!(h.usages, Some("<weather <location>".to_string()));
    let h2 = help_detail(&reg, "HELP").expect("help should resolve");
    assert_eq!(h2.usages, Some("<help <command name (optional)>".to_string()));
}

#[test]
fn help_detail_unknown_query() {
    let reg = registry();
    assert!(help_detail(&reg, "nosuch").is_none());
}

#[test]
fn help_overview_groups_and_sorts() {
    let reg = registry();
    let groups = help_overview(&reg);
    assert_eq!(groups.len(), 3);
    assert_eq!(groups[0].title, "Developer Commands");
    assert_eq!(groups[0].commands, "shutdown");
    assert_eq!(groups[1].title, "General Commands");
    assert_eq!(groups[1].commands, "help, ping, uptime");
    assert_eq!(groups[2].title, "Utility Commands");
    assert_eq!(groups[2].commands, "weather");
}

#[test]
fn uptime_text_formats_duration() {
    assert_eq!(UptimeCommand.response_text(61000), "1 minute and 1 second");
}

#[test]
fn command_metadata_matches_descriptors() {
    assert_eq!(ShutdownCommand.name(), "shutdown");
    assert!(ShutdownCommand.is_developer());
    assert_eq!(PingCommand.aliases(), vec!["latency".to_string()]);
    assert!(!PingCommand.is_developer());
    assert_eq!(UptimeCommand.description(), "Sends the bot's current uptime");
}

#[test]
fn application_id_parsed_from_token() {
    // "MTIzNDU2Nzg5" encodes the digits 123456789
    assert_eq!(application_id_from_token("MTIzNDU2Nzg5.abc.def"), Some(123456789));
    assert_eq!(application_id_from_token("MTIzNDU2Nzg5"), Some(123456789));
    // "aGVsbG8=" encodes "hello": decoded octets that are no digits
    assert_eq!(application_id_from_token("aGVsbG8=.abc"), None);
    // not a valid encoding at all
    assert_eq!(application_id_from_token("!!!.abc"), None);
    // an empty first part decodes to no digits
    assert_eq!(application_id_from_token(".abc"), None);
}
