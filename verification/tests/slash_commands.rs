use crow::commands::{parse_slash, split_command, submit_action, SlashCommand, SlashOutcome, SubmitAction};
use crow::tui::SLASH_HELP;

#[test]
fn non_slash_returns_none() {
    assert!(parse_slash("hello").is_none());
    assert!(parse_slash("").is_none());
    assert!(parse_slash("hello /help").is_none());
}

#[test]
fn slash_quit_recognised() {
    assert_eq!(parse_slash("/quit"), Some(SlashOutcome::Quit));
    assert_eq!(parse_slash("/exit"), Some(SlashOutcome::Quit));
    assert_eq!(parse_slash("/q"), Some(SlashOutcome::Quit));
}

#[test]
fn slash_local_commands() {
    assert_eq!(
        parse_slash("/help"),
        Some(SlashOutcome::Local { name: "help".into(), args: String::new() })
    );
    assert_eq!(
        parse_slash("/clear"),
        Some(SlashOutcome::Local { name: "clear".into(), args: String::new() })
    );
    assert_eq!(
        parse_slash("/resume 01ABC"),
        Some(SlashOutcome::Local { name: "resume".into(), args: "01ABC".into() })
    );
}

#[test]
fn unknown_slash_is_none() {
    assert!(parse_slash("/frobnicate").is_none());
}

#[test]
fn leading_whitespace_tolerated() {
    assert_eq!(parse_slash("   /quit"), Some(SlashOutcome::Quit));
    assert_eq!(
        parse_slash("\t/help"),
        Some(SlashOutcome::Local { name: "help".into(), args: String::new() })
    );
}

#[test]
fn args_are_split_on_whitespace() {
    let trimmed = "/resume 01ABCDEF".trim_start();
    let body = &trimmed[1..];
    let (name, args) = split_command(body);
    assert_eq!(name, "resume");
    assert_eq!(args, "01ABCDEF");
}

#[test]
fn aliases_map_to_canonical_names() {
    assert_eq!(parse_slash("/?"), Some(SlashOutcome::Local { name: "help".into(), args: String::new() }));
    assert_eq!(parse_slash("/cls"), Some(SlashOutcome::Local { name: "clear".into(), args: String::new() }));
    assert_eq!(
        parse_slash("/adddir src"),
        Some(SlashOutcome::Local { name: "add-dir".into(), args: "src".into() })
    );
    assert_eq!(SlashCommand::from_name("exit"), Some(SlashCommand::Quit));
    assert_eq!(SlashCommand::from_name("nope"), None);
}

#[test]
fn args_lose_only_leading_whitespace() {
    assert_eq!(
        parse_slash("/model   gpt  x "),
        Some(SlashOutcome::Local { name: "model".into(), args: "gpt  x ".into() })
    );
}

#[test]
fn submitted_text_is_classified() {
    assert_eq!(submit_action("  \n "), SubmitAction::Ignore);
    assert_eq!(submit_action("fix the bug"), SubmitAction::Send("fix the bug".into()));
    assert_eq!(submit_action("/quit"), SubmitAction::Quit);
    assert_eq!(submit_action("/exit"), SubmitAction::Quit);
    assert_eq!(submit_action("/resume"), SubmitAction::OpenPicker);
    assert_eq!(submit_action("/resume 01AB"), SubmitAction::Local { name: "resume".into(), args: "01AB".into() });
    assert_eq!(submit_action("/help"), SubmitAction::Local { name: "help".into(), args: "".into() });
    assert_eq!(submit_action("/nope"), SubmitAction::Send("/nope".into()));
}

#[test]
fn help_lists_every_accepted_command() {
    for input in ["/help", "/clear", "/doctor", "/model", "/resume", "/plan", "/cost", "/status", "/add-dir", "/adddir"] {
        match parse_slash(input) {
            Some(SlashOutcome::Local { name, .. }) => {
                assert!(SLASH_HELP.contains(&format!("/{name}")), "/{name} missing from the help")
            }
            other => panic!("{input} should be a local command, got {other:?}"),
        }
    }
    assert!(SLASH_HELP.contains("/quit"));
    assert!(SLASH_HELP.contains("/exit"));
}
