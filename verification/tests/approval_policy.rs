use crow::ids::{new_id, ToolCallId};
use crow::message::Part;
use crow::policy::{
    deny_reason, tool_name_from_part, ApprovalPolicy, Decision, DefaultPolicy, PolicyRule, RuleBasedPolicy,
    RuleDecision,
};
use crow::tool::ToolCall;

fn call(name: &str, args: &str) -> ToolCall {
    ToolCall {
        call_id: ToolCallId(new_id()),
        name: name.to_string(),
        args: serde_json::from_str(args).expect("valid JSON in test"),
    }
}

#[test]
fn default_policy_allows_read() {
    let d = DefaultPolicy.decide(&call("read", r#"{"path": "x"}"#), &[]);
    assert_eq!(d, Decision::Allow);
}

#[test]
fn default_policy_asks_for_bash() {
    let c = call("bash", r#"{"command": "ls"}"#);
    let d = DefaultPolicy.decide(&c, &[]);
    assert_eq!(d, Decision::Ask { ask_id: format!("bash-{}", c.call_id.label()) });
}

#[test]
fn default_policy_denies_unknown_tool() {
    let d = DefaultPolicy.decide(&call("exfiltrate", "{}"), &[]);
    match d {
        Decision::Deny { reason } => {
            assert!(reason.contains("exfiltrate"));
            assert_eq!(reason, "policy denies unknown tool: exfiltrate");
        }
        other => panic!("expected Deny, got {other:?}"),
    }
}

#[test]
fn rule_allow_overrides_fallback() {
    let rules = vec![PolicyRule { tool: "bash".into(), command_starts_with: None, decision: RuleDecision::Allow }];
    let policy = RuleBasedPolicy::new(rules, DefaultPolicy);
    assert_eq!(policy.decide(&call("bash", r#"{"command": "ls"}"#), &[]), Decision::Allow);
}

#[test]
fn rule_deny_overrides_fallback() {
    let rules = vec![PolicyRule { tool: "*".into(), command_starts_with: None, decision: RuleDecision::Deny }];
    let policy = RuleBasedPolicy::new(rules, DefaultPolicy);
    let d = policy.decide(&call("read", r#"{"path": "x"}"#), &[]);
    assert_eq!(d, Decision::Deny { reason: "rule denied read in policy.toml".to_string() });
}

#[test]
fn rule_command_prefix_only_matches_bash() {
    let rules = vec![PolicyRule {
        tool: "bash".into(),
        command_starts_with: Some("rm -rf".into()),
        decision: RuleDecision::Deny,
    }];
    let policy = RuleBasedPolicy::new(rules, DefaultPolicy);
    assert!(matches!(policy.decide(&call("bash", r#"{"command": "rm -rf /"}"#), &[]), Decision::Deny { .. }));
    assert!(matches!(policy.decide(&call("bash", r#"{"command": "ls"}"#), &[]), Decision::Ask { .. }));
    assert_eq!(policy.decide(&call("read", r#"{"path": "x"}"#), &[]), Decision::Allow);
}

#[test]
fn rule_fallback_passes_through() {
    let rules = vec![PolicyRule {
        tool: "bash".into(),
        command_starts_with: Some("ls".into()),
        decision: RuleDecision::Fallback,
    }];
    let policy = RuleBasedPolicy::new(rules, DefaultPolicy);
    assert!(matches!(policy.decide(&call("bash", r#"{"command": "ls"}"#), &[]), Decision::Ask { .. }));
}

#[test]
fn first_matching_rule_wins() {
    let rules = vec![
        PolicyRule { tool: "edit".into(), command_starts_with: None, decision: RuleDecision::Deny },
        PolicyRule { tool: "*".into(), command_starts_with: None, decision: RuleDecision::Allow },
        PolicyRule { tool: "bash".into(), command_starts_with: None, decision: RuleDecision::Deny },
    ];
    let policy = RuleBasedPolicy::new(rules, DefaultPolicy);
    assert_eq!(policy.decide(&call("bash", r#"{"command": "rm"}"#), &[]), Decision::Allow);
    assert!(matches!(policy.decide(&call("edit", "{}"), &[]), Decision::Deny { .. }));
}

#[test]
fn bash_without_a_command_matches_only_an_empty_prefix() {
    let rules = vec![PolicyRule {
        tool: "bash".into(),
        command_starts_with: Some(String::new()),
        decision: RuleDecision::Allow,
    }];
    let policy = RuleBasedPolicy::new(rules, DefaultPolicy);
    assert_eq!(policy.decide(&call("bash", r#"{"cmd": 1}"#), &[]), Decision::Allow);
}

#[test]
fn deny_reason_and_tool_name_helpers() {
    assert_eq!(deny_reason(&Decision::Deny { reason: "no".into() }), Some("no".to_string()));
    assert_eq!(deny_reason(&Decision::Allow), None);
    let part = Part::ToolCall { id: ToolCallId(1), name: "read".into(), args: serde_json::Value::Null };
    assert_eq!(tool_name_from_part(&part), Some("read"));
    assert_eq!(tool_name_from_part(&Part::Text { text: "x".into() }), None);
}
