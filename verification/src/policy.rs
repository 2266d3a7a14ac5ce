//! Approval policy for tool calls.
//!
//! Every tool the agent is about to execute is gated by an
//! [`ApprovalPolicy`], which returns one of three [`Decision`]s: allow
//! the call, ask a human first, or deny it (the model then sees a
//! synthetic error result).
//!
//! [`DefaultPolicy`] allows `read`, asks for the mutating tools
//! (`write`, `edit`, `bash`) and denies anything else.
//! [`RuleBasedPolicy`] layers user rules on top of a fallback policy:
//! the first matching rule wins, and a call no rule decides goes to the
//! fallback.

use vstd::prelude::*;

use crate::ids::id_label;
use crate::json::{json_as_str, json_get, spec_json_as_str, spec_json_get};
use crate::message::{Message, Part};
use crate::text::{starts_with, str_eq};
use crate::tool::ToolCall;

verus! {

/// Outcome of [`ApprovalPolicy::decide`].
#[derive(Debug, Clone, PartialEq, Eq)]
pub enum Decision {
    /// Execute the tool.
    Allow,
    /// Block until a human (or the policy layer) responds. `ask_id` is
    /// the stable id the resolver uses to identify the pending ask.
    Ask { ask_id: String },
    /// Refuse the call, with a human-readable reason.
    Deny { reason: String },
}

/// A [`Decision`] as plain text values.
pub enum DecisionView {
    Allow,
    Ask(Seq<char>),
    Deny(Seq<char>),
}

impl View for Decision {
    type V = DecisionView;

    open spec fn view(&self) -> DecisionView {
        match self {
            Decision::Allow => DecisionView::Allow,
            Decision::Ask { ask_id } => DecisionView::Ask(ask_id@),
            Decision::Deny { reason } => DecisionView::Deny(reason@),
        }
    }
}

/// The hot-pluggable approval policy.
pub trait ApprovalPolicy {
    /// The decision this policy makes for `call` given the conversation
    /// `history` so far.
    spec fn decision_for(&self, call: ToolCall, history: Seq<Message>) -> DecisionView;

    /// Decide whether `call` may execute.
    fn decide(&self, call: &ToolCall, history: &[Message]) -> (d: Decision)
        ensures
            d@ == self.decision_for(*call, history@),
    ;
}

/// Built-in default: read-only tools are allowed, mutation tools
/// (`write`, `edit`, `bash`) require an ask, unknown tools are denied.
#[derive(Debug, Default, Clone, Copy)]
pub struct DefaultPolicy;

/// Whether `name` is one of the mutating tools that need an ask.
pub open spec fn is_mutating_tool(name: Seq<char>) -> bool {
    name == "write"@ || name == "edit"@ || name == "bash"@
}

/// The ask id for a call: `<tool>-tool_call:<ulid>`.
pub open spec fn ask_id_for(call: ToolCall) -> Seq<char> {
    call.name@ + "-"@ + id_label("tool_call:"@, call.call_id.0)
}

/// What [`DefaultPolicy`] decides for `call`.
pub open spec fn default_decision(call: ToolCall) -> DecisionView {
    if call.name@ == "read"@ {
        DecisionView::Allow
    } else if is_mutating_tool(call.name@) {
        DecisionView::Ask(ask_id_for(call))
    } else {
        DecisionView::Deny("policy denies unknown tool: "@ + call.name@)
    }
}

impl ApprovalPolicy for DefaultPolicy {
    open spec fn decision_for(&self, call: ToolCall, history: Seq<Message>) -> DecisionView {
        default_decision(call)
    }

    fn decide(&self, call: &ToolCall, history: &[Message]) -> (d: Decision) {
        let name = call.name.as_str();
        if str_eq(name, "read") {
            Decision::Allow
        } else if str_eq(name, "write") || str_eq(name, "edit") || str_eq(name, "bash") {
            let mut ask_id = call.name.clone();
            ask_id.append("-");
            let label = call.call_id.label();
            ask_id.append(label.as_str());
            Decision::Ask { ask_id }
        } else {
            let mut reason = String::from_str("policy denies unknown tool: ");
            reason.append(name);
            Decision::Deny { reason }
        }
    }
}

/// One of a rule's three decisions: allow, deny, or defer to the
/// fallback policy.
#[derive(Debug, Clone, Copy, PartialEq, Eq, Structural)]
pub enum RuleDecision {
    Allow,
    Deny,
    Fallback,
}

/// One user rule of a [`RuleBasedPolicy`].
#[derive(Debug, Clone, PartialEq, Eq)]
pub struct PolicyRule {
    /// Tool name this rule matches; `"*"` matches any tool.
    pub tool: String,
    /// If set, the rule only matches `bash` calls whose `command`
    /// starts with this text.
    pub command_starts_with: Option<String>,
    /// The decision if this rule matches.
    pub decision: RuleDecision,
}

/// The `command` argument of a call, or the empty text when it has none
/// (or it is not a string).
pub open spec fn command_of(call: ToolCall) -> Seq<char> {
    match spec_json_get(call.args, "command"@) {
        Some(v) => match spec_json_as_str(v) {
            Some(s) => s,
            None => Seq::<char>::empty(),
        },
        None => Seq::<char>::empty(),
    }
}

/// Whether `rule` applies to `call`: the tool name matches (or the rule
/// names `"*"`), and a command prefix, if the rule has one, only
/// matches `bash` calls whose command starts with it.
pub open spec fn rule_matches(rule: PolicyRule, call: ToolCall) -> bool {
    &&& (rule.tool@ == "*"@ || rule.tool@ == call.name@)
    &&& match rule.command_starts_with {
        None => true,
        Some(prefix) => call.name@ == "bash"@ && prefix@.len() <= command_of(call).len()
            && command_of(call).take(prefix@.len() as int) == prefix@,
    }
}

/// What a matching rule decides: `Some` of the decision, or `None` when
/// it defers to the fallback.
pub open spec fn rule_outcome(rule: PolicyRule, call: ToolCall) -> Option<DecisionView> {
    match rule.decision {
        RuleDecision::Allow => Some(DecisionView::Allow),
        RuleDecision::Deny => Some(DecisionView::Deny("rule denied "@ + call.name@ + " in policy.toml"@)),
        RuleDecision::Fallback => None,
    }
}

/// What the rules decide for `call`: the outcome of the first matching
/// rule, or `None` (defer to the fallback) when none matches.
pub open spec fn rules_decision(rules: Seq<PolicyRule>, call: ToolCall) -> Option<DecisionView>
    decreases rules.len(),
{
    if rules.len() == 0 {
        None
    } else if rule_matches(rules[0], call) {
        rule_outcome(rules[0], call)
    } else {
        rules_decision(rules.drop_first(), call)
    }
}

/// Compositional policy: layered rules over a fallback policy.
pub struct RuleBasedPolicy<F: ApprovalPolicy> {
    rules: Vec<PolicyRule>,
    fallback: F,
}

impl<F: ApprovalPolicy> RuleBasedPolicy<F> {
    /// The rules, in the order they are tried.
    pub closed spec fn rules(&self) -> Seq<PolicyRule> {
        self.rules@
    }

    /// The policy consulted when no rule decides.
    pub closed spec fn fallback(&self) -> F {
        self.fallback
    }

    /// Build a rule-based policy that defers to `fallback` when no rule
    /// matches.
    pub fn new(rules: Vec<PolicyRule>, fallback: F) -> (p: Self)
        ensures
            p.rules() == rules@,
            p.fallback() == fallback,
    {
        RuleBasedPolicy { rules, fallback }
    }
}

/// Whether `rule` applies to `call` (the executable [`rule_matches`]).
fn rule_applies(rule: &PolicyRule, call: &ToolCall) -> (b: bool)
    ensures
        b == rule_matches(*rule, *call),
{
    let tool_matches = str_eq(rule.tool.as_str(), "*") || str_eq(rule.tool.as_str(), call.name.as_str());
    if !tool_matches {
        return false;
    }
    match &rule.command_starts_with {
        None => true,
        Some(prefix) => {
            if !str_eq(call.name.as_str(), "bash") {
                return false;
            }
            let cmd = match json_get(&call.args, "command") {
                Some(v) => match json_as_str(&v) {
                    Some(s) => s,
                    None => String::new(),
                },
                None => String::new(),
            };
            starts_with(cmd.as_str(), prefix.as_str())
        },
    }
}

impl<F: ApprovalPolicy> ApprovalPolicy for RuleBasedPolicy<F> {
    open spec fn decision_for(&self, call: ToolCall, history: Seq<Message>) -> DecisionView {
        match rules_decision(self.rules(), call) {
            Some(d) => d,
            None => self.fallback().decision_for(call, history),
        }
    }

    fn decide(&self, call: &ToolCall, history: &[Message]) -> (d: Decision) {
        let mut i: usize = 0;
        assert(self.rules@.skip(0) =~= self.rules@);
        while i < self.rules.len()
            invariant
                i <= self.rules@.len(),
                rules_decision(self.rules@, *call) == rules_decision(self.rules@.skip(i as int), *call),
            decreases self.rules@.len() - i,
        {
            let rule = &self.rules[i];
            assert(self.rules@.skip(i as int)[0] == self.rules@[i as int]);
            assert(self.rules@.skip(i as int).drop_first() =~= self.rules@.skip(i + 1));
            if rule_applies(rule, call) {
                match rule.decision {
                    RuleDecision::Allow => {
                        return Decision::Allow;
                    },
                    RuleDecision::Deny => {
                        let mut reason = String::from_str("rule denied ");
                        reason.append(call.name.as_str());
                        reason.append(" in policy.toml");
                        return Decision::Deny { reason };
                    },
                    RuleDecision::Fallback => {
                        return self.fallback.decide(call, history);
                    },
                }
            }
            i = i + 1;
        }
        assert(self.rules@.skip(i as int) =~= Seq::<PolicyRule>::empty());
        self.fallback.decide(call, history)
    }
}

/// The first rule that matches a call decides it: whatever the later
/// rules say, the rules' decision is that rule's outcome.
pub proof fn law_first_matching_rule_wins(rules: Seq<PolicyRule>, call: ToolCall, i: int)
    requires
        0 <= i < rules.len(),
        rule_matches(rules[i], call),
        forall|j: int| 0 <= j < i ==> !rule_matches(#[trigger] rules[j], call),
    ensures
        rules_decision(rules, call) == rule_outcome(rules[i], call),
    decreases i,
{
    if i > 0 {
        assert forall|j: int| 0 <= j < i - 1 implies !rule_matches(#[trigger] rules.drop_first()[j], call) by {
            assert(rules.drop_first()[j] == rules[j + 1]);
        }
        assert(!rule_matches(rules[0], call));
        law_first_matching_rule_wins(rules.drop_first(), call, i - 1);
    }
}

/// When no rule matches a call, the rules defer it to the fallback.
pub proof fn law_no_matching_rule_defers(rules: Seq<PolicyRule>, call: ToolCall)
    requires
        forall|j: int| 0 <= j < rules.len() ==> !rule_matches(#[trigger] rules[j], call),
    ensures
        rules_decision(rules, call) is None,
    decreases rules.len(),
{
    if rules.len() > 0 {
        assert(!rule_matches(rules[0], call));
        assert forall|j: int| 0 <= j < rules.len() - 1 implies !rule_matches(#[trigger] rules.drop_first()[j], call) by {
            assert(rules.drop_first()[j] == rules[j + 1]);
        }
        law_no_matching_rule_defers(rules.drop_first(), call);
    }
}

/// A rule with a command prefix never matches a tool other than `bash`.
pub proof fn law_command_prefix_only_matches_bash(rule: PolicyRule, call: ToolCall)
    requires
        rule.command_starts_with is Some,
        call.name@ != "bash"@,
    ensures
        !rule_matches(rule, call),
{
}

/// What the human replied for a pending ask.
#[derive(Debug, Clone, Copy, PartialEq, Eq, Structural)]
pub enum AskResponse {
    Allow,
    Deny,
}

/// The reason of a `Deny` decision, as the body of the synthetic tool
/// result; `None` for other decisions.
pub fn deny_reason(result: &Decision) -> (r: Option<String>)
    ensures
        match result@ {
            DecisionView::Deny(reason) => r is Some && r->0@ == reason,
            _ => r is None,
        },
{
    match result {
        Decision::Deny { reason } => Some(reason.clone()),
        _ => None,
    }
}

/// The tool name of a tool-call part; `None` for other parts.
pub fn tool_name_from_part(part: &Part) -> (r: Option<&str>)
    ensures
        match *part {
            Part::ToolCall { name, .. } => r is Some && r->0@ == name@,
            _ => r is None,
        },
{
    if let Part::ToolCall { name, .. } = part {
        Some(name.as_str())
    } else {
        None
    }
}

} // verus!
