//! Layered configuration with precedence: CLI > environment > user
//! config file > defaults.
//!
//! 1. **Defaults**, compiled in.
//! 2. **User config**, `~/.config/crow/config.toml`.
//! 3. **Environment variables**, `CROW_BASE_URL`, `CROW_MODEL`, ...
//! 4. **CLI overrides**, from the argument parser.
//!
//! A later layer overrides an earlier one when both set a field. Reading
//! the file and the environment is the application's job; resolving the
//! layers is [`resolve`].

use vstd::prelude::*;

use crate::text::chars_of;

verus! {

/// Default model to use when no override is given.
pub const DEFAULT_MODEL: &'static str = "MiniMax M3";
/// Default base URL for the OpenAI-compatible endpoint.
pub const DEFAULT_BASE_URL: &'static str = "https://integrate.api.nvidia.com/v1";
/// Default environment variable holding the API key.
pub const DEFAULT_API_KEY_ENV: &'static str = "NVIDIA_API_KEY";
/// Default max turns per agent run.
pub const DEFAULT_MAX_TURNS: u32 = 50;
/// Default max tool calls per agent run.
pub const DEFAULT_MAX_TOOL_CALLS: u32 = 200;
/// Default per-tool output cap (1 MiB).
pub const DEFAULT_MAX_OUTPUT_BYTES: usize = 1_048_576;
/// Default per-command wall-clock timeout (30 s).
pub const DEFAULT_COMMAND_TIMEOUT_SECS: u64 = 30;

/// CLI-driven overrides; an unset field is filled by the next layer
/// down. It has no `Debug`, so the API key cannot leak into one.
#[derive(Default, Clone, PartialEq, Eq)]
pub struct ConfigOverrides {
    pub base_url: Option<String>,
    pub model: Option<String>,
    pub api_key: Option<String>,
    pub max_turns: Option<u32>,
    pub max_tool_calls: Option<u32>,
    pub project_root: Option<String>,
}

/// The user config file's fields (all optional, so a half-written file
/// still parses).
#[derive(Debug, Default, Clone, PartialEq, Eq)]
pub struct UserConfig {
    pub base_url: Option<String>,
    pub model: Option<String>,
    pub max_turns: Option<u32>,
    pub max_tool_calls: Option<u32>,
    pub sessions_dir: Option<String>,
}

/// The environment layer: `CROW_BASE_URL`, `CROW_MODEL`,
/// `CROW_API_KEY`, `CROW_MAX_TURNS`, `CROW_MAX_TOOL_CALLS`,
/// `CROW_PROJECT_ROOT`, `CROW_SESSIONS_DIR`. It has no `Debug`, so the
/// API key cannot leak into one.
#[derive(Default, Clone, PartialEq, Eq)]
pub struct EnvOverrides {
    pub base_url: Option<String>,
    pub model: Option<String>,
    pub api_key: Option<String>,
    pub max_turns: Option<u32>,
    pub max_tool_calls: Option<u32>,
    pub project_root: Option<String>,
    pub sessions_dir: Option<String>,
}

/// The bottom layer.
#[derive(Debug, Clone, PartialEq, Eq)]
pub struct ConfigDefaults {
    pub base_url: String,
    pub model: String,
    pub max_turns: u32,
    pub max_tool_calls: u32,
    pub project_root: String,
    pub sessions_dir: String,
}

/// The resolved configuration. It holds the API key in the clear and so
/// has no `Debug`; the application keeps the key in a secret wrapper.
#[derive(Clone, PartialEq, Eq)]
pub struct Settings {
    pub base_url: String,
    pub model: String,
    pub api_key: String,
    pub max_turns: u32,
    pub max_tool_calls: u32,
    pub max_output_bytes: usize,
    pub command_timeout_secs: u64,
    pub project_root: String,
    pub sessions_dir: String,
}

/// Whether `c` is an ASCII decimal digit.
pub open spec fn is_digit(c: char) -> bool {
    '0' <= c && c <= '9'
}

/// The value of a run of decimal digits.
pub open spec fn digits_value(s: Seq<char>) -> nat
    decreases s.len(),
{
    if s.len() == 0 {
        0
    } else {
        digits_value(s.drop_last()) * 10 + ((s.last() as u32) - ('0' as u32)) as nat
    }
}

/// The text after an optional leading `+`.
pub open spec fn unsigned_body(s: Seq<char>) -> Seq<char> {
    if s.len() > 0 && s[0] == '+' {
        s.drop_first()
    } else {
        s
    }
}

/// Whether every character of `s` is a decimal digit.
pub open spec fn all_digits(s: Seq<char>) -> bool {
    forall|i: int| 0 <= i < s.len() ==> is_digit(#[trigger] s[i])
}

/// What `str::parse::<u32>` gives: an optional `+`, then one or more
/// decimal digits whose value fits in a `u32`; anything else is `None`.
pub open spec fn parse_u32_spec(s: Seq<char>) -> Option<u32> {
    let body = unsigned_body(s);
    if body.len() == 0 || !all_digits(body) {
        None
    } else if digits_value(body) > u32::MAX {
        None
    } else {
        Some(digits_value(body) as u32)
    }
}

/// A longer run of digits is worth at least as much as its prefix.
proof fn lemma_digits_value_prefix(s: Seq<char>, k: int)
    requires
        0 <= k <= s.len(),
        forall|i: int| 0 <= i < s.len() ==> is_digit(#[trigger] s[i]),
    ensures
        digits_value(s.take(k)) <= digits_value(s),
    decreases s.len() - k,
{
    if k < s.len() {
        lemma_digits_value_prefix(s, k + 1);
        assert(s.take(k + 1).drop_last() =~= s.take(k));
    } else {
        assert(s.take(k) =~= s);
    }
}

/// Parse a `u32` the way `str::parse` does.
pub fn parse_u32(s: &str) -> (r: Option<u32>)
    ensures
        r == parse_u32_spec(s@),
{
    let cs = chars_of(s);
    let start: usize = if cs.len() > 0 && cs[0] == '+' {
        1
    } else {
        0
    };
    let ghost body = unsigned_body(s@);
    assert(body =~= cs@.skip(start as int));
    if start == cs.len() {
        return None;
    }
    let mut i: usize = start;
    let mut value: u64 = 0;
    while i < cs.len()
        invariant
            cs@ == s@,
            start <= i <= cs@.len(),
            body == cs@.skip(start as int),
            body == unsigned_body(s@),
            forall|j: int| 0 <= j < i - start ==> is_digit(#[trigger] body[j]),
            value == digits_value(body.take(i - start)),
            value <= u32::MAX,
        decreases cs@.len() - i,
    {
        let c = cs[i];
        assert(body[i - start] == c);
        if !('0' <= c && c <= '9') {
            assert(!is_digit(body[i - start]));
            assert(!all_digits(body));
            return None;
        }
        let d = (c as u32 - '0' as u32) as u64;
        assert(body.take(i + 1 - start).drop_last() =~= body.take(i - start));
        assert(body.take(i + 1 - start).last() == c);
        value = value * 10 + d;
        i = i + 1;
        assert(value == digits_value(body.take(i - start)));
        if value > u32::MAX as u64 {
            proof {
                if all_digits(body) {
                    lemma_digits_value_prefix(body, i - start);
                }
            }
            return None;
        }
    }
    assert(body.take(i - start) =~= body);
    Some(value as u32)
}

impl EnvOverrides {
    /// The environment layer from the raw variable values: the numeric
    /// ones are parsed, and one that does not parse counts as unset.
    pub fn from_vars(
        base_url: Option<String>,
        model: Option<String>,
        api_key: Option<String>,
        max_turns: Option<String>,
        max_tool_calls: Option<String>,
        project_root: Option<String>,
        sessions_dir: Option<String>,
    ) -> (e: Self)
        ensures
            e.base_url == base_url,
            e.model == model,
            e.api_key == api_key,
            e.max_turns == match max_turns {
                Some(t) => parse_u32_spec(t@),
                None => None,
            },
            e.max_tool_calls == match max_tool_calls {
                Some(t) => parse_u32_spec(t@),
                None => None,
            },
            e.project_root == project_root,
            e.sessions_dir == sessions_dir,
    {
        let turns = match &max_turns {
            Some(t) => parse_u32(t.as_str()),
            None => None,
        };
        let calls = match &max_tool_calls {
            Some(t) => parse_u32(t.as_str()),
            None => None,
        };
        EnvOverrides {
            base_url,
            model,
            api_key,
            max_turns: turns,
            max_tool_calls: calls,
            project_root,
            sessions_dir,
        }
    }
}

impl ConfigDefaults {
    /// The compiled-in defaults, with the process's working directory as
    /// the project root and `sessions_dir` for the session logs.
    pub fn standard(project_root: String, sessions_dir: String) -> (d: Self)
        ensures
            d.base_url@ == DEFAULT_BASE_URL@,
            d.model@ == DEFAULT_MODEL@,
            d.max_turns == DEFAULT_MAX_TURNS,
            d.max_tool_calls == DEFAULT_MAX_TOOL_CALLS,
            d.project_root == project_root,
            d.sessions_dir == sessions_dir,
    {
        ConfigDefaults {
            base_url: DEFAULT_BASE_URL.to_owned(),
            model: DEFAULT_MODEL.to_owned(),
            max_turns: DEFAULT_MAX_TURNS,
            max_tool_calls: DEFAULT_MAX_TOOL_CALLS,
            project_root,
            sessions_dir,
        }
    }
}

/// The first of `a`, `b`, `c` that is set, else `d`.
pub open spec fn first_set<T>(a: Option<T>, b: Option<T>, c: Option<T>, d: T) -> T {
    match a {
        Some(x) => x,
        None => match b {
            Some(x) => x,
            None => match c {
                Some(x) => x,
                None => d,
            },
        },
    }
}

fn pick<T>(a: Option<T>, b: Option<T>, c: Option<T>, d: T) -> (r: T)
    ensures
        r == first_set(a, b, c, d),
{
    match a {
        Some(x) => x,
        None => match b {
            Some(x) => x,
            None => match c {
                Some(x) => x,
                None => d,
            },
        },
    }
}

/// Resolve the layers. Each field takes its value from the highest
/// layer that sets it: CLI, then environment, then the user file, then
/// the defaults. The API key comes from the CLI, then `CROW_API_KEY`,
/// then `key_from_default_env` (the value of [`DEFAULT_API_KEY_ENV`]),
/// else it is empty. The output cap and command timeout are the
/// defaults.
pub fn resolve(
    cli: ConfigOverrides,
    env: EnvOverrides,
    user: UserConfig,
    defaults: ConfigDefaults,
    key_from_default_env: Option<String>,
) -> (s: Settings)
    ensures
        s.base_url == first_set(cli.base_url, env.base_url, user.base_url, defaults.base_url),
        s.model == first_set(cli.model, env.model, user.model, defaults.model),
        s.max_turns == first_set(cli.max_turns, env.max_turns, user.max_turns, defaults.max_turns),
        s.max_tool_calls == first_set(
            cli.max_tool_calls,
            env.max_tool_calls,
            user.max_tool_calls,
            defaults.max_tool_calls,
        ),
        s.project_root == first_set(cli.project_root, env.project_root, None, defaults.project_root),
        s.sessions_dir == first_set(None, env.sessions_dir, user.sessions_dir, defaults.sessions_dir),
        s.api_key@ == first_set(
            match cli.api_key {
                Some(k) => Some(k@),
                None => None,
            },
            match env.api_key {
                Some(k) => Some(k@),
                None => None,
            },
            match key_from_default_env {
                Some(k) => Some(k@),
                None => None,
            },
            Seq::<char>::empty(),
        ),
        s.max_output_bytes == DEFAULT_MAX_OUTPUT_BYTES,
        s.command_timeout_secs == DEFAULT_COMMAND_TIMEOUT_SECS,
{
    let api_key = pick(cli.api_key, env.api_key, key_from_default_env, String::new());
    Settings {
        base_url: pick(cli.base_url, env.base_url, user.base_url, defaults.base_url),
        model: pick(cli.model, env.model, user.model, defaults.model),
        api_key,
        max_turns: pick(cli.max_turns, env.max_turns, user.max_turns, defaults.max_turns),
        max_tool_calls: pick(cli.max_tool_calls, env.max_tool_calls, user.max_tool_calls, defaults.max_tool_calls),
        max_output_bytes: DEFAULT_MAX_OUTPUT_BYTES,
        command_timeout_secs: DEFAULT_COMMAND_TIMEOUT_SECS,
        project_root: pick(cli.project_root, env.project_root, None, defaults.project_root),
        sessions_dir: pick(None, env.sessions_dir, user.sessions_dir, defaults.sessions_dir),
    }
}

} // verus!
