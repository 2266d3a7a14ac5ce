use crow::config::{
    parse_u32, resolve, ConfigDefaults, ConfigOverrides, EnvOverrides, UserConfig, DEFAULT_BASE_URL,
    DEFAULT_COMMAND_TIMEOUT_SECS, DEFAULT_MAX_OUTPUT_BYTES, DEFAULT_MAX_TOOL_CALLS, DEFAULT_MAX_TURNS,
    DEFAULT_MODEL,
};
use crow::ids::{new_id, SessionId, Timestamp, ToolCallId};

#[test]
fn ids_are_unique() {
    let a = new_id();
    let b = new_id();
    assert_ne!(a, b, "two back-to-back ids must not collide");
}

#[test]
fn labels_use_the_ulid_text() {
    let id = ToolCallId(0);
    assert_eq!(id.label(), "tool_call:00000000000000000000000000");
    let s = SessionId(1);
    assert_eq!(s.label(), "session:00000000000000000000000001");
    assert_eq!(SessionId(u128::MAX).label().len(), "session:".len() + 26);
}

#[test]
fn timestamp_now_is_after_2020() {
    let t = Timestamp::now();
    assert!(t.0 > 1_577_836_800_000);
}

#[test]
fn env_overrides_parses_numbers() {
    let raw = "12";
    let parsed: Option<u32> = parse_u32(raw);
    assert_eq!(parsed, Some(12));
}

#[test]
fn parse_u32_follows_str_parse() {
    for raw in ["", "+", "-1", "+7", "007", "4294967295", "4294967296", "12a", " 1", "99999999999999999999"] {
        assert_eq!(parse_u32(raw), raw.parse::<u32>().ok(), "input {raw:?}");
    }
}

fn defaults() -> ConfigDefaults {
    ConfigDefaults::standard("/work".to_string(), "/data/crow/sessions".to_string())
}

#[test]
fn defaults_are_used_when_nothing_is_set() {
    let s = resolve(ConfigOverrides::default(), EnvOverrides::default(), UserConfig::default(), defaults(), None);
    assert_eq!(s.model, DEFAULT_MODEL);
    assert_eq!(s.base_url, DEFAULT_BASE_URL);
    assert_eq!(s.max_turns, DEFAULT_MAX_TURNS);
    assert_eq!(s.max_tool_calls, DEFAULT_MAX_TOOL_CALLS);
    assert_eq!(s.max_output_bytes, DEFAULT_MAX_OUTPUT_BYTES);
    assert_eq!(s.command_timeout_secs, DEFAULT_COMMAND_TIMEOUT_SECS);
    assert_eq!(s.project_root, "/work");
    assert_eq!(s.sessions_dir, "/data/crow/sessions");
    assert_eq!(s.api_key, "");
}

#[test]
fn cli_overrides_take_precedence() {
    let cli = ConfigOverrides { model: Some("gpt-5".to_string()), max_turns: Some(7), ..Default::default() };
    let env = EnvOverrides { model: Some("env-model".to_string()), max_turns: Some(9), ..Default::default() };
    let s = resolve(cli, env, UserConfig::default(), defaults(), None);
    assert_eq!(s.model, "gpt-5");
    assert_eq!(s.max_turns, 7);
}

#[test]
fn env_beats_user_file_and_user_file_beats_defaults() {
    let env = EnvOverrides { model: Some("env-model".to_string()), ..Default::default() };
    let user = UserConfig {
        model: Some("user-config-model".to_string()),
        max_turns: Some(7),
        sessions_dir: Some("/user/sessions".to_string()),
        ..Default::default()
    };
    let s = resolve(ConfigOverrides::default(), env, user, defaults(), None);
    assert_eq!(s.model, "env-model");
    assert_eq!(s.max_turns, 7);
    assert_eq!(s.sessions_dir, "/user/sessions");
}

#[test]
fn api_key_falls_back_through_the_environment() {
    let s = resolve(ConfigOverrides::default(), EnvOverrides::default(), UserConfig::default(), defaults(), Some("nv".to_string()));
    assert_eq!(s.api_key, "nv");
    let env = EnvOverrides { api_key: Some("crow".to_string()), ..Default::default() };
    let s = resolve(ConfigOverrides::default(), env, UserConfig::default(), defaults(), Some("nv".to_string()));
    assert_eq!(s.api_key, "crow");
    let cli = ConfigOverrides { api_key: Some("cli".to_string()), ..Default::default() };
    let s = resolve(cli, EnvOverrides::default(), UserConfig::default(), defaults(), Some("nv".to_string()));
    assert_eq!(s.api_key, "cli");
}

#[test]
fn env_numbers_that_do_not_parse_count_as_unset() {
    let env = EnvOverrides::from_vars(None, None, None, Some("12".to_string()), Some("lots".to_string()), None, None);
    assert_eq!(env.max_turns, Some(12));
    assert_eq!(env.max_tool_calls, None);
}
