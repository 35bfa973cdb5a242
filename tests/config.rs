use lightbot::config::{
    env_file_candidates, expand_cmd_alias, log_dir, log_file_path, log_level, normalize_hotkey,
    trim_quotes,
};

#[test]
fn log_dir_prefers_override_then_home() {
    assert_eq!(log_dir(&Some("/var/log/lb".to_string()), &Some("/home/u".to_string())), "/var/log/lb");
    assert_eq!(log_dir(&None, &Some("/home/u".to_string())), "/home/u/.lightbot/logs");
    assert_eq!(log_dir(&None, &None), "logs");
    assert_eq!(log_file_path("/home/u/.lightbot/logs"), "/home/u/.lightbot/logs/lightbot.log");
}

#[test]
fn log_level_defaults_to_info() {
    assert_eq!(log_level(&None), "info");
    assert_eq!(log_level(&Some("debug".to_string())), "debug");
}

#[test]
fn env_files_project_root_first() {
    assert_eq!(
        env_file_candidates("/src/lightbot", &Some("/home/u".to_string())),
        vec!["/src/lightbot/.env", "/home/u/.lightbot/.env"]
    );
    assert_eq!(env_file_candidates(".", &None), vec!["./.env"]);
}

#[test]
fn hotkey_quotes_and_alias() {
    assert_eq!(normalize_hotkey("'Cmd+Shift+O'"), "Command+Shift+O");
    assert_eq!(normalize_hotkey("\"Cmd+K\""), "Command+K");
    assert_eq!(normalize_hotkey("Command+Shift+O"), "Command+Shift+O");
    assert_eq!(normalize_hotkey("\"'\""), "");
    assert_eq!(trim_quotes("''a'b''"), "a'b");
    assert_eq!(expand_cmd_alias("CmdCmd+Cm"), "CommandCommand+Cm");
}

#[test]
fn hotkey_normalisation_matches_std_string_operations() {
    let samples = ["'Cmd+Shift+O'", "Ctrl+Alt+Cmd", "\"\"", "xCmdy", "Cmd", "C", "'Cmd\""];
    for s in samples.iter() {
        let expected = s.trim_matches(|c| c == '\'' || c == '"').replace("Cmd", "Command");
        assert_eq!(normalize_hotkey(s), expected, "input {:?}", s);
    }
}
