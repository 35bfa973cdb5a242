use lightbot::shell::{
    default_hotkey_text, hotkey_setting, toggle_window_visibility, tray_command, TrayCommand,
    WindowToggle,
};

#[test]
fn toggle_hides_only_a_visible_focused_window() {
    assert_eq!(toggle_window_visibility(true, true), WindowToggle::Hide);
    assert_eq!(toggle_window_visibility(true, false), WindowToggle::ShowAndFocus);
    assert_eq!(toggle_window_visibility(false, true), WindowToggle::ShowAndFocus);
    assert_eq!(toggle_window_visibility(false, false), WindowToggle::ShowAndFocus);
}

#[test]
fn tray_items_are_routed_by_id() {
    assert_eq!(tray_command("show"), TrayCommand::Show);
    assert_eq!(tray_command("quit"), TrayCommand::Quit);
    assert_eq!(tray_command("Show"), TrayCommand::Ignore);
    assert_eq!(tray_command("sho"), TrayCommand::Ignore);
    assert_eq!(tray_command(""), TrayCommand::Ignore);
}

#[test]
fn hotkey_setting_defaults_and_normalises() {
    assert_eq!(default_hotkey_text(), "Command+Shift+O");
    assert_eq!(hotkey_setting(&None), "Command+Shift+O");
    assert_eq!(hotkey_setting(&Some("'Cmd+Alt+L'".to_string())), "Command+Alt+L");
}
