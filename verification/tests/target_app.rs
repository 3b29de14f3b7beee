use voice_transcribe::target_app::{
    active_window_from_report, classify, effective_paste_mode, is_kde_session,
    is_terminal_identifier, normalize_identifier, ActiveWindowInfo, PasteTarget,
};

fn info(resource_class: &str, resource_name: &str, desktop_file: &str) -> ActiveWindowInfo {
    ActiveWindowInfo {
        caption: String::new(),
        resource_class: resource_class.to_string(),
        resource_name: resource_name.to_string(),
        desktop_file: desktop_file.to_string(),
        role: String::new(),
        pid: 0,
    }
}

#[test]
fn missing_window_uses_standard_paste() {
    assert_eq!(classify(None), PasteTarget::Standard);
}

#[test]
fn known_terminal_resource_class_uses_terminal_paste() {
    assert_eq!(
        classify(Some(&info("konsole", "konsole", "org.kde.konsole"))),
        PasteTarget::Terminal
    );
}

#[test]
fn known_terminal_desktop_file_uses_terminal_paste() {
    assert_eq!(
        classify(Some(&info("", "", "com.mitchellh.ghostty.desktop"))),
        PasteTarget::Terminal
    );
}

#[test]
fn normal_app_uses_standard_paste() {
    assert_eq!(
        classify(Some(&info("firefox", "Navigator", "firefox"))),
        PasteTarget::Standard
    );
}

#[test]
fn clanker_grid_uses_terminal_paste() {
    assert_eq!(
        classify(Some(&info("clanker-grid", "clanker-grid", "clanker-grid"))),
        PasteTarget::Terminal
    );
}

#[test]
fn paste_mode_names() {
    assert_eq!(PasteTarget::Standard.paste_mode(), "standard");
    assert_eq!(PasteTarget::Terminal.paste_mode(), "terminal");
}

#[test]
fn identifiers_are_normalized() {
    assert_eq!(normalize_identifier("  Org.KDE.Konsole.desktop  "), "orgkdekonsole");
    assert_eq!(normalize_identifier("foo.desktop.desktop"), "foo");
    assert_eq!(normalize_identifier("GNOME-Terminal"), "gnometerminal");
    assert_eq!(normalize_identifier("\u{3000}xterm\t"), "xterm");
    assert_eq!(normalize_identifier(".desktop"), "");
    assert_eq!(normalize_identifier(""), "");
}

#[test]
fn terminal_identifiers_are_recognized() {
    assert!(is_terminal_identifier("Alacritty"));
    assert!(is_terminal_identifier("org.wezfurlong.wezterm.desktop"));
    assert!(is_terminal_identifier(" st "));
    assert!(!is_terminal_identifier("firefox"));
    assert!(!is_terminal_identifier(""));
    assert!(!is_terminal_identifier("   "));
    assert!(!is_terminal_identifier("stx"));
}

#[test]
fn role_alone_can_mark_a_terminal() {
    let mut w = info("editor", "editor", "editor.desktop");
    w.role = "kitty".to_string();
    assert_eq!(classify(Some(&w)), PasteTarget::Terminal);
}

#[test]
fn auto_paste_mode_prefers_the_remembered_target_window() {
    let terminal = info("kitty", "kitty", "kitty");
    let browser = info("firefox", "Navigator", "firefox");
    assert_eq!(effective_paste_mode("auto", Some(&terminal), Some(&browser)), "terminal");
    assert_eq!(effective_paste_mode("auto", Some(&browser), Some(&terminal)), "standard");
    assert_eq!(effective_paste_mode("auto", None, Some(&terminal)), "terminal");
    assert_eq!(effective_paste_mode("auto", None, None), "standard");
}

#[test]
fn explicit_paste_mode_is_kept() {
    let terminal = info("kitty", "kitty", "kitty");
    assert_eq!(effective_paste_mode("standard", Some(&terminal), None), "standard");
    assert_eq!(effective_paste_mode("terminal", None, None), "terminal");
    assert_eq!(effective_paste_mode("Auto", Some(&terminal), None), "Auto");
}

#[test]
fn focus_report_builds_window_record() {
    let w = active_window_from_report("Title", "Konsole", "konsole", "org.kde.konsole", "", -5);
    assert_eq!(w.caption, "Title");
    assert_eq!(w.resource_class, "Konsole");
    assert_eq!(w.desktop_file, "org.kde.konsole");
    assert_eq!(w.pid, 0);
    let w = active_window_from_report("", "", "", "", "role", 4242);
    assert_eq!(w.pid, 4242);
    assert_eq!(w.role, "role");
}

#[test]
fn kde_session_detection() {
    assert!(is_kde_session(Some("KDE"), None));
    assert!(is_kde_session(Some("ubuntu:kde"), None));
    assert!(!is_kde_session(Some("GNOME"), None));
    assert!(!is_kde_session(Some("kd"), None));
    assert!(is_kde_session(None, Some("TRUE")));
    assert!(is_kde_session(Some("GNOME"), Some("1")));
    assert!(!is_kde_session(None, Some("yes")));
    assert!(!is_kde_session(None, None));
}
