use hushreader::paths::{choose_resource_dir, default_bookshelf, settings_path, strip_verbatim};
use hushreader::pidfile::{kill_pid_file, pid_file_text};
use hushreader::shell::{main_window_toggle, menu_command, tray_click_toggles, TrayCommand, WindowAction};

fn joined(parts: &[&str]) -> String {
    let mut p = std::path::PathBuf::from(parts[0]);
    for s in &parts[1..] {
        p.push(s);
    }
    p.to_string_lossy().into_owned()
}

#[test]
fn settings_file_location() {
    assert_eq!(settings_path("/data"), joined(&["/data", "sonovel", "settings.json"]));
    assert_eq!(settings_path("/data/"), joined(&["/data/", "sonovel", "settings.json"]));
    if std::path::MAIN_SEPARATOR == '/' {
        assert_eq!(settings_path("/data"), "/data/sonovel/settings.json");
        assert_eq!(settings_path(""), "sonovel/settings.json");
    }
}

#[test]
fn default_bookshelf_location() {
    assert_eq!(default_bookshelf("/data"), joined(&["/data", "books"]));
}

#[test]
fn strip_verbatim_prefix() {
    assert_eq!(strip_verbatim("\\\\?\\C:\\Program Files\\app"), "C:\\Program Files\\app");
    assert_eq!(strip_verbatim("C:\\app"), "C:\\app");
    assert_eq!(strip_verbatim("\\\\?"), "\\\\?");
    assert_eq!(strip_verbatim("/usr/share/app"), "/usr/share/app");
}

#[test]
fn resource_dir_choice() {
    assert_eq!(choose_resource_dir(Some("/inst".to_string()), true, "/dev".to_string()), "/inst");
    assert_eq!(choose_resource_dir(Some("/inst".to_string()), false, "/dev".to_string()), "/dev");
    assert_eq!(choose_resource_dir(None, true, "/dev".to_string()), "/dev");
}

#[test]
fn pid_file_contents() {
    assert_eq!(pid_file_text(4321), "4321");
    assert_eq!(kill_pid_file(Some(&pid_file_text(4321))), Some(4321));
    assert_eq!(kill_pid_file(Some(" 1234\r\n")), Some(1234));
    assert_eq!(kill_pid_file(Some("abc")), None);
    assert_eq!(kill_pid_file(Some("")), None);
    assert_eq!(kill_pid_file(Some("4294967296")), None);
    assert_eq!(kill_pid_file(None), None);
}

#[test]
fn tray_menu_commands() {
    assert_eq!(menu_command("toggle"), TrayCommand::ToggleMain);
    assert_eq!(menu_command("quit"), TrayCommand::Quit);
    assert_eq!(menu_command("other"), TrayCommand::Ignore);
    assert_eq!(menu_command(""), TrayCommand::Ignore);
}

#[test]
fn tray_click_on_release_only() {
    assert!(tray_click_toggles(true, true));
    assert!(!tray_click_toggles(true, false));
    assert!(!tray_click_toggles(false, true));
}

#[test]
fn main_window_toggling() {
    assert_eq!(main_window_toggle(Some(true)), WindowAction::Hide);
    assert_eq!(main_window_toggle(Some(false)), WindowAction::ShowAndFocus);
    assert_eq!(main_window_toggle(None), WindowAction::ShowAndFocus);
}

#[test]
fn pid_file_cleanup_on_shutdown() {
    assert!(hushreader::pidfile::cleanup_by_pid_file(false));
    assert!(!hushreader::pidfile::cleanup_by_pid_file(true));
}
