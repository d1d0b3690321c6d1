use tor_browser_builder::builder::{
    author_line, confirm_fields, found_line, ready_line, version_line, TorBrowserBuilder,
};
use tor_browser_builder::palette::Theme;
use tor_browser_builder::platform::{Arch, InstallScope, Os, Target};
use tor_browser_builder::states::{download_refusal, AppState, Download, WorkerEvent};

const LINUX: Target = Target { os: Os::Linux, arch: Arch::X86_64 };

fn window() -> TorBrowserBuilder {
    TorBrowserBuilder::new(LINUX, Some("/home/a"), None, None)
}

fn log(line: &str) -> WorkerEvent {
    WorkerEvent::Log(line.to_string())
}

fn installing(stage: &str) -> WorkerEvent {
    WorkerEvent::State(AppState::Installing { stage: stage.to_string() })
}

fn complete() -> WorkerEvent {
    WorkerEvent::State(AppState::Complete { app_path: "/x".to_string() })
}

#[test]
fn a_new_window() {
    let w = window();
    assert!(matches!(w.state(), AppState::Idle));
    assert_eq!(w.installation_path(), "/home/a/.local/share/tor-browser");
    assert_eq!(w.theme(), Theme::Light);
    assert_eq!(w.install_scope(), InstallScope::User);
    assert_eq!(w.sudo_password(), "");
    assert!(!w.reveal_password());
    assert!(w.command_log().is_empty());
    assert_eq!(w.command_log_label(), None);
    assert!(!w.show_command_log());
    assert!(!w.show_about());
    assert_eq!(w.platform_line(), "Builds a native install for Linux");
    let other = TorBrowserBuilder::new(LINUX, None, None, Some("/opt/s".to_string()));
    assert!(matches!(other.state(), AppState::AlreadyInstalled { app_path } if app_path == "/opt/s"));
    assert_eq!(other.installation_path(), "/opt/tor-browser");
}

#[test]
fn starting_an_install() {
    let mut w = window();
    w.edit_path("/srv/tb".to_string());
    w.edit_password("pw".to_string());
    let request = w.start_download();
    assert_eq!(request.install_dir, "/srv/tb");
    assert_eq!(request.password, "pw");
    assert_eq!(request.scope, InstallScope::User);
    assert_eq!(request.target, LINUX);
    assert!(matches!(w.state(), AppState::Checking));
}

#[test]
fn the_answer_is_sent_once() {
    let mut w = window();
    assert_eq!(w.send_confirm(true), None);
    w.start_download();
    assert_eq!(w.send_confirm(true), Some(true));
    assert_eq!(w.send_confirm(true), None);
    w.start_download();
    assert_eq!(w.cancel_confirm(), Some(false));
    assert_eq!(w.cancel_confirm(), None);
    assert!(matches!(w.state(), AppState::Idle));
    assert!(!w.poll_worker(vec![complete()]));
    assert!(matches!(w.state(), AppState::Idle));
}

#[test]
fn reports_are_shown_until_the_end() {
    let mut w = window();
    assert!(!w.poll_worker(vec![log("lost")]));
    assert!(w.command_log().is_empty());
    w.start_download();
    assert!(w.poll_worker(Vec::new()));
    assert!(w.poll_worker(vec![log("$ one"), installing("a"), log("$ two")]));
    assert!(matches!(w.state(), AppState::Installing { stage } if stage == "a"));
    assert_eq!(w.command_log(), &vec!["$ one", "$ two"]);
    assert_eq!(w.command_log_label().as_deref(), Some("   View commands (2 run)"));
    assert!(!w.poll_worker(vec![complete(), log("$ three")]));
    assert!(matches!(w.state(), AppState::Complete { app_path } if app_path == "/x"));
    assert_eq!(w.command_log().len(), 3);
    assert!(!w.poll_worker(vec![installing("late")]));
    assert!(matches!(w.state(), AppState::Complete { .. }));
    w.start_download();
    assert!(w.command_log().is_empty());
}

#[test]
fn reports_may_be_spread_over_frames() {
    let mut one = window();
    one.start_download();
    one.poll_worker(vec![log("a"), installing("x"), log("b"), complete()]);
    let mut two = window();
    two.start_download();
    two.poll_worker(vec![log("a")]);
    two.poll_worker(vec![installing("x"), log("b")]);
    two.poll_worker(vec![complete()]);
    assert_eq!(one.command_log(), two.command_log());
    assert!(matches!((one.state(), two.state()), (AppState::Complete { .. }, AppState::Complete { .. })));
}

#[test]
fn errors_and_cancelled_downloads_lead_back() {
    let mut w = window();
    w.start_download();
    assert!(!w.poll_worker(vec![WorkerEvent::State(AppState::Error("e".to_string()))]));
    assert!(matches!(w.state(), AppState::Error(e) if e == "e"));
    w.try_again();
    assert!(matches!(w.state(), AppState::Idle));
    w.start_download();
    w.cancel_download();
    assert!(matches!(w.state(), AppState::Idle));
    assert!(!w.poll_worker(vec![complete()]));
    assert!(matches!(w.state(), AppState::Idle));
}

#[test]
fn scopes_bring_their_locations() {
    let mut w = window();
    assert!(w.offers_scopes());
    assert!(!w.asks_password());
    w.edit_path("/mine".to_string());
    w.select_scope(InstallScope::User, Some("/home/a"), None);
    assert_eq!(w.installation_path(), "/mine");
    w.select_scope(InstallScope::Global, Some("/home/a"), None);
    assert_eq!(w.installation_path(), "/opt/tor-browser");
    assert!(w.asks_password());
    w.select_scope(InstallScope::User, Some("/home/a"), None);
    assert_eq!(w.installation_path(), "/home/a/.local/share/tor-browser");
    let windows = Target { os: Os::Windows, arch: Arch::X86_64 };
    assert!(!TorBrowserBuilder::new(windows, None, None, None).offers_scopes());
}

#[test]
fn toggles() {
    let mut w = window();
    assert_eq!(w.password_button(), "Show");
    w.toggle_password();
    assert_eq!(w.password_button(), "Hide");
    assert!(w.reveal_password());
    w.toggle_command_log();
    assert!(w.show_command_log());
    w.toggle_theme();
    assert_eq!(w.theme(), Theme::Dark);
    w.toggle_theme();
    assert_eq!(w.theme(), Theme::Light);
    w.open_about();
    assert!(w.show_about());
    w.close_about();
    assert!(!w.show_about());
}

#[test]
fn texts() {
    assert_eq!(found_line("/a"), "Found at /a");
    assert_eq!(ready_line("/a"), "Tor Browser is ready at /a");
    assert_eq!(version_line(), "Version 0.07");
    assert_eq!(author_line(), "Made by Ribhav Sai Ramanuja Revalli");
    let fields = confirm_fields("1", "u", &Some("ab".to_string()), &None);
    let shown: Vec<(&str, &str)> =
        fields.iter().map(|f| (f.label, f.value.as_str())).collect();
    assert_eq!(
        shown,
        vec![
            ("Version", "1"),
            ("Binary URL", "u"),
            ("SHA-256", "ab"),
            ("Signature URL", "not available"),
        ]
    );
}

#[test]
fn many_commands_are_counted() {
    let mut w = window();
    w.start_download();
    let lines: Vec<WorkerEvent> = (0..120).map(|_| log("x")).collect();
    w.poll_worker(lines);
    assert_eq!(w.command_log_label().as_deref(), Some("   View commands (120 run)"));
}

#[test]
fn download_progress() {
    let mut d = Download::new(Some(100));
    assert!(matches!(d.advance(40), AppState::Downloading { downloaded: 40, total: 100 }));
    assert!(matches!(d.advance(60), AppState::Downloading { downloaded: 100, total: 100 }));
    let mut unknown = Download::new(None);
    assert!(matches!(unknown.advance(7), AppState::Downloading { downloaded: 7, total: 0 }));
    assert_eq!(download_refusal("404 Not Found"), "server returned 404 Not Found");
}

#[test]
fn states_are_copied_whole() {
    let state = AppState::ConfirmInstall {
        version: "1".to_string(),
        binary_url: "u".to_string(),
        sha256: Some("ab".to_string()),
        sig_url: None,
    };
    assert_eq!(format!("{:?}", state.clone()), format!("{state:?}"));
    let error = AppState::Error("e".to_string());
    assert!(matches!(error.clone(), AppState::Error(e) if e == "e"));
}
