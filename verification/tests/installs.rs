use tor_browser_builder::commands::{command_line, Exit, RunFailure};
use tor_browser_builder::events::{Action, Answer, Event, IoFailure, Phase, Step};
use tor_browser_builder::pipeline::InstallPipeline;
use tor_browser_builder::platform::{Arch, InstallScope, Os, Target};
use tor_browser_builder::release::ReleaseInfo;
use tor_browser_builder::states::{AppState, WorkerEvent};

fn text_of(state: &AppState) -> String {
    match state {
        AppState::Idle => "idle".to_string(),
        AppState::Checking => "checking".to_string(),
        AppState::AlreadyInstalled { app_path } => format!("already installed: {app_path}"),
        AppState::ConfirmInstall { version, binary_url, sha256, sig_url } => {
            format!("confirm {version} {binary_url} {sha256:?} {sig_url:?}")
        },
        AppState::Downloading { downloaded, total } => format!("downloading {downloaded}/{total}"),
        AppState::Verifying => "verifying".to_string(),
        AppState::VerifyingSignature => "verifying signature".to_string(),
        AppState::Installing { stage } => format!("stage: {stage}"),
        AppState::Complete { app_path } => format!("complete: {app_path}"),
        AppState::Error(e) => format!("error: {e}"),
    }
}

fn text_of_action(action: &Action) -> String {
    match action {
        Action::FetchRelease => "fetch release".to_string(),
        Action::AskConfirmation => "ask".to_string(),
        Action::CreateDir(p) => format!("create {p}"),
        Action::Download { url, dest } => format!("download {url} to {dest}"),
        Action::HashFile(p) => format!("hash {p}"),
        Action::VerifySignature { path, sig_url } => format!("verify {path} by {sig_url}"),
        Action::RemoveFile(p) => format!("remove file {p}"),
        Action::RemoveDir(p) => format!("remove dir {p}"),
        Action::CheckPath(p) => format!("look at {p}"),
        Action::ListDir(p) => format!("list {p}"),
        Action::FindFile { root, name } => format!("find {name} in {root}"),
        Action::FindBundle { root } => format!("find bundle in {root}"),
        Action::MakeExecutable(p) => format!("mark {p}"),
        Action::Run { command, stdin } => format!("run {} < {stdin:?}", command_line(command)),
        Action::Pause(ms) => format!("pause {ms}"),
        Action::Finish => "finish".to_string(),
    }
}

/// An install, and everything that it has reported and asked for.
struct Install {
    pipeline: InstallPipeline,
    notes: Vec<String>,
    actions: Vec<String>,
}

impl Install {
    fn take(&mut self, event: Event) -> String {
        let Step { notes, action } = self.pipeline.resume(event).unwrap();
        for note in &notes {
            self.notes.push(match note {
                WorkerEvent::State(s) => text_of(s),
                WorkerEvent::Log(line) => line.clone(),
            });
        }
        let asked = text_of_action(&action);
        self.actions.push(asked.clone());
        asked
    }

    fn last_note(&self) -> &str {
        self.notes.last().unwrap()
    }
}

fn release(sha256: Option<&str>, sig_url: Option<&str>) -> Event {
    Event::Release(Ok(ReleaseInfo {
        version: "13.5".to_string(),
        binary_url: "https://x/tb".to_string(),
        sha256: sha256.map(|s| s.to_string()),
        sig_url: sig_url.map(|s| s.to_string()),
    }))
}

fn done() -> Event {
    Event::Done(Ok(()))
}

fn failed(message: &str) -> Event {
    Event::Done(Err(IoFailure { permission_denied: false, message: message.to_string() }))
}

fn refused() -> Event {
    Event::Done(Err(IoFailure { permission_denied: true, message: "refused".to_string() }))
}

fn ran(success: bool, stdout: &str, stderr: &str) -> Event {
    Event::Ran(Ok(Exit { success, stdout: stdout.to_string(), stderr: stderr.to_string() }))
}

fn not_run(launched: bool, message: &str) -> Event {
    Event::Ran(Err(RunFailure { launched, message: message.to_string() }))
}

fn listed(names: &[&str]) -> Event {
    Event::Listed(Ok(names.iter().map(|s| s.to_string()).collect()))
}

fn found(path: &str) -> Event {
    Event::Found(Some(path.to_string()))
}

fn begin(os: Os, scope: InstallScope, dir: &str, temp: &str) -> Install {
    let target = Target { os, arch: Arch::X86_64 };
    let pipeline =
        InstallPipeline::new(target, scope, dir.to_string(), "hunter2".to_string(), temp);
    let mut install = Install { pipeline, notes: Vec::new(), actions: Vec::new() };
    assert_eq!(install.take(Event::Started), "fetch release");
    install
}

/// An install whose download has ended well; nothing is left to verify.
fn at_install(os: Os, scope: InstallScope, dir: &str, temp: &str) -> Install {
    let mut i = begin(os, scope, dir, temp);
    i.take(release(None, None));
    i.take(Event::Answered(Answer::Proceed));
    i.take(done());
    i.take(done());
    i
}

#[test]
fn linux_install_for_one_account() {
    let mut i = begin(Os::Linux, InstallScope::User, "/home/a/tb", "/tmp");
    assert_eq!(i.take(release(Some("AB"), Some("https://x/tb.asc"))), "ask");
    assert_eq!(
        i.take(Event::Answered(Answer::Proceed)),
        "create /tmp/tor-browser-builder"
    );
    let archive = "/tmp/tor-browser-builder/TorBrowser-13.5.tar.xz";
    assert_eq!(i.take(done()), format!("download https://x/tb to {archive}"));
    assert_eq!(i.take(done()), format!("hash {archive}"));
    assert_eq!(
        i.take(Event::Digest(Ok("ab".to_string()))),
        format!("verify {archive} by https://x/tb.asc")
    );
    assert_eq!(i.take(done()), "create /home/a/tb");
    assert_eq!(i.take(done()), format!("run $ tar -xJf {archive} -C /home/a/tb < None"));
    assert_eq!(i.take(ran(true, "", "")), "find start-tor-browser in /home/a/tb");
    assert_eq!(
        i.take(found("/home/a/tb/x/start-tor-browser")),
        "mark /home/a/tb/x/start-tor-browser"
    );
    assert_eq!(i.take(failed("no")), format!("remove file {archive}"));
    assert_eq!(i.take(failed("no")), "finish");
    assert_eq!(i.pipeline.phase(), Phase::Finished);
    assert!(i.pipeline.resume(Event::Started).is_none());
    assert_eq!(
        i.notes,
        vec![
            "Install scope: current user (/home/a/tb)".to_string(),
            "confirm 13.5 https://x/tb Some(\"AB\") Some(\"https://x/tb.asc\")".to_string(),
            "downloading 0/0".to_string(),
            "verifying".to_string(),
            "verifying signature".to_string(),
            "stage: Preparing installation...".to_string(),
            format!("$ tar -xJf {archive} -C /home/a/tb"),
            "complete: /home/a/tb/x/start-tor-browser".to_string(),
        ]
    );
}

#[test]
fn linux_install_for_all_users() {
    let mut i = at_install(Os::Linux, InstallScope::Global, "/opt/tb", "/tmp");
    let archive = "/tmp/tor-browser-builder/TorBrowser-13.5.tar.xz";
    let shell = format!(
        "mkdir -p '/opt/tb' && tar -xJf '{archive}' -C '/opt/tb' && find '/opt/tb' -name \
         start-tor-browser -exec chmod +x {{}} + && chmod -R a+rX '/opt/tb'"
    );
    assert_eq!(
        i.actions.last().unwrap(),
        &format!("run $ sudo -S -p  -k -s -- sh -c {shell} < Some(\"hunter2\\n\")")
    );
    assert_eq!(i.last_note(), format!("$ sudo -s -- sh -c \"{shell}\""));
    assert_eq!(i.take(ran(true, "", "")), "find start-tor-browser in /opt/tb");
    assert_eq!(i.last_note(), "  -> ok");
    assert_eq!(i.take(found("/opt/tb/s")), format!("remove file {archive}"));
    assert_eq!(i.last_note(), "complete: /opt/tb/s");
    assert_eq!(i.notes[0], "Install scope: all users (/opt/tb  -  sudo)");
    assert!(i.notes.iter().all(|line| !line.contains("hunter2")));
}

#[test]
fn sudo_that_fails() {
    let start = || at_install(Os::Linux, InstallScope::Global, "/opt/tb", "/tmp");
    let mut i = start();
    i.take(ran(false, "", " Sorry, try again.\n"));
    assert_eq!(i.notes[i.notes.len() - 2], "  -> failed: Sorry, try again.");
    assert_eq!(i.last_note(), "error: Install failed: the administrator password was incorrect");
    let mut i = start();
    i.take(not_run(false, "no sudo"));
    assert_eq!(i.last_note(), "error: Install failed: failed to launch sudo: no sudo");
    let mut i = start();
    i.take(not_run(true, "gone"));
    assert_eq!(i.last_note(), "error: Install failed: sudo did not complete: gone");
}

#[test]
fn linux_failures() {
    let start = || at_install(Os::Linux, InstallScope::User, "/d", "/tmp");
    let mut i = start();
    i.take(refused());
    assert_eq!(i.last_note(), "error: Install failed: refused");
    let mut i = start();
    i.take(done());
    i.take(not_run(false, "none"));
    assert_eq!(
        i.last_note(),
        "error: Install failed: failed to run tar (is it installed?): none"
    );
    let mut i = start();
    i.take(done());
    i.take(ran(false, "", "x"));
    assert_eq!(i.last_note(), "error: Install failed: extracting the .tar.xz archive failed");
    let mut i = start();
    i.take(done());
    i.take(ran(true, "", ""));
    i.take(Event::Found(None));
    assert_eq!(
        i.last_note(),
        "error: Install failed: could not find start-tor-browser inside the extracted archive"
    );
    assert_eq!(
        i.actions.last().unwrap(),
        "remove file /tmp/tor-browser-builder/TorBrowser-13.5.tar.xz"
    );
}

#[test]
fn nothing_happens_without_consent() {
    let mut i = begin(Os::Linux, InstallScope::User, "/d", "/tmp");
    i.take(release(None, None));
    assert_eq!(i.take(Event::Answered(Answer::Cancel)), "finish");
    assert_eq!(i.notes.len(), 2);
    let mut i = begin(Os::Linux, InstallScope::User, "/d", "/tmp");
    i.take(release(None, None));
    assert_eq!(i.take(Event::Answered(Answer::Closed)), "finish");
    assert_eq!(i.last_note(), "error: Confirmation channel closed unexpectedly");
}

#[test]
fn errors_before_the_download() {
    let mut i = begin(Os::Linux, InstallScope::User, "/d", "/tmp");
    assert_eq!(i.take(Event::Release(Err("offline".to_string()))), "finish");
    assert_eq!(i.last_note(), "error: Could not fetch release information: offline");
    let mut i = begin(Os::Linux, InstallScope::User, "/d", "/tmp");
    i.take(release(None, None));
    i.take(Event::Answered(Answer::Proceed));
    assert_eq!(i.take(failed("full")), "finish");
    assert_eq!(i.last_note(), "error: Could not create temp dir: full");
    let mut i = begin(Os::Linux, InstallScope::User, "/d", "/tmp");
    i.take(release(None, None));
    i.take(Event::Answered(Answer::Proceed));
    i.take(done());
    assert_eq!(i.take(failed("server returned 404 Not Found")), "finish");
    assert_eq!(i.last_note(), "error: Download failed: server returned 404 Not Found");
}

fn at_checksum() -> Install {
    let mut i = begin(Os::Linux, InstallScope::User, "/d", "/tmp");
    i.take(release(Some("ab"), Some("s")));
    i.take(Event::Answered(Answer::Proceed));
    i.take(done());
    i.take(done());
    i
}

#[test]
fn a_download_that_fails_a_check_is_discarded() {
    let gone = "remove file /tmp/tor-browser-builder/TorBrowser-13.5.tar.xz";
    let mut i = at_checksum();
    assert_eq!(i.take(Event::Digest(Ok("cd".to_string()))), gone);
    assert_eq!(
        i.last_note(),
        "error: Checksum mismatch  -  expected ab, got cd. The download will not be installed."
    );
    assert_eq!(i.take(done()), "finish");
    let mut i = at_checksum();
    assert_eq!(i.take(Event::Digest(Err("io".to_string()))), gone);
    assert_eq!(i.last_note(), "error: Could not verify download: io");
    let mut i = at_checksum();
    i.take(Event::Digest(Ok("AB".to_string())));
    assert_eq!(i.take(failed("bad")), gone);
    assert_eq!(i.last_note(), "error: PGP signature verification failed: bad");
    assert!(i.actions.iter().all(|a| !a.starts_with("run")));
}

/// What stage of an install a report stands for; a log line stands for none.
fn rank(note: &str) -> Option<usize> {
    ["confirm ", "downloading ", "verifying", "verifying signature", "stage: ", "complete: "]
        .iter()
        .rposition(|p| note.starts_with(p))
        .or(if note.starts_with("error: ") { Some(5) } else { None })
}

#[test]
fn states_are_reported_in_their_order() {
    let ranks = |i: &Install| i.notes.iter().filter_map(|n| rank(n)).collect::<Vec<usize>>();
    let mut i = at_checksum();
    i.take(Event::Digest(Ok("ab".to_string())));
    i.take(done());
    i.take(done());
    i.take(ran(true, "", ""));
    i.take(found("/d/start-tor-browser"));
    i.take(done());
    assert_eq!(ranks(&i), vec![0, 1, 2, 3, 4, 5]);
    let mut i = at_checksum();
    i.take(Event::Digest(Ok("cd".to_string())));
    assert_eq!(ranks(&i), vec![0, 1, 2, 5]);
    let mut i = at_install(Os::Linux, InstallScope::User, "/d", "/tmp");
    i.take(failed("no"));
    assert_eq!(ranks(&i), vec![0, 1, 4, 5]);
    let mut i = begin(Os::Linux, InstallScope::User, "/d", "/tmp");
    i.take(release(Some("ab"), None));
    i.take(Event::Answered(Answer::Cancel));
    assert_eq!(ranks(&i), vec![0]);
}

#[test]
fn success_comes_once_with_the_path_that_was_found() {
    let mut i = at_install(Os::Linux, InstallScope::User, "/d", "/tmp");
    i.take(done());
    i.take(ran(true, "", ""));
    assert!(i.notes.iter().all(|n| !n.starts_with("complete")));
    i.take(found("/d/deep/start-tor-browser"));
    i.take(done());
    i.take(done());
    let told: Vec<&String> = i.notes.iter().filter(|n| n.starts_with("complete")).collect();
    assert_eq!(told, vec!["complete: /d/deep/start-tor-browser"]);
    let mut i = at_install(Os::Linux, InstallScope::User, "/d", "/tmp");
    i.take(done());
    i.take(ran(true, "", ""));
    i.take(Event::Found(None));
    assert!(i.notes.iter().all(|n| !n.starts_with("complete")));
    assert!(i.last_note().starts_with("error: "));
}

#[test]
fn events_out_of_turn_change_nothing() {
    let mut i = at_checksum();
    assert!(i.pipeline.resume(done()).is_none());
    assert!(i.pipeline.resume(ran(true, "", "")).is_none());
    assert!(i.pipeline.resume(listed(&[])).is_none());
    assert!(i.pipeline.resume(found("x")).is_none());
    assert!(i.pipeline.resume(Event::PathExists(true)).is_none());
    assert!(i.pipeline.resume(Event::Started).is_none());
    assert_eq!(i.pipeline.phase(), Phase::Hashing);
}

#[test]
fn windows_install() {
    let mut i = at_install(Os::Windows, InstallScope::User, "C:\\TB", "C:\\Temp");
    let exe = "C:\\Temp\\tor-browser-builder\\TorBrowser-13.5.exe";
    assert_eq!(i.actions.last().unwrap(), "create C:\\TB");
    assert_eq!(i.take(done()), format!("run $ {exe} /S /D=C:\\TB < None"));
    assert_eq!(i.take(ran(true, "", "")), "find firefox.exe in C:\\TB");
    assert_eq!(i.take(Event::Found(None)), "find Tor Browser.exe in C:\\TB");
    assert_eq!(i.take(found("C:\\TB\\Tor Browser.exe")), format!("remove file {exe}"));
    assert_eq!(i.last_note(), "complete: C:\\TB\\Tor Browser.exe");
}

#[test]
fn windows_failures() {
    let start = || at_install(Os::Windows, InstallScope::User, "C:\\TB", "C:\\Temp");
    let mut i = start();
    i.take(failed("disk"));
    assert_eq!(i.last_note(), "error: Install failed: disk");
    let mut i = start();
    i.take(done());
    i.take(not_run(false, "blocked"));
    assert_eq!(i.last_note(), "error: Install failed: failed to launch the installer: blocked");
    let mut i = start();
    i.take(done());
    i.take(ran(false, "", ""));
    assert_eq!(
        i.last_note(),
        "error: Install failed: the Tor Browser installer exited with an error (silent-install \
         flags may not be supported by this release - try running the downloaded .exe manually)"
    );
    let mut i = start();
    i.take(done());
    i.take(ran(true, "", ""));
    i.take(Event::Found(None));
    i.take(Event::Found(None));
    assert_eq!(
        i.last_note(),
        "error: Install failed: installer finished but the Tor Browser executable was not found"
    );
    let mut i = start();
    i.take(done());
    i.take(ran(true, "", ""));
    i.take(found("C:\\TB\\firefox.exe"));
    assert_eq!(i.last_note(), "complete: C:\\TB\\firefox.exe");
}

#[test]
fn other_systems_have_no_install_routine() {
    let i = at_install(Os::Other, InstallScope::User, "/d", "/tmp");
    assert_eq!(
        i.last_note(),
        "error: Install failed: automatic installation is not implemented for this platform"
    );
    assert_eq!(
        i.actions.last().unwrap(),
        "remove file /tmp/tor-browser-builder/TorBrowser-13.5.tar.xz"
    );
}

const DMG: &str = "/tmp/tor-browser-builder/TorBrowser-13.5.dmg";

fn mac(scope: InstallScope) -> Install {
    let i = at_install(Os::MacOs, scope, "/Applications", "/tmp");
    assert_eq!(i.actions.last().unwrap(), "list /Volumes");
    assert_eq!(i.last_note(), "stage: Attaching disk image...");
    i
}

fn mounted(scope: InstallScope) -> Install {
    let mut i = mac(scope);
    assert_eq!(i.take(listed(&["Macintosh HD"])), "list /Volumes");
    assert_eq!(
        i.take(listed(&["Macintosh HD"])),
        format!("run $ hdiutil attach -plist -nobrowse {DMG} < None")
    );
    let plist = "<key>mount-point</key><string>/Volumes/TB</string>";
    assert_eq!(i.take(ran(true, plist, "")), "list /Volumes/TB");
    i
}

#[test]
fn mac_install_by_plain_copy() {
    let mut i = mounted(InstallScope::User);
    assert_eq!(i.take(listed(&[".bg", "Tor Browser.app"])), "create /Applications");
    assert_eq!(i.last_note(), "stage: Copying application to install location...");
    assert_eq!(i.take(done()), "look at /Applications/Tor Browser.app");
    assert_eq!(
        i.take(Event::PathExists(true)),
        "remove dir /Applications/Tor Browser.app"
    );
    assert_eq!(
        i.take(done()),
        "run $ cp -R /Volumes/TB/Tor Browser.app /Applications < None"
    );
    assert_eq!(i.last_note(), "$ cp -R /Volumes/TB/Tor Browser.app /Applications");
    assert_eq!(i.take(ran(true, "", "")), "run $ hdiutil detach -quiet /Volumes/TB < None");
    assert_eq!(i.take(ran(false, "", "busy")), format!("remove file {DMG}"));
    assert_eq!(i.last_note(), "complete: /Applications/Tor Browser.app");
    assert_eq!(i.take(done()), "finish");
}

#[test]
fn mac_install_for_all_users() {
    let mut i = mounted(InstallScope::Global);
    let shell = "mkdir -p '/Applications' && rm -rf '/Applications/T.app' && cp -R \
                 '/Volumes/TB/T.app' '/Applications'";
    assert_eq!(
        i.take(listed(&["T.app"])),
        format!("run $ sudo -S -p  -k -s -- sh -c {shell} < Some(\"hunter2\\n\")")
    );
    assert_eq!(i.last_note(), format!("$ sudo -s -- sh -c \"{shell}\""));
    assert_eq!(
        i.take(ran(false, "", "a password is required")),
        "run $ hdiutil detach -quiet /Volumes/TB < None"
    );
    i.take(ran(true, "", ""));
    assert!(i.last_note().starts_with("error: Install failed: sudo could not prompt"));
}

#[test]
fn mac_install_behind_the_administrator_prompt() {
    let start = || {
        let mut i = mounted(InstallScope::User);
        i.take(listed(&["T.app"]));
        i
    };
    let prompt = |i: &Install| {
        let n = i.notes.len();
        assert_eq!(
            i.notes[n - 2],
            "Requesting administrator access via the macOS password/Touch ID prompt..."
        );
        assert!(i.notes[n - 1].starts_with("$ osascript -e do shell script \"mkdir -p "));
        assert!(i.actions.last().unwrap().starts_with("run $ osascript -e do shell script"));
    };
    let mut i = start();
    i.take(refused());
    prompt(&i);
    i.take(ran(true, "", ""));
    assert_eq!(i.notes[i.notes.len() - 3], "  -> ok");
    assert_eq!(i.actions.last().unwrap(), "run $ hdiutil detach -quiet /Volumes/TB < None");
    let mut i = start();
    i.take(done());
    i.take(Event::PathExists(true));
    i.take(refused());
    prompt(&i);
    i.take(ran(false, "", "User canceled. (-128)"));
    i.take(ran(true, "", ""));
    assert_eq!(
        i.last_note(),
        "error: Install failed: installation was cancelled at the administrator password prompt"
    );
    assert!(i.notes.contains(&"  -> cancelled by user".to_string()));
    let mut i = start();
    i.take(done());
    i.take(Event::PathExists(false));
    i.take(ran(false, "", "cp: Operation not permitted"));
    prompt(&i);
    i.take(ran(false, "", " odd \n"));
    i.take(ran(true, "", ""));
    assert_eq!(i.last_note(), "error: Install failed: privileged install failed: odd");
    assert!(i.notes.contains(&"  -> failed: odd".to_string()));
    let mut i = start();
    i.take(refused());
    i.take(not_run(false, "none"));
    i.take(ran(true, "", ""));
    assert_eq!(
        i.last_note(),
        "error: Install failed: failed to launch the administrator authorization prompt: none"
    );
}

#[test]
fn mac_copy_failures_unmount_the_image() {
    let mut i = mounted(InstallScope::User);
    i.take(listed(&["T.app"]));
    assert_eq!(i.take(failed("full")), "run $ hdiutil detach -quiet /Volumes/TB < None");
    i.take(ran(true, "", ""));
    assert_eq!(i.last_note(), "error: Install failed: full");
    let mut i = mounted(InstallScope::User);
    assert_eq!(
        i.take(listed(&["readme.txt"])),
        "run $ hdiutil detach -quiet /Volumes/TB < None"
    );
    i.take(ran(true, "", ""));
    assert_eq!(i.last_note(), "error: Install failed: no .app bundle found inside the disk image");
    let mut i = mounted(InstallScope::User);
    i.take(Event::Listed(Err("io".to_string())));
    assert_eq!(i.last_note(), "error: Install failed: io");
}

#[test]
fn stale_volumes_are_detached_first() {
    let mut i = mac(InstallScope::User);
    assert_eq!(
        i.take(listed(&["Tor Browser 1", "Macintosh HD", "Tor Browser"])),
        "run $ hdiutil detach -quiet /Volumes/Tor Browser 1 < None"
    );
    assert_eq!(
        i.take(ran(false, "", "")),
        "run $ hdiutil detach -quiet /Volumes/Tor Browser < None"
    );
    assert_eq!(i.take(not_run(false, "x")), "list /Volumes");
    assert_eq!(i.pipeline.phase(), Phase::ListingBefore(1));
}

#[test]
fn a_silent_mount_is_found_by_its_volume() {
    let mut i = mac(InstallScope::User);
    i.take(Event::Listed(Err("none".to_string())));
    i.take(listed(&["Macintosh HD"]));
    assert_eq!(i.take(ran(true, "", "")), "list /Volumes");
    assert_eq!(i.take(listed(&["Macintosh HD", "Tor Browser"])), "list /Volumes/Tor Browser");
}

/// An install on macOS whose image could not be attached.
fn unmountable() -> Install {
    let mut i = mac(InstallScope::User);
    i.take(listed(&[]));
    i.take(listed(&[]));
    assert_eq!(i.take(not_run(false, "none")), "pause 750");
    assert_eq!(i.last_note(), "stage: Retrying disk image attach...");
    assert_eq!(i.take(done()), "list /Volumes");
    i.take(listed(&["A"]));
    i.take(ran(true, "", ""));
    assert_eq!(i.take(listed(&["A"])), "pause 750");
    i.take(done());
    i.take(listed(&[]));
    assert_eq!(i.take(ran(false, "", " busy\n")), "run $ which 7zz < None");
    assert_eq!(
        i.notes[i.notes.len() - 2],
        "stage: Disk image would not attach  -  extracting without mounting..."
    );
    i
}

const ATTACH_ERROR: &str = "error: Install failed: hdiutil attach failed (hdiutil attach failed: \
    busy (after 3 attempts)), and the mount-free fallback also failed (";

#[test]
fn attaching_is_tried_three_times() {
    let i = unmountable();
    let attempts =
        i.actions.iter().filter(|a| a.starts_with("run $ hdiutil attach")).count();
    assert_eq!(attempts, 3);
}

#[test]
fn extraction_without_mounting() {
    let mut i = unmountable();
    assert_eq!(i.take(ran(false, "", "")), "run $ which 7z < None");
    let dir = "/tmp/tor-browser-builder/dmg-extract";
    assert_eq!(i.take(ran(true, "/usr/local/bin/7z", "")), format!("remove dir {dir}"));
    assert_eq!(i.take(failed("nothing there")), format!("create {dir}"));
    assert_eq!(i.take(done()), format!("run $ 7z x {DMG} -o{dir} -y < None"));
    assert_eq!(i.take(ran(true, "", "")), format!("find bundle in {dir}"));
    assert_eq!(i.take(found(&format!("{dir}/hfs/T.app"))), "create /Applications");
    assert_eq!(i.take(done()), "look at /Applications/T.app");
    assert_eq!(
        i.take(Event::PathExists(false)),
        format!("run $ cp -R {dir}/hfs/T.app /Applications < None")
    );
    assert_eq!(i.take(ran(true, "", "")), format!("remove dir {dir}"));
    assert_eq!(i.take(failed("x")), format!("remove file {DMG}"));
    assert_eq!(i.last_note(), "complete: /Applications/T.app");
}

#[test]
fn extraction_failures() {
    let mut i = unmountable();
    i.take(not_run(false, "no which"));
    i.take(ran(false, "", ""));
    i.take(ran(false, "", ""));
    assert_eq!(
        i.last_note(),
        format!(
            "{ATTACH_ERROR}no 7-Zip binary (7zz/7z/7za) is installed to extract the disk image \
             without mounting it  -  install one with `brew install sevenzip` (or `brew install \
             p7zip`) and try again)"
        )
    );
    let mut i = unmountable();
    i.take(ran(true, "", ""));
    i.take(done());
    i.take(failed("full"));
    assert_eq!(i.last_note(), format!("{ATTACH_ERROR}full)"));
    let extracting = || {
        let mut i = unmountable();
        i.take(ran(true, "", ""));
        i.take(done());
        i.take(done());
        i
    };
    let mut i = extracting();
    i.take(not_run(false, "gone"));
    assert_eq!(i.last_note(), format!("{ATTACH_ERROR}failed to run 7zz: gone)"));
    let mut i = extracting();
    i.take(ran(false, "", ""));
    assert_eq!(i.last_note(), format!("{ATTACH_ERROR}7zz could not extract the disk image)"));
    let mut i = extracting();
    i.take(ran(true, "", ""));
    i.take(Event::Found(None));
    assert_eq!(
        i.last_note(),
        format!("{ATTACH_ERROR}no .app bundle found inside the extracted disk image)")
    );
    let mut i = extracting();
    i.take(ran(true, "", ""));
    i.take(found("/tmp/tor-browser-builder/dmg-extract/T.app"));
    i.take(failed("no room"));
    assert_eq!(i.last_note(), format!("{ATTACH_ERROR}no room)"));
}

#[test]
fn the_password_makes_no_difference_to_what_is_shown() {
    let run = |password: &str| {
        let target = Target { os: Os::Linux, arch: Arch::X86_64 };
        let pipeline = InstallPipeline::new(
            target,
            InstallScope::Global,
            "/opt/tb".to_string(),
            password.to_string(),
            "/tmp",
        );
        let mut i = Install { pipeline, notes: Vec::new(), actions: Vec::new() };
        i.take(Event::Started);
        i.take(release(None, None));
        i.take(Event::Answered(Answer::Proceed));
        i.take(done());
        i.take(done());
        i.take(ran(false, "", "denied"));
        i.take(done());
        i.notes
    };
    assert_eq!(run("secret"), run("other"));
}
