use tor_browser_builder::commands::{
    apple_script, bundle_shell_command, command_line, copy_outcome, launch_app, open_folder,
    prompt_cancelled, prompt_cancelled_from, sudo_command, sudo_failure, sudo_failure_from,
    sudo_line, unpack_shell_command, CopyOutcome, Exit, RunFailure, SystemCommand,
};
use tor_browser_builder::platform::Os;
use tor_browser_builder::quote::{applescript_escape, shell_quote};

#[test]
fn quoted_shell_words() {
    assert_eq!(shell_quote("/opt/tor browser"), "'/opt/tor browser'");
    assert_eq!(shell_quote(""), "''");
    assert_eq!(shell_quote("it's"), r"'it'\''s'");
    assert_eq!(shell_quote("'"), r"''\'''");
    assert_eq!(shell_quote("$HOME `x` \"y\" \\"), "'$HOME `x` \"y\" \\'");
}

/// A reader of words in single quotes, to read back what was quoted.
fn read_word(text: &str) -> String {
    let mut word = String::new();
    let mut quoted = false;
    let mut chars = text.chars();
    while let Some(c) = chars.next() {
        if c == '\'' {
            quoted = !quoted;
        } else if c == '\\' && !quoted {
            word.push(chars.next().unwrap());
        } else {
            assert!(quoted);
            word.push(c);
        }
    }
    assert!(!quoted);
    word
}

#[test]
fn quoted_words_are_read_back() {
    for path in ["/a b", "''", "a'b'c", "\\", "\"", "", "&& rm -rf /"] {
        assert_eq!(read_word(&shell_quote(path)), path);
    }
}

#[test]
fn escaped_applescript() {
    assert_eq!(applescript_escape("say \"hi\""), "say \\\"hi\\\"");
    assert_eq!(applescript_escape("a\\b"), "a\\\\b");
    assert_eq!(applescript_escape("\\\""), "\\\\\\\"");
    assert_eq!(applescript_escape("plain"), "plain");
}

#[test]
fn bundle_command() {
    assert_eq!(
        bundle_shell_command("/Volumes/T B/T.app", "/Apps", "/Apps/T.app"),
        "mkdir -p '/Apps' && rm -rf '/Apps/T.app' && cp -R '/Volumes/T B/T.app' '/Apps'"
    );
}

#[test]
fn unpack_command() {
    assert_eq!(
        unpack_shell_command("/opt/tor", "/tmp/a.tar.xz"),
        "mkdir -p '/opt/tor' && tar -xJf '/tmp/a.tar.xz' -C '/opt/tor' && \
         find '/opt/tor' -name start-tor-browser -exec chmod +x {} + && chmod -R a+rX '/opt/tor'"
    );
}

#[test]
fn administrator_script() {
    assert_eq!(
        apple_script("echo \"x\"", "/A \"B\""),
        "do shell script \"echo \\\"x\\\"\" with administrator privileges with prompt \"Tor \
         Browser Builder needs your password to install Tor Browser in /A \\\"B\\\".\""
    );
}

#[test]
fn shown_commands() {
    let tar = SystemCommand {
        program: "tar".to_string(),
        args: vec!["-xJf".to_string(), "/a b".to_string()],
    };
    assert_eq!(command_line(&tar), "$ tar -xJf /a b");
    let bare = SystemCommand { program: "ls".to_string(), args: Vec::new() };
    assert_eq!(command_line(&bare), "$ ls");
    assert_eq!(sudo_line("id"), "$ sudo -s -- sh -c \"id\"");
}

#[test]
fn sudo_reads_the_password_from_its_input() {
    let c = sudo_command("id");
    assert_eq!(c.program, "sudo");
    assert_eq!(c.args, vec!["-S", "-p", "", "-k", "-s", "--", "sh", "-c", "id"]);
}

#[test]
fn sudo_failures() {
    assert_eq!(sudo_failure("Sorry, TRY again."), "the administrator password was incorrect");
    assert_eq!(
        sudo_failure("sudo: 1 Incorrect Password attempt"),
        "the administrator password was incorrect"
    );
    let prompt = "sudo could not prompt for a password in this environment  -  this usually \
                  means the account isn't allowed to use sudo, or a password wasn't entered";
    assert_eq!(sudo_failure("sudo: A Password is required"), prompt);
    assert_eq!(sudo_failure("sudo: no TTY present"), prompt);
    assert_eq!(sudo_failure("  disk FULL \n"), "privileged command failed: disk FULL");
    assert_eq!(sudo_failure_from("X", "no tty present"), prompt);
    assert_eq!(sudo_failure_from(" no tty present ", ""), "privileged command failed: no tty present");
}

fn exit(success: bool, stderr: &str) -> Result<Exit, RunFailure> {
    Ok(Exit { success, stdout: String::new(), stderr: stderr.to_string() })
}

#[test]
fn copy_outcomes() {
    assert!(matches!(copy_outcome(exit(true, "Permission denied")), CopyOutcome::Copied));
    assert!(matches!(
        copy_outcome(exit(false, "cp: x: Permission denied")),
        CopyOutcome::PermissionDenied
    ));
    assert!(matches!(
        copy_outcome(exit(false, "cp: x: Operation not permitted")),
        CopyOutcome::PermissionDenied
    ));
    match copy_outcome(exit(false, " no space\n")) {
        CopyOutcome::Failed(e) => assert_eq!(e, "copying the app bundle failed: no space"),
        _ => panic!(),
    }
    let gone = RunFailure { launched: false, message: "not found".to_string() };
    match copy_outcome(Err(gone)) {
        CopyOutcome::Failed(e) => assert_eq!(e, "failed to run cp: not found"),
        _ => panic!(),
    }
}

#[test]
fn dismissed_prompts() {
    assert!(prompt_cancelled("execution error: User canceled. (-128)"));
    assert!(prompt_cancelled("USER Canceled"));
    assert!(!prompt_cancelled("execution error (-10)"));
    assert!(prompt_cancelled_from("", "user canceled"));
    assert!(!prompt_cancelled_from("User Canceled", ""));
}

fn shown(c: Option<SystemCommand>) -> Option<String> {
    c.map(|c| command_line(&c))
}

#[test]
fn launching() {
    assert_eq!(shown(launch_app(Os::MacOs, "/a")).as_deref(), Some("$ open /a"));
    assert_eq!(shown(launch_app(Os::Linux, "/a")).as_deref(), Some("$ /a"));
    assert_eq!(shown(launch_app(Os::Windows, "C:\\a")).as_deref(), Some("$ C:\\a"));
    assert_eq!(shown(launch_app(Os::Other, "/a")), None);
    assert_eq!(shown(open_folder(Os::MacOs, "/a")).as_deref(), Some("$ open /a"));
    assert_eq!(shown(open_folder(Os::Linux, "/a")).as_deref(), Some("$ xdg-open /a"));
    assert_eq!(shown(open_folder(Os::Windows, "a")).as_deref(), Some("$ explorer a"));
    assert_eq!(shown(open_folder(Os::Other, "/a")), None);
}
