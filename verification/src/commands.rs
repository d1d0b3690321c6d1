//! System commands: what is run, how it is shown, and what its result means.

use vstd::prelude::*;
use crate::platform::Os;
use crate::quote::{
    applescript_escape, applescript_escape_is_read_back, applescript_escaped, applescript_literal,
    are_words, shell_quote, shell_quoted, shell_words, words_are_read_back, written_word,
    written_words, ShellWord,
};
use crate::text::{
    cat2, cat3, cat5, contains, lowercased, occurs, owned, texts, to_lowercase, trim, trimmed,
};

verus! {

broadcast use vstd::string::group_string_axioms;

/// A program and its arguments.
pub struct SystemCommand {
    pub program: String,
    pub args: Vec<String>,
}

/// A program and its arguments, as texts.
#[verifier::ext_equal]
pub struct CommandView {
    pub program: Seq<char>,
    pub args: Seq<Seq<char>>,
}

impl View for SystemCommand {
    type V = CommandView;

    open spec fn view(&self) -> CommandView {
        CommandView { program: self.program@, args: texts(self.args@) }
    }
}

/// How a command ended, and what it printed.
pub struct Exit {
    pub success: bool,
    pub stdout: String,
    pub stderr: String,
}

/// How a command ended, and what it printed, as texts.
pub struct ExitView {
    pub success: bool,
    pub stdout: Seq<char>,
    pub stderr: Seq<char>,
}

impl View for Exit {
    type V = ExitView;

    open spec fn view(&self) -> ExitView {
        ExitView { success: self.success, stdout: self.stdout@, stderr: self.stderr@ }
    }
}

/// Why a command has no exit status.
pub struct RunFailure {
    /// Whether the command was launched at all.
    pub launched: bool,
    pub message: String,
}

/// Why a command has no exit status, as a text.
pub struct RunFailureView {
    pub launched: bool,
    pub message: Seq<char>,
}

impl View for RunFailure {
    type V = RunFailureView;

    open spec fn view(&self) -> RunFailureView {
        RunFailureView { launched: self.launched, message: self.message@ }
    }
}

/// The result of running a command, as texts.
pub open spec fn run_result(r: Result<Exit, RunFailure>) -> Result<ExitView, RunFailureView> {
    match r {
        Ok(exit) => Ok(exit@),
        Err(e) => Err(e@),
    }
}

// ---------------------------------------------------------------------
// Building and showing commands
// ---------------------------------------------------------------------

/// The arguments, each behind a space.
pub open spec fn spaced(args: Seq<Seq<char>>) -> Seq<char>
    decreases args.len(),
{
    if args.len() == 0 {
        Seq::<char>::empty()
    } else {
        spaced(args.drop_last()) + " "@ + args.last()
    }
}

/// The line that shows a command: a prompt, the program and its arguments.
pub open spec fn shown_command(c: CommandView) -> Seq<char> {
    "$ "@ + c.program + spaced(c.args)
}

/// The line that shows a command in the "View commands" panel.
pub fn command_line(command: &SystemCommand) -> (r: String)
    ensures
        r@ == shown_command(command@),
{
    let mut r = cat2("$ ", command.program.as_str());
    let ghost head = r@;
    let mut i: usize = 0;
    let ghost args = texts(command.args@);
    assert(r@ =~= head + spaced(args.take(0)));
    while i < command.args.len()
        invariant
            i <= command.args@.len(),
            args == texts(command.args@),
            r@ == head + spaced(args.take(i as int)),
        decreases command.args@.len() - i,
    {
        r.append(" ");
        r.append(command.args[i].as_str());
        i = i + 1;
        proof {
            assert(args.take(i as int).drop_last() =~= args.take(i - 1));
            assert(args.take(i as int).last() == command.args@[i - 1]@);
            assert(r@ =~= head + spaced(args.take(i as int)));
        }
    }
    assert(args.take(i as int) =~= args);
    r
}

/// `command` with one more argument.
fn with(command: SystemCommand, arg: &str) -> (r: SystemCommand)
    ensures
        r@ == (CommandView { program: command@.program, args: command@.args.push(arg@) }),
{
    let mut r = command;
    let ghost before = r.args@;
    r.args.push(owned(arg));
    assert(texts(r.args@) =~= texts(before).push(arg@));
    r
}

/// A program without arguments.
fn bare_command(program: &str) -> (r: SystemCommand)
    ensures
        r@ == (CommandView { program: program@, args: Seq::<Seq<char>>::empty() }),
{
    let r = SystemCommand { program: owned(program), args: Vec::new() };
    assert(r@.args =~= Seq::<Seq<char>>::empty());
    r
}

pub(crate) fn command1(program: &str, a: &str) -> (r: SystemCommand)
    ensures
        r@ == (CommandView { program: program@, args: seq![a@] }),
{
    let r = with(bare_command(program), a);
    assert(r@.args =~= seq![a@]);
    r
}

pub(crate) fn command2(program: &str, a: &str, b: &str) -> (r: SystemCommand)
    ensures
        r@ == (CommandView { program: program@, args: seq![a@, b@] }),
{
    let r = with(command1(program, a), b);
    assert(r@.args =~= seq![a@, b@]);
    r
}

pub(crate) fn command3(program: &str, a: &str, b: &str, c: &str) -> (r: SystemCommand)
    ensures
        r@ == (CommandView { program: program@, args: seq![a@, b@, c@] }),
{
    let r = with(command2(program, a, b), c);
    assert(r@.args =~= seq![a@, b@, c@]);
    r
}

pub(crate) fn command4(program: &str, a: &str, b: &str, c: &str, d: &str) -> (r: SystemCommand)
    ensures
        r@ == (CommandView { program: program@, args: seq![a@, b@, c@, d@] }),
{
    let r = with(command3(program, a, b, c), d);
    assert(r@.args =~= seq![a@, b@, c@, d@]);
    r
}

// ---------------------------------------------------------------------
// Privileged shell commands
// ---------------------------------------------------------------------

/// `sudo` running a shell command. It reads the password from its standard
/// input, without a prompt and without one that it remembers.
pub open spec fn sudo_view(shell_cmd: Seq<char>) -> CommandView {
    CommandView {
        program: "sudo"@,
        args: seq!["-S"@, "-p"@, ""@, "-k"@, "-s"@, "--"@, "sh"@, "-c"@, shell_cmd],
    }
}

/// Runs `shell_cmd` with `sudo -s`, with the password on `sudo`'s stdin so
/// the person only has to type it once in the UI rather than at an
/// interactive terminal prompt.
pub fn sudo_command(shell_cmd: &str) -> (r: SystemCommand)
    ensures
        r@ == sudo_view(shell_cmd@),
{
    let quiet = command4("sudo", "-S", "-p", "", "-k");
    let shell = with(with(with(with(quiet, "-s"), "--"), "sh"), "-c");
    let r = with(shell, shell_cmd);
    assert(r@.args =~= sudo_view(shell_cmd@).args);
    r
}

/// The line that shows a privileged shell command.
pub open spec fn shown_sudo(shell_cmd: Seq<char>) -> Seq<char> {
    "$ sudo -s -- sh -c \""@ + shell_cmd + "\""@
}

/// The line that shows a privileged shell command in the "View commands"
/// panel. The password is no part of it.
pub fn sudo_line(shell_cmd: &str) -> (r: String)
    ensures
        r@ == shown_sudo(shell_cmd@),
{
    cat3("$ sudo -s -- sh -c \"", shell_cmd, "\"")
}

/// Why `sudo` failed, by what it printed and by that in small letters.
pub open spec fn sudo_failure_text(stderr: Seq<char>, lower: Seq<char>) -> Seq<char> {
    if occurs(lower, "incorrect password"@) || occurs(lower, "sorry, try again"@) {
        "the administrator password was incorrect"@
    } else if occurs(lower, "a password is required"@) || occurs(lower, "no tty present"@) {
        "sudo could not prompt for a password in this environment  -  this usually means the account isn't allowed to use sudo, or a password wasn't entered"@
    } else {
        "privileged command failed: "@ + trimmed(stderr)
    }
}

/// Why `sudo` failed: `stderr` is what it printed, `lower` the same in small
/// letters.
pub fn sudo_failure_from(stderr: &str, lower: &str) -> (r: String)
    ensures
        r@ == sudo_failure_text(stderr@, lower@),
{
    if contains(lower, "incorrect password") || contains(lower, "sorry, try again") {
        return owned("the administrator password was incorrect");
    }
    if contains(lower, "a password is required") || contains(lower, "no tty present") {
        return owned(
            "sudo could not prompt for a password in this environment  -  this usually means the account isn't allowed to use sudo, or a password wasn't entered",
        );
    }
    let shown = trim(stderr);
    cat2("privileged command failed: ", shown.as_str())
}

/// Why `sudo` failed, by what it printed.
pub fn sudo_failure(stderr: &str) -> (r: String)
    ensures
        r@ == sudo_failure_text(stderr@, lowercased(stderr@)),
{
    let lower = to_lowercase(stderr);
    sudo_failure_from(stderr, lower.as_str())
}

// ---------------------------------------------------------------------
// Copying an app bundle
// ---------------------------------------------------------------------

/// How a plain copy ended. A refusal for want of permission is told apart from
/// every other failure, so that an authenticated retry is made only where it
/// makes sense.
pub enum CopyOutcome {
    Copied,
    PermissionDenied,
    Failed(String),
}

pub enum CopyOutcomeView {
    Copied,
    PermissionDenied,
    Failed(Seq<char>),
}

impl View for CopyOutcome {
    type V = CopyOutcomeView;

    open spec fn view(&self) -> CopyOutcomeView {
        match self {
            CopyOutcome::Copied => CopyOutcomeView::Copied,
            CopyOutcome::PermissionDenied => CopyOutcomeView::PermissionDenied,
            CopyOutcome::Failed(e) => CopyOutcomeView::Failed(e@),
        }
    }
}

/// What the result of `cp` means.
pub open spec fn cp_outcome(r: Result<ExitView, RunFailureView>) -> CopyOutcomeView {
    match r {
        Err(e) => CopyOutcomeView::Failed("failed to run cp: "@ + e.message),
        Ok(exit) => if exit.success {
            CopyOutcomeView::Copied
        } else if occurs(exit.stderr, "Permission denied"@) || occurs(
            exit.stderr,
            "Operation not permitted"@,
        ) {
            CopyOutcomeView::PermissionDenied
        } else {
            CopyOutcomeView::Failed("copying the app bundle failed: "@ + trimmed(exit.stderr))
        },
    }
}

/// What the result of `cp` means.
pub fn copy_outcome(result: Result<Exit, RunFailure>) -> (r: CopyOutcome)
    ensures
        r@ == cp_outcome(run_result(result)),
{
    match result {
        Err(e) => CopyOutcome::Failed(cat2("failed to run cp: ", e.message.as_str())),
        Ok(exit) => {
            if exit.success {
                CopyOutcome::Copied
            } else if contains(exit.stderr.as_str(), "Permission denied") || contains(
                exit.stderr.as_str(),
                "Operation not permitted",
            ) {
                CopyOutcome::PermissionDenied
            } else {
                let shown = trim(exit.stderr.as_str());
                CopyOutcome::Failed(cat2("copying the app bundle failed: ", shown.as_str()))
            }
        },
    }
}

/// The shell command that replaces the bundle at `dest` by the one at `source`.
pub open spec fn bundle_command_text(
    source: Seq<char>,
    install_dir: Seq<char>,
    dest: Seq<char>,
) -> Seq<char> {
    "mkdir -p "@ + shell_quoted(install_dir) + " && rm -rf "@ + shell_quoted(dest) + " && cp -R "@
        + shell_quoted(source) + " "@ + shell_quoted(install_dir)
}

/// The shell command that removes an old bundle, makes sure that the install
/// directory exists, and copies the new bundle in.
pub fn bundle_shell_command(source: &str, install_dir: &str, dest: &str) -> (r: String)
    ensures
        r@ == bundle_command_text(source@, install_dir@, dest@),
{
    let dir = shell_quote(install_dir);
    let old_bundle = shell_quote(dest);
    let new_bundle = shell_quote(source);
    let mut r = cat5("mkdir -p ", dir.as_str(), " && rm -rf ", old_bundle.as_str(), " && cp -R ");
    r.append(new_bundle.as_str());
    r.append(" ");
    r.append(dir.as_str());
    r
}

/// The AppleScript that runs a shell command behind the administrator prompt.
pub open spec fn apple_script_text(shell_cmd: Seq<char>, install_dir: Seq<char>) -> Seq<char> {
    "do shell script \""@ + applescript_escaped(shell_cmd)
        + "\" with administrator privileges with prompt \"Tor Browser Builder needs your password to install Tor Browser in "@
        + applescript_escaped(install_dir) + ".\""@
}

/// The AppleScript that runs a shell command behind the standard macOS
/// password/Touch ID prompt.
pub fn apple_script(shell_cmd: &str, install_dir: &str) -> (r: String)
    ensures
        r@ == apple_script_text(shell_cmd@, install_dir@),
{
    let cmd = applescript_escape(shell_cmd);
    let dir = applescript_escape(install_dir);
    cat5(
        "do shell script \"",
        cmd.as_str(),
        "\" with administrator privileges with prompt \"Tor Browser Builder needs your password to install Tor Browser in ",
        dir.as_str(),
        ".\"",
    )
}

/// The administrator prompt was dismissed, by what `osascript` printed and by
/// that in small letters.
pub open spec fn is_cancelled(stderr: Seq<char>, lower: Seq<char>) -> bool {
    occurs(stderr, "-128"@) || occurs(lower, "user canceled"@)
}

/// Whether the person dismissed the administrator prompt: AppleScript reports
/// that as error -128 ("User canceled."). `stderr` is what `osascript` printed,
/// `lower` the same in small letters.
pub fn prompt_cancelled_from(stderr: &str, lower: &str) -> (r: bool)
    ensures
        r == is_cancelled(stderr@, lower@),
{
    contains(stderr, "-128") || contains(lower, "user canceled")
}

/// Whether the person dismissed the administrator prompt.
pub fn prompt_cancelled(stderr: &str) -> (r: bool)
    ensures
        r == is_cancelled(stderr@, lowercased(stderr@)),
{
    let lower = to_lowercase(stderr);
    prompt_cancelled_from(stderr, lower.as_str())
}

// ---------------------------------------------------------------------
// Unpacking an archive
// ---------------------------------------------------------------------

/// The shell command that unpacks an archive for every account.
pub open spec fn unpack_command_text(install_dir: Seq<char>, archive: Seq<char>) -> Seq<char> {
    "mkdir -p "@ + shell_quoted(install_dir) + " && tar -xJf "@ + shell_quoted(archive) + " -C "@
        + shell_quoted(install_dir) + " && find "@ + shell_quoted(install_dir)
        + " -name start-tor-browser -exec chmod +x {} + && chmod -R a+rX "@ + shell_quoted(
        install_dir,
    )
}

/// The shell command that creates the install directory, unpacks the archive
/// into it, makes the launcher executable, and lets every account read it all.
pub fn unpack_shell_command(install_dir: &str, archive: &str) -> (r: String)
    ensures
        r@ == unpack_command_text(install_dir@, archive@),
{
    let dir = shell_quote(install_dir);
    let file = shell_quote(archive);
    let mut r = cat5("mkdir -p ", dir.as_str(), " && tar -xJf ", file.as_str(), " -C ");
    r.append(dir.as_str());
    r.append(" && find ");
    r.append(dir.as_str());
    r.append(" -name start-tor-browser -exec chmod +x {} + && chmod -R a+rX ");
    r.append(dir.as_str());
    r
}

// ---------------------------------------------------------------------
// Opening what was installed
// ---------------------------------------------------------------------

/// The command that starts Tor Browser, where there is one.
pub open spec fn launch_view(os: Os, app_path: Seq<char>) -> Option<CommandView> {
    match os {
        Os::MacOs => Some(CommandView { program: "open"@, args: seq![app_path] }),
        Os::Linux => Some(CommandView { program: app_path, args: Seq::<Seq<char>>::empty() }),
        Os::Windows => Some(CommandView { program: app_path, args: Seq::<Seq<char>>::empty() }),
        Os::Other => None,
    }
}

/// The command that opens a folder, where there is one.
pub open spec fn folder_view(os: Os, folder: Seq<char>) -> Option<CommandView> {
    match os {
        Os::MacOs => Some(CommandView { program: "open"@, args: seq![folder] }),
        Os::Linux => Some(CommandView { program: "xdg-open"@, args: seq![folder] }),
        Os::Windows => Some(CommandView { program: "explorer"@, args: seq![folder] }),
        Os::Other => None,
    }
}

/// An optional command, as texts.
pub open spec fn optional_command(c: Option<SystemCommand>) -> Option<CommandView> {
    match c {
        Some(command) => Some(command@),
        None => None,
    }
}

/// The command that starts Tor Browser. On Linux this is the start-tor-browser
/// script; on Windows it's the installed executable. Both are directly
/// spawnable.
pub fn launch_app(os: Os, app_path: &str) -> (r: Option<SystemCommand>)
    ensures
        optional_command(r) == launch_view(os, app_path@),
{
    match os {
        Os::MacOs => Some(command1("open", app_path)),
        Os::Linux => Some(bare_command(app_path)),
        Os::Windows => Some(bare_command(app_path)),
        Os::Other => None,
    }
}

/// The command that opens a folder.
pub fn open_folder(os: Os, folder: &str) -> (r: Option<SystemCommand>)
    ensures
        optional_command(r) == folder_view(os, folder@),
{
    match os {
        Os::MacOs => Some(command1("open", folder)),
        Os::Linux => Some(command1("xdg-open", folder)),
        Os::Windows => Some(command1("explorer", folder)),
        Os::Other => None,
    }
}

// ---------------------------------------------------------------------
// What other programs read
// ---------------------------------------------------------------------

/// The words of the command that replaces a bundle.
pub open spec fn bundle_words(
    source: Seq<char>,
    install_dir: Seq<char>,
    dest: Seq<char>,
) -> Seq<ShellWord> {
    seq![
        ShellWord::Bare("mkdir"@),
        ShellWord::Bare("-p"@),
        ShellWord::Quoted(install_dir),
        ShellWord::Bare("&&"@),
        ShellWord::Bare("rm"@),
        ShellWord::Bare("-rf"@),
        ShellWord::Quoted(dest),
        ShellWord::Bare("&&"@),
        ShellWord::Bare("cp"@),
        ShellWord::Bare("-R"@),
        ShellWord::Quoted(source),
        ShellWord::Quoted(install_dir),
    ]
}

/// Plain words, each with a space before it.
spec fn led(words: Seq<Seq<char>>) -> Seq<char>
    decreases words.len(),
{
    if words.len() == 0 {
        Seq::<char>::empty()
    } else {
        led(words.drop_last()) + " "@ + words.last()
    }
}

proof fn led_by_more(words: Seq<Seq<char>>, word: Seq<char>)
    ensures
        led(words.push(word)) == led(words) + " "@ + word,
{
    assert(words.push(word).drop_last() =~= words);
}

/// Plain words, a quoted one behind them, and more words.
spec fn phrase(words: Seq<Seq<char>>, path: Seq<char>, rest: Seq<ShellWord>) -> Seq<ShellWord> {
    words.map_values(|w: Seq<char>| ShellWord::Bare(w)) + (seq![ShellWord::Quoted(path)] + rest)
}

/// Words as they are written behind others.
spec fn behind(words: Seq<ShellWord>) -> Seq<char> {
    if words.len() == 0 {
        Seq::<char>::empty()
    } else {
        " "@ + written_words(words)
    }
}

proof fn word_is_behind(word: ShellWord, rest: Seq<ShellWord>)
    ensures
        behind(seq![word] + rest) == " "@ + written_word(word) + behind(rest),
{
    let all = seq![word] + rest;
    assert(all.skip(1) =~= rest);
    assert(behind(all) =~= " "@ + written_word(word) + behind(rest));
}

proof fn phrase_is_behind(words: Seq<Seq<char>>, path: Seq<char>, rest: Seq<ShellWord>)
    ensures
        behind(phrase(words, path, rest)) == led(words) + " "@ + shell_quoted(path) + behind(rest),
    decreases words.len(),
{
    let quoted = seq![ShellWord::Quoted(path)] + rest;
    word_is_behind(ShellWord::Quoted(path), rest);
    words_are_behind(words, quoted);
    assert(led(words) + (" "@ + shell_quoted(path) + behind(rest)) =~= led(words) + " "@
        + shell_quoted(path) + behind(rest));
}

proof fn words_are_behind(words: Seq<Seq<char>>, rest: Seq<ShellWord>)
    ensures
        behind(words.map_values(|w: Seq<char>| ShellWord::Bare(w)) + rest) == led(words) + behind(
            rest,
        ),
    decreases words.len(),
{
    let bare = words.map_values(|w: Seq<char>| ShellWord::Bare(w));
    if words.len() == 0 {
        assert(bare + rest =~= rest);
        assert(led(words) + behind(rest) =~= behind(rest));
    } else {
        let word = ShellWord::Bare(words.last());
        let more = seq![word] + rest;
        words_are_behind(words.drop_last(), more);
        assert(words.drop_last().map_values(|w: Seq<char>| ShellWord::Bare(w)) + more =~= bare
            + rest);
        word_is_behind(word, rest);
        assert(led(words.drop_last()) + (" "@ + words.last() + behind(rest)) =~= led(words)
            + behind(rest));
    }
}

proof fn written_is_behind(words: Seq<ShellWord>, text: Seq<char>)
    requires
        words.len() > 0,
        behind(words) == " "@ + text,
    ensures
        written_words(words) == text,
{
    assert((" "@ + written_words(words)).skip(" "@.len() as int) =~= written_words(words));
    assert((" "@ + text).skip(" "@.len() as int) =~= text);
}

/// The words of the commands that stand outside quotes, as they are written.
proof fn bundle_leads()
    ensures
        led(seq!["mkdir"@, "-p"@]) + " "@ == " "@ + "mkdir -p "@,
        led(seq!["&&"@, "rm"@, "-rf"@]) + " "@ == " && rm -rf "@,
        led(seq!["&&"@, "cp"@, "-R"@]) + " "@ == " && cp -R "@,
        led(Seq::<Seq<char>>::empty()) + " "@ == " "@,
{
    reveal_with_fuel(led, 4);
    let none = Seq::<Seq<char>>::empty();
    led_by_more(none, "mkdir"@);
    led_by_more(none.push("mkdir"@), "-p"@);
    led_by_more(none, "&&"@);
    led_by_more(none.push("&&"@), "rm"@);
    led_by_more(none.push("&&"@).push("rm"@), "-rf"@);
    led_by_more(none.push("&&"@), "cp"@);
    led_by_more(none.push("&&"@).push("cp"@), "-R"@);
    reveal_strlit("mkdir");
    reveal_strlit("-p");
    reveal_strlit("&&");
    reveal_strlit("rm");
    reveal_strlit("-rf");
    reveal_strlit("cp");
    reveal_strlit("-R");
    reveal_strlit(" ");
    reveal_strlit("mkdir -p ");
    reveal_strlit(" && rm -rf ");
    reveal_strlit(" && cp -R ");
    assert(led(seq!["mkdir"@, "-p"@]) + " "@ =~= " "@ + "mkdir -p "@);
    assert(led(seq!["&&"@, "rm"@, "-rf"@]) + " "@ =~= " && rm -rf "@);
    assert(led(seq!["&&"@, "cp"@, "-R"@]) + " "@ =~= " && cp -R "@);
    assert(led(none) + " "@ =~= " "@);
}

/// Three quoted words with texts before them, and what follows, grouped as the
/// command is built.
proof fn regrouped(
    a: Seq<char>,
    p: Seq<char>,
    b: Seq<char>,
    q: Seq<char>,
    c: Seq<char>,
    r: Seq<char>,
    rest: Seq<char>,
)
    ensures
        " "@ + a + p + (b + q + (c + r + rest)) == " "@ + (a + p + b + q + c + r + rest),
{
    assert(c + r + rest =~= c + (r + rest));
    assert(" "@ + a + p + (b + q + (c + r + rest)) =~= " "@ + (a + p + b + q + c + r + rest));
}

/// A shell reads the command that replaces a bundle as `mkdir`, `rm` and `cp`
/// on just these paths, whatever characters the paths hold.
pub proof fn bundle_command_is_read_as_meant(
    source: Seq<char>,
    install_dir: Seq<char>,
    dest: Seq<char>,
)
    ensures
        shell_words(bundle_command_text(source, install_dir, dest)) == Some(
            seq![
                ShellWord::Bare("mkdir"@),
                ShellWord::Bare("-p"@),
                ShellWord::Quoted(install_dir),
                ShellWord::Bare("&&"@),
                ShellWord::Bare("rm"@),
                ShellWord::Bare("-rf"@),
                ShellWord::Quoted(dest),
                ShellWord::Bare("&&"@),
                ShellWord::Bare("cp"@),
                ShellWord::Bare("-R"@),
                ShellWord::Quoted(source),
                ShellWord::Quoted(install_dir),
            ],
        ),
{
    let words = bundle_words(source, install_dir, dest);
    let none = Seq::<ShellWord>::empty();
    let into = phrase(Seq::<Seq<char>>::empty(), install_dir, none);
    let copy = phrase(seq!["&&"@, "cp"@, "-R"@], source, into);
    let remove = phrase(seq!["&&"@, "rm"@, "-rf"@], dest, copy);
    let make = phrase(seq!["mkdir"@, "-p"@], install_dir, remove);
    assert(make =~= words);
    phrase_is_behind(Seq::<Seq<char>>::empty(), install_dir, none);
    phrase_is_behind(seq!["&&"@, "cp"@, "-R"@], source, into);
    phrase_is_behind(seq!["&&"@, "rm"@, "-rf"@], dest, copy);
    phrase_is_behind(seq!["mkdir"@, "-p"@], install_dir, remove);
    bundle_leads();
    let dir = shell_quoted(install_dir);
    assert(" "@ + dir + behind(none) =~= " "@ + dir);
    regrouped(
        "mkdir -p "@,
        dir,
        " && rm -rf "@,
        shell_quoted(dest),
        " && cp -R "@,
        shell_quoted(source),
        " "@ + dir,
    );
    let text = bundle_command_text(source, install_dir, dest);
    assert("mkdir -p "@ + dir + " && rm -rf "@ + shell_quoted(dest) + " && cp -R "@ + shell_quoted(
        source,
    ) + (" "@ + dir) =~= text);
    written_is_behind(words, text);
    reveal_strlit("mkdir");
    reveal_strlit("-p");
    reveal_strlit("&&");
    reveal_strlit("rm");
    reveal_strlit("-rf");
    reveal_strlit("cp");
    reveal_strlit("-R");
    words_are_read_back(words);
}

/// The words of the command that unpacks an archive for every account.
pub open spec fn unpack_words(install_dir: Seq<char>, archive: Seq<char>) -> Seq<ShellWord> {
    seq![
        ShellWord::Bare("mkdir"@),
        ShellWord::Bare("-p"@),
        ShellWord::Quoted(install_dir),
        ShellWord::Bare("&&"@),
        ShellWord::Bare("tar"@),
        ShellWord::Bare("-xJf"@),
        ShellWord::Quoted(archive),
        ShellWord::Bare("-C"@),
        ShellWord::Quoted(install_dir),
        ShellWord::Bare("&&"@),
        ShellWord::Bare("find"@),
        ShellWord::Quoted(install_dir),
        ShellWord::Bare("-name"@),
        ShellWord::Bare("start-tor-browser"@),
        ShellWord::Bare("-exec"@),
        ShellWord::Bare("chmod"@),
        ShellWord::Bare("+x"@),
        ShellWord::Bare("{}"@),
        ShellWord::Bare("+"@),
        ShellWord::Bare("&&"@),
        ShellWord::Bare("chmod"@),
        ShellWord::Bare("-R"@),
        ShellWord::Bare("a+rX"@),
        ShellWord::Quoted(install_dir),
    ]
}

/// The plain words between the last two paths of that command.
spec fn marking_words() -> Seq<Seq<char>> {
    seq![
        "-name"@,
        "start-tor-browser"@,
        "-exec"@,
        "chmod"@,
        "+x"@,
        "{}"@,
        "+"@,
        "&&"@,
        "chmod"@,
        "-R"@,
        "a+rX"@,
    ]
}

proof fn marking_lead()
    ensures
        led(marking_words()) + " "@
            == " -name start-tor-browser -exec chmod +x {} + && chmod -R a+rX "@,
{
    let none = Seq::<Seq<char>>::empty();
    let a = none.push("-name"@).push("start-tor-browser"@);
    let b = a.push("-exec"@).push("chmod"@).push("+x"@);
    let c = b.push("{}"@).push("+"@).push("&&"@);
    led_by_more(none, "-name"@);
    led_by_more(none.push("-name"@), "start-tor-browser"@);
    led_by_more(a, "-exec"@);
    led_by_more(a.push("-exec"@), "chmod"@);
    led_by_more(a.push("-exec"@).push("chmod"@), "+x"@);
    led_by_more(b, "{}"@);
    led_by_more(b.push("{}"@), "+"@);
    led_by_more(b.push("{}"@).push("+"@), "&&"@);
    led_by_more(c, "chmod"@);
    led_by_more(c.push("chmod"@), "-R"@);
    led_by_more(c.push("chmod"@).push("-R"@), "a+rX"@);
    reveal_strlit(" ");
    reveal_strlit("-name");
    reveal_strlit("start-tor-browser");
    reveal_strlit("-exec");
    reveal_strlit("chmod");
    reveal_strlit("+x");
    reveal_strlit("{}");
    reveal_strlit("+");
    reveal_strlit("&&");
    reveal_strlit("-R");
    reveal_strlit("a+rX");
    reveal_strlit(" -name start-tor-browser -exec chmod +x {} + && chmod -R a+rX ");
    assert(led(none) =~= Seq::<char>::empty());
    assert(marking_words() =~= c.push("chmod"@).push("-R"@).push("a+rX"@));
    assert(led(marking_words()) + " "@
        =~= " -name start-tor-browser -exec chmod +x {} + && chmod -R a+rX "@);
}

proof fn unpack_leads()
    ensures
        led(seq!["&&"@, "tar"@, "-xJf"@]) + " "@ == " && tar -xJf "@,
        led(seq!["-C"@]) + " "@ == " -C "@,
        led(seq!["&&"@, "find"@]) + " "@ == " && find "@,
{
    let none = Seq::<Seq<char>>::empty();
    led_by_more(none, "&&"@);
    led_by_more(none.push("&&"@), "tar"@);
    led_by_more(none.push("&&"@).push("tar"@), "-xJf"@);
    led_by_more(none, "-C"@);
    led_by_more(none.push("&&"@), "find"@);
    reveal_strlit(" ");
    reveal_strlit("&&");
    reveal_strlit("tar");
    reveal_strlit("-xJf");
    reveal_strlit("-C");
    reveal_strlit("find");
    reveal_strlit(" && tar -xJf ");
    reveal_strlit(" -C ");
    reveal_strlit(" && find ");
    assert(led(none) =~= Seq::<char>::empty());
    assert(seq!["&&"@, "tar"@, "-xJf"@] =~= none.push("&&"@).push("tar"@).push("-xJf"@));
    assert(seq!["-C"@] =~= none.push("-C"@));
    assert(seq!["&&"@, "find"@] =~= none.push("&&"@).push("find"@));
    assert(led(seq!["&&"@, "tar"@, "-xJf"@]) + " "@ =~= " && tar -xJf "@);
    assert(led(seq!["-C"@]) + " "@ =~= " -C "@);
    assert(led(seq!["&&"@, "find"@]) + " "@ =~= " && find "@);
}

proof fn unpack_words_are_words(install_dir: Seq<char>, archive: Seq<char>)
    ensures
        are_words(unpack_words(install_dir, archive)),
{
    reveal_strlit("mkdir");
    reveal_strlit("-p");
    reveal_strlit("&&");
    reveal_strlit("tar");
    reveal_strlit("-xJf");
    reveal_strlit("-C");
    reveal_strlit("find");
    reveal_strlit("-name");
    reveal_strlit("start-tor-browser");
    reveal_strlit("-exec");
    reveal_strlit("chmod");
    reveal_strlit("+x");
    reveal_strlit("{}");
    reveal_strlit("+");
    reveal_strlit("-R");
    reveal_strlit("a+rX");
}

/// A shell reads the command that unpacks an archive as `mkdir`, `tar`, `find`
/// and `chmod` on just these paths, whatever characters the paths hold.
pub proof fn unpack_command_is_read_as_meant(install_dir: Seq<char>, archive: Seq<char>)
    ensures
        shell_words(unpack_command_text(install_dir, archive)) == Some(
            seq![
                ShellWord::Bare("mkdir"@),
                ShellWord::Bare("-p"@),
                ShellWord::Quoted(install_dir),
                ShellWord::Bare("&&"@),
                ShellWord::Bare("tar"@),
                ShellWord::Bare("-xJf"@),
                ShellWord::Quoted(archive),
                ShellWord::Bare("-C"@),
                ShellWord::Quoted(install_dir),
                ShellWord::Bare("&&"@),
                ShellWord::Bare("find"@),
                ShellWord::Quoted(install_dir),
                ShellWord::Bare("-name"@),
                ShellWord::Bare("start-tor-browser"@),
                ShellWord::Bare("-exec"@),
                ShellWord::Bare("chmod"@),
                ShellWord::Bare("+x"@),
                ShellWord::Bare("{}"@),
                ShellWord::Bare("+"@),
                ShellWord::Bare("&&"@),
                ShellWord::Bare("chmod"@),
                ShellWord::Bare("-R"@),
                ShellWord::Bare("a+rX"@),
                ShellWord::Quoted(install_dir),
            ],
        ),
{
    let words = unpack_words(install_dir, archive);
    let none = Seq::<ShellWord>::empty();
    let mark = phrase(marking_words(), install_dir, none);
    let find = phrase(seq!["&&"@, "find"@], install_dir, mark);
    let into = phrase(seq!["-C"@], install_dir, find);
    let unpack = phrase(seq!["&&"@, "tar"@, "-xJf"@], archive, into);
    let make = phrase(seq!["mkdir"@, "-p"@], install_dir, unpack);
    assert(make =~= words);
    phrase_is_behind(marking_words(), install_dir, none);
    phrase_is_behind(seq!["&&"@, "find"@], install_dir, mark);
    phrase_is_behind(seq!["-C"@], install_dir, find);
    phrase_is_behind(seq!["&&"@, "tar"@, "-xJf"@], archive, into);
    phrase_is_behind(seq!["mkdir"@, "-p"@], install_dir, unpack);
    bundle_leads();
    unpack_leads();
    marking_lead();
    let dir = shell_quoted(install_dir);
    let marking = " -name start-tor-browser -exec chmod +x {} + && chmod -R a+rX "@;
    assert(marking + dir + behind(none) =~= marking + dir);
    let rest = " && find "@ + dir + (marking + dir);
    regrouped(
        "mkdir -p "@,
        dir,
        " && tar -xJf "@,
        shell_quoted(archive),
        " -C "@,
        dir,
        rest,
    );
    let text = unpack_command_text(install_dir, archive);
    assert("mkdir -p "@ + dir + " && tar -xJf "@ + shell_quoted(archive) + " -C "@ + dir + rest
        =~= text);
    written_is_behind(words, text);
    unpack_words_are_words(install_dir, archive);
    words_are_read_back(words);
}

/// AppleScript reads the script that runs a shell command as a literal that is
/// just the command, and then one that names just the directory.
pub proof fn apple_script_is_read_as_meant(shell_cmd: Seq<char>, install_dir: Seq<char>)
    ensures
        ({
            let start = "do shell script \""@;
            let between = " with administrator privileges with prompt \"Tor Browser Builder needs your password to install Tor Browser in "@;
            let script = apple_script_text(shell_cmd, install_dir);
            &&& script.len() >= start.len()
            &&& script.take(start.len() as int) == start
            &&& applescript_literal(script.skip(start.len() as int)) == Some(
                (shell_cmd, between + applescript_escaped(install_dir) + ".\""@),
            )
            &&& applescript_literal(applescript_escaped(install_dir) + "\""@) == Some(
                (install_dir, Seq::<char>::empty()),
            )
        }),
{
    let start = "do shell script \""@;
    let between = " with administrator privileges with prompt \"Tor Browser Builder needs your password to install Tor Browser in "@;
    let script = apple_script_text(shell_cmd, install_dir);
    let rest = between + applescript_escaped(install_dir) + ".\""@;
    reveal_strlit("\"");
    reveal_strlit(
        " with administrator privileges with prompt \"Tor Browser Builder needs your password to install Tor Browser in ",
    );
    reveal_strlit(
        "\" with administrator privileges with prompt \"Tor Browser Builder needs your password to install Tor Browser in ",
    );
    assert("\" with administrator privileges with prompt \"Tor Browser Builder needs your password to install Tor Browser in "@
        =~= "\""@ + between);
    assert(script =~= start + (applescript_escaped(shell_cmd) + "\""@ + rest));
    assert(script.skip(start.len() as int) =~= applescript_escaped(shell_cmd) + "\""@ + rest);
    applescript_escape_is_read_back(shell_cmd, rest);
    let none = Seq::<char>::empty();
    applescript_escape_is_read_back(install_dir, none);
    assert(applescript_escaped(install_dir) + "\""@ + none =~= applescript_escaped(install_dir)
        + "\""@);
}

// ---------------------------------------------------------------------
// Laws
// ---------------------------------------------------------------------

/// What was installed is started by running it: on Linux and Windows the program
/// is the path itself, whatever it is, and gets no argument. On macOS a bundle is
/// no program, so `open` is run on just that path. Elsewhere nothing is run.
pub proof fn what_was_installed_is_what_is_run(os: Os, app_path: Seq<char>)
    ensures
        match os {
            Os::Linux | Os::Windows => launch_view(os, app_path) matches Some(command)
                && command.program == app_path && command.args.len() == 0,
            Os::MacOs => launch_view(os, app_path) matches Some(command) && command.program
                == "open"@ && command.args.len() == 1 && command.args[0] == app_path,
            Os::Other => launch_view(os, app_path) is None,
        },
{
}

/// A folder is opened by the file manager of the system, which gets just that
/// folder, whatever its name is.
pub proof fn folder_is_handed_to_the_file_manager(os: Os, folder: Seq<char>)
    ensures
        match folder_view(os, folder) {
            Some(command) => {
                &&& command.program == (match os {
                    Os::MacOs => "open"@,
                    Os::Linux => "xdg-open"@,
                    _ => "explorer"@,
                })
                &&& command.args.len() == 1
                &&& command.args[0] == folder
                &&& os != Os::Other
            },
            None => os == Os::Other,
        },
{
}

/// A command is shown as a prompt, its program, and its arguments in order, each
/// behind a space and just as it is: one more argument only adds to the line.
pub proof fn command_is_shown_word_by_word(program: Seq<char>, args: Seq<Seq<char>>, arg: Seq<char>)
    ensures
        shown_command(CommandView { program, args: Seq::<Seq<char>>::empty() }) == "$ "@ + program,
        shown_command(CommandView { program, args: args.push(arg) }) == shown_command(
            CommandView { program, args },
        ) + " "@ + arg,
{
    assert(args.push(arg).drop_last() =~= args);
    let before = "$ "@ + program;
    assert(before + Seq::<char>::empty() =~= before);
    assert(before + (spaced(args) + " "@ + arg) =~= before + spaced(args) + " "@ + arg);
}

/// `sudo` hands just the shell command to `sh -c`, as one argument. It reads the
/// password from its standard input, without a prompt, and forgets what it knew.
pub proof fn sudo_runs_the_shell_command(shell_cmd: Seq<char>)
    ensures
        sudo_view(shell_cmd).program == "sudo"@,
        sudo_view(shell_cmd).args.last() == shell_cmd,
        sudo_view(shell_cmd).args.drop_last() == seq![
            "-S"@,
            "-p"@,
            ""@,
            "-k"@,
            "-s"@,
            "--"@,
            "sh"@,
            "-c"@,
        ],
        shown_sudo(shell_cmd) == "$ sudo -s -- sh -c \""@ + shell_cmd + "\""@,
{
    assert(sudo_view(shell_cmd).args.drop_last() =~= seq![
        "-S"@,
        "-p"@,
        ""@,
        "-k"@,
        "-s"@,
        "--"@,
        "sh"@,
        "-c"@,
    ]);
}

/// Why `sudo` failed: a wrong password and a missing one are told apart from
/// everything else, of which what `sudo` printed is shown, without the blanks
/// around it.
pub proof fn sudo_failures_are_told_apart(
    before: Seq<char>,
    behind: Seq<char>,
    stderr: Seq<char>,
    lower: Seq<char>,
)
    ensures
        sudo_failure_text(stderr, before + "incorrect password"@ + behind)
            == "the administrator password was incorrect"@,
        sudo_failure_text(stderr, before + "sorry, try again"@ + behind)
            == "the administrator password was incorrect"@,
        !occurs(lower, "incorrect password"@) && !occurs(lower, "sorry, try again"@) ==> {
            let no_prompt =
                "sudo could not prompt for a password in this environment  -  this usually means the account isn't allowed to use sudo, or a password wasn't entered"@;
            &&& occurs(lower, "a password is required"@) ==> sudo_failure_text(stderr, lower)
                == no_prompt
            &&& occurs(lower, "no tty present"@) ==> sudo_failure_text(stderr, lower) == no_prompt
            &&& !occurs(lower, "a password is required"@) && !occurs(lower, "no tty present"@)
                ==> sudo_failure_text(stderr, lower) == "privileged command failed: "@ + trimmed(
                stderr,
            )
        },
{
    crate::text::occurrence_has_both_sides(
        before + "incorrect password"@ + behind,
        "incorrect password"@,
    );
    crate::text::occurrence_has_both_sides(
        before + "sorry, try again"@ + behind,
        "sorry, try again"@,
    );
}

/// A plain copy went well if and only if `cp` says so. It was refused for want of
/// permission if `cp` failed and printed that, anywhere in what it printed. All
/// else is another failure, and says why.
pub proof fn copies_are_judged_by_what_cp_says(r: Result<ExitView, RunFailureView>)
    ensures
        cp_outcome(r) == CopyOutcomeView::Copied <==> (r matches Ok(exit) && exit.success),
        cp_outcome(r) == CopyOutcomeView::PermissionDenied <==> (r matches Ok(exit) && !exit.success
            && (occurs(exit.stderr, "Permission denied"@) || occurs(
            exit.stderr,
            "Operation not permitted"@,
        ))),
        cp_outcome(r) matches CopyOutcomeView::Failed(e) ==> e == (match r {
            Err(failure) => "failed to run cp: "@ + failure.message,
            Ok(exit) => "copying the app bundle failed: "@ + trimmed(exit.stderr),
        }),
{
}

/// The administrator prompt was dismissed if and only if `osascript` printed the
/// number of that error, or its text in whatever case.
pub proof fn dismissal_is_read_from_what_is_printed(stderr: Seq<char>, lower: Seq<char>)
    ensures
        is_cancelled(stderr, lower) <==> occurs(stderr, "-128"@) || occurs(lower, "user canceled"@),
{
}

} // verus!
