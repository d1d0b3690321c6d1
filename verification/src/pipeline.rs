//! The install pipeline: fetch release info, ask for confirmation, download,
//! verify, install. It decides what to report and what to do next; the worker
//! thread performs the actions.

use vstd::prelude::*;
use crate::checksum::checksum_matches;
use crate::commands::{
    apple_script, apple_script_text, bundle_command_text, bundle_shell_command, command1, command2,
    command3, command4, command_line, copy_outcome, cp_outcome, is_cancelled, prompt_cancelled,
    run_result, shown_command, shown_sudo, sudo_command, sudo_failure, sudo_failure_text, sudo_line,
    sudo_view, unpack_command_text, unpack_shell_command, CommandView, CopyOutcome, CopyOutcomeView,
    Exit, ExitView, RunFailure, RunFailureView, SystemCommand,
};
use crate::events::{
    io_result, listing_result, text_result, Action, ActionView, Answer, Event, EventView, IoFailure,
    IoFailureView, Phase, Route, SevenZip, Step, StepView,
};
use crate::platform::{
    archive_extension, extension_of, file_name, join_path, joined, last_part, wants_password,
    InstallScope, Os, Target,
};
use crate::release::{release_result, ReleaseInfo, ReleaseView};
use crate::search::{has_app_extension, is_app_name};
use crate::states::{event_views, AppState, AppStateView, WorkerEvent, WorkerEventView};
use crate::text::{
    cat2, cat3, cat4, cat5, copy_of, lowercased, optional_text, owned, same_but_for_ascii_case,
    texts, trim, trimmed,
};
use crate::volumes::{
    first_new, mount_point_from_output, new_volume, reported_mount_point, stale_among,
    stale_volumes,
};

verus! {

broadcast use vstd::string::group_string_axioms;

/// How often attaching a disk image is tried: it can fail transiently, right
/// after a previous image was detached.
pub const MAX_ATTEMPTS: u8 = 3;

/// The pause before attaching is tried again, in milliseconds.
pub const RETRY_PAUSE_MS: u64 = 750;

// ---------------------------------------------------------------------
// State
// ---------------------------------------------------------------------

/// The state of an install.
pub struct InstallPipeline {
    target: Target,
    scope: InstallScope,
    install_dir: String,
    password: String,
    temp_dir: String,
    binary_url: String,
    sha256: Option<String>,
    sig_url: Option<String>,
    archive: String,
    stale: Vec<String>,
    volumes: Vec<String>,
    last_error: String,
    mount_point: String,
    source: String,
    dest: String,
    phase: Phase,
}

/// The state of an install, as texts.
#[verifier::ext_equal]
pub struct PipelineView {
    pub target: Target,
    pub scope: InstallScope,
    pub install_dir: Seq<char>,
    pub password: Seq<char>,
    /// Where downloads and extracted images are put.
    pub temp_dir: Seq<char>,
    /// What the release says: where it is, and how it can be verified.
    pub binary_url: Seq<char>,
    pub sha256: Option<Seq<char>>,
    pub sig_url: Option<Seq<char>>,
    /// Where the download is put.
    pub archive: Seq<char>,
    /// The volumes left mounted that are still to be detached.
    pub stale: Seq<Seq<char>>,
    /// The volumes that were there before the last attempt to attach.
    pub volumes: Seq<Seq<char>>,
    /// Why attaching or copying failed.
    pub last_error: Seq<char>,
    pub mount_point: Seq<char>,
    /// The app bundle to copy, and where it goes.
    pub source: Seq<char>,
    pub dest: Seq<char>,
    pub phase: Phase,
}

impl View for InstallPipeline {
    type V = PipelineView;

    closed spec fn view(&self) -> PipelineView {
        PipelineView {
            target: self.target,
            scope: self.scope,
            install_dir: self.install_dir@,
            password: self.password@,
            temp_dir: self.temp_dir@,
            binary_url: self.binary_url@,
            sha256: optional_text(self.sha256),
            sig_url: optional_text(self.sig_url),
            archive: self.archive@,
            stale: texts(self.stale@),
            volumes: texts(self.volumes@),
            last_error: self.last_error@,
            mount_point: self.mount_point@,
            source: self.source@,
            dest: self.dest@,
            phase: self.phase,
        }
    }
}

/// The state of an install that has not started yet.
pub open spec fn fresh(
    target: Target,
    scope: InstallScope,
    install_dir: Seq<char>,
    password: Seq<char>,
    temp_root: Seq<char>,
) -> PipelineView {
    PipelineView {
        target,
        scope,
        install_dir,
        password,
        temp_dir: joined(target.os, temp_root, "tor-browser-builder"@),
        binary_url: Seq::<char>::empty(),
        sha256: None,
        sig_url: None,
        archive: Seq::<char>::empty(),
        stale: Seq::<Seq<char>>::empty(),
        volumes: Seq::<Seq<char>>::empty(),
        last_error: Seq::<char>::empty(),
        mount_point: Seq::<char>::empty(),
        source: Seq::<char>::empty(),
        dest: Seq::<char>::empty(),
        phase: Phase::Starting,
    }
}

/// A step of the pipeline: its state behind it, and what it reports and asks
/// for.
#[verifier::ext_equal]
pub struct Move {
    pub now: PipelineView,
    pub step: StepView,
}

/// A list of reports.
pub type Notes = Seq<WorkerEventView>;

/// Nothing to report.
pub open spec fn quiet() -> Notes {
    Seq::<WorkerEventView>::empty()
}

/// The report that shows an install stage.
pub open spec fn stage(text: Seq<char>) -> WorkerEventView {
    WorkerEventView::State(AppStateView::Installing { stage: text })
}

/// The report of a line for the "View commands" panel.
pub open spec fn line(text: Seq<char>) -> WorkerEventView {
    WorkerEventView::Log(text)
}

// ---------------------------------------------------------------------
// What the pipeline does next
// ---------------------------------------------------------------------

/// The step that only goes on to another phase.
pub open spec fn moved(v: PipelineView, phase: Phase, notes: Notes, action: ActionView) -> Move {
    Move { now: PipelineView { phase, ..v }, step: StepView { notes, action } }
}

/// The end.
pub open spec fn finished(v: PipelineView, notes: Notes) -> Move {
    moved(v, Phase::Finished, notes, ActionView::Finish)
}

/// The end, with an error, before a download was completed. A part of one that
/// broke off is left where it is.
pub open spec fn failed(v: PipelineView, message: Seq<char>) -> Move {
    finished(v, quiet().push(WorkerEventView::State(AppStateView::Error(message))))
}

/// The outcome is reported and the archive is removed.
pub open spec fn settled(v: PipelineView, notes: Notes, outcome: AppStateView) -> Move {
    moved(
        v,
        Phase::CleaningUp,
        notes.push(WorkerEventView::State(outcome)),
        ActionView::RemoveFile(v.archive),
    )
}

/// The download failed a check: it is discarded.
pub open spec fn discarded(v: PipelineView, message: Seq<char>) -> Move {
    settled(v, quiet(), AppStateView::Error(message))
}

pub open spec fn installed(v: PipelineView, notes: Notes, path: Seq<char>) -> Move {
    settled(v, notes, AppStateView::Complete { app_path: path })
}

/// What was copied or found stands where it is to stand.
pub open spec fn put_in_place(v: PipelineView) -> Move {
    installed(v, quiet(), v.dest)
}

/// The archive is removed: the install has ended.
pub open spec fn cleaned_up(v: PipelineView) -> Move {
    finished(v, quiet())
}

pub open spec fn install_failed(v: PipelineView, notes: Notes, e: Seq<char>) -> Move {
    settled(v, notes, AppStateView::Error("Install failed: "@ + e))
}

/// A command is shown and run.
pub open spec fn run(v: PipelineView, phase: Phase, notes: Notes, command: CommandView) -> Move {
    moved(
        v,
        phase,
        notes.push(line(shown_command(command))),
        ActionView::Run { command, stdin: None },
    )
}

/// A shell command is shown and run by `sudo`, which reads the password up to
/// the first newline.
pub open spec fn run_as_root(
    v: PipelineView,
    phase: Phase,
    notes: Notes,
    shell_cmd: Seq<char>,
) -> Move {
    moved(
        v,
        phase,
        notes.push(line(shown_sudo(shell_cmd))),
        ActionView::Run { command: sudo_view(shell_cmd), stdin: Some(v.password + "\n"@) },
    )
}

/// What comes of a command run by `sudo`: the report, and the error if it
/// failed.
pub open spec fn root_outcome(r: Result<ExitView, RunFailureView>) -> (Notes, Option<Seq<char>>) {
    match r {
        Err(e) => (
            quiet(),
            Some(
                if e.launched {
                    "sudo did not complete: "@ + e.message
                } else {
                    "failed to launch sudo: "@ + e.message
                },
            ),
        ),
        Ok(exit) => if exit.success {
            (quiet().push(line("  -> ok"@)), None)
        } else {
            (
                quiet().push(line("  -> failed: "@ + trimmed(exit.stderr))),
                Some(sudo_failure_text(exit.stderr, lowercased(exit.stderr))),
            )
        },
    }
}

// --- before the install ---------------------------------------------

/// The worker starts: the scope is shown and the release information fetched.
pub open spec fn started(v: PipelineView) -> Move {
    let shown = if wants_password(v.scope, v.target.os) {
        "Install scope: all users ("@ + v.install_dir + "  -  sudo)"@
    } else {
        "Install scope: current user ("@ + v.install_dir + ")"@
    };
    moved(v, Phase::Fetching, quiet().push(line(shown)), ActionView::FetchRelease)
}

/// Where the archive of a release is put.
pub open spec fn archive_path(v: PipelineView, version: Seq<char>) -> Seq<char> {
    joined(
        v.target.os,
        v.temp_dir,
        "TorBrowser-"@ + version + "."@ + extension_of(v.target.os),
    )
}

/// The release information is there: the person is asked to confirm.
pub open spec fn release_fetched(v: PipelineView, r: Result<ReleaseView, Seq<char>>) -> Move {
    match r {
        Err(e) => failed(v, "Could not fetch release information: "@ + e),
        Ok(release) => moved(
            PipelineView {
                binary_url: release.binary_url,
                sha256: release.sha256,
                sig_url: release.sig_url,
                archive: archive_path(v, release.version),
                ..v
            },
            Phase::Confirming,
            quiet().push(
                WorkerEventView::State(
                    AppStateView::ConfirmInstall {
                        version: release.version,
                        binary_url: release.binary_url,
                        sha256: release.sha256,
                        sig_url: release.sig_url,
                    },
                ),
            ),
            ActionView::AskConfirmation,
        ),
    }
}

/// The person has answered.
pub open spec fn answered(v: PipelineView, a: Answer) -> Move {
    match a {
        Answer::Proceed => moved(
            v,
            Phase::MakingTempDir,
            quiet(),
            ActionView::CreateDir(v.temp_dir),
        ),
        Answer::Cancel => finished(v, quiet()),
        Answer::Closed => failed(v, "Confirmation channel closed unexpectedly"@),
    }
}

pub open spec fn temp_dir_made(v: PipelineView, r: Result<(), IoFailureView>) -> Move {
    match r {
        Err(e) => failed(v, "Could not create temp dir: "@ + e.message),
        Ok(_) => moved(
            v,
            Phase::Downloading,
            quiet().push(
                WorkerEventView::State(AppStateView::Downloading { downloaded: 0, total: 0 }),
            ),
            ActionView::Download { url: v.binary_url, dest: v.archive },
        ),
    }
}

/// The download has ended: its checksum is compared if the release has one.
pub open spec fn downloaded(v: PipelineView, r: Result<(), IoFailureView>) -> Move {
    match r {
        Err(e) => failed(v, "Download failed: "@ + e.message),
        Ok(_) => if v.sha256 is Some {
            moved(
                v,
                Phase::Hashing,
                quiet().push(WorkerEventView::State(AppStateView::Verifying)),
                ActionView::HashFile(v.archive),
            )
        } else {
            to_signature(v)
        },
    }
}

/// The checksum of the download is known.
pub open spec fn hashed(v: PipelineView, r: Result<Seq<char>, Seq<char>>) -> Move {
    let expected = match v.sha256 {
        Some(expected) => expected,
        None => Seq::<char>::empty(),
    };
    match r {
        Err(e) => discarded(v, "Could not verify download: "@ + e),
        Ok(actual) => if same_but_for_ascii_case(actual, expected) {
            to_signature(v)
        } else {
            discarded(
                v,
                "Checksum mismatch  -  expected "@ + expected + ", got "@ + actual
                    + ". The download will not be installed."@,
            )
        },
    }
}

/// The signature is checked if the release has one.
pub open spec fn to_signature(v: PipelineView) -> Move {
    match v.sig_url {
        Some(sig_url) => moved(
            v,
            Phase::CheckingSignature,
            quiet().push(WorkerEventView::State(AppStateView::VerifyingSignature)),
            ActionView::VerifySignature { path: v.archive, sig_url },
        ),
        None => to_install(v),
    }
}

pub open spec fn signature_checked(v: PipelineView, r: Result<(), IoFailureView>) -> Move {
    match r {
        Err(e) => discarded(v, "PGP signature verification failed: "@ + e.message),
        Ok(_) => to_install(v),
    }
}

/// Goes to the install routine of the platform.
pub open spec fn to_install(v: PipelineView) -> Move {
    let notes = quiet().push(stage("Preparing installation..."@));
    match v.target.os {
        Os::MacOs => moved(
            v,
            Phase::ListingStale,
            notes.push(stage("Attaching disk image..."@)),
            ActionView::ListDir("/Volumes"@),
        ),
        Os::Linux => if v.scope == InstallScope::Global {
            run_as_root(
                v,
                Phase::UnpackingAsRoot,
                notes,
                unpack_command_text(v.install_dir, v.archive),
            )
        } else {
            moved(v, Phase::MakingUnpackDir, notes, ActionView::CreateDir(v.install_dir))
        },
        Os::Windows => moved(
            v,
            Phase::MakingInstallerDir,
            notes,
            ActionView::CreateDir(v.install_dir),
        ),
        Os::Other => install_failed(
            v,
            notes,
            "automatic installation is not implemented for this platform"@,
        ),
    }
}

// --- macOS: attaching the disk image --------------------------------

/// `hdiutil` detaching what is mounted at a path.
pub open spec fn detach_command(path: Seq<char>) -> CommandView {
    CommandView { program: "hdiutil"@, args: seq!["detach"@, "-quiet"@, path] }
}

/// `hdiutil` attaching an image. `-plist` is the machine-readable mode; `-quiet`
/// beside it suppresses the output on some versions.
pub open spec fn attach_command(image: Seq<char>) -> CommandView {
    CommandView { program: "hdiutil"@, args: seq!["attach"@, "-plist"@, "-nobrowse"@, image] }
}

/// The volumes left mounted are known.
pub open spec fn stale_listed(v: PipelineView, r: Result<Seq<Seq<char>>, Seq<char>>) -> Move {
    to_detach_stale(
        PipelineView {
            stale: match r {
                Ok(names) => stale_among(names),
                Err(_) => Seq::<Seq<char>>::empty(),
            },
            ..v
        },
    )
}

/// The next volume left mounted is detached; then the image is attached.
pub open spec fn to_detach_stale(v: PipelineView) -> Move {
    if v.stale.len() == 0 {
        to_attempt(v, 1)
    } else {
        run(
            PipelineView { stale: v.stale.skip(1), ..v },
            Phase::DetachingStale,
            quiet(),
            detach_command("/Volumes/"@ + v.stale[0]),
        )
    }
}

/// The image is to be attached for the `n`th time.
pub open spec fn to_attempt(v: PipelineView, n: u8) -> Move {
    if n > 1 {
        moved(
            v,
            Phase::Pausing(n),
            quiet().push(stage("Retrying disk image attach..."@)),
            ActionView::Pause(RETRY_PAUSE_MS),
        )
    } else {
        moved(v, Phase::ListingBefore(n), quiet(), ActionView::ListDir("/Volumes"@))
    }
}

/// The pause before another attempt is over.
pub open spec fn paused(v: PipelineView, n: u8) -> Move {
    moved(v, Phase::ListingBefore(n), quiet(), ActionView::ListDir("/Volumes"@))
}

/// The volumes that are there before the image is attached are known.
pub open spec fn listed_before(
    v: PipelineView,
    n: u8,
    r: Result<Seq<Seq<char>>, Seq<char>>,
) -> Move {
    run(
        PipelineView {
            volumes: match r {
                Ok(names) => names,
                Err(_) => Seq::<Seq<char>>::empty(),
            },
            ..v
        },
        Phase::Attaching(n),
        quiet(),
        attach_command(v.archive),
    )
}

/// `hdiutil attach` has ended.
pub open spec fn attached(v: PipelineView, n: u8, r: Result<ExitView, RunFailureView>) -> Move {
    match r {
        Err(e) => attempt_failed(v, n, "failed to run hdiutil attach: "@ + e.message),
        Ok(exit) => if !exit.success {
            attempt_failed(v, n, "hdiutil attach failed: "@ + trimmed(exit.stderr))
        } else {
            match reported_mount_point(exit.stdout) {
                Some(path) => mounted(v, path),
                None => moved(
                    v,
                    Phase::ListingAfter(n),
                    quiet(),
                    ActionView::ListDir("/Volumes"@),
                ),
            }
        },
    }
}

/// The volumes that are there after the image was attached are known.
pub open spec fn listed_after(
    v: PipelineView,
    n: u8,
    r: Result<Seq<Seq<char>>, Seq<char>>,
) -> Move {
    let after = match r {
        Ok(names) => names,
        Err(_) => Seq::<Seq<char>>::empty(),
    };
    match first_new(v.volumes, after) {
        Some(name) => mounted(v, "/Volumes/"@ + name),
        None => attempt_failed(
            v,
            n,
            "could not determine mount point from hdiutil output"@,
        ),
    }
}

/// The image was not attached: it is tried again, or extracted without
/// mounting it.
pub open spec fn attempt_failed(v: PipelineView, n: u8, e: Seq<char>) -> Move {
    if n < MAX_ATTEMPTS {
        to_attempt(v, (n + 1) as u8)
    } else {
        to_look_for_tool(
            PipelineView { last_error: e + " (after 3 attempts)"@, ..v },
            SevenZip::Zz,
            quiet().push(
                stage("Disk image would not attach  -  extracting without mounting..."@),
            ),
        )
    }
}

/// The image is mounted.
pub open spec fn mounted(v: PipelineView, path: Seq<char>) -> Move {
    moved(
        PipelineView { mount_point: path, ..v },
        Phase::ListingImage,
        quiet().push(stage("Locating application bundle..."@)),
        ActionView::ListDir(path),
    )
}

/// The first name of a list that is that of an app bundle.
pub open spec fn first_bundle(names: Seq<Seq<char>>) -> Option<Seq<char>>
    decreases names.len(),
{
    if names.len() == 0 {
        None
    } else if is_app_name(names[0]) {
        Some(names[0])
    } else {
        first_bundle(names.skip(1))
    }
}

/// What is on the mounted image is known.
pub open spec fn image_listed(v: PipelineView, r: Result<Seq<Seq<char>>, Seq<char>>) -> Move {
    match r {
        Err(e) => install_failed(v, quiet(), e),
        Ok(names) => match first_bundle(names) {
            None => to_detach(
                PipelineView {
                    last_error: "no .app bundle found inside the disk image"@,
                    ..v
                },
                false,
                quiet(),
            ),
            Some(name) => to_copy(
                PipelineView {
                    source: joined(v.target.os, v.mount_point, name),
                    dest: joined(v.target.os, v.install_dir, name),
                    ..v
                },
                Route::Mounted,
            ),
        },
    }
}

/// The image is unmounted.
pub open spec fn to_detach(v: PipelineView, copied: bool, notes: Notes) -> Move {
    run(v, Phase::Detaching(copied), notes, detach_command(v.mount_point))
}

/// The image is unmounted: the install has ended.
pub open spec fn detached(v: PipelineView, copied: bool) -> Move {
    if copied {
        put_in_place(v)
    } else {
        install_failed(v, quiet(), v.last_error)
    }
}

// --- macOS: copying the app bundle ----------------------------------

/// The bundle is copied, with the level of privilege that the scope asks for.
pub open spec fn to_copy(v: PipelineView, route: Route) -> Move {
    let notes = quiet().push(stage("Copying application to install location..."@));
    if v.scope == InstallScope::Global {
        run_as_root(
            v,
            Phase::CopyingAsRoot(route),
            notes,
            bundle_command_text(v.source, v.install_dir, v.dest),
        )
    } else {
        moved(v, Phase::MakingBundleDir(route), notes, ActionView::CreateDir(v.install_dir))
    }
}

pub open spec fn copied_as_root(
    v: PipelineView,
    route: Route,
    r: Result<ExitView, RunFailureView>,
) -> Move {
    let (notes, error) = root_outcome(r);
    match error {
        None => copied(v, route, notes),
        Some(e) => copy_failed(v, route, notes, e),
    }
}

/// A file operation of a plain copy was refused or failed.
pub open spec fn copy_stopped(v: PipelineView, route: Route, e: IoFailureView) -> Move {
    if e.permission_denied {
        to_ask_administrator(v, route)
    } else {
        copy_failed(v, route, quiet(), e.message)
    }
}

pub open spec fn bundle_dir_made(
    v: PipelineView,
    route: Route,
    r: Result<(), IoFailureView>,
) -> Move {
    match r {
        Err(e) => copy_stopped(v, route, e),
        Ok(_) => moved(
            v,
            Phase::LookingForBundle(route),
            quiet(),
            ActionView::CheckPath(v.dest),
        ),
    }
}

/// It is known whether there is a bundle to replace.
pub open spec fn bundle_looked_for(v: PipelineView, route: Route, exists: bool) -> Move {
    if exists {
        moved(v, Phase::RemovingBundle(route), quiet(), ActionView::RemoveDir(v.dest))
    } else {
        to_copy_plainly(v, route)
    }
}

pub open spec fn bundle_removed(
    v: PipelineView,
    route: Route,
    r: Result<(), IoFailureView>,
) -> Move {
    match r {
        Err(e) => copy_stopped(v, route, e),
        Ok(_) => to_copy_plainly(v, route),
    }
}

pub open spec fn to_copy_plainly(v: PipelineView, route: Route) -> Move {
    run(
        v,
        Phase::CopyingBundle(route),
        quiet(),
        CommandView { program: "cp"@, args: seq!["-R"@, v.source, v.install_dir] },
    )
}

pub open spec fn copied_plainly(
    v: PipelineView,
    route: Route,
    r: Result<ExitView, RunFailureView>,
) -> Move {
    match cp_outcome(r) {
        CopyOutcomeView::Copied => copied(v, route, quiet()),
        CopyOutcomeView::PermissionDenied => to_ask_administrator(v, route),
        CopyOutcomeView::Failed(e) => copy_failed(v, route, quiet(), e),
    }
}

/// The bundle is copied behind the standard macOS password/Touch ID prompt.
pub open spec fn to_ask_administrator(v: PipelineView, route: Route) -> Move {
    run(
        v,
        Phase::AskingAdministrator(route),
        quiet().push(
            line(
                "Requesting administrator access via the macOS password/Touch ID prompt..."@,
            ),
        ),
        CommandView {
            program: "osascript"@,
            args: seq![
                "-e"@,
                apple_script_text(
                    bundle_command_text(v.source, v.install_dir, v.dest),
                    v.install_dir,
                ),
            ],
        },
    )
}

pub open spec fn administrator_asked(
    v: PipelineView,
    route: Route,
    r: Result<ExitView, RunFailureView>,
) -> Move {
    match r {
        Err(e) => copy_failed(
            v,
            route,
            quiet(),
            "failed to launch the administrator authorization prompt: "@ + e.message,
        ),
        Ok(exit) => if exit.success {
            copied(v, route, quiet().push(line("  -> ok"@)))
        } else if is_cancelled(exit.stderr, lowercased(exit.stderr)) {
            copy_failed(
                v,
                route,
                quiet().push(line("  -> cancelled by user"@)),
                "installation was cancelled at the administrator password prompt"@,
            )
        } else {
            copy_failed(
                v,
                route,
                quiet().push(line("  -> failed: "@ + trimmed(exit.stderr))),
                "privileged install failed: "@ + trimmed(exit.stderr),
            )
        },
    }
}

/// The bundle is copied.
pub open spec fn copied(v: PipelineView, route: Route, notes: Notes) -> Move {
    match route {
        Route::Mounted => to_detach(v, true, notes.push(stage("Unmounting disk image..."@))),
        Route::Extracted => moved(
            v,
            Phase::RemovingExtract,
            notes,
            ActionView::RemoveDir(extract_dir(v)),
        ),
    }
}

/// The bundle was not copied.
pub open spec fn copy_failed(v: PipelineView, route: Route, notes: Notes, e: Seq<char>) -> Move {
    match route {
        Route::Mounted => to_detach(PipelineView { last_error: e, ..v }, false, notes),
        Route::Extracted => fallback_failed(v, notes, e),
    }
}

// --- macOS: extracting the disk image without mounting it -----------

/// Where a disk image is extracted to.
pub open spec fn extract_dir(v: PipelineView) -> Seq<char> {
    joined(v.target.os, v.temp_dir, "dmg-extract"@)
}

/// The name of a 7-Zip command.
pub open spec fn tool_name(tool: SevenZip) -> Seq<char> {
    match tool {
        SevenZip::Zz => "7zz"@,
        SevenZip::Z => "7z"@,
        SevenZip::Za => "7za"@,
    }
}

/// Neither way of reading the disk image worked.
pub open spec fn fallback_failed(v: PipelineView, notes: Notes, e: Seq<char>) -> Move {
    install_failed(
        v,
        notes,
        "hdiutil attach failed ("@ + v.last_error
            + "), and the mount-free fallback also failed ("@ + e + ")"@,
    )
}

pub open spec fn to_look_for_tool(v: PipelineView, tool: SevenZip, notes: Notes) -> Move {
    run(
        v,
        Phase::LookingForTool(tool),
        notes,
        CommandView { program: "which"@, args: seq![tool_name(tool)] },
    )
}

/// `which` has ended: the tool is there, or the next one is looked for.
pub open spec fn tool_looked_for(
    v: PipelineView,
    tool: SevenZip,
    r: Result<ExitView, RunFailureView>,
) -> Move {
    if r matches Ok(exit) && exit.success {
        moved(v, Phase::ClearingExtract(tool), quiet(), ActionView::RemoveDir(extract_dir(v)))
    } else {
        match tool {
            SevenZip::Zz => to_look_for_tool(v, SevenZip::Z, quiet()),
            SevenZip::Z => to_look_for_tool(v, SevenZip::Za, quiet()),
            SevenZip::Za => fallback_failed(
                v,
                quiet(),
                "no 7-Zip binary (7zz/7z/7za) is installed to extract the disk image without mounting it  -  install one with `brew install sevenzip` (or `brew install p7zip`) and try again"@,
            ),
        }
    }
}

/// A stale extraction was removed, if there was one.
pub open spec fn extract_cleared(v: PipelineView, tool: SevenZip) -> Move {
    moved(v, Phase::MakingExtract(tool), quiet(), ActionView::CreateDir(extract_dir(v)))
}

pub open spec fn extract_made(
    v: PipelineView,
    tool: SevenZip,
    r: Result<(), IoFailureView>,
) -> Move {
    match r {
        Err(e) => fallback_failed(v, quiet(), e.message),
        Ok(_) => run(
            v,
            Phase::Extracting(tool),
            quiet().push(stage("Extracting disk image contents (7-Zip)..."@)),
            CommandView {
                program: tool_name(tool),
                args: seq!["x"@, v.archive, "-o"@ + extract_dir(v), "-y"@],
            },
        ),
    }
}

pub open spec fn extracted(
    v: PipelineView,
    tool: SevenZip,
    r: Result<ExitView, RunFailureView>,
) -> Move {
    match r {
        Err(e) => fallback_failed(
            v,
            quiet(),
            "failed to run "@ + tool_name(tool) + ": "@ + e.message,
        ),
        Ok(exit) => if !exit.success {
            fallback_failed(v, quiet(), tool_name(tool) + " could not extract the disk image"@)
        } else {
            moved(
                v,
                Phase::FindingBundle,
                quiet().push(stage("Locating application bundle..."@)),
                ActionView::FindBundle { root: extract_dir(v) },
            )
        },
    }
}

/// The search for a bundle in the extracted image has ended.
pub open spec fn bundle_found(v: PipelineView, found: Option<Seq<char>>) -> Move {
    match found {
        None => fallback_failed(
            v,
            quiet(),
            "no .app bundle found inside the extracted disk image"@,
        ),
        Some(path) => to_copy(
            PipelineView {
                source: path,
                dest: joined(v.target.os, v.install_dir, last_part(path)),
                ..v
            },
            Route::Extracted,
        ),
    }
}

// --- Linux -----------------------------------------------------------

pub open spec fn unpacked_as_root(v: PipelineView, r: Result<ExitView, RunFailureView>) -> Move {
    let (notes, error) = root_outcome(r);
    match error {
        None => to_find_launcher(v, notes),
        Some(e) => install_failed(v, notes, e),
    }
}

pub open spec fn unpack_dir_made(v: PipelineView, r: Result<(), IoFailureView>) -> Move {
    match r {
        Err(e) => install_failed(v, quiet(), e.message),
        Ok(_) => run(
            v,
            Phase::Unpacking,
            quiet(),
            CommandView {
                program: "tar"@,
                args: seq!["-xJf"@, v.archive, "-C"@, v.install_dir],
            },
        ),
    }
}

pub open spec fn unpacked(v: PipelineView, r: Result<ExitView, RunFailureView>) -> Move {
    match r {
        Err(e) => install_failed(
            v,
            quiet(),
            "failed to run tar (is it installed?): "@ + e.message,
        ),
        Ok(exit) => if exit.success {
            to_find_launcher(v, quiet())
        } else {
            install_failed(v, quiet(), "extracting the .tar.xz archive failed"@)
        },
    }
}

pub open spec fn to_find_launcher(v: PipelineView, notes: Notes) -> Move {
    moved(
        v,
        Phase::FindingLauncher,
        notes,
        ActionView::FindFile { root: v.install_dir, name: "start-tor-browser"@ },
    )
}

/// The search for the launcher has ended: it is made executable, unless `sudo`
/// has done so.
pub open spec fn launcher_found(v: PipelineView, found: Option<Seq<char>>) -> Move {
    match found {
        None => install_failed(
            v,
            quiet(),
            "could not find start-tor-browser inside the extracted archive"@,
        ),
        Some(path) => if v.scope == InstallScope::Global {
            installed(v, quiet(), path)
        } else {
            moved(
                PipelineView { dest: path, ..v },
                Phase::MarkingLauncher,
                quiet(),
                ActionView::MakeExecutable(path),
            )
        },
    }
}

// --- Windows ---------------------------------------------------------

/// The directory is there: the silent installer is run. `/D=` is the last
/// argument and not quoted.
pub open spec fn installer_dir_made(v: PipelineView, r: Result<(), IoFailureView>) -> Move {
    match r {
        Err(e) => install_failed(v, quiet(), e.message),
        Ok(_) => run(
            v,
            Phase::RunningInstaller,
            quiet(),
            CommandView { program: v.archive, args: seq!["/S"@, "/D="@ + v.install_dir] },
        ),
    }
}

pub open spec fn installer_ran(v: PipelineView, r: Result<ExitView, RunFailureView>) -> Move {
    match r {
        Err(e) => install_failed(v, quiet(), "failed to launch the installer: "@ + e.message),
        Ok(exit) => if exit.success {
            moved(
                v,
                Phase::FindingFirefox,
                quiet(),
                ActionView::FindFile { root: v.install_dir, name: "firefox.exe"@ },
            )
        } else {
            install_failed(
                v,
                quiet(),
                "the Tor Browser installer exited with an error (silent-install flags may not be supported by this release - try running the downloaded .exe manually)"@,
            )
        },
    }
}

pub open spec fn firefox_found(v: PipelineView, found: Option<Seq<char>>) -> Move {
    match found {
        Some(path) => installed(v, quiet(), path),
        None => moved(
            v,
            Phase::FindingTorBrowser,
            quiet(),
            ActionView::FindFile { root: v.install_dir, name: "Tor Browser.exe"@ },
        ),
    }
}

pub open spec fn tor_browser_found(v: PipelineView, found: Option<Seq<char>>) -> Move {
    match found {
        Some(path) => installed(v, quiet(), path),
        None => install_failed(
            v,
            quiet(),
            "installer finished but the Tor Browser executable was not found"@,
        ),
    }
}

// ---------------------------------------------------------------------
// Events
// ---------------------------------------------------------------------

/// What a file operation, a download, a signature check or a pause that has
/// ended leads to.
pub open spec fn on_done(v: PipelineView, r: Result<(), IoFailureView>) -> Option<Move> {
    match v.phase {
        Phase::MakingTempDir => Some(temp_dir_made(v, r)),
        Phase::Downloading => Some(downloaded(v, r)),
        Phase::CheckingSignature => Some(signature_checked(v, r)),
        Phase::Pausing(n) => Some(paused(v, n)),
        Phase::MakingBundleDir(route) => Some(bundle_dir_made(v, route, r)),
        Phase::RemovingBundle(route) => Some(bundle_removed(v, route, r)),
        Phase::ClearingExtract(tool) => Some(extract_cleared(v, tool)),
        Phase::MakingExtract(tool) => Some(extract_made(v, tool, r)),
        Phase::RemovingExtract => Some(put_in_place(v)),
        Phase::MakingUnpackDir => Some(unpack_dir_made(v, r)),
        Phase::MarkingLauncher => Some(put_in_place(v)),
        Phase::MakingInstallerDir => Some(installer_dir_made(v, r)),
        Phase::CleaningUp => Some(cleaned_up(v)),
        _ => None,
    }
}

/// What a command that has ended leads to.
pub open spec fn on_ran(v: PipelineView, r: Result<ExitView, RunFailureView>) -> Option<Move> {
    match v.phase {
        Phase::DetachingStale => Some(to_detach_stale(v)),
        Phase::Attaching(n) => Some(attached(v, n, r)),
        Phase::CopyingAsRoot(route) => Some(copied_as_root(v, route, r)),
        Phase::CopyingBundle(route) => Some(copied_plainly(v, route, r)),
        Phase::AskingAdministrator(route) => Some(administrator_asked(v, route, r)),
        Phase::Detaching(copied) => Some(detached(v, copied)),
        Phase::LookingForTool(tool) => Some(tool_looked_for(v, tool, r)),
        Phase::Extracting(tool) => Some(extracted(v, tool, r)),
        Phase::UnpackingAsRoot => Some(unpacked_as_root(v, r)),
        Phase::Unpacking => Some(unpacked(v, r)),
        Phase::RunningInstaller => Some(installer_ran(v, r)),
        _ => None,
    }
}

/// What a directory that was listed leads to.
pub open spec fn on_listed(v: PipelineView, r: Result<Seq<Seq<char>>, Seq<char>>) -> Option<
    Move,
> {
    match v.phase {
        Phase::ListingStale => Some(stale_listed(v, r)),
        Phase::ListingBefore(n) => Some(listed_before(v, n, r)),
        Phase::ListingAfter(n) => Some(listed_after(v, n, r)),
        Phase::ListingImage => Some(image_listed(v, r)),
        _ => None,
    }
}

/// What a search that has ended leads to.
pub open spec fn on_found(v: PipelineView, found: Option<Seq<char>>) -> Option<Move> {
    match v.phase {
        Phase::FindingBundle => Some(bundle_found(v, found)),
        Phase::FindingLauncher => Some(launcher_found(v, found)),
        Phase::FindingFirefox => Some(firefox_found(v, found)),
        Phase::FindingTorBrowser => Some(tor_browser_found(v, found)),
        _ => None,
    }
}

/// What an event leads to, if it is one that the pipeline is waiting for.
pub open spec fn next_move(v: PipelineView, e: EventView) -> Option<Move> {
    match e {
        EventView::Started => if v.phase == Phase::Starting {
            Some(started(v))
        } else {
            None
        },
        EventView::Release(r) => if v.phase == Phase::Fetching {
            Some(release_fetched(v, r))
        } else {
            None
        },
        EventView::Answered(a) => if v.phase == Phase::Confirming {
            Some(answered(v, a))
        } else {
            None
        },
        EventView::Digest(r) => if v.phase == Phase::Hashing {
            Some(hashed(v, r))
        } else {
            None
        },
        EventView::PathExists(b) => match v.phase {
            Phase::LookingForBundle(route) => Some(bundle_looked_for(v, route, b)),
            _ => None,
        },
        EventView::Done(r) => on_done(v, r),
        EventView::Ran(r) => on_ran(v, r),
        EventView::Listed(r) => on_listed(v, r),
        EventView::Found(found) => on_found(v, found),
    }
}

// ---------------------------------------------------------------------
// The worker's side
// ---------------------------------------------------------------------

fn no_notes() -> (r: Vec<WorkerEvent>)
    ensures
        event_views(r@) == quiet(),
{
    let r: Vec<WorkerEvent> = Vec::new();
    assert(event_views(r@) =~= quiet());
    r
}

/// `notes` with one more report.
fn noted(notes: Vec<WorkerEvent>, note: WorkerEvent) -> (r: Vec<WorkerEvent>)
    ensures
        event_views(r@) == event_views(notes@).push(note@),
{
    let mut r = notes;
    r.push(note);
    assert(event_views(r@) =~= event_views(notes@).push(note@));
    r
}

/// `notes` with one more install stage.
fn staged(notes: Vec<WorkerEvent>, text: &str) -> (r: Vec<WorkerEvent>)
    ensures
        event_views(r@) == event_views(notes@).push(stage(text@)),
{
    noted(notes, WorkerEvent::State(AppState::Installing { stage: owned(text) }))
}

/// An unreadable directory just yields an empty list rather than an error.
fn names_or_none(result: Result<Vec<String>, String>) -> (r: Vec<String>)
    ensures
        texts(r@) == (match listing_result(result) {
            Ok(names) => names,
            Err(_) => Seq::<Seq<char>>::empty(),
        }),
{
    match result {
        Ok(names) => names,
        Err(_) => {
            let r: Vec<String> = Vec::new();
            assert(texts(r@) =~= Seq::<Seq<char>>::empty());
            r
        },
    }
}

/// The first name of a list that is that of an app bundle.
fn bundle_among(names: &Vec<String>) -> (r: Option<String>)
    ensures
        optional_text(r) == first_bundle(texts(names@)),
{
    let mut i: usize = 0;
    assert(texts(names@).skip(0) =~= texts(names@));
    while i < names.len()
        invariant
            i <= names@.len(),
            first_bundle(texts(names@)) == first_bundle(texts(names@).skip(i as int)),
        decreases names@.len() - i,
    {
        assert(texts(names@).skip(i as int)[0] == names@[i as int]@);
        assert(texts(names@).skip(i as int).skip(1) =~= texts(names@).skip(i + 1));
        if has_app_extension(names[i].as_str()) {
            return Some(owned(names[i].as_str()));
        }
        i = i + 1;
    }
    None
}

fn tool_called(tool: SevenZip) -> (r: &'static str)
    ensures
        r@ == tool_name(tool),
{
    match tool {
        SevenZip::Zz => "7zz",
        SevenZip::Z => "7z",
        SevenZip::Za => "7za",
    }
}

/// What comes of a command run by `sudo`.
fn outcome_of_root(result: Result<Exit, RunFailure>) -> (r: (Vec<WorkerEvent>, Option<String>))
    ensures
        (event_views(r.0@), optional_text(r.1)) == root_outcome(run_result(result)),
{
    match result {
        Err(e) => {
            let message = if e.launched {
                cat2("sudo did not complete: ", e.message.as_str())
            } else {
                cat2("failed to launch sudo: ", e.message.as_str())
            };
            (no_notes(), Some(message))
        },
        Ok(exit) => {
            if exit.success {
                (noted(no_notes(), WorkerEvent::Log(owned("  -> ok"))), None)
            } else {
                let shown = trim(exit.stderr.as_str());
                let failure = cat2("  -> failed: ", shown.as_str());
                let notes = noted(no_notes(), WorkerEvent::Log(failure));
                (notes, Some(sudo_failure(exit.stderr.as_str())))
            }
        },
    }
}

impl InstallPipeline {
    /// An install that has not started yet. `temp_root` is the system's
    /// directory for temporary files.
    pub fn new(
        target: Target,
        scope: InstallScope,
        install_dir: String,
        password: String,
        temp_root: &str,
    ) -> (r: InstallPipeline)
        ensures
            r@ == fresh(target, scope, install_dir@, password@, temp_root@),
    {
        let r = InstallPipeline {
            target,
            scope,
            install_dir,
            password,
            temp_dir: join_path(target.os, temp_root, "tor-browser-builder"),
            binary_url: String::new(),
            sha256: None,
            sig_url: None,
            archive: String::new(),
            stale: Vec::new(),
            volumes: Vec::new(),
            last_error: String::new(),
            mount_point: String::new(),
            source: String::new(),
            dest: String::new(),
            phase: Phase::Starting,
        };
        assert(r@ =~= fresh(target, scope, install_dir@, password@, temp_root@));
        r
    }

    /// What the pipeline is waiting for.
    pub fn phase(&self) -> (r: Phase)
        ensures
            r == self@.phase,
    {
        self.phase
    }

    /// Takes what came of the last action, and says what to report and what to
    /// do next. An event that the pipeline is not waiting for changes nothing.
    #[verifier::spinoff_prover]
    pub fn resume(&mut self, event: Event) -> (r: Option<Step>)
        ensures
            match next_move(old(self)@, event@) {
                Some(m) => r matches Some(step) && (Move { now: final(self)@, step: step@ }) == m,
                None => r is None && *final(self) == *old(self),
            },
    {
        match event {
            Event::Started => if self.phase == Phase::Starting {
                Some(self.started())
            } else {
                None
            },
            Event::Release(result) => if self.phase == Phase::Fetching {
                Some(self.release_fetched(result))
            } else {
                None
            },
            Event::Answered(a) => if self.phase == Phase::Confirming {
                Some(self.answered(a))
            } else {
                None
            },
            Event::Digest(result) => if self.phase == Phase::Hashing {
                Some(self.hashed(result))
            } else {
                None
            },
            Event::PathExists(exists) => match self.phase {
                Phase::LookingForBundle(route) => Some(self.bundle_looked_for(route, exists)),
                _ => None,
            },
            Event::Done(result) => self.done(result),
            Event::Ran(result) => self.ran(result),
            Event::Listed(result) => self.listed(result),
            Event::Found(found) => self.found(found),
        }
    }

    fn done(&mut self, result: Result<(), IoFailure>) -> (r: Option<Step>)
        ensures
            match on_done(old(self)@, io_result(result)) {
                Some(m) => r matches Some(step) && (Move { now: final(self)@, step: step@ }) == m,
                None => r is None && *final(self) == *old(self),
            },
    {
        match self.phase {
            Phase::MakingTempDir => Some(self.temp_dir_made(result)),
            Phase::Downloading => Some(self.downloaded(result)),
            Phase::CheckingSignature => Some(self.signature_checked(result)),
            Phase::Pausing(n) => Some(self.paused(n)),
            Phase::MakingBundleDir(route) => Some(self.bundle_dir_made(route, result)),
            Phase::RemovingBundle(route) => Some(self.bundle_removed(route, result)),
            Phase::ClearingExtract(tool) => Some(self.extract_cleared(tool)),
            Phase::MakingExtract(tool) => Some(self.extract_made(tool, result)),
            Phase::RemovingExtract => Some(self.put_in_place()),
            Phase::MakingUnpackDir => Some(self.unpack_dir_made(result)),
            Phase::MarkingLauncher => Some(self.put_in_place()),
            Phase::MakingInstallerDir => Some(self.installer_dir_made(result)),
            Phase::CleaningUp => Some(self.cleaned_up()),
            _ => None,
        }
    }

    fn ran(&mut self, result: Result<Exit, RunFailure>) -> (r: Option<Step>)
        ensures
            match on_ran(old(self)@, run_result(result)) {
                Some(m) => r matches Some(step) && (Move { now: final(self)@, step: step@ }) == m,
                None => r is None && *final(self) == *old(self),
            },
    {
        match self.phase {
            Phase::DetachingStale => Some(self.to_detach_stale()),
            Phase::Attaching(n) => Some(self.attached(n, result)),
            Phase::CopyingAsRoot(route) => Some(self.copied_as_root(route, result)),
            Phase::CopyingBundle(route) => Some(self.copied_plainly(route, result)),
            Phase::AskingAdministrator(route) => Some(self.administrator_asked(route, result)),
            Phase::Detaching(copied) => Some(self.detached(copied)),
            Phase::LookingForTool(tool) => Some(self.tool_looked_for(tool, result)),
            Phase::Extracting(tool) => Some(self.extracted(tool, result)),
            Phase::UnpackingAsRoot => Some(self.unpacked_as_root(result)),
            Phase::Unpacking => Some(self.unpacked(result)),
            Phase::RunningInstaller => Some(self.installer_ran(result)),
            _ => None,
        }
    }

    fn listed(&mut self, result: Result<Vec<String>, String>) -> (r: Option<Step>)
        ensures
            match on_listed(old(self)@, listing_result(result)) {
                Some(m) => r matches Some(step) && (Move { now: final(self)@, step: step@ }) == m,
                None => r is None && *final(self) == *old(self),
            },
    {
        match self.phase {
            Phase::ListingStale => Some(self.stale_listed(result)),
            Phase::ListingBefore(n) => Some(self.listed_before(n, result)),
            Phase::ListingAfter(n) => Some(self.listed_after(n, result)),
            Phase::ListingImage => Some(self.image_listed(result)),
            _ => None,
        }
    }

    fn found(&mut self, found: Option<String>) -> (r: Option<Step>)
        ensures
            match on_found(old(self)@, optional_text(found)) {
                Some(m) => r matches Some(step) && (Move { now: final(self)@, step: step@ }) == m,
                None => r is None && *final(self) == *old(self),
            },
    {
        match self.phase {
            Phase::FindingBundle => Some(self.bundle_found(found)),
            Phase::FindingLauncher => Some(self.launcher_found(found)),
            Phase::FindingFirefox => Some(self.firefox_found(found)),
            Phase::FindingTorBrowser => Some(self.tor_browser_found(found)),
            _ => None,
        }
    }

    fn bundle_command(&self) -> (r: String)
        ensures
            r@ == bundle_command_text(self@.source, self@.install_dir, self@.dest),
    {
        bundle_shell_command(
            self.source.as_str(),
            self.install_dir.as_str(),
            self.dest.as_str(),
        )
    }

    fn extract_dir(&self) -> (r: String)
        ensures
            r@ == extract_dir(self@),
    {
        join_path(self.target.os, self.temp_dir.as_str(), "dmg-extract")
    }

    fn moved(&mut self, phase: Phase, notes: Vec<WorkerEvent>, action: Action) -> (r: Step)
        ensures
            (Move { now: final(self)@, step: r@ }) == moved(
                old(self)@,
                phase,
                event_views(notes@),
                action@,
            ),
    {
        self.phase = phase;
        Step { notes, action }
    }

    fn finished(&mut self, notes: Vec<WorkerEvent>) -> (r: Step)
        ensures
            (Move { now: final(self)@, step: r@ }) == finished(old(self)@, event_views(notes@)),
    {
        self.moved(Phase::Finished, notes, Action::Finish)
    }

    fn failed(&mut self, message: String) -> (r: Step)
        ensures
            (Move { now: final(self)@, step: r@ }) == failed(old(self)@, message@),
    {
        let notes = noted(no_notes(), WorkerEvent::State(AppState::Error(message)));
        self.finished(notes)
    }

    fn settled(&mut self, notes: Vec<WorkerEvent>, outcome: AppState) -> (r: Step)
        ensures
            (Move { now: final(self)@, step: r@ }) == settled(
                old(self)@,
                event_views(notes@),
                outcome@,
            ),
    {
        let archive = owned(self.archive.as_str());
        let told = noted(notes, WorkerEvent::State(outcome));
        self.moved(Phase::CleaningUp, told, Action::RemoveFile(archive))
    }

    fn discarded(&mut self, message: String) -> (r: Step)
        ensures
            (Move { now: final(self)@, step: r@ }) == discarded(old(self)@, message@),
    {
        self.settled(no_notes(), AppState::Error(message))
    }

    fn installed(&mut self, notes: Vec<WorkerEvent>, path: String) -> (r: Step)
        ensures
            (Move { now: final(self)@, step: r@ }) == installed(
                old(self)@,
                event_views(notes@),
                path@,
            ),
    {
        self.settled(notes, AppState::Complete { app_path: path })
    }

    fn put_in_place(&mut self) -> (r: Step)
        ensures
            (Move { now: final(self)@, step: r@ }) == put_in_place(old(self)@),
    {
        let path = owned(self.dest.as_str());
        self.installed(no_notes(), path)
    }

    fn cleaned_up(&mut self) -> (r: Step)
        ensures
            (Move { now: final(self)@, step: r@ }) == cleaned_up(old(self)@),
    {
        self.finished(no_notes())
    }

    fn install_failed(&mut self, notes: Vec<WorkerEvent>, e: &str) -> (r: Step)
        ensures
            (Move { now: final(self)@, step: r@ }) == install_failed(
                old(self)@,
                event_views(notes@),
                e@,
            ),
    {
        self.settled(notes, AppState::Error(cat2("Install failed: ", e)))
    }

    fn run(&mut self, phase: Phase, notes: Vec<WorkerEvent>, command: SystemCommand) -> (r: Step)
        ensures
            (Move { now: final(self)@, step: r@ }) == run(
                old(self)@,
                phase,
                event_views(notes@),
                command@,
            ),
    {
        let told = noted(notes, WorkerEvent::Log(command_line(&command)));
        self.moved(phase, told, Action::Run { command, stdin: None })
    }

    /// Runs `shell_cmd` with `sudo -s`, feeding the password on `sudo`'s stdin. The
    /// command itself (never the password) goes to the "View commands" panel.
    fn run_as_root(&mut self, phase: Phase, notes: Vec<WorkerEvent>, shell_cmd: &str) -> (r: Step)
        ensures
            (Move { now: final(self)@, step: r@ }) == run_as_root(
                old(self)@,
                phase,
                event_views(notes@),
                shell_cmd@,
            ),
    {
        let told = noted(notes, WorkerEvent::Log(sudo_line(shell_cmd)));
        let stdin = Some(cat2(self.password.as_str(), "\n"));
        let command = sudo_command(shell_cmd);
        self.moved(phase, told, Action::Run { command, stdin })
    }

    fn started(&mut self) -> (r: Step)
        ensures
            (Move { now: final(self)@, step: r@ }) == started(old(self)@),
    {
        let shown = if self.scope.needs_password(self.target.os) {
            cat3("Install scope: all users (", self.install_dir.as_str(), "  -  sudo)")
        } else {
            cat3("Install scope: current user (", self.install_dir.as_str(), ")")
        };
        let notes = noted(no_notes(), WorkerEvent::Log(shown));
        self.moved(Phase::Fetching, notes, Action::FetchRelease)
    }

    fn release_fetched(&mut self, result: Result<ReleaseInfo, String>) -> (r: Step)
        ensures
            (Move { now: final(self)@, step: r@ }) == release_fetched(
                old(self)@,
                release_result(result),
            ),
    {
        match result {
            Err(e) => self.failed(cat2("Could not fetch release information: ", e.as_str())),
            Ok(release) => {
                let name = cat4(
                    "TorBrowser-",
                    release.version.as_str(),
                    ".",
                    archive_extension(self.target),
                );
                self.archive = join_path(self.target.os, self.temp_dir.as_str(), name.as_str());
                self.binary_url = release.binary_url.clone();
                self.sha256 = copy_of(&release.sha256);
                self.sig_url = copy_of(&release.sig_url);
                let question = AppState::ConfirmInstall {
                    version: release.version,
                    binary_url: release.binary_url,
                    sha256: release.sha256,
                    sig_url: release.sig_url,
                };
                let notes = noted(no_notes(), WorkerEvent::State(question));
                self.moved(Phase::Confirming, notes, Action::AskConfirmation)
            },
        }
    }

    fn answered(&mut self, a: Answer) -> (r: Step)
        ensures
            (Move { now: final(self)@, step: r@ }) == answered(old(self)@, a),
    {
        match a {
            Answer::Proceed => {
                let dir = owned(self.temp_dir.as_str());
                self.moved(Phase::MakingTempDir, no_notes(), Action::CreateDir(dir))
            },
            Answer::Cancel => self.finished(no_notes()),
            Answer::Closed => self.failed(owned("Confirmation channel closed unexpectedly")),
        }
    }

    fn temp_dir_made(&mut self, result: Result<(), IoFailure>) -> (r: Step)
        ensures
            (Move { now: final(self)@, step: r@ }) == temp_dir_made(old(self)@, io_result(result)),
    {
        match result {
            Err(e) => self.failed(cat2("Could not create temp dir: ", e.message.as_str())),
            Ok(_) => {
                let url = owned(self.binary_url.as_str());
                let dest = owned(self.archive.as_str());
                let shown = AppState::Downloading { downloaded: 0, total: 0 };
                let notes = noted(no_notes(), WorkerEvent::State(shown));
                self.moved(Phase::Downloading, notes, Action::Download { url, dest })
            },
        }
    }

    fn downloaded(&mut self, result: Result<(), IoFailure>) -> (r: Step)
        ensures
            (Move { now: final(self)@, step: r@ }) == downloaded(old(self)@, io_result(result)),
    {
        match result {
            Err(e) => self.failed(cat2("Download failed: ", e.message.as_str())),
            Ok(_) => {
                if self.sha256.is_some() {
                    let archive = owned(self.archive.as_str());
                    let notes = noted(no_notes(), WorkerEvent::State(AppState::Verifying));
                    self.moved(Phase::Hashing, notes, Action::HashFile(archive))
                } else {
                    self.to_signature()
                }
            },
        }
    }

    fn hashed(&mut self, result: Result<String, String>) -> (r: Step)
        ensures
            (Move { now: final(self)@, step: r@ }) == hashed(old(self)@, text_result(result)),
    {
        let expected = match &self.sha256 {
            Some(expected) => owned(expected.as_str()),
            None => {
                proof {
                    reveal_strlit("");
                }
                owned("")
            },
        };
        assert(expected@ =~= match self@.sha256 {
            Some(expected) => expected,
            None => Seq::<char>::empty(),
        });
        match result {
            Err(e) => self.discarded(cat2("Could not verify download: ", e.as_str())),
            Ok(actual) => {
                if checksum_matches(actual.as_str(), expected.as_str()) {
                    self.to_signature()
                } else {
                    let message = cat5(
                        "Checksum mismatch  -  expected ",
                        expected.as_str(),
                        ", got ",
                        actual.as_str(),
                        ". The download will not be installed.",
                    );
                    self.discarded(message)
                }
            },
        }
    }

    fn to_signature(&mut self) -> (r: Step)
        ensures
            (Move { now: final(self)@, step: r@ }) == to_signature(old(self)@),
    {
        match copy_of(&self.sig_url) {
            Some(sig_url) => {
                let path = owned(self.archive.as_str());
                let notes = noted(no_notes(), WorkerEvent::State(AppState::VerifyingSignature));
                self.moved(
                    Phase::CheckingSignature,
                    notes,
                    Action::VerifySignature { path, sig_url },
                )
            },
            None => self.to_install(),
        }
    }

    fn signature_checked(&mut self, result: Result<(), IoFailure>) -> (r: Step)
        ensures
            (Move { now: final(self)@, step: r@ }) == signature_checked(
                old(self)@,
                io_result(result),
            ),
    {
        match result {
            Err(e) => {
                self.discarded(cat2("PGP signature verification failed: ", e.message.as_str()))
            },
            Ok(_) => self.to_install(),
        }
    }

    fn to_install(&mut self) -> (r: Step)
        ensures
            (Move { now: final(self)@, step: r@ }) == to_install(old(self)@),
    {
        let notes = staged(no_notes(), "Preparing installation...");
        match self.target.os {
            Os::MacOs => {
                let told = staged(notes, "Attaching disk image...");
                self.moved(Phase::ListingStale, told, Action::ListDir(owned("/Volumes")))
            },
            Os::Linux => {
                if self.scope == InstallScope::Global {
                    let shell_cmd = unpack_shell_command(
                        self.install_dir.as_str(),
                        self.archive.as_str(),
                    );
                    self.run_as_root(Phase::UnpackingAsRoot, notes, shell_cmd.as_str())
                } else {
                    let dir = owned(self.install_dir.as_str());
                    self.moved(Phase::MakingUnpackDir, notes, Action::CreateDir(dir))
                }
            },
            Os::Windows => {
                let dir = owned(self.install_dir.as_str());
                self.moved(Phase::MakingInstallerDir, notes, Action::CreateDir(dir))
            },
            Os::Other => {
                self.install_failed(
                    notes,
                    "automatic installation is not implemented for this platform",
                )
            },
        }
    }

    fn stale_listed(&mut self, result: Result<Vec<String>, String>) -> (r: Step)
        ensures
            (Move { now: final(self)@, step: r@ }) == stale_listed(
                old(self)@,
                listing_result(result),
            ),
    {
        self.stale = match result {
            Ok(names) => stale_volumes(&names),
            Err(_) => Vec::new(),
        };
        assert(self@.stale =~= match listing_result(result) {
            Ok(names) => stale_among(names),
            Err(_) => Seq::<Seq<char>>::empty(),
        });
        self.to_detach_stale()
    }

    fn to_detach_stale(&mut self) -> (r: Step)
        ensures
            (Move { now: final(self)@, step: r@ }) == to_detach_stale(old(self)@),
    {
        if self.stale.len() == 0 {
            self.to_attempt(1)
        } else {
            let ghost before = self.stale@;
            let name = self.stale.remove(0);
            assert(texts(self.stale@) =~= texts(before).skip(1));
            let path = cat2("/Volumes/", name.as_str());
            let command = command3("hdiutil", "detach", "-quiet", path.as_str());
            self.run(Phase::DetachingStale, no_notes(), command)
        }
    }

    fn to_attempt(&mut self, n: u8) -> (r: Step)
        ensures
            (Move { now: final(self)@, step: r@ }) == to_attempt(old(self)@, n),
    {
        if n > 1 {
            let notes = staged(no_notes(), "Retrying disk image attach...");
            self.moved(Phase::Pausing(n), notes, Action::Pause(RETRY_PAUSE_MS))
        } else {
            self.moved(Phase::ListingBefore(n), no_notes(), Action::ListDir(owned("/Volumes")))
        }
    }

    fn paused(&mut self, n: u8) -> (r: Step)
        ensures
            (Move { now: final(self)@, step: r@ }) == paused(old(self)@, n),
    {
        self.moved(Phase::ListingBefore(n), no_notes(), Action::ListDir(owned("/Volumes")))
    }

    fn listed_before(&mut self, n: u8, result: Result<Vec<String>, String>) -> (r: Step)
        ensures
            (Move { now: final(self)@, step: r@ }) == listed_before(
                old(self)@,
                n,
                listing_result(result),
            ),
    {
        self.volumes = names_or_none(result);
        let command = command4(
            "hdiutil",
            "attach",
            "-plist",
            "-nobrowse",
            self.archive.as_str(),
        );
        self.run(Phase::Attaching(n), no_notes(), command)
    }

    fn attached(&mut self, n: u8, result: Result<Exit, RunFailure>) -> (r: Step)
        ensures
            (Move { now: final(self)@, step: r@ }) == attached(old(self)@, n, run_result(result)),
    {
        match result {
            Err(e) => {
                self.attempt_failed(n, cat2("failed to run hdiutil attach: ", e.message.as_str()))
            },
            Ok(exit) => {
                if !exit.success {
                    let shown = trim(exit.stderr.as_str());
                    self.attempt_failed(n, cat2("hdiutil attach failed: ", shown.as_str()))
                } else {
                    match mount_point_from_output(exit.stdout.as_str()) {
                        Some(path) => self.mounted(path),
                        None => self.moved(
                            Phase::ListingAfter(n),
                            no_notes(),
                            Action::ListDir(owned("/Volumes")),
                        ),
                    }
                }
            },
        }
    }

    fn listed_after(&mut self, n: u8, result: Result<Vec<String>, String>) -> (r: Step)
        ensures
            (Move { now: final(self)@, step: r@ }) == listed_after(
                old(self)@,
                n,
                listing_result(result),
            ),
    {
        let after = names_or_none(result);
        match new_volume(&self.volumes, &after) {
            Some(path) => self.mounted(path),
            None => self.attempt_failed(
                n,
                owned("could not determine mount point from hdiutil output"),
            ),
        }
    }

    fn attempt_failed(&mut self, n: u8, e: String) -> (r: Step)
        ensures
            (Move { now: final(self)@, step: r@ }) == attempt_failed(old(self)@, n, e@),
    {
        if n < MAX_ATTEMPTS {
            self.to_attempt(n + 1)
        } else {
            self.last_error = cat2(e.as_str(), " (after 3 attempts)");
            let notes = staged(
                no_notes(),
                "Disk image would not attach  -  extracting without mounting...",
            );
            self.to_look_for_tool(SevenZip::Zz, notes)
        }
    }

    fn mounted(&mut self, path: String) -> (r: Step)
        ensures
            (Move { now: final(self)@, step: r@ }) == mounted(old(self)@, path@),
    {
        let dir = owned(path.as_str());
        self.mount_point = path;
        let notes = staged(no_notes(), "Locating application bundle...");
        self.moved(Phase::ListingImage, notes, Action::ListDir(dir))
    }

    fn image_listed(&mut self, result: Result<Vec<String>, String>) -> (r: Step)
        ensures
            (Move { now: final(self)@, step: r@ }) == image_listed(
                old(self)@,
                listing_result(result),
            ),
    {
        match result {
            Err(e) => self.install_failed(no_notes(), e.as_str()),
            Ok(names) => {
                match bundle_among(&names) {
                    None => {
                        self.last_error = owned("no .app bundle found inside the disk image");
                        self.to_detach(false, no_notes())
                    },
                    Some(name) => {
                        let os = self.target.os;
                        self.source = join_path(os, self.mount_point.as_str(), name.as_str());
                        self.dest = join_path(os, self.install_dir.as_str(), name.as_str());
                        self.to_copy(Route::Mounted)
                    },
                }
            },
        }
    }

    fn to_detach(&mut self, copied: bool, notes: Vec<WorkerEvent>) -> (r: Step)
        ensures
            (Move { now: final(self)@, step: r@ }) == to_detach(
                old(self)@,
                copied,
                event_views(notes@),
            ),
    {
        let command = command3("hdiutil", "detach", "-quiet", self.mount_point.as_str());
        self.run(Phase::Detaching(copied), notes, command)
    }

    fn detached(&mut self, copied: bool) -> (r: Step)
        ensures
            (Move { now: final(self)@, step: r@ }) == detached(old(self)@, copied),
    {
        if copied {
            self.put_in_place()
        } else {
            let e = owned(self.last_error.as_str());
            self.install_failed(no_notes(), e.as_str())
        }
    }

    fn to_copy(&mut self, route: Route) -> (r: Step)
        ensures
            (Move { now: final(self)@, step: r@ }) == to_copy(old(self)@, route),
    {
        let notes = staged(no_notes(), "Copying application to install location...");
        if self.scope == InstallScope::Global {
            let shell_cmd = self.bundle_command();
            self.run_as_root(Phase::CopyingAsRoot(route), notes, shell_cmd.as_str())
        } else {
            let dir = owned(self.install_dir.as_str());
            self.moved(Phase::MakingBundleDir(route), notes, Action::CreateDir(dir))
        }
    }

    fn copied_as_root(&mut self, route: Route, result: Result<Exit, RunFailure>) -> (r: Step)
        ensures
            (Move { now: final(self)@, step: r@ }) == copied_as_root(
                old(self)@,
                route,
                run_result(result),
            ),
    {
        let (notes, error) = outcome_of_root(result);
        match error {
            None => self.copied(route, notes),
            Some(e) => self.copy_failed(route, notes, e),
        }
    }

    fn copy_stopped(&mut self, route: Route, e: IoFailure) -> (r: Step)
        ensures
            (Move { now: final(self)@, step: r@ }) == copy_stopped(old(self)@, route, e@),
    {
        if e.permission_denied {
            self.to_ask_administrator(route)
        } else {
            self.copy_failed(route, no_notes(), e.message)
        }
    }

    fn bundle_dir_made(&mut self, route: Route, result: Result<(), IoFailure>) -> (r: Step)
        ensures
            (Move { now: final(self)@, step: r@ }) == bundle_dir_made(
                old(self)@,
                route,
                io_result(result),
            ),
    {
        match result {
            Err(e) => self.copy_stopped(route, e),
            Ok(_) => {
                let dest = owned(self.dest.as_str());
                self.moved(Phase::LookingForBundle(route), no_notes(), Action::CheckPath(dest))
            },
        }
    }

    fn bundle_looked_for(&mut self, route: Route, exists: bool) -> (r: Step)
        ensures
            (Move { now: final(self)@, step: r@ }) == bundle_looked_for(old(self)@, route, exists),
    {
        if exists {
            let dest = owned(self.dest.as_str());
            self.moved(Phase::RemovingBundle(route), no_notes(), Action::RemoveDir(dest))
        } else {
            self.to_copy_plainly(route)
        }
    }

    fn bundle_removed(&mut self, route: Route, result: Result<(), IoFailure>) -> (r: Step)
        ensures
            (Move { now: final(self)@, step: r@ }) == bundle_removed(
                old(self)@,
                route,
                io_result(result),
            ),
    {
        match result {
            Err(e) => self.copy_stopped(route, e),
            Ok(_) => self.to_copy_plainly(route),
        }
    }

    /// Copies the bundle as a plain (non-privileged) operation, i.e. exactly what
    /// Finder does when you drag an app out of a mounted disk image onto a folder
    /// you already own.
    fn to_copy_plainly(&mut self, route: Route) -> (r: Step)
        ensures
            (Move { now: final(self)@, step: r@ }) == to_copy_plainly(old(self)@, route),
    {
        let command = command3("cp", "-R", self.source.as_str(), self.install_dir.as_str());
        self.run(Phase::CopyingBundle(route), no_notes(), command)
    }

    fn copied_plainly(&mut self, route: Route, result: Result<Exit, RunFailure>) -> (r: Step)
        ensures
            (Move { now: final(self)@, step: r@ }) == copied_plainly(
                old(self)@,
                route,
                run_result(result),
            ),
    {
        match copy_outcome(result) {
            CopyOutcome::Copied => self.copied(route, no_notes()),
            CopyOutcome::PermissionDenied => self.to_ask_administrator(route),
            CopyOutcome::Failed(e) => self.copy_failed(route, no_notes(), e),
        }
    }

    /// Everything (removing the old bundle, ensuring the target directory exists,
    /// and copying the new bundle in) happens in one script, so the person only
    /// sees a single password prompt, not one per step.
    fn to_ask_administrator(&mut self, route: Route) -> (r: Step)
        ensures
            (Move { now: final(self)@, step: r@ }) == to_ask_administrator(old(self)@, route),
    {
        let shell_cmd = self.bundle_command();
        let script = apple_script(shell_cmd.as_str(), self.install_dir.as_str());
        let request = owned(
            "Requesting administrator access via the macOS password/Touch ID prompt...",
        );
        let notes = noted(no_notes(), WorkerEvent::Log(request));
        let command = command2("osascript", "-e", script.as_str());
        self.run(Phase::AskingAdministrator(route), notes, command)
    }

    fn administrator_asked(&mut self, route: Route, result: Result<Exit, RunFailure>) -> (r: Step)
        ensures
            (Move { now: final(self)@, step: r@ }) == administrator_asked(
                old(self)@,
                route,
                run_result(result),
            ),
    {
        match result {
            Err(e) => {
                let message = cat2(
                    "failed to launch the administrator authorization prompt: ",
                    e.message.as_str(),
                );
                self.copy_failed(route, no_notes(), message)
            },
            Ok(exit) => {
                if exit.success {
                    let notes = noted(no_notes(), WorkerEvent::Log(owned("  -> ok")));
                    self.copied(route, notes)
                } else if prompt_cancelled(exit.stderr.as_str()) {
                    let outcome = owned("  -> cancelled by user");
                    let notes = noted(no_notes(), WorkerEvent::Log(outcome));
                    let message = owned(
                        "installation was cancelled at the administrator password prompt",
                    );
                    self.copy_failed(route, notes, message)
                } else {
                    let shown = trim(exit.stderr.as_str());
                    let failure = cat2("  -> failed: ", shown.as_str());
                    let notes = noted(no_notes(), WorkerEvent::Log(failure));
                    let message = cat2("privileged install failed: ", shown.as_str());
                    self.copy_failed(route, notes, message)
                }
            },
        }
    }

    fn copied(&mut self, route: Route, notes: Vec<WorkerEvent>) -> (r: Step)
        ensures
            (Move { now: final(self)@, step: r@ }) == copied(
                old(self)@,
                route,
                event_views(notes@),
            ),
    {
        match route {
            Route::Mounted => self.to_detach(true, staged(notes, "Unmounting disk image...")),
            Route::Extracted => {
                let dir = self.extract_dir();
                self.moved(Phase::RemovingExtract, notes, Action::RemoveDir(dir))
            },
        }
    }

    fn copy_failed(&mut self, route: Route, notes: Vec<WorkerEvent>, e: String) -> (r: Step)
        ensures
            (Move { now: final(self)@, step: r@ }) == copy_failed(
                old(self)@,
                route,
                event_views(notes@),
                e@,
            ),
    {
        match route {
            Route::Mounted => {
                self.last_error = e;
                self.to_detach(false, notes)
            },
            Route::Extracted => self.fallback_failed(notes, e.as_str()),
        }
    }

    fn fallback_failed(&mut self, notes: Vec<WorkerEvent>, e: &str) -> (r: Step)
        ensures
            (Move { now: final(self)@, step: r@ }) == fallback_failed(
                old(self)@,
                event_views(notes@),
                e@,
            ),
    {
        let message = cat5(
            "hdiutil attach failed (",
            self.last_error.as_str(),
            "), and the mount-free fallback also failed (",
            e,
            ")",
        );
        self.install_failed(notes, message.as_str())
    }

    fn to_look_for_tool(&mut self, tool: SevenZip, notes: Vec<WorkerEvent>) -> (r: Step)
        ensures
            (Move { now: final(self)@, step: r@ }) == to_look_for_tool(
                old(self)@,
                tool,
                event_views(notes@),
            ),
    {
        let command = command1("which", tool_called(tool));
        self.run(Phase::LookingForTool(tool), notes, command)
    }

    fn tool_looked_for(&mut self, tool: SevenZip, result: Result<Exit, RunFailure>) -> (r: Step)
        ensures
            (Move { now: final(self)@, step: r@ }) == tool_looked_for(
                old(self)@,
                tool,
                run_result(result),
            ),
    {
        let there = match result {
            Ok(exit) => exit.success,
            Err(_) => false,
        };
        if there {
            let dir = self.extract_dir();
            self.moved(Phase::ClearingExtract(tool), no_notes(), Action::RemoveDir(dir))
        } else {
            match tool {
                SevenZip::Zz => self.to_look_for_tool(SevenZip::Z, no_notes()),
                SevenZip::Z => self.to_look_for_tool(SevenZip::Za, no_notes()),
                SevenZip::Za => {
                    self.fallback_failed(
                        no_notes(),
                        "no 7-Zip binary (7zz/7z/7za) is installed to extract the disk image without mounting it  -  install one with `brew install sevenzip` (or `brew install p7zip`) and try again",
                    )
                },
            }
        }
    }

    fn extract_cleared(&mut self, tool: SevenZip) -> (r: Step)
        ensures
            (Move { now: final(self)@, step: r@ }) == extract_cleared(old(self)@, tool),
    {
        let dir = self.extract_dir();
        self.moved(Phase::MakingExtract(tool), no_notes(), Action::CreateDir(dir))
    }

    fn extract_made(&mut self, tool: SevenZip, result: Result<(), IoFailure>) -> (r: Step)
        ensures
            (Move { now: final(self)@, step: r@ }) == extract_made(
                old(self)@,
                tool,
                io_result(result),
            ),
    {
        match result {
            Err(e) => self.fallback_failed(no_notes(), e.message.as_str()),
            Ok(_) => {
                let dir = self.extract_dir();
                let into = cat2("-o", dir.as_str());
                let command = command4(
                    tool_called(tool),
                    "x",
                    self.archive.as_str(),
                    into.as_str(),
                    "-y",
                );
                let notes = staged(no_notes(), "Extracting disk image contents (7-Zip)...");
                self.run(Phase::Extracting(tool), notes, command)
            },
        }
    }

    fn extracted(&mut self, tool: SevenZip, result: Result<Exit, RunFailure>) -> (r: Step)
        ensures
            (Move { now: final(self)@, step: r@ }) == extracted(
                old(self)@,
                tool,
                run_result(result),
            ),
    {
        match result {
            Err(e) => {
                let message = cat4("failed to run ", tool_called(tool), ": ", e.message.as_str());
                self.fallback_failed(no_notes(), message.as_str())
            },
            Ok(exit) => {
                if !exit.success {
                    let message = cat2(tool_called(tool), " could not extract the disk image");
                    self.fallback_failed(no_notes(), message.as_str())
                } else {
                    let root = self.extract_dir();
                    let notes = staged(no_notes(), "Locating application bundle...");
                    self.moved(Phase::FindingBundle, notes, Action::FindBundle { root })
                }
            },
        }
    }

    fn bundle_found(&mut self, found: Option<String>) -> (r: Step)
        ensures
            (Move { now: final(self)@, step: r@ }) == bundle_found(
                old(self)@,
                optional_text(found),
            ),
    {
        match found {
            None => self.fallback_failed(
                no_notes(),
                "no .app bundle found inside the extracted disk image",
            ),
            Some(path) => {
                let name = file_name(path.as_str());
                self.dest = join_path(self.target.os, self.install_dir.as_str(), name.as_str());
                self.source = path;
                self.to_copy(Route::Extracted)
            },
        }
    }

    fn unpacked_as_root(&mut self, result: Result<Exit, RunFailure>) -> (r: Step)
        ensures
            (Move { now: final(self)@, step: r@ }) == unpacked_as_root(
                old(self)@,
                run_result(result),
            ),
    {
        let (notes, error) = outcome_of_root(result);
        match error {
            None => self.to_find_launcher(notes),
            Some(e) => self.install_failed(notes, e.as_str()),
        }
    }

    fn unpack_dir_made(&mut self, result: Result<(), IoFailure>) -> (r: Step)
        ensures
            (Move { now: final(self)@, step: r@ }) == unpack_dir_made(
                old(self)@,
                io_result(result),
            ),
    {
        match result {
            Err(e) => self.install_failed(no_notes(), e.message.as_str()),
            Ok(_) => {
                let command = command4(
                    "tar",
                    "-xJf",
                    self.archive.as_str(),
                    "-C",
                    self.install_dir.as_str(),
                );
                self.run(Phase::Unpacking, no_notes(), command)
            },
        }
    }

    fn unpacked(&mut self, result: Result<Exit, RunFailure>) -> (r: Step)
        ensures
            (Move { now: final(self)@, step: r@ }) == unpacked(old(self)@, run_result(result)),
    {
        match result {
            Err(e) => {
                let message = cat2("failed to run tar (is it installed?): ", e.message.as_str());
                self.install_failed(no_notes(), message.as_str())
            },
            Ok(exit) => {
                if exit.success {
                    self.to_find_launcher(no_notes())
                } else {
                    self.install_failed(no_notes(), "extracting the .tar.xz archive failed")
                }
            },
        }
    }

    /// Looks for the launcher script anywhere under the extracted tree, since the
    /// Tor Project has occasionally changed the top-level directory name.
    fn to_find_launcher(&mut self, notes: Vec<WorkerEvent>) -> (r: Step)
        ensures
            (Move { now: final(self)@, step: r@ }) == to_find_launcher(
                old(self)@,
                event_views(notes@),
            ),
    {
        let root = owned(self.install_dir.as_str());
        let name = owned("start-tor-browser");
        self.moved(Phase::FindingLauncher, notes, Action::FindFile { root, name })
    }

    fn launcher_found(&mut self, found: Option<String>) -> (r: Step)
        ensures
            (Move { now: final(self)@, step: r@ }) == launcher_found(
                old(self)@,
                optional_text(found),
            ),
    {
        match found {
            None => self.install_failed(
                no_notes(),
                "could not find start-tor-browser inside the extracted archive",
            ),
            Some(path) => {
                if self.scope == InstallScope::Global {
                    self.installed(no_notes(), path)
                } else {
                    self.dest = owned(path.as_str());
                    self.moved(Phase::MarkingLauncher, no_notes(), Action::MakeExecutable(path))
                }
            },
        }
    }

    fn installer_dir_made(&mut self, result: Result<(), IoFailure>) -> (r: Step)
        ensures
            (Move { now: final(self)@, step: r@ }) == installer_dir_made(
                old(self)@,
                io_result(result),
            ),
    {
        match result {
            Err(e) => self.install_failed(no_notes(), e.message.as_str()),
            Ok(_) => {
                let into = cat2("/D=", self.install_dir.as_str());
                let command = command2(self.archive.as_str(), "/S", into.as_str());
                self.run(Phase::RunningInstaller, no_notes(), command)
            },
        }
    }

    fn installer_ran(&mut self, result: Result<Exit, RunFailure>) -> (r: Step)
        ensures
            (Move { now: final(self)@, step: r@ }) == installer_ran(old(self)@, run_result(result)),
    {
        match result {
            Err(e) => {
                let message = cat2("failed to launch the installer: ", e.message.as_str());
                self.install_failed(no_notes(), message.as_str())
            },
            Ok(exit) => {
                if exit.success {
                    let root = owned(self.install_dir.as_str());
                    let name = owned("firefox.exe");
                    self.moved(Phase::FindingFirefox, no_notes(), Action::FindFile { root, name })
                } else {
                    self.install_failed(
                        no_notes(),
                        "the Tor Browser installer exited with an error (silent-install flags may not be supported by this release - try running the downloaded .exe manually)",
                    )
                }
            },
        }
    }

    fn firefox_found(&mut self, found: Option<String>) -> (r: Step)
        ensures
            (Move { now: final(self)@, step: r@ }) == firefox_found(
                old(self)@,
                optional_text(found),
            ),
    {
        match found {
            Some(path) => self.installed(no_notes(), path),
            None => {
                let root = owned(self.install_dir.as_str());
                let name = owned("Tor Browser.exe");
                self.moved(Phase::FindingTorBrowser, no_notes(), Action::FindFile { root, name })
            },
        }
    }

    fn tor_browser_found(&mut self, found: Option<String>) -> (r: Step)
        ensures
            (Move { now: final(self)@, step: r@ }) == tor_browser_found(
                old(self)@,
                optional_text(found),
            ),
    {
        match found {
            Some(path) => self.installed(no_notes(), path),
            None => self.install_failed(
                no_notes(),
                "installer finished but the Tor Browser executable was not found",
            ),
        }
    }
}

} // verus!
