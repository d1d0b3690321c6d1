//! What each step of an install is for: what it tells, what it asks for next and
//! what it keeps in mind, for every request and whatever comes of the step before.

use vstd::prelude::*;
use crate::commands::{
    apple_script_text, bundle_command_text, cp_outcome, is_cancelled, shown_command, shown_sudo,
    sudo_failure_text, sudo_view, unpack_command_text, CommandView, CopyOutcomeView, ExitView,
    RunFailureView,
};
use crate::events::{ActionView, Answer, EventView, IoFailureView, Phase, Route, SevenZip};
use crate::pipeline::{first_bundle, fresh, next_move, Notes, PipelineView};
use crate::platform::{joined, last_part, InstallScope, Os, Target};
use crate::release::ReleaseView;
use crate::search::bundles_are_told_by_their_extension;
use crate::states::{AppStateView, WorkerEventView};
use crate::text::{lowercased, same_but_for_ascii_case, trimmed};
use crate::volumes::{first_new, reported_mount_point, stale_among};

verus! {

// ---------------------------------------------------------------------
// How an install can go on
// ---------------------------------------------------------------------

/// The event is taken: the install tells `notes`, asks for `action`, and its
/// state is then `now`.
pub open spec fn goes_on(
    v: PipelineView,
    e: EventView,
    now: PipelineView,
    notes: Notes,
    action: ActionView,
) -> bool {
    &&& next_move(v, e) matches Some(m)
    &&& m.now =~= now
    &&& m.step.notes =~= notes
    &&& m.step.action =~= action
}

/// The event is taken, and leads to a command that is shown last and run without
/// anything on its standard input.
pub open spec fn runs(
    v: PipelineView,
    e: EventView,
    now: PipelineView,
    notes: Notes,
    command: CommandView,
) -> bool {
    goes_on(
        v,
        e,
        now,
        notes + seq![WorkerEventView::Log(shown_command(command))],
        ActionView::Run { command, stdin: None },
    )
}

/// The event is taken, and leads to a shell command that is shown last and run by
/// `sudo`, with the password and a line end on its standard input.
pub open spec fn runs_as_root(
    v: PipelineView,
    e: EventView,
    now: PipelineView,
    notes: Notes,
    shell_cmd: Seq<char>,
) -> bool {
    goes_on(
        v,
        e,
        now,
        notes + seq![WorkerEventView::Log(shown_sudo(shell_cmd))],
        ActionView::Run { command: sudo_view(shell_cmd), stdin: Some(v.password + "\n"@) },
    )
}

/// The install is over before there is a download: this error is all that is
/// told.
pub open spec fn gives_up(v: PipelineView, e: EventView, error: Seq<char>) -> bool {
    goes_on(
        v,
        e,
        PipelineView { phase: Phase::Finished, ..v },
        seq![WorkerEventView::State(AppStateView::Error(error))],
        ActionView::Finish,
    )
}

/// The download is discarded: this error is all that is told, and the archive is
/// removed.
pub open spec fn discards(v: PipelineView, e: EventView, error: Seq<char>) -> bool {
    goes_on(
        v,
        e,
        PipelineView { phase: Phase::CleaningUp, ..v },
        seq![WorkerEventView::State(AppStateView::Error(error))],
        ActionView::RemoveFile(v.archive),
    )
}

/// The install has failed for this reason: that is told last, and the archive is
/// removed.
pub open spec fn fails(v: PipelineView, e: EventView, notes: Notes, reason: Seq<char>) -> bool {
    goes_on(
        v,
        e,
        PipelineView { phase: Phase::CleaningUp, ..v },
        notes + seq![WorkerEventView::State(AppStateView::Error("Install failed: "@ + reason))],
        ActionView::RemoveFile(v.archive),
    )
}

/// Tor Browser is installed at this path: that is told last, and the archive is
/// removed.
pub open spec fn succeeds(v: PipelineView, e: EventView, path: Seq<char>) -> bool {
    goes_on(
        v,
        e,
        PipelineView { phase: Phase::CleaningUp, ..v },
        seq![WorkerEventView::State(AppStateView::Complete { app_path: path })],
        ActionView::RemoveFile(v.archive),
    )
}

/// The report of an install stage.
pub open spec fn tells(text: Seq<char>) -> WorkerEventView {
    WorkerEventView::State(AppStateView::Installing { stage: text })
}

/// Nothing to tell.
pub open spec fn nothing() -> Notes {
    Seq::<WorkerEventView>::empty()
}

/// A command has ended well.
pub open spec fn went_well(r: Result<ExitView, RunFailureView>) -> bool {
    r matches Ok(exit) && exit.success
}

// ---------------------------------------------------------------------
// Before the install
// ---------------------------------------------------------------------

/// An install that has not started keeps in mind what was asked for, unchanged:
/// the system, the scope, the directory and the password. It works in a directory
/// of its own among the temporary files.
pub proof fn an_install_is_what_was_asked_for(
    target: Target,
    scope: InstallScope,
    install_dir: Seq<char>,
    password: Seq<char>,
    temp_root: Seq<char>,
)
    ensures
        ({
            let v = fresh(target, scope, install_dir, password, temp_root);
            &&& v.phase == Phase::Starting
            &&& v.target == target
            &&& v.scope == scope
            &&& v.install_dir == install_dir
            &&& v.password == password
            &&& v.temp_dir == joined(target.os, temp_root, "tor-browser-builder"@)
        }),
{
}

/// An install begins by telling for whom it is and where it goes, and by fetching
/// the release information.
pub proof fn an_install_begins_with_the_release(v: PipelineView)
    requires
        v.phase == Phase::Starting,
    ensures
        goes_on(
            v,
            EventView::Started,
            PipelineView { phase: Phase::Fetching, ..v },
            seq![
                WorkerEventView::Log(
                    if v.scope == InstallScope::Global && (v.target.os == Os::MacOs || v.target.os
                        == Os::Linux) {
                        "Install scope: all users ("@ + v.install_dir + "  -  sudo)"@
                    } else {
                        "Install scope: current user ("@ + v.install_dir + ")"@
                    },
                ),
            ],
            ActionView::FetchRelease,
        ),
{
}

/// The person is asked about just the release that was fetched, and the install
/// keeps all of it: what is downloaded and what it is verified by is what they
/// were shown. The archive goes to the directory of this program for temporary
/// files, under the version and with the extension of the platform.
pub proof fn the_person_is_asked_about_the_release(
    v: PipelineView,
    release: ReleaseView,
    error: Seq<char>,
)
    requires
        v.phase == Phase::Fetching,
    ensures
        goes_on(
            v,
            EventView::Release(Ok(release)),
            PipelineView {
                phase: Phase::Confirming,
                binary_url: release.binary_url,
                sha256: release.sha256,
                sig_url: release.sig_url,
                archive: joined(
                    v.target.os,
                    v.temp_dir,
                    "TorBrowser-"@ + release.version + "."@ + (match v.target.os {
                        Os::MacOs => "dmg"@,
                        Os::Windows => "exe"@,
                        Os::Linux | Os::Other => "tar.xz"@,
                    }),
                ),
                ..v
            },
            seq![
                WorkerEventView::State(
                    AppStateView::ConfirmInstall {
                        version: release.version,
                        binary_url: release.binary_url,
                        sha256: release.sha256,
                        sig_url: release.sig_url,
                    },
                ),
            ],
            ActionView::AskConfirmation,
        ),
        gives_up(
            v,
            EventView::Release(Err(error)),
            "Could not fetch release information: "@ + error,
        ),
{
}

/// The install goes on if and only if the person agrees. If they cancel, it ends
/// without a word; if the window went away, it ends with an error.
pub proof fn the_answer_decides(v: PipelineView)
    requires
        v.phase == Phase::Confirming,
    ensures
        goes_on(
            v,
            EventView::Answered(Answer::Proceed),
            PipelineView { phase: Phase::MakingTempDir, ..v },
            nothing(),
            ActionView::CreateDir(v.temp_dir),
        ),
        goes_on(
            v,
            EventView::Answered(Answer::Cancel),
            PipelineView { phase: Phase::Finished, ..v },
            nothing(),
            ActionView::Finish,
        ),
        gives_up(
            v,
            EventView::Answered(Answer::Closed),
            "Confirmation channel closed unexpectedly"@,
        ),
{
}

/// What is downloaded is the binary of the release, and it goes to the archive.
pub proof fn the_binary_is_downloaded_to_the_archive(v: PipelineView, failure: IoFailureView)
    requires
        v.phase == Phase::MakingTempDir,
    ensures
        goes_on(
            v,
            EventView::Done(Ok(())),
            PipelineView { phase: Phase::Downloading, ..v },
            seq![WorkerEventView::State(AppStateView::Downloading { downloaded: 0, total: 0 })],
            ActionView::Download { url: v.binary_url, dest: v.archive },
        ),
        gives_up(
            v,
            EventView::Done(Err(failure)),
            "Could not create temp dir: "@ + failure.message,
        ),
{
}

/// The install itself begins, by the routine of the platform: a disk image is
/// attached, an archive unpacked, an installer run. Where there is none, the
/// install fails.
pub open spec fn begins(v: PipelineView, e: EventView) -> bool {
    let preparing = seq![tells("Preparing installation..."@)];
    match v.target.os {
        Os::MacOs => goes_on(
            v,
            e,
            PipelineView { phase: Phase::ListingStale, ..v },
            preparing + seq![tells("Attaching disk image..."@)],
            ActionView::ListDir("/Volumes"@),
        ),
        Os::Linux => if v.scope == InstallScope::Global {
            runs_as_root(
                v,
                e,
                PipelineView { phase: Phase::UnpackingAsRoot, ..v },
                preparing,
                unpack_command_text(v.install_dir, v.archive),
            )
        } else {
            goes_on(
                v,
                e,
                PipelineView { phase: Phase::MakingUnpackDir, ..v },
                preparing,
                ActionView::CreateDir(v.install_dir),
            )
        },
        Os::Windows => goes_on(
            v,
            e,
            PipelineView { phase: Phase::MakingInstallerDir, ..v },
            preparing,
            ActionView::CreateDir(v.install_dir),
        ),
        Os::Other => fails(
            v,
            e,
            preparing,
            "automatic installation is not implemented for this platform"@,
        ),
    }
}

/// The signature of the download itself is checked, by the one that the release
/// names, if it names one; then the install begins.
pub open spec fn checks_signature(v: PipelineView, e: EventView) -> bool {
    match v.sig_url {
        Some(sig_url) => goes_on(
            v,
            e,
            PipelineView { phase: Phase::CheckingSignature, ..v },
            seq![WorkerEventView::State(AppStateView::VerifyingSignature)],
            ActionView::VerifySignature { path: v.archive, sig_url },
        ),
        None => begins(v, e),
    }
}

/// Once the download is there, the checksum of just that file is computed if the
/// release has one, whatever it looks like; only without one is it passed over.
pub proof fn a_download_is_verified(v: PipelineView, failure: IoFailureView)
    requires
        v.phase == Phase::Downloading,
    ensures
        v.sha256 is Some ==> goes_on(
            v,
            EventView::Done(Ok(())),
            PipelineView { phase: Phase::Hashing, ..v },
            seq![WorkerEventView::State(AppStateView::Verifying)],
            ActionView::HashFile(v.archive),
        ),
        v.sha256 is None ==> checks_signature(v, EventView::Done(Ok(()))),
        gives_up(v, EventView::Done(Err(failure)), "Download failed: "@ + failure.message),
{
}

/// The checksum decides: a file that has the one of the release goes on to the
/// check of its signature, and every other is discarded, with both checksums in
/// the error.
pub proof fn the_checksum_decides(
    v: PipelineView,
    expected: Seq<char>,
    actual: Seq<char>,
    error: Seq<char>,
)
    requires
        v.phase == Phase::Hashing,
        v.sha256 == Some(expected),
    ensures
        same_but_for_ascii_case(actual, expected) ==> checks_signature(
            v,
            EventView::Digest(Ok(actual)),
        ),
        !same_but_for_ascii_case(actual, expected) ==> discards(
            v,
            EventView::Digest(Ok(actual)),
            "Checksum mismatch  -  expected "@ + expected + ", got "@ + actual
                + ". The download will not be installed."@,
        ),
        discards(v, EventView::Digest(Err(error)), "Could not verify download: "@ + error),
{
}

/// The signature decides: a file with a good one is installed, every other is
/// discarded.
pub proof fn the_signature_decides(v: PipelineView, failure: IoFailureView)
    requires
        v.phase == Phase::CheckingSignature,
    ensures
        begins(v, EventView::Done(Ok(()))),
        discards(
            v,
            EventView::Done(Err(failure)),
            "PGP signature verification failed: "@ + failure.message,
        ),
{
}

/// Whatever comes of removing the archive, the install is over, and nothing more
/// is told.
pub proof fn cleaning_up_ends_the_install(v: PipelineView, r: Result<(), IoFailureView>)
    requires
        v.phase == Phase::CleaningUp,
    ensures
        goes_on(
            v,
            EventView::Done(r),
            PipelineView { phase: Phase::Finished, ..v },
            nothing(),
            ActionView::Finish,
        ),
{
}

// ---------------------------------------------------------------------
// Windows
// ---------------------------------------------------------------------

/// Once the directory is there, the download itself is run as a program. Its last
/// argument is `/D=` with just the directory that was asked for behind it, whatever
/// characters it has: it is neither quoted nor shortened.
pub proof fn the_installer_gets_the_directory(v: PipelineView, failure: IoFailureView)
    requires
        v.phase == Phase::MakingInstallerDir,
    ensures
        runs(
            v,
            EventView::Done(Ok(())),
            PipelineView { phase: Phase::RunningInstaller, ..v },
            nothing(),
            CommandView { program: v.archive, args: seq!["/S"@, "/D="@ + v.install_dir] },
        ),
        fails(v, EventView::Done(Err(failure)), nothing(), failure.message),
{
}

/// When the installer has ended well, its program is looked for in the directory
/// that it was given. An installer that failed, or could not be run, is an error.
pub proof fn the_installer_has_to_end_well(
    v: PipelineView,
    exit: ExitView,
    failure: RunFailureView,
)
    requires
        v.phase == Phase::RunningInstaller,
    ensures
        exit.success ==> goes_on(
            v,
            EventView::Ran(Ok(exit)),
            PipelineView { phase: Phase::FindingFirefox, ..v },
            nothing(),
            ActionView::FindFile { root: v.install_dir, name: "firefox.exe"@ },
        ),
        !exit.success ==> fails(
            v,
            EventView::Ran(Ok(exit)),
            nothing(),
            "the Tor Browser installer exited with an error (silent-install flags may not be supported by this release - try running the downloaded .exe manually)"@,
        ),
        fails(
            v,
            EventView::Ran(Err(failure)),
            nothing(),
            "failed to launch the installer: "@ + failure.message,
        ),
{
}

/// The program that was found is what is reported as installed. It is looked for
/// under its other name too before the install fails.
pub proof fn the_program_that_was_found_is_reported(v: PipelineView, path: Seq<char>)
    requires
        v.phase == Phase::FindingFirefox,
    ensures
        succeeds(v, EventView::Found(Some(path)), path),
        goes_on(
            v,
            EventView::Found(None),
            PipelineView { phase: Phase::FindingTorBrowser, ..v },
            nothing(),
            ActionView::FindFile { root: v.install_dir, name: "Tor Browser.exe"@ },
        ),
{
}

/// The program that was found under its other name is reported; without one the
/// install fails.
pub proof fn the_program_under_its_other_name_is_reported(v: PipelineView, path: Seq<char>)
    requires
        v.phase == Phase::FindingTorBrowser,
    ensures
        succeeds(v, EventView::Found(Some(path)), path),
        fails(
            v,
            EventView::Found(None),
            nothing(),
            "installer finished but the Tor Browser executable was not found"@,
        ),
{
}

// ---------------------------------------------------------------------
// Linux
// ---------------------------------------------------------------------

/// For one account the archive is unpacked by `tar`, into just the directory that
/// was asked for.
pub proof fn the_archive_is_unpacked_into_the_directory(v: PipelineView, failure: IoFailureView)
    requires
        v.phase == Phase::MakingUnpackDir,
    ensures
        runs(
            v,
            EventView::Done(Ok(())),
            PipelineView { phase: Phase::Unpacking, ..v },
            nothing(),
            CommandView { program: "tar"@, args: seq!["-xJf"@, v.archive, "-C"@, v.install_dir] },
        ),
        fails(v, EventView::Done(Err(failure)), nothing(), failure.message),
{
}

/// The launcher is looked for by its name in the directory that was unpacked to.
pub open spec fn looks_for_launcher(v: PipelineView, e: EventView, notes: Notes) -> bool {
    goes_on(
        v,
        e,
        PipelineView { phase: Phase::FindingLauncher, ..v },
        notes,
        ActionView::FindFile { root: v.install_dir, name: "start-tor-browser"@ },
    )
}

/// Only when `tar` has ended well does the install go on.
pub proof fn unpacking_has_to_end_well(v: PipelineView, exit: ExitView, failure: RunFailureView)
    requires
        v.phase == Phase::Unpacking,
    ensures
        exit.success ==> looks_for_launcher(v, EventView::Ran(Ok(exit)), nothing()),
        !exit.success ==> fails(
            v,
            EventView::Ran(Ok(exit)),
            nothing(),
            "extracting the .tar.xz archive failed"@,
        ),
        fails(
            v,
            EventView::Ran(Err(failure)),
            nothing(),
            "failed to run tar (is it installed?): "@ + failure.message,
        ),
{
}

/// Only when the command run by `sudo` has ended well does the install go on; how
/// it ended is told either way.
pub proof fn unpacking_as_root_has_to_end_well(
    v: PipelineView,
    exit: ExitView,
    failure: RunFailureView,
)
    requires
        v.phase == Phase::UnpackingAsRoot,
    ensures
        exit.success ==> looks_for_launcher(
            v,
            EventView::Ran(Ok(exit)),
            seq![WorkerEventView::Log("  -> ok"@)],
        ),
        !exit.success ==> fails(
            v,
            EventView::Ran(Ok(exit)),
            seq![WorkerEventView::Log("  -> failed: "@ + trimmed(exit.stderr))],
            sudo_failure_text(exit.stderr, lowercased(exit.stderr)),
        ),
        fails(
            v,
            EventView::Ran(Err(failure)),
            nothing(),
            (if failure.launched {
                "sudo did not complete: "@
            } else {
                "failed to launch sudo: "@
            }) + failure.message,
        ),
{
}

/// The launcher that was found is what is reported as installed: for all users at
/// once, as `sudo` has made it executable; for one account after it is made so.
pub proof fn the_launcher_that_was_found_is_taken(v: PipelineView, path: Seq<char>)
    requires
        v.phase == Phase::FindingLauncher,
    ensures
        v.scope == InstallScope::Global ==> succeeds(v, EventView::Found(Some(path)), path),
        v.scope == InstallScope::User ==> goes_on(
            v,
            EventView::Found(Some(path)),
            PipelineView { phase: Phase::MarkingLauncher, dest: path, ..v },
            nothing(),
            ActionView::MakeExecutable(path),
        ),
        fails(
            v,
            EventView::Found(None),
            nothing(),
            "could not find start-tor-browser inside the extracted archive"@,
        ),
{
}

/// Whether the launcher could be made executable makes no difference: it is
/// reported as installed.
pub proof fn the_launcher_is_reported(v: PipelineView, r: Result<(), IoFailureView>)
    requires
        v.phase == Phase::MarkingLauncher,
    ensures
        succeeds(v, EventView::Done(r), v.dest),
{
}

// ---------------------------------------------------------------------
// macOS: attaching the disk image
// ---------------------------------------------------------------------

/// The volumes in `left` are detached, the first one first, each under
/// `/Volumes/` by its whole name; when none is left, the image is attached for
/// the first time.
pub open spec fn detaches(v: PipelineView, e: EventView, left: Seq<Seq<char>>) -> bool {
    if left.len() == 0 {
        goes_on(
            v,
            e,
            PipelineView { phase: Phase::ListingBefore(1), stale: left, ..v },
            nothing(),
            ActionView::ListDir("/Volumes"@),
        )
    } else {
        runs(
            v,
            e,
            PipelineView { phase: Phase::DetachingStale, stale: left.skip(1), ..v },
            nothing(),
            CommandView {
                program: "hdiutil"@,
                args: seq!["detach"@, "-quiet"@, "/Volumes/"@ + left[0]],
            },
        )
    }
}

/// Every volume that was left behind is to be detached before the image is
/// attached. Where the volumes cannot be listed, none is.
pub proof fn stale_volumes_are_detached_first(
    v: PipelineView,
    names: Seq<Seq<char>>,
    error: Seq<char>,
)
    requires
        v.phase == Phase::ListingStale,
    ensures
        detaches(v, EventView::Listed(Ok(names)), stale_among(names)),
        detaches(v, EventView::Listed(Err(error)), Seq::<Seq<char>>::empty()),
{
}

/// They are detached one after the other, whatever comes of it.
pub proof fn stale_volumes_are_detached_in_turn(
    v: PipelineView,
    r: Result<ExitView, RunFailureView>,
)
    requires
        v.phase == Phase::DetachingStale,
    ensures
        detaches(v, EventView::Ran(r), v.stale),
{
}

/// After the pause before another attempt the volumes are listed anew.
pub proof fn volumes_are_listed_before_each_attempt(
    v: PipelineView,
    n: u8,
    r: Result<(), IoFailureView>,
)
    requires
        v.phase == Phase::Pausing(n),
    ensures
        goes_on(
            v,
            EventView::Done(r),
            PipelineView { phase: Phase::ListingBefore(n), ..v },
            nothing(),
            ActionView::ListDir("/Volumes"@),
        ),
{
}

/// The volumes that are there before an attempt are kept; then the download
/// itself is attached, in the form that can be read by a program.
pub proof fn the_download_is_attached(
    v: PipelineView,
    n: u8,
    names: Seq<Seq<char>>,
    error: Seq<char>,
)
    requires
        v.phase == Phase::ListingBefore(n),
    ensures
        ({
            let attach = CommandView {
                program: "hdiutil"@,
                args: seq!["attach"@, "-plist"@, "-nobrowse"@, v.archive],
            };
            let none = Seq::<Seq<char>>::empty();
            &&& runs(
                v,
                EventView::Listed(Ok(names)),
                PipelineView { phase: Phase::Attaching(n), volumes: names, ..v },
                nothing(),
                attach,
            )
            &&& runs(
                v,
                EventView::Listed(Err(error)),
                PipelineView { phase: Phase::Attaching(n), volumes: none, ..v },
                nothing(),
                attach,
            )
        }),
{
}

/// The attempt is made again after a pause, three times in all; then the image is
/// extracted without mounting it, and the reason is kept.
pub open spec fn tries_again(v: PipelineView, e: EventView, n: u8, reason: Seq<char>) -> bool {
    if n < 3 {
        goes_on(
            v,
            e,
            PipelineView { phase: Phase::Pausing((n + 1) as u8), ..v },
            seq![tells("Retrying disk image attach..."@)],
            ActionView::Pause(750),
        )
    } else {
        runs(
            v,
            e,
            PipelineView {
                phase: Phase::LookingForTool(SevenZip::Zz),
                last_error: reason + " (after 3 attempts)"@,
                ..v
            },
            seq![tells("Disk image would not attach  -  extracting without mounting..."@)],
            CommandView { program: "which"@, args: seq!["7zz"@] },
        )
    }
}

/// What is at the mount point is listed, and the mount point is kept.
pub open spec fn is_mounted_at(v: PipelineView, e: EventView, path: Seq<char>) -> bool {
    goes_on(
        v,
        e,
        PipelineView { phase: Phase::ListingImage, mount_point: path, ..v },
        seq![tells("Locating application bundle..."@)],
        ActionView::ListDir(path),
    )
}

/// When attaching has ended well, the image is where the output says, whole;
/// where it does not say, the volumes are listed again. When it has not, it is
/// tried again.
pub proof fn the_image_is_where_the_output_says(
    v: PipelineView,
    n: u8,
    exit: ExitView,
    failure: RunFailureView,
)
    requires
        v.phase == Phase::Attaching(n),
        1 <= n,
    ensures
        exit.success ==> (match reported_mount_point(exit.stdout) {
            Some(path) => is_mounted_at(v, EventView::Ran(Ok(exit)), path),
            None => goes_on(
                v,
                EventView::Ran(Ok(exit)),
                PipelineView { phase: Phase::ListingAfter(n), ..v },
                nothing(),
                ActionView::ListDir("/Volumes"@),
            ),
        }),
        !exit.success ==> tries_again(
            v,
            EventView::Ran(Ok(exit)),
            n,
            "hdiutil attach failed: "@ + trimmed(exit.stderr),
        ),
        tries_again(
            v,
            EventView::Ran(Err(failure)),
            n,
            "failed to run hdiutil attach: "@ + failure.message,
        ),
{
}

/// Where the output does not say, the image is at the volume that has appeared
/// since the volumes were listed before; where none has, it is tried again.
pub proof fn the_image_is_the_new_volume(
    v: PipelineView,
    n: u8,
    names: Seq<Seq<char>>,
    error: Seq<char>,
)
    requires
        v.phase == Phase::ListingAfter(n),
        1 <= n,
    ensures
        match first_new(v.volumes, names) {
            Some(name) => is_mounted_at(v, EventView::Listed(Ok(names)), "/Volumes/"@ + name),
            None => tries_again(
                v,
                EventView::Listed(Ok(names)),
                n,
                "could not determine mount point from hdiutil output"@,
            ),
        },
        tries_again(
            v,
            EventView::Listed(Err(error)),
            n,
            "could not determine mount point from hdiutil output"@,
        ),
{
}

// ---------------------------------------------------------------------
// macOS: copying the app bundle
// ---------------------------------------------------------------------

/// The image is unmounted from where it is mounted.
pub open spec fn unmounts(
    v: PipelineView,
    e: EventView,
    now: PipelineView,
    notes: Notes,
) -> bool {
    runs(
        v,
        e,
        now,
        notes,
        CommandView { program: "hdiutil"@, args: seq!["detach"@, "-quiet"@, v.mount_point] },
    )
}

/// The bundle at `source` is copied into the install directory, where it will
/// stand at `dest`: by `sudo` for all users, and otherwise with the rights of the
/// account.
pub open spec fn begins_copy(
    v: PipelineView,
    e: EventView,
    route: Route,
    source: Seq<char>,
    dest: Seq<char>,
) -> bool {
    let copying = seq![tells("Copying application to install location..."@)];
    if v.scope == InstallScope::Global {
        runs_as_root(
            v,
            e,
            PipelineView { phase: Phase::CopyingAsRoot(route), source, dest, ..v },
            copying,
            bundle_command_text(source, v.install_dir, dest),
        )
    } else {
        goes_on(
            v,
            e,
            PipelineView { phase: Phase::MakingBundleDir(route), source, dest, ..v },
            copying,
            ActionView::CreateDir(v.install_dir),
        )
    }
}

/// The first name of a list that ends in `.app` is that of the bundle.
pub proof fn the_first_bundle_is_taken(names: Seq<Seq<char>>, k: int, stem: Seq<char>)
    requires
        0 <= k < names.len(),
        stem.len() > 0,
        names[k] == stem + ".app"@,
        forall|j: int, other: Seq<char>|
            0 <= j < k && other.len() > 0 ==> #[trigger] names[j] != #[trigger] (other + ".app"@),
    ensures
        first_bundle(names) == Some(stem + ".app"@),
    decreases k,
{
    bundles_are_told_by_their_extension(names[0]);
    if k > 0 {
        let later = names.skip(1);
        assert(later[k - 1] == names[k]);
        assert forall|j: int, other: Seq<char>| 0 <= j < k - 1 && other.len() > 0 implies
            #[trigger] later[j] != #[trigger] (other + ".app"@) by {
            assert(later[j] == names[j + 1]);
        }
        the_first_bundle_is_taken(later, k - 1, stem);
    }
}

/// Where no name ends in `.app`, there is no bundle.
pub proof fn without_a_bundle_none_is_taken(names: Seq<Seq<char>>)
    requires
        forall|j: int, other: Seq<char>|
            0 <= j < names.len() && other.len() > 0 ==> #[trigger] names[j] != #[trigger] (other
                + ".app"@),
    ensures
        first_bundle(names) is None,
    decreases names.len(),
{
    if names.len() > 0 {
        bundles_are_told_by_their_extension(names[0]);
        let later = names.skip(1);
        assert forall|j: int, other: Seq<char>| 0 <= j < later.len() && other.len() > 0 implies
            #[trigger] later[j] != #[trigger] (other + ".app"@) by {
            assert(later[j] == names[j + 1]);
        }
        without_a_bundle_none_is_taken(later);
    }
}

/// The bundle is copied from where the image is mounted to the install directory,
/// under its own name. An image without a bundle is unmounted, and then the
/// install fails; one that cannot be listed fails it at once.
pub proof fn the_bundle_of_the_image_is_copied(
    v: PipelineView,
    names: Seq<Seq<char>>,
    error: Seq<char>,
)
    requires
        v.phase == Phase::ListingImage,
    ensures
        match first_bundle(names) {
            Some(name) => begins_copy(
                v,
                EventView::Listed(Ok(names)),
                Route::Mounted,
                joined(v.target.os, v.mount_point, name),
                joined(v.target.os, v.install_dir, name),
            ),
            None => unmounts(
                v,
                EventView::Listed(Ok(names)),
                PipelineView {
                    phase: Phase::Detaching(false),
                    last_error: "no .app bundle found inside the disk image"@,
                    ..v
                },
                nothing(),
            ),
        },
        fails(v, EventView::Listed(Err(error)), nothing(), error),
{
}

/// The copy went well: the image is unmounted, or what was extracted is removed.
pub open spec fn is_copied(v: PipelineView, e: EventView, route: Route, notes: Notes) -> bool {
    match route {
        Route::Mounted => unmounts(
            v,
            e,
            PipelineView { phase: Phase::Detaching(true), ..v },
            notes + seq![tells("Unmounting disk image..."@)],
        ),
        Route::Extracted => goes_on(
            v,
            e,
            PipelineView { phase: Phase::RemovingExtract, ..v },
            notes,
            ActionView::RemoveDir(joined(v.target.os, v.temp_dir, "dmg-extract"@)),
        ),
    }
}

/// Neither way of reading the disk image worked, and both reasons are given.
pub open spec fn falls_through(
    v: PipelineView,
    e: EventView,
    notes: Notes,
    reason: Seq<char>,
) -> bool {
    fails(
        v,
        e,
        notes,
        "hdiutil attach failed ("@ + v.last_error + "), and the mount-free fallback also failed ("@
            + reason + ")"@,
    )
}

/// The copy failed: the image is unmounted first, and the reason is kept.
pub open spec fn is_not_copied(
    v: PipelineView,
    e: EventView,
    route: Route,
    notes: Notes,
    reason: Seq<char>,
) -> bool {
    match route {
        Route::Mounted => unmounts(
            v,
            e,
            PipelineView { phase: Phase::Detaching(false), last_error: reason, ..v },
            notes,
        ),
        Route::Extracted => falls_through(v, e, notes, reason),
    }
}

/// The same copy is made behind the prompt of the system for an administrator.
pub open spec fn asks_administrator(v: PipelineView, e: EventView, route: Route) -> bool {
    runs(
        v,
        e,
        PipelineView { phase: Phase::AskingAdministrator(route), ..v },
        seq![
            WorkerEventView::Log(
                "Requesting administrator access via the macOS password/Touch ID prompt..."@,
            ),
        ],
        CommandView {
            program: "osascript"@,
            args: seq![
                "-e"@,
                apple_script_text(
                    bundle_command_text(v.source, v.install_dir, v.dest),
                    v.install_dir,
                ),
            ],
        },
    )
}

/// A copy by `sudo` counts if it has ended well; how it ended is told either way.
pub proof fn a_copy_as_root_has_to_end_well(
    v: PipelineView,
    route: Route,
    exit: ExitView,
    failure: RunFailureView,
)
    requires
        v.phase == Phase::CopyingAsRoot(route),
    ensures
        exit.success ==> is_copied(
            v,
            EventView::Ran(Ok(exit)),
            route,
            seq![WorkerEventView::Log("  -> ok"@)],
        ),
        !exit.success ==> is_not_copied(
            v,
            EventView::Ran(Ok(exit)),
            route,
            seq![WorkerEventView::Log("  -> failed: "@ + trimmed(exit.stderr))],
            sudo_failure_text(exit.stderr, lowercased(exit.stderr)),
        ),
        is_not_copied(
            v,
            EventView::Ran(Err(failure)),
            route,
            nothing(),
            (if failure.launched {
                "sudo did not complete: "@
            } else {
                "failed to launch sudo: "@
            }) + failure.message,
        ),
{
}

/// What failed while a bundle was put in its place, and is told by a file
/// operation: it is done behind the administrator prompt if it was refused for
/// want of permission, and is a failure otherwise.
pub open spec fn is_hindered(v: PipelineView, route: Route, failure: IoFailureView) -> bool {
    if failure.permission_denied {
        asks_administrator(v, EventView::Done(Err(failure)), route)
    } else {
        is_not_copied(v, EventView::Done(Err(failure)), route, nothing(), failure.message)
    }
}

/// Once the install directory is there, it is looked whether a bundle of the same
/// name stands in it.
pub proof fn an_earlier_bundle_is_looked_for(
    v: PipelineView,
    route: Route,
    failure: IoFailureView,
)
    requires
        v.phase == Phase::MakingBundleDir(route),
    ensures
        goes_on(
            v,
            EventView::Done(Ok(())),
            PipelineView { phase: Phase::LookingForBundle(route), ..v },
            nothing(),
            ActionView::CheckPath(v.dest),
        ),
        is_hindered(v, route, failure),
{
}

/// A bundle that stands there is removed, just that one; where there is none,
/// nothing is.
pub proof fn an_earlier_bundle_is_removed(v: PipelineView, route: Route)
    requires
        v.phase == Phase::LookingForBundle(route),
    ensures
        goes_on(
            v,
            EventView::PathExists(true),
            PipelineView { phase: Phase::RemovingBundle(route), ..v },
            nothing(),
            ActionView::RemoveDir(v.dest),
        ),
        runs(
            v,
            EventView::PathExists(false),
            PipelineView { phase: Phase::CopyingBundle(route), ..v },
            nothing(),
            CommandView { program: "cp"@, args: seq!["-R"@, v.source, v.install_dir] },
        ),
{
}

/// Once the earlier bundle is gone, the new one is copied into the install
/// directory.
pub proof fn the_new_bundle_is_copied(v: PipelineView, route: Route, failure: IoFailureView)
    requires
        v.phase == Phase::RemovingBundle(route),
    ensures
        runs(
            v,
            EventView::Done(Ok(())),
            PipelineView { phase: Phase::CopyingBundle(route), ..v },
            nothing(),
            CommandView { program: "cp"@, args: seq!["-R"@, v.source, v.install_dir] },
        ),
        is_hindered(v, route, failure),
{
}

/// A plain copy that was refused for want of permission is made again behind the
/// administrator prompt; any other failure is one.
pub proof fn a_refused_copy_is_made_by_the_administrator(
    v: PipelineView,
    route: Route,
    r: Result<ExitView, RunFailureView>,
)
    requires
        v.phase == Phase::CopyingBundle(route),
    ensures
        match cp_outcome(r) {
            CopyOutcomeView::Copied => is_copied(v, EventView::Ran(r), route, nothing()),
            CopyOutcomeView::PermissionDenied => asks_administrator(v, EventView::Ran(r), route),
            CopyOutcomeView::Failed(e) => is_not_copied(
                v,
                EventView::Ran(r),
                route,
                nothing(),
                e,
            ),
        },
{
}

/// A copy behind the administrator prompt counts if it has ended well. That the
/// person dismissed the prompt is told apart from other failures.
pub proof fn the_administrator_can_refuse(
    v: PipelineView,
    route: Route,
    exit: ExitView,
    failure: RunFailureView,
)
    requires
        v.phase == Phase::AskingAdministrator(route),
    ensures
        exit.success ==> is_copied(
            v,
            EventView::Ran(Ok(exit)),
            route,
            seq![WorkerEventView::Log("  -> ok"@)],
        ),
        !exit.success && is_cancelled(exit.stderr, lowercased(exit.stderr)) ==> is_not_copied(
            v,
            EventView::Ran(Ok(exit)),
            route,
            seq![WorkerEventView::Log("  -> cancelled by user"@)],
            "installation was cancelled at the administrator password prompt"@,
        ),
        !exit.success && !is_cancelled(exit.stderr, lowercased(exit.stderr)) ==> is_not_copied(
            v,
            EventView::Ran(Ok(exit)),
            route,
            seq![WorkerEventView::Log("  -> failed: "@ + trimmed(exit.stderr))],
            "privileged install failed: "@ + trimmed(exit.stderr),
        ),
        is_not_copied(
            v,
            EventView::Ran(Err(failure)),
            route,
            nothing(),
            "failed to launch the administrator authorization prompt: "@ + failure.message,
        ),
{
}

/// Whatever comes of unmounting the image, the install then ends as the copy did:
/// with the path of the bundle, or with the reason that was kept.
pub proof fn unmounting_does_not_change_the_outcome(
    v: PipelineView,
    copied: bool,
    r: Result<ExitView, RunFailureView>,
)
    requires
        v.phase == Phase::Detaching(copied),
    ensures
        copied ==> succeeds(v, EventView::Ran(r), v.dest),
        !copied ==> fails(v, EventView::Ran(r), nothing(), v.last_error),
{
}

// ---------------------------------------------------------------------
// macOS: extracting the disk image without mounting it
// ---------------------------------------------------------------------

/// The names of 7-Zip are tried in order, until one is there; without any, the
/// install fails and says how to get one.
pub proof fn every_name_of_the_tool_is_tried(
    v: PipelineView,
    tool: SevenZip,
    r: Result<ExitView, RunFailureView>,
)
    requires
        v.phase == Phase::LookingForTool(tool),
    ensures
        went_well(r) ==> goes_on(
            v,
            EventView::Ran(r),
            PipelineView { phase: Phase::ClearingExtract(tool), ..v },
            nothing(),
            ActionView::RemoveDir(joined(v.target.os, v.temp_dir, "dmg-extract"@)),
        ),
        !went_well(r) ==> (match tool {
            SevenZip::Zz => runs(
                v,
                EventView::Ran(r),
                PipelineView { phase: Phase::LookingForTool(SevenZip::Z), ..v },
                nothing(),
                CommandView { program: "which"@, args: seq!["7z"@] },
            ),
            SevenZip::Z => runs(
                v,
                EventView::Ran(r),
                PipelineView { phase: Phase::LookingForTool(SevenZip::Za), ..v },
                nothing(),
                CommandView { program: "which"@, args: seq!["7za"@] },
            ),
            SevenZip::Za => falls_through(
                v,
                EventView::Ran(r),
                nothing(),
                "no 7-Zip binary (7zz/7z/7za) is installed to extract the disk image without mounting it  -  install one with `brew install sevenzip` (or `brew install p7zip`) and try again"@,
            ),
        }),
{
}

/// Whatever comes of removing an earlier extraction, the directory is made.
pub proof fn the_image_is_extracted_to_a_fresh_directory(
    v: PipelineView,
    tool: SevenZip,
    r: Result<(), IoFailureView>,
)
    requires
        v.phase == Phase::ClearingExtract(tool),
    ensures
        goes_on(
            v,
            EventView::Done(r),
            PipelineView { phase: Phase::MakingExtract(tool), ..v },
            nothing(),
            ActionView::CreateDir(joined(v.target.os, v.temp_dir, "dmg-extract"@)),
        ),
{
}

/// The download is extracted by the tool that was found, into that directory.
pub proof fn the_image_is_extracted_by_the_tool(
    v: PipelineView,
    tool: SevenZip,
    failure: IoFailureView,
)
    requires
        v.phase == Phase::MakingExtract(tool),
    ensures
        runs(
            v,
            EventView::Done(Ok(())),
            PipelineView { phase: Phase::Extracting(tool), ..v },
            seq![tells("Extracting disk image contents (7-Zip)..."@)],
            CommandView {
                program: (match tool {
                    SevenZip::Zz => "7zz"@,
                    SevenZip::Z => "7z"@,
                    SevenZip::Za => "7za"@,
                }),
                args: seq![
                    "x"@,
                    v.archive,
                    "-o"@ + joined(v.target.os, v.temp_dir, "dmg-extract"@),
                    "-y"@,
                ],
            },
        ),
        falls_through(v, EventView::Done(Err(failure)), nothing(), failure.message),
{
}

/// Only when the extraction has ended well is the bundle looked for, in what was
/// extracted.
pub proof fn the_extraction_has_to_end_well(
    v: PipelineView,
    tool: SevenZip,
    exit: ExitView,
    failure: RunFailureView,
)
    requires
        v.phase == Phase::Extracting(tool),
    ensures
        ({
            let name = match tool {
                SevenZip::Zz => "7zz"@,
                SevenZip::Z => "7z"@,
                SevenZip::Za => "7za"@,
            };
            &&& exit.success ==> goes_on(
                v,
                EventView::Ran(Ok(exit)),
                PipelineView { phase: Phase::FindingBundle, ..v },
                seq![tells("Locating application bundle..."@)],
                ActionView::FindBundle { root: joined(v.target.os, v.temp_dir, "dmg-extract"@) },
            )
            &&& !exit.success ==> falls_through(
                v,
                EventView::Ran(Ok(exit)),
                nothing(),
                name + " could not extract the disk image"@,
            )
            &&& falls_through(
                v,
                EventView::Ran(Err(failure)),
                nothing(),
                "failed to run "@ + name + ": "@ + failure.message,
            )
        }),
{
}

/// The bundle that was found is copied to the install directory, under its own
/// name.
pub proof fn the_extracted_bundle_is_copied(v: PipelineView, path: Seq<char>)
    requires
        v.phase == Phase::FindingBundle,
    ensures
        begins_copy(
            v,
            EventView::Found(Some(path)),
            Route::Extracted,
            path,
            joined(v.target.os, v.install_dir, last_part(path)),
        ),
        falls_through(
            v,
            EventView::Found(None),
            nothing(),
            "no .app bundle found inside the extracted disk image"@,
        ),
{
}

/// Whatever comes of removing what was extracted, the bundle is reported as
/// installed where it was copied to.
pub proof fn the_copied_bundle_is_reported(v: PipelineView, r: Result<(), IoFailureView>)
    requires
        v.phase == Phase::RemovingExtract,
    ensures
        succeeds(v, EventView::Done(r), v.dest),
{
}

// ---------------------------------------------------------------------
// What an install waits for
// ---------------------------------------------------------------------

/// An install takes what comes of the action that it has asked for, however that
/// went, and nothing else: it neither gets stuck nor is it led astray.
#[verifier::spinoff_prover]
pub proof fn what_is_waited_for_is_taken(v: PipelineView, e: EventView)
    ensures
        next_move(v, e) is Some <==> (match v.phase {
            Phase::Starting => e is Started,
            Phase::Fetching => e is Release,
            Phase::Confirming => e is Answered,
            Phase::Hashing => e is Digest,
            Phase::LookingForBundle(_) => e is PathExists,
            Phase::MakingTempDir | Phase::Downloading | Phase::CheckingSignature | Phase::Pausing(
                _,
            ) | Phase::MakingBundleDir(_) | Phase::RemovingBundle(_) | Phase::ClearingExtract(_)
            | Phase::MakingExtract(_) | Phase::RemovingExtract | Phase::MakingUnpackDir
            | Phase::MarkingLauncher | Phase::MakingInstallerDir | Phase::CleaningUp => e is Done,
            Phase::DetachingStale | Phase::Attaching(_) | Phase::CopyingAsRoot(_)
            | Phase::CopyingBundle(_) | Phase::AskingAdministrator(_) | Phase::Detaching(_)
            | Phase::LookingForTool(_) | Phase::Extracting(_) | Phase::UnpackingAsRoot
            | Phase::Unpacking | Phase::RunningInstaller => e is Ran,
            Phase::ListingStale | Phase::ListingBefore(_) | Phase::ListingAfter(_)
            | Phase::ListingImage => e is Listed,
            Phase::FindingBundle | Phase::FindingLauncher | Phase::FindingFirefox
            | Phase::FindingTorBrowser => e is Found,
            Phase::Finished => false,
        }),
{
}

} // verus!
