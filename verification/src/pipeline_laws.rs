//! What holds of every install, whatever the network, the file system, the
//! commands and the person do.

use vstd::prelude::*;
use crate::builder::{polled, BuilderView};
use crate::commands::{
    cp_outcome, launch_view, shown_command, shown_sudo, sudo_view, unpack_command_text,
    CommandView, CopyOutcomeView, ExitView, RunFailureView,
};
use crate::events::{
    ActionView, Answer, EventView, IoFailureView, Phase, Route, SevenZip, StepView,
};
use crate::pipeline::{
    administrator_asked, answered, attached, bundle_dir_made, bundle_found, bundle_looked_for,
    bundle_removed, cleaned_up, copied_as_root, copied_plainly, detach_command, detached,
    downloaded, extract_cleared, extract_made, extracted, firefox_found, first_bundle, hashed,
    image_listed, installer_dir_made, installer_ran, launcher_found, listed_after, listed_before,
    next_move, on_done, on_found, on_listed, on_ran, paused, put_in_place, release_fetched,
    signature_checked, stale_listed, started, temp_dir_made, to_detach_stale, tool_looked_for,
    tor_browser_found, unpack_dir_made, unpacked, unpacked_as_root, Move, Notes, PipelineView,
    MAX_ATTEMPTS,
};
use crate::platform::{joined, last_part, InstallScope, Os};
use crate::release::ReleaseView;
use crate::states::{is_outcome, is_success, AppStateView, WorkerEventView};
use crate::text::same_but_for_ascii_case;

verus! {

// ---------------------------------------------------------------------
// What a step keeps
// ---------------------------------------------------------------------

/// A command is shown by the last line reported before it is run. Only a `sudo`
/// command gets anything on its standard input, and that is the password.
pub open spec fn is_announced(v: PipelineView, step: StepView) -> bool {
    match step.action {
        ActionView::Run { command, stdin } => {
            &&& step.notes.len() > 0
            &&& match stdin {
                None => step.notes.last() == WorkerEventView::Log(shown_command(command)),
                Some(text) => exists|shell_cmd: Seq<char>|
                    {
                        &&& command == #[trigger] sudo_view(shell_cmd)
                        &&& step.notes.last() == WorkerEventView::Log(shown_sudo(shell_cmd))
                        &&& text == v.password + "\n"@
                    },
            }
        },
        _ => true,
    }
}

/// How far an install is from its end.
pub open spec fn distance(phase: Phase) -> int {
    match phase {
        Phase::Starting => 60,
        Phase::Fetching => 59,
        Phase::Confirming => 58,
        Phase::MakingTempDir => 57,
        Phase::Downloading => 56,
        Phase::Hashing => 55,
        Phase::CheckingSignature => 54,
        Phase::ListingStale => 53,
        Phase::DetachingStale => 52,
        Phase::Pausing(n) => 47 - 4 * n,
        Phase::ListingBefore(n) => 46 - 4 * n,
        Phase::Attaching(n) => 45 - 4 * n,
        Phase::ListingAfter(n) => 44 - 4 * n,
        Phase::LookingForTool(tool) => match tool {
            SevenZip::Zz => 24,
            SevenZip::Z => 23,
            SevenZip::Za => 22,
        },
        Phase::ClearingExtract(_) => 21,
        Phase::MakingExtract(_) => 20,
        Phase::Extracting(_) => 19,
        Phase::FindingBundle => 18,
        Phase::ListingImage => 15,
        Phase::MakingBundleDir(_) => 14,
        Phase::LookingForBundle(_) => 13,
        Phase::RemovingBundle(_) => 12,
        Phase::CopyingBundle(_) => 11,
        Phase::CopyingAsRoot(_) => 10,
        Phase::AskingAdministrator(_) => 10,
        Phase::Detaching(_) => 5,
        Phase::RemovingExtract => 5,
        Phase::UnpackingAsRoot => 20,
        Phase::MakingUnpackDir => 20,
        Phase::Unpacking => 19,
        Phase::FindingLauncher => 18,
        Phase::MarkingLauncher => 17,
        Phase::MakingInstallerDir => 20,
        Phase::RunningInstaller => 19,
        Phase::FindingFirefox => 18,
        Phase::FindingTorBrowser => 17,
        Phase::CleaningUp => 1,
        Phase::Finished => 0,
    }
}

/// An attempt to attach is one of those that are made.
pub open spec fn is_counted(phase: Phase) -> bool {
    match phase {
        Phase::Pausing(n) => 2 <= n <= MAX_ATTEMPTS,
        Phase::ListingBefore(n) => 1 <= n <= MAX_ATTEMPTS,
        Phase::Attaching(n) => 1 <= n <= MAX_ATTEMPTS,
        Phase::ListingAfter(n) => 1 <= n <= MAX_ATTEMPTS,
        _ => true,
    }
}

/// The second state is nearer to the end: in the order of how far it is, and
/// then of how many volumes are left to detach.
pub open spec fn is_nearer(v: PipelineView, w: PipelineView) -> bool {
    ||| 0 <= distance(w.phase) < distance(v.phase)
    ||| distance(w.phase) == distance(v.phase) && w.stale.len() < v.stale.len()
}

/// Nothing has been done to this machine yet but to download and to verify.
pub open spec fn is_preparing(phase: Phase) -> bool {
    match phase {
        Phase::Starting | Phase::Fetching | Phase::Confirming | Phase::MakingTempDir
        | Phase::Downloading | Phase::Hashing | Phase::CheckingSignature => true,
        _ => false,
    }
}

/// The release is being installed.
pub open spec fn is_installing(phase: Phase) -> bool {
    !is_preparing(phase) && phase != Phase::CleaningUp && phase != Phase::Finished
}

/// The checksum of the download matches that of the release.
pub open spec fn is_matching(v: PipelineView, e: EventView) -> bool {
    &&& v.phase == Phase::Hashing
    &&& e matches EventView::Digest(Ok(actual))
    &&& v.sha256 matches Some(expected)
    &&& same_but_for_ascii_case(actual, expected)
}

/// The download has ended well.
pub open spec fn is_downloaded(v: PipelineView, e: EventView) -> bool {
    v.phase == Phase::Downloading && (e matches EventView::Done(Ok(_)))
}

/// The signature of the download is good.
pub open spec fn is_signed(v: PipelineView, e: EventView) -> bool {
    v.phase == Phase::CheckingSignature && (e matches EventView::Done(Ok(_)))
}

/// The person has agreed to the install.
pub open spec fn is_agreed(v: PipelineView, e: EventView) -> bool {
    v.phase == Phase::Confirming && e == EventView::Answered(Answer::Proceed)
}

/// The step keeps what the install was asked for, and, once the release is
/// known, what the release says.
pub open spec fn keeps_request(v: PipelineView, w: PipelineView) -> bool {
    &&& w.target == v.target
    &&& w.scope == v.scope
    &&& w.install_dir == v.install_dir
    &&& w.password == v.password
    &&& w.temp_dir == v.temp_dir
    &&& v.phase != Phase::Fetching ==> {
        &&& w.binary_url == v.binary_url
        &&& w.sha256 == v.sha256
        &&& w.sig_url == v.sig_url
        &&& w.archive == v.archive
    }
}

/// The last check that the release allows has been passed.
pub open spec fn is_passing(v: PipelineView, e: EventView) -> bool {
    ||| is_signed(v, e)
    ||| v.sig_url is None && is_matching(v, e)
    ||| v.sig_url is None && v.sha256 is None && is_downloaded(v, e)
}

/// The phases that can follow one another before the install itself, and on
/// what.
pub open spec fn follows(v: PipelineView, e: EventView, next: Phase) -> bool {
    &&& next == Phase::Confirming ==> v.phase == Phase::Fetching
    &&& next == Phase::MakingTempDir ==> is_agreed(v, e)
    &&& next == Phase::Downloading ==> v.phase == Phase::MakingTempDir
    &&& next == Phase::Hashing ==> is_downloaded(v, e) && v.sha256 is Some
    &&& next == Phase::CheckingSignature ==> {
        &&& v.sig_url is Some
        &&& is_matching(v, e) || (is_downloaded(v, e) && v.sha256 is None)
    }
    &&& is_installing(next) && !is_installing(v.phase) ==> is_passing(v, e)
}

/// A checksum is only compared where the release has one.
pub open spec fn is_due(v: PipelineView) -> bool {
    v.phase == Phase::Hashing ==> v.sha256 is Some
}

/// There is no download yet.
pub open spec fn has_nothing(phase: Phase) -> bool {
    match phase {
        Phase::Starting | Phase::Fetching | Phase::Confirming | Phase::MakingTempDir
        | Phase::Downloading => true,
        _ => false,
    }
}

/// The outcome is reported once, by the last report of a step, and then the
/// archive is removed.
pub open spec fn tells_outcome(v: PipelineView, e: EventView, m: Move) -> bool {
    let notes = m.step.notes;
    let ends = notes.len() > 0 && is_outcome(notes.last());
    &&& forall|i: int| 0 <= i < notes.len() - 1 ==> !is_outcome(#[trigger] notes[i])
    &&& ends <==> {
        ||| m.now.phase == Phase::CleaningUp
        ||| m.now.phase == Phase::Finished && v.phase != Phase::CleaningUp && e
            != EventView::Answered(Answer::Cancel)
    }
    &&& ends && is_success(notes.last()) ==> is_installing(v.phase)
    &&& m.now.phase == Phase::CleaningUp ==> m.step.action == ActionView::RemoveFile(v.archive)
    &&& m.now.phase == Phase::Finished ==> has_nothing(v.phase) || v.phase == Phase::CleaningUp
    &&& !has_nothing(v.phase) ==> !has_nothing(m.now.phase)
    &&& is_downloaded(v, e) ==> !has_nothing(m.now.phase) && m.now.phase != Phase::Finished
}

/// The action attaches a disk image.
pub open spec fn is_attach(action: ActionView) -> bool {
    &&& action matches ActionView::Run { command, .. }
    &&& command.args.len() == 4
    &&& command.args[0] == "attach"@
}

/// How often a disk image can have been attached when a phase is reached.
pub open spec fn most_attempts(phase: Phase) -> int {
    match phase {
        Phase::Pausing(n) => n - 1,
        Phase::ListingBefore(n) => n - 1,
        Phase::Attaching(n) => n as int,
        Phase::ListingAfter(n) => n as int,
        Phase::ListingStale | Phase::DetachingStale => 0,
        _ => if is_preparing(phase) {
            0
        } else {
            MAX_ATTEMPTS as int
        },
    }
}

/// An app bundle is being copied off a mounted disk image.
pub open spec fn is_mounted(phase: Phase) -> bool {
    match phase {
        Phase::CopyingAsRoot(Route::Mounted) => true,
        Phase::MakingBundleDir(Route::Mounted) => true,
        Phase::LookingForBundle(Route::Mounted) => true,
        Phase::RemovingBundle(Route::Mounted) => true,
        Phase::CopyingBundle(Route::Mounted) => true,
        Phase::AskingAdministrator(Route::Mounted) => true,
        _ => false,
    }
}

/// While an app bundle is copied, the image stays mounted until it is detached.
pub open spec fn keeps_image(v: PipelineView, m: Move) -> bool {
    is_mounted(v.phase) ==> {
        ||| is_mounted(m.now.phase) && m.now.mount_point == v.mount_point
        ||| m.now.phase is Detaching && m.step.action == (ActionView::Run {
            command: detach_command(v.mount_point),
            stdin: None,
        })
    }
}

/// What is done with the rights of the person's own account belongs to an
/// install for that account, and what is done by `sudo` to one for all users.
pub open spec fn fits_scope(scope: InstallScope, phase: Phase) -> bool {
    match phase {
        Phase::MakingBundleDir(_) | Phase::LookingForBundle(_) | Phase::RemovingBundle(_)
        | Phase::CopyingBundle(_) | Phase::AskingAdministrator(_) | Phase::MakingUnpackDir
        | Phase::Unpacking | Phase::MarkingLauncher => scope == InstallScope::User,
        Phase::CopyingAsRoot(_) | Phase::UnpackingAsRoot => scope == InstallScope::Global,
        _ => true,
    }
}

/// Something was refused for want of permission.
pub open spec fn was_refused(e: EventView) -> bool {
    match e {
        EventView::Done(Err(failure)) => failure.permission_denied,
        EventView::Ran(r) => cp_outcome(r) == CopyOutcomeView::PermissionDenied,
        _ => false,
    }
}

/// What a reported state means in the course of an install.
pub enum Milestone {
    Confirm,
    Download,
    Verify,
    VerifySignature,
    Install,
    /// `Complete` or `Error`.
    End,
    /// A state that the worker does not report.
    Other,
}

pub open spec fn milestone(state: AppStateView) -> Milestone {
    match state {
        AppStateView::ConfirmInstall { .. } => Milestone::Confirm,
        AppStateView::Downloading { .. } => Milestone::Download,
        AppStateView::Verifying => Milestone::Verify,
        AppStateView::VerifyingSignature => Milestone::VerifySignature,
        AppStateView::Installing { .. } => Milestone::Install,
        AppStateView::Complete { .. } => Milestone::End,
        AppStateView::Error(_) => Milestone::End,
        _ => Milestone::Other,
    }
}

/// The milestones among some reports, in order.
pub open spec fn milestones(notes: Notes) -> Seq<Milestone>
    decreases notes.len(),
{
    if notes.len() == 0 {
        Seq::<Milestone>::empty()
    } else {
        match notes.last() {
            WorkerEventView::State(s) => milestones(notes.drop_last()).push(milestone(s)),
            WorkerEventView::Log(_) => milestones(notes.drop_last()),
        }
    }
}

broadcast proof fn milestones_of_more(notes: Notes, note: WorkerEventView)
    ensures
        #[trigger] milestones(notes.push(note)) == (match note {
            WorkerEventView::State(s) => milestones(notes).push(milestone(s)),
            WorkerEventView::Log(_) => milestones(notes),
        }),
{
    assert(notes.push(note).drop_last() =~= notes);
}

/// The milestones that a step reports, by where it leads.
pub open spec fn keeps_course(v: PipelineView, e: EventView, m: Move) -> bool {
    let told = milestones(m.step.notes);
    match m.now.phase {
        Phase::Starting | Phase::Fetching | Phase::MakingTempDir => told =~= Seq::<
            Milestone,
        >::empty(),
        Phase::Confirming => told =~= seq![Milestone::Confirm],
        Phase::Downloading => told =~= seq![Milestone::Download],
        Phase::Hashing => told =~= seq![Milestone::Verify],
        Phase::CheckingSignature => told =~= seq![Milestone::VerifySignature],
        Phase::CleaningUp => {
            ||| told =~= seq![Milestone::End]
            ||| told =~= seq![Milestone::Install, Milestone::End] && is_passing(v, e)
        },
        Phase::Finished => if v.phase == Phase::CleaningUp || e == EventView::Answered(
            Answer::Cancel,
        ) {
            told =~= Seq::<Milestone>::empty()
        } else {
            told =~= seq![Milestone::End]
        },
        _ => {
            &&& forall|i: int| 0 <= i < told.len() ==> (#[trigger] told[i]) == Milestone::Install
            &&& is_installing(v.phase) || told.len() > 0
        },
    }
}

/// The path that the install routine gives, where it ends well.
pub open spec fn given_path(v: PipelineView, e: EventView) -> Option<Seq<char>> {
    match (v.phase, e) {
        (Phase::Detaching(true), EventView::Ran(_)) => Some(v.dest),
        (Phase::RemovingExtract, EventView::Done(_)) => Some(v.dest),
        (Phase::MarkingLauncher, EventView::Done(_)) => Some(v.dest),
        (Phase::FindingLauncher, EventView::Found(found)) => if v.scope == InstallScope::Global {
            found
        } else {
            None
        },
        (Phase::FindingFirefox, EventView::Found(found)) => found,
        (Phase::FindingTorBrowser, EventView::Found(found)) => found,
        _ => None,
    }
}

/// The report that Tor Browser is installed at a path.
pub open spec fn success_at(path: Seq<char>) -> WorkerEventView {
    WorkerEventView::State(AppStateView::Complete { app_path: path })
}

/// Success is reported where the install routine ends well, with the path that
/// it gives, and nowhere else.
pub open spec fn tells_success(v: PipelineView, e: EventView, m: Move) -> bool {
    let notes = m.step.notes;
    match given_path(v, e) {
        Some(path) => notes.len() > 0 && notes.last() == success_at(path),
        None => notes.len() > 0 ==> !is_success(notes.last()),
    }
}

/// The command that copies, unpacks or installs has ended well.
pub open spec fn is_well_done(v: PipelineView, e: EventView) -> bool {
    &&& match v.phase {
        Phase::CopyingAsRoot(_) | Phase::CopyingBundle(_) | Phase::AskingAdministrator(_)
        | Phase::UnpackingAsRoot | Phase::Unpacking | Phase::RunningInstaller => true,
        _ => false,
    }
    &&& e matches EventView::Ran(Ok(exit))
    &&& exit.success
}

/// That command has ended well before.
pub open spec fn is_worked(phase: Phase) -> bool {
    match phase {
        Phase::Detaching(copied) => copied,
        Phase::RemovingExtract | Phase::FindingLauncher | Phase::MarkingLauncher
        | Phase::FindingFirefox | Phase::FindingTorBrowser => true,
        _ => false,
    }
}

/// The event says where Tor Browser is, or is to be: in the install directory
/// under the name of its bundle, or where its launcher was found.
pub open spec fn names_path(v: PipelineView, e: EventView, path: Seq<char>) -> bool {
    match (v.phase, e) {
        (Phase::ListingImage, EventView::Listed(Ok(names))) => {
            &&& first_bundle(names) matches Some(name)
            &&& path == joined(v.target.os, v.install_dir, name)
        },
        (Phase::FindingBundle, EventView::Found(Some(bundle))) => path == joined(
            v.target.os,
            v.install_dir,
            last_part(bundle),
        ),
        (Phase::FindingLauncher, EventView::Found(found)) => found == Some(path),
        (Phase::FindingFirefox, EventView::Found(found)) => found == Some(path),
        (Phase::FindingTorBrowser, EventView::Found(found)) => found == Some(path),
        _ => false,
    }
}

/// The path of Tor Browser is known.
pub open spec fn has_path(phase: Phase) -> bool {
    match phase {
        Phase::CopyingAsRoot(_) | Phase::MakingBundleDir(_) | Phase::LookingForBundle(_)
        | Phase::RemovingBundle(_) | Phase::CopyingBundle(_) | Phase::AskingAdministrator(_)
        | Phase::RemovingExtract | Phase::MarkingLauncher => true,
        Phase::Detaching(copied) => copied,
        _ => false,
    }
}

/// The path of Tor Browser comes from an event and then stays; it is given only
/// after the work was done.
pub open spec fn keeps_path(v: PipelineView, e: EventView, m: Move) -> bool {
    &&& is_worked(m.now.phase) ==> is_worked(v.phase) || is_well_done(v, e)
    &&& has_path(m.now.phase) ==> {
        ||| has_path(v.phase) && m.now.dest == v.dest
        ||| names_path(v, e, m.now.dest)
    }
    &&& given_path(v, e) matches Some(path) ==> {
        &&& is_worked(v.phase)
        &&& has_path(v.phase) && path == v.dest || names_path(v, e, path)
    }
}

/// The phases of an install belong to the system that it is for.
pub open spec fn fits_platform(os: Os, phase: Phase) -> bool {
    match phase {
        Phase::Starting | Phase::Fetching | Phase::Confirming | Phase::MakingTempDir
        | Phase::Downloading | Phase::Hashing | Phase::CheckingSignature | Phase::CleaningUp
        | Phase::Finished => true,
        Phase::UnpackingAsRoot | Phase::MakingUnpackDir | Phase::Unpacking
        | Phase::FindingLauncher | Phase::MarkingLauncher => os == Os::Linux,
        Phase::MakingInstallerDir | Phase::RunningInstaller | Phase::FindingFirefox
        | Phase::FindingTorBrowser => os == Os::Windows,
        _ => os == Os::MacOs,
    }
}

/// What is downloaded, hashed, verified and run is the release that the person was
/// shown, and nothing is run on Linux and Windows but what unpacks and installs
/// it.
pub open spec fn is_to_the_point(v: PipelineView, m: Move) -> bool {
    let now = m.now;
    &&& fits_platform(v.target.os, v.phase) ==> fits_platform(now.target.os, now.phase)
    &&& now.phase == Phase::Confirming ==> v.phase == Phase::Fetching && exists|version: Seq<char>|
        m.step.notes.last() == #[trigger] shown_release(now, version) && m.step.notes.len() > 0
    &&& now.phase == Phase::Downloading ==> m.step.action is Download
    &&& match m.step.action {
        ActionView::Download { url, dest } => {
            &&& now.phase == Phase::Downloading
            &&& url == now.binary_url
            &&& dest == now.archive
        },
        ActionView::HashFile(path) => now.phase == Phase::Hashing && path == now.archive,
        ActionView::VerifySignature { path, sig_url } => {
            &&& now.phase == Phase::CheckingSignature
            &&& path == now.archive
            &&& Some(sig_url) == now.sig_url
        },
        ActionView::Run { command, stdin } => match now.phase {
            Phase::RunningInstaller => {
                &&& command.program == now.archive
                &&& command.args =~= seq!["/S"@, "/D="@ + now.install_dir]
                &&& stdin is None
            },
            Phase::Unpacking => {
                &&& command.program == "tar"@
                &&& command.args =~= seq!["-xJf"@, now.archive, "-C"@, now.install_dir]
                &&& stdin is None
                &&& now.scope == InstallScope::User || !fits_scope(v.scope, v.phase)
            },
            Phase::UnpackingAsRoot => {
                &&& command == sudo_view(unpack_command_text(now.install_dir, now.archive))
                &&& stdin == Some(now.password + "\n"@)
                &&& now.scope == InstallScope::Global
            },
            _ => fits_platform(Os::MacOs, now.phase) && !fits_platform(Os::Linux, now.phase),
        },
        _ => true,
    }
}

/// The report that asks the person about the release of an install.
pub open spec fn shown_release(now: PipelineView, version: Seq<char>) -> WorkerEventView {
    WorkerEventView::State(
        AppStateView::ConfirmInstall {
            version,
            binary_url: now.binary_url,
            sha256: now.sha256,
            sig_url: now.sig_url,
        },
    )
}

/// What every step of the pipeline keeps.
#[verifier::opaque]
pub open spec fn is_sound(v: PipelineView, e: EventView, m: Move) -> bool {
    &&& keeps_request(v, m.now)
    &&& is_to_the_point(v, m)
    &&& is_announced(v, m.step)
    &&& tells_outcome(v, e, m)
    &&& tells_success(v, e, m)
    &&& is_due(v) ==> keeps_course(v, e, m)
    &&& keeps_path(v, e, m)
    &&& keeps_image(v, m)
    &&& is_counted(v.phase) ==> {
        &&& is_counted(m.now.phase)
        &&& is_nearer(v, m.now)
        &&& most_attempts(v.phase) + (if is_attach(m.step.action) {
            1int
        } else {
            0int
        }) <= most_attempts(m.now.phase)
    }
    &&& fits_scope(v.scope, v.phase) ==> fits_scope(m.now.scope, m.now.phase)
    &&& m.now.phase is AskingAdministrator ==> was_refused(e)
    &&& m.step.action is Finish <==> m.now.phase == Phase::Finished
    &&& m.step.action is Run ==> is_installing(m.now.phase)
    &&& is_due(v) ==> is_due(m.now) && follows(v, e, m.now.phase)
}

/// The same but for the password.
pub open spec fn same_but_for_password(v: PipelineView, w: PipelineView) -> bool {
    w == (PipelineView { password: w.password, ..v })
}

/// The same but for what goes to the standard input of a command.
pub open spec fn same_but_for_input(a: ActionView, b: ActionView) -> bool {
    match (a, b) {
        (ActionView::Run { command: c, .. }, ActionView::Run { command: d, .. }) => c == d,
        _ => a == b,
    }
}

/// The steps report the same and ask for the same, whatever the password is.
#[verifier::opaque]
pub open spec fn hides_password(m: Move, n: Move) -> bool {
    &&& m.step.notes == n.step.notes
    &&& same_but_for_input(m.step.action, n.step.action)
    &&& same_but_for_password(m.now, n.now)
}

// ---------------------------------------------------------------------
// Every step keeps it
// ---------------------------------------------------------------------

proof fn sound_started(v: PipelineView, w: PipelineView)
    requires
        v.phase == Phase::Starting,
        same_but_for_password(v, w),
    ensures
        is_sound(v, EventView::Started, started(v)),
        hides_password(started(v), started(w)),
{
    broadcast use milestones_of_more;

    reveal(is_sound);
    reveal(hides_password);
}

proof fn sound_release_fetched(
    v: PipelineView,
    w: PipelineView,
    r: Result<ReleaseView, Seq<char>>,
)
    requires
        v.phase == Phase::Fetching,
        same_but_for_password(v, w),
    ensures
        is_sound(v, EventView::Release(r), release_fetched(v, r)),
        hides_password(release_fetched(v, r), release_fetched(w, r)),
{
    broadcast use milestones_of_more;

    reveal(is_sound);
    reveal(hides_password);
    if let Ok(release) = r {
        let m = release_fetched(v, r);
        assert(m.step.notes.last() == shown_release(m.now, release.version));
    }
}

proof fn sound_answered(v: PipelineView, w: PipelineView, a: Answer)
    requires
        v.phase == Phase::Confirming,
        same_but_for_password(v, w),
    ensures
        is_sound(v, EventView::Answered(a), answered(v, a)),
        hides_password(answered(v, a), answered(w, a)),
{
    broadcast use milestones_of_more;

    reveal(is_sound);
    reveal(hides_password);
}

proof fn sound_hashed(v: PipelineView, w: PipelineView, r: Result<Seq<char>, Seq<char>>)
    requires
        v.phase == Phase::Hashing,
        same_but_for_password(v, w),
    ensures
        is_sound(v, EventView::Digest(r), hashed(v, r)),
        hides_password(hashed(v, r), hashed(w, r)),
{
    broadcast use milestones_of_more;

    reveal(is_sound);
    reveal(hides_password);
}

proof fn sound_bundle_looked_for(v: PipelineView, w: PipelineView, route: Route, b: bool)
    requires
        v.phase == Phase::LookingForBundle(route),
        same_but_for_password(v, w),
    ensures
        is_sound(v, EventView::PathExists(b), bundle_looked_for(v, route, b)),
        hides_password(bundle_looked_for(v, route, b), bundle_looked_for(w, route, b)),
{
    broadcast use milestones_of_more;

    reveal(is_sound);
    reveal(hides_password);
}

proof fn sound_temp_dir_made(v: PipelineView, w: PipelineView, r: Result<(), IoFailureView>)
    requires
        v.phase == Phase::MakingTempDir,
        same_but_for_password(v, w),
    ensures
        is_sound(v, EventView::Done(r), temp_dir_made(v, r)),
        hides_password(temp_dir_made(v, r), temp_dir_made(w, r)),
{
    broadcast use milestones_of_more;

    reveal(is_sound);
    reveal(hides_password);
}

proof fn sound_downloaded(v: PipelineView, w: PipelineView, r: Result<(), IoFailureView>)
    requires
        v.phase == Phase::Downloading,
        same_but_for_password(v, w),
    ensures
        is_sound(v, EventView::Done(r), downloaded(v, r)),
        hides_password(downloaded(v, r), downloaded(w, r)),
{
    broadcast use milestones_of_more;

    reveal(is_sound);
    reveal(hides_password);
}

proof fn sound_signature_checked(v: PipelineView, w: PipelineView, r: Result<(), IoFailureView>)
    requires
        v.phase == Phase::CheckingSignature,
        same_but_for_password(v, w),
    ensures
        is_sound(v, EventView::Done(r), signature_checked(v, r)),
        hides_password(signature_checked(v, r), signature_checked(w, r)),
{
    broadcast use milestones_of_more;

    reveal(is_sound);
    reveal(hides_password);
}

proof fn sound_paused(v: PipelineView, w: PipelineView, n: u8, r: Result<(), IoFailureView>)
    requires
        v.phase == Phase::Pausing(n),
        same_but_for_password(v, w),
    ensures
        is_sound(v, EventView::Done(r), paused(v, n)),
        hides_password(paused(v, n), paused(w, n)),
{
    broadcast use milestones_of_more;

    reveal(is_sound);
    reveal(hides_password);
}

proof fn sound_bundle_dir_made(
    v: PipelineView,
    w: PipelineView,
    route: Route,
    r: Result<(), IoFailureView>,
)
    requires
        v.phase == Phase::MakingBundleDir(route),
        same_but_for_password(v, w),
    ensures
        is_sound(v, EventView::Done(r), bundle_dir_made(v, route, r)),
        hides_password(bundle_dir_made(v, route, r), bundle_dir_made(w, route, r)),
{
    broadcast use milestones_of_more;

    reveal(is_sound);
    reveal(hides_password);
}

proof fn sound_bundle_removed(
    v: PipelineView,
    w: PipelineView,
    route: Route,
    r: Result<(), IoFailureView>,
)
    requires
        v.phase == Phase::RemovingBundle(route),
        same_but_for_password(v, w),
    ensures
        is_sound(v, EventView::Done(r), bundle_removed(v, route, r)),
        hides_password(bundle_removed(v, route, r), bundle_removed(w, route, r)),
{
    broadcast use milestones_of_more;

    reveal(is_sound);
    reveal(hides_password);
}

proof fn sound_extract_cleared(
    v: PipelineView,
    w: PipelineView,
    tool: SevenZip,
    r: Result<(), IoFailureView>,
)
    requires
        v.phase == Phase::ClearingExtract(tool),
        same_but_for_password(v, w),
    ensures
        is_sound(v, EventView::Done(r), extract_cleared(v, tool)),
        hides_password(extract_cleared(v, tool), extract_cleared(w, tool)),
{
    broadcast use milestones_of_more;

    reveal(is_sound);
    reveal(hides_password);
}

proof fn sound_extract_made(
    v: PipelineView,
    w: PipelineView,
    tool: SevenZip,
    r: Result<(), IoFailureView>,
)
    requires
        v.phase == Phase::MakingExtract(tool),
        same_but_for_password(v, w),
    ensures
        is_sound(v, EventView::Done(r), extract_made(v, tool, r)),
        hides_password(extract_made(v, tool, r), extract_made(w, tool, r)),
{
    broadcast use milestones_of_more;

    reveal(is_sound);
    reveal(hides_password);
    reveal_strlit("attach");
    reveal_strlit("x");
    assert("attach"@.len() != "x"@.len());
}

proof fn sound_put_in_place(v: PipelineView, w: PipelineView, r: Result<(), IoFailureView>)
    requires
        v.phase == Phase::RemovingExtract,
        same_but_for_password(v, w),
    ensures
        is_sound(v, EventView::Done(r), put_in_place(v)),
        hides_password(put_in_place(v), put_in_place(w)),
{
    broadcast use milestones_of_more;

    reveal(is_sound);
    reveal(hides_password);
}

proof fn sound_unpack_dir_made(v: PipelineView, w: PipelineView, r: Result<(), IoFailureView>)
    requires
        v.phase == Phase::MakingUnpackDir,
        same_but_for_password(v, w),
    ensures
        is_sound(v, EventView::Done(r), unpack_dir_made(v, r)),
        hides_password(unpack_dir_made(v, r), unpack_dir_made(w, r)),
{
    broadcast use milestones_of_more;

    reveal(is_sound);
    reveal(hides_password);
    reveal_strlit("attach");
    reveal_strlit("-xJf");
    assert("attach"@.len() != "-xJf"@.len());
}

proof fn sound_marked(v: PipelineView, w: PipelineView, r: Result<(), IoFailureView>)
    requires
        v.phase == Phase::MarkingLauncher,
        same_but_for_password(v, w),
    ensures
        is_sound(v, EventView::Done(r), put_in_place(v)),
        hides_password(put_in_place(v), put_in_place(w)),
{
    broadcast use milestones_of_more;

    reveal(is_sound);
    reveal(hides_password);
}

proof fn sound_installer_dir_made(v: PipelineView, w: PipelineView, r: Result<(), IoFailureView>)
    requires
        v.phase == Phase::MakingInstallerDir,
        same_but_for_password(v, w),
    ensures
        is_sound(v, EventView::Done(r), installer_dir_made(v, r)),
        hides_password(installer_dir_made(v, r), installer_dir_made(w, r)),
{
    broadcast use milestones_of_more;

    reveal(is_sound);
    reveal(hides_password);
}

proof fn sound_cleaned_up(v: PipelineView, w: PipelineView, r: Result<(), IoFailureView>)
    requires
        v.phase == Phase::CleaningUp,
        same_but_for_password(v, w),
    ensures
        is_sound(v, EventView::Done(r), cleaned_up(v)),
        hides_password(cleaned_up(v), cleaned_up(w)),
{
    broadcast use milestones_of_more;

    reveal(is_sound);
    reveal(hides_password);
}

proof fn sound_to_detach_stale(
    v: PipelineView,
    w: PipelineView,
    r: Result<ExitView, RunFailureView>,
)
    requires
        v.phase == Phase::DetachingStale,
        same_but_for_password(v, w),
    ensures
        is_sound(v, EventView::Ran(r), to_detach_stale(v)),
        hides_password(to_detach_stale(v), to_detach_stale(w)),
{
    broadcast use milestones_of_more;

    reveal(is_sound);
    reveal(hides_password);
}

proof fn sound_attached(
    v: PipelineView,
    w: PipelineView,
    n: u8,
    r: Result<ExitView, RunFailureView>,
)
    requires
        v.phase == Phase::Attaching(n),
        same_but_for_password(v, w),
    ensures
        is_sound(v, EventView::Ran(r), attached(v, n, r)),
        hides_password(attached(v, n, r), attached(w, n, r)),
{
    broadcast use milestones_of_more;

    reveal(is_sound);
    reveal(hides_password);
}

proof fn sound_copied_as_root(
    v: PipelineView,
    w: PipelineView,
    route: Route,
    r: Result<ExitView, RunFailureView>,
)
    requires
        v.phase == Phase::CopyingAsRoot(route),
        same_but_for_password(v, w),
    ensures
        is_sound(v, EventView::Ran(r), copied_as_root(v, route, r)),
        hides_password(copied_as_root(v, route, r), copied_as_root(w, route, r)),
{
    broadcast use milestones_of_more;

    reveal(is_sound);
    reveal(hides_password);
}

proof fn sound_copied_plainly(
    v: PipelineView,
    w: PipelineView,
    route: Route,
    r: Result<ExitView, RunFailureView>,
)
    requires
        v.phase == Phase::CopyingBundle(route),
        same_but_for_password(v, w),
    ensures
        is_sound(v, EventView::Ran(r), copied_plainly(v, route, r)),
        hides_password(copied_plainly(v, route, r), copied_plainly(w, route, r)),
{
    broadcast use milestones_of_more;

    reveal(is_sound);
    reveal(hides_password);
}

proof fn sound_administrator_asked(
    v: PipelineView,
    w: PipelineView,
    route: Route,
    r: Result<ExitView, RunFailureView>,
)
    requires
        v.phase == Phase::AskingAdministrator(route),
        same_but_for_password(v, w),
    ensures
        is_sound(v, EventView::Ran(r), administrator_asked(v, route, r)),
        hides_password(administrator_asked(v, route, r), administrator_asked(w, route, r)),
{
    broadcast use milestones_of_more;

    reveal(is_sound);
    reveal(hides_password);
}

proof fn sound_detached(
    v: PipelineView,
    w: PipelineView,
    copied: bool,
    r: Result<ExitView, RunFailureView>,
)
    requires
        v.phase == Phase::Detaching(copied),
        same_but_for_password(v, w),
    ensures
        is_sound(v, EventView::Ran(r), detached(v, copied)),
        hides_password(detached(v, copied), detached(w, copied)),
{
    broadcast use milestones_of_more;

    reveal(is_sound);
    reveal(hides_password);
}

proof fn sound_tool_looked_for(
    v: PipelineView,
    w: PipelineView,
    tool: SevenZip,
    r: Result<ExitView, RunFailureView>,
)
    requires
        v.phase == Phase::LookingForTool(tool),
        same_but_for_password(v, w),
    ensures
        is_sound(v, EventView::Ran(r), tool_looked_for(v, tool, r)),
        hides_password(tool_looked_for(v, tool, r), tool_looked_for(w, tool, r)),
{
    broadcast use milestones_of_more;

    reveal(is_sound);
    reveal(hides_password);
}

proof fn sound_extracted(
    v: PipelineView,
    w: PipelineView,
    tool: SevenZip,
    r: Result<ExitView, RunFailureView>,
)
    requires
        v.phase == Phase::Extracting(tool),
        same_but_for_password(v, w),
    ensures
        is_sound(v, EventView::Ran(r), extracted(v, tool, r)),
        hides_password(extracted(v, tool, r), extracted(w, tool, r)),
{
    broadcast use milestones_of_more;

    reveal(is_sound);
    reveal(hides_password);
}

proof fn sound_unpacked_as_root(
    v: PipelineView,
    w: PipelineView,
    r: Result<ExitView, RunFailureView>,
)
    requires
        v.phase == Phase::UnpackingAsRoot,
        same_but_for_password(v, w),
    ensures
        is_sound(v, EventView::Ran(r), unpacked_as_root(v, r)),
        hides_password(unpacked_as_root(v, r), unpacked_as_root(w, r)),
{
    broadcast use milestones_of_more;

    reveal(is_sound);
    reveal(hides_password);
}

proof fn sound_unpacked(v: PipelineView, w: PipelineView, r: Result<ExitView, RunFailureView>)
    requires
        v.phase == Phase::Unpacking,
        same_but_for_password(v, w),
    ensures
        is_sound(v, EventView::Ran(r), unpacked(v, r)),
        hides_password(unpacked(v, r), unpacked(w, r)),
{
    broadcast use milestones_of_more;

    reveal(is_sound);
    reveal(hides_password);
}

proof fn sound_installer_ran(
    v: PipelineView,
    w: PipelineView,
    r: Result<ExitView, RunFailureView>,
)
    requires
        v.phase == Phase::RunningInstaller,
        same_but_for_password(v, w),
    ensures
        is_sound(v, EventView::Ran(r), installer_ran(v, r)),
        hides_password(installer_ran(v, r), installer_ran(w, r)),
{
    broadcast use milestones_of_more;

    reveal(is_sound);
    reveal(hides_password);
}

proof fn sound_stale_listed(
    v: PipelineView,
    w: PipelineView,
    r: Result<Seq<Seq<char>>, Seq<char>>,
)
    requires
        v.phase == Phase::ListingStale,
        same_but_for_password(v, w),
    ensures
        is_sound(v, EventView::Listed(r), stale_listed(v, r)),
        hides_password(stale_listed(v, r), stale_listed(w, r)),
{
    broadcast use milestones_of_more;

    reveal(is_sound);
    reveal(hides_password);
}

proof fn sound_listed_before(
    v: PipelineView,
    w: PipelineView,
    n: u8,
    r: Result<Seq<Seq<char>>, Seq<char>>,
)
    requires
        v.phase == Phase::ListingBefore(n),
        same_but_for_password(v, w),
    ensures
        is_sound(v, EventView::Listed(r), listed_before(v, n, r)),
        hides_password(listed_before(v, n, r), listed_before(w, n, r)),
{
    broadcast use milestones_of_more;

    reveal(is_sound);
    reveal(hides_password);
}

proof fn sound_listed_after(
    v: PipelineView,
    w: PipelineView,
    n: u8,
    r: Result<Seq<Seq<char>>, Seq<char>>,
)
    requires
        v.phase == Phase::ListingAfter(n),
        same_but_for_password(v, w),
    ensures
        is_sound(v, EventView::Listed(r), listed_after(v, n, r)),
        hides_password(listed_after(v, n, r), listed_after(w, n, r)),
{
    broadcast use milestones_of_more;

    reveal(is_sound);
    reveal(hides_password);
}

proof fn sound_image_listed(
    v: PipelineView,
    w: PipelineView,
    r: Result<Seq<Seq<char>>, Seq<char>>,
)
    requires
        v.phase == Phase::ListingImage,
        same_but_for_password(v, w),
    ensures
        is_sound(v, EventView::Listed(r), image_listed(v, r)),
        hides_password(image_listed(v, r), image_listed(w, r)),
{
    broadcast use milestones_of_more;

    reveal(is_sound);
    reveal(hides_password);
}

proof fn sound_bundle_found(v: PipelineView, w: PipelineView, found: Option<Seq<char>>)
    requires
        v.phase == Phase::FindingBundle,
        same_but_for_password(v, w),
    ensures
        is_sound(v, EventView::Found(found), bundle_found(v, found)),
        hides_password(bundle_found(v, found), bundle_found(w, found)),
{
    broadcast use milestones_of_more;

    reveal(is_sound);
    reveal(hides_password);
}

proof fn sound_launcher_found(v: PipelineView, w: PipelineView, found: Option<Seq<char>>)
    requires
        v.phase == Phase::FindingLauncher,
        same_but_for_password(v, w),
    ensures
        is_sound(v, EventView::Found(found), launcher_found(v, found)),
        hides_password(launcher_found(v, found), launcher_found(w, found)),
{
    broadcast use milestones_of_more;

    reveal(is_sound);
    reveal(hides_password);
}

proof fn sound_firefox_found(v: PipelineView, w: PipelineView, found: Option<Seq<char>>)
    requires
        v.phase == Phase::FindingFirefox,
        same_but_for_password(v, w),
    ensures
        is_sound(v, EventView::Found(found), firefox_found(v, found)),
        hides_password(firefox_found(v, found), firefox_found(w, found)),
{
    broadcast use milestones_of_more;

    reveal(is_sound);
    reveal(hides_password);
}

proof fn sound_tor_browser_found(v: PipelineView, w: PipelineView, found: Option<Seq<char>>)
    requires
        v.phase == Phase::FindingTorBrowser,
        same_but_for_password(v, w),
    ensures
        is_sound(v, EventView::Found(found), tor_browser_found(v, found)),
        hides_password(tor_browser_found(v, found), tor_browser_found(w, found)),
{
    broadcast use milestones_of_more;

    reveal(is_sound);
    reveal(hides_password);
}

/// Both ways of going on are sound, and differ in what goes to `sudo` alone.
#[verifier::opaque]
pub open spec fn are_sound(
    v: PipelineView,
    e: EventView,
    first: Option<Move>,
    second: Option<Move>,
) -> bool {
    match (first, second) {
        (Some(m), Some(n)) => is_sound(v, e, m) && hides_password(m, n),
        (None, None) => true,
        _ => false,
    }
}

proof fn on_done_is_sound(v: PipelineView, w: PipelineView, r: Result<(), IoFailureView>)
    requires
        same_but_for_password(v, w),
    ensures
        are_sound(v, EventView::Done(r), on_done(v, r), on_done(w, r)),
{
    reveal(are_sound);
    match v.phase {
        Phase::MakingTempDir => sound_temp_dir_made(v, w, r),
        Phase::Downloading => sound_downloaded(v, w, r),
        Phase::CheckingSignature => sound_signature_checked(v, w, r),
        Phase::Pausing(n) => sound_paused(v, w, n, r),
        Phase::MakingBundleDir(route) => sound_bundle_dir_made(v, w, route, r),
        Phase::RemovingBundle(route) => sound_bundle_removed(v, w, route, r),
        Phase::ClearingExtract(tool) => sound_extract_cleared(v, w, tool, r),
        Phase::MakingExtract(tool) => sound_extract_made(v, w, tool, r),
        Phase::RemovingExtract => sound_put_in_place(v, w, r),
        Phase::MakingUnpackDir => sound_unpack_dir_made(v, w, r),
        Phase::MarkingLauncher => sound_marked(v, w, r),
        Phase::MakingInstallerDir => sound_installer_dir_made(v, w, r),
        Phase::CleaningUp => sound_cleaned_up(v, w, r),
        _ => {},
    }
}

proof fn on_ran_is_sound(v: PipelineView, w: PipelineView, r: Result<ExitView, RunFailureView>)
    requires
        same_but_for_password(v, w),
    ensures
        are_sound(v, EventView::Ran(r), on_ran(v, r), on_ran(w, r)),
{
    reveal(are_sound);
    match v.phase {
        Phase::DetachingStale => sound_to_detach_stale(v, w, r),
        Phase::Attaching(n) => sound_attached(v, w, n, r),
        Phase::CopyingAsRoot(route) => sound_copied_as_root(v, w, route, r),
        Phase::CopyingBundle(route) => sound_copied_plainly(v, w, route, r),
        Phase::AskingAdministrator(route) => sound_administrator_asked(v, w, route, r),
        Phase::Detaching(copied) => sound_detached(v, w, copied, r),
        Phase::LookingForTool(tool) => sound_tool_looked_for(v, w, tool, r),
        Phase::Extracting(tool) => sound_extracted(v, w, tool, r),
        Phase::UnpackingAsRoot => sound_unpacked_as_root(v, w, r),
        Phase::Unpacking => sound_unpacked(v, w, r),
        Phase::RunningInstaller => sound_installer_ran(v, w, r),
        _ => {},
    }
}

proof fn on_listed_is_sound(
    v: PipelineView,
    w: PipelineView,
    r: Result<Seq<Seq<char>>, Seq<char>>,
)
    requires
        same_but_for_password(v, w),
    ensures
        are_sound(v, EventView::Listed(r), on_listed(v, r), on_listed(w, r)),
{
    reveal(are_sound);
    match v.phase {
        Phase::ListingStale => sound_stale_listed(v, w, r),
        Phase::ListingBefore(n) => sound_listed_before(v, w, n, r),
        Phase::ListingAfter(n) => sound_listed_after(v, w, n, r),
        Phase::ListingImage => sound_image_listed(v, w, r),
        _ => {},
    }
}

proof fn on_found_is_sound(v: PipelineView, w: PipelineView, found: Option<Seq<char>>)
    requires
        same_but_for_password(v, w),
    ensures
        are_sound(v, EventView::Found(found), on_found(v, found), on_found(w, found)),
{
    reveal(are_sound);
    match v.phase {
        Phase::FindingBundle => sound_bundle_found(v, w, found),
        Phase::FindingLauncher => sound_launcher_found(v, w, found),
        Phase::FindingFirefox => sound_firefox_found(v, w, found),
        Phase::FindingTorBrowser => sound_tor_browser_found(v, w, found),
        _ => {},
    }
}

/// Every step is sound, and does not depend on the password but for what it
/// gives to `sudo`.
proof fn every_step_is_sound(v: PipelineView, w: PipelineView, e: EventView)
    requires
        same_but_for_password(v, w),
    ensures
        are_sound(v, e, next_move(v, e), next_move(w, e)),
{
    reveal(are_sound);
    match e {
        EventView::Started => {
            if v.phase == Phase::Starting {
                sound_started(v, w);
            }
        },
        EventView::Release(r) => {
            if v.phase == Phase::Fetching {
                sound_release_fetched(v, w, r);
            }
        },
        EventView::Answered(a) => {
            if v.phase == Phase::Confirming {
                sound_answered(v, w, a);
            }
        },
        EventView::Digest(r) => {
            if v.phase == Phase::Hashing {
                sound_hashed(v, w, r);
            }
        },
        EventView::PathExists(b) => match v.phase {
            Phase::LookingForBundle(route) => sound_bundle_looked_for(v, w, route, b),
            _ => {},
        },
        EventView::Done(r) => on_done_is_sound(v, w, r),
        EventView::Ran(r) => on_ran_is_sound(v, w, r),
        EventView::Listed(r) => on_listed_is_sound(v, w, r),
        EventView::Found(found) => on_found_is_sound(v, w, found),
    }
}

// ---------------------------------------------------------------------
// Laws of single steps
// ---------------------------------------------------------------------

proof fn step_is_sound(v: PipelineView, e: EventView, m: Move)
    requires
        next_move(v, e) == Some(m),
    ensures
        is_sound(v, e, m),
{
    every_step_is_sound(v, v, e);
    reveal(are_sound);
}

/// Every command that is run is shown right before, and nothing but a `sudo`
/// command gets anything on its standard input, and that is the password.
pub proof fn every_command_is_shown(v: PipelineView, e: EventView, m: Move)
    requires
        next_move(v, e) == Some(m),
    ensures
        is_announced(v, m.step),
{
    step_is_sound(v, e, m);
    reveal(is_sound);
}

/// At the end no event is waited for.
#[verifier::spinoff_prover]
proof fn the_end_is_final(v: PipelineView, e: EventView)
    requires
        v.phase == Phase::Finished,
    ensures
        next_move(v, e) is None,
{
}

/// Whatever comes of removing the archive, the install is over.
#[verifier::spinoff_prover]
proof fn cleaning_up_is_last(v: PipelineView, e: EventView)
    requires
        v.phase == Phase::CleaningUp,
    ensures
        next_move(v, e) matches Some(m) ==> m == cleaned_up(v),
{
}

/// Every install ends: each event that is waited for brings it nearer to its
/// end, and at the end no event is waited for.
pub proof fn every_install_ends(v: PipelineView, e: EventView, m: Move)
    requires
        next_move(v, e) == Some(m),
        is_counted(v.phase),
    ensures
        is_counted(m.now.phase),
        is_nearer(v, m.now),
        m.step.action is Finish <==> m.now.phase == Phase::Finished,
        forall|f: EventView|
            m.now.phase == Phase::Finished ==> (#[trigger] next_move(m.now, f)) is None,
{
    step_is_sound(v, e, m);
    reveal(is_sound);
    if m.now.phase == Phase::Finished {
        assert forall|f: EventView| (#[trigger] next_move(m.now, f)) is None by {
            the_end_is_final(m.now, f);
        }
    }
}

/// While an app bundle is copied off a disk image, each step leaves the image
/// mounted or detaches it: the install does not go on past it otherwise.
pub proof fn every_image_is_detached(v: PipelineView, e: EventView, m: Move)
    requires
        next_move(v, e) == Some(m),
    ensures
        keeps_image(v, m),
{
    step_is_sound(v, e, m);
    reveal(is_sound);
}

/// The administrator prompt comes up only after something was refused for want
/// of permission.
pub proof fn prompt_comes_after_a_refusal(v: PipelineView, e: EventView, m: Move)
    requires
        next_move(v, e) == Some(m),
        m.now.phase is AskingAdministrator,
    ensures
        was_refused(e),
{
    step_is_sound(v, e, m);
    reveal(is_sound);
}

/// A download whose checksum cannot be computed or does not match is discarded:
/// the error is reported, the archive is removed, and then the install is over.
pub proof fn mismatch_is_discarded(v: PipelineView, r: Result<Seq<char>, Seq<char>>)
    requires
        v.phase == Phase::Hashing,
        v.sha256 is Some,
        !is_matching(v, EventView::Digest(r)),
    ensures
        next_move(v, EventView::Digest(r)) == Some(hashed(v, r)),
        is_discarding(v, hashed(v, r)),
{
    let m = hashed(v, r);
    assert forall|e: EventView| (#[trigger] next_move(m.now, e)) is Some implies next_move(
        m.now,
        e,
    ) == Some(cleaned_up(m.now)) by {
        cleaning_up_is_last(m.now, e);
    }
}

/// A download whose signature is not good is discarded: the error is reported,
/// the archive is removed, and then the install is over.
pub proof fn bad_signature_is_discarded(v: PipelineView, r: Result<(), IoFailureView>)
    requires
        v.phase == Phase::CheckingSignature,
        r is Err,
    ensures
        next_move(v, EventView::Done(r)) == Some(signature_checked(v, r)),
        is_discarding(v, signature_checked(v, r)),
{
    let m = signature_checked(v, r);
    assert forall|e: EventView| (#[trigger] next_move(m.now, e)) is Some implies next_move(
        m.now,
        e,
    ) == Some(cleaned_up(m.now)) by {
        cleaning_up_is_last(m.now, e);
    }
}

/// An error is reported, the archive is removed, and whatever comes of that,
/// the install is over.
pub open spec fn is_discarding(v: PipelineView, m: Move) -> bool {
    &&& m.step.notes.len() == 1
    &&& m.step.notes[0] matches WorkerEventView::State(AppStateView::Error(_))
    &&& m.step.action == ActionView::RemoveFile(v.archive)
    &&& forall|e: EventView|
        (#[trigger] next_move(m.now, e)) matches Some(n) ==> {
            &&& n.step.notes.len() == 0
            &&& n.step.action == ActionView::Finish
            &&& n.now.phase == Phase::Finished
        }
}

// ---------------------------------------------------------------------
// Whole installs
// ---------------------------------------------------------------------

/// What an event leads to. This is `next_move`, which the proofs about whole
/// installs do not look into.
#[verifier::opaque]
pub open spec fn taken(v: PipelineView, e: EventView) -> Option<Move> {
    next_move(v, e)
}

proof fn taken_is_sound(v: PipelineView, w: PipelineView, e: EventView)
    requires
        same_but_for_password(v, w),
    ensures
        are_sound(v, e, taken(v, e), taken(w, e)),
{
    reveal(taken);
    every_step_is_sound(v, w, e);
}

/// The state after some events. An event that the pipeline is not waiting for
/// changes nothing.
pub open spec fn state_after(v: PipelineView, events: Seq<EventView>) -> PipelineView
    decreases events.len(),
{
    if events.len() == 0 {
        v
    } else {
        let before = state_after(v, events.drop_last());
        match taken(before, events.last()) {
            Some(m) => m.now,
            None => before,
        }
    }
}

/// Everything that was reported while these events came in.
pub open spec fn reports(v: PipelineView, events: Seq<EventView>) -> Notes
    decreases events.len(),
{
    if events.len() == 0 {
        Seq::<WorkerEventView>::empty()
    } else {
        let told = reports(v, events.drop_last());
        match taken(state_after(v, events.drop_last()), events.last()) {
            Some(m) => told + m.step.notes,
            None => told,
        }
    }
}

/// Everything that was asked for while these events came in.
pub open spec fn actions(v: PipelineView, events: Seq<EventView>) -> Seq<ActionView>
    decreases events.len(),
{
    if events.len() == 0 {
        Seq::<ActionView>::empty()
    } else {
        let asked = actions(v, events.drop_last());
        match taken(state_after(v, events.drop_last()), events.last()) {
            Some(m) => asked.push(m.step.action),
            None => asked,
        }
    }
}

/// The reports and the commands of an install do not depend on the password: it
/// is in no line of the "View commands" panel, in no state and in no argument.
pub proof fn password_is_never_shown(v: PipelineView, w: PipelineView, events: Seq<EventView>)
    requires
        same_but_for_password(v, w),
    ensures
        reports(v, events) == reports(w, events),
        actions(v, events).len() == actions(w, events).len(),
        forall|i: int|
            0 <= i < actions(v, events).len() ==> same_but_for_input(
                #[trigger] actions(v, events)[i],
                actions(w, events)[i],
            ),
        same_but_for_password(state_after(v, events), state_after(w, events)),
    decreases events.len(),
{
    if events.len() > 0 {
        let before = events.drop_last();
        password_is_never_shown(v, w, before);
        taken_is_sound(state_after(v, before), state_after(w, before), events.last());
        reveal(are_sound);
        reveal(hides_password);
    }
}

/// How many of the reports say that the install has ended.
pub open spec fn outcomes(notes: Notes) -> nat
    decreases notes.len(),
{
    if notes.len() == 0 {
        0
    } else {
        outcomes(notes.drop_last()) + (if is_outcome(notes.last()) {
            1nat
        } else {
            0nat
        })
    }
}

/// At some point of the install this was so.
pub open spec fn happened(
    v: PipelineView,
    events: Seq<EventView>,
    what: spec_fn(PipelineView, EventView) -> bool,
) -> bool {
    exists|i: int|
        0 <= i < events.len() && what(state_after(v, events.take(i)), #[trigger] events[i])
}

proof fn happened_stays(
    v: PipelineView,
    events: Seq<EventView>,
    e: EventView,
    what: spec_fn(PipelineView, EventView) -> bool,
)
    ensures
        happened(v, events, what) ==> happened(v, events.push(e), what),
        what(state_after(v, events), e) ==> happened(v, events.push(e), what),
        happened(v, events.push(e), what) ==> happened(v, events, what) || what(
            state_after(v, events),
            e,
        ),
{
    let more = events.push(e);
    assert(more.take(events.len() as int) =~= events);
    assert forall|i: int| 0 <= i < events.len() implies more.take(i) == events.take(i) by {
        assert(more.take(i) =~= events.take(i));
    }
    if happened(v, events, what) {
        let i = choose|i: int|
            0 <= i < events.len() && what(state_after(v, events.take(i)), #[trigger] events[i]);
        assert(more[i] == events[i]);
    }
    assert(more[events.len() as int] == e);
    if happened(v, more, what) {
        let i = choose|i: int|
            0 <= i < more.len() && what(state_after(v, more.take(i)), #[trigger] more[i]);
        if i < events.len() {
            assert(events[i] == more[i]);
        }
    }
}

// --- only what was agreed to and verified is installed ---------------

/// The person has agreed to this install, and the download has passed each
/// check that the release allows.
pub open spec fn is_cleared(v: PipelineView, events: Seq<EventView>) -> bool {
    let now = state_after(v, events);
    &&& happened(v, events, |s: PipelineView, e: EventView| is_agreed(s, e))
    &&& now.sha256 is Some ==> happened(v, events, matched(now))
    &&& now.sig_url is Some ==> happened(v, events, signed(now))
}

/// The checksum of this download was found to match that of this release.
pub open spec fn matched(now: PipelineView) -> spec_fn(PipelineView, EventView) -> bool {
    |s: PipelineView, e: EventView|
        is_matching(s, e) && s.archive == now.archive && s.sha256 == now.sha256
}

/// The signature of this download was found to be good.
pub open spec fn signed(now: PipelineView) -> spec_fn(PipelineView, EventView) -> bool {
    |s: PipelineView, e: EventView|
        is_signed(s, e) && s.archive == now.archive && s.sig_url == now.sig_url
}

/// The phases in which the answer is still to come, or is not needed any more.
spec fn is_unanswered(phase: Phase) -> bool {
    match phase {
        Phase::Starting | Phase::Fetching | Phase::Confirming | Phase::CleaningUp
        | Phase::Finished => true,
        _ => false,
    }
}

/// What is known of an install by its phase.
spec fn is_on_track(v: PipelineView, events: Seq<EventView>) -> bool {
    let now = state_after(v, events);
    &&& is_due(now)
    &&& !is_unanswered(now.phase) ==> happened(
        v,
        events,
        |s: PipelineView, e: EventView| is_agreed(s, e),
    )
    &&& now.phase == Phase::CheckingSignature || is_installing(now.phase) ==> {
        now.sha256 is Some ==> happened(v, events, matched(now))
    }
    &&& is_installing(now.phase) ==> {
        now.sig_url is Some ==> happened(v, events, signed(now))
    }
}

proof fn stays_on_track(v: PipelineView, events: Seq<EventView>, e: EventView)
    requires
        is_on_track(v, events),
    ensures
        is_on_track(v, events.push(e)),
{
    let before = state_after(v, events);
    let more = events.push(e);
    assert(more.drop_last() =~= events);
    taken_is_sound(before, before, e);
    reveal(are_sound);
    reveal(is_sound);
    let now = state_after(v, more);
    happened_stays(v, events, e, |s: PipelineView, e: EventView| is_agreed(s, e));
    happened_stays(v, events, e, matched(now));
    happened_stays(v, events, e, signed(now));
    if before.phase != Phase::Fetching {
        assert(matched(now) =~= matched(before));
        assert(signed(now) =~= signed(before));
    }
}

proof fn always_on_track(v: PipelineView, events: Seq<EventView>)
    requires
        v.phase == Phase::Starting,
    ensures
        is_on_track(v, events),
    decreases events.len(),
{
    if events.len() > 0 {
        always_on_track(v, events.drop_last());
        stays_on_track(v, events.drop_last(), events.last());
        assert(events.drop_last().push(events.last()) =~= events);
    }
}

/// Nothing is installed, no command is run and no success is reported unless the
/// person has agreed to the install and the download has passed each check that
/// the release allows: the checksum, if the release has one, and the signature,
/// if it has one. To make the install folder or to remove an earlier bundle is
/// already to install.
pub proof fn only_what_was_cleared_is_installed(
    v: PipelineView,
    events: Seq<EventView>,
    e: EventView,
    m: Move,
)
    requires
        v.phase == Phase::Starting,
        taken(state_after(v, events), e) == Some(m),
        m.step.action is Run || is_installing(m.now.phase) || exists|i: int|
            0 <= i < m.step.notes.len() && is_success(#[trigger] m.step.notes[i]),
    ensures
        is_cleared(v, events.push(e)),
{
    let before = state_after(v, events);
    assert(events.push(e).drop_last() =~= events);
    taken_is_sound(before, before, e);
    reveal(are_sound);
    reveal(is_sound);
    always_on_track(v, events);
    always_on_track(v, events.push(e));
    if !(m.step.action is Run) {
        happened_stays(v, events, e, |s: PipelineView, e: EventView| is_agreed(s, e));
        happened_stays(v, events, e, matched(before));
        happened_stays(v, events, e, signed(before));
        assert(matched(m.now) =~= matched(before));
        assert(signed(m.now) =~= signed(before));
    }
}

/// The person has cancelled the install.
pub open spec fn is_cancelled(v: PipelineView, e: EventView) -> bool {
    v.phase == Phase::Confirming && e == EventView::Answered(Answer::Cancel)
}

#[verifier::spinoff_prover]
proof fn cancelling_ends(v: PipelineView, e: EventView)
    requires
        e == EventView::Answered(Answer::Cancel),
    ensures
        match next_move(v, e) {
            Some(m) => v.phase == Phase::Confirming && m.now.phase == Phase::Finished,
            None => v.phase != Phase::Confirming,
        },
{
}

#[verifier::spinoff_prover]
proof fn downloads_go_on(v: PipelineView, e: EventView)
    requires
        is_downloaded(v, e),
    ensures
        next_move(v, e) is Some,
{
}

#[verifier::spinoff_prover]
proof fn given_paths_go_on(v: PipelineView, e: EventView)
    requires
        given_path(v, e) is Some,
    ensures
        next_move(v, e) is Some,
{
}

proof fn turning_points(v: PipelineView, e: EventView)
    ensures
        v.phase == Phase::Finished ==> taken(v, e) is None,
        v.phase == Phase::CleaningUp ==> (taken(v, e) matches Some(m) ==> m.now.phase
            == Phase::Finished && m.step.notes.len() == 0),
        is_cancelled(v, e) ==> (taken(v, e) matches Some(m) && m.now.phase == Phase::Finished),
        e == EventView::Answered(Answer::Cancel) && taken(v, e) is Some ==> is_cancelled(v, e),
        is_downloaded(v, e) ==> taken(v, e) is Some,
        given_path(v, e) is Some ==> taken(v, e) is Some,
{
    assert(taken(v, e) == next_move(v, e)) by {
        reveal(taken);
    }
    if v.phase == Phase::Finished {
        the_end_is_final(v, e);
    }
    if v.phase == Phase::CleaningUp {
        cleaning_up_is_last(v, e);
    }
    if e == EventView::Answered(Answer::Cancel) {
        cancelling_ends(v, e);
    }
    if is_downloaded(v, e) {
        downloads_go_on(v, e);
    }
    if given_path(v, e) is Some {
        given_paths_go_on(v, e);
    }
}

// --- one outcome ------------------------------------------------------

proof fn outcomes_of_both(a: Notes, b: Notes)
    ensures
        outcomes(a + b) == outcomes(a) + outcomes(b),
    decreases b.len(),
{
    if b.len() == 0 {
        assert(a + b =~= a);
    } else {
        assert((a + b).drop_last() =~= a + b.drop_last());
        outcomes_of_both(a, b.drop_last());
    }
}

proof fn no_outcomes(notes: Notes)
    requires
        forall|i: int| 0 <= i < notes.len() ==> !is_outcome(#[trigger] notes[i]),
    ensures
        outcomes(notes) == 0,
    decreases notes.len(),
{
    if notes.len() > 0 {
        no_outcomes(notes.drop_last());
    }
}

proof fn outcomes_of_step(v: PipelineView, e: EventView, m: Move)
    requires
        is_sound(v, e, m),
    ensures
        outcomes(m.step.notes) == (if m.step.notes.len() > 0 && is_outcome(m.step.notes.last()) {
            1nat
        } else {
            0nat
        }),
{
    reveal(is_sound);
    if m.step.notes.len() > 0 {
        no_outcomes(m.step.notes.drop_last());
    }
}

/// An install reports one outcome when it ends, as its last report, and none
/// before; if the person cancels it, none.
pub proof fn one_outcome_is_reported(v: PipelineView, events: Seq<EventView>)
    requires
        v.phase == Phase::Starting,
    ensures
        outcomes(reports(v, events)) == (match state_after(v, events).phase {
            Phase::CleaningUp => 1nat,
            Phase::Finished => if happened(
                v,
                events,
                |s: PipelineView, e: EventView| is_cancelled(s, e),
            ) {
                0nat
            } else {
                1nat
            },
            _ => 0nat,
        }),
        state_after(v, events).phase != Phase::Finished ==> !happened(
            v,
            events,
            |s: PipelineView, e: EventView| is_cancelled(s, e),
        ),
        outcomes(reports(v, events)) == 1 ==> reports(v, events).len() > 0 && is_outcome(
            reports(v, events).last(),
        ),
    decreases events.len(),
{
    let cancelled = |s: PipelineView, e: EventView| is_cancelled(s, e);
    if events.len() > 0 {
        let before = events.drop_last();
        let e = events.last();
        let s = state_after(v, before);
        one_outcome_is_reported(v, before);
        assert(before.push(e) =~= events);
        happened_stays(v, before, e, cancelled);
        taken_is_sound(s, s, e);
        reveal(are_sound);
        if let Some(m) = taken(s, e) {
            outcomes_of_step(s, e, m);
            outcomes_of_both(reports(v, before), m.step.notes);
            if m.step.notes.len() > 0 {
                assert((reports(v, before) + m.step.notes).last() == m.step.notes.last());
            } else {
                assert(reports(v, before) + m.step.notes =~= reports(v, before));
            }
        }
        turning_points(s, e);
        reveal(is_sound);
    }
}

// --- the archive and the attempts -------------------------------------

/// Once the download has ended well, the install does not end without removing
/// its archive.
pub proof fn archive_is_removed(v: PipelineView, events: Seq<EventView>)
    requires
        v.phase == Phase::Starting,
        happened(v, events, |s: PipelineView, e: EventView| is_downloaded(s, e)),
    ensures
        !has_nothing(state_after(v, events).phase),
        state_after(v, events).phase == Phase::CleaningUp || state_after(v, events).phase
            == Phase::Finished ==> actions(v, events).contains(
            ActionView::RemoveFile(state_after(v, events).archive),
        ),
    decreases events.len(),
{
    let what = |s: PipelineView, e: EventView| is_downloaded(s, e);
    if events.len() > 0 {
        let before = events.drop_last();
        let e = events.last();
        let s = state_after(v, before);
        assert(before.push(e) =~= events);
        happened_stays(v, before, e, what);
        if happened(v, before, what) {
            archive_is_removed(v, before);
        }
        taken_is_sound(s, s, e);
        reveal(are_sound);
        reveal(is_sound);
        turning_points(s, e);
        let gone = ActionView::RemoveFile(s.archive);
        if let Some(m) = taken(s, e) {
            let asked = actions(v, before);
            assert(asked.push(m.step.action).last() == m.step.action);
            if asked.contains(gone) {
                let i = choose|i: int| 0 <= i < asked.len() && asked[i] == gone;
                assert(asked.push(m.step.action)[i] == gone);
            }
        }
    }
}

/// An install for all users copies and unpacks by `sudo` alone; one for the
/// current account never does.
pub proof fn rights_fit_the_scope(v: PipelineView, events: Seq<EventView>)
    requires
        v.phase == Phase::Starting,
    ensures
        fits_scope(state_after(v, events).scope, state_after(v, events).phase),
        state_after(v, events).scope == v.scope,
    decreases events.len(),
{
    if events.len() > 0 {
        let before = events.drop_last();
        let s = state_after(v, before);
        rights_fit_the_scope(v, before);
        taken_is_sound(s, s, events.last());
        reveal(are_sound);
        reveal(is_sound);
    }
}

/// How many of the actions attach a disk image.
pub open spec fn attempts(asked: Seq<ActionView>) -> nat
    decreases asked.len(),
{
    if asked.len() == 0 {
        0
    } else {
        attempts(asked.drop_last()) + (if is_attach(asked.last()) {
            1nat
        } else {
            0nat
        })
    }
}

/// A disk image is attached three times at most.
pub proof fn attempts_are_limited(v: PipelineView, events: Seq<EventView>)
    requires
        v.phase == Phase::Starting,
    ensures
        attempts(actions(v, events)) <= MAX_ATTEMPTS,
        is_counted(state_after(v, events).phase),
        attempts(actions(v, events)) <= most_attempts(state_after(v, events).phase),
    decreases events.len(),
{
    if events.len() > 0 {
        let before = events.drop_last();
        let s = state_after(v, before);
        attempts_are_limited(v, before);
        taken_is_sound(s, s, events.last());
        reveal(are_sound);
        reveal(is_sound);
        if let Some(m) = taken(s, events.last()) {
            assert(actions(v, before).push(m.step.action).drop_last() =~= actions(v, before));
        }
    }
}

/// When an install has ended and was not cancelled, a window that has taken all
/// its reports shows the outcome and does not wait for more.
pub proof fn the_outcome_is_shown(window: BuilderView, v: PipelineView, events: Seq<EventView>)
    requires
        v.phase == Phase::Starting,
        state_after(v, events).phase == Phase::Finished,
        !happened(v, events, |s: PipelineView, e: EventView| is_cancelled(s, e)),
        window.listening,
    ensures
        !polled(window, reports(v, events)).listening,
        is_outcome(WorkerEventView::State(polled(window, reports(v, events)).state)),
{
    one_outcome_is_reported(v, events);
    let told = reports(v, events);
    assert(told[told.len() - 1] == told.last());
}

// --- the order of the states ------------------------------------------

/// The states of an install up to its first stage, in the order in which they
/// are reported: a checksum and a signature are verified if the release has
/// them.
pub open spec fn prelude(has_checksum: bool, has_signature: bool) -> Seq<Milestone> {
    seq![Milestone::Confirm, Milestone::Download] + (if has_checksum {
        seq![Milestone::Verify]
    } else {
        Seq::<Milestone>::empty()
    }) + (if has_signature {
        seq![Milestone::VerifySignature]
    } else {
        Seq::<Milestone>::empty()
    })
}

/// The states of an install of this release with `stages` stages, but for its
/// outcome.
pub open spec fn course(v: PipelineView, stages: nat) -> Seq<Milestone> {
    prelude(v.sha256 is Some, v.sig_url is Some) + Seq::new(
        stages,
        |i: int| Milestone::Install,
    )
}

/// These are the first states of such an install.
pub open spec fn is_part_of_course(v: PipelineView, told: Seq<Milestone>, stages: nat) -> bool {
    told.len() <= course(v, stages).len() && told =~= course(v, stages).take(told.len() as int)
}

/// The states that have been reported when a phase is reached.
spec fn is_told(v: PipelineView, told: Seq<Milestone>) -> bool {
    match v.phase {
        Phase::Starting | Phase::Fetching => told =~= Seq::<Milestone>::empty(),
        Phase::Confirming | Phase::MakingTempDir => told =~= seq![Milestone::Confirm],
        Phase::Downloading => told =~= seq![Milestone::Confirm, Milestone::Download],
        Phase::Hashing => {
            &&& v.sha256 is Some
            &&& told =~= seq![Milestone::Confirm, Milestone::Download, Milestone::Verify]
        },
        Phase::CheckingSignature => {
            &&& v.sig_url is Some
            &&& told =~= prelude(v.sha256 is Some, true)
        },
        Phase::CleaningUp => is_ended(v, told),
        Phase::Finished => is_ended(v, told) || told =~= seq![Milestone::Confirm],
        _ => exists|stages: nat| stages > 0 && told =~= #[trigger] course(v, stages),
    }
}

/// The outcome has been reported behind the first states of an install.
pub open spec fn is_ended(v: PipelineView, told: Seq<Milestone>) -> bool {
    &&& told.len() > 0
    &&& told.last() == Milestone::End
    &&& exists|stages: nat| #[trigger] is_part_of_course(v, told.drop_last(), stages)
}

proof fn milestones_of_both(a: Notes, b: Notes)
    ensures
        milestones(a + b) == milestones(a) + milestones(b),
    decreases b.len(),
{
    if b.len() == 0 {
        assert(a + b =~= a);
        assert(milestones(a) + milestones(b) =~= milestones(a));
    } else {
        assert((a + b).drop_last() =~= a + b.drop_last());
        assert((a + b).last() == b.last());
        milestones_of_both(a, b.drop_last());
        assert(milestones(a + b) =~= milestones(a) + milestones(b));
    }
}

/// Before the install itself, what has been told is the beginning of a course;
/// where the last check is passed, it is the whole prelude.
proof fn told_before_install(v: PipelineView, e: EventView, told: Seq<Milestone>)
    requires
        is_told(v, told),
        is_preparing(v.phase),
    ensures
        is_part_of_course(v, told, 0),
        is_passing(v, e) ==> told == prelude(v.sha256 is Some, v.sig_url is Some),
{
    let all = course(v, 0);
    assert(all =~= prelude(v.sha256 is Some, v.sig_url is Some));
    assert(told =~= all.take(told.len() as int));
}

proof fn told_by_step(v: PipelineView, e: EventView, m: Move, told: Seq<Milestone>)
    requires
        is_sound(v, e, m),
        is_due(v),
        is_told(v, told),
        v.phase != Phase::Finished,
        v.phase == Phase::CleaningUp ==> m.now.phase == Phase::Finished && m.step.notes.len() == 0,
        e == EventView::Answered(Answer::Cancel) ==> v.phase == Phase::Confirming && m.now.phase
            == Phase::Finished,
        v.phase == Phase::Fetching && m.now.phase != Phase::Finished ==> m.now.phase
            == Phase::Confirming,
        v.phase == Phase::Starting ==> m.now.phase == Phase::Fetching,
        m.now.phase == Phase::Fetching ==> v.phase == Phase::Starting,
        m.now.phase != Phase::Starting,
    ensures
        is_told(m.now, told + milestones(m.step.notes)),
{
    reveal(is_sound);
    let more = milestones(m.step.notes);
    let all = told + more;
    if is_preparing(v.phase) {
        told_before_install(v, e, told);
    }
    if v.phase == Phase::CleaningUp {
        assert(all =~= told);
        let stages = choose|stages: nat| #[trigger]
            is_part_of_course(v, told.drop_last(), stages);
        assert(is_part_of_course(m.now, all.drop_last(), stages));
    } else if m.now.phase == Phase::CleaningUp || m.now.phase == Phase::Finished {
        if e == EventView::Answered(Answer::Cancel) {
            assert(all =~= told);
        } else if is_installing(v.phase) {
            let stages = choose|stages: nat| stages > 0 && told =~= #[trigger] course(v, stages);
            assert(more =~= seq![Milestone::End]);
            assert(all.drop_last() =~= told);
            assert(told =~= course(m.now, stages).take(told.len() as int));
            assert(is_part_of_course(m.now, all.drop_last(), stages));
        } else if more =~= seq![Milestone::End] {
            assert(all.drop_last() =~= told);
            if v.phase == Phase::Fetching {
                assert(told =~= course(m.now, 0).take(0));
            }
            assert(is_part_of_course(m.now, all.drop_last(), 0));
        } else {
            assert(all.drop_last() =~= told.push(Milestone::Install));
            assert(told.push(Milestone::Install) =~= course(m.now, 1));
            assert(is_part_of_course(m.now, all.drop_last(), 1));
        }
    } else if is_installing(m.now.phase) {
        if is_installing(v.phase) {
            let stages = choose|stages: nat| stages > 0 && told =~= #[trigger] course(v, stages);
            assert(all =~= course(m.now, stages + more.len()));
        } else {
            assert(all =~= course(m.now, more.len()));
        }
    }
}

/// What leads to the first phases.
#[verifier::spinoff_prover]
proof fn first_phases(v: PipelineView, e: EventView, m: Move)
    requires
        next_move(v, e) == Some(m),
        v.phase == Phase::Starting || v.phase == Phase::Fetching,
    ensures
        v.phase == Phase::Starting ==> m.now.phase == Phase::Fetching,
        v.phase == Phase::Fetching ==> m.now.phase == Phase::Confirming || m.now.phase
            == Phase::Finished,
{
}

proof fn always_told(v: PipelineView, events: Seq<EventView>)
    requires
        v.phase == Phase::Starting,
    ensures
        is_told(state_after(v, events), milestones(reports(v, events))),
    decreases events.len(),
{
    if events.len() > 0 {
        let before = events.drop_last();
        let e = events.last();
        let s = state_after(v, before);
        always_told(v, before);
        always_on_track(v, before);
        turning_points(s, e);
        taken_is_sound(s, s, e);
        reveal(are_sound);
        if let Some(m) = taken(s, e) {
            assert(next_move(s, e) == Some(m)) by {
                reveal(taken);
            }
            milestones_of_both(reports(v, before), m.step.notes);
            if s.phase == Phase::Starting || s.phase == Phase::Fetching {
                first_phases(s, e, m);
            }
            assert(m.now.phase != Phase::Starting && (m.now.phase == Phase::Fetching ==> s.phase
                == Phase::Starting)) by {
                reveal(is_sound);
                attempts_are_limited(v, before);
            }
            told_by_step(s, e, m, milestones(reports(v, before)));
        }
    }
}

/// The states of an install are reported in this order: the question, the
/// download, the verification of the checksum and of the signature, where the
/// release has them, and the stages of the install. It can be cut short
/// anywhere; then, and at its end, comes the outcome, unless the person cancels.
/// While a download runs, it was the last to be reported, so that the progress it
/// makes can be told without leaving this order.
pub proof fn states_come_in_order(v: PipelineView, events: Seq<EventView>)
    requires
        v.phase == Phase::Starting,
    ensures
        ({
            let now = state_after(v, events);
            let told = milestones(reports(v, events));
            ||| is_ended(now, told)
            ||| exists|stages: nat| #[trigger] is_part_of_course(now, told, stages)
        }),
        ({
            let now = state_after(v, events);
            let told = milestones(reports(v, events));
            is_ended(now, told) <==> now.phase == Phase::CleaningUp || now.phase == Phase::Finished
                && !happened(v, events, |s: PipelineView, e: EventView| is_cancelled(s, e))
        }),
        state_after(v, events).phase == Phase::Downloading ==> milestones(reports(v, events))
            == seq![Milestone::Confirm, Milestone::Download],
{
    always_told(v, events);
    one_outcome_is_reported(v, events);
    let now = state_after(v, events);
    let told = milestones(reports(v, events));
    an_end_is_an_outcome(reports(v, events));
    if is_preparing(now.phase) {
        told_before_install(now, EventView::Started, told);
    } else if is_installing(now.phase) {
        let stages = choose|stages: nat| stages > 0 && told =~= #[trigger] course(now, stages);
        assert(told =~= course(now, stages).take(told.len() as int));
        assert(is_part_of_course(now, told, stages));
    } else if !is_ended(now, told) {
        assert(told =~= course(now, 0).take(1));
        assert(is_part_of_course(now, told, 0));
    }
}

proof fn an_end_is_an_outcome(notes: Notes)
    ensures
        milestones(notes).len() > 0 && milestones(notes).last() == Milestone::End ==> outcomes(
            notes,
        ) > 0,
    decreases notes.len(),
{
    if notes.len() > 0 {
        an_end_is_an_outcome(notes.drop_last());
    }
}

// --- success and its path ---------------------------------------------

/// Success is reported, with a path, if and only if the install routine ended
/// well and gave that path.
pub proof fn success_comes_with_its_path(v: PipelineView, events: Seq<EventView>, path: Seq<char>)
    ensures
        reports(v, events).contains(success_at(path)) <==> happened(
            v,
            events,
            |s: PipelineView, e: EventView| given_path(s, e) == Some(path),
        ),
    decreases events.len(),
{
    let what = |s: PipelineView, e: EventView| given_path(s, e) == Some(path);
    if events.len() > 0 {
        let before = events.drop_last();
        let e = events.last();
        let s = state_after(v, before);
        let told = reports(v, before);
        success_comes_with_its_path(v, before, path);
        assert(before.push(e) =~= events);
        happened_stays(v, before, e, what);
        turning_points(s, e);
        taken_is_sound(s, s, e);
        reveal(are_sound);
        reveal(is_sound);
        if let Some(m) = taken(s, e) {
            let all = told + m.step.notes;
            if told.contains(success_at(path)) {
                let i = choose|i: int| 0 <= i < told.len() && told[i] == success_at(path);
                assert(all[i] == success_at(path));
            }
            if given_path(s, e) == Some(path) {
                assert(all[all.len() - 1] == success_at(path));
            }
            if all.contains(success_at(path)) {
                let i = choose|i: int| 0 <= i < all.len() && all[i] == success_at(path);
                if i < told.len() {
                    assert(told[i] == success_at(path));
                } else {
                    assert(m.step.notes[i - told.len()] == success_at(path));
                }
            }
        }
    }
}

/// What is known of the path of Tor Browser by the phase of an install.
spec fn is_grounded(v: PipelineView, events: Seq<EventView>) -> bool {
    let now = state_after(v, events);
    &&& is_worked(now.phase) ==> happened(
        v,
        events,
        |s: PipelineView, e: EventView| is_well_done(s, e),
    )
    &&& has_path(now.phase) ==> happened(
        v,
        events,
        |s: PipelineView, e: EventView| names_path(s, e, now.dest),
    )
}

proof fn always_grounded(v: PipelineView, events: Seq<EventView>)
    requires
        v.phase == Phase::Starting,
    ensures
        is_grounded(v, events),
    decreases events.len(),
{
    if events.len() > 0 {
        let before = events.drop_last();
        let e = events.last();
        let s = state_after(v, before);
        let now = state_after(v, events);
        always_grounded(v, before);
        assert(before.push(e) =~= events);
        let done = |s: PipelineView, e: EventView| is_well_done(s, e);
        let named = |s: PipelineView, e: EventView| names_path(s, e, now.dest);
        happened_stays(v, before, e, done);
        happened_stays(v, before, e, named);
        taken_is_sound(s, s, e);
        reveal(are_sound);
        reveal(is_sound);
        assert(s.dest == now.dest ==> named
            =~= (|t: PipelineView, f: EventView| names_path(t, f, s.dest)));
    }
}

/// Success is only reported of something: a command that copies, unpacks or
/// installs has ended well, and an event has said that Tor Browser is at that
/// path.
pub proof fn success_is_grounded(v: PipelineView, events: Seq<EventView>, path: Seq<char>)
    requires
        v.phase == Phase::Starting,
        reports(v, events).contains(success_at(path)),
    ensures
        happened(v, events, |s: PipelineView, e: EventView| is_well_done(s, e)),
        happened(v, events, |s: PipelineView, e: EventView| names_path(s, e, path)),
    decreases events.len(),
{
    let done = |s: PipelineView, e: EventView| is_well_done(s, e);
    let named = |s: PipelineView, e: EventView| names_path(s, e, path);
    let given = |s: PipelineView, e: EventView| given_path(s, e) == Some(path);
    success_comes_with_its_path(v, events, path);
    if events.len() > 0 {
        let before = events.drop_last();
        let e = events.last();
        let s = state_after(v, before);
        assert(before.push(e) =~= events);
        happened_stays(v, before, e, done);
        happened_stays(v, before, e, named);
        happened_stays(v, before, e, given);
        success_comes_with_its_path(v, before, path);
        if reports(v, before).contains(success_at(path)) {
            success_is_grounded(v, before, path);
        } else {
            assert(given_path(s, e) == Some(path));
            always_grounded(v, before);
            turning_points(s, e);
            taken_is_sound(s, s, e);
            reveal(are_sound);
            reveal(is_sound);
            assert(s.dest == path ==> named
                =~= (|t: PipelineView, f: EventView| names_path(t, f, s.dest)));
        }
    }
}

// --- what is installed is what was shown ------------------------------

/// The release that an install is for was shown to the person, with where it is
/// downloaded from and what it is verified by.
pub open spec fn was_shown(now: PipelineView, told: Notes) -> bool {
    exists|i: int, version: Seq<char>|
        0 <= i < told.len() && #[trigger] told[i] == #[trigger] shown_release(now, version)
}

/// An install that has come to some phase has asked for the download before.
spec fn has_download(phase: Phase) -> bool {
    !has_nothing(phase) && phase != Phase::Finished || phase == Phase::Downloading
}

/// What is known of what an install has asked for.
spec fn is_straight(v: PipelineView, events: Seq<EventView>) -> bool {
    let now = state_after(v, events);
    let asked = actions(v, events);
    &&& fits_platform(now.target.os, now.phase)
    &&& fits_scope(now.scope, now.phase)
    &&& now.target == v.target && now.scope == v.scope && now.install_dir == v.install_dir
        && now.password == v.password
    &&& now.phase != Phase::Starting && now.phase != Phase::Fetching && now.phase
        != Phase::Finished ==> was_shown(now, reports(v, events))
    &&& has_download(now.phase) ==> asked.contains(
        ActionView::Download { url: now.binary_url, dest: now.archive },
    )
    &&& forall|i: int| 0 <= i < asked.len() ==> is_about(v, now, #[trigger] asked[i])
    &&& now.phase == Phase::Starting || now.phase == Phase::Fetching ==> forall|i: int|
        0 <= i < asked.len() ==> (#[trigger] asked[i]) is FetchRelease
}

/// The action is about the download of this install.
pub open spec fn is_about(v: PipelineView, now: PipelineView, action: ActionView) -> bool {
    match action {
        ActionView::Download { url, dest } => url == now.binary_url && dest == now.archive,
        ActionView::HashFile(path) => path == now.archive,
        ActionView::VerifySignature { path, sig_url } => path == now.archive && Some(sig_url)
            == now.sig_url,
        ActionView::Run { command, stdin } => {
            &&& v.target.os == Os::Windows ==> {
                &&& command.program == now.archive
                &&& command.args =~= seq!["/S"@, "/D="@ + v.install_dir]
                &&& stdin is None
            }
            &&& v.target.os == Os::Linux && v.scope == InstallScope::User ==> {
                &&& command.program == "tar"@
                &&& command.args =~= seq!["-xJf"@, now.archive, "-C"@, v.install_dir]
                &&& stdin is None
            }
            &&& v.target.os == Os::Linux && v.scope == InstallScope::Global ==> {
                &&& command == sudo_view(unpack_command_text(v.install_dir, now.archive))
                &&& stdin == Some(v.password + "\n"@)
            }
            &&& v.target.os != Os::Other
        },
        _ => true,
    }
}

/// What a step leads to, as far as the way of an install to its download goes.
proof fn keeps_straight(v: PipelineView, e: EventView, m: Move)
    requires
        taken(v, e) == Some(m),
    ensures
        is_to_the_point(v, m),
        keeps_request(v, m.now),
        fits_scope(v.scope, v.phase) ==> fits_scope(m.now.scope, m.now.phase),
        m.now.phase != Phase::Starting,
        m.now.phase == Phase::Fetching ==> v.phase == Phase::Starting && m.step.action
            is FetchRelease,
        v.phase == Phase::Starting ==> m.now.phase == Phase::Fetching,
        v.phase == Phase::Fetching ==> m.now.phase == Phase::Confirming || m.now.phase
            == Phase::Finished,
        has_download(m.now.phase) ==> has_download(v.phase) || m.now.phase == Phase::Downloading,
        v.phase != Phase::Finished,
{
    assert(next_move(v, e) == Some(m)) by {
        reveal(taken);
    }
    taken_is_sound(v, v, e);
    reveal(are_sound);
    reveal(is_sound);
    turning_points(v, e);
    if v.phase == Phase::Starting || v.phase == Phase::Fetching || v.phase == Phase::Confirming
        || v.phase == Phase::MakingTempDir {
        phases_before_the_download(v, e, m);
    }
}

#[verifier::spinoff_prover]
proof fn phases_before_the_download(v: PipelineView, e: EventView, m: Move)
    requires
        next_move(v, e) == Some(m),
        v.phase == Phase::Starting || v.phase == Phase::Fetching || v.phase == Phase::Confirming
            || v.phase == Phase::MakingTempDir,
    ensures
        v.phase == Phase::Starting ==> m.now.phase == Phase::Fetching && m.step.action
            is FetchRelease,
        v.phase == Phase::Fetching ==> m.now.phase == Phase::Confirming || m.now.phase
            == Phase::Finished,
        v.phase == Phase::Confirming ==> m.now.phase == Phase::MakingTempDir || m.now.phase
            == Phase::Finished,
        v.phase == Phase::MakingTempDir ==> m.now.phase == Phase::Downloading || m.now.phase
            == Phase::Finished,
{
}

/// The release stays shown.
proof fn stays_shown(v: PipelineView, m: Move, told: Notes)
    requires
        is_to_the_point(v, m),
        keeps_request(v, m.now),
        m.now.phase == Phase::Confirming || v.phase != Phase::Fetching && was_shown(v, told),
    ensures
        was_shown(m.now, told + m.step.notes),
{
    let more = told + m.step.notes;
    if m.now.phase == Phase::Confirming {
        let version = choose|version: Seq<char>|
            m.step.notes.last() == #[trigger] shown_release(m.now, version) && m.step.notes.len()
                > 0;
        assert(more[more.len() - 1] == shown_release(m.now, version));
    } else {
        let (i, version) = choose|i: int, version: Seq<char>|
            0 <= i < told.len() && #[trigger] told[i] == #[trigger] shown_release(v, version);
        assert(more[i] == shown_release(m.now, version));
    }
}

/// What was asked for stays about the download.
proof fn stays_about(v: PipelineView, s: PipelineView, m: Move, asked: Seq<ActionView>)
    requires
        is_to_the_point(s, m),
        keeps_request(s, m.now),
        s.target == v.target && s.scope == v.scope && s.install_dir == v.install_dir && s.password
            == v.password,
        fits_platform(s.target.os, s.phase),
        fits_scope(s.scope, s.phase),
        forall|i: int| 0 <= i < asked.len() ==> is_about(v, s, #[trigger] asked[i]),
        s.phase == Phase::Fetching ==> forall|i: int|
            0 <= i < asked.len() ==> (#[trigger] asked[i]) is FetchRelease,
    ensures
        forall|i: int|
            0 <= i < asked.len() + 1 ==> is_about(
                v,
                m.now,
                #[trigger] asked.push(m.step.action)[i],
            ),
{
    let all = asked.push(m.step.action);
    assert forall|i: int| 0 <= i < all.len() implies is_about(v, m.now, #[trigger] all[i]) by {
        if i < asked.len() {
            assert(all[i] == asked[i]);
            assert(is_about(v, s, asked[i]));
        } else {
            assert(all[i] == m.step.action);
        }
    }
}

proof fn stays_straight(v: PipelineView, before: Seq<EventView>, e: EventView)
    requires
        is_straight(v, before),
    ensures
        is_straight(v, before.push(e)),
{
    let events = before.push(e);
    let s = state_after(v, before);
    assert(events.drop_last() =~= before);
    if let Some(m) = taken(s, e) {
        let asked = actions(v, before);
        let all = asked.push(m.step.action);
        keeps_straight(s, e, m);
        if m.now.phase != Phase::Fetching && m.now.phase != Phase::Finished {
            stays_shown(s, m, reports(v, before));
        }
        stays_about(v, s, m, asked);
        let download = ActionView::Download { url: m.now.binary_url, dest: m.now.archive };
        if has_download(m.now.phase) {
            if m.now.phase == Phase::Downloading {
                assert(all[asked.len() as int] == download);
            } else {
                let i = choose|i: int| 0 <= i < asked.len() && asked[i] == download;
                assert(all[i] == download);
            }
        }
    }
}

proof fn always_straight(v: PipelineView, events: Seq<EventView>)
    requires
        v.phase == Phase::Starting,
    ensures
        is_straight(v, events),
    decreases events.len(),
{
    if events.len() > 0 {
        always_straight(v, events.drop_last());
        stays_straight(v, events.drop_last(), events.last());
        assert(events.drop_last().push(events.last()) =~= events);
    } else {
        assert(actions(v, events).len() == 0);
    }
}

/// Whatever happens in an install, what is downloaded comes from the address that
/// the person was shown, and what is hashed and verified is that download, by the
/// signature that they were shown.
pub proof fn what_was_shown_is_downloaded_and_verified(
    v: PipelineView,
    events: Seq<EventView>,
    i: int,
)
    requires
        v.phase == Phase::Starting,
        0 <= i < actions(v, events).len(),
        state_after(v, events).phase != Phase::Finished,
    ensures
        ({
            let now = state_after(v, events);
            match actions(v, events)[i] {
                ActionView::Download { url, dest } => {
                    &&& url == now.binary_url && dest == now.archive
                    &&& exists|k: int|
                        0 <= k < reports(v, events).len() && ((#[trigger] reports(
                            v,
                            events,
                        )[k]) matches WorkerEventView::State(
                            AppStateView::ConfirmInstall { binary_url, sha256, sig_url, .. },
                        ) && binary_url == url && sha256 == now.sha256 && sig_url == now.sig_url)
                },
                ActionView::HashFile(path) => actions(v, events).contains(
                    ActionView::Download { url: now.binary_url, dest: path },
                ),
                ActionView::VerifySignature { path, sig_url } => {
                    &&& Some(sig_url) == now.sig_url
                    &&& actions(v, events).contains(
                        ActionView::Download { url: now.binary_url, dest: path },
                    )
                },
                _ => true,
            }
        }),
{
    always_straight(v, events);
    let now = state_after(v, events);
    let asked = actions(v, events);
    assert(is_about(v, now, asked[i]));
    if needs_download(asked[i]) {
        follows_the_download(v, events, i);
    }
    if asked[i] is Download {
        let told = reports(v, events);
        let (k, version) = choose|k: int, version: Seq<char>|
            0 <= k < told.len() && #[trigger] told[k] == #[trigger] shown_release(now, version);
        assert(told[k] == shown_release(now, version));
    }
}

/// The action is one that needs a download.
spec fn needs_download(action: ActionView) -> bool {
    action is Download || action is HashFile || action is VerifySignature || action is Run
}

/// Once something that needs a download was asked for, the download was.
proof fn follows_the_download(v: PipelineView, events: Seq<EventView>, i: int)
    requires
        v.phase == Phase::Starting,
        0 <= i < actions(v, events).len(),
        needs_download(actions(v, events)[i]),
    ensures
        ({
            let now = state_after(v, events);
            &&& actions(v, events).contains(
                ActionView::Download { url: now.binary_url, dest: now.archive },
            )
            &&& now.phase != Phase::Starting && now.phase != Phase::Fetching
        }),
    decreases events.len(),
{
    always_straight(v, events);
    if events.len() > 0 {
        let before = events.drop_last();
        let e = events.last();
        let s = state_after(v, before);
        always_straight(v, before);
        let asked = actions(v, before);
        match taken(s, e) {
            Some(m) => {
                let all = asked.push(m.step.action);
                let download = ActionView::Download { url: s.binary_url, dest: s.archive };
                keeps_straight(s, e, m);
                if i < asked.len() {
                    follows_the_download(v, before, i);
                    let k = choose|k: int| 0 <= k < asked.len() && asked[k] == download;
                    assert(all[k] == download);
                } else {
                    assert(all[i] == m.step.action);
                }
            },
            None => {
                follows_the_download(v, before, i);
            },
        }
    }
}

/// In every install on Windows, whatever happens in it, the one thing that is ever
/// run is the file that was downloaded; its last argument is `/D=` and just the
/// directory that was asked for.
pub proof fn windows_runs_the_download_into_the_directory(
    v: PipelineView,
    events: Seq<EventView>,
    i: int,
)
    requires
        v.phase == Phase::Starting,
        v.target.os == Os::Windows,
        0 <= i < actions(v, events).len(),
        actions(v, events)[i] is Run,
    ensures
        actions(v, events)[i] matches ActionView::Run { command, stdin } && {
            &&& command.args.len() > 0 && command.args.last() == "/D="@ + v.install_dir
            &&& command.args.drop_last() == seq!["/S"@]
            &&& stdin is None
            &&& actions(v, events).contains(
                ActionView::Download {
                    url: state_after(v, events).binary_url,
                    dest: command.program,
                },
            )
        },
{
    always_straight(v, events);
    assert(is_about(v, state_after(v, events), actions(v, events)[i]));
    follows_the_download(v, events, i);
    assert(seq!["/S"@, "/D="@ + v.install_dir].drop_last() =~= seq!["/S"@]);
}

/// In every install on Linux, whatever happens in it, the one thing that is ever
/// run unpacks the file that was downloaded into just the directory that was asked
/// for: by `tar` for one account, and by `sudo` for all users.
pub proof fn linux_unpacks_the_download_into_the_directory(
    v: PipelineView,
    events: Seq<EventView>,
    i: int,
)
    requires
        v.phase == Phase::Starting,
        v.target.os == Os::Linux,
        0 <= i < actions(v, events).len(),
        actions(v, events)[i] is Run,
    ensures
        actions(v, events).contains(
            ActionView::Download {
                url: state_after(v, events).binary_url,
                dest: state_after(v, events).archive,
            },
        ),
        v.scope == InstallScope::User ==> actions(v, events)[i] == (ActionView::Run {
            command: CommandView {
                program: "tar"@,
                args: seq!["-xJf"@, state_after(v, events).archive, "-C"@, v.install_dir],
            },
            stdin: None,
        }),
        v.scope == InstallScope::Global ==> actions(v, events)[i] == (ActionView::Run {
            command: sudo_view(unpack_command_text(v.install_dir, state_after(v, events).archive)),
            stdin: Some(v.password + "\n"@),
        }),
{
    always_straight(v, events);
    assert(is_about(v, state_after(v, events), actions(v, events)[i]));
    follows_the_download(v, events, i);
    if v.scope == InstallScope::User {
        assert(actions(v, events)[i] =~= (ActionView::Run {
            command: CommandView {
                program: "tar"@,
                args: seq!["-xJf"@, state_after(v, events).archive, "-C"@, v.install_dir],
            },
            stdin: None,
        }));
    }
}

/// Nothing is run where there is no install routine.
pub proof fn nothing_is_run_on_other_systems(v: PipelineView, events: Seq<EventView>, i: int)
    requires
        v.phase == Phase::Starting,
        v.target.os == Os::Other,
        0 <= i < actions(v, events).len(),
    ensures
        !(actions(v, events)[i] is Run),
{
    always_straight(v, events);
    assert(is_about(v, state_after(v, events), actions(v, events)[i]));
}

/// What an install on Linux or Windows reports as installed is what is run to
/// start it: an event of the install has named that path.
pub proof fn what_is_reported_is_what_is_started(
    v: PipelineView,
    events: Seq<EventView>,
    path: Seq<char>,
)
    requires
        v.phase == Phase::Starting,
        v.target.os == Os::Linux || v.target.os == Os::Windows,
        reports(v, events).contains(success_at(path)),
    ensures
        launch_view(v.target.os, path) == Some(
            CommandView { program: path, args: Seq::<Seq<char>>::empty() },
        ),
        happened(v, events, |s: PipelineView, e: EventView| names_path(s, e, path)),
{
    success_is_grounded(v, events, path);
}

} // verus!
