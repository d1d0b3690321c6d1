//! What the background worker is told and what it is told to do.
//!
//! Whatever touches the outside world is an action that the worker thread
//! performs; what came of it comes back as an event.

use vstd::prelude::*;
use crate::commands::{
    run_result, CommandView, Exit, ExitView, RunFailure, RunFailureView, SystemCommand,
};
use crate::release::{release_result, ReleaseInfo, ReleaseView};
use crate::states::{event_views, WorkerEvent, WorkerEventView};
use crate::text::{optional_text, texts};

verus! {

// ---------------------------------------------------------------------
// Events and actions
// ---------------------------------------------------------------------

/// Why a file operation failed.
pub struct IoFailure {
    pub permission_denied: bool,
    pub message: String,
}

/// Why a file operation failed, as a text.
pub struct IoFailureView {
    pub permission_denied: bool,
    pub message: Seq<char>,
}

impl View for IoFailure {
    type V = IoFailureView;

    open spec fn view(&self) -> IoFailureView {
        IoFailureView { permission_denied: self.permission_denied, message: self.message@ }
    }
}

/// What the person answered when asked to confirm the install.
#[derive(Debug, Clone, Copy, PartialEq, Eq, Structural)]
pub enum Answer {
    Proceed,
    Cancel,
    /// The window went away without an answer.
    Closed,
}

/// What came of the last action.
pub enum Event {
    /// The worker has started.
    Started,
    Release(Result<ReleaseInfo, String>),
    Answered(Answer),
    /// A file operation, a download, a signature check or a pause has ended.
    Done(Result<(), IoFailure>),
    Digest(Result<String, String>),
    Ran(Result<Exit, RunFailure>),
    Listed(Result<Vec<String>, String>),
    PathExists(bool),
    Found(Option<String>),
}

/// What came of the last action, as texts.
pub enum EventView {
    Started,
    Release(Result<ReleaseView, Seq<char>>),
    Answered(Answer),
    Done(Result<(), IoFailureView>),
    Digest(Result<Seq<char>, Seq<char>>),
    Ran(Result<ExitView, RunFailureView>),
    Listed(Result<Seq<Seq<char>>, Seq<char>>),
    PathExists(bool),
    Found(Option<Seq<char>>),
}

/// The result of a file operation, as a text.
pub open spec fn io_result(r: Result<(), IoFailure>) -> Result<(), IoFailureView> {
    match r {
        Ok(_) => Ok(()),
        Err(e) => Err(e@),
    }
}

/// The result of a computation on a file, as a text.
pub open spec fn text_result(r: Result<String, String>) -> Result<Seq<char>, Seq<char>> {
    match r {
        Ok(s) => Ok(s@),
        Err(e) => Err(e@),
    }
}

/// The result of listing a directory, as texts.
pub open spec fn listing_result(r: Result<Vec<String>, String>) -> Result<
    Seq<Seq<char>>,
    Seq<char>,
> {
    match r {
        Ok(names) => Ok(texts(names@)),
        Err(e) => Err(e@),
    }
}

impl View for Event {
    type V = EventView;

    open spec fn view(&self) -> EventView {
        match self {
            Event::Started => EventView::Started,
            Event::Release(r) => EventView::Release(release_result(*r)),
            Event::Answered(a) => EventView::Answered(*a),
            Event::Done(r) => EventView::Done(io_result(*r)),
            Event::Digest(r) => EventView::Digest(text_result(*r)),
            Event::Ran(r) => EventView::Ran(run_result(*r)),
            Event::Listed(r) => EventView::Listed(listing_result(*r)),
            Event::PathExists(b) => EventView::PathExists(*b),
            Event::Found(p) => EventView::Found(optional_text(*p)),
        }
    }
}

/// What the worker thread is to do next.
pub enum Action {
    FetchRelease,
    AskConfirmation,
    CreateDir(String),
    Download { url: String, dest: String },
    HashFile(String),
    VerifySignature { path: String, sig_url: String },
    RemoveFile(String),
    RemoveDir(String),
    CheckPath(String),
    ListDir(String),
    FindFile { root: String, name: String },
    FindBundle { root: String },
    MakeExecutable(String),
    /// Run a command, with this text on its standard input, if any.
    Run { command: SystemCommand, stdin: Option<String> },
    /// Wait for some milliseconds.
    Pause(u64),
    Finish,
}

/// What the worker thread is to do next, as texts.
#[verifier::ext_equal]
pub enum ActionView {
    FetchRelease,
    AskConfirmation,
    CreateDir(Seq<char>),
    Download { url: Seq<char>, dest: Seq<char> },
    HashFile(Seq<char>),
    VerifySignature { path: Seq<char>, sig_url: Seq<char> },
    RemoveFile(Seq<char>),
    RemoveDir(Seq<char>),
    CheckPath(Seq<char>),
    ListDir(Seq<char>),
    FindFile { root: Seq<char>, name: Seq<char> },
    FindBundle { root: Seq<char> },
    MakeExecutable(Seq<char>),
    Run { command: CommandView, stdin: Option<Seq<char>> },
    Pause(u64),
    Finish,
}

impl View for Action {
    type V = ActionView;

    open spec fn view(&self) -> ActionView {
        match self {
            Action::FetchRelease => ActionView::FetchRelease,
            Action::AskConfirmation => ActionView::AskConfirmation,
            Action::CreateDir(p) => ActionView::CreateDir(p@),
            Action::Download { url, dest } => ActionView::Download { url: url@, dest: dest@ },
            Action::HashFile(p) => ActionView::HashFile(p@),
            Action::VerifySignature { path, sig_url } => ActionView::VerifySignature {
                path: path@,
                sig_url: sig_url@,
            },
            Action::RemoveFile(p) => ActionView::RemoveFile(p@),
            Action::RemoveDir(p) => ActionView::RemoveDir(p@),
            Action::CheckPath(p) => ActionView::CheckPath(p@),
            Action::ListDir(p) => ActionView::ListDir(p@),
            Action::FindFile { root, name } => ActionView::FindFile { root: root@, name: name@ },
            Action::FindBundle { root } => ActionView::FindBundle { root: root@ },
            Action::MakeExecutable(p) => ActionView::MakeExecutable(p@),
            Action::Run { command, stdin } => ActionView::Run {
                command: command@,
                stdin: optional_text(*stdin),
            },
            Action::Pause(ms) => ActionView::Pause(*ms),
            Action::Finish => ActionView::Finish,
        }
    }
}

/// What to report to the UI, in this order, and what to do then.
pub struct Step {
    pub notes: Vec<WorkerEvent>,
    pub action: Action,
}

/// What to report and what to do then, as texts.
#[verifier::ext_equal]
pub struct StepView {
    pub notes: Seq<WorkerEventView>,
    pub action: ActionView,
}

impl View for Step {
    type V = StepView;

    open spec fn view(&self) -> StepView {
        StepView { notes: event_views(self.notes@), action: self.action@ }
    }
}

// ---------------------------------------------------------------------
// Phases
// ---------------------------------------------------------------------

/// Where an app bundle is copied from.
#[derive(Debug, Clone, Copy, PartialEq, Eq, Structural)]
pub enum Route {
    /// From the mounted disk image.
    Mounted,
    /// From the directory that 7-Zip extracted the disk image to.
    Extracted,
}

/// The names under which 7-Zip is installed. `sevenzip` (Homebrew) installs
/// `7zz`; `p7zip` installs `7z`/`7za`.
#[derive(Debug, Clone, Copy, PartialEq, Eq, Structural)]
pub enum SevenZip {
    Zz,
    Z,
    Za,
}

/// The action whose result the pipeline is waiting for.
#[derive(Debug, Clone, Copy, PartialEq, Eq, Structural)]
pub enum Phase {
    Starting,
    Fetching,
    Confirming,
    MakingTempDir,
    Downloading,
    Hashing,
    CheckingSignature,
    // macOS
    ListingStale,
    DetachingStale,
    Pausing(u8),
    ListingBefore(u8),
    Attaching(u8),
    ListingAfter(u8),
    ListingImage,
    CopyingAsRoot(Route),
    MakingBundleDir(Route),
    LookingForBundle(Route),
    RemovingBundle(Route),
    CopyingBundle(Route),
    AskingAdministrator(Route),
    /// Unmounting, after the copy went well or not.
    Detaching(bool),
    LookingForTool(SevenZip),
    ClearingExtract(SevenZip),
    MakingExtract(SevenZip),
    Extracting(SevenZip),
    FindingBundle,
    RemovingExtract,
    // Linux
    UnpackingAsRoot,
    MakingUnpackDir,
    Unpacking,
    FindingLauncher,
    MarkingLauncher,
    // Windows
    MakingInstallerDir,
    RunningInstaller,
    FindingFirefox,
    FindingTorBrowser,
    // all
    CleaningUp,
    Finished,
}

} // verus!
