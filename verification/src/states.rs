//! The states of the app, and what the worker tells the UI.

use vstd::prelude::*;
use crate::text::{copy_of, optional_text};

verus! {

/// What the app is doing.
#[derive(Debug)]
pub enum AppState {
    Idle,
    Checking,
    AlreadyInstalled { app_path: String },
    ConfirmInstall {
        version: String,
        binary_url: String,
        sha256: Option<String>,
        sig_url: Option<String>,
    },
    /// Bytes received, and bytes in all; a total of 0 is not known.
    Downloading { downloaded: u64, total: u64 },
    Verifying,
    VerifyingSignature,
    Installing { stage: String },
    Complete { app_path: String },
    Error(String),
}

/// What the app is doing, as texts.
pub enum AppStateView {
    Idle,
    Checking,
    AlreadyInstalled { app_path: Seq<char> },
    ConfirmInstall {
        version: Seq<char>,
        binary_url: Seq<char>,
        sha256: Option<Seq<char>>,
        sig_url: Option<Seq<char>>,
    },
    Downloading { downloaded: u64, total: u64 },
    Verifying,
    VerifyingSignature,
    Installing { stage: Seq<char> },
    Complete { app_path: Seq<char> },
    Error(Seq<char>),
}

impl View for AppState {
    type V = AppStateView;

    open spec fn view(&self) -> AppStateView {
        match self {
            AppState::Idle => AppStateView::Idle,
            AppState::Checking => AppStateView::Checking,
            AppState::AlreadyInstalled { app_path } => AppStateView::AlreadyInstalled {
                app_path: app_path@,
            },
            AppState::ConfirmInstall { version, binary_url, sha256, sig_url } =>
            AppStateView::ConfirmInstall {
                version: version@,
                binary_url: binary_url@,
                sha256: optional_text(*sha256),
                sig_url: optional_text(*sig_url),
            },
            AppState::Downloading { downloaded, total } => AppStateView::Downloading {
                downloaded: *downloaded,
                total: *total,
            },
            AppState::Verifying => AppStateView::Verifying,
            AppState::VerifyingSignature => AppStateView::VerifyingSignature,
            AppState::Installing { stage } => AppStateView::Installing { stage: stage@ },
            AppState::Complete { app_path } => AppStateView::Complete { app_path: app_path@ },
            AppState::Error(e) => AppStateView::Error(e@),
        }
    }
}

impl Clone for AppState {
    fn clone(&self) -> (r: AppState)
        ensures
            r@ == self@,
    {
        match self {
            AppState::Idle => AppState::Idle,
            AppState::Checking => AppState::Checking,
            AppState::AlreadyInstalled { app_path } => AppState::AlreadyInstalled {
                app_path: app_path.clone(),
            },
            AppState::ConfirmInstall { version, binary_url, sha256, sig_url } =>
            AppState::ConfirmInstall {
                version: version.clone(),
                binary_url: binary_url.clone(),
                sha256: copy_of(sha256),
                sig_url: copy_of(sig_url),
            },
            AppState::Downloading { downloaded, total } => AppState::Downloading {
                downloaded: *downloaded,
                total: *total,
            },
            AppState::Verifying => AppState::Verifying,
            AppState::VerifyingSignature => AppState::VerifyingSignature,
            AppState::Installing { stage } => AppState::Installing { stage: stage.clone() },
            AppState::Complete { app_path } => AppState::Complete { app_path: app_path.clone() },
            AppState::Error(e) => AppState::Error(e.clone()),
        }
    }
}

/// Messages sent from the background worker thread back to the UI thread.
pub enum WorkerEvent {
    State(AppState),
    /// A shell/system command the worker is about to run (or its result),
    /// shown to the person in the "View commands" panel. Passwords are
    /// never included in these lines.
    Log(String),
}

/// Messages of the worker, as texts.
pub enum WorkerEventView {
    State(AppStateView),
    Log(Seq<char>),
}

impl View for WorkerEvent {
    type V = WorkerEventView;

    open spec fn view(&self) -> WorkerEventView {
        match self {
            WorkerEvent::State(s) => WorkerEventView::State(s@),
            WorkerEvent::Log(line) => WorkerEventView::Log(line@),
        }
    }
}

/// A list of messages, as texts.
pub open spec fn event_views(events: Seq<WorkerEvent>) -> Seq<WorkerEventView> {
    events.map_values(|e: WorkerEvent| e@)
}

/// The report that an install has ended, one way or the other.
pub open spec fn is_outcome(note: WorkerEventView) -> bool {
    match note {
        WorkerEventView::State(AppStateView::Complete { .. }) => true,
        WorkerEventView::State(AppStateView::Error(_)) => true,
        _ => false,
    }
}

/// The report that Tor Browser is installed.
pub open spec fn is_success(note: WorkerEventView) -> bool {
    note matches WorkerEventView::State(AppStateView::Complete { .. })
}

/// The progress of a download.
pub struct Download {
    downloaded: u64,
    total: u64,
}

impl Download {
    /// Bytes received so far.
    pub closed spec fn received(&self) -> u64 {
        self.downloaded
    }

    /// Bytes in all, 0 if that is not known.
    pub closed spec fn expected(&self) -> u64 {
        self.total
    }

    /// Nothing received yet of a body of the length that the server announced,
    /// if it announced any.
    pub fn new(content_length: Option<u64>) -> (r: Download)
        ensures
            r.received() == 0,
            r.expected() == (match content_length {
                Some(n) => n,
                None => 0,
            }),
    {
        let total = match content_length {
            Some(n) => n,
            None => 0,
        };
        Download { downloaded: 0, total }
    }

    /// Takes note of `n` more bytes, and gives the state to show.
    pub fn advance(&mut self, n: u64) -> (r: AppState)
        requires
            old(self).received() + n <= u64::MAX,
        ensures
            final(self).received() == old(self).received() + n,
            final(self).expected() == old(self).expected(),
            r@ == (AppStateView::Downloading {
                downloaded: final(self).received(),
                total: final(self).expected(),
            }),
    {
        self.downloaded = self.downloaded + n;
        AppState::Downloading { downloaded: self.downloaded, total: self.total }
    }
}

/// What a download fails with when the server answers with this status.
pub fn download_refusal(status: &str) -> (r: String)
    ensures
        r@ == "server returned "@ + status@,
{
    crate::text::cat2("server returned ", status)
}

/// An install has ended when it is reported to be complete or to have failed, and
/// by no other report.
pub proof fn outcomes_are_success_or_failure(note: WorkerEventView)
    ensures
        is_outcome(note) <==> (note matches WorkerEventView::State(s) && (s is Complete
            || s is Error)),
        is_success(note) <==> (note matches WorkerEventView::State(s) && s is Complete),
{
}

} // verus!
