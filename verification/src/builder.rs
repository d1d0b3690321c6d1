//! What the window shows and how it changes: by what the person does, and by
//! what the worker reports.

use vstd::prelude::*;
use crate::palette::Theme;
use crate::platform::{
    default_install_path, default_location, label_of, offers_global, optional_slice,
    platform_label, scope_location, wants_password, InstallScope, Os, Target,
};
use crate::release::app_version;
use crate::states::{
    event_views, is_outcome, AppState, AppStateView, WorkerEvent, WorkerEventView,
};
use crate::text::{cat2, cat3, decimal, decimal_text, optional_text, owned, texts};

verus! {

broadcast use vstd::string::group_string_axioms;

/// The state of the window.
pub struct TorBrowserBuilder {
    target: Target,
    state: AppState,
    installation_path: String,
    listening: bool,
    asked: bool,
    theme: Theme,
    install_scope: InstallScope,
    sudo_password: String,
    reveal_password: bool,
    command_log: Vec<String>,
    show_command_log: bool,
    show_about: bool,
}

/// The state of the window, as texts.
#[verifier::ext_equal]
pub struct BuilderView {
    pub target: Target,
    pub state: AppStateView,
    /// Where to install to: what the text field shows.
    pub installation_path: Seq<char>,
    /// Whether reports of a worker are taken.
    pub listening: bool,
    /// Whether a worker can still be told to go on or not.
    pub asked: bool,
    pub theme: Theme,
    /// Whether this run installs for the current user only or system-wide.
    pub install_scope: InstallScope,
    /// The sudo/administrator password for a Global install. Kept only in
    /// memory, sent once to the worker thread when the install starts, and
    /// never logged.
    pub sudo_password: Seq<char>,
    /// Whether the password field shows plain text or dots.
    pub reveal_password: bool,
    /// Every command the worker has run so far this session, newest last —
    /// shown in the "View commands" panel.
    pub command_log: Seq<Seq<char>>,
    /// Whether the "View commands" panel is expanded.
    pub show_command_log: bool,
    /// Whether the About overlay is open.
    pub show_about: bool,
}

impl View for TorBrowserBuilder {
    type V = BuilderView;

    closed spec fn view(&self) -> BuilderView {
        BuilderView {
            target: self.target,
            state: self.state@,
            installation_path: self.installation_path@,
            listening: self.listening,
            asked: self.asked,
            theme: self.theme,
            install_scope: self.install_scope,
            sudo_password: self.sudo_password@,
            reveal_password: self.reveal_password,
            command_log: texts(self.command_log@),
            show_command_log: self.show_command_log,
            show_about: self.show_about,
        }
    }
}

// ---------------------------------------------------------------------
// Reports of the worker
// ---------------------------------------------------------------------

/// The state that is shown after some reports.
pub open spec fn shown_after(state: AppStateView, events: Seq<WorkerEventView>) -> AppStateView
    decreases events.len(),
{
    if events.len() == 0 {
        state
    } else {
        match events.last() {
            WorkerEventView::State(s) => s,
            WorkerEventView::Log(_) => shown_after(state, events.drop_last()),
        }
    }
}

/// The lines among some reports.
pub open spec fn logged(events: Seq<WorkerEventView>) -> Seq<Seq<char>>
    decreases events.len(),
{
    if events.len() == 0 {
        Seq::<Seq<char>>::empty()
    } else {
        match events.last() {
            WorkerEventView::State(_) => logged(events.drop_last()),
            WorkerEventView::Log(line) => logged(events.drop_last()).push(line),
        }
    }
}

/// One of the reports says that the install has ended.
pub open spec fn has_outcome(events: Seq<WorkerEventView>) -> bool {
    exists|i: int| 0 <= i < events.len() && is_outcome(#[trigger] events[i])
}

/// The window after some reports: it takes them while it listens, and listens
/// until the install has ended.
pub open spec fn polled(v: BuilderView, events: Seq<WorkerEventView>) -> BuilderView {
    if v.listening {
        BuilderView {
            state: shown_after(v.state, events),
            command_log: v.command_log + logged(events),
            listening: !has_outcome(events),
            ..v
        }
    } else {
        v
    }
}

/// The window after a scope was clicked: another scope than the one that is
/// selected brings its own install location along.
pub open spec fn scope_selected(
    v: BuilderView,
    scope: InstallScope,
    home: Option<Seq<char>>,
    local_app_data: Option<Seq<char>>,
) -> BuilderView {
    if scope == v.install_scope {
        v
    } else {
        BuilderView {
            install_scope: scope,
            installation_path: scope_location(scope, v.target.os, home, local_app_data),
            ..v
        }
    }
}

/// What an install is started with.
pub struct InstallRequest {
    pub target: Target,
    pub install_dir: String,
    pub scope: InstallScope,
    pub password: String,
}

fn is_end(state: &AppState) -> (r: bool)
    ensures
        r == is_outcome(WorkerEventView::State(state@)),
{
    match state {
        AppState::Complete { .. } => true,
        AppState::Error(_) => true,
        _ => false,
    }
}

impl TorBrowserBuilder {
    /// The window as it opens. `existing` is where Tor Browser is installed
    /// already, if it is.
    pub fn new(
        target: Target,
        home: Option<&str>,
        local_app_data: Option<&str>,
        existing: Option<String>,
    ) -> (r: TorBrowserBuilder)
        ensures
            r@ == (BuilderView {
                target,
                state: match existing {
                    Some(path) => AppStateView::AlreadyInstalled { app_path: path@ },
                    None => AppStateView::Idle,
                },
                installation_path: default_location(
                    target.os,
                    optional_slice(home),
                    optional_slice(local_app_data),
                ),
                listening: false,
                asked: false,
                theme: Theme::Light,
                install_scope: InstallScope::User,
                sudo_password: Seq::<char>::empty(),
                reveal_password: false,
                command_log: Seq::<Seq<char>>::empty(),
                show_command_log: false,
                show_about: false,
            }),
    {
        let state = match existing {
            Some(path) => AppState::AlreadyInstalled { app_path: path },
            None => AppState::Idle,
        };
        let r = TorBrowserBuilder {
            target,
            state,
            installation_path: default_install_path(target.os, home, local_app_data),
            listening: false,
            asked: false,
            theme: Theme::Light,
            install_scope: InstallScope::User,
            sudo_password: String::new(),
            reveal_password: false,
            command_log: Vec::new(),
            show_command_log: false,
            show_about: false,
        };
        assert(r@.command_log =~= Seq::<Seq<char>>::empty());
        assert(r@.sudo_password =~= Seq::<char>::empty());
        r
    }

    /// Starts an install: the answer is what to hand to its worker.
    pub fn start_download(&mut self) -> (r: InstallRequest)
        ensures
            final(self)@ == (BuilderView {
                state: AppStateView::Checking,
                listening: true,
                asked: true,
                command_log: Seq::<Seq<char>>::empty(),
                ..old(self)@
            }),
            r.target == old(self)@.target,
            r.install_dir@ == old(self)@.installation_path,
            r.scope == old(self)@.install_scope,
            r.password@ == old(self)@.sudo_password,
    {
        self.listening = true;
        self.asked = true;
        self.state = AppState::Checking;
        self.command_log = Vec::new();
        assert(self@.command_log =~= Seq::<Seq<char>>::empty());
        InstallRequest {
            target: self.target,
            install_dir: owned(self.installation_path.as_str()),
            scope: self.install_scope,
            password: owned(self.sudo_password.as_str()),
        }
    }

    /// What to tell the worker when the person has answered its question: the
    /// answer, but only once.
    pub fn send_confirm(&mut self, proceed: bool) -> (r: Option<bool>)
        ensures
            final(self)@ == (BuilderView { asked: false, ..old(self)@ }),
            r == (if old(self)@.asked {
                Some(proceed)
            } else {
                None
            }),
    {
        if self.asked {
            self.asked = false;
            Some(proceed)
        } else {
            None
        }
    }

    /// The person does not want the install after all: the answer is what to
    /// tell the worker, and nothing that it still reports is shown.
    pub fn cancel_confirm(&mut self) -> (r: Option<bool>)
        ensures
            final(self)@ == (BuilderView {
                asked: false,
                listening: false,
                state: AppStateView::Idle,
                ..old(self)@
            }),
            r == (if old(self)@.asked {
                Some(false)
            } else {
                None
            }),
    {
        let r = self.send_confirm(false);
        self.listening = false;
        self.state = AppState::Idle;
        r
    }

    /// The person turns away from a download: nothing that the worker still
    /// reports is shown.
    pub fn cancel_download(&mut self)
        ensures
            final(self)@ == (BuilderView {
                listening: false,
                state: AppStateView::Idle,
                ..old(self)@
            }),
    {
        self.listening = false;
        self.state = AppState::Idle;
    }

    /// Back to the start after an error.
    pub fn try_again(&mut self)
        ensures
            final(self)@ == (BuilderView { state: AppStateView::Idle, ..old(self)@ }),
    {
        self.state = AppState::Idle;
    }

    /// Takes the reports that have come in since the last frame. The answer is
    /// whether more are to come.
    pub fn poll_worker(&mut self, events: Vec<WorkerEvent>) -> (r: bool)
        ensures
            final(self)@ == polled(old(self)@, event_views(events@)),
            r == final(self)@.listening,
    {
        if !self.listening {
            return false;
        }
        let ghost all = event_views(events@);
        let ghost before = self@;
        let mut done = false;
        assert(self@.command_log =~= before.command_log + logged(all.take(0)));
        for event in reports: events
            invariant
                all == event_views(reports.seq()),
                self@ == (BuilderView {
                    state: shown_after(before.state, all.take(reports.index() as int)),
                    command_log: before.command_log + logged(all.take(reports.index() as int)),
                    ..before
                }),
                done == has_outcome(all.take(reports.index() as int)),
        {
            let ghost i = reports.index() as int;
            let ghost lines = self@.command_log;
            proof {
                assert(all.take(i + 1).drop_last() =~= all.take(i));
                assert(all.take(i + 1).last() == event@);
                outcome_of_more(all.take(i), event@);
                assert(all.take(i).push(event@) =~= all.take(i + 1));
            }
            match event {
                WorkerEvent::State(s) => {
                    if is_end(&s) {
                        done = true;
                    }
                    self.state = s;
                },
                WorkerEvent::Log(line) => {
                    let ghost old_log = self.command_log@;
                    self.command_log.push(line);
                    proof {
                        assert(texts(self.command_log@) =~= texts(old_log).push(line@));
                        assert(before.command_log + logged(all.take(i + 1)) =~= lines.push(line@));
                    }
                },
            }
        }
        assert(all.take(all.len() as int) =~= all);
        if done {
            self.listening = false;
        }
        self.listening
    }

    // --- what the person does ----------------------------------------

    /// The text field with the install location was edited.
    pub fn edit_path(&mut self, text: String)
        ensures
            final(self)@ == (BuilderView { installation_path: text@, ..old(self)@ }),
    {
        self.installation_path = text;
    }

    /// The password field was edited.
    pub fn edit_password(&mut self, text: String)
        ensures
            final(self)@ == (BuilderView { sudo_password: text@, ..old(self)@ }),
    {
        self.sudo_password = text;
    }

    /// A scope was clicked: another scope than the one that is selected brings
    /// its own install location along.
    pub fn select_scope(
        &mut self,
        scope: InstallScope,
        home: Option<&str>,
        local_app_data: Option<&str>,
    )
        ensures
            final(self)@ == scope_selected(
                old(self)@,
                scope,
                optional_slice(home),
                optional_slice(local_app_data),
            ),
    {
        if scope != self.install_scope {
            self.install_scope = scope;
            self.installation_path = scope.default_path(self.target.os, home, local_app_data);
        }
    }

    pub fn toggle_password(&mut self)
        ensures
            final(self)@ == (BuilderView {
                reveal_password: !old(self)@.reveal_password,
                ..old(self)@
            }),
    {
        self.reveal_password = !self.reveal_password;
    }

    pub fn toggle_command_log(&mut self)
        ensures
            final(self)@ == (BuilderView {
                show_command_log: !old(self)@.show_command_log,
                ..old(self)@
            }),
    {
        self.show_command_log = !self.show_command_log;
    }

    pub fn toggle_theme(&mut self)
        ensures
            final(self)@ == (BuilderView { theme: old(self)@.theme.other(), ..old(self)@ }),
    {
        self.theme = self.theme.toggled();
    }

    pub fn open_about(&mut self)
        ensures
            final(self)@ == (BuilderView { show_about: true, ..old(self)@ }),
    {
        self.show_about = true;
    }

    pub fn close_about(&mut self)
        ensures
            final(self)@ == (BuilderView { show_about: false, ..old(self)@ }),
    {
        self.show_about = false;
    }

    // --- what is shown ------------------------------------------------

    pub fn state(&self) -> (r: &AppState)
        ensures
            r@ == self@.state,
    {
        &self.state
    }

    pub fn installation_path(&self) -> (r: &str)
        ensures
            r@ == self@.installation_path,
    {
        self.installation_path.as_str()
    }

    pub fn theme(&self) -> (r: Theme)
        ensures
            r == self@.theme,
    {
        self.theme
    }

    pub fn install_scope(&self) -> (r: InstallScope)
        ensures
            r == self@.install_scope,
    {
        self.install_scope
    }

    pub fn sudo_password(&self) -> (r: &str)
        ensures
            r@ == self@.sudo_password,
    {
        self.sudo_password.as_str()
    }

    pub fn reveal_password(&self) -> (r: bool)
        ensures
            r == self@.reveal_password,
    {
        self.reveal_password
    }

    pub fn command_log(&self) -> (r: &Vec<String>)
        ensures
            texts(r@) == self@.command_log,
    {
        &self.command_log
    }

    pub fn show_command_log(&self) -> (r: bool)
        ensures
            r == self@.show_command_log,
    {
        self.show_command_log
    }

    pub fn show_about(&self) -> (r: bool)
        ensures
            r == self@.show_about,
    {
        self.show_about
    }

    /// Whether the person can choose between the scopes. Windows uses its own
    /// installer-driven elevation instead.
    pub fn offers_scopes(&self) -> (r: bool)
        ensures
            r == offers_global(self@.target.os),
    {
        self.target.os == Os::MacOs || self.target.os == Os::Linux
    }

    /// Whether the password field is shown.
    pub fn asks_password(&self) -> (r: bool)
        ensures
            r == wants_password(self@.install_scope, self@.target.os),
    {
        self.install_scope.needs_password(self.target.os)
    }

    /// The label of the button beside the password field.
    pub fn password_button(&self) -> (r: &'static str)
        ensures
            r@ == (if self@.reveal_password {
                "Hide"@
            } else {
                "Show"@
            }),
    {
        if self.reveal_password {
            "Hide"
        } else {
            "Show"
        }
    }

    /// The label of the "View commands" panel. The panel is hidden entirely
    /// until there is at least one command to show.
    pub fn command_log_label(&self) -> (r: Option<String>)
        ensures
            optional_text(r) == (if self@.command_log.len() == 0 {
                None
            } else {
                Some("   View commands ("@ + decimal_text(self@.command_log.len()) + " run)"@)
            }),
    {
        let n: usize = self.command_log.len();
        if n == 0 {
            None
        } else {
            let count = decimal(n);
            Some(cat3("   View commands (", count.as_str(), " run)"))
        }
    }

    /// The line under the install button.
    pub fn platform_line(&self) -> (r: String)
        ensures
            r@ == "Builds a native install for "@ + label_of(self@.target.os),
    {
        cat2("Builds a native install for ", platform_label(self.target))
    }
}

proof fn outcome_of_more(events: Seq<WorkerEventView>, e: WorkerEventView)
    ensures
        has_outcome(events.push(e)) == (has_outcome(events) || is_outcome(e)),
{
    let more = events.push(e);
    if has_outcome(events) {
        let i = choose|i: int| 0 <= i < events.len() && is_outcome(#[trigger] events[i]);
        assert(is_outcome(more[i]));
    }
    if is_outcome(e) {
        assert(is_outcome(more[events.len() as int]));
    }
    if has_outcome(more) {
        let i = choose|i: int| 0 <= i < more.len() && is_outcome(#[trigger] more[i]);
        if i < events.len() {
            assert(is_outcome(events[i]));
        }
    }
}

// ---------------------------------------------------------------------
// Texts
// ---------------------------------------------------------------------

/// What is shown of something that the release may lack.
pub open spec fn or_not_available(s: Option<Seq<char>>) -> Seq<char> {
    match s {
        Some(text) => text,
        None => "not available"@,
    }
}

fn shown_or_not_available(s: &Option<String>) -> (r: String)
    ensures
        r@ == or_not_available(optional_text(*s)),
{
    match s {
        Some(text) => owned(text.as_str()),
        None => owned("not available"),
    }
}

/// A field of the confirmation screen: its label and its value.
pub struct ConfirmField {
    pub label: &'static str,
    pub value: String,
}

/// The fields of the confirmation screen, in the order in which they are shown.
pub fn confirm_fields(
    version: &str,
    binary_url: &str,
    sha256: &Option<String>,
    sig_url: &Option<String>,
) -> (r: Vec<ConfirmField>)
    ensures
        r@.len() == 4,
        r@[0].label@ == "Version"@ && r@[0].value@ == version@,
        r@[1].label@ == "Binary URL"@ && r@[1].value@ == binary_url@,
        r@[2].label@ == "SHA-256"@ && r@[2].value@ == or_not_available(optional_text(*sha256)),
        r@[3].label@ == "Signature URL"@ && r@[3].value@ == or_not_available(
            optional_text(*sig_url),
        ),
{
    let mut r: Vec<ConfirmField> = Vec::new();
    r.push(ConfirmField { label: "Version", value: owned(version) });
    r.push(ConfirmField { label: "Binary URL", value: owned(binary_url) });
    r.push(ConfirmField { label: "SHA-256", value: shown_or_not_available(sha256) });
    r.push(ConfirmField { label: "Signature URL", value: shown_or_not_available(sig_url) });
    r
}

/// Where an earlier install was found.
pub fn found_line(app_path: &str) -> (r: String)
    ensures
        r@ == "Found at "@ + app_path@,
{
    cat2("Found at ", app_path)
}

/// Where Tor Browser is now installed.
pub fn ready_line(app_path: &str) -> (r: String)
    ensures
        r@ == "Tor Browser is ready at "@ + app_path@,
{
    cat2("Tor Browser is ready at ", app_path)
}

/// The version line of the About screen.
pub fn version_line() -> (r: String)
    ensures
        r@ == "Version "@ + "0.07"@,
{
    cat2("Version ", app_version())
}

/// The credit of the About screen.
pub fn author_line() -> (r: String)
    ensures
        r@ == "Made by "@ + "Ribhav Sai Ramanuja Revalli"@,
{
    cat2("Made by ", "Ribhav Sai Ramanuja Revalli")
}

// ---------------------------------------------------------------------
// Laws
// ---------------------------------------------------------------------

proof fn shown_after_both(
    state: AppStateView,
    a: Seq<WorkerEventView>,
    b: Seq<WorkerEventView>,
)
    ensures
        shown_after(state, a + b) == shown_after(shown_after(state, a), b),
    decreases b.len(),
{
    if b.len() == 0 {
        assert(a + b =~= a);
    } else {
        assert((a + b).drop_last() =~= a + b.drop_last());
        assert((a + b).last() == b.last());
        shown_after_both(state, a, b.drop_last());
    }
}

proof fn logged_both(a: Seq<WorkerEventView>, b: Seq<WorkerEventView>)
    ensures
        logged(a + b) == logged(a) + logged(b),
    decreases b.len(),
{
    if b.len() == 0 {
        assert(a + b =~= a);
        assert(logged(a) + logged(b) =~= logged(a));
    } else {
        assert((a + b).drop_last() =~= a + b.drop_last());
        assert((a + b).last() == b.last());
        logged_both(a, b.drop_last());
        assert(logged(a + b) =~= logged(a) + logged(b));
    }
}

/// It does not matter how the reports of an install are spread over the frames:
/// while the install has not ended, taking some and then the others is taking
/// them all at once.
pub proof fn polling_in_parts(
    v: BuilderView,
    a: Seq<WorkerEventView>,
    b: Seq<WorkerEventView>,
)
    requires
        !has_outcome(a),
    ensures
        polled(polled(v, a), b) == polled(v, a + b),
{
    shown_after_both(v.state, a, b);
    logged_both(a, b);
    let all = a + b;
    if has_outcome(b) {
        let i = choose|i: int| 0 <= i < b.len() && is_outcome(#[trigger] b[i]);
        assert(all[a.len() + i] == b[i]);
    }
    if has_outcome(all) {
        let i = choose|i: int| 0 <= i < all.len() && is_outcome(#[trigger] all[i]);
        if i < a.len() {
            assert(is_outcome(a[i]));
        } else {
            assert(is_outcome(b[i - a.len()]));
        }
    }
    assert(v.command_log + logged(a) + logged(b) =~= v.command_log + logged(all));
}

/// Once an install has ended, nothing that still comes in is shown.
pub proof fn nothing_is_shown_after_the_end(
    v: BuilderView,
    a: Seq<WorkerEventView>,
    b: Seq<WorkerEventView>,
)
    requires
        has_outcome(a),
    ensures
        polled(polled(v, a), b) == polled(v, a),
{
}

/// Choosing a scope and going back to the one before restores the install
/// location, if it was the one that goes with that scope.
pub proof fn scopes_go_with_their_locations(
    v: BuilderView,
    scope: InstallScope,
    home: Option<Seq<char>>,
    local_app_data: Option<Seq<char>>,
)
    requires
        v.installation_path == scope_location(v.install_scope, v.target.os, home, local_app_data),
    ensures
        scope_selected(
            scope_selected(v, scope, home, local_app_data),
            v.install_scope,
            home,
            local_app_data,
        ) == v,
{
}

/// Of the states that a worker reports, the window shows the last one: whatever
/// lines come behind it do not change what is shown, and lines alone change
/// nothing.
pub proof fn the_last_state_is_shown(
    v: BuilderView,
    before: Seq<WorkerEventView>,
    state: AppStateView,
    lines: Seq<Seq<char>>,
)
    requires
        v.listening,
    ensures
        ({
            let logs = lines.map_values(|l: Seq<char>| WorkerEventView::Log(l));
            &&& polled(v, before.push(WorkerEventView::State(state)) + logs).state == state
            &&& polled(v, logs).state == v.state
        }),
    decreases lines.len(),
{
    let logs = lines.map_values(|l: Seq<char>| WorkerEventView::Log(l));
    let told = before.push(WorkerEventView::State(state));
    if lines.len() == 0 {
        assert(told + logs =~= told);
        assert(told.last() == WorkerEventView::State(state));
    } else {
        let fewer = lines.drop_last();
        let some = fewer.map_values(|l: Seq<char>| WorkerEventView::Log(l));
        the_last_state_is_shown(v, before, state, fewer);
        assert((told + logs).drop_last() =~= told + some);
        assert(logs.drop_last() =~= some);
        assert((told + logs).last() == WorkerEventView::Log(lines.last()));
        assert(logs.last() == WorkerEventView::Log(lines.last()));
    }
}

/// Every line that a worker reports is kept, whole and in order, behind those
/// that are there; states leave the lines as they are.
pub proof fn every_line_is_kept(
    v: BuilderView,
    events: Seq<WorkerEventView>,
    line: Seq<char>,
    state: AppStateView,
)
    requires
        v.listening,
    ensures
        polled(v, Seq::<WorkerEventView>::empty()).command_log == v.command_log,
        polled(v, events.push(WorkerEventView::Log(line))).command_log == polled(
            v,
            events,
        ).command_log.push(line),
        polled(v, events.push(WorkerEventView::State(state))).command_log == polled(
            v,
            events,
        ).command_log,
{
    assert(events.push(WorkerEventView::Log(line)).drop_last() =~= events);
    assert(events.push(WorkerEventView::State(state)).drop_last() =~= events);
    assert(v.command_log + logged(events).push(line) =~= (v.command_log + logged(events)).push(
        line,
    ));
    assert(v.command_log + Seq::<Seq<char>>::empty() =~= v.command_log);
}

/// A window stops listening when it is told that the install is complete or that
/// it failed, and at nothing else; what it does not listen to changes nothing,
/// and nothing but the state, the lines and the listening is ever changed.
pub proof fn listening_ends_with_the_install(v: BuilderView, events: Seq<WorkerEventView>)
    ensures
        v.listening ==> (!polled(v, events).listening <==> exists|i: int|
            0 <= i < events.len() && ((#[trigger] events[i]) matches WorkerEventView::State(s) && (
            s is Complete || s is Error))),
        !v.listening ==> polled(v, events) == v,
        polled(v, events) == (BuilderView {
            state: polled(v, events).state,
            command_log: polled(v, events).command_log,
            listening: polled(v, events).listening,
            ..v
        }),
{
    assert forall|note: WorkerEventView| #[trigger] is_outcome(note) <==> (
    note matches WorkerEventView::State(s) && (s is Complete || s is Error)) by {}
    if v.listening && exists|i: int|
        0 <= i < events.len() && ((#[trigger] events[i]) matches WorkerEventView::State(s) && (
        s is Complete || s is Error)) {
        let i = choose|i: int|
            0 <= i < events.len() && ((#[trigger] events[i]) matches WorkerEventView::State(s) && (
            s is Complete || s is Error));
        assert(is_outcome(events[i]));
    }
}

/// A click on another scope selects it, with the place that goes with it, and
/// changes nothing else; a click on the selected one changes nothing, so that a
/// place that was typed in stays.
pub proof fn another_scope_brings_its_place(
    v: BuilderView,
    scope: InstallScope,
    home: Option<Seq<char>>,
    local_app_data: Option<Seq<char>>,
)
    ensures
        ({
            let w = scope_selected(v, scope, home, local_app_data);
            &&& w.install_scope == scope
            &&& scope == v.install_scope ==> w == v
            &&& scope != v.install_scope ==> w.installation_path == (match (scope, v.target.os) {
                (InstallScope::Global, Os::MacOs) => "/Applications"@,
                (InstallScope::Global, Os::Linux) => "/opt/tor-browser"@,
                _ => default_location(v.target.os, home, local_app_data),
            })
            &&& w == (BuilderView {
                install_scope: w.install_scope,
                installation_path: w.installation_path,
                ..v
            })
        }),
{
}

/// What the release has is shown as it is; what it lacks is called not available.
pub proof fn what_is_there_is_shown(text: Seq<char>)
    ensures
        or_not_available(Some(text)) == text,
        or_not_available(None) == "not available"@,
{
}

} // verus!
