//! The update orchestrator: one session that checks for a new version,
//! downloads it without a word, asks for consent, and installs and restarts
//! only on a yes. The session decides; the caller does what it is told and
//! reports back what happened.

use vstd::prelude::*;

verus! {

/// Why a session failed.
#[derive(Clone, Copy, Debug, PartialEq, Eq, Structural)]
pub enum UpdateFailure {
    Check,
    Download,
    Install,
}

/// Where a session stands. `UpToDate`, `Restarting`, `Cancelled` and
/// `Failed` are final.
#[derive(Clone, Copy, Debug, PartialEq, Eq, Structural)]
pub enum UpdatePhase {
    Idle,
    Checking,
    UpToDate,
    Downloading,
    AwaitingConsent,
    Installing,
    Restarting,
    Cancelled,
    Failed(UpdateFailure),
}

/// What the caller reports to the session.
#[derive(Debug, PartialEq, Eq)]
pub enum UpdateEvent {
    /// The application has started.
    Start,
    /// The update source offers `version`, with release notes or without.
    Available { version: String, notes: Option<String> },
    /// The update source offers nothing new.
    NotAvailable,
    /// The update source could not be asked or understood.
    CheckFailed,
    /// `length` more bytes have arrived, of `total` if that is known.
    Chunk { length: usize, total: Option<u64> },
    /// The download is complete; `payload` is all of it.
    Downloaded { payload: Vec<u8> },
    /// The download broke off.
    DownloadFailed,
    /// The user has answered the prompt.
    Consent { granted: bool },
    /// The payload has been applied.
    Installed,
    /// The payload could not be applied.
    InstallFailed,
}

/// The model of [`UpdateEvent`] that the contracts speak of.
pub enum UpdateEventView {
    Start,
    Available { version: Seq<char>, notes: Option<Seq<char>> },
    NotAvailable,
    CheckFailed,
    Chunk { length: usize, total: Option<u64> },
    Downloaded { payload: Seq<u8> },
    DownloadFailed,
    Consent { granted: bool },
    Installed,
    InstallFailed,
}

impl View for UpdateEvent {
    type V = UpdateEventView;

    open spec fn view(&self) -> UpdateEventView {
        match *self {
            UpdateEvent::Start => UpdateEventView::Start,
            UpdateEvent::Available { version, notes } => UpdateEventView::Available {
                version: version@,
                notes: notes.deep_view(),
            },
            UpdateEvent::NotAvailable => UpdateEventView::NotAvailable,
            UpdateEvent::CheckFailed => UpdateEventView::CheckFailed,
            UpdateEvent::Chunk { length, total } => UpdateEventView::Chunk { length, total },
            UpdateEvent::Downloaded { payload } => UpdateEventView::Downloaded {
                payload: payload@,
            },
            UpdateEvent::DownloadFailed => UpdateEventView::DownloadFailed,
            UpdateEvent::Consent { granted } => UpdateEventView::Consent { granted },
            UpdateEvent::Installed => UpdateEventView::Installed,
            UpdateEvent::InstallFailed => UpdateEventView::InstallFailed,
        }
    }
}

/// What the session tells the caller to do next.
#[derive(Debug, PartialEq, Eq)]
pub enum UpdateAction {
    /// Nothing: the event did not fit the phase, or the session is over.
    Nothing,
    /// Ask the update source for a new version.
    Check,
    /// Fetch the payload, showing nothing to the user.
    Download,
    /// Log the progress of the download.
    ReportProgress { downloaded: usize, total: Option<u64> },
    /// Show a modal yes-or-no prompt with this title and message.
    AskConsent { title: String, message: String },
    /// Apply the payload that the session holds.
    Install,
    /// Restart the application.
    Restart,
}

/// The model of [`UpdateAction`] that the contracts speak of.
pub enum UpdateActionView {
    Nothing,
    Check,
    Download,
    ReportProgress { downloaded: int, total: Option<u64> },
    AskConsent { title: Seq<char>, message: Seq<char> },
    Install,
    Restart,
}

impl View for UpdateAction {
    type V = UpdateActionView;

    open spec fn view(&self) -> UpdateActionView {
        match *self {
            UpdateAction::Nothing => UpdateActionView::Nothing,
            UpdateAction::Check => UpdateActionView::Check,
            UpdateAction::Download => UpdateActionView::Download,
            UpdateAction::ReportProgress { downloaded, total } => UpdateActionView::ReportProgress {
                downloaded: downloaded as int,
                total,
            },
            UpdateAction::AskConsent { title, message } => UpdateActionView::AskConsent {
                title: title@,
                message: message@,
            },
            UpdateAction::Install => UpdateActionView::Install,
            UpdateAction::Restart => UpdateActionView::Restart,
        }
    }
}

/// The state of one update cycle.
#[derive(Debug, PartialEq, Eq)]
pub struct UpdateSession {
    pub phase: UpdatePhase,
    /// The version on offer.
    pub version: String,
    /// Its release notes.
    pub notes: String,
    /// The bytes that have arrived so far.
    pub downloaded: usize,
    /// The payload to install, once the download is complete.
    pub payload: Vec<u8>,
}

/// The model of [`UpdateSession`] that the contracts speak of.
pub struct UpdateSessionView {
    pub phase: UpdatePhase,
    pub version: Seq<char>,
    pub notes: Seq<char>,
    pub downloaded: int,
    pub payload: Seq<u8>,
}

impl View for UpdateSession {
    type V = UpdateSessionView;

    open spec fn view(&self) -> UpdateSessionView {
        UpdateSessionView {
            phase: self.phase,
            version: self.version@,
            notes: self.notes@,
            downloaded: self.downloaded as int,
            payload: self.payload@,
        }
    }
}

/// The release notes shown where the update source gave none.
pub open spec fn default_notes() -> Seq<char> {
    "无更新说明。"@
}

/// The title of the consent prompt for `version`.
pub open spec fn prompt_title(version: Seq<char>) -> Seq<char> {
    "可更新至版本 "@ + version
}

/// The message of the consent prompt for `version` with the release notes
/// `notes`.
pub open spec fn prompt_message(version: Seq<char>, notes: Seq<char>) -> Seq<char> {
    "新版本 "@ + version + " 已下载完成！\n\n更新日志:\n"@ + notes
        + "\n\n是否立即安装并重启应用？"@
}

/// Whether no event can move the session any more.
pub open spec fn is_final(phase: UpdatePhase) -> bool {
    phase is UpToDate || phase is Restarting || phase is Cancelled || phase is Failed
}

/// The session that an application starts with.
pub open spec fn initial_session() -> UpdateSessionView {
    UpdateSessionView {
        phase: UpdatePhase::Idle,
        version: Seq::empty(),
        notes: Seq::empty(),
        downloaded: 0,
        payload: Seq::empty(),
    }
}

/// The session in the phase `phase`, with nothing else changed.
pub open spec fn moved_to(session: UpdateSessionView, phase: UpdatePhase) -> UpdateSessionView {
    UpdateSessionView { phase, ..session }
}

/// One step of the session: the session after `event`, and the action that
/// the caller is to take. An event that does not fit the phase changes
/// nothing and asks for nothing.
pub open spec fn step_model(session: UpdateSessionView, event: UpdateEventView) -> (
    UpdateSessionView,
    UpdateActionView,
) {
    match (session.phase, event) {
        (UpdatePhase::Idle, UpdateEventView::Start) => (
            moved_to(session, UpdatePhase::Checking),
            UpdateActionView::Check,
        ),
        (UpdatePhase::Checking, UpdateEventView::Available { version, notes }) => (
            UpdateSessionView {
                phase: UpdatePhase::Downloading,
                version,
                notes: match notes {
                    Some(text) => text,
                    None => default_notes(),
                },
                downloaded: 0,
                payload: Seq::empty(),
            },
            UpdateActionView::Download,
        ),
        (UpdatePhase::Checking, UpdateEventView::NotAvailable) => (
            moved_to(session, UpdatePhase::UpToDate),
            UpdateActionView::Nothing,
        ),
        (UpdatePhase::Checking, UpdateEventView::CheckFailed) => (
            moved_to(session, UpdatePhase::Failed(UpdateFailure::Check)),
            UpdateActionView::Nothing,
        ),
        (UpdatePhase::Downloading, UpdateEventView::Chunk { length, total }) => (
            UpdateSessionView { downloaded: session.downloaded + length, ..session },
            UpdateActionView::ReportProgress { downloaded: session.downloaded + length, total },
        ),
        (UpdatePhase::Downloading, UpdateEventView::Downloaded { payload }) => (
            UpdateSessionView { phase: UpdatePhase::AwaitingConsent, payload, ..session },
            UpdateActionView::AskConsent {
                title: prompt_title(session.version),
                message: prompt_message(session.version, session.notes),
            },
        ),
        (UpdatePhase::Downloading, UpdateEventView::DownloadFailed) => (
            moved_to(session, UpdatePhase::Failed(UpdateFailure::Download)),
            UpdateActionView::Nothing,
        ),
        (UpdatePhase::AwaitingConsent, UpdateEventView::Consent { granted }) => if granted {
            (moved_to(session, UpdatePhase::Installing), UpdateActionView::Install)
        } else {
            (
                UpdateSessionView {
                    phase: UpdatePhase::Cancelled,
                    payload: Seq::empty(),
                    ..session
                },
                UpdateActionView::Nothing,
            )
        },
        (UpdatePhase::Installing, UpdateEventView::Installed) => (
            moved_to(session, UpdatePhase::Restarting),
            UpdateActionView::Restart,
        ),
        (UpdatePhase::Installing, UpdateEventView::InstallFailed) => (
            moved_to(session, UpdatePhase::Failed(UpdateFailure::Install)),
            UpdateActionView::Nothing,
        ),
        _ => (session, UpdateActionView::Nothing),
    }
}

/// Whether the byte count of the session has room for what `event` adds.
pub open spec fn fits(session: UpdateSessionView, event: UpdateEventView) -> bool {
    session.phase is Downloading && event is Chunk ==> session.downloaded + event->length
        <= usize::MAX
}

fn consent_prompt(version: &str, notes: &str) -> (action: UpdateAction)
    ensures
        action@ == (UpdateActionView::AskConsent {
            title: prompt_title(version@),
            message: prompt_message(version@, notes@),
        }),
{
    let mut title = String::from_str("可更新至版本 ");
    title.append(version);
    let mut message = String::from_str("新版本 ");
    message.append(version);
    message.append(" 已下载完成！\n\n更新日志:\n");
    message.append(notes);
    message.append("\n\n是否立即安装并重启应用？");
    UpdateAction::AskConsent { title, message }
}

impl UpdateSession {
    /// A session that has not begun.
    pub fn new() -> (session: Self)
        ensures
            session@ == initial_session(),
    {
        UpdateSession {
            phase: UpdatePhase::Idle,
            version: String::new(),
            notes: String::new(),
            downloaded: 0,
            payload: Vec::new(),
        }
    }

    /// Whether the session is over.
    pub fn is_over(&self) -> (over: bool)
        ensures
            over == is_final(self.phase),
    {
        match self.phase {
            UpdatePhase::UpToDate => true,
            UpdatePhase::Restarting => true,
            UpdatePhase::Cancelled => true,
            UpdatePhase::Failed(_) => true,
            _ => false,
        }
    }

    /// Whether the byte count has room for what `event` adds, so that
    /// `step` may be called with it.
    pub fn has_room(&self, event: &UpdateEvent) -> (room: bool)
        ensures
            room == fits(self@, event@),
    {
        match self.phase {
            UpdatePhase::Downloading => match event {
                UpdateEvent::Chunk { length, .. } => *length <= usize::MAX - self.downloaded,
                _ => true,
            },
            _ => true,
        }
    }

    /// Takes `event` in and says what to do next.
    pub fn step(&mut self, event: UpdateEvent) -> (action: UpdateAction)
        requires
            fits(old(self)@, event@),
        ensures
            final(self)@ == step_model(old(self)@, event@).0,
            action@ == step_model(old(self)@, event@).1,
    {
        match event {
            UpdateEvent::Start => match self.phase {
                UpdatePhase::Idle => {
                    self.phase = UpdatePhase::Checking;
                    UpdateAction::Check
                },
                _ => UpdateAction::Nothing,
            },
            UpdateEvent::Available { version, notes } => match self.phase {
                UpdatePhase::Checking => {
                    self.phase = UpdatePhase::Downloading;
                    self.version = version;
                    self.notes = match notes {
                        Some(text) => text,
                        None => String::from_str("无更新说明。"),
                    };
                    self.downloaded = 0;
                    self.payload = Vec::new();
                    UpdateAction::Download
                },
                _ => UpdateAction::Nothing,
            },
            UpdateEvent::NotAvailable => match self.phase {
                UpdatePhase::Checking => {
                    self.phase = UpdatePhase::UpToDate;
                    UpdateAction::Nothing
                },
                _ => UpdateAction::Nothing,
            },
            UpdateEvent::CheckFailed => match self.phase {
                UpdatePhase::Checking => {
                    self.phase = UpdatePhase::Failed(UpdateFailure::Check);
                    UpdateAction::Nothing
                },
                _ => UpdateAction::Nothing,
            },
            UpdateEvent::Chunk { length, total } => match self.phase {
                UpdatePhase::Downloading => {
                    self.downloaded = self.downloaded + length;
                    UpdateAction::ReportProgress { downloaded: self.downloaded, total }
                },
                _ => UpdateAction::Nothing,
            },
            UpdateEvent::Downloaded { payload } => match self.phase {
                UpdatePhase::Downloading => {
                    self.phase = UpdatePhase::AwaitingConsent;
                    self.payload = payload;
                    consent_prompt(self.version.as_str(), self.notes.as_str())
                },
                _ => UpdateAction::Nothing,
            },
            UpdateEvent::DownloadFailed => match self.phase {
                UpdatePhase::Downloading => {
                    self.phase = UpdatePhase::Failed(UpdateFailure::Download);
                    UpdateAction::Nothing
                },
                _ => UpdateAction::Nothing,
            },
            UpdateEvent::Consent { granted } => match self.phase {
                UpdatePhase::AwaitingConsent => {
                    if granted {
                        self.phase = UpdatePhase::Installing;
                        UpdateAction::Install
                    } else {
                        self.phase = UpdatePhase::Cancelled;
                        self.payload = Vec::new();
                        UpdateAction::Nothing
                    }
                },
                _ => UpdateAction::Nothing,
            },
            UpdateEvent::Installed => match self.phase {
                UpdatePhase::Installing => {
                    self.phase = UpdatePhase::Restarting;
                    UpdateAction::Restart
                },
                _ => UpdateAction::Nothing,
            },
            UpdateEvent::InstallFailed => match self.phase {
                UpdatePhase::Installing => {
                    self.phase = UpdatePhase::Failed(UpdateFailure::Install);
                    UpdateAction::Nothing
                },
                _ => UpdateAction::Nothing,
            },
        }
    }
}

/// The session after the events `events`, started afresh.
pub open spec fn session_after(events: Seq<UpdateEventView>) -> UpdateSessionView
    decreases events.len(),
{
    if events.len() == 0 {
        initial_session()
    } else {
        step_model(session_after(events.drop_last()), events.last()).0
    }
}

/// The action that the event at place `k` of `events` calls for.
pub open spec fn action_at(events: Seq<UpdateEventView>, k: int) -> UpdateActionView {
    step_model(session_after(events.take(k)), events[k]).1
}

/// Whether a download was completed somewhere in `events`.
pub open spec fn download_completed(events: Seq<UpdateEventView>) -> bool {
    exists|i: int| 0 <= i < events.len() && (#[trigger] events[i]) is Downloaded
}

/// Whether, somewhere in `events`, a download was completed and consent was
/// granted after it.
pub open spec fn consent_granted(events: Seq<UpdateEventView>) -> bool {
    exists|i: int, j: int|
        0 <= i < j < events.len() && (#[trigger] events[i]) is Downloaded && #[trigger] events[j]
            == (UpdateEventView::Consent { granted: true })
}

proof fn lemma_session_after_take(events: Seq<UpdateEventView>, k: int)
    requires
        0 <= k < events.len(),
    ensures
        session_after(events.take(k + 1)) == step_model(
            session_after(events.take(k)),
            events[k],
        ).0,
{
    assert(events.take(k + 1).drop_last() =~= events.take(k));
}

proof fn lemma_history(events: Seq<UpdateEventView>)
    ensures
        ({
            let phase = session_after(events).phase;
            &&& phase is AwaitingConsent || phase is Cancelled ==> download_completed(events)
            &&& phase is Installing || phase is Restarting || phase == UpdatePhase::Failed(
                UpdateFailure::Install,
            ) ==> consent_granted(events)
        }),
    decreases events.len(),
{
    if events.len() > 0 {
        let earlier = events.drop_last();
        let last = events.len() - 1;
        lemma_history(earlier);
        let before = session_after(earlier).phase;
        let phase = session_after(events).phase;
        if download_completed(earlier) {
            let i = choose|i: int| 0 <= i < earlier.len() && (#[trigger] earlier[i]) is Downloaded;
            assert(events[i] == earlier[i]);
        }
        if consent_granted(earlier) {
            let (i, j) = choose|i: int, j: int|
                0 <= i < j < earlier.len() && (#[trigger] earlier[i]) is Downloaded
                    && #[trigger] earlier[j] == (UpdateEventView::Consent { granted: true });
            assert(events[i] == earlier[i]);
            assert(events[j] == earlier[j]);
        }
        if phase is AwaitingConsent && !(before is AwaitingConsent) {
            assert(events[last] is Downloaded);
        }
        if phase is Installing && !(before is Installing) {
            assert(before is AwaitingConsent);
            let i = choose|i: int| 0 <= i < earlier.len() && (#[trigger] earlier[i]) is Downloaded;
            assert(events[i] == earlier[i]);
            assert(events[last] == (UpdateEventView::Consent { granted: true }));
        }
    }
}

/// The consent prompt is never shown before the download is complete: the
/// one event that calls for it is the completion of the download, in the
/// phase `Downloading`, and the session then holds all of the payload and
/// waits for the answer.
pub proof fn prompt_only_after_download(events: Seq<UpdateEventView>, k: int)
    requires
        0 <= k < events.len(),
        action_at(events, k) is AskConsent,
    ensures
        events[k] is Downloaded,
        session_after(events.take(k)).phase is Downloading,
        session_after(events.take(k + 1)).phase is AwaitingConsent,
        session_after(events.take(k + 1)).payload == events[k]->payload,
{
    lemma_session_after_take(events, k);
}

/// `Installing` is never entered unless consent was granted: the one event
/// that leads into it, and the one that calls for an install, is a yes to
/// the prompt.
pub proof fn install_only_on_consent(events: Seq<UpdateEventView>, k: int)
    requires
        0 <= k < events.len(),
        action_at(events, k) is Install || (session_after(events.take(k + 1)).phase is Installing
            && !(session_after(events.take(k)).phase is Installing)),
    ensures
        events[k] == (UpdateEventView::Consent { granted: true }),
        session_after(events.take(k)).phase is AwaitingConsent,
        session_after(events.take(k + 1)).phase is Installing,
        action_at(events, k) is Install,
{
    lemma_session_after_take(events, k);
}

/// A session that waits for consent has seen its download completed. One
/// that installs or restarts has, in this order, seen the download completed
/// and consent granted.
pub proof fn install_needs_download_and_consent(events: Seq<UpdateEventView>)
    ensures
        session_after(events).phase is AwaitingConsent ==> download_completed(events),
        session_after(events).phase is Installing || session_after(events).phase is Restarting
            ==> consent_granted(events),
{
    lemma_history(events);
}

/// A declined prompt ends the session without an install: the session is
/// cancelled, holds no payload, and no later event calls for anything.
pub proof fn declined_means_no_install(session: UpdateSessionView, later: UpdateEventView)
    requires
        session.phase is AwaitingConsent,
    ensures
        ({
            let declined = step_model(session, UpdateEventView::Consent { granted: false });
            &&& declined.0.phase is Cancelled
            &&& declined.0.payload == Seq::<u8>::empty()
            &&& declined.1 is Nothing
            &&& step_model(declined.0, later) == (declined.0, UpdateActionView::Nothing)
        }),
{
}

/// A session that is over stays as it is and asks for nothing.
pub proof fn final_phases_absorb(session: UpdateSessionView, event: UpdateEventView)
    requires
        is_final(session.phase),
    ensures
        step_model(session, event) == (session, UpdateActionView::Nothing),
{
}

} // verus!
