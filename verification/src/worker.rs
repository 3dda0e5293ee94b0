//! The dictation worker: the one consumer of the hotkey's events, and the
//! state machine that leads a session from the press to the paste.
//!
//! The worker decides and the caller acts. Each event, the hotkey's or the
//! outcome of an action, is answered with the next state and the actions to
//! take, in order. One session is alive at a time, and every failure ends
//! the session in `Idle`.

use crate::error::PipelineError;
use crate::hotkey::{HotkeyEvent, HotkeyState};
use crate::text::option_view;
use vstd::prelude::*;
use vstd::string::*;

verus! {

/// Where the session stands.
#[derive(Clone, Copy, Debug, PartialEq, Eq, Structural)]
pub enum SessionState {
    /// No session.
    Idle,
    /// The microphone is open.
    Recording,
    /// Capture is closing or the audio is with a backend.
    Transcribing,
    /// The transcript is being pasted.
    Pasting,
}

/// What the worker is told.
#[derive(Debug, PartialEq, Eq)]
pub enum WorkerEvent {
    /// An edge of the hotkey.
    Hotkey(HotkeyEvent),
    /// The application that was frontmost at the press, if one was found.
    /// The report may come after the release.
    FrontmostApp(Option<String>),
    /// Capture could not start, or its stream broke.
    CaptureFailed(PipelineError),
    /// Capture was closed: the number of samples it finalized, or why it
    /// finalized none.
    CaptureStopped(Result<usize, PipelineError>),
    /// The backend's answer.
    Transcribed(Result<String, PipelineError>),
    /// The paste's outcome.
    Pasted(Result<(), PipelineError>),
}

/// What the worker asks for.
#[derive(Clone, Debug, PartialEq, Eq)]
pub enum WorkerAction {
    /// Play the tone that marks the start.
    PlayStartTone,
    /// Play the tone that marks the end.
    PlayStopTone,
    /// Find the frontmost application and report it.
    CaptureFrontmostApp,
    /// Open an audio capture session.
    StartCapture,
    /// Close the audio capture session and report what it finalized.
    StopCapture,
    /// Tell the presentation layer that capture stopped.
    NotifyCaptureStopped,
    /// Hand the finalized audio to the dispatcher and report the answer.
    Transcribe,
    /// Count the dictation in the statistics.
    RecordDictation(String),
    /// Paste the text and report the outcome. The target is the application
    /// noted at the press, to be brought to the front first; without one the
    /// text is pasted into whatever is frontmost.
    Paste { text: String, target: Option<String> },
    /// Tell the user what went wrong.
    ReportError(PipelineError),
    /// Tell the presentation layer that the dictation is over.
    ReportComplete,
}

/// The worker: the state of the session and the application to paste into.
pub struct DictationWorker {
    /// Where the session stands.
    pub state: SessionState,
    /// The application that was frontmost at the press.
    pub paste_target: HotkeyState,
    /// Whether capture was asked to stop and has not reported yet. Until it
    /// has, there is no audio to transcribe.
    pub capture_pending: bool,
}

/// The worker between sessions.
pub open spec fn idle() -> DictationWorker {
    DictationWorker {
        state: SessionState::Idle,
        paste_target: HotkeyState { paste_target_bundle_id: None },
        capture_pending: false,
    }
}

/// The actions that an event asks for, with texts seen as sequences of
/// characters.
pub enum ActionView {
    PlayStartTone,
    PlayStopTone,
    CaptureFrontmostApp,
    StartCapture,
    StopCapture,
    NotifyCaptureStopped,
    Transcribe,
    RecordDictation(Seq<char>),
    Paste { text: Seq<char>, target: Option<Seq<char>> },
    ReportError(PipelineError),
    ReportComplete,
}

/// An action with its texts seen as sequences of characters.
pub open spec fn action_view(a: WorkerAction) -> ActionView {
    match a {
        WorkerAction::PlayStartTone => ActionView::PlayStartTone,
        WorkerAction::PlayStopTone => ActionView::PlayStopTone,
        WorkerAction::CaptureFrontmostApp => ActionView::CaptureFrontmostApp,
        WorkerAction::StartCapture => ActionView::StartCapture,
        WorkerAction::StopCapture => ActionView::StopCapture,
        WorkerAction::NotifyCaptureStopped => ActionView::NotifyCaptureStopped,
        WorkerAction::Transcribe => ActionView::Transcribe,
        WorkerAction::RecordDictation(t) => ActionView::RecordDictation(t@),
        WorkerAction::Paste { text, target } => ActionView::Paste {
            text: text@,
            target: option_view(target),
        },
        WorkerAction::ReportError(e) => ActionView::ReportError(e),
        WorkerAction::ReportComplete => ActionView::ReportComplete,
    }
}

/// The views of a run of actions.
pub open spec fn action_views(actions: Seq<WorkerAction>) -> Seq<ActionView> {
    Seq::new(actions.len(), |i: int| action_view(actions[i]))
}

/// The event is one that the worker waits for in its state. In
/// `Transcribing` it waits first for capture to report, then for the
/// backend's answer, each once.
pub open spec fn is_awaited(w: DictationWorker, e: WorkerEvent) -> bool {
    match (w.state, e) {
        (SessionState::Idle, WorkerEvent::Hotkey(HotkeyEvent::Press)) => true,
        (SessionState::Recording, WorkerEvent::CaptureFailed(_)) => true,
        (SessionState::Recording, WorkerEvent::Hotkey(HotkeyEvent::Release)) => true,
        (SessionState::Transcribing, WorkerEvent::CaptureStopped(_)) => w.capture_pending,
        (SessionState::Transcribing, WorkerEvent::Transcribed(_)) => !w.capture_pending,
        (SessionState::Pasting, WorkerEvent::Pasted(_)) => true,
        _ => false,
    }
}

/// The state after an event.
pub open spec fn next_state(w: DictationWorker, e: WorkerEvent) -> SessionState {
    if !is_awaited(w, e) {
        w.state
    } else {
        match e {
            WorkerEvent::Hotkey(HotkeyEvent::Press) => SessionState::Recording,
            WorkerEvent::Hotkey(HotkeyEvent::Release) => SessionState::Transcribing,
            WorkerEvent::CaptureStopped(Ok(n)) => if n == 0 {
                SessionState::Idle
            } else {
                SessionState::Transcribing
            },
            WorkerEvent::Transcribed(Ok(text)) => if text@.len() == 0 {
                SessionState::Idle
            } else {
                SessionState::Pasting
            },
            _ => SessionState::Idle,
        }
    }
}

/// Whether capture is still to report after an event: from the release
/// until it has reported.
pub open spec fn next_pending(w: DictationWorker, e: WorkerEvent) -> bool {
    if !is_awaited(w, e) {
        w.capture_pending && w.state == SessionState::Transcribing
    } else {
        e == WorkerEvent::Hotkey(HotkeyEvent::Release)
    }
}

/// The paste target after an event: none when a session starts, noted when
/// the frontmost application is reported, which may be after a quick
/// release, handed out with the paste, and gone whenever the session ends.
pub open spec fn next_target(w: DictationWorker, e: WorkerEvent) -> Option<String> {
    if w.state == SessionState::Idle || next_state(w, e) == SessionState::Idle || next_state(w, e)
        == SessionState::Pasting {
        None
    } else {
        match e {
            WorkerEvent::FrontmostApp(app) => app,
            _ => w.paste_target.paste_target_bundle_id,
        }
    }
}

/// The actions that an event asks for, in order.
pub open spec fn next_actions(w: DictationWorker, e: WorkerEvent) -> Seq<ActionView> {
    if !is_awaited(w, e) {
        Seq::empty()
    } else {
        match e {
            WorkerEvent::Hotkey(HotkeyEvent::Press) => seq![
                ActionView::PlayStartTone,
                ActionView::CaptureFrontmostApp,
                ActionView::StartCapture,
            ],
            WorkerEvent::Hotkey(HotkeyEvent::Release) => seq![
                ActionView::PlayStopTone,
                ActionView::StopCapture,
            ],
            WorkerEvent::CaptureFailed(err) => seq![ActionView::ReportError(err)],
            WorkerEvent::CaptureStopped(Ok(n)) => if n == 0 {
                seq![ActionView::ReportError(PipelineError::NoAudioCaptured)]
            } else {
                seq![ActionView::NotifyCaptureStopped, ActionView::Transcribe]
            },
            WorkerEvent::CaptureStopped(Err(err)) => seq![ActionView::ReportError(err)],
            WorkerEvent::Transcribed(Ok(text)) => if text@.len() == 0 {
                seq![ActionView::ReportComplete]
            } else {
                seq![
                    ActionView::RecordDictation(text@),
                    ActionView::Paste {
                        text: text@,
                        target: option_view(w.paste_target.paste_target_bundle_id),
                    },
                ]
            },
            WorkerEvent::Transcribed(Err(err)) => seq![
                ActionView::ReportError(err),
                ActionView::ReportComplete,
            ],
            WorkerEvent::Pasted(Ok(_)) => seq![ActionView::ReportComplete],
            WorkerEvent::Pasted(Err(err)) => seq![
                ActionView::ReportError(err),
                ActionView::ReportComplete,
            ],
            WorkerEvent::FrontmostApp(_) => Seq::empty(),
        }
    }
}

impl DictationWorker {
    /// Nothing of a session is kept beyond its use: the paste target is
    /// gone once the paste has it, and between sessions; and capture is
    /// waited for only in `Transcribing`.
    pub open spec fn wf(self) -> bool {
        &&& self.state == SessionState::Idle || self.state == SessionState::Pasting
            ==> self.paste_target.paste_target_bundle_id is None
        &&& self.capture_pending ==> self.state == SessionState::Transcribing
    }

    /// A worker with no session.
    pub fn new() -> (w: Self)
        ensures
            w == idle(),
            w.wf(),
    {
        DictationWorker {
            state: SessionState::Idle,
            paste_target: HotkeyState::default(),
            capture_pending: false,
        }
    }

    /// Where the session stands.
    pub fn session_state(&self) -> (s: SessionState)
        ensures
            s == self.state,
    {
        self.state
    }

    /// Ends the session: back to `Idle` with nothing kept.
    fn end_session(&mut self)
        ensures
            *final(self) == idle(),
    {
        self.state = SessionState::Idle;
        self.paste_target.set_paste_target(None);
        self.capture_pending = false;
    }

    /// Takes one event and gives the actions that it asks for, in order.
    /// Events that the state does not wait for change nothing and ask for
    /// nothing.
    pub fn step(&mut self, event: WorkerEvent) -> (actions: Vec<WorkerAction>)
        ensures
            final(self).state == next_state(*old(self), event),
            final(self).paste_target.paste_target_bundle_id == next_target(*old(self), event),
            final(self).capture_pending == next_pending(*old(self), event),
            *final(self) == stepped(*old(self), event),
            action_views(actions@) == next_actions(*old(self), event),
            actions@.len() == next_actions(*old(self), event).len(),
            final(self).wf(),
    {
        let mut actions: Vec<WorkerAction> = Vec::new();
        match self.state {
            SessionState::Idle => {
                self.paste_target.set_paste_target(None);
                self.capture_pending = false;
                match event {
                    WorkerEvent::Hotkey(HotkeyEvent::Press) => {
                        self.state = SessionState::Recording;
                        actions.push(WorkerAction::PlayStartTone);
                        actions.push(WorkerAction::CaptureFrontmostApp);
                        actions.push(WorkerAction::StartCapture);
                    },
                    _ => {},
                }
            },
            SessionState::Recording => {
                self.capture_pending = false;
                match event {
                    WorkerEvent::FrontmostApp(app) => {
                        self.paste_target.set_paste_target(app);
                    },
                    WorkerEvent::CaptureFailed(err) => {
                        self.end_session();
                        actions.push(WorkerAction::ReportError(err));
                    },
                    WorkerEvent::Hotkey(HotkeyEvent::Release) => {
                        self.state = SessionState::Transcribing;
                        self.capture_pending = true;
                        actions.push(WorkerAction::PlayStopTone);
                        actions.push(WorkerAction::StopCapture);
                    },
                    _ => {},
                }
            },
            SessionState::Transcribing => {
                let pending = self.capture_pending;
                match event {
                    WorkerEvent::FrontmostApp(app) => {
                        self.paste_target.set_paste_target(app);
                    },
                    WorkerEvent::CaptureStopped(stopped) => {
                        if pending {
                            match stopped {
                                Ok(n) => {
                                    if n == 0 {
                                        self.end_session();
                                        actions.push(
                                            WorkerAction::ReportError(
                                                PipelineError::NoAudioCaptured,
                                            ),
                                        );
                                    } else {
                                        self.capture_pending = false;
                                        actions.push(WorkerAction::NotifyCaptureStopped);
                                        actions.push(WorkerAction::Transcribe);
                                    }
                                },
                                Err(err) => {
                                    self.end_session();
                                    actions.push(WorkerAction::ReportError(err));
                                },
                            }
                        }
                    },
                    WorkerEvent::Transcribed(answer) => {
                        if !pending {
                            match answer {
                                Ok(text) => {
                                    if text.as_str().unicode_len() == 0 {
                                        self.end_session();
                                        actions.push(WorkerAction::ReportComplete);
                                    } else {
                                        let target = self.paste_target.take_paste_target();
                                        self.state = SessionState::Pasting;
                                        actions.push(WorkerAction::RecordDictation(text.clone()));
                                        actions.push(
                                            WorkerAction::Paste { text, target },
                                        );
                                    }
                                },
                                Err(err) => {
                                    self.end_session();
                                    actions.push(WorkerAction::ReportError(err));
                                    actions.push(WorkerAction::ReportComplete);
                                },
                            }
                        }
                    },
                    _ => {},
                }
            },
            SessionState::Pasting => {
                self.paste_target.set_paste_target(None);
                self.capture_pending = false;
                match event {
                    WorkerEvent::Pasted(Ok(_)) => {
                        self.end_session();
                        actions.push(WorkerAction::ReportComplete);
                    },
                    WorkerEvent::Pasted(Err(err)) => {
                        self.end_session();
                        actions.push(WorkerAction::ReportError(err));
                        actions.push(WorkerAction::ReportComplete);
                    },
                    _ => {},
                }
            },
        }
        assert(action_views(actions@) =~= next_actions(*old(self), event));
        actions
    }
}

/// A press that arrives while a session is in flight starts nothing: the
/// worker stays as it is and asks for no action, so no second capture
/// session is opened.
pub proof fn lemma_press_in_flight_ignored(w: DictationWorker)
    requires
        w.wf(),
        w.state != SessionState::Idle,
    ensures
        next_state(w, WorkerEvent::Hotkey(HotkeyEvent::Press)) == w.state,
        next_target(w, WorkerEvent::Hotkey(HotkeyEvent::Press))
            == w.paste_target.paste_target_bundle_id,
        next_pending(w, WorkerEvent::Hotkey(HotkeyEvent::Press)) == w.capture_pending,
        next_actions(w, WorkerEvent::Hotkey(HotkeyEvent::Press)) == Seq::<ActionView>::empty(),
{
}

/// Capture is opened by a press out of `Idle` and by nothing else, and the
/// session is then recording.
pub proof fn lemma_capture_starts_only_from_idle(w: DictationWorker, e: WorkerEvent, i: int)
    requires
        0 <= i < next_actions(w, e).len(),
        next_actions(w, e)[i] == ActionView::StartCapture,
    ensures
        w.state == SessionState::Idle,
        e == WorkerEvent::Hotkey(HotkeyEvent::Press),
        next_state(w, e) == SessionState::Recording,
{
}

/// Stopping with nothing captured reports `NoAudioCaptured`, ends the
/// session and does not ask for transcription.
pub proof fn lemma_no_audio_no_transcription(w: DictationWorker)
    requires
        w.state == SessionState::Transcribing,
        w.capture_pending,
    ensures
        next_state(w, WorkerEvent::CaptureStopped(Ok(0))) == SessionState::Idle,
        next_target(w, WorkerEvent::CaptureStopped(Ok(0))) is None,
        next_actions(w, WorkerEvent::CaptureStopped(Ok(0))) == seq![
            ActionView::ReportError(PipelineError::NoAudioCaptured),
        ],
        next_actions(w, WorkerEvent::CaptureStopped(Err(PipelineError::NoAudioCaptured))) == seq![
            ActionView::ReportError(PipelineError::NoAudioCaptured),
        ],
        next_state(w, WorkerEvent::CaptureStopped(Err(PipelineError::NoAudioCaptured)))
            == SessionState::Idle,
{
}

/// Transcription is asked for only when capture stopped with samples, and
/// once per session: after it the worker waits for capture no more.
pub proof fn lemma_transcribe_needs_audio(w: DictationWorker, e: WorkerEvent, i: int)
    requires
        0 <= i < next_actions(w, e).len(),
        next_actions(w, e)[i] == ActionView::Transcribe,
    ensures
        w.state == SessionState::Transcribing,
        w.capture_pending,
        e matches WorkerEvent::CaptureStopped(Ok(n)) && n > 0,
        !next_pending(w, e),
{
}

/// An event is the failure `err` of the stage that the worker waits for.
pub open spec fn is_failure_of(w: DictationWorker, e: WorkerEvent, err: PipelineError) -> bool {
    is_awaited(w, e) && (e == WorkerEvent::CaptureFailed(err) || e == WorkerEvent::CaptureStopped(
        Err(err),
    ) || e == WorkerEvent::Transcribed(Err(err)) || e == WorkerEvent::Pasted(Err(err)))
}

/// No failure leaves a session stuck: the failure of any stage is reported
/// and the worker is back in `Idle` with nothing of the session kept.
pub proof fn lemma_failure_ends_session(w: DictationWorker, e: WorkerEvent, err: PipelineError)
    requires
        is_failure_of(w, e, err),
    ensures
        next_state(w, e) == SessionState::Idle,
        next_target(w, e) is None,
        !next_pending(w, e),
        next_actions(w, e).len() > 0,
        next_actions(w, e)[0] == ActionView::ReportError(err),
{
}

/// A transcript that is not empty is pasted, as it is, with the target that
/// was noted at the press, as it is, be it an application or none; an empty
/// one is not pasted and the session is over.
pub proof fn lemma_transcript_is_pasted(w: DictationWorker, text: String)
    requires
        w.state == SessionState::Transcribing,
        !w.capture_pending,
    ensures
        text@.len() > 0 ==> next_state(w, WorkerEvent::Transcribed(Ok(text)))
            == SessionState::Pasting && next_actions(w, WorkerEvent::Transcribed(Ok(text)))
            == seq![
            ActionView::RecordDictation(text@),
            ActionView::Paste {
                text: text@,
                target: option_view(w.paste_target.paste_target_bundle_id),
            },
        ],
        text@.len() == 0 ==> next_state(w, WorkerEvent::Transcribed(Ok(text)))
            == SessionState::Idle && next_actions(w, WorkerEvent::Transcribed(Ok(text)))
            == seq![ActionView::ReportComplete],
{
}

/// An event that the worker does not wait for changes nothing but the note
/// of the frontmost application, and asks for nothing.
pub proof fn lemma_unawaited_event_dropped(w: DictationWorker, e: WorkerEvent)
    requires
        w.wf(),
        !is_awaited(w, e),
    ensures
        next_state(w, e) == w.state,
        next_pending(w, e) == w.capture_pending,
        next_actions(w, e) == Seq::<ActionView>::empty(),
        !(e is FrontmostApp) ==> next_target(w, e) == w.paste_target.paste_target_bundle_id,
{
}

/// The worker after an event.
pub open spec fn stepped(w: DictationWorker, e: WorkerEvent) -> DictationWorker {
    DictationWorker {
        state: next_state(w, e),
        paste_target: HotkeyState { paste_target_bundle_id: next_target(w, e) },
        capture_pending: next_pending(w, e),
    }
}

/// The worker of a session that recorded `samples` samples and waits for
/// the backend, when the frontmost application at the press was reported as
/// `target`.
pub open spec fn awaiting_transcript(target: Option<String>, samples: usize) -> DictationWorker {
    stepped(
        stepped(
            stepped(
                stepped(idle(), WorkerEvent::Hotkey(HotkeyEvent::Press)),
                WorkerEvent::FrontmostApp(target),
            ),
            WorkerEvent::Hotkey(HotkeyEvent::Release),
        ),
        WorkerEvent::CaptureStopped(Ok(samples)),
    )
}

/// From the press to the paste: the paste gets the backend's text as it is
/// and the target that was reported at the press as it is, an application
/// where one was found and none where none was; and once the paste has it,
/// the worker holds no target.
pub proof fn lemma_target_reaches_paste(target: Option<String>, samples: usize, text: String)
    requires
        samples > 0,
        text@.len() > 0,
    ensures
        next_actions(awaiting_transcript(target, samples), WorkerEvent::Transcribed(Ok(text)))
            == seq![
            ActionView::RecordDictation(text@),
            ActionView::Paste { text: text@, target: option_view(target) },
        ],
        next_state(awaiting_transcript(target, samples), WorkerEvent::Transcribed(Ok(text)))
            == SessionState::Pasting,
        next_target(awaiting_transcript(target, samples), WorkerEvent::Transcribed(Ok(text)))
            is None,
{
    let w1 = stepped(idle(), WorkerEvent::Hotkey(HotkeyEvent::Press));
    assert(w1.state == SessionState::Recording);
    let w2 = stepped(w1, WorkerEvent::FrontmostApp(target));
    assert(w2.state == SessionState::Recording && w2.paste_target.paste_target_bundle_id == target);
    let w3 = stepped(w2, WorkerEvent::Hotkey(HotkeyEvent::Release));
    assert(w3.state == SessionState::Transcribing && w3.capture_pending);
    let w4 = stepped(w3, WorkerEvent::CaptureStopped(Ok(samples)));
    assert(w4.state == SessionState::Transcribing && !w4.capture_pending);
    assert(w4.paste_target.paste_target_bundle_id == target);
}

} // verus!
