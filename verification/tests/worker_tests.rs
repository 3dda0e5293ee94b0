use mercer_voice::error::PipelineError;
use mercer_voice::hotkey::HotkeyEvent;
use mercer_voice::worker::{DictationWorker, SessionState, WorkerAction, WorkerEvent};

fn press() -> WorkerEvent {
    WorkerEvent::Hotkey(HotkeyEvent::Press)
}

fn release() -> WorkerEvent {
    WorkerEvent::Hotkey(HotkeyEvent::Release)
}

fn recording(target: Option<&str>) -> DictationWorker {
    let mut w = DictationWorker::new();
    w.step(press());
    w.step(WorkerEvent::FrontmostApp(target.map(|t| t.to_string())));
    w
}

fn transcribing(target: Option<&str>) -> DictationWorker {
    let mut w = recording(target);
    w.step(release());
    w.step(WorkerEvent::CaptureStopped(Ok(32000)));
    w
}

#[test]
fn a_new_worker_is_idle() {
    let w = DictationWorker::new();
    assert_eq!(w.session_state(), SessionState::Idle);
    assert_eq!(w.paste_target.paste_target_bundle_id, None);
}

#[test]
fn a_press_starts_a_session() {
    let mut w = DictationWorker::new();
    let actions = w.step(press());
    assert_eq!(
        actions,
        vec![WorkerAction::PlayStartTone, WorkerAction::CaptureFrontmostApp, WorkerAction::StartCapture]
    );
    assert_eq!(w.session_state(), SessionState::Recording);
}

#[test]
fn a_second_press_before_the_release_starts_nothing() {
    let mut w = recording(Some("com.example.Editor"));
    let actions = w.step(press());
    assert_eq!(actions, Vec::<WorkerAction>::new());
    assert_eq!(w.session_state(), SessionState::Recording);
    assert_eq!(w.paste_target.paste_target_bundle_id, Some("com.example.Editor".to_string()));
}

#[test]
fn a_press_while_transcribing_or_pasting_starts_nothing() {
    let mut w = transcribing(Some("com.example.Editor"));
    assert_eq!(w.step(press()), Vec::<WorkerAction>::new());
    assert_eq!(w.session_state(), SessionState::Transcribing);
    w.step(WorkerEvent::Transcribed(Ok("hello".to_string())));
    assert_eq!(w.session_state(), SessionState::Pasting);
    assert_eq!(w.step(press()), Vec::<WorkerAction>::new());
    assert_eq!(w.session_state(), SessionState::Pasting);
}

#[test]
fn a_release_without_a_session_does_nothing() {
    let mut w = DictationWorker::new();
    assert_eq!(w.step(release()), Vec::<WorkerAction>::new());
    assert_eq!(w.session_state(), SessionState::Idle);
}

#[test]
fn a_release_stops_capture() {
    let mut w = recording(None);
    let actions = w.step(release());
    assert_eq!(actions, vec![WorkerAction::PlayStopTone, WorkerAction::StopCapture]);
    assert_eq!(w.session_state(), SessionState::Transcribing);
}

#[test]
fn zero_samples_end_the_session_without_transcription() {
    let mut w = recording(Some("com.example.Editor"));
    w.step(release());
    let actions = w.step(WorkerEvent::CaptureStopped(Ok(0)));
    assert_eq!(actions, vec![WorkerAction::ReportError(PipelineError::NoAudioCaptured)]);
    assert_eq!(w.session_state(), SessionState::Idle);
    assert_eq!(w.paste_target.paste_target_bundle_id, None);
}

#[test]
fn no_audio_captured_from_the_recorder_ends_the_session_without_transcription() {
    let mut w = recording(None);
    w.step(release());
    let actions = w.step(WorkerEvent::CaptureStopped(Err(PipelineError::NoAudioCaptured)));
    assert_eq!(actions, vec![WorkerAction::ReportError(PipelineError::NoAudioCaptured)]);
    assert_eq!(w.session_state(), SessionState::Idle);
}

#[test]
fn samples_are_handed_to_transcription() {
    let mut w = recording(None);
    w.step(release());
    let actions = w.step(WorkerEvent::CaptureStopped(Ok(1)));
    assert_eq!(actions, vec![WorkerAction::NotifyCaptureStopped, WorkerAction::Transcribe]);
    assert_eq!(w.session_state(), SessionState::Transcribing);
}

#[test]
fn a_transcript_is_pasted_into_the_application_of_the_press() {
    let mut w = DictationWorker::new();
    w.step(press());
    w.step(WorkerEvent::FrontmostApp(Some("com.example.Editor".to_string())));
    w.step(release());
    w.step(WorkerEvent::CaptureStopped(Ok(32000)));
    let actions = w.step(WorkerEvent::Transcribed(Ok("hello world".to_string())));
    assert_eq!(
        actions,
        vec![
            WorkerAction::RecordDictation("hello world".to_string()),
            WorkerAction::Paste {
                text: "hello world".to_string(),
                target: Some("com.example.Editor".to_string()),
            },
        ]
    );
    assert_eq!(w.session_state(), SessionState::Pasting);
    assert_eq!(w.paste_target.paste_target_bundle_id, None);
    assert_eq!(w.step(WorkerEvent::Pasted(Ok(()))), vec![WorkerAction::ReportComplete]);
    assert_eq!(w.session_state(), SessionState::Idle);
}

#[test]
fn without_a_known_application_the_paste_gets_no_target() {
    let mut w = transcribing(None);
    let actions = w.step(WorkerEvent::Transcribed(Ok("hello".to_string())));
    assert_eq!(
        actions,
        vec![
            WorkerAction::RecordDictation("hello".to_string()),
            WorkerAction::Paste { text: "hello".to_string(), target: None },
        ]
    );
    assert_eq!(w.paste_target.paste_target_bundle_id, None);
}

#[test]
fn an_empty_identifier_that_was_reported_is_handed_on_as_it_is() {
    let mut w = transcribing(Some(""));
    let actions = w.step(WorkerEvent::Transcribed(Ok("hello".to_string())));
    assert_eq!(
        actions[1],
        WorkerAction::Paste { text: "hello".to_string(), target: Some(String::new()) }
    );
}

#[test]
fn an_empty_transcript_is_not_pasted_and_the_session_completes() {
    let mut w = transcribing(Some("com.example.Editor"));
    let actions = w.step(WorkerEvent::Transcribed(Ok(String::new())));
    assert_eq!(actions, vec![WorkerAction::ReportComplete]);
    assert_eq!(w.session_state(), SessionState::Idle);
    assert_eq!(w.paste_target.paste_target_bundle_id, None);
}

#[test]
fn every_failure_is_reported_and_ends_in_idle() {
    let mut w = recording(Some("a"));
    let e = PipelineError::CaptureStart("no stream".to_string());
    assert_eq!(w.step(WorkerEvent::CaptureFailed(e.clone())), vec![WorkerAction::ReportError(e)]);
    assert_eq!(w.session_state(), SessionState::Idle);
    assert_eq!(w.paste_target.paste_target_bundle_id, None);

    let mut w = recording(Some("a"));
    w.step(release());
    let e = PipelineError::AudioFile("Failed to create WAV: disk full".to_string());
    assert_eq!(w.step(WorkerEvent::CaptureStopped(Err(e.clone()))), vec![WorkerAction::ReportError(e)]);
    assert_eq!(w.session_state(), SessionState::Idle);

    let mut w = transcribing(Some("a"));
    let e = PipelineError::RemoteService { status: 500, body: "boom".to_string() };
    assert_eq!(
        w.step(WorkerEvent::Transcribed(Err(e.clone()))),
        vec![WorkerAction::ReportError(e), WorkerAction::ReportComplete]
    );
    assert_eq!(w.session_state(), SessionState::Idle);
    assert_eq!(w.paste_target.paste_target_bundle_id, None);

    let mut w = transcribing(Some("a"));
    w.step(WorkerEvent::Transcribed(Ok("hi".to_string())));
    let e = PipelineError::Paste("Failed to access clipboard: denied".to_string());
    assert_eq!(
        w.step(WorkerEvent::Pasted(Err(e.clone()))),
        vec![WorkerAction::ReportError(e), WorkerAction::ReportComplete]
    );
    assert_eq!(w.session_state(), SessionState::Idle);
}

#[test]
fn a_failed_session_leaves_nothing_for_the_next_one() {
    let mut w = recording(Some("com.example.First"));
    w.step(WorkerEvent::CaptureFailed(PipelineError::MicrophoneBlocked));
    assert_eq!(w.step(release()), Vec::<WorkerAction>::new());
    w.step(press());
    w.step(release());
    w.step(WorkerEvent::CaptureStopped(Ok(16000)));
    let actions = w.step(WorkerEvent::Transcribed(Ok("next".to_string())));
    assert_eq!(
        actions[1],
        WorkerAction::Paste { text: "next".to_string(), target: None }
    );
}

#[test]
fn events_that_the_state_does_not_wait_for_are_dropped() {
    let mut w = DictationWorker::new();
    assert_eq!(w.step(WorkerEvent::Transcribed(Ok("late".to_string()))), Vec::<WorkerAction>::new());
    assert_eq!(w.step(WorkerEvent::Pasted(Ok(()))), Vec::<WorkerAction>::new());
    assert_eq!(w.step(WorkerEvent::CaptureStopped(Ok(5))), Vec::<WorkerAction>::new());
    assert_eq!(w.step(WorkerEvent::FrontmostApp(Some("x".to_string()))), Vec::<WorkerAction>::new());
    assert_eq!(w.session_state(), SessionState::Idle);
    assert_eq!(w.paste_target.paste_target_bundle_id, None);
    let mut w = recording(None);
    assert_eq!(w.step(WorkerEvent::Transcribed(Ok("late".to_string()))), Vec::<WorkerAction>::new());
    assert_eq!(w.step(WorkerEvent::CaptureStopped(Ok(5))), Vec::<WorkerAction>::new());
    assert_eq!(w.session_state(), SessionState::Recording);
}

#[test]
fn the_application_may_be_reported_after_a_quick_release() {
    let mut w = DictationWorker::new();
    w.step(press());
    w.step(release());
    w.step(WorkerEvent::FrontmostApp(Some("com.example.Editor".to_string())));
    w.step(WorkerEvent::CaptureStopped(Ok(16000)));
    let actions = w.step(WorkerEvent::Transcribed(Ok("hi".to_string())));
    assert_eq!(
        actions[1],
        WorkerAction::Paste { text: "hi".to_string(), target: Some("com.example.Editor".to_string()) }
    );
}

#[test]
fn the_application_is_not_noted_outside_a_session_or_after_the_paste_began() {
    let mut w = DictationWorker::new();
    w.step(WorkerEvent::FrontmostApp(Some("com.example.Editor".to_string())));
    assert_eq!(w.paste_target.paste_target_bundle_id, None);
    let mut w = transcribing(None);
    w.step(WorkerEvent::Transcribed(Ok("hi".to_string())));
    w.step(WorkerEvent::FrontmostApp(Some("com.example.Editor".to_string())));
    assert_eq!(w.paste_target.paste_target_bundle_id, None);
    assert_eq!(w.session_state(), SessionState::Pasting);
}

#[test]
fn capture_reports_once_and_the_backend_answers_once() {
    let mut w = recording(None);
    w.step(release());
    assert!(w.capture_pending);
    assert_eq!(w.step(WorkerEvent::Transcribed(Ok("early".to_string()))), Vec::<WorkerAction>::new());
    assert_eq!(w.session_state(), SessionState::Transcribing);
    assert_eq!(
        w.step(WorkerEvent::CaptureStopped(Ok(8000))),
        vec![WorkerAction::NotifyCaptureStopped, WorkerAction::Transcribe]
    );
    assert!(!w.capture_pending);
    assert_eq!(w.step(WorkerEvent::CaptureStopped(Ok(8000))), Vec::<WorkerAction>::new());
    assert_eq!(w.step(WorkerEvent::CaptureStopped(Ok(0))), Vec::<WorkerAction>::new());
    assert_eq!(w.session_state(), SessionState::Transcribing);
    assert_eq!(w.step(WorkerEvent::Transcribed(Ok("hi".to_string()))).len(), 2);
    assert_eq!(w.step(WorkerEvent::Transcribed(Ok("again".to_string()))), Vec::<WorkerAction>::new());
    assert_eq!(w.session_state(), SessionState::Pasting);
}

#[test]
fn a_late_start_failure_does_not_touch_the_session() {
    let mut w = recording(None);
    w.step(release());
    assert_eq!(
        w.step(WorkerEvent::CaptureFailed(PipelineError::NoInputDevice)),
        Vec::<WorkerAction>::new()
    );
    assert_eq!(w.session_state(), SessionState::Transcribing);
    assert!(w.capture_pending);
}
