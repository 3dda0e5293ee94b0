use mercer_voice::error::PipelineError;
use mercer_voice::transcribe::{
    finish_transcript, resolve_credential, select_backend, transcribe_impl, Backend, BackendPlan,
};

fn s(v: &str) -> Option<String> {
    Some(v.to_string())
}

#[test]
fn only_the_word_local_selects_the_local_backend() {
    assert_eq!(select_backend("local"), Backend::Local);
    assert_eq!(select_backend("azure"), Backend::Remote);
    assert_eq!(select_backend(""), Backend::Remote);
    assert_eq!(select_backend("Local"), Backend::Remote);
    assert_eq!(select_backend(" local"), Backend::Remote);
}

#[test]
fn a_credential_must_be_set_and_not_empty() {
    assert_eq!(resolve_credential(s("https://x.example/speech")), Ok("https://x.example/speech".to_string()));
    assert_eq!(resolve_credential(s("")), Err(PipelineError::MissingCredential));
    assert_eq!(resolve_credential(None), Err(PipelineError::MissingCredential));
    assert_eq!(resolve_credential(s(" ")), Ok(" ".to_string()));
}

#[test]
fn the_local_plan_needs_only_the_model_path() {
    let plan = transcribe_impl("local", None, None, s("/models/ggml-tiny.en.bin"));
    assert_eq!(plan, Ok(BackendPlan::Local { model_path: "/models/ggml-tiny.en.bin".to_string() }));
}

#[test]
fn the_local_plan_without_a_model_path_is_a_configuration_error() {
    let plan = transcribe_impl("local", s("https://x.example"), s("key"), None);
    assert_eq!(plan, Err(PipelineError::MissingModelPath));
}

#[test]
fn the_remote_plan_needs_endpoint_and_key() {
    let plan = transcribe_impl("azure", s("https://x.example"), s("key"), s("/m.bin"));
    assert_eq!(
        plan,
        Ok(BackendPlan::Remote { endpoint: "https://x.example".to_string(), api_key: "key".to_string() })
    );
    assert_eq!(transcribe_impl("azure", None, s("key"), None), Err(PipelineError::MissingCredential));
    assert_eq!(transcribe_impl("azure", s("https://x.example"), None, None), Err(PipelineError::MissingCredential));
    assert_eq!(transcribe_impl("azure", s(""), s("key"), None), Err(PipelineError::MissingCredential));
    assert_eq!(transcribe_impl("azure", s("https://x.example"), s(""), None), Err(PipelineError::MissingCredential));
}

#[test]
fn an_unknown_source_means_remote() {
    let plan = transcribe_impl("whatever", s("e"), s("k"), s("/m.bin"));
    assert_eq!(plan, Ok(BackendPlan::Remote { endpoint: "e".to_string(), api_key: "k".to_string() }));
}

#[test]
fn blank_raw_text_is_the_given_error() {
    assert_eq!(finish_transcript("", PipelineError::NoLocalText), Err(PipelineError::NoLocalText));
    assert_eq!(finish_transcript(" \n ", PipelineError::EmptyText), Err(PipelineError::EmptyText));
}

#[test]
fn filler_becomes_the_empty_transcript() {
    assert_eq!(finish_transcript(" Thank you ", PipelineError::EmptyText), Ok(String::new()));
    assert_eq!(finish_transcript("you", PipelineError::NoLocalText), Ok(String::new()));
    assert_eq!(finish_transcript("...", PipelineError::NoLocalText), Ok(String::new()));
}

#[test]
fn speech_is_returned_trimmed_and_in_its_own_case() {
    assert_eq!(
        finish_transcript("  Please send the Report by noon.\n", PipelineError::EmptyText),
        Ok("Please send the Report by noon.".to_string())
    );
    assert_eq!(finish_transcript("hello world", PipelineError::EmptyText), Ok("hello world".to_string()));
}
