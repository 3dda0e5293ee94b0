use mercer_voice::error::PipelineError;
use mercer_voice::local::{
    check_sample_count, inference_threads, transcript_from_segments, LoadOutcome, ModelCache,
    MIN_LOCAL_SAMPLES,
};

fn serve(cache: &mut ModelCache, path: &str, loads: &mut u32) {
    if cache.needs_load(path) {
        *loads += 1;
        assert_eq!(cache.on_load(path.to_string(), LoadOutcome::Loaded), Ok(()));
    }
}

#[test]
fn the_same_path_is_loaded_once_and_another_path_once_more() {
    let mut cache = ModelCache::new();
    let mut loads = 0;
    serve(&mut cache, "/models/ggml-tiny.en.bin", &mut loads);
    assert_eq!(loads, 1);
    serve(&mut cache, "/models/ggml-tiny.en.bin", &mut loads);
    assert_eq!(loads, 1);
    serve(&mut cache, "/models/ggml-small.en.bin", &mut loads);
    assert_eq!(loads, 2);
    assert!(cache.needs_load("/models/ggml-tiny.en.bin"));
    assert!(!cache.needs_load("/models/ggml-small.en.bin"));
}

#[test]
fn an_empty_cache_needs_a_load() {
    let cache = ModelCache::new();
    assert!(cache.needs_load("/m.bin"));
    assert!(cache.needs_load(""));
}

#[test]
fn a_missing_file_is_reported_and_the_cache_kept() {
    let mut cache = ModelCache::new();
    assert_eq!(cache.on_load("/a.bin".to_string(), LoadOutcome::Loaded), Ok(()));
    assert_eq!(
        cache.on_load("/b.bin".to_string(), LoadOutcome::NotFound),
        Err(PipelineError::ModelNotFound("/b.bin".to_string()))
    );
    assert!(!cache.needs_load("/a.bin"));
    assert!(cache.needs_load("/b.bin"));
}

#[test]
fn a_failed_load_is_reported_and_the_cache_kept() {
    let mut cache = ModelCache::new();
    assert_eq!(
        cache.on_load("/b.bin".to_string(), LoadOutcome::Failed("InitError".to_string())),
        Err(PipelineError::ModelLoad("InitError".to_string()))
    );
    assert!(cache.needs_load("/b.bin"));
    assert_eq!(cache.on_load("/a.bin".to_string(), LoadOutcome::Loaded), Ok(()));
    assert_eq!(
        cache.on_load("/b.bin".to_string(), LoadOutcome::Failed("InitError".to_string())),
        Err(PipelineError::ModelLoad("InitError".to_string()))
    );
    assert!(!cache.needs_load("/a.bin"));
}

#[test]
fn recordings_under_the_threshold_are_refused() {
    assert_eq!(MIN_LOCAL_SAMPLES, 1600);
    assert_eq!(check_sample_count(0), Err(PipelineError::AudioTooShort));
    assert_eq!(check_sample_count(1599), Err(PipelineError::AudioTooShort));
    assert_eq!(check_sample_count(1600), Ok(()));
    assert_eq!(check_sample_count(32000), Ok(()));
}

#[test]
fn all_reported_parallelism_is_used_and_one_thread_at_least() {
    assert_eq!(inference_threads(Some(8)), 8);
    assert_eq!(inference_threads(Some(1)), 1);
    assert_eq!(inference_threads(Some(0)), 1);
    assert_eq!(inference_threads(None), 1);
}

#[test]
fn segments_are_joined_and_trimmed() {
    let segments = vec![" Hello".to_string(), " world.".to_string(), " ".to_string()];
    assert_eq!(transcript_from_segments(&segments), Ok("Hello world.".to_string()));
}

#[test]
fn no_text_from_the_model_is_an_error() {
    assert_eq!(transcript_from_segments(&Vec::new()), Err(PipelineError::NoLocalText));
    assert_eq!(
        transcript_from_segments(&vec![" ".to_string(), "\n".to_string()]),
        Err(PipelineError::NoLocalText)
    );
}

#[test]
fn filler_from_the_model_is_the_empty_transcript() {
    assert_eq!(transcript_from_segments(&vec![" Thank".to_string(), " you".to_string()]), Ok(String::new()));
    assert_eq!(transcript_from_segments(&vec![" you".to_string()]), Ok(String::new()));
}
