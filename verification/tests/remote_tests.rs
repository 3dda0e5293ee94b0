use mercer_voice::error::{ErrorKind, PipelineError};
use mercer_voice::remote::{
    backoff_secs, check_upload_size, conclude, is_success, transcript_from_body,
    transcript_from_field, RemoteCall, StatusDecision, MAX_RETRIES, MIN_UPLOAD_BYTES,
    STATUS_TOO_MANY_REQUESTS,
};

fn ok_body(b: &str) -> Result<String, String> {
    Ok(b.to_string())
}

#[test]
fn uploads_under_the_threshold_are_refused() {
    assert_eq!(MIN_UPLOAD_BYTES, 1000);
    assert_eq!(check_upload_size(0), Err(PipelineError::UploadTooSmall));
    assert_eq!(check_upload_size(999), Err(PipelineError::UploadTooSmall));
    assert_eq!(check_upload_size(1000), Ok(()));
    assert_eq!(check_upload_size(64044), Ok(()));
}

#[test]
fn success_is_the_class_of_two_hundred() {
    assert!(!is_success(199));
    assert!(is_success(200));
    assert!(is_success(204));
    assert!(is_success(299));
    assert!(!is_success(300));
    assert!(!is_success(429));
    assert!(!is_success(500));
}

#[test]
fn the_backoff_doubles() {
    assert_eq!(backoff_secs(0), 2);
    assert_eq!(backoff_secs(1), 4);
    assert_eq!(backoff_secs(2), 8);
}

#[test]
fn a_service_that_always_limits_is_asked_four_times() {
    assert_eq!(MAX_RETRIES, 3);
    assert_eq!(STATUS_TOO_MANY_REQUESTS, 429);
    let mut call = RemoteCall::new();
    let mut sends = 0;
    let mut delays = Vec::new();
    let outcome = loop {
        sends += 1;
        match call.on_status(429, None) {
            StatusDecision::Retry { delay_secs } => delays.push(delay_secs),
            StatusDecision::ReadBody => break conclude(429, ok_body("slow down")),
        }
        assert!(sends < 100);
    };
    assert_eq!(sends, 4);
    assert_eq!(delays, vec![2, 4, 8]);
    assert_eq!(call.retries_taken(), 3);
    assert_eq!(outcome, Err(PipelineError::RemoteService { status: 429, body: "slow down".to_string() }));
}

#[test]
fn retry_after_names_the_delay() {
    let mut call = RemoteCall::new();
    assert_eq!(call.on_status(429, Some("1")), StatusDecision::Retry { delay_secs: 1 });
    assert_eq!(call.on_status(429, Some("120")), StatusDecision::Retry { delay_secs: 120 });
    assert_eq!(call.on_status(429, Some("0")), StatusDecision::Retry { delay_secs: 0 });
    assert_eq!(call.on_status(429, Some("1")), StatusDecision::ReadBody);
}

#[test]
fn a_retry_after_that_is_no_number_falls_back_to_the_backoff() {
    let mut call = RemoteCall::new();
    assert_eq!(call.on_status(429, Some("soon")), StatusDecision::Retry { delay_secs: 2 });
    assert_eq!(
        call.on_status(429, Some("Wed, 21 Oct 2015 07:28:00 GMT")),
        StatusDecision::Retry { delay_secs: 4 }
    );
    assert_eq!(call.on_status(429, Some("")), StatusDecision::Retry { delay_secs: 8 });
}

#[test]
fn other_statuses_are_not_retried() {
    for status in [200u16, 201, 400, 401, 404, 500, 503] {
        let mut call = RemoteCall::new();
        assert_eq!(call.on_status(status, Some("1")), StatusDecision::ReadBody);
        assert_eq!(call.retries_taken(), 0);
    }
}

#[test]
fn a_success_after_a_retry_ends_the_call() {
    let mut call = RemoteCall::new();
    assert_eq!(call.on_status(429, None), StatusDecision::Retry { delay_secs: 2 });
    assert_eq!(call.on_status(200, None), StatusDecision::ReadBody);
    assert_eq!(call.retries_taken(), 1);
    assert_eq!(conclude(200, ok_body("{\"text\":\"hello world\"}")), Ok("hello world".to_string()));
}

#[test]
fn a_failure_status_carries_status_and_body() {
    assert_eq!(
        conclude(500, ok_body("boom")),
        Err(PipelineError::RemoteService { status: 500, body: "boom".to_string() })
    );
    assert_eq!(
        conclude(401, ok_body("{\"text\":\"hello\"}")),
        Err(PipelineError::RemoteService { status: 401, body: "{\"text\":\"hello\"}".to_string() })
    );
}

#[test]
fn a_failure_status_whose_body_cannot_be_read_says_unknown_error() {
    assert_eq!(
        conclude(502, Err("connection reset".to_string())),
        Err(PipelineError::RemoteService { status: 502, body: "Unknown error".to_string() })
    );
}

#[test]
fn a_success_whose_body_cannot_be_read_is_a_network_error() {
    let r = conclude(200, Err("connection reset".to_string()));
    assert_eq!(r, Err(PipelineError::Network("Failed to read response: connection reset".to_string())));
    assert_eq!(r.unwrap_err().kind(), ErrorKind::Network);
}

#[test]
fn a_blank_body_is_an_empty_response() {
    assert_eq!(transcript_from_body(""), Err(PipelineError::EmptyResponse));
    assert_eq!(transcript_from_body("  \n"), Err(PipelineError::EmptyResponse));
    assert_eq!(conclude(200, ok_body("")), Err(PipelineError::EmptyResponse));
}

#[test]
fn a_body_that_is_no_json_is_invalid_json() {
    assert!(matches!(transcript_from_body("not json"), Err(PipelineError::InvalidJson(_))));
    assert!(matches!(transcript_from_body("{\"text\":"), Err(PipelineError::InvalidJson(_))));
    assert!(matches!(transcript_from_body("{\"text\":\"a\"} x"), Err(PipelineError::InvalidJson(_))));
    match transcript_from_body("{") {
        Err(PipelineError::InvalidJson(detail)) => assert!(!detail.is_empty()),
        other => panic!("{:?}", other),
    }
}

#[test]
fn a_document_without_a_text_string_lacks_the_field() {
    assert_eq!(transcript_from_body("{}"), Err(PipelineError::MissingTextField));
    assert_eq!(transcript_from_body("{\"foo\":\"bar\"}"), Err(PipelineError::MissingTextField));
    assert_eq!(transcript_from_body("{\"text\":5}"), Err(PipelineError::MissingTextField));
    assert_eq!(transcript_from_body("{\"text\":null}"), Err(PipelineError::MissingTextField));
    assert_eq!(transcript_from_body("{\"Text\":\"hello\"}"), Err(PipelineError::MissingTextField));
    assert_eq!(transcript_from_body("[\"text\"]"), Err(PipelineError::MissingTextField));
    assert_eq!(transcript_from_body("\"text\""), Err(PipelineError::MissingTextField));
    assert_eq!(transcript_from_body("null"), Err(PipelineError::MissingTextField));
}

#[test]
fn a_blank_text_is_an_error_of_its_own() {
    assert_eq!(transcript_from_body("{\"text\":\"\"}"), Err(PipelineError::EmptyText));
    assert_eq!(transcript_from_body("{\"text\":\"  \\n \"}"), Err(PipelineError::EmptyText));
}

#[test]
fn the_text_member_is_the_transcript() {
    assert_eq!(
        transcript_from_body("{\"text\":\" Please send the report by noon. \"}"),
        Ok("Please send the report by noon.".to_string())
    );
    assert_eq!(
        transcript_from_body(" {\"duration\": 2.0, \"text\": \"hello world\"} "),
        Ok("hello world".to_string())
    );
    assert_eq!(
        transcript_from_body("{\"text\":\"caf\\u00e9 \\\"ok\\\"\"}"),
        Ok("café \"ok\"".to_string())
    );
}

#[test]
fn a_filler_text_member_is_the_empty_transcript() {
    assert_eq!(transcript_from_body("{\"text\":\"Thank you\"}"), Ok(String::new()));
    assert_eq!(transcript_from_body("{\"text\":\" you \"}"), Ok(String::new()));
}

#[test]
fn the_parsed_field_decides_the_transcript() {
    assert_eq!(
        transcript_from_field(Err("expected value at line 1 column 1".to_string())),
        Err(PipelineError::InvalidJson("expected value at line 1 column 1".to_string()))
    );
    assert_eq!(transcript_from_field(Ok(None)), Err(PipelineError::MissingTextField));
    assert_eq!(transcript_from_field(Ok(Some(" ".to_string()))), Err(PipelineError::EmptyText));
    assert_eq!(transcript_from_field(Ok(Some("um".to_string()))), Ok(String::new()));
    assert_eq!(transcript_from_field(Ok(Some(" hi there ".to_string()))), Ok("hi there".to_string()));
}

#[test]
fn json_beyond_the_parser_s_limits_is_refused() {
    let mut deep = String::new();
    let mut i = 0;
    while i < 200 {
        deep.push('[');
        i += 1;
    }
    let mut i = 0;
    while i < 200 {
        deep.push(']');
        i += 1;
    }
    assert!(matches!(transcript_from_body(&deep), Err(PipelineError::InvalidJson(_))));
    assert!(matches!(transcript_from_body("{\"text\":\"a\",\"n\":1e999}"), Err(PipelineError::InvalidJson(_))));
}

#[test]
fn the_last_of_two_text_members_counts() {
    assert_eq!(
        transcript_from_body("{\"text\":\"first words\",\"text\":\"second words\"}"),
        Ok("second words".to_string())
    );
}
