use mistral_api::client::{
    authorization_value, classify_exchange, classify_parsed, classify_response, finish_decoded,
    is_success, ApiError, CHAT_COMPLETIONS_URL,
};

const EXAMPLE_RESPONSE: &str = r#"{
  "id": "cmpl-e5cc70bb28c444948073e77776eb30ef",
  "object": "chat.completion",
  "created": 1702256327,
  "model": "mistral-tiny",
  "choices": [
    {
      "index": 0,
      "message": {"role": "assistant", "content": "Comté is a great French cheese."},
      "finish_reason": "stop"
    }
  ],
  "usage": {"prompt_tokens": 16, "completion_tokens": 34, "total_tokens": 50}
}"#;

#[test]
fn success_statuses() {
    assert!(is_success(200));
    assert!(is_success(204));
    assert!(is_success(299));
    assert!(!is_success(199));
    assert!(!is_success(300));
    assert!(!is_success(400));
    assert!(!is_success(500));
}

#[test]
fn well_formed_success_is_handed_on() {
    let v = match classify_response(200, EXAMPLE_RESPONSE.as_bytes().to_vec()) {
        Ok(v) => v,
        Err(e) => panic!("unexpected error {:?}", e),
    };
    assert_eq!(v["model"], "mistral-tiny");
    assert_eq!(v["choices"].as_array().unwrap().len(), 1);
    assert_eq!(v["choices"][0]["finish_reason"], "stop");
    let usage = &v["usage"];
    assert_eq!(usage["total_tokens"], 50);
    assert_eq!(
        usage["total_tokens"].as_i64().unwrap(),
        usage["prompt_tokens"].as_i64().unwrap() + usage["completion_tokens"].as_i64().unwrap()
    );
    let expected: serde_json::Value = serde_json::from_str(EXAMPLE_RESPONSE).unwrap();
    assert_eq!(v, expected);
}

#[test]
fn error_status_gives_service_error_with_payload() {
    let body = br#"{"message": "invalid request"}"#.to_vec();
    match classify_response(400, body) {
        Err(ApiError::Mistral(v)) => {
            let expected: serde_json::Value =
                serde_json::from_str(r#"{"message": "invalid request"}"#).unwrap();
            assert_eq!(v, expected);
        }
        other => panic!("expected a service error, got {:?}", other),
    }
}

#[test]
fn empty_body_is_server_error() {
    match classify_response(200, Vec::new()) {
        Err(ApiError::Server(status, raw)) => {
            assert_eq!(status, 200);
            assert!(raw.is_empty());
        }
        other => panic!("expected a server error, got {:?}", other),
    }
}

#[test]
fn non_json_body_is_server_error_even_on_error_status() {
    let body = b"<html>Bad Gateway</html>".to_vec();
    match classify_response(502, body.clone()) {
        Err(ApiError::Server(status, raw)) => {
            assert_eq!(status, 502);
            assert_eq!(raw, body);
        }
        other => panic!("expected a server error, got {:?}", other),
    }
}

#[test]
fn missing_usage_is_decoding_error() {
    let mut v: serde_json::Value = serde_json::from_str(EXAMPLE_RESPONSE).unwrap();
    v.as_object_mut().unwrap().remove("usage");
    let body = serde_json::to_vec(&v).unwrap();
    let handed = classify_response(200, body).unwrap();
    assert!(handed.get("usage").is_none());
    let decoded = serde_json::from_value::<(String, i64)>(handed);
    assert!(decoded.is_err());
    match finish_decoded(decoded) {
        Err(ApiError::Json(_)) => {}
        other => panic!("expected a decoding error, got {:?}", other),
    }
}

#[test]
fn decoded_value_passes_through() {
    let r: Result<i64, serde_json::Error> = Ok(7);
    match finish_decoded(r) {
        Ok(n) => assert_eq!(n, 7),
        other => panic!("unexpected {:?}", other),
    }
}

#[test]
fn parsed_outcome_classification() {
    let v: serde_json::Value = serde_json::from_str("[1, 2]").unwrap();
    match classify_parsed(201, b"[1, 2]".to_vec(), Ok(v.clone())) {
        Ok(w) => assert_eq!(w, v),
        other => panic!("unexpected {:?}", other),
    }
    match classify_parsed(404, b"[1, 2]".to_vec(), Ok(v.clone())) {
        Err(ApiError::Mistral(w)) => assert_eq!(w, v),
        other => panic!("unexpected {:?}", other),
    }
    let err = serde_json::from_str::<serde_json::Value>("{").unwrap_err();
    match classify_parsed(200, b"{".to_vec(), Err(err)) {
        Err(ApiError::Server(200, raw)) => assert_eq!(raw, b"{".to_vec()),
        other => panic!("unexpected {:?}", other),
    }
}

#[test]
fn exchange_with_response_is_classified() {
    match classify_exchange(Ok((503, b"{\"detail\": \"busy\"}".to_vec()))) {
        Err(ApiError::Mistral(v)) => assert_eq!(v["detail"], "busy"),
        other => panic!("unexpected {:?}", other),
    }
    match classify_exchange(Ok((200, b"null".to_vec()))) {
        Ok(v) => assert!(v.is_null()),
        other => panic!("unexpected {:?}", other),
    }
}

#[test]
fn bearer_authorization() {
    assert_eq!(authorization_value("abc123"), "Bearer abc123");
    assert_eq!(authorization_value(""), "Bearer ");
}

#[test]
fn endpoint_address() {
    assert_eq!(CHAT_COMPLETIONS_URL, "https://api.mistral.ai/v1/chat/completions");
}
