use deeprl::{classify, classify_message, Error};

#[test]
fn success_statuses() {
    assert!(classify(200, "{}").is_ok());
    assert!(classify(204, "").is_ok());
    assert!(classify(299, "not json").is_ok());
}

#[test]
fn not_found_after_delete() {
    let res = classify(404, r#"{"message":"Glossary not found"}"#);
    assert!(matches!(res, Err(Error::Server(404, m)) if m == "Glossary not found"));
}

#[test]
fn invalid_language_pair() {
    let body = r#"{"message":"Value for 'source_lang' not supported.","detail":"x"}"#;
    let res = classify(400, body);
    assert!(matches!(res, Err(Error::Server(400, m)) if m == "Value for 'source_lang' not supported."));
}

#[test]
fn server_failure_with_message() {
    let res = classify(503, r#"{"message": "Service unavailable"}"#);
    assert!(matches!(res, Err(Error::Server(503, m)) if m == "Service unavailable"));
}

#[test]
fn unstructured_failure_body() {
    assert!(matches!(classify(500, "<html>oops</html>"), Err(Error::InvalidResponse)));
    assert!(matches!(classify(456, ""), Err(Error::InvalidResponse)));
    assert!(matches!(classify(400, r#"{"error":"x"}"#), Err(Error::InvalidResponse)));
    assert!(matches!(classify(400, r#"{"message":42}"#), Err(Error::InvalidResponse)));
    assert!(matches!(classify(400, r#"["message"]"#), Err(Error::InvalidResponse)));
    assert!(matches!(classify(199, r#"{"message":"early"}"#), Err(Error::Server(199, _))));
}

#[test]
fn classify_from_message() {
    assert!(classify_message(201, Some("ignored".to_string())).is_ok());
    assert!(matches!(classify_message(403, Some("Forbidden".to_string())), Err(Error::Server(403, m)) if m == "Forbidden"));
    assert!(matches!(classify_message(403, None), Err(Error::InvalidResponse)));
}
