use tom_core::{AiProvider, InferenceError, read_exchange};

#[test]
fn a_successful_exchange_returns_the_reply() {
    let reply = read_exchange(
        AiProvider::OpenAi,
        200,
        r#"{"choices":[{"message":{"role":"assistant","content":"hola desde el servidor"}}]}"#,
    );

    assert_eq!(reply, Ok("hola desde el servidor".to_owned()));
}

#[test]
fn a_refused_exchange_carries_the_status_and_the_providers_own_words() {
    let outcome = read_exchange(
        AiProvider::Anthropic,
        401,
        r#"{"error":{"type":"authentication_error","message":"invalid x-api-key"}}"#,
    );

    assert_eq!(
        outcome,
        Err(InferenceError::Status {
            code: 401,
            message: "invalid x-api-key".to_owned(),
        })
    );
}

#[test]
fn a_failed_status_with_a_body_that_is_not_json_still_reports_the_status() {
    match read_exchange(AiProvider::OpenAi, 502, "<html>bad gateway</html>") {
        Err(InferenceError::Status { code, message }) => {
            assert_eq!(code, 502);
            assert!(message.is_empty());
        }
        other => panic!("expected a status error, got {other:?}"),
    }
}

#[test]
fn only_the_two_hundreds_count_as_success() {
    let body = r#"{"choices":[{"message":{"content":"hola"}}]}"#;

    assert_eq!(read_exchange(AiProvider::OpenAi, 299, body), Ok("hola".to_owned()));
    assert_eq!(
        read_exchange(AiProvider::OpenAi, 300, body),
        Err(InferenceError::Status {
            code: 300,
            message: String::new(),
        })
    );
    assert!(matches!(
        read_exchange(AiProvider::OpenAi, 199, body),
        Err(InferenceError::Status { code: 199, .. })
    ));
}
