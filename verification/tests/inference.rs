use serde_json::Value;
use tom_core::{
    AiProvider, AiSettings, AssistanceStyle, ChatRole, ChatTurn, InferenceError, JsonValue,
    Persona, ProfessionalProfile, UserProfile, WireFormat, build_chat_request,
    parse_chat_response, parse_error_message, read_chat_reply, read_error_message, system_prompt,
};

fn settings(provider: AiProvider) -> AiSettings {
    AiSettings {
        provider,
        endpoint: String::new(),
        model_path: String::new(),
    }
}

fn history() -> Vec<ChatTurn> {
    vec![
        ChatTurn::user("hola"),
        ChatTurn::assistant("dime"),
        ChatTurn::user("resume mi dia"),
    ]
}

#[test]
fn every_usable_provider_has_a_wire_format_and_only_disabled_lacks_one() {
    for provider in AiProvider::ALL {
        assert_eq!(
            provider.wire_format().is_none(),
            provider == AiProvider::Disabled,
            "{}",
            provider.stable_id()
        );
    }
    assert_eq!(
        AiProvider::Ollama.wire_format(),
        Some(WireFormat::OpenAiCompatible),
        "Ollama is reached through its OpenAI-compatible surface"
    );
}

#[test]
fn an_openai_compatible_request_carries_the_system_prompt_and_the_whole_history() {
    let request = build_chat_request(
        &settings(AiProvider::OpenAi),
        Some("sk-test"),
        "SYS",
        &history(),
    )
    .expect("a cloud provider with a key builds");

    assert_eq!(request.url, "https://api.openai.com/v1/chat/completions");
    assert!(request.header_names().contains(&"authorization"));

    let body: Value = serde_json::from_str(&request.body).expect("valid json");
    assert_eq!(body["model"], "gpt-4o-mini");
    let messages = body["messages"].as_array().expect("messages array");
    assert_eq!(messages.len(), 4);
    assert_eq!(messages[0]["role"], "system");
    assert_eq!(messages[0]["content"], "SYS");
    assert_eq!(messages[1]["role"], "user");
    assert_eq!(messages[2]["role"], "assistant");
    assert_eq!(messages[3]["content"], "resume mi dia");
}

#[test]
fn an_anthropic_request_uses_the_documented_headers_and_a_separate_system_field() {
    let request = build_chat_request(
        &settings(AiProvider::Anthropic),
        Some("sk-ant"),
        "SYS",
        &history(),
    )
    .expect("a cloud provider with a key builds");

    assert_eq!(request.url, "https://api.anthropic.com/v1/messages");
    let names = request.header_names();
    assert!(names.contains(&"x-api-key"));
    assert!(names.contains(&"anthropic-version"));
    assert!(
        !names.contains(&"authorization"),
        "Anthropic authenticates with x-api-key, not a bearer token"
    );

    let body: Value = serde_json::from_str(&request.body).expect("valid json");
    assert_eq!(body["model"], "opus-5");
    assert_eq!(body["system"], "SYS");
    assert!(body["max_tokens"].as_u64().expect("max_tokens") > 0);
    let messages = body["messages"].as_array().expect("messages array");
    assert_eq!(messages.len(), 3, "the system prompt is not a message here");
    assert_eq!(messages[0]["role"], "user");
}

#[test]
fn a_gemini_request_renames_the_assistant_and_keeps_the_key_out_of_the_url() {
    let request = build_chat_request(
        &settings(AiProvider::Gemini),
        Some("goog-key"),
        "SYS",
        &history(),
    )
    .expect("a cloud provider with a key builds");

    assert!(
        request
            .url
            .ends_with("/v1beta/models/gemini-2.0-flash:generateContent")
    );
    assert!(
        !request.url.contains("goog-key"),
        "the credential must never reach the URL"
    );
    assert!(request.header_names().contains(&"x-goog-api-key"));

    let body: Value = serde_json::from_str(&request.body).expect("valid json");
    assert_eq!(body["systemInstruction"]["parts"][0]["text"], "SYS");
    let contents = body["contents"].as_array().expect("contents array");
    assert_eq!(contents[0]["role"], "user");
    assert_eq!(contents[1]["role"], "model");
}

#[test]
fn a_local_provider_is_reachable_with_no_credential_at_all() {
    let request = build_chat_request(&settings(AiProvider::Ollama), None, "SYS", &history())
        .expect("a local provider needs no key");

    assert_eq!(request.url, "http://127.0.0.1:11434/v1/chat/completions");
    assert!(
        !request.header_names().contains(&"authorization"),
        "no credential means no authorization header"
    );
}

#[test]
fn a_local_provider_behind_a_proxy_still_sends_the_token() {
    let request = build_chat_request(
        &settings(AiProvider::LmStudio),
        Some("proxy-token"),
        "SYS",
        &history(),
    )
    .expect("an optional token is used when present");

    assert!(request.header_names().contains(&"authorization"));
}

#[test]
fn a_cloud_provider_without_a_credential_is_refused_before_any_request_is_built() {
    assert_eq!(
        build_chat_request(&settings(AiProvider::OpenAi), None, "SYS", &history()),
        Err(InferenceError::MissingApiKey)
    );
    assert_eq!(
        build_chat_request(
            &settings(AiProvider::Anthropic),
            Some("   "),
            "SYS",
            &history()
        ),
        Err(InferenceError::MissingApiKey),
        "a blank key is no key"
    );
}

#[test]
fn missing_configuration_is_reported_precisely_rather_than_generically() {
    assert_eq!(
        build_chat_request(&settings(AiProvider::Disabled), None, "SYS", &history()),
        Err(InferenceError::NotConfigured)
    );
    assert_eq!(
        build_chat_request(&settings(AiProvider::CustomLocal), None, "SYS", &history()),
        Err(InferenceError::MissingEndpoint)
    );

    let named_endpoint = AiSettings {
        provider: AiProvider::CustomLocal,
        endpoint: "http://192.168.1.10:8080/v1/".to_owned(),
        model_path: String::new(),
    };
    assert_eq!(
        build_chat_request(&named_endpoint, None, "SYS", &history()),
        Err(InferenceError::MissingModel)
    );
}

#[test]
fn a_configured_endpoint_wins_over_the_default_and_loses_its_trailing_slash() {
    let custom = AiSettings {
        provider: AiProvider::OpenAi,
        endpoint: "  https://gateway.example.com/v1/  ".to_owned(),
        model_path: " my-model ".to_owned(),
    };

    let request =
        build_chat_request(&custom, Some("k"), "SYS", &history()).expect("fully configured");

    assert_eq!(
        request.url,
        "https://gateway.example.com/v1/chat/completions"
    );
    let body: Value = serde_json::from_str(&request.body).expect("valid json");
    assert_eq!(body["model"], "my-model");
}

#[test]
fn each_format_is_read_out_of_the_place_that_format_puts_it() {
    assert_eq!(
        parse_chat_response(
            AiProvider::OpenAi,
            r#"{"choices":[{"message":{"role":"assistant","content":"hola"}}]}"#
        ),
        Ok("hola".to_owned())
    );
    assert_eq!(
        parse_chat_response(
            AiProvider::Anthropic,
            r#"{"content":[{"type":"text","text":"ho"},{"type":"text","text":"la"}],"stop_reason":"end_turn"}"#
        ),
        Ok("hola".to_owned()),
        "several text blocks join into one reply"
    );
    assert_eq!(
        parse_chat_response(
            AiProvider::Gemini,
            r#"{"candidates":[{"content":{"parts":[{"text":"hola"}]}}]}"#
        ),
        Ok("hola".to_owned())
    );
}

#[test]
fn anthropic_thinking_blocks_are_skipped_rather_than_shown_as_the_reply() {
    let body = r#"{"content":[{"type":"thinking","thinking":""},{"type":"text","text":"la respuesta"}]}"#;

    assert_eq!(
        parse_chat_response(AiProvider::Anthropic, body),
        Ok("la respuesta".to_owned())
    );
}

#[test]
fn a_refusal_is_surfaced_as_a_provider_answer_not_as_a_parse_failure() {
    let body = r#"{"content":[],"stop_reason":"refusal"}"#;

    match parse_chat_response(AiProvider::Anthropic, body) {
        Err(InferenceError::Status { code, .. }) => assert_eq!(code, 200),
        other => panic!("expected a refusal status, got {other:?}"),
    }
}

#[test]
fn an_unreadable_body_is_reported_instead_of_showing_an_empty_reply() {
    assert!(matches!(
        parse_chat_response(AiProvider::OpenAi, "not json"),
        Err(InferenceError::Malformed(_))
    ));
    assert!(matches!(
        parse_chat_response(AiProvider::OpenAi, r#"{"choices":[]}"#),
        Err(InferenceError::Malformed(_))
    ));
    assert!(
        matches!(
            parse_chat_response(
                AiProvider::OpenAi,
                r#"{"choices":[{"message":{"content":"   "}}]}"#
            ),
            Err(InferenceError::Malformed(_))
        ),
        "a blank reply is not a reply"
    );
}

#[test]
fn provider_error_messages_are_found_wherever_the_provider_nests_them() {
    assert_eq!(
        parse_error_message(
            r#"{"error":{"type":"invalid_request_error","message":"bad model"}}"#
        ),
        Some("bad model".to_owned())
    );
    assert_eq!(
        parse_error_message(r#"{"message":"unauthorized"}"#),
        Some("unauthorized".to_owned())
    );
    assert_eq!(parse_error_message("<html>502</html>"), None);
    assert_eq!(parse_error_message(r#"{"error":{"message":"  "}}"#), None);
}

#[test]
fn user_facing_errors_name_the_fix_and_never_carry_a_payload() {
    assert!(
        InferenceError::MissingApiKey
            .user_message()
            .contains("clave")
    );
    assert!(
        InferenceError::MissingModel
            .user_message()
            .contains("modelo")
    );
    let status = InferenceError::Status {
        code: 429,
        message: "rate limited".to_owned(),
    };
    assert!(status.user_message().contains("429"));
}

#[test]
fn the_system_prompt_speaks_as_the_chosen_persona_and_respects_its_initiative() {
    let focused = UserProfile {
        persona: Persona::Tom,
        professional_profile: ProfessionalProfile::Developer,
        assistance_style: AssistanceStyle::Focused,
    };
    let prompt = system_prompt(&focused);
    assert!(prompt.starts_with("Eres Tom,"));
    assert!(prompt.contains("Desarrollo"));
    assert!(prompt.contains("solo lo que se te pregunta"));

    let proactive = UserProfile {
        persona: Persona::Tomy,
        professional_profile: ProfessionalProfile::Creator,
        assistance_style: AssistanceStyle::Proactive,
    };
    let prompt = system_prompt(&proactive);
    assert!(prompt.starts_with("Eres Tomy,"));
    assert!(prompt.contains("aprobacion"));
}

#[test]
fn roles_use_the_ids_the_wire_formats_expect() {
    assert_eq!(ChatRole::User.stable_id(), "user");
    assert_eq!(ChatRole::Assistant.stable_id(), "assistant");
}

#[test]
fn an_openai_body_is_written_exactly_as_the_json_serializer_writes_it() {
    let request = build_chat_request(
        &settings(AiProvider::OpenAi),
        Some("  sk-test "),
        "SYS \"quoted\"",
        &[ChatTurn::user("hola")],
    )
    .expect("a cloud provider with a key builds");

    assert_eq!(
        request.body,
        r#"{"messages":[{"content":"SYS \"quoted\"","role":"system"},{"content":"hola","role":"user"}],"model":"gpt-4o-mini"}"#
    );
    assert_eq!(
        request.headers,
        vec![
            ("content-type".to_owned(), "application/json".to_owned()),
            ("authorization".to_owned(), "Bearer sk-test".to_owned()),
        ]
    );
}

#[test]
fn anthropic_and_gemini_bodies_are_written_exactly() {
    let anthropic = build_chat_request(
        &settings(AiProvider::Anthropic),
        Some("k"),
        "S",
        &[ChatTurn::assistant("a")],
    )
    .expect("builds");
    assert_eq!(
        anthropic.body,
        r#"{"max_tokens":16000,"messages":[{"content":"a","role":"assistant"}],"model":"opus-5","system":"S"}"#
    );
    assert_eq!(anthropic.header_names(), vec!["content-type", "x-api-key", "anthropic-version"]);
    assert_eq!(anthropic.headers[2].1, "2023-06-01");

    let gemini = build_chat_request(
        &settings(AiProvider::Gemini),
        Some("k"),
        "S",
        &[ChatTurn::user("u"), ChatTurn::assistant("a")],
    )
    .expect("builds");
    assert_eq!(
        gemini.body,
        r#"{"contents":[{"parts":[{"text":"u"}],"role":"user"},{"parts":[{"text":"a"}],"role":"model"}],"systemInstruction":{"parts":[{"text":"S"}]}}"#
    );
    assert_eq!(
        gemini.url,
        "https://generativelanguage.googleapis.com/v1beta/models/gemini-2.0-flash:generateContent"
    );
}

#[test]
fn an_empty_history_still_sends_the_system_prompt() {
    let request = build_chat_request(&settings(AiProvider::Ollama), Some("   "), "SYS", &[])
        .expect("a local provider builds");
    assert_eq!(
        request.body,
        r#"{"messages":[{"content":"SYS","role":"system"}],"model":"llama3.2"}"#
    );
    assert_eq!(request.header_names(), vec!["content-type"]);
    assert_eq!(request.provider, AiProvider::Ollama);
}

#[test]
fn a_custom_cloud_provider_needs_its_endpoint() {
    assert_eq!(
        build_chat_request(&settings(AiProvider::CustomCloud), Some("k"), "SYS", &history()),
        Err(InferenceError::MissingEndpoint)
    );
    let named = AiSettings {
        provider: AiProvider::CustomCloud,
        endpoint: "https://llm.example.com/v1///".to_owned(),
        model_path: "m".to_owned(),
    };
    let request = build_chat_request(&named, Some("k"), "SYS", &history()).expect("builds");
    assert_eq!(request.url, "https://llm.example.com/v1/chat/completions");
}

#[test]
fn every_error_has_its_own_line() {
    assert_eq!(
        InferenceError::NotConfigured.user_message(),
        "Elige un proveedor en Ajustes antes de hablar"
    );
    assert_eq!(
        InferenceError::MissingEndpoint.user_message(),
        "Configura el endpoint del proveedor en Ajustes"
    );
    assert_eq!(
        InferenceError::Transport("timeout".to_owned()).user_message(),
        "No pudimos contactar al proveedor: timeout"
    );
    assert_eq!(
        InferenceError::Status {
            code: 502,
            message: String::new(),
        }
        .user_message(),
        "El proveedor respondio con error 502"
    );
    assert_eq!(
        InferenceError::Status {
            code: 429,
            message: "rate limited".to_owned(),
        }
        .user_message(),
        "Error 429 del proveedor: rate limited"
    );
    assert_eq!(
        InferenceError::Malformed("x".to_owned()).user_message(),
        "Respuesta inesperada del proveedor: x"
    );
}

#[test]
fn the_system_prompt_is_written_in_full() {
    let profile = UserProfile {
        persona: Persona::Tom,
        professional_profile: ProfessionalProfile::Office,
        assistance_style: AssistanceStyle::Balanced,
    };
    assert_eq!(
        system_prompt(&profile),
        "Eres Tom, un asistente de escritorio local que acompaña a alguien cuyo trabajo principal es: Oficina. Hablas de forma precisa, serena y directa, con lenguaje profesional. Sugiere un siguiente paso solo cuando el patron sea claro, sin insistir. Nunca ejecutas acciones sin permiso y admites cuando no sabes algo en vez de inventarlo. Responde en el idioma del usuario."
    );
}

#[test]
fn replies_are_read_from_an_already_parsed_document() {
    let document = JsonValue::Object(vec![(
        "choices".to_owned(),
        JsonValue::Array(vec![JsonValue::Object(vec![(
            "message".to_owned(),
            JsonValue::Object(vec![("content".to_owned(), JsonValue::Text("hola".to_owned()))]),
        )])]),
    )]);
    assert_eq!(read_chat_reply(AiProvider::LmStudio, &Ok(document)), Ok("hola".to_owned()));
    assert_eq!(
        read_chat_reply(AiProvider::OpenAi, &Err("expected value".to_owned())),
        Err(InferenceError::Malformed("expected value".to_owned()))
    );
    assert_eq!(
        read_chat_reply(AiProvider::Disabled, &Ok(JsonValue::Null)),
        Err(InferenceError::NotConfigured)
    );
    assert_eq!(
        parse_chat_response(AiProvider::Disabled, "{}"),
        Err(InferenceError::NotConfigured)
    );
}

#[test]
fn gemini_parts_without_tags_are_joined() {
    assert_eq!(
        parse_chat_response(
            AiProvider::Gemini,
            r#"{"candidates":[{"content":{"parts":[{"text":"ho"},{"text":"la"},{"inline":1}]}}]}"#
        ),
        Ok("hola".to_owned())
    );
    assert!(matches!(
        parse_chat_response(AiProvider::Gemini, r#"{"candidates":[]}"#),
        Err(InferenceError::Malformed(_))
    ));
}

#[test]
fn error_messages_are_trimmed_and_tried_in_order() {
    assert_eq!(
        parse_error_message(r#"{"error":"  quota exceeded "}"#),
        Some("quota exceeded".to_owned())
    );
    assert_eq!(
        parse_error_message(r#"{"detail":"not found","message":"first"}"#),
        Some("first".to_owned())
    );
    assert_eq!(parse_error_message(r#"{"detail":"not found"}"#), Some("not found".to_owned()));
    assert_eq!(read_error_message(&Err("eof".to_owned())), None);
    assert_eq!(
        read_error_message(&Ok(JsonValue::Object(vec![(
            "message".to_owned(),
            JsonValue::Number("3".to_owned())
        )]))),
        None
    );
}

#[test]
fn default_locations_and_models_match_each_provider() {
    assert_eq!(AiProvider::Anthropic.default_endpoint(), Some("https://api.anthropic.com"));
    assert_eq!(AiProvider::CustomLocal.default_endpoint(), None);
    assert_eq!(AiProvider::Gemini.default_model(), Some("gemini-2.0-flash"));
    assert_eq!(AiProvider::CustomCloud.default_model(), None);
    assert_eq!(AiProvider::Gemini.wire_format(), Some(WireFormat::Gemini));
    assert_eq!(AiProvider::CustomCloud.wire_format(), Some(WireFormat::OpenAiCompatible));
    let _: Value = serde_json::from_str("{}").expect("valid json");
}

#[test]
fn text_is_escaped_in_the_request_body_exactly_as_json_writes_it() {
    let request = build_chat_request(
        &settings(AiProvider::OpenAi),
        Some("sk-test"),
        "di \"hola\"",
        &[ChatTurn::user("a\\b\nc\u{1}\té")],
    )
    .expect("a complete request");

    assert!(request.body.contains(r#"{"content":"di \"hola\"","role":"system"}"#));
    assert!(request.body.contains(r#"{"content":"a\\b\nc\u0001\té","role":"user"}"#));
}
