use tom_core::{AiProvider, AiSettings};

#[test]
fn ai_provider_ids_are_stable_and_round_trip() {
    let cases = [
        (AiProvider::Disabled, "disabled"),
        (AiProvider::OpenAi, "openai"),
        (AiProvider::Anthropic, "anthropic"),
        (AiProvider::Gemini, "gemini"),
        (AiProvider::CustomCloud, "custom-cloud"),
        (AiProvider::Ollama, "ollama"),
        (AiProvider::LmStudio, "lm-studio"),
        (AiProvider::CustomLocal, "custom-local"),
    ];

    for (provider, stable_id) in cases {
        assert_eq!(provider.stable_id(), stable_id);
        assert_eq!(AiProvider::from_stable_id(stable_id), Some(provider));
    }
    assert_eq!(AiProvider::from_stable_id("unknown"), None);
}

#[test]
fn ai_settings_default_to_disabled_without_locations() {
    assert_eq!(
        AiSettings::default(),
        AiSettings {
            provider: AiProvider::Disabled,
            endpoint: String::new(),
            model_path: String::new(),
        }
    );
}
