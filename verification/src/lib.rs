//! Domain model, onboarding catalog, chat request building and interface state for a
//! local-first desktop assistant.

mod catalog;
mod controller;
mod credential;
mod handlers;
mod inference;
mod json;
mod model;
mod stored;
mod text;
mod view_model;

pub use catalog::{
    AiSetup, Choice, ChoiceView, OnboardingStep, PulseEntry, PulseEntryView, PulseTone,
    api_key_providers, cloud_provider_choices, local_provider_choices, pulse_timeline,
    welcome_highlights,
};
pub use controller::{
    AiSettingsSubmission, ApiKeySubmission, Controller, ControllerView, DEFAULT_ORB_SIZE,
    EMPTY_API_KEY, EMPTY_NOTE, LaunchProfile, MAX_ORB_SIZE, MIN_ORB_SIZE, MISSING_ENDPOINT,
    MISSING_LOCAL_MODEL, NO_INTELLIGENCE, NoteSubmission, ORB_RESIZE_STEP, OnboardingAdvance,
    OnboardingAnswers, OrbResizeAction, OrbState, PROVIDER_WITHOUT_KEY, UNKNOWN_AI_SETUP,
    UNKNOWN_ASSISTANCE, UNKNOWN_PERSONA, UNKNOWN_PROFILE, UNKNOWN_PROVIDER, WindowMode,
    WorkspaceSection, anchored_orb_position, centered_resize_position, translated_orb_position,
};
pub use credential::{
    ApiKeyStatus, CredentialError, CredentialVault, KeyManagerStatus, SERVICE_NAME,
    api_key_summary, forget_api_key, key_editor_label, key_manager_status, provider_has_api_key,
    read_key_inventory, store_api_key,
};
pub use handlers::{
    KeyEdit, ProviderPanel, SettingsReview, apply_provider_selection, capture_note,
    finish_onboarding, handle_forget_api_key, handle_key_provider_selection,
    handle_save_ai_settings, handle_store_api_key, refresh_key_manager,
};
pub use inference::{
    ChatRequest, ChatRequestView, ChatRole, ChatTurn, ChatTurnView, InferenceError,
    InferenceErrorView, WireFormat, build_chat_request, parse_chat_response, parse_error_message,
    read_chat_reply, read_error_message, read_exchange, system_prompt,
};
pub use json::JsonValue;
pub use model::{
    AiProvider, AiSettings, AssistanceStyle, Note, Persona, ProfessionalProfile,
    RoutineSuggestion, UserProfile,
};
pub use stored::{
    StoredValueError, StoredValueErrorView, decode_ai_settings, decode_note, decode_profile,
    escape_like, needs_assistance_style_column, parse_persona, parse_professional_profile,
    persona_to_str, search_pattern,
};
pub use view_model::{
    ApiKeyRow, ChoiceRow, MemoryRow, OnboardingPage, PulseRow, RoutineRow, api_key_rows,
    choice_rows, initial_routines, memory_rows, onboarding_pages, pulse_rows, remove_model_row,
    step_choices, welcome_highlight_rows,
};
