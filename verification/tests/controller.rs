use tom_core::{
    AiProvider, AiSettings, AiSettingsSubmission, AiSetup, ApiKeySubmission, AssistanceStyle,
    Controller, EMPTY_API_KEY, LaunchProfile, NO_INTELLIGENCE, NoteSubmission, OnboardingAdvance,
    OnboardingAnswers, OnboardingStep, OrbResizeAction, OrbState, PROVIDER_WITHOUT_KEY, Persona,
    ProfessionalProfile, UNKNOWN_AI_SETUP, UNKNOWN_ASSISTANCE, UNKNOWN_PERSONA, UNKNOWN_PROFILE,
    UNKNOWN_PROVIDER, WindowMode, WorkspaceSection, anchored_orb_position,
    centered_resize_position, translated_orb_position,
};

#[test]
fn workspace_navigation_starts_today_and_switches_sections() {
    let mut controller = Controller::default();

    assert_eq!(controller.active_section(), WorkspaceSection::Today);

    controller.navigate_to(WorkspaceSection::Memory);
    assert_eq!(controller.active_section(), WorkspaceSection::Memory);

    controller.navigate_to(WorkspaceSection::Routines);
    assert_eq!(controller.active_section(), WorkspaceSection::Routines);
}

#[test]
fn workspace_section_ids_round_trip() {
    for section in WorkspaceSection::ALL {
        assert_eq!(WorkspaceSection::parse(section.stable_id()), Some(section));
    }
    assert_eq!(WorkspaceSection::parse("unknown"), None);
}

#[test]
fn workspace_sections_expose_one_visible_page() {
    assert_eq!(WorkspaceSection::Today.visibility(), (true, false, false));
    assert_eq!(WorkspaceSection::Memory.visibility(), (false, true, false));
    assert_eq!(
        WorkspaceSection::Routines.visibility(),
        (false, false, true)
    );
}

#[test]
fn section_headings_name_the_active_persona_only_where_it_belongs() {
    let mut controller = Controller::default();

    let (title, subtitle) = controller.section_heading();
    assert_eq!(title, "Espacio de enfoque");
    assert!(subtitle.contains("Tom"));

    controller.select_persona(Persona::Tomy);
    assert!(controller.section_heading().1.contains("Tomy"));
    assert!(controller.empty_routines_text().contains("Tomy"));

    controller.navigate_to(WorkspaceSection::Memory);
    let (title, subtitle) = controller.section_heading();
    assert_eq!(title, "Archivo de memoria");
    assert!(!subtitle.contains("Tomy"));
}

#[test]
fn orb_resizes_in_bounded_steps() {
    let mut controller = Controller::default();

    assert_eq!(controller.orb_size(), 176);
    controller.resize_orb(OrbResizeAction::Smaller);
    assert_eq!(controller.orb_size(), 144);

    for _ in 0..10 {
        controller.resize_orb(OrbResizeAction::Smaller);
    }
    assert_eq!(controller.orb_size(), 96);

    for _ in 0..10 {
        controller.resize_orb(OrbResizeAction::Larger);
    }
    assert_eq!(controller.orb_size(), 288);
}

#[test]
fn orb_resize_actions_parse_ui_values() {
    assert_eq!(
        OrbResizeAction::parse("smaller"),
        Some(OrbResizeAction::Smaller)
    );
    assert_eq!(
        OrbResizeAction::parse("larger"),
        Some(OrbResizeAction::Larger)
    );
    assert_eq!(OrbResizeAction::parse("unknown"), None);
}

#[test]
fn resizing_an_orb_preserves_its_screen_center() {
    assert_eq!(centered_resize_position(100, 80, 176, 208), (84, 64));
    assert_eq!(centered_resize_position(-20, -10, 96, 96), (-20, -10));
}

#[test]
fn dragging_an_orb_translates_its_screen_position() {
    assert_eq!(translated_orb_position(100, 80, 15, -6), (115, 74));
    assert_eq!(
        translated_orb_position(i32::MAX, i32::MIN, 20, -20),
        (i32::MAX, i32::MIN)
    );
}

#[test]
fn orb_is_anchored_to_the_dashboard_top_right_without_changing_shape() {
    let placement = anchored_orb_position(100, 80, 1120, 176);

    assert_eq!(placement, (1044, 104));
    let (width, height) = WindowMode::Orb.logical_size();
    assert_eq!(width, height);
}

#[test]
fn selecting_a_persona_finishes_onboarding() {
    let mut controller = Controller::default();

    controller.select_persona(Persona::Tomy);

    assert_eq!(controller.assistant_name(), "Tomy");
    assert_eq!(controller.persona(), Persona::Tomy);
    assert!(!controller.onboarding_visible());
    assert_eq!(controller.status_text(), "Modo cercano activado");
}

#[test]
fn replaying_onboarding_restarts_the_flow_but_keeps_the_chosen_persona() {
    let mut controller = Controller::default();
    controller.advance_onboarding();
    controller.select_persona(Persona::Tomy);

    controller.replay_onboarding();

    assert!(controller.onboarding_visible());
    assert_eq!(controller.onboarding_step_index(), 0);
    assert_eq!(controller.persona(), Persona::Tomy);
}

#[test]
fn window_mode_exposes_dashboard_and_orb_sizes() {
    assert_eq!(WindowMode::Dashboard.logical_size(), (1120, 680));
    assert_eq!(WindowMode::Orb.logical_size(), (176, 176));

    let mut controller = Controller::default();
    controller.enter_orb_mode();
    assert_eq!(controller.window_mode(), WindowMode::Orb);

    controller.restore_dashboard();
    assert_eq!(controller.window_mode(), WindowMode::Dashboard);
}

#[test]
fn user_feedback_selects_a_matching_orb_state() {
    let mut controller = Controller::default();
    assert_eq!(controller.orb_state(), OrbState::Idle);

    controller.record_note_saved();
    assert_eq!(controller.orb_state(), OrbState::Success);

    controller.record_invalid_note();
    assert_eq!(controller.orb_state(), OrbState::Warning);

    controller.record_storage_error();
    assert_eq!(controller.orb_state(), OrbState::Error);
}

#[test]
fn every_orb_visual_state_has_a_stable_asset_id() {
    let state_ids = OrbState::ALL.map(OrbState::stable_id);

    assert_eq!(
        state_ids,
        [
            "idle",
            "listening",
            "thinking",
            "working",
            "success",
            "warning",
            "error",
            "sleeping",
            "curious",
        ]
    );
    for state in OrbState::ALL {
        assert_eq!(OrbState::parse(state.stable_id()), Some(state));
    }
    assert_eq!(OrbState::parse("unknown"), None);
}

#[test]
fn onboarding_orb_hints_name_real_orb_states() {
    for step in OnboardingStep::ALL {
        if let Some(id) = step.orb_state_id() {
            assert!(OrbState::parse(id).is_some(), "{id}");
        }
    }

    let mut controller = Controller::default();
    assert_eq!(controller.onboarding_orb_state(), OrbState::Curious);

    controller.record_storage_error();
    controller.advance_onboarding();
    assert_eq!(controller.onboarding_orb_state(), OrbState::Error);
}

#[test]
fn onboarding_walks_forward_then_asks_to_finish() {
    let mut controller = Controller::default();

    assert!(!controller.onboarding_can_go_back());
    assert_eq!(controller.onboarding_step_index(), 0);

    for expected in 1..i32::try_from(OnboardingStep::ALL.len()).expect("five steps fit") {
        assert_eq!(controller.advance_onboarding(), OnboardingAdvance::Moved);
        assert_eq!(controller.onboarding_step_index(), expected);
        assert!(controller.onboarding_can_go_back());
    }

    let last = i32::try_from(OnboardingStep::LAST.index()).expect("five steps fit");
    assert_eq!(controller.onboarding_step_index(), last);
    assert_eq!(controller.advance_onboarding(), OnboardingAdvance::Finished);
    assert_eq!(controller.onboarding_step_index(), last);
}

#[test]
fn onboarding_answers_resolve_every_id_or_none_of_them() {
    let answers = OnboardingAnswers::try_from_ui("tomy", "creator", "proactive", "local")
        .expect("all four ids are known");

    assert_eq!(answers.persona, Persona::Tomy);
    assert_eq!(answers.professional_profile, ProfessionalProfile::Creator);
    assert_eq!(answers.assistance_style, AssistanceStyle::Proactive);
    assert_eq!(answers.ai_setup, AiSetup::Local);

    let profile = answers.profile();
    assert_eq!(profile.persona, Persona::Tomy);
    assert_eq!(profile.assistance_style, AssistanceStyle::Proactive);
}

#[test]
fn an_unknown_onboarding_id_is_reported_instead_of_defaulted() {
    assert_eq!(
        OnboardingAnswers::try_from_ui("friendly", "creator", "proactive", "local"),
        Err(UNKNOWN_PERSONA)
    );
    assert_eq!(
        OnboardingAnswers::try_from_ui("tom", "gardener", "proactive", "local"),
        Err(UNKNOWN_PROFILE)
    );
    assert_eq!(
        OnboardingAnswers::try_from_ui("tom", "creator", "eager", "local"),
        Err(UNKNOWN_ASSISTANCE)
    );
    assert_eq!(
        OnboardingAnswers::try_from_ui("tom", "creator", "proactive", "someday"),
        Err(UNKNOWN_AI_SETUP)
    );
}

#[test]
fn previewing_a_persona_changes_the_voice_without_closing_onboarding() {
    let mut controller = Controller::default();

    controller.preview_persona(Persona::Tomy);

    assert_eq!(controller.assistant_name(), "Tomy");
    assert!(controller.onboarding_visible());
}

#[test]
fn going_back_stops_at_the_first_question() {
    let mut controller = Controller::default();

    controller.back_onboarding();
    assert_eq!(controller.onboarding_step_index(), 0);

    controller.advance_onboarding();
    controller.back_onboarding();
    assert_eq!(controller.onboarding_step_index(), 0);
}

#[test]
fn a_note_requires_content_and_uses_a_fallback_title() {
    assert_eq!(
        NoteSubmission::try_from_ui("", "  Remember the demo  "),
        Ok(NoteSubmission {
            title: "Nota rapida".into(),
            body: "Remember the demo".into(),
        })
    );
    assert_eq!(
        NoteSubmission::try_from_ui("ignored", "   "),
        Err("Escribe algo antes de guardar")
    );
}

#[test]
fn invalid_note_feedback_is_visible_without_changing_the_count() {
    let mut controller = Controller::default();

    controller.record_invalid_note();

    assert_eq!(controller.note_count(), 0);
    assert_eq!(controller.status_text(), "Escribe algo antes de guardar");
}

#[test]
fn the_note_counter_mirrors_the_store_rather_than_the_saves() {
    let mut controller = Controller::default();

    controller.record_note_saved();
    controller.set_note_count(7);

    assert_eq!(controller.note_count(), 7);
    assert_eq!(
        controller.status_text(),
        "Nota guardada en tu memoria local"
    );

    controller.set_note_count(usize::MAX);
    assert_eq!(controller.note_count(), i32::MAX);
}

#[test]
fn routine_decisions_surface_immediate_feedback() {
    let mut controller = Controller::default();

    controller.record_routine_accepted();
    assert_eq!(controller.status_text(), "Rutina activada");

    controller.record_routine_dismissed();
    assert_eq!(controller.status_text(), "Sugerencia descartada");
}

#[test]
fn storage_errors_are_safe_to_show_in_the_interface() {
    let mut controller = Controller::default();

    controller.record_storage_error();

    assert_eq!(
        controller.status_text(),
        "No pudimos acceder a la memoria local"
    );
}

#[test]
fn restored_state_skips_onboarding_and_caps_large_note_counts() {
    let controller = Controller::restored(Persona::Tomy, usize::MAX);

    assert_eq!(controller.assistant_name(), "Tomy");
    assert!(!controller.onboarding_visible());
    assert_eq!(controller.note_count(), i32::MAX);
}

#[test]
fn saving_a_connection_never_demands_a_credential() {
    let submission =
        AiSettingsSubmission::try_from_ui("openai", " https://api.openai.com/v1 ", " ")
            .expect("no key is required to save a connection");

    assert_eq!(submission.provider, AiProvider::OpenAi);
    assert_eq!(submission.endpoint, "https://api.openai.com/v1");
    assert_eq!(submission.model_path, "");

    AiSettingsSubmission::try_from_ui("anthropic", "", "")
        .expect("a cloud provider saves fine with no key stored yet");
    AiSettingsSubmission::try_from_ui("ollama", "", "")
        .expect("a local provider saves fine too");
}

#[test]
fn custom_providers_still_need_somewhere_to_connect() {
    assert_eq!(
        AiSettingsSubmission::try_from_ui("custom-cloud", "", ""),
        Err("Configura el endpoint del proveedor")
    );
    assert_eq!(
        AiSettingsSubmission::try_from_ui("custom-local", "", ""),
        Err("Configura un endpoint o modelo local")
    );
}

#[test]
fn an_unknown_provider_is_rejected_instead_of_falling_back() {
    assert_eq!(
        AiSettingsSubmission::try_from_ui("gpt-9", "", ""),
        Err(UNKNOWN_PROVIDER)
    );
}

#[test]
fn disabled_provider_discards_non_secret_locations() {
    let submission =
        AiSettingsSubmission::try_from_ui("disabled", "http://unused", "unused.gguf")
            .expect("disabled is always valid");

    assert_eq!(submission.endpoint, "");
    assert_eq!(submission.model_path, "");
}

#[test]
fn one_way_in_is_enough_and_none_is_what_stops_tom() {
    let nothing = AiSettings::default();
    assert!(!nothing.intelligence_is_available(0));

    // A single key, from any provider, is enough on its own.
    assert!(nothing.intelligence_is_available(1));

    // So is a local model, with no key stored anywhere.
    let local = AiSettings {
        provider: AiProvider::Ollama,
        endpoint: "http://127.0.0.1:11434".to_owned(),
        model_path: String::new(),
    };
    assert!(local.has_reachable_local_model());
    assert!(local.intelligence_is_available(0));

    // A local provider that names nowhere is not a way in.
    let unreachable = AiSettings {
        provider: AiProvider::Ollama,
        endpoint: "   ".to_owned(),
        model_path: String::new(),
    };
    assert!(!unreachable.has_reachable_local_model());
    assert!(!unreachable.intelligence_is_available(0));

    // A cloud provider is never a way in by itself; its key is.
    let cloud = AiSettings {
        provider: AiProvider::OpenAi,
        endpoint: "https://api.openai.com/v1".to_owned(),
        model_path: String::new(),
    };
    assert!(!cloud.has_reachable_local_model());
    assert!(!cloud.intelligence_is_available(0));
    assert!(cloud.intelligence_is_available(1));
}

#[test]
fn having_no_way_in_is_reported_to_the_user() {
    let mut controller = Controller::default();

    controller.record_missing_intelligence();

    assert_eq!(controller.status_text(), NO_INTELLIGENCE);
    assert_eq!(controller.orb_state(), OrbState::Warning);
}

#[test]
fn a_key_submission_keeps_the_pasted_value_and_hides_it_from_logs() {
    let submission = ApiKeySubmission::try_from_ui("anthropic", "  super-secret  ")
        .expect("a pasted key is valid");

    assert_eq!(submission.provider, AiProvider::Anthropic);
    assert_eq!(submission.api_key, "super-secret");

    let debug = format!("{submission:?}");
    assert!(!debug.contains("super-secret"));
    assert!(debug.contains("[REDACTED]"));
}

#[test]
fn a_key_submission_refuses_blanks_and_providers_that_take_no_key() {
    assert_eq!(
        ApiKeySubmission::try_from_ui("openai", "   "),
        Err(EMPTY_API_KEY)
    );
    assert_eq!(
        ApiKeySubmission::try_from_ui("disabled", "secret"),
        Err(PROVIDER_WITHOUT_KEY)
    );
    assert_eq!(
        ApiKeySubmission::try_from_ui("gpt-9", "secret"),
        Err(UNKNOWN_PROVIDER)
    );
}

#[test]
fn a_local_provider_may_still_hold_an_optional_key() {
    let submission = ApiKeySubmission::try_from_ui("lm-studio", "proxy-token")
        .expect("local servers behind a proxy can carry a token");

    assert_eq!(submission.provider, AiProvider::LmStudio);
}

#[test]
fn ai_feedback_never_contains_credential_details() {
    let mut controller = Controller::default();

    controller.record_ai_validation_error("Configura el endpoint del proveedor");
    assert_eq!(
        controller.status_text(),
        "Configura el endpoint del proveedor"
    );

    controller.record_ai_settings_saved();
    assert_eq!(controller.status_text(), "Configuracion de IA guardada");

    controller.record_credential_error();
    assert_eq!(
        controller.status_text(),
        "No pudimos acceder al almacen seguro de Windows"
    );

    controller.record_api_key_stored();
    assert_eq!(controller.status_text(), "Clave guardada en Windows");

    controller.record_api_key_cleared();
    assert_eq!(controller.status_text(), "Clave eliminada de Windows");
}

#[test]
fn a_fresh_controller_opens_onboarding_on_the_welcome_question() {
    let controller = Controller::default();

    assert_eq!(controller.persona(), Persona::Tom);
    assert_eq!(controller.status_text(), "Listo para ayudarte");
    assert!(controller.onboarding_visible());
    assert_eq!(controller.onboarding_step_index(), 0);
    assert_eq!(controller.window_mode(), WindowMode::Dashboard);
    assert_eq!(controller.orb_size(), 176);
    assert_eq!(controller.note_count(), 0);
}

#[test]
fn going_back_after_moving_forward_returns_to_the_same_question() {
    let mut controller = Controller::default();
    for _ in 0..3 {
        controller.advance_onboarding();
    }
    let before = controller.onboarding_step_index();

    assert_eq!(controller.advance_onboarding(), OnboardingAdvance::Moved);
    controller.back_onboarding();

    assert_eq!(controller.onboarding_step_index(), before);
}

#[test]
fn resizing_the_orb_moves_in_steps_of_thirty_two() {
    let mut controller = Controller::default();

    controller.resize_orb(OrbResizeAction::Larger);
    assert_eq!(controller.orb_size(), 208);
    controller.resize_orb(OrbResizeAction::Smaller);
    assert_eq!(controller.orb_size(), 176);
}

#[test]
fn positions_saturate_instead_of_wrapping() {
    assert_eq!(
        anchored_orb_position(i32::MAX, i32::MAX, 10, 176),
        (i32::MAX - 176, i32::MAX)
    );
    assert_eq!(centered_resize_position(10, 10, 208, 176), (26, 26));
    assert_eq!(centered_resize_position(0, 0, 176, 177), (0, 0));
    assert_eq!(centered_resize_position(0, 0, 177, 176), (0, 0));
    assert_eq!(translated_orb_position(i32::MIN, 0, -1, 0), (i32::MIN, 0));
}

#[test]
fn entering_orb_mode_resets_the_face_to_idle() {
    let mut controller = Controller::default();
    controller.record_storage_error();

    controller.enter_orb_mode();

    assert_eq!(controller.orb_state(), OrbState::Idle);
    assert_eq!(controller.status_text(), "No pudimos acceder a la memoria local");
}

#[test]
fn selecting_tom_reports_the_professional_voice() {
    let mut controller = Controller::default();
    controller.advance_onboarding();

    controller.select_persona(Persona::Tom);

    assert_eq!(controller.status_text(), "Modo profesional activado");
    assert_eq!(controller.orb_state(), OrbState::Success);
    assert_eq!(controller.onboarding_step_index(), 0);
}

#[test]
fn the_empty_routine_line_speaks_in_the_assistants_name() {
    let controller = Controller::default();
    assert_eq!(
        controller.empty_routines_text(),
        "Sin propuestas pendientes. Tom seguirá observando sólo las señales que autorices."
    );
    assert_eq!(
        WorkspaceSection::Today.subtitle("Tomy"),
        "Captura lo importante. Tomy mantiene el hilo."
    );
    assert_eq!(WorkspaceSection::Routines.title(), "Rutinas explicables");
}

#[test]
fn replaying_onboarding_shows_the_curious_face() {
    let mut controller = Controller::restored(Persona::Tom, 3);
    assert_eq!(controller.status_text(), "Memoria local sincronizada");
    assert_eq!(controller.note_count(), 3);

    controller.replay_onboarding();

    assert_eq!(controller.orb_state(), OrbState::Curious);
    assert_eq!(controller.status_text(), "Repasemos tu configuracion");
    assert_eq!(controller.onboarding_orb_state(), OrbState::Curious);
}

#[test]
fn a_blank_title_gets_the_fallback_and_a_named_one_is_trimmed() {
    assert_eq!(
        NoteSubmission::try_from_ui("  Plan  ", "body"),
        Ok(NoteSubmission {
            title: "Plan".into(),
            body: "body".into(),
        })
    );
    assert_eq!(
        ApiKeySubmission::try_from_ui("anthropic", "\u{3000}key\t").map(|s| s.api_key),
        Ok("key".to_owned())
    );
    assert_eq!(
        AiSettingsSubmission::try_from_ui("custom-local", "", " model.gguf "),
        Ok(AiSettingsSubmission {
            provider: AiProvider::CustomLocal,
            endpoint: String::new(),
            model_path: "model.gguf".into(),
        })
    );
}

#[test]
fn a_launch_restores_onboarded_users_and_reports_unusable_stores() {
    let restored = Controller::for_launch(LaunchProfile::Onboarded(Persona::Tomy), 4);
    assert_eq!(restored.assistant_name(), "Tomy");
    assert!(!restored.onboarding_visible());
    assert_eq!(restored.note_count(), 4);

    let fresh = Controller::for_launch(LaunchProfile::NotOnboarded, 2);
    assert!(fresh.onboarding_visible());
    assert_eq!(fresh.note_count(), 2);
    assert_eq!(fresh.status_text(), "Listo para ayudarte");

    for broken in [LaunchProfile::StoreUnavailable, LaunchProfile::Unreadable] {
        let controller = Controller::for_launch(broken, 9);
        assert_eq!(controller.orb_state(), OrbState::Error);
        assert_eq!(controller.note_count(), 0);
        assert_eq!(
            controller.status_text(),
            "No pudimos acceder a la memoria local"
        );
    }
}

#[test]
fn a_key_submission_is_logged_as_a_struct_without_its_key() {
    let submission = ApiKeySubmission::try_from_ui("openai", "sk-live-123").expect("valid");

    assert_eq!(
        format!("{submission:?}"),
        "ApiKeySubmission { provider: OpenAi, api_key: \"[REDACTED]\" }"
    );
    assert_eq!(
        format!("{submission:#?}"),
        "ApiKeySubmission {\n    provider: OpenAi,\n    api_key: \"[REDACTED]\",\n}"
    );
    assert_eq!(submission.redacted_debug(false), format!("{submission:?}"));
    assert!(!submission.redacted_debug(true).contains("sk-live-123"));
}
