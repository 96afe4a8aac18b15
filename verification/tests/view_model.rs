use tom_core::{
    AiProvider, ApiKeyStatus, OnboardingStep, api_key_providers, api_key_rows, choice_rows,
    cloud_provider_choices, local_provider_choices, onboarding_pages, pulse_rows, pulse_timeline,
    step_choices, welcome_highlight_rows, welcome_highlights,
};

#[test]
fn every_onboarding_question_is_published_with_its_copy() {
    let pages = onboarding_pages();

    assert_eq!(pages.len(), OnboardingStep::ALL.len());
    for (index, step) in OnboardingStep::ALL.into_iter().enumerate() {
        let page = pages.get(index).expect("a page per step");
        assert_eq!(page.rail_label, step.rail_label());
        assert_eq!(page.headline, step.headline());
        assert_eq!(page.primary_label, step.primary_label());
        assert!(!page.body.is_empty());
        assert!(!page.caption.is_empty());
    }
}

#[test]
fn choice_models_carry_the_ids_the_callbacks_will_send_back() {
    let choices = OnboardingStep::ProfessionChoice.choices();
    let rows = step_choices(OnboardingStep::ProfessionChoice);

    assert_eq!(rows.len(), choices.len());
    for (index, choice) in choices.iter().enumerate() {
        let row = rows.get(index).expect("a row per choice");
        assert_eq!(row.id, choice.id);
        assert_eq!(row.label, choice.label);
        assert_eq!(row.detail, choice.detail);
    }
}

#[test]
fn provider_models_only_offer_ids_the_domain_can_resolve() {
    let cloud = choice_rows(&cloud_provider_choices());
    let local = choice_rows(&local_provider_choices());

    assert!(!cloud.is_empty() && !local.is_empty());
    for row in cloud.iter().chain(local.iter()) {
        let provider = AiProvider::from_stable_id(row.id).expect("published ids stay resolvable");
        assert_ne!(provider, AiProvider::Disabled);
        assert!(!row.label.is_empty());
    }
}

#[test]
fn the_key_manager_shows_one_row_per_provider_with_its_stored_state() {
    let inventory = api_key_providers()
        .into_iter()
        .map(|provider| ApiKeyStatus {
            provider,
            stored: provider == AiProvider::Anthropic,
        })
        .collect::<Vec<_>>();

    let rows = api_key_rows(&inventory);

    assert_eq!(rows.len(), inventory.len());
    for (index, status) in inventory.iter().enumerate() {
        let row = rows.get(index).expect("a row per provider");
        assert_eq!(row.provider_id, status.provider.stable_id());
        assert_eq!(row.label, status.provider.label());
        assert_eq!(row.stored, status.stored);
    }
    assert_eq!(
        rows.iter().filter(|row| row.stored).count(),
        1,
        "only the provider holding a key is marked as stored"
    );
}

#[test]
fn welcome_highlights_are_numbered_in_order() {
    let rows = welcome_highlight_rows();

    assert_eq!(rows.len(), welcome_highlights().len());
    for (index, highlight) in welcome_highlights().into_iter().enumerate() {
        let row = rows.get(index).expect("a row per highlight");
        assert!(row.starts_with(&format!("{:02}", index + 1)));
        assert!(row.ends_with(highlight));
    }
}

#[test]
fn the_pulse_model_mirrors_the_shared_timeline() {
    let rows = pulse_rows();
    let timeline = pulse_timeline();

    assert_eq!(rows.len(), timeline.len());
    for (index, entry) in timeline.into_iter().enumerate() {
        let row = rows.get(index).expect("a row per pulse entry");
        assert_eq!(row.stage, entry.tone.stage_label());
        assert_eq!(row.tone_id, entry.tone.stable_id());
        assert_eq!(row.title, entry.title);
        assert_eq!(row.detail, entry.detail);
    }
}

#[test]
fn highlight_rows_match_the_displayed_numbering_exactly() {
    let rows = welcome_highlight_rows();

    assert_eq!(rows[0], "01   Memoria visible y editable");
    assert_eq!(rows[3], "04   Un orbe discreto cuando no necesites el panel");
}

#[test]
fn the_welcome_step_offers_no_choice_rows() {
    assert!(step_choices(OnboardingStep::Welcome).is_empty());
    assert_eq!(api_key_rows(&[]).len(), 0);
}

#[test]
fn routines_start_with_one_explained_suggestion() {
    let routines = tom_core::initial_routines();

    assert_eq!(routines.len(), 1);
    assert_eq!(routines[0].title, "Preparar tu regreso al proyecto");
    assert_eq!(
        routines[0].explanation,
        "Sueles abrir el editor y las notas del proyecto juntos al comenzar."
    );
    assert_eq!(routines[0].action, "Abrir workspace + mostrar ultima memoria");
}

#[test]
fn only_an_existing_row_is_removed() {
    let mut rows = vec!["a", "b", "c"];

    tom_core::remove_model_row(&mut rows, -1);
    tom_core::remove_model_row(&mut rows, 3);
    assert_eq!(rows, vec!["a", "b", "c"]);

    tom_core::remove_model_row(&mut rows, 1);
    assert_eq!(rows, vec!["a", "c"]);

    tom_core::remove_model_row(&mut rows, 0);
    tom_core::remove_model_row(&mut rows, 0);
    tom_core::remove_model_row(&mut rows, 0);
    assert!(rows.is_empty());
}

#[test]
fn the_memory_page_shows_each_note_title_and_body_in_order() {
    let notes = vec![
        tom_core::Note::new("Stand-up", "Review the pull request"),
        tom_core::Note::new("Lunch", ""),
    ];

    let rows = tom_core::memory_rows(&notes);

    assert_eq!(rows.len(), 2);
    assert_eq!(rows[0].title, "Stand-up");
    assert_eq!(rows[0].preview, "Review the pull request");
    assert_eq!(rows[0].meta, "memoria local");
    assert_eq!(rows[1].title, "Lunch");
    assert_eq!(rows[1].preview, "");
    assert!(tom_core::memory_rows(&[]).is_empty());
}
