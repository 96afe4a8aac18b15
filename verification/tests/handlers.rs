use std::{cell::RefCell, collections::HashSet};

use tom_core::{
    AiProvider, AiSettings, AiSetup, Controller, CredentialError, CredentialVault, EMPTY_API_KEY,
    KeyEdit, MISSING_ENDPOINT, NO_INTELLIGENCE, OrbState, Persona, SettingsReview,
    UNKNOWN_PERSONA, UNKNOWN_PROVIDER, apply_provider_selection, finish_onboarding,
    handle_forget_api_key, handle_save_ai_settings, handle_store_api_key, refresh_key_manager,
};

const VAULT_FAILURE: &str = "No pudimos acceder al almacen seguro de Windows";

#[derive(Default)]
struct FakeVault {
    keys: RefCell<HashSet<String>>,
    writes: RefCell<Vec<(String, String)>>,
    deletes: RefCell<Vec<String>>,
    reads: RefCell<usize>,
}

impl FakeVault {
    fn with_keys(provider_ids: &[&str]) -> Self {
        let vault = Self::default();
        for provider_id in provider_ids {
            vault.keys.borrow_mut().insert((*provider_id).to_owned());
        }
        vault
    }
}

impl CredentialVault for FakeVault {
    fn has_key(&self, provider_id: &str) -> Result<bool, CredentialError> {
        *self.reads.borrow_mut() += 1;
        Ok(self.keys.borrow().contains(provider_id))
    }

    fn set_key(&self, provider_id: &str, api_key: &str) -> Result<(), CredentialError> {
        self.keys.borrow_mut().insert(provider_id.to_owned());
        self.writes
            .borrow_mut()
            .push((provider_id.to_owned(), api_key.to_owned()));
        Ok(())
    }

    fn clear_key(&self, provider_id: &str) -> Result<(), CredentialError> {
        self.keys.borrow_mut().remove(provider_id);
        self.deletes.borrow_mut().push(provider_id.to_owned());
        Ok(())
    }
}

struct BrokenVault;

impl CredentialVault for BrokenVault {
    fn has_key(&self, _provider_id: &str) -> Result<bool, CredentialError> {
        Err(CredentialError)
    }

    fn set_key(&self, _provider_id: &str, _api_key: &str) -> Result<(), CredentialError> {
        Err(CredentialError)
    }

    fn clear_key(&self, _provider_id: &str) -> Result<(), CredentialError> {
        Err(CredentialError)
    }
}

fn onboarded() -> Controller {
    Controller::restored(Persona::Tom, 0)
}

#[test]
fn a_stored_key_is_trimmed_written_under_its_provider_and_confirmed() {
    let vault = FakeVault::default();
    let mut controller = onboarded();

    let edit = handle_store_api_key(&mut controller, &vault, "anthropic", "  secret  ");

    assert_eq!(edit, KeyEdit::Applied);
    assert!(edit.reached_vault());
    assert_eq!(
        *vault.writes.borrow(),
        vec![("anthropic".to_owned(), "secret".to_owned())]
    );
    assert_eq!(controller.status_text(), "Clave guardada en Windows");
    assert!(!controller.status_text().contains("secret"));
    assert_eq!(controller.orb_state(), OrbState::Success);
}

#[test]
fn a_refused_key_never_reaches_the_vault() {
    let vault = FakeVault::default();
    let mut controller = onboarded();

    let edit = handle_store_api_key(&mut controller, &vault, "openai", "   ");

    assert_eq!(edit, KeyEdit::Refused);
    assert!(!edit.reached_vault());
    assert!(vault.writes.borrow().is_empty());
    assert_eq!(controller.status_text(), EMPTY_API_KEY);
    assert_eq!(controller.orb_state(), OrbState::Warning);
}

#[test]
fn a_vault_that_refuses_a_key_is_reported_as_a_failure() {
    let mut controller = onboarded();

    let edit = handle_store_api_key(&mut controller, &BrokenVault, "openai", "sk-test");

    assert_eq!(edit, KeyEdit::VaultFailed);
    assert!(edit.reached_vault());
    assert_eq!(controller.status_text(), VAULT_FAILURE);
    assert_eq!(controller.orb_state(), OrbState::Error);
}

#[test]
fn forgetting_an_unknown_provider_is_refused_and_deletes_nothing() {
    let vault = FakeVault::with_keys(&["openai"]);
    let mut controller = onboarded();

    let edit = handle_forget_api_key(&mut controller, &vault, "mystery");

    assert_eq!(edit, KeyEdit::Refused);
    assert!(vault.deletes.borrow().is_empty());
    assert_eq!(controller.status_text(), UNKNOWN_PROVIDER);
}

#[test]
fn forgetting_a_key_removes_only_that_provider() {
    let vault = FakeVault::with_keys(&["openai", "gemini"]);
    let mut controller = onboarded();

    let edit = handle_forget_api_key(&mut controller, &vault, "openai");

    assert_eq!(edit, KeyEdit::Applied);
    assert_eq!(*vault.deletes.borrow(), vec!["openai".to_owned()]);
    assert!(vault.keys.borrow().contains("gemini"));
    assert_eq!(controller.status_text(), "Clave eliminada de Windows");

    let failed = handle_forget_api_key(&mut controller, &BrokenVault, "gemini");
    assert_eq!(failed, KeyEdit::VaultFailed);
    assert_eq!(controller.status_text(), VAULT_FAILURE);
}

#[test]
fn a_refreshed_key_manager_warns_only_when_there_is_no_way_in() {
    let empty = FakeVault::default();
    let mut controller = onboarded();
    let disabled = AiSettings::default();

    let (inventory, status) =
        refresh_key_manager(&mut controller, &empty, Some(AiProvider::Disabled), &disabled)
            .expect("the vault answers");
    assert_eq!(inventory.len(), 7);
    assert!(!status.ready);
    assert!(!status.has_key);
    assert_eq!(controller.status_text(), NO_INTELLIGENCE);
    assert_eq!(controller.orb_state(), OrbState::Warning);

    let keyed = FakeVault::with_keys(&["gemini"]);
    let mut controller = onboarded();
    let (_, status) =
        refresh_key_manager(&mut controller, &keyed, Some(AiProvider::Gemini), &disabled)
            .expect("the vault answers");
    assert!(status.ready);
    assert!(status.has_key);
    assert_eq!(status.summary, "Gemini tiene una clave guardada en Windows.");
    assert_eq!(controller.status_text(), "Memoria local sincronizada");
}

#[test]
fn an_unreadable_vault_is_reported_instead_of_a_stale_key_list() {
    let mut controller = onboarded();

    let refreshed = refresh_key_manager(&mut controller, &BrokenVault, None, &AiSettings::default());

    assert!(refreshed.is_err());
    assert_eq!(controller.status_text(), VAULT_FAILURE);
}

#[test]
fn selecting_a_provider_reports_its_own_key_and_aims_the_editor_at_it() {
    let vault = FakeVault::with_keys(&["anthropic"]);
    let mut controller = onboarded();

    let panel = apply_provider_selection(&mut controller, &vault, AiProvider::Anthropic)
        .expect("the vault answers");
    assert!(panel.has_key);
    assert_eq!(panel.summary, "Anthropic tiene una clave guardada en Windows.");
    assert_eq!(
        panel.key_editor_label.as_deref(),
        Some("Añadir o reemplazar la clave de Anthropic")
    );

    let panel = apply_provider_selection(&mut controller, &vault, AiProvider::OpenAi)
        .expect("the vault answers");
    assert!(!panel.has_key);
    assert_eq!(controller.status_text(), "Memoria local sincronizada");
}

#[test]
fn selecting_the_disabled_provider_never_asks_the_vault() {
    let vault = FakeVault::default();
    let mut controller = onboarded();

    let panel = apply_provider_selection(&mut controller, &vault, AiProvider::Disabled)
        .expect("no vault is involved");
    assert!(!panel.has_key);
    assert_eq!(
        panel.summary,
        "Sin proveedor activo. Tom sigue funcionando con tu memoria local."
    );
    assert_eq!(panel.key_editor_label, None);
    assert_eq!(*vault.reads.borrow(), 0);

    let panel = apply_provider_selection(&mut controller, &BrokenVault, AiProvider::Disabled);
    assert!(panel.is_ok());

    let failed = apply_provider_selection(&mut controller, &BrokenVault, AiProvider::Ollama);
    assert!(failed.is_err());
    assert_eq!(controller.status_text(), VAULT_FAILURE);
}

#[test]
fn saving_a_connection_hands_back_trimmed_settings_and_the_key_badge() {
    let vault = FakeVault::with_keys(&["ollama"]);
    let mut controller = onboarded();

    let review = handle_save_ai_settings(
        &mut controller,
        &vault,
        "ollama",
        "  http://127.0.0.1:11434/  ",
        "",
    );

    match review {
        SettingsReview::Save(settings, has_key) => {
            assert_eq!(settings.provider, AiProvider::Ollama);
            assert_eq!(settings.endpoint, "http://127.0.0.1:11434/");
            assert_eq!(settings.model_path, "");
            assert!(has_key);
        }
        other => panic!("expected settings to save, got {other:?}"),
    }
    assert_eq!(controller.status_text(), "Memoria local sincronizada");
}

#[test]
fn a_refused_connection_keeps_the_panel_open_and_says_what_is_missing() {
    let vault = FakeVault::default();
    let mut controller = onboarded();

    let review = handle_save_ai_settings(&mut controller, &vault, "custom-cloud", "   ", "");

    assert!(matches!(review, SettingsReview::KeepPanelOpen));
    assert_eq!(controller.status_text(), MISSING_ENDPOINT);
    assert_eq!(controller.orb_state(), OrbState::Warning);
}

#[test]
fn an_unknown_or_unreachable_connection_stops_the_save() {
    let mut controller = onboarded();
    let review = handle_save_ai_settings(&mut controller, &FakeVault::default(), "mystery", "", "");
    assert!(matches!(review, SettingsReview::Stopped));
    assert_eq!(controller.status_text(), UNKNOWN_PROVIDER);

    let mut controller = onboarded();
    let review = handle_save_ai_settings(&mut controller, &BrokenVault, "openai", "", "");
    assert!(matches!(review, SettingsReview::Stopped));
    assert_eq!(controller.status_text(), VAULT_FAILURE);

    let mut controller = onboarded();
    let review = handle_save_ai_settings(&mut controller, &BrokenVault, "disabled", "x", "y");
    match review {
        SettingsReview::Save(settings, has_key) => {
            assert_eq!(settings.provider, AiProvider::Disabled);
            assert_eq!(settings.endpoint, "");
            assert!(!has_key);
        }
        other => panic!("the disabled provider needs no vault, got {other:?}"),
    }
}

#[test]
fn finishing_onboarding_adopts_the_persona_and_hands_back_the_answers() {
    let mut controller = Controller::default();

    let answers = finish_onboarding(&mut controller, "tomy", "student", "proactive", "local")
        .expect("every id is known");

    assert_eq!(answers.persona, Persona::Tomy);
    assert_eq!(answers.ai_setup, AiSetup::Local);
    assert!(!controller.onboarding_visible());
    assert_eq!(controller.persona(), Persona::Tomy);
    assert_eq!(controller.status_text(), "Modo cercano activado");
    assert_eq!(controller.orb_state(), OrbState::Success);
}

#[test]
fn an_unknown_answer_keeps_onboarding_on_its_question() {
    let mut controller = Controller::default();

    let answers = finish_onboarding(&mut controller, "robot", "student", "proactive", "local");

    assert_eq!(answers, None);
    assert!(controller.onboarding_visible());
    assert_eq!(controller.status_text(), UNKNOWN_PERSONA);
}

#[test]
fn a_captured_note_is_trimmed_and_titled_but_the_counter_waits_for_the_store() {
    let mut controller = Controller::restored(Persona::Tom, 3);

    let note = tom_core::capture_note(&mut controller, "   ", "  Llamar a Ana  ")
        .expect("a body is enough");

    assert_eq!(note.title, "Nota rapida");
    assert_eq!(note.body, "Llamar a Ana");
    assert_eq!(note.created_at, note.updated_at);
    assert_eq!(controller.note_count(), 3);
    assert_eq!(controller.status_text(), "Memoria local sincronizada");
}

#[test]
fn an_empty_note_is_reported_and_nothing_is_captured() {
    let mut controller = Controller::restored(Persona::Tom, 3);

    let note = tom_core::capture_note(&mut controller, "Titulo", "   ");

    assert!(note.is_none());
    assert_eq!(controller.status_text(), tom_core::EMPTY_NOTE);
    assert_eq!(controller.orb_state(), OrbState::Warning);
    assert_eq!(controller.note_count(), 3);
}

#[test]
fn picking_a_key_row_aims_the_editor_without_touching_the_vault() {
    let mut controller = onboarded();

    let label = tom_core::handle_key_provider_selection(&mut controller, "gemini");
    assert_eq!(label.as_deref(), Some("Añadir o reemplazar la clave de Gemini"));
    assert_eq!(controller.status_text(), "Memoria local sincronizada");

    let refused = tom_core::handle_key_provider_selection(&mut controller, "mystery");
    assert_eq!(refused, None);
    assert_eq!(controller.status_text(), UNKNOWN_PROVIDER);
    assert_eq!(controller.orb_state(), OrbState::Warning);
}
