use std::{cell::RefCell, collections::HashSet};

use tom_core::{
    AiProvider, ApiKeyStatus, CredentialError, CredentialVault, SERVICE_NAME, api_key_providers,
    key_manager_status,
    api_key_summary, forget_api_key, key_editor_label, provider_has_api_key, read_key_inventory,
    store_api_key,
};

#[derive(Default)]
struct FakeVault {
    keys: RefCell<HashSet<String>>,
    writes: RefCell<Vec<(String, String)>>,
    deletes: RefCell<Vec<String>>,
}

impl FakeVault {
    fn with_keys(provider_ids: &[&str]) -> Self {
        let vault = Self::default();
        for provider_id in provider_ids {
            vault.keys.borrow_mut().insert((*provider_id).to_owned());
        }
        vault
    }
}

impl CredentialVault for FakeVault {
    fn has_key(&self, provider_id: &str) -> Result<bool, CredentialError> {
        Ok(self.keys.borrow().contains(provider_id))
    }

    fn set_key(&self, provider_id: &str, api_key: &str) -> Result<(), CredentialError> {
        self.keys.borrow_mut().insert(provider_id.to_owned());
        self.writes
            .borrow_mut()
            .push((provider_id.to_owned(), api_key.to_owned()));
        Ok(())
    }

    fn clear_key(&self, provider_id: &str) -> Result<(), CredentialError> {
        self.keys.borrow_mut().remove(provider_id);
        self.deletes.borrow_mut().push(provider_id.to_owned());
        Ok(())
    }
}

#[test]
fn credential_service_name_is_stable() {
    assert_eq!(SERVICE_NAME, "com.tom.assistant.ai");
}

#[test]
fn adding_a_key_leaves_every_other_provider_untouched() {
    let vault = FakeVault::with_keys(&["openai"]);

    store_api_key(&vault, "anthropic", "anthropic-secret").expect("write should work");

    let inventory = read_key_inventory(&vault).expect("inventory should work");
    let stored = stored_providers(&inventory);
    assert!(stored.contains(&AiProvider::OpenAi));
    assert!(stored.contains(&AiProvider::Anthropic));
    assert_eq!(stored.len(), 2);
    assert!(vault.deletes.borrow().is_empty());
}

#[test]
fn the_inventory_covers_every_provider_that_accepts_a_key() {
    let vault = FakeVault::with_keys(&["gemini", "lm-studio"]);

    let inventory = read_key_inventory(&vault).expect("inventory should work");

    assert_eq!(inventory.len(), api_key_providers().len());
    assert_eq!(
        stored_providers(&inventory),
        vec![AiProvider::Gemini, AiProvider::LmStudio]
    );
    assert!(
        !inventory
            .iter()
            .any(|status| status.provider == AiProvider::Disabled)
    );
}

#[test]
fn forgetting_a_key_removes_only_that_provider_and_repeats_cleanly() {
    let vault = FakeVault::with_keys(&["openai", "anthropic"]);

    forget_api_key(&vault, "anthropic").expect("delete should work");
    forget_api_key(&vault, "anthropic").expect("repeat delete should work");

    let inventory = read_key_inventory(&vault).expect("inventory should work");
    assert_eq!(stored_providers(&inventory), vec![AiProvider::OpenAi]);
}

#[test]
fn a_stored_key_is_written_verbatim_under_its_provider_id() {
    let vault = FakeVault::default();

    store_api_key(&vault, "custom-local", "local-token").expect("write should work");

    assert_eq!(
        vault.writes.into_inner(),
        vec![("custom-local".into(), "local-token".into())]
    );
}

fn stored_providers(inventory: &[ApiKeyStatus]) -> Vec<AiProvider> {
    inventory
        .iter()
        .filter(|status| status.stored)
        .map(|status| status.provider)
        .collect()
}

struct BrokenVault;

impl CredentialVault for BrokenVault {
    fn has_key(&self, _provider_id: &str) -> Result<bool, CredentialError> {
        Err(CredentialError)
    }

    fn set_key(&self, _provider_id: &str, _api_key: &str) -> Result<(), CredentialError> {
        Err(CredentialError)
    }

    fn clear_key(&self, _provider_id: &str) -> Result<(), CredentialError> {
        Err(CredentialError)
    }
}

#[test]
fn a_failing_vault_fails_the_whole_inventory() {
    assert!(read_key_inventory(&BrokenVault).is_err());
    assert!(store_api_key(&BrokenVault, "openai", "k").is_err());
    assert!(forget_api_key(&BrokenVault, "openai").is_err());
}

#[test]
fn the_disabled_provider_never_asks_the_vault() {
    assert!(matches!(
        provider_has_api_key(&BrokenVault, AiProvider::Disabled),
        Ok(false)
    ));
    assert!(provider_has_api_key(&BrokenVault, AiProvider::OpenAi).is_err());

    let vault = FakeVault::with_keys(&["ollama"]);
    assert!(matches!(
        provider_has_api_key(&vault, AiProvider::Ollama),
        Ok(true)
    ));
}

#[test]
fn the_summary_names_the_provider_and_its_key_state() {
    assert_eq!(api_key_summary(None, true), "");
    assert_eq!(
        api_key_summary(Some(AiProvider::Disabled), true),
        "Sin proveedor activo. Tom sigue funcionando con tu memoria local."
    );
    assert_eq!(
        api_key_summary(Some(AiProvider::Anthropic), true),
        "Anthropic tiene una clave guardada en Windows."
    );
    assert_eq!(
        api_key_summary(Some(AiProvider::LmStudio), false),
        "LM Studio no tiene clave guardada. Puedes anadir una o usar un modelo local."
    );
}

#[test]
fn the_key_editor_names_the_selected_provider() {
    assert_eq!(
        key_editor_label("gemini"),
        "Añadir o reemplazar la clave de Gemini"
    );
    assert_eq!(key_editor_label("gpt-9"), "Elige un proveedor de la lista");
}

#[test]
fn the_key_manager_status_follows_the_selected_provider_and_any_stored_key() {
    let inventory = vec![
        ApiKeyStatus {
            provider: AiProvider::OpenAi,
            stored: false,
        },
        ApiKeyStatus {
            provider: AiProvider::Anthropic,
            stored: true,
        },
    ];
    let settings = tom_core::AiSettings::default();

    let anthropic = key_manager_status(&inventory, Some(AiProvider::Anthropic), &settings);
    assert!(anthropic.has_key);
    assert!(anthropic.ready);
    assert_eq!(
        anthropic.summary,
        "Anthropic tiene una clave guardada en Windows."
    );

    let openai = key_manager_status(&inventory, Some(AiProvider::OpenAi), &settings);
    assert!(!openai.has_key);
    assert!(openai.ready, "one key from any provider is enough");

    let nothing = key_manager_status(&Vec::new(), None, &settings);
    assert!(!nothing.has_key);
    assert!(!nothing.ready);
    assert_eq!(nothing.summary, "");
}
