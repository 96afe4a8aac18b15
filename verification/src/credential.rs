//! The key manager's view of the credential vault: which providers hold a key, and the
//! copy that describes a provider's key.

use vstd::prelude::*;

use crate::catalog::{api_key_providers, api_key_providers_spec};
use crate::model::{AiProvider, AiSettings};

verus! {

/// The service under which every provider's key is filed in the vault.
pub const SERVICE_NAME: &'static str = "com.tom.assistant.ai";

/// The vault could not be read or written.
#[derive(Debug)]
pub struct CredentialError;

/// A store of one secret per provider id.
///
/// A vault's answers depend on what it holds at the moment it is asked, so each kind of
/// answer is described by a relation the implementation may define: which answers it may
/// give to a request with these arguments. An implementation that does not define one
/// allows every answer; nothing else is claimed of an implementation.
pub trait CredentialVault {
    /// Whether `answer` is an answer this vault may give when asked whether it holds a key
    /// for `provider_id`.
    closed spec fn has_key_answer(
        &self,
        provider_id: Seq<char>,
        answer: Result<bool, CredentialError>,
    ) -> bool {
        true
    }

    /// Whether `answer` is an answer this vault may give when asked to store `api_key`
    /// for `provider_id`.
    closed spec fn set_key_answer(
        &self,
        provider_id: Seq<char>,
        api_key: Seq<char>,
        answer: Result<(), CredentialError>,
    ) -> bool {
        true
    }

    /// Whether `answer` is an answer this vault may give when asked to remove the key of
    /// `provider_id`.
    closed spec fn clear_key_answer(
        &self,
        provider_id: Seq<char>,
        answer: Result<(), CredentialError>,
    ) -> bool {
        true
    }

    fn has_key(&self, provider_id: &str) -> (answer: Result<bool, CredentialError>)
        ensures
            self.has_key_answer(provider_id@, answer),
    ;

    fn set_key(&self, provider_id: &str, api_key: &str) -> (answer: Result<(), CredentialError>)
        ensures
            self.set_key_answer(provider_id@, api_key@, answer),
    ;

    fn clear_key(&self, provider_id: &str) -> (answer: Result<(), CredentialError>)
        ensures
            self.clear_key_answer(provider_id@, answer),
    ;
}

/// Whether one provider currently holds a credential.
#[derive(Clone, Copy, Debug, PartialEq, Eq, Structural)]
pub struct ApiKeyStatus {
    pub provider: AiProvider,
    pub stored: bool,
}

/// Reads which providers hold a credential right now.
///
/// Keys live one per provider, so this is the only place that decides what the manager
/// shows as saved: nothing is inferred from the provider that happens to be selected.
/// Whether each one is stored is the vault's answer; the list itself always covers every
/// provider that accepts a key, once, in the manager's order.
pub fn read_key_inventory<V: CredentialVault>(vault: &V) -> (inventory: Result<
    Vec<ApiKeyStatus>,
    CredentialError,
>)
    ensures
        match inventory {
            Ok(statuses) => {
                &&& statuses@.map_values(|status: ApiKeyStatus| status.provider)
                    == api_key_providers_spec()
                &&& forall|i: int|
                    0 <= i < statuses@.len() ==> vault.has_key_answer(
                        (#[trigger] statuses@[i]).provider.id_spec(),
                        Ok(statuses@[i].stored),
                    )
            },
            Err(error) => exists|i: int|
                0 <= i < api_key_providers_spec().len() && vault.has_key_answer(
                    (#[trigger] api_key_providers_spec()[i]).id_spec(),
                    Err(error),
                ),
        },
{
    let providers = api_key_providers();
    let mut inventory: Vec<ApiKeyStatus> = Vec::new();
    let mut i: usize = 0;
    while i < providers.len()
        invariant
            i <= providers@.len(),
            providers@ == api_key_providers_spec(),
            inventory@.map_values(|status: ApiKeyStatus| status.provider) == providers@.take(
                i as int,
            ),
            forall|j: int|
                0 <= j < inventory@.len() ==> vault.has_key_answer(
                    (#[trigger] inventory@[j]).provider.id_spec(),
                    Ok(inventory@[j].stored),
                ),
        decreases providers@.len() - i,
    {
        let provider = providers[i];
        let stored = match vault.has_key(provider.stable_id()) {
            Ok(stored) => stored,
            Err(error) => {
                proof {
                    assert(vault.has_key_answer(
                        api_key_providers_spec()[i as int].id_spec(),
                        Err(error),
                    ));
                }
                return Err(error);
            },
        };
        let ghost before = inventory@;
        inventory.push(ApiKeyStatus { provider, stored });
        proof {
            assert(inventory@ =~= before.push(ApiKeyStatus { provider, stored }));
            assert(before.map_values(|status: ApiKeyStatus| status.provider) =~= providers@.take(
                i as int,
            ));
            assert(providers@.take(i + 1) =~= providers@.take(i as int).push(provider));
            assert(inventory@.map_values(|status: ApiKeyStatus| status.provider) =~= providers@.take(
                i + 1,
            ));
        }
        i = i + 1;
    }
    assert(providers@.take(providers@.len() as int) =~= providers@);
    Ok(inventory)
}

/// Writes one provider's credential, replacing only that provider's key.
///
/// Adding a second provider never disturbs the first: the vault is keyed by provider id.
/// The outcome is the vault's.
pub fn store_api_key<V: CredentialVault>(vault: &V, provider_id: &str, api_key: &str) -> (stored:
    Result<(), CredentialError>)
    ensures
        vault.set_key_answer(provider_id@, api_key@, stored),
{
    vault.set_key(provider_id, api_key)
}

/// Removes one provider's credential, and only when the user asks for it.
///
/// Deleting a key that is not there succeeds in the vaults this library ships with, so a
/// stale interface cannot raise an error. The outcome is the vault's.
pub fn forget_api_key<V: CredentialVault>(vault: &V, provider_id: &str) -> (forgotten: Result<
    (),
    CredentialError,
>)
    ensures
        vault.clear_key_answer(provider_id@, forgotten),
{
    vault.clear_key(provider_id)
}

/// Whether `provider` has a stored key. The disabled provider never has one and the vault
/// is not asked about it; for any other provider the answer is the vault's.
pub fn provider_has_api_key<V: CredentialVault>(vault: &V, provider: AiProvider) -> (has_key: Result<
    bool,
    CredentialError,
>)
    ensures
        provider == AiProvider::Disabled ==> has_key matches Ok(false),
        provider != AiProvider::Disabled ==> vault.has_key_answer(provider.id_spec(), has_key),
{
    if provider == AiProvider::Disabled {
        Ok(false)
    } else {
        vault.has_key(provider.stable_id())
    }
}

/// What the connection tab says about the selected provider's credential.
pub open spec fn api_key_summary_spec(provider: Option<AiProvider>, has_key: bool) -> Seq<char> {
    match provider {
        None => Seq::empty(),
        Some(AiProvider::Disabled) => "Sin proveedor activo. Tom sigue funcionando con tu memoria local."@,
        Some(provider) => if has_key {
            provider.label_spec() + " tiene una clave guardada en Windows."@
        } else {
            provider.label_spec()
                + " no tiene clave guardada. Puedes anadir una o usar un modelo local."@
        },
    }
}

/// Says what the connection tab knows about the selected provider's credential.
pub fn api_key_summary(provider: Option<AiProvider>, has_key: bool) -> (summary: String)
    ensures
        summary@ == api_key_summary_spec(provider, has_key),
{
    let provider = match provider {
        Some(provider) => provider,
        None => return String::new(),
    };
    match provider {
        AiProvider::Disabled => "Sin proveedor activo. Tom sigue funcionando con tu memoria local.".to_owned(),
        _ => {
            let mut summary = provider.label().to_owned();
            if has_key {
                summary.append(" tiene una clave guardada en Windows.");
            } else {
                summary.append(" no tiene clave guardada. Puedes anadir una o usar un modelo local.");
            }
            summary
        },
    }
}

/// The heading of the key editor for the provider id the manager has selected.
pub open spec fn key_editor_label_spec(provider_id: Seq<char>) -> Seq<char> {
    match AiProvider::from_id_spec(provider_id) {
        Some(provider) => "Añadir o reemplazar la clave de "@ + provider.label_spec(),
        None => "Elige un proveedor de la lista"@,
    }
}

/// The heading of the key editor for the provider id the manager has selected.
pub fn key_editor_label(provider_id: &str) -> (label: String)
    ensures
        label@ == key_editor_label_spec(provider_id@),
{
    match AiProvider::from_stable_id(provider_id) {
        Some(provider) => {
            let mut label = "Añadir o reemplazar la clave de ".to_owned();
            label.append(provider.label());
            label
        },
        None => "Elige un proveedor de la lista".to_owned(),
    }
}


/// How many providers of an inventory hold a key.
pub open spec fn stored_key_count_spec(inventory: Seq<ApiKeyStatus>) -> nat
    decreases inventory.len(),
{
    if inventory.len() == 0 {
        0
    } else {
        stored_key_count_spec(inventory.drop_last()) + if inventory.last().stored {
            1nat
        } else {
            0nat
        }
    }
}

/// Whether an inventory marks `provider` as holding a key.
pub open spec fn inventory_holds_key(inventory: Seq<ApiKeyStatus>, provider: AiProvider) -> bool {
    exists|i: int| 0 <= i < inventory.len() && (#[trigger] inventory[i]).provider == provider
        && inventory[i].stored
}

/// What the key manager shows after it re-read the vault.
#[derive(Debug, PartialEq, Eq)]
pub struct KeyManagerStatus {
    /// Whether the provider selected on the connection tab holds a key.
    pub has_key: bool,
    /// The connection tab's line about that key.
    pub summary: String,
    /// Whether Tom has any way in at all: a stored key or a reachable local model.
    pub ready: bool,
}

/// Everything the key manager republishes from a fresh inventory: the badge and the line
/// for the selected provider, and whether Tom can think at all given the persisted
/// connection.
pub fn key_manager_status(
    inventory: &Vec<ApiKeyStatus>,
    selected: Option<AiProvider>,
    settings: &AiSettings,
) -> (status: KeyManagerStatus)
    ensures
        status.has_key == (selected matches Some(provider) && inventory_holds_key(
            inventory@,
            provider,
        )),
        status.summary@ == api_key_summary_spec(selected, status.has_key),
        status.ready == (stored_key_count_spec(inventory@) > 0
            || settings.reachable_local_model_spec()),
{
    let mut has_key = false;
    let mut stored_keys: usize = 0;
    let mut i: usize = 0;
    while i < inventory.len()
        invariant
            i <= inventory@.len(),
            stored_keys == stored_key_count_spec(inventory@.take(i as int)),
            stored_keys <= i,
            has_key == (selected matches Some(provider) && inventory_holds_key(
                inventory@.take(i as int),
                provider,
            )),
        decreases inventory@.len() - i,
    {
        let status = inventory[i];
        proof {
            assert(inventory@.take(i + 1).drop_last() =~= inventory@.take(i as int));
            assert(inventory@.take(i + 1).last() == status);
        }
        if status.stored {
            stored_keys = stored_keys + 1;
        }
        let matches_selected = match selected {
            Some(provider) => status.provider == provider,
            None => false,
        };
        if matches_selected && status.stored {
            has_key = true;
        }
        proof {
            if let Some(provider) = selected {
                let before = inventory@.take(i as int);
                let after = inventory@.take(i + 1);
                if inventory_holds_key(before, provider) {
                    let j = choose|j: int| 0 <= j < before.len() && (#[trigger] before[j]).provider
                        == provider && before[j].stored;
                    assert(after[j] == before[j]);
                }
                if inventory_holds_key(after, provider) {
                    let j = choose|j: int| 0 <= j < after.len() && (#[trigger] after[j]).provider
                        == provider && after[j].stored;
                    if j < i {
                        assert(before[j] == after[j]);
                    }
                }
                if matches_selected && status.stored {
                    assert(after[i as int] == status);
                }
            }
        }
        i = i + 1;
    }
    assert(inventory@.take(inventory@.len() as int) =~= inventory@);
    let summary = api_key_summary(selected, has_key);
    let ready = settings.intelligence_is_available(stored_keys);
    KeyManagerStatus { has_key, summary, ready }
}

/// The stored keys are counted over the whole inventory: the count is positive exactly
/// when some provider, whichever it is, holds a key. So one stored key from any provider
/// is enough for Tom to think.
pub proof fn lemma_one_stored_key_is_enough(inventory: Seq<ApiKeyStatus>)
    ensures
        stored_key_count_spec(inventory) > 0 <==> exists|i: int|
            0 <= i < inventory.len() && (#[trigger] inventory[i]).stored,
        stored_key_count_spec(inventory) <= inventory.len(),
    decreases inventory.len(),
{
    if inventory.len() > 0 {
        let rest = inventory.drop_last();
        lemma_one_stored_key_is_enough(rest);
        if exists|i: int| 0 <= i < rest.len() && (#[trigger] rest[i]).stored {
            let i = choose|i: int| 0 <= i < rest.len() && (#[trigger] rest[i]).stored;
            assert(inventory[i] == rest[i]);
        }
        if exists|i: int| 0 <= i < inventory.len() && (#[trigger] inventory[i]).stored {
            let i = choose|i: int| 0 <= i < inventory.len() && (#[trigger] inventory[i]).stored;
            if i < rest.len() {
                assert(rest[i] == inventory[i]);
            }
        }
    }
}

} // verus!
