//! What the desktop shell decides when the user acts.
//!
//! Each handler validates what the interface sent, asks the credential vault where the
//! action needs it, and reports the outcome on the [`Controller`]. Work that only the shell
//! can do (persisting to the local store, drawing) is left to the caller, which receives
//! exactly what it has to persist or show.

use vstd::prelude::*;

use crate::catalog::api_key_providers_spec;
use crate::controller::{
    AiSettingsSubmission, ApiKeySubmission, Controller, ControllerView, EMPTY_API_KEY, EMPTY_NOTE,
    NO_INTELLIGENCE, NoteSubmission, OnboardingAnswers, OrbState, PROVIDER_WITHOUT_KEY,
    UNKNOWN_PROVIDER, ai_settings_submission_spec, api_key_submission_spec, note_submission_spec,
    onboarding_answers_spec, persona_selected, with_feedback,
};
use crate::credential::{
    ApiKeyStatus, CredentialError, CredentialVault, KeyManagerStatus, api_key_summary,
    api_key_summary_spec, forget_api_key, inventory_holds_key, key_editor_label,
    key_editor_label_spec, key_manager_status, provider_has_api_key, read_key_inventory,
    store_api_key, stored_key_count_spec,
};
use crate::model::{AiProvider, AiSettings, Note};

verus! {

/// The state after the vault could not be reached.
pub open spec fn credential_failure(state: ControllerView) -> ControllerView {
    with_feedback(state, "No pudimos acceder al almacen seguro de Windows"@, OrbState::Error)
}

/// The state after the interface sent something that had to be refused with `message`.
pub open spec fn refusal(state: ControllerView, message: Seq<char>) -> ControllerView {
    with_feedback(state, message, OrbState::Warning)
}

/// What a key edit came to.
#[derive(Clone, Copy, Debug, PartialEq, Eq, Structural)]
pub enum KeyEdit {
    /// The request was refused before the vault was asked.
    Refused,
    /// The vault could not apply the change.
    VaultFailed,
    /// The vault applied the change.
    Applied,
}

impl KeyEdit {
    /// Whether the key manager has to be read again: after any attempt that reached the
    /// vault, whatever it answered.
    pub fn reached_vault(self) -> (reached: bool)
        ensures
            reached == (self != KeyEdit::Refused),
    {
        !matches!(self, KeyEdit::Refused)
    }
}

/// How a key edit that reached the vault is reported: `done` on success, the vault failure
/// otherwise.
pub open spec fn key_edit_reported(
    before: ControllerView,
    after: ControllerView,
    edit: KeyEdit,
    done: Seq<char>,
) -> bool {
    match edit {
        KeyEdit::Refused => false,
        KeyEdit::VaultFailed => after == credential_failure(before),
        KeyEdit::Applied => after == with_feedback(before, done, OrbState::Success),
    }
}

/// How storing the key `api_key` typed for `provider` is reported: a refused form says why,
/// and otherwise the vault's answer is reported.
pub open spec fn key_store_reported(
    before: ControllerView,
    after: ControllerView,
    provider: Seq<char>,
    api_key: Seq<char>,
    edit: KeyEdit,
) -> bool {
    match api_key_submission_spec(provider, api_key) {
        Err(message) => edit == KeyEdit::Refused && after == refusal(before, message),
        Ok(_) => key_edit_reported(before, after, edit, "Clave guardada en Windows"@),
    }
}

/// Storing a key leaves feedback and nothing else, and that feedback is one of a few fixed
/// lines whatever key was typed: the key itself never reaches the interface.
pub proof fn lemma_stored_key_never_reaches_the_status_line(
    before: ControllerView,
    after: ControllerView,
    provider: Seq<char>,
    api_key: Seq<char>,
    edit: KeyEdit,
)
    requires
        key_store_reported(before, after, provider, api_key, edit),
    ensures
        after == with_feedback(before, after.status_text, after.orb_state),
        after.status_text == UNKNOWN_PROVIDER@ || after.status_text == PROVIDER_WITHOUT_KEY@
            || after.status_text == EMPTY_API_KEY@ || after.status_text
            == "Clave guardada en Windows"@ || after.status_text
            == "No pudimos acceder al almacen seguro de Windows"@,
{
}

/// Stores the key typed for one provider.
///
/// A refused form never reaches the vault and says why; otherwise the trimmed key is written
/// under the provider's id and the vault's answer is reported.
pub fn handle_store_api_key<V: CredentialVault>(
    controller: &mut Controller,
    vault: &V,
    provider: &str,
    api_key: &str,
) -> (edit: KeyEdit)
    ensures
        key_store_reported(old(controller)@, final(controller)@, provider@, api_key@, edit),
        match api_key_submission_spec(provider@, api_key@) {
            Ok((chosen, key)) => {
                &&& edit == KeyEdit::Applied ==> vault.set_key_answer(chosen.id_spec(), key, Ok(()))
                &&& edit == KeyEdit::VaultFailed ==> vault.set_key_answer(
                    chosen.id_spec(),
                    key,
                    Err(CredentialError),
                )
            },
            Err(_) => true,
        },
{
    match ApiKeySubmission::try_from_ui(provider, api_key) {
        Err(message) => {
            controller.record_ai_validation_error(message);
            KeyEdit::Refused
        },
        Ok(submission) => match store_api_key(
            vault,
            submission.provider.stable_id(),
            submission.api_key.as_str(),
        ) {
            Ok(unit) => {
                proof {
                    assert(unit == ());
                }
                controller.record_api_key_stored();
                KeyEdit::Applied
            },
            Err(error) => {
                proof {
                    assert(error == CredentialError);
                }
                controller.record_credential_error();
                KeyEdit::VaultFailed
            },
        },
    }
}

/// Removes one provider's key. Only that provider's key goes; every other credential stays
/// where it is. An id that names no provider is refused without asking the vault.
pub fn handle_forget_api_key<V: CredentialVault>(
    controller: &mut Controller,
    vault: &V,
    provider: &str,
) -> (edit: KeyEdit)
    ensures
        match AiProvider::from_id_spec(provider@) {
            None => edit == KeyEdit::Refused && final(controller)@ == refusal(
                old(controller)@,
                UNKNOWN_PROVIDER@,
            ),
            Some(_) => {
                &&& key_edit_reported(
                    old(controller)@,
                    final(controller)@,
                    edit,
                    "Clave eliminada de Windows"@,
                )
                &&& edit == KeyEdit::Applied ==> vault.clear_key_answer(provider@, Ok(()))
                &&& edit == KeyEdit::VaultFailed ==> vault.clear_key_answer(
                    provider@,
                    Err(CredentialError),
                )
            },
        },
{
    if AiProvider::from_stable_id(provider).is_none() {
        controller.record_ai_validation_error(UNKNOWN_PROVIDER);
        return KeyEdit::Refused;
    }
    match forget_api_key(vault, provider) {
        Ok(unit) => {
            proof {
                assert(unit == ());
            }
            controller.record_api_key_cleared();
            KeyEdit::Applied
        },
        Err(error) => {
            proof {
                assert(error == CredentialError);
            }
            controller.record_credential_error();
            KeyEdit::VaultFailed
        },
    }
}

/// Re-reads the key manager from the vault, the only source of truth for it.
///
/// Called after every add and every delete, so the list, the badge of the provider
/// `selected` on the connection tab and the warning about having no way in can never
/// disagree with what the vault holds. `settings` is the connection as it is persisted.
/// When Tom has no way in at all, the controller says so; a vault failure is reported
/// instead of a stale list.
pub fn refresh_key_manager<V: CredentialVault>(
    controller: &mut Controller,
    vault: &V,
    selected: Option<AiProvider>,
    settings: &AiSettings,
) -> (refreshed: Result<(Vec<ApiKeyStatus>, KeyManagerStatus), CredentialError>)
    ensures
        match refreshed {
            Err(error) => {
                &&& final(controller)@ == credential_failure(old(controller)@)
                &&& exists|i: int|
                    0 <= i < api_key_providers_spec().len() && vault.has_key_answer(
                        (#[trigger] api_key_providers_spec()[i]).id_spec(),
                        Err(error),
                    )
            },
            Ok((inventory, status)) => {
                &&& inventory@.map_values(|entry: ApiKeyStatus| entry.provider)
                    == api_key_providers_spec()
                &&& forall|i: int|
                    0 <= i < inventory@.len() ==> vault.has_key_answer(
                        (#[trigger] inventory@[i]).provider.id_spec(),
                        Ok(inventory@[i].stored),
                    )
                &&& status.has_key == (selected matches Some(provider) && inventory_holds_key(
                    inventory@,
                    provider,
                ))
                &&& status.summary@ == api_key_summary_spec(selected, status.has_key)
                &&& status.ready == (stored_key_count_spec(inventory@) > 0
                    || settings.reachable_local_model_spec())
                &&& final(controller)@ == if status.ready {
                    old(controller)@
                } else {
                    refusal(old(controller)@, NO_INTELLIGENCE@)
                }
            },
        },
{
    let inventory = match read_key_inventory(vault) {
        Ok(inventory) => inventory,
        Err(error) => {
            controller.record_credential_error();
            return Err(error);
        },
    };
    let status = key_manager_status(&inventory, selected, settings);
    if !status.ready {
        controller.record_missing_intelligence();
    }
    Ok((inventory, status))
}

/// What the connection tab shows once a provider is picked.
#[derive(Debug, PartialEq, Eq)]
pub struct ProviderPanel {
    /// Whether the provider holds a key.
    pub has_key: bool,
    /// The line about that key.
    pub summary: String,
    /// The heading the key editor switches to; `None` leaves the editor where it was,
    /// since the provider takes no key.
    pub key_editor_label: Option<String>,
}

/// Points the connection tab at `provider` and re-reads whether that provider has a key.
///
/// Each provider keeps its own credential, so the badge follows the selection rather than
/// describing whichever provider happened to be active at launch. The disabled provider
/// never asks the vault; a vault failure is reported on the controller.
pub fn apply_provider_selection<V: CredentialVault>(
    controller: &mut Controller,
    vault: &V,
    provider: AiProvider,
) -> (panel: Result<ProviderPanel, CredentialError>)
    ensures
        match panel {
            Ok(shown) => {
                &&& final(controller)@ == old(controller)@
                &&& provider == AiProvider::Disabled ==> !shown.has_key
                &&& provider != AiProvider::Disabled ==> vault.has_key_answer(
                    provider.id_spec(),
                    Ok(shown.has_key),
                )
                &&& shown.summary@ == api_key_summary_spec(Some(provider), shown.has_key)
                &&& match shown.key_editor_label {
                    Some(label) => provider.accepts_api_key_spec() && label@
                        == key_editor_label_spec(provider.id_spec()),
                    None => !provider.accepts_api_key_spec(),
                }
            },
            Err(error) => {
                &&& provider != AiProvider::Disabled
                &&& vault.has_key_answer(provider.id_spec(), Err(error))
                &&& final(controller)@ == credential_failure(old(controller)@)
            },
        },
{
    match provider_has_api_key(vault, provider) {
        Ok(has_key) => {
            let summary = api_key_summary(Some(provider), has_key);
            let key_editor_label = if provider.accepts_api_key() {
                Some(key_editor_label(provider.stable_id()))
            } else {
                None
            };
            Ok(ProviderPanel { has_key, summary, key_editor_label })
        },
        Err(error) => {
            controller.record_credential_error();
            Err(error)
        },
    }
}

/// What saving the connection form asks of the shell next.
#[derive(Debug)]
pub enum SettingsReview {
    /// Nothing: the controller already says why the save stopped.
    Stopped,
    /// The form was refused; the panel stays open so it can be corrected in place.
    KeepPanelOpen,
    /// Persist these settings; the flag is whether their provider holds a key.
    Save(AiSettings, bool),
}

/// Reviews a connection the user asked to save.
///
/// An unknown provider is refused first; then the vault is asked whether the provider holds
/// a key (never for the disabled provider), and then the form is checked. Settings that pass
/// are handed back to be persisted, with the controller untouched until the store answers.
pub fn handle_save_ai_settings<V: CredentialVault>(
    controller: &mut Controller,
    vault: &V,
    provider: &str,
    endpoint: &str,
    model_path: &str,
) -> (review: SettingsReview)
    ensures
        match AiProvider::from_id_spec(provider@) {
            None => review is Stopped && final(controller)@ == refusal(
                old(controller)@,
                UNKNOWN_PROVIDER@,
            ),
            Some(chosen) => match review {
                SettingsReview::Stopped => {
                    &&& chosen != AiProvider::Disabled
                    &&& vault.has_key_answer(chosen.id_spec(), Err(CredentialError))
                    &&& final(controller)@ == credential_failure(old(controller)@)
                },
                SettingsReview::KeepPanelOpen => {
                    &&& chosen != AiProvider::Disabled ==> exists|has_key: bool|
                        vault.has_key_answer(chosen.id_spec(), Ok(has_key))
                    &&& ai_settings_submission_spec(provider@, endpoint@, model_path@) is Err
                    &&& final(controller)@ == refusal(
                        old(controller)@,
                        ai_settings_submission_spec(provider@, endpoint@, model_path@)->Err_0,
                    )
                },
                SettingsReview::Save(settings, has_key) => {
                    &&& ai_settings_submission_spec(provider@, endpoint@, model_path@) == Ok::<
                        (AiProvider, Seq<char>, Seq<char>),
                        Seq<char>,
                    >((settings.provider, settings.endpoint@, settings.model_path@))
                    &&& chosen == AiProvider::Disabled ==> !has_key
                    &&& chosen != AiProvider::Disabled ==> vault.has_key_answer(
                        chosen.id_spec(),
                        Ok(has_key),
                    )
                    &&& final(controller)@ == old(controller)@
                },
            },
        },
{
    let chosen = match AiProvider::from_stable_id(provider) {
        Some(chosen) => chosen,
        None => {
            controller.record_ai_validation_error(UNKNOWN_PROVIDER);
            return SettingsReview::Stopped;
        },
    };
    let has_key = match provider_has_api_key(vault, chosen) {
        Ok(has_key) => has_key,
        Err(error) => {
            proof {
                assert(error == CredentialError);
            }
            controller.record_credential_error();
            return SettingsReview::Stopped;
        },
    };
    match AiSettingsSubmission::try_from_ui(provider, endpoint, model_path) {
        Ok(submission) => SettingsReview::Save(
            AiSettings {
                provider: submission.provider,
                endpoint: submission.endpoint,
                model_path: submission.model_path,
            },
            has_key,
        ),
        Err(message) => {
            controller.record_ai_validation_error(message);
            SettingsReview::KeepPanelOpen
        },
    }
}

/// Closes onboarding with the four answers the interface holds.
///
/// When an id is unknown the flow stays on its last question so the answer can be
/// corrected in place; otherwise the chosen persona takes over and the answers are handed
/// back, for the profile to be persisted and the chosen kind of intelligence to be opened.
pub fn finish_onboarding(
    controller: &mut Controller,
    persona: &str,
    professional_profile: &str,
    assistance_style: &str,
    ai_setup: &str,
) -> (answers: Option<OnboardingAnswers>)
    ensures
        match onboarding_answers_spec(persona@, professional_profile@, assistance_style@, ai_setup@) {
            Err(message) => answers is None && final(controller)@ == refusal(
                old(controller)@,
                message,
            ),
            Ok(accepted) => answers == Some(accepted) && final(controller)@ == persona_selected(
                old(controller)@,
                accepted.persona,
            ),
        },
{
    match OnboardingAnswers::try_from_ui(persona, professional_profile, assistance_style, ai_setup) {
        Ok(answers) => {
            controller.select_persona(answers.persona);
            Some(answers)
        },
        Err(message) => {
            controller.record_ai_validation_error(message);
            None
        },
    }
}

/// Turns the note form into a note to persist, with a fresh identity, or reports that the
/// form was empty. The counter is left alone: it follows the store, not the saves.
pub fn capture_note(controller: &mut Controller, title: &str, body: &str) -> (note: Option<Note>)
    ensures
        match note_submission_spec(title@, body@) {
            Err(_) => note is None && final(controller)@ == refusal(old(controller)@, EMPTY_NOTE@),
            Ok((kept_title, kept_body)) => {
                &&& note matches Some(captured) && captured.title@ == kept_title
                    && captured.body@ == kept_body && captured.created_at == captured.updated_at
                &&& final(controller)@ == old(controller)@
            },
        },
{
    match NoteSubmission::try_from_ui(title, body) {
        Ok(submission) => Some(Note::new(submission.title.as_str(), submission.body.as_str())),
        Err(_) => {
            controller.record_invalid_note();
            None
        },
    }
}

/// Aims the key editor at the provider picked in the key manager. Picking a row only aims
/// the editor: no credential is read or written. An id that names no provider is refused.
pub fn handle_key_provider_selection(controller: &mut Controller, provider_id: &str) -> (label:
    Option<String>)
    ensures
        match AiProvider::from_id_spec(provider_id@) {
            None => label is None && final(controller)@ == refusal(
                old(controller)@,
                UNKNOWN_PROVIDER@,
            ),
            Some(_) => label matches Some(heading) && heading@ == key_editor_label_spec(
                provider_id@,
            ) && final(controller)@ == old(controller)@,
        },
{
    if AiProvider::from_stable_id(provider_id).is_none() {
        controller.record_ai_validation_error(UNKNOWN_PROVIDER);
        return None;
    }
    Some(key_editor_label(provider_id))
}

} // verus!
