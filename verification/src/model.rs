//! The assistant's domain: AI providers and their settings, personas, professional
//! profiles, assistance styles and the user profile they make up.

use vstd::prelude::*;

use crate::text::{is_blank, str_equal, str_is_blank};

verus! {

/// Where the assistant gets its intelligence from.
#[derive(Clone, Copy, Debug, PartialEq, Eq, Structural)]
pub enum AiProvider {
    Disabled,
    OpenAi,
    Anthropic,
    Gemini,
    CustomCloud,
    Ollama,
    LmStudio,
    CustomLocal,
}

impl AiProvider {
    /// Every provider the assistant knows about, in the order the interface offers them.
    pub const ALL: [AiProvider; 8] = [
        AiProvider::Disabled,
        AiProvider::OpenAi,
        AiProvider::Anthropic,
        AiProvider::Gemini,
        AiProvider::CustomCloud,
        AiProvider::Ollama,
        AiProvider::LmStudio,
        AiProvider::CustomLocal,
    ];

    /// The providers in the order of [`AiProvider::ALL`].
    pub open spec fn all_spec() -> Seq<AiProvider> {
        seq![
            AiProvider::Disabled,
            AiProvider::OpenAi,
            AiProvider::Anthropic,
            AiProvider::Gemini,
            AiProvider::CustomCloud,
            AiProvider::Ollama,
            AiProvider::LmStudio,
            AiProvider::CustomLocal,
        ]
    }

    /// The id under which the provider is persisted and sent through the interface.
    pub open spec fn id_spec(self) -> Seq<char> {
        match self {
            AiProvider::Disabled => "disabled"@,
            AiProvider::OpenAi => "openai"@,
            AiProvider::Anthropic => "anthropic"@,
            AiProvider::Gemini => "gemini"@,
            AiProvider::CustomCloud => "custom-cloud"@,
            AiProvider::Ollama => "ollama"@,
            AiProvider::LmStudio => "lm-studio"@,
            AiProvider::CustomLocal => "custom-local"@,
        }
    }

    /// The provider whose id is `id`, if any.
    pub open spec fn from_id_spec(id: Seq<char>) -> Option<AiProvider> {
        if id == "disabled"@ {
            Some(AiProvider::Disabled)
        } else if id == "openai"@ {
            Some(AiProvider::OpenAi)
        } else if id == "anthropic"@ {
            Some(AiProvider::Anthropic)
        } else if id == "gemini"@ {
            Some(AiProvider::Gemini)
        } else if id == "custom-cloud"@ {
            Some(AiProvider::CustomCloud)
        } else if id == "ollama"@ {
            Some(AiProvider::Ollama)
        } else if id == "lm-studio"@ {
            Some(AiProvider::LmStudio)
        } else if id == "custom-local"@ {
            Some(AiProvider::CustomLocal)
        } else {
            None
        }
    }

    pub open spec fn is_cloud_spec(self) -> bool {
        self == AiProvider::OpenAi || self == AiProvider::Anthropic || self == AiProvider::Gemini
            || self == AiProvider::CustomCloud
    }

    pub open spec fn is_local_spec(self) -> bool {
        self == AiProvider::Ollama || self == AiProvider::LmStudio || self
            == AiProvider::CustomLocal
    }

    #[must_use]
    pub fn stable_id(self) -> (id: &'static str)
        ensures
            id@ == self.id_spec(),
    {
        match self {
            AiProvider::Disabled => "disabled",
            AiProvider::OpenAi => "openai",
            AiProvider::Anthropic => "anthropic",
            AiProvider::Gemini => "gemini",
            AiProvider::CustomCloud => "custom-cloud",
            AiProvider::Ollama => "ollama",
            AiProvider::LmStudio => "lm-studio",
            AiProvider::CustomLocal => "custom-local",
        }
    }

    #[must_use]
    pub fn from_stable_id(stable_id: &str) -> (provider: Option<AiProvider>)
        ensures
            provider == AiProvider::from_id_spec(stable_id@),
    {
        if str_equal(stable_id, "disabled") {
            Some(AiProvider::Disabled)
        } else if str_equal(stable_id, "openai") {
            Some(AiProvider::OpenAi)
        } else if str_equal(stable_id, "anthropic") {
            Some(AiProvider::Anthropic)
        } else if str_equal(stable_id, "gemini") {
            Some(AiProvider::Gemini)
        } else if str_equal(stable_id, "custom-cloud") {
            Some(AiProvider::CustomCloud)
        } else if str_equal(stable_id, "ollama") {
            Some(AiProvider::Ollama)
        } else if str_equal(stable_id, "lm-studio") {
            Some(AiProvider::LmStudio)
        } else if str_equal(stable_id, "custom-local") {
            Some(AiProvider::CustomLocal)
        } else {
            None
        }
    }

    /// Whether the provider runs outside this device and therefore needs a credential.
    #[must_use]
    pub fn is_cloud(self) -> (cloud: bool)
        ensures
            cloud == self.is_cloud_spec(),
    {
        matches!(
            self,
            AiProvider::OpenAi | AiProvider::Anthropic | AiProvider::Gemini
                | AiProvider::CustomCloud
        )
    }

    /// Whether the provider is expected to answer on this machine.
    #[must_use]
    pub fn is_local(self) -> (local: bool)
        ensures
            local == self.is_local_spec(),
    {
        matches!(self, AiProvider::Ollama | AiProvider::LmStudio | AiProvider::CustomLocal)
    }

    /// Whether a credential can be stored for the provider.
    ///
    /// No single key is ever required: a cloud provider is reached with one, a local server
    /// may want one if it sits behind a proxy, and the vault holds whichever the user
    /// chooses to add.
    #[must_use]
    pub fn accepts_api_key(self) -> (accepts: bool)
        ensures
            accepts == (self != AiProvider::Disabled),
    {
        !matches!(self, AiProvider::Disabled)
    }

    /// Whether the user must supply an endpoint before the provider can be reached.
    #[must_use]
    pub fn requires_endpoint(self) -> (required: bool)
        ensures
            required == (self == AiProvider::CustomCloud),
    {
        matches!(self, AiProvider::CustomCloud)
    }

    /// Whether the provider needs either an endpoint or a model path to be usable.
    #[must_use]
    pub fn requires_model_location(self) -> (required: bool)
        ensures
            required == (self == AiProvider::CustomLocal),
    {
        matches!(self, AiProvider::CustomLocal)
    }
}

impl Default for AiProvider {
    fn default() -> (provider: AiProvider)
        ensures
            provider == AiProvider::Disabled,
    {
        AiProvider::Disabled
    }
}

/// Every provider's id parses back into that provider, and an id parses only into the
/// provider that carries it.
pub proof fn lemma_ai_provider_ids_round_trip(provider: AiProvider, id: Seq<char>)
    ensures
        AiProvider::from_id_spec(provider.id_spec()) == Some(provider),
        AiProvider::from_id_spec(id) == Some(provider) ==> provider.id_spec() == id,
{
    reveal_strlit("disabled");
    reveal_strlit("openai");
    reveal_strlit("anthropic");
    reveal_strlit("gemini");
    reveal_strlit("custom-cloud");
    reveal_strlit("ollama");
    reveal_strlit("lm-studio");
    reveal_strlit("custom-local");
    assert("disabled"@.len() == 8);
    assert("openai"@.len() == 6);
    assert("anthropic"@.len() == 9);
    assert("gemini"@.len() == 6);
    assert("custom-cloud"@.len() == 12);
    assert("ollama"@.len() == 6);
    assert("lm-studio"@.len() == 9);
    assert("custom-local"@.len() == 12);
    assert("openai"@[0] != "gemini"@[0]);
    assert("ollama"@[0] != "gemini"@[0]);
    assert("openai"@[1] != "ollama"@[1]);
    assert("anthropic"@[0] != "lm-studio"@[0]);
    assert("custom-cloud"@[7] != "custom-local"@[7]);
}

/// A provider is in the cloud, on this machine, or disabled: exactly one of the three.
pub proof fn lemma_ai_provider_kinds_partition(provider: AiProvider)
    ensures
        !(provider.is_cloud_spec() && provider.is_local_spec()),
        provider == AiProvider::Disabled <==> (!provider.is_cloud_spec()
            && !provider.is_local_spec()),
{
}

/// The non-secret description of how to reach the chosen provider.
#[derive(Clone, Debug, PartialEq, Eq)]
pub struct AiSettings {
    pub provider: AiProvider,
    pub endpoint: String,
    pub model_path: String,
}

impl Default for AiSettings {
    fn default() -> (settings: AiSettings)
        ensures
            settings.provider == AiProvider::Disabled,
            settings.endpoint@.len() == 0,
            settings.model_path@.len() == 0,
    {
        AiSettings { provider: AiProvider::Disabled, endpoint: String::new(), model_path: String::new() }
    }
}

impl AiSettings {
    /// Whether the settings name a local provider and somewhere to find its model.
    pub open spec fn reachable_local_model_spec(&self) -> bool {
        self.provider.is_local_spec() && (!is_blank(self.endpoint@) || !is_blank(
            self.model_path@,
        ))
    }

    /// Whether a local model is described well enough for Tom to reach it.
    #[must_use]
    pub fn has_reachable_local_model(&self) -> (reachable: bool)
        ensures
            reachable == self.reachable_local_model_spec(),
    {
        self.provider.is_local() && (!str_is_blank(self.endpoint.as_str()) || !str_is_blank(
            self.model_path.as_str(),
        ))
    }

    /// Whether Tom has any way at all to think.
    ///
    /// Nothing in particular is required: one stored key, from any provider, or one local
    /// model it can reach, is enough. Having none of either is the single configuration
    /// Tom cannot work with, and the interface says so rather than failing quietly.
    #[must_use]
    pub fn intelligence_is_available(&self, stored_key_count: usize) -> (available: bool)
        ensures
            available == (stored_key_count > 0 || self.reachable_local_model_spec()),
    {
        stored_key_count > 0 || self.has_reachable_local_model()
    }
}

/// The personality the assistant speaks with.
#[derive(Clone, Copy, Debug, PartialEq, Eq, Structural)]
pub enum Persona {
    Tom,
    Tomy,
}

impl Persona {
    pub const ALL: [Persona; 2] = [Persona::Tom, Persona::Tomy];

    pub open spec fn all_spec() -> Seq<Persona> {
        seq![Persona::Tom, Persona::Tomy]
    }

    pub open spec fn display_name_spec(self) -> Seq<char> {
        match self {
            Persona::Tom => "Tom"@,
            Persona::Tomy => "Tomy"@,
        }
    }

    pub open spec fn id_spec(self) -> Seq<char> {
        match self {
            Persona::Tom => "tom"@,
            Persona::Tomy => "tomy"@,
        }
    }

    pub open spec fn from_id_spec(id: Seq<char>) -> Option<Persona> {
        if id == "tom"@ {
            Some(Persona::Tom)
        } else if id == "tomy"@ {
            Some(Persona::Tomy)
        } else {
            None
        }
    }

    #[must_use]
    pub fn display_name(self) -> (name: &'static str)
        ensures
            name@ == self.display_name_spec(),
    {
        match self {
            Persona::Tom => "Tom",
            Persona::Tomy => "Tomy",
        }
    }

    #[must_use]
    pub fn stable_id(self) -> (id: &'static str)
        ensures
            id@ == self.id_spec(),
    {
        match self {
            Persona::Tom => "tom",
            Persona::Tomy => "tomy",
        }
    }

    #[must_use]
    pub fn from_stable_id(value: &str) -> (persona: Option<Persona>)
        ensures
            persona == Persona::from_id_spec(value@),
    {
        if str_equal(value, "tom") {
            Some(Persona::Tom)
        } else if str_equal(value, "tomy") {
            Some(Persona::Tomy)
        } else {
            None
        }
    }
}

impl Default for Persona {
    fn default() -> (persona: Persona)
        ensures
            persona == Persona::Tom,
    {
        Persona::Tom
    }
}

/// Every persona's id parses back into that persona, and an id parses only into the
/// persona that carries it.
pub proof fn lemma_persona_ids_round_trip(persona: Persona, id: Seq<char>)
    ensures
        Persona::from_id_spec(persona.id_spec()) == Some(persona),
        Persona::from_id_spec(id) == Some(persona) ==> persona.id_spec() == id,
{
    reveal_strlit("tom");
    reveal_strlit("tomy");
    assert("tom"@.len() == 3);
    assert("tomy"@.len() == 4);
}

/// The kind of work the user mainly does.
#[derive(Clone, Copy, Debug, PartialEq, Eq, Structural)]
pub enum ProfessionalProfile {
    Developer,
    Office,
    Student,
    Creator,
    General,
}

impl ProfessionalProfile {
    pub const ALL: [ProfessionalProfile; 5] = [
        ProfessionalProfile::Developer,
        ProfessionalProfile::Office,
        ProfessionalProfile::Student,
        ProfessionalProfile::Creator,
        ProfessionalProfile::General,
    ];

    pub open spec fn all_spec() -> Seq<ProfessionalProfile> {
        seq![
            ProfessionalProfile::Developer,
            ProfessionalProfile::Office,
            ProfessionalProfile::Student,
            ProfessionalProfile::Creator,
            ProfessionalProfile::General,
        ]
    }

    pub open spec fn id_spec(self) -> Seq<char> {
        match self {
            ProfessionalProfile::Developer => "developer"@,
            ProfessionalProfile::Office => "office"@,
            ProfessionalProfile::Student => "student"@,
            ProfessionalProfile::Creator => "creator"@,
            ProfessionalProfile::General => "general"@,
        }
    }

    pub open spec fn from_id_spec(id: Seq<char>) -> Option<ProfessionalProfile> {
        if id == "developer"@ {
            Some(ProfessionalProfile::Developer)
        } else if id == "office"@ {
            Some(ProfessionalProfile::Office)
        } else if id == "student"@ {
            Some(ProfessionalProfile::Student)
        } else if id == "creator"@ {
            Some(ProfessionalProfile::Creator)
        } else if id == "general"@ {
            Some(ProfessionalProfile::General)
        } else {
            None
        }
    }

    #[must_use]
    pub fn stable_id(self) -> (id: &'static str)
        ensures
            id@ == self.id_spec(),
    {
        match self {
            ProfessionalProfile::Developer => "developer",
            ProfessionalProfile::Office => "office",
            ProfessionalProfile::Student => "student",
            ProfessionalProfile::Creator => "creator",
            ProfessionalProfile::General => "general",
        }
    }

    #[must_use]
    pub fn from_stable_id(value: &str) -> (profile: Option<ProfessionalProfile>)
        ensures
            profile == ProfessionalProfile::from_id_spec(value@),
    {
        if str_equal(value, "developer") {
            Some(ProfessionalProfile::Developer)
        } else if str_equal(value, "office") {
            Some(ProfessionalProfile::Office)
        } else if str_equal(value, "student") {
            Some(ProfessionalProfile::Student)
        } else if str_equal(value, "creator") {
            Some(ProfessionalProfile::Creator)
        } else if str_equal(value, "general") {
            Some(ProfessionalProfile::General)
        } else {
            None
        }
    }
}

impl Default for ProfessionalProfile {
    fn default() -> (profile: ProfessionalProfile)
        ensures
            profile == ProfessionalProfile::Developer,
    {
        ProfessionalProfile::Developer
    }
}

/// Every profile's id parses back into that profile, and an id parses only into the
/// profile that carries it.
pub proof fn lemma_professional_profile_ids_round_trip(
    profile: ProfessionalProfile,
    id: Seq<char>,
)
    ensures
        ProfessionalProfile::from_id_spec(profile.id_spec()) == Some(profile),
        ProfessionalProfile::from_id_spec(id) == Some(profile) ==> profile.id_spec() == id,
{
    reveal_strlit("developer");
    reveal_strlit("office");
    reveal_strlit("student");
    reveal_strlit("creator");
    reveal_strlit("general");
    assert("developer"@.len() == 9);
    assert("office"@.len() == 6);
    assert("student"@.len() == 7);
    assert("creator"@.len() == 7);
    assert("general"@.len() == 7);
    assert("student"@[0] != "creator"@[0]);
    assert("student"@[0] != "general"@[0]);
    assert("creator"@[0] != "general"@[0]);
}

/// How much initiative the assistant takes.
#[derive(Clone, Copy, Debug, PartialEq, Eq, Structural)]
pub enum AssistanceStyle {
    Focused,
    Balanced,
    Proactive,
}

impl AssistanceStyle {
    pub const ALL: [AssistanceStyle; 3] = [
        AssistanceStyle::Focused,
        AssistanceStyle::Balanced,
        AssistanceStyle::Proactive,
    ];

    pub open spec fn all_spec() -> Seq<AssistanceStyle> {
        seq![AssistanceStyle::Focused, AssistanceStyle::Balanced, AssistanceStyle::Proactive]
    }

    pub open spec fn id_spec(self) -> Seq<char> {
        match self {
            AssistanceStyle::Focused => "focused"@,
            AssistanceStyle::Balanced => "balanced"@,
            AssistanceStyle::Proactive => "proactive"@,
        }
    }

    pub open spec fn from_id_spec(id: Seq<char>) -> Option<AssistanceStyle> {
        if id == "focused"@ {
            Some(AssistanceStyle::Focused)
        } else if id == "balanced"@ {
            Some(AssistanceStyle::Balanced)
        } else if id == "proactive"@ {
            Some(AssistanceStyle::Proactive)
        } else {
            None
        }
    }

    #[must_use]
    pub fn stable_id(self) -> (id: &'static str)
        ensures
            id@ == self.id_spec(),
    {
        match self {
            AssistanceStyle::Focused => "focused",
            AssistanceStyle::Balanced => "balanced",
            AssistanceStyle::Proactive => "proactive",
        }
    }

    #[must_use]
    pub fn from_stable_id(value: &str) -> (style: Option<AssistanceStyle>)
        ensures
            style == AssistanceStyle::from_id_spec(value@),
    {
        if str_equal(value, "focused") {
            Some(AssistanceStyle::Focused)
        } else if str_equal(value, "balanced") {
            Some(AssistanceStyle::Balanced)
        } else if str_equal(value, "proactive") {
            Some(AssistanceStyle::Proactive)
        } else {
            None
        }
    }
}

impl Default for AssistanceStyle {
    fn default() -> (style: AssistanceStyle)
        ensures
            style == AssistanceStyle::Balanced,
    {
        AssistanceStyle::Balanced
    }
}

/// Every style's id parses back into that style, and an id parses only into the style
/// that carries it.
pub proof fn lemma_assistance_style_ids_round_trip(style: AssistanceStyle, id: Seq<char>)
    ensures
        AssistanceStyle::from_id_spec(style.id_spec()) == Some(style),
        AssistanceStyle::from_id_spec(id) == Some(style) ==> style.id_spec() == id,
{
    reveal_strlit("focused");
    reveal_strlit("balanced");
    reveal_strlit("proactive");
    assert("focused"@.len() == 7);
    assert("balanced"@.len() == 8);
    assert("proactive"@.len() == 9);
}

/// The answers onboarding stores about the user.
#[derive(Clone, Copy, Debug, PartialEq, Eq, Structural)]
pub struct UserProfile {
    pub persona: Persona,
    pub professional_profile: ProfessionalProfile,
    pub assistance_style: AssistanceStyle,
}

impl Default for UserProfile {
    fn default() -> (profile: UserProfile)
        ensures
            profile.persona == Persona::Tom,
            profile.professional_profile == ProfessionalProfile::Developer,
            profile.assistance_style == AssistanceStyle::Balanced,
    {
        UserProfile {
            persona: Persona::Tom,
            professional_profile: ProfessionalProfile::Developer,
            assistance_style: AssistanceStyle::Balanced,
        }
    }
}

#[verifier::external_type_specification]
#[verifier::external_body]
pub struct ExUuid(uuid::Uuid);

#[verifier::external_type_specification]
#[verifier::external_body]
pub struct ExNaiveDateTime(chrono::NaiveDateTime);

/// `uuid::Uuid` is `Copy`: its derived `clone` hands back the same identifier.
pub assume_specification[ <uuid::Uuid as core::clone::Clone>::clone ](id: &uuid::Uuid) -> (copy:
    uuid::Uuid)
    ensures
        copy == *id,
;

/// `chrono::NaiveDateTime` is `Copy`: its derived `clone` hands back the same instant.
pub assume_specification[ <chrono::NaiveDateTime as core::clone::Clone>::clone ](
    instant: &chrono::NaiveDateTime,
) -> (copy: chrono::NaiveDateTime)
    ensures
        copy == *instant,
;

/// Calls `uuid::Uuid::now_v7`: a fresh identifier made of the current time and random
/// bits. Nothing is claimed of it.
#[verifier::external_body]
fn new_identifier() -> uuid::Uuid {
    uuid::Uuid::now_v7()
}

/// Calls `chrono::Utc::now` and keeps the UTC wall-clock time it reads. Nothing is claimed
/// of it.
#[verifier::external_body]
fn utc_now() -> chrono::NaiveDateTime {
    chrono::Utc::now().naive_utc()
}

/// A note the user captured. Its timestamps are UTC.
#[derive(Clone, Debug, PartialEq, Eq)]
pub struct Note {
    pub id: uuid::Uuid,
    pub title: String,
    pub body: String,
    pub created_at: chrono::NaiveDateTime,
    pub updated_at: chrono::NaiveDateTime,
}

impl Note {
    /// A new note with a fresh identity, created and last updated now.
    #[must_use]
    pub fn new(title: &str, body: &str) -> (note: Note)
        ensures
            note.title@ == title@,
            note.body@ == body@,
            note.created_at == note.updated_at,
    {
        let now = utc_now();
        Note {
            id: new_identifier(),
            title: title.to_owned(),
            body: body.to_owned(),
            created_at: now,
            updated_at: now,
        }
    }
}

/// A routine Tom proposes: what it noticed, why, and what it would do.
#[derive(Clone, Debug, PartialEq, Eq)]
pub struct RoutineSuggestion {
    pub id: uuid::Uuid,
    pub title: String,
    pub rationale: String,
    pub proposed_action: String,
    pub created_at: chrono::NaiveDateTime,
}

impl RoutineSuggestion {
    /// A new suggestion with a fresh identity, created now.
    #[must_use]
    pub fn new(title: &str, rationale: &str, proposed_action: &str) -> (suggestion:
        RoutineSuggestion)
        ensures
            suggestion.title@ == title@,
            suggestion.rationale@ == rationale@,
            suggestion.proposed_action@ == proposed_action@,
    {
        RoutineSuggestion {
            id: new_identifier(),
            title: title.to_owned(),
            rationale: rationale.to_owned(),
            proposed_action: proposed_action.to_owned(),
            created_at: utc_now(),
        }
    }
}

} // verus!
