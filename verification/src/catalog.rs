//! The copy and option lists the desktop shell renders.
//!
//! Every option the interface can show is derived here from the domain enums, so an id
//! that reaches a callback is always an id that parses back into a domain value. Keeping
//! the catalog next to the model is what stops the two from drifting apart: adding a
//! provider or a professional profile is a single edit.

use vstd::prelude::*;

use crate::model::{AiProvider, AssistanceStyle, Persona, ProfessionalProfile};
use crate::text::str_equal;

verus! {

/// One selectable option: a stable id plus the copy that explains it.
#[derive(Clone, Copy, Debug, PartialEq, Eq)]
pub struct Choice {
    pub id: &'static str,
    pub label: &'static str,
    pub detail: &'static str,
}

/// What a [`Choice`] says, as character sequences.
pub ghost struct ChoiceView {
    pub id: Seq<char>,
    pub label: Seq<char>,
    pub detail: Seq<char>,
}

impl View for Choice {
    type V = ChoiceView;

    open spec fn view(&self) -> ChoiceView {
        ChoiceView { id: self.id@, label: self.label@, detail: self.detail@ }
    }
}

/// The views of a list of choices.
pub open spec fn choice_views(choices: Seq<Choice>) -> Seq<ChoiceView> {
    choices.map_values(|choice: Choice| choice@)
}

/// Filtering a sequence extended by one element filters the prefix and keeps the element
/// exactly when it passes.
pub(crate) proof fn lemma_filter_push<A>(s: Seq<A>, x: A, pred: spec_fn(A) -> bool)
    ensures
        s.push(x).filter(pred) == (if pred(x) {
            s.filter(pred).push(x)
        } else {
            s.filter(pred)
        }),
{
    reveal_with_fuel(Seq::filter, 1);
    assert(s.push(x).drop_last() =~= s);
}

/// The views of a list extended by one choice are the views of the list extended by that
/// choice's view.
pub(crate) proof fn lemma_choice_views_push(before: Seq<Choice>, choice: Choice)
    ensures
        choice_views(before.push(choice)) == choice_views(before).push(choice@),
{
    assert(choice_views(before.push(choice)) =~= choice_views(before).push(choice@));
}

/// Mapping one more element of a prefix appends that element's image.
pub(crate) proof fn lemma_map_take_succ<A, B>(s: Seq<A>, i: int, f: spec_fn(A) -> B)
    requires
        0 <= i < s.len(),
    ensures
        s.take(i + 1).map_values(f) == s.take(i).map_values(f).push(f(s[i])),
{
    assert(s.take(i + 1).map_values(f) =~= s.take(i).map_values(f).push(f(s[i])));
}

impl Persona {
    pub open spec fn detail_spec(self) -> Seq<char> {
        match self {
            Persona::Tom => "Sereno, compacto y directo. Ideal cuando quieres foco y lenguaje profesional."@,
            Persona::Tomy => "Cercano, cálido y alentador. El mismo criterio con una energía más relajada."@,
        }
    }

    pub open spec fn choice_spec(self) -> ChoiceView {
        ChoiceView { id: self.id_spec(), label: self.display_name_spec(), detail: self.detail_spec() }
    }

    #[must_use]
    pub fn detail(self) -> (detail: &'static str)
        ensures
            detail@ == self.detail_spec(),
    {
        match self {
            Persona::Tom => "Sereno, compacto y directo. Ideal cuando quieres foco y lenguaje profesional.",
            Persona::Tomy => "Cercano, cálido y alentador. El mismo criterio con una energía más relajada.",
        }
    }

    #[must_use]
    pub fn as_choice(self) -> (choice: Choice)
        ensures
            choice@ == self.choice_spec(),
    {
        Choice { id: self.stable_id(), label: self.display_name(), detail: self.detail() }
    }
}

impl ProfessionalProfile {
    pub open spec fn label_spec(self) -> Seq<char> {
        match self {
            ProfessionalProfile::Developer => "Desarrollo"@,
            ProfessionalProfile::Office => "Oficina"@,
            ProfessionalProfile::Student => "Estudio"@,
            ProfessionalProfile::Creator => "Creación"@,
            ProfessionalProfile::General => "Uso general"@,
        }
    }

    pub open spec fn detail_spec(self) -> Seq<char> {
        match self {
            ProfessionalProfile::Developer => "Código, Git, terminal y proyectos"@,
            ProfessionalProfile::Office => "Documentos, reuniones y seguimiento"@,
            ProfessionalProfile::Student => "Lecturas, entregas y aprendizaje"@,
            ProfessionalProfile::Creator => "Ideas, contenido y producción"@,
            ProfessionalProfile::General => "Organización diaria sin una profesión dominante"@,
        }
    }

    pub open spec fn choice_spec(self) -> ChoiceView {
        ChoiceView { id: self.id_spec(), label: self.label_spec(), detail: self.detail_spec() }
    }

    #[must_use]
    pub fn label(self) -> (label: &'static str)
        ensures
            label@ == self.label_spec(),
    {
        match self {
            ProfessionalProfile::Developer => "Desarrollo",
            ProfessionalProfile::Office => "Oficina",
            ProfessionalProfile::Student => "Estudio",
            ProfessionalProfile::Creator => "Creación",
            ProfessionalProfile::General => "Uso general",
        }
    }

    #[must_use]
    pub fn detail(self) -> (detail: &'static str)
        ensures
            detail@ == self.detail_spec(),
    {
        match self {
            ProfessionalProfile::Developer => "Código, Git, terminal y proyectos",
            ProfessionalProfile::Office => "Documentos, reuniones y seguimiento",
            ProfessionalProfile::Student => "Lecturas, entregas y aprendizaje",
            ProfessionalProfile::Creator => "Ideas, contenido y producción",
            ProfessionalProfile::General => "Organización diaria sin una profesión dominante",
        }
    }

    #[must_use]
    pub fn as_choice(self) -> (choice: Choice)
        ensures
            choice@ == self.choice_spec(),
    {
        Choice { id: self.stable_id(), label: self.label(), detail: self.detail() }
    }
}

impl AssistanceStyle {
    pub open spec fn label_spec(self) -> Seq<char> {
        match self {
            AssistanceStyle::Focused => "Enfocado"@,
            AssistanceStyle::Balanced => "Equilibrado"@,
            AssistanceStyle::Proactive => "Proactivo"@,
        }
    }

    pub open spec fn detail_spec(self) -> Seq<char> {
        match self {
            AssistanceStyle::Focused => "Sólo responde y recuerda cuando se lo pidas."@,
            AssistanceStyle::Balanced => "Sugiere ayudas cuando el patrón es claro, sin interrumpir."@,
            AssistanceStyle::Proactive => "Busca oportunidades y prepara acciones para que tú las apruebes."@,
        }
    }

    pub open spec fn choice_spec(self) -> ChoiceView {
        ChoiceView { id: self.id_spec(), label: self.label_spec(), detail: self.detail_spec() }
    }

    #[must_use]
    pub fn label(self) -> (label: &'static str)
        ensures
            label@ == self.label_spec(),
    {
        match self {
            AssistanceStyle::Focused => "Enfocado",
            AssistanceStyle::Balanced => "Equilibrado",
            AssistanceStyle::Proactive => "Proactivo",
        }
    }

    #[must_use]
    pub fn detail(self) -> (detail: &'static str)
        ensures
            detail@ == self.detail_spec(),
    {
        match self {
            AssistanceStyle::Focused => "Sólo responde y recuerda cuando se lo pidas.",
            AssistanceStyle::Balanced => "Sugiere ayudas cuando el patrón es claro, sin interrumpir.",
            AssistanceStyle::Proactive => "Busca oportunidades y prepara acciones para que tú las apruebes.",
        }
    }

    #[must_use]
    pub fn as_choice(self) -> (choice: Choice)
        ensures
            choice@ == self.choice_spec(),
    {
        Choice { id: self.stable_id(), label: self.label(), detail: self.detail() }
    }
}

impl AiProvider {
    pub open spec fn label_spec(self) -> Seq<char> {
        match self {
            AiProvider::Disabled => "Sin proveedor"@,
            AiProvider::OpenAi => "OpenAI"@,
            AiProvider::Anthropic => "Anthropic"@,
            AiProvider::Gemini => "Gemini"@,
            AiProvider::CustomCloud => "Cloud compatible"@,
            AiProvider::Ollama => "Ollama"@,
            AiProvider::LmStudio => "LM Studio"@,
            AiProvider::CustomLocal => "Local personalizado"@,
        }
    }

    pub open spec fn detail_spec(self) -> Seq<char> {
        match self {
            AiProvider::Disabled => "Tom funciona sólo con tu memoria local"@,
            AiProvider::OpenAi => "API key propia"@,
            AiProvider::Anthropic => "Modelos de Anthropic con tu clave"@,
            AiProvider::Gemini => "Google AI"@,
            AiProvider::CustomCloud => "Endpoint personalizado"@,
            AiProvider::Ollama => "Local · endpoint automático"@,
            AiProvider::LmStudio => "Servidor local compatible"@,
            AiProvider::CustomLocal => "Endpoint o ruta de modelo"@,
        }
    }

    pub open spec fn endpoint_label_spec(self) -> Seq<char> {
        if self.is_local_spec() {
            "Endpoint local"@
        } else {
            "Endpoint compatible (opcional)"@
        }
    }

    pub open spec fn endpoint_placeholder_spec(self) -> Seq<char> {
        match self {
            AiProvider::Ollama => "http://127.0.0.1:11434"@,
            AiProvider::LmStudio => "http://127.0.0.1:1234/v1"@,
            _ => "https://… o http://127.0.0.1:…"@,
        }
    }

    pub open spec fn choice_spec(self) -> ChoiceView {
        ChoiceView { id: self.id_spec(), label: self.label_spec(), detail: self.detail_spec() }
    }

    #[must_use]
    pub fn label(self) -> (label: &'static str)
        ensures
            label@ == self.label_spec(),
    {
        match self {
            AiProvider::Disabled => "Sin proveedor",
            AiProvider::OpenAi => "OpenAI",
            AiProvider::Anthropic => "Anthropic",
            AiProvider::Gemini => "Gemini",
            AiProvider::CustomCloud => "Cloud compatible",
            AiProvider::Ollama => "Ollama",
            AiProvider::LmStudio => "LM Studio",
            AiProvider::CustomLocal => "Local personalizado",
        }
    }

    #[must_use]
    pub fn detail(self) -> (detail: &'static str)
        ensures
            detail@ == self.detail_spec(),
    {
        match self {
            AiProvider::Disabled => "Tom funciona sólo con tu memoria local",
            AiProvider::OpenAi => "API key propia",
            AiProvider::Anthropic => "Modelos de Anthropic con tu clave",
            AiProvider::Gemini => "Google AI",
            AiProvider::CustomCloud => "Endpoint personalizado",
            AiProvider::Ollama => "Local · endpoint automático",
            AiProvider::LmStudio => "Servidor local compatible",
            AiProvider::CustomLocal => "Endpoint o ruta de modelo",
        }
    }

    /// Label for the endpoint field, which means different things on-device and in the cloud.
    #[must_use]
    pub fn endpoint_label(self) -> (label: &'static str)
        ensures
            label@ == self.endpoint_label_spec(),
    {
        if self.is_local() {
            "Endpoint local"
        } else {
            "Endpoint compatible (opcional)"
        }
    }

    #[must_use]
    pub fn endpoint_placeholder(self) -> (placeholder: &'static str)
        ensures
            placeholder@ == self.endpoint_placeholder_spec(),
    {
        match self {
            AiProvider::Ollama => "http://127.0.0.1:11434",
            AiProvider::LmStudio => "http://127.0.0.1:1234/v1",
            _ => "https://… o http://127.0.0.1:…",
        }
    }

    #[must_use]
    pub fn as_choice(self) -> (choice: Choice)
        ensures
            choice@ == self.choice_spec(),
    {
        Choice { id: self.stable_id(), label: self.label(), detail: self.detail() }
    }
}

/// The endpoint field reads "Endpoint local" exactly for the providers on this machine.
pub proof fn lemma_endpoint_label_marks_local_providers(provider: AiProvider)
    ensures
        (provider.endpoint_label_spec() == "Endpoint local"@) == provider.is_local_spec(),
{
    reveal_strlit("Endpoint local");
    reveal_strlit("Endpoint compatible (opcional)");
    assert("Endpoint local"@.len() == 14);
    assert("Endpoint compatible (opcional)"@.len() == 30);
}

/// Providers the key manager can hold a credential for, in the order of [`AiProvider::ALL`].
pub open spec fn api_key_providers_spec() -> Seq<AiProvider> {
    AiProvider::all_spec().filter(|provider: AiProvider| provider.accepts_api_key_spec())
}

/// Providers of one kind, in the order of [`AiProvider::ALL`], as choices.
pub open spec fn provider_choices_spec(local: bool) -> Seq<ChoiceView> {
    AiProvider::all_spec().filter(|provider: AiProvider| provider.is_kind_spec(local)).map_values(
        |provider: AiProvider| provider.choice_spec(),
    )
}

impl AiProvider {
    pub open spec fn accepts_api_key_spec(self) -> bool {
        self != AiProvider::Disabled
    }

    /// Whether the provider is on this machine (`local`) or in the cloud (`!local`).
    pub open spec fn is_kind_spec(self, local: bool) -> bool {
        if local {
            self.is_local_spec()
        } else {
            self.is_cloud_spec()
        }
    }
}

/// Providers the key manager can hold a credential for, in the order it lists them.
#[must_use]
pub fn api_key_providers() -> (providers: Vec<AiProvider>)
    ensures
        providers@ == api_key_providers_spec(),
{
    let all = AiProvider::ALL;
    let ghost pred = |provider: AiProvider| provider.accepts_api_key_spec();
    let mut providers: Vec<AiProvider> = Vec::new();
    let mut i: usize = 0;
    while i < 8
        invariant
            i <= 8,
            all@ == AiProvider::all_spec(),
            pred == (|provider: AiProvider| provider.accepts_api_key_spec()),
            providers@ == AiProvider::all_spec().take(i as int).filter(pred),
        decreases 8 - i,
    {
        let provider = all[i];
        proof {
            assert(AiProvider::all_spec().take(i + 1) =~= AiProvider::all_spec().take(
                i as int,
            ).push(provider));
            lemma_filter_push(AiProvider::all_spec().take(i as int), provider, pred);
        }
        if provider.accepts_api_key() {
            providers.push(provider);
        }
        i = i + 1;
    }
    assert(AiProvider::all_spec().take(8) =~= AiProvider::all_spec());
    providers
}

fn provider_choices(local: bool) -> (choices: Vec<Choice>)
    ensures
        choice_views(choices@) == provider_choices_spec(local),
{
    let all = AiProvider::ALL;
    let ghost pred = |provider: AiProvider| provider.is_kind_spec(local);
    let ghost to_view = |provider: AiProvider| provider.choice_spec();
    let mut choices: Vec<Choice> = Vec::new();
    let mut i: usize = 0;
    while i < 8
        invariant
            i <= 8,
            all@ == AiProvider::all_spec(),
            pred == (|provider: AiProvider| provider.is_kind_spec(local)),
            to_view == (|provider: AiProvider| provider.choice_spec()),
            choice_views(choices@) == AiProvider::all_spec().take(i as int).filter(
                pred,
            ).map_values(to_view),
        decreases 8 - i,
    {
        let provider = all[i];
        let ghost before = choices@;
        proof {
            assert(AiProvider::all_spec().take(i + 1) =~= AiProvider::all_spec().take(
                i as int,
            ).push(provider));
            lemma_filter_push(AiProvider::all_spec().take(i as int), provider, pred);
        }
        let wanted = if local {
            provider.is_local()
        } else {
            provider.is_cloud()
        };
        if wanted {
            let choice = provider.as_choice();
            choices.push(choice);
            proof {
                assert(choice_views(choices@) =~= choice_views(before).push(choice@));
                let prefix = AiProvider::all_spec().take(i as int).filter(pred);
                assert(prefix.push(provider).map_values(to_view) =~= prefix.map_values(
                    to_view,
                ).push(to_view(provider)));
            }
        }
        i = i + 1;
    }
    assert(AiProvider::all_spec().take(8) =~= AiProvider::all_spec());
    choices
}

/// Providers offered under the "cloud" heading of the settings panel.
#[must_use]
pub fn cloud_provider_choices() -> (choices: Vec<Choice>)
    ensures
        choice_views(choices@) == provider_choices_spec(false),
{
    provider_choices(false)
}

/// Providers offered under the "local" heading of the settings panel.
#[must_use]
pub fn local_provider_choices() -> (choices: Vec<Choice>)
    ensures
        choice_views(choices@) == provider_choices_spec(true),
{
    provider_choices(true)
}


/// How the user wants to connect intelligence when leaving onboarding.
#[derive(Clone, Copy, Debug, PartialEq, Eq, Structural)]
pub enum AiSetup {
    Later,
    Cloud,
    Local,
}

impl AiSetup {
    pub const ALL: [AiSetup; 3] = [AiSetup::Later, AiSetup::Cloud, AiSetup::Local];

    pub open spec fn all_spec() -> Seq<AiSetup> {
        seq![AiSetup::Later, AiSetup::Cloud, AiSetup::Local]
    }

    pub open spec fn id_spec(self) -> Seq<char> {
        match self {
            AiSetup::Later => "later"@,
            AiSetup::Cloud => "cloud"@,
            AiSetup::Local => "local"@,
        }
    }

    pub open spec fn from_id_spec(id: Seq<char>) -> Option<AiSetup> {
        if id == "later"@ {
            Some(AiSetup::Later)
        } else if id == "cloud"@ {
            Some(AiSetup::Cloud)
        } else if id == "local"@ {
            Some(AiSetup::Local)
        } else {
            None
        }
    }

    pub open spec fn label_spec(self) -> Seq<char> {
        match self {
            AiSetup::Later => "Configurar después"@,
            AiSetup::Cloud => "Proveedor cloud"@,
            AiSetup::Local => "Modelo local"@,
        }
    }

    pub open spec fn detail_spec(self) -> Seq<char> {
        match self {
            AiSetup::Later => "Entra a Tom sin proveedor; memoria y notas siguen disponibles."@,
            AiSetup::Cloud => "OpenAI, Anthropic, Gemini o endpoint compatible con tu API key."@,
            AiSetup::Local => "Ollama, LM Studio o un endpoint/modelo propio en este PC."@,
        }
    }

    pub open spec fn preselected_spec(self) -> AiProvider {
        match self {
            AiSetup::Later => AiProvider::Disabled,
            AiSetup::Cloud => AiProvider::OpenAi,
            AiSetup::Local => AiProvider::Ollama,
        }
    }

    pub open spec fn choice_spec(self) -> ChoiceView {
        ChoiceView { id: self.id_spec(), label: self.label_spec(), detail: self.detail_spec() }
    }

    #[must_use]
    pub fn stable_id(self) -> (id: &'static str)
        ensures
            id@ == self.id_spec(),
    {
        match self {
            AiSetup::Later => "later",
            AiSetup::Cloud => "cloud",
            AiSetup::Local => "local",
        }
    }

    #[must_use]
    pub fn from_stable_id(value: &str) -> (setup: Option<AiSetup>)
        ensures
            setup == AiSetup::from_id_spec(value@),
    {
        if str_equal(value, "later") {
            Some(AiSetup::Later)
        } else if str_equal(value, "cloud") {
            Some(AiSetup::Cloud)
        } else if str_equal(value, "local") {
            Some(AiSetup::Local)
        } else {
            None
        }
    }

    #[must_use]
    pub fn label(self) -> (label: &'static str)
        ensures
            label@ == self.label_spec(),
    {
        match self {
            AiSetup::Later => "Configurar después",
            AiSetup::Cloud => "Proveedor cloud",
            AiSetup::Local => "Modelo local",
        }
    }

    #[must_use]
    pub fn detail(self) -> (detail: &'static str)
        ensures
            detail@ == self.detail_spec(),
    {
        match self {
            AiSetup::Later => "Entra a Tom sin proveedor; memoria y notas siguen disponibles.",
            AiSetup::Cloud => "OpenAI, Anthropic, Gemini o endpoint compatible con tu API key.",
            AiSetup::Local => "Ollama, LM Studio o un endpoint/modelo propio en este PC.",
        }
    }

    /// The provider the settings panel should pre-select once onboarding ends.
    ///
    /// [`AiSetup::Later`] resolves to [`AiProvider::Disabled`], which is also the signal the
    /// desktop shell uses to decide whether the panel opens at all.
    #[must_use]
    pub fn preselected_provider(self) -> (provider: AiProvider)
        ensures
            provider == self.preselected_spec(),
    {
        match self {
            AiSetup::Later => AiProvider::Disabled,
            AiSetup::Cloud => AiProvider::OpenAi,
            AiSetup::Local => AiProvider::Ollama,
        }
    }

    #[must_use]
    pub fn as_choice(self) -> (choice: Choice)
        ensures
            choice@ == self.choice_spec(),
    {
        Choice { id: self.stable_id(), label: self.label(), detail: self.detail() }
    }
}

impl Default for AiSetup {
    fn default() -> (setup: AiSetup)
        ensures
            setup == AiSetup::Later,
    {
        AiSetup::Later
    }
}

/// Every setup's id parses back into that setup, and an id parses only into the setup that
/// carries it.
pub proof fn lemma_ai_setup_ids_round_trip(setup: AiSetup, id: Seq<char>)
    ensures
        AiSetup::from_id_spec(setup.id_spec()) == Some(setup),
        AiSetup::from_id_spec(id) == Some(setup) ==> setup.id_spec() == id,
{
    reveal_strlit("later");
    reveal_strlit("cloud");
    reveal_strlit("local");
    assert("later"@[1] != "cloud"@[1]);
    assert("later"@[1] != "local"@[1]);
    assert("cloud"@[1] != "local"@[1]);
}

/// Leaving onboarding for later preselects no provider; choosing the cloud or this machine
/// preselects a provider of that kind.
pub proof fn lemma_ai_setup_preselects_matching_kind()
    ensures
        AiSetup::Later.preselected_spec() == AiProvider::Disabled,
        AiSetup::Cloud.preselected_spec().is_cloud_spec(),
        AiSetup::Local.preselected_spec().is_local_spec(),
{
}

/// The five questions Tom asks before opening the workspace.
#[derive(Clone, Copy, Debug, PartialEq, Eq, Structural)]
pub enum OnboardingStep {
    Welcome,
    PersonaChoice,
    ProfessionChoice,
    AssistanceChoice,
    IntelligenceChoice,
}

impl OnboardingStep {
    pub const ALL: [OnboardingStep; 5] = [
        OnboardingStep::Welcome,
        OnboardingStep::PersonaChoice,
        OnboardingStep::ProfessionChoice,
        OnboardingStep::AssistanceChoice,
        OnboardingStep::IntelligenceChoice,
    ];

    /// The last step, whose primary button finishes onboarding instead of advancing.
    pub const LAST: OnboardingStep = OnboardingStep::IntelligenceChoice;

    pub open spec fn all_spec() -> Seq<OnboardingStep> {
        seq![
            OnboardingStep::Welcome,
            OnboardingStep::PersonaChoice,
            OnboardingStep::ProfessionChoice,
            OnboardingStep::AssistanceChoice,
            OnboardingStep::IntelligenceChoice,
        ]
    }

    /// Position of the step in [`OnboardingStep::ALL`].
    pub open spec fn index_spec(self) -> nat {
        match self {
            OnboardingStep::Welcome => 0,
            OnboardingStep::PersonaChoice => 1,
            OnboardingStep::ProfessionChoice => 2,
            OnboardingStep::AssistanceChoice => 3,
            OnboardingStep::IntelligenceChoice => 4,
        }
    }

    /// The step at position `index`, if there is one.
    pub open spec fn from_index_spec(index: int) -> Option<OnboardingStep> {
        if 0 <= index < 5 {
            Some(OnboardingStep::all_spec()[index])
        } else {
            None
        }
    }

    pub open spec fn next_spec(self) -> Option<OnboardingStep> {
        OnboardingStep::from_index_spec(self.index_spec() + 1int)
    }

    pub open spec fn previous_spec(self) -> Option<OnboardingStep> {
        if self.index_spec() == 0 {
            None
        } else {
            OnboardingStep::from_index_spec(self.index_spec() - 1)
        }
    }

    pub open spec fn rail_label_spec(self) -> Seq<char> {
        match self {
            OnboardingStep::Welcome => "Hola"@,
            OnboardingStep::PersonaChoice => "Personalidad"@,
            OnboardingStep::ProfessionChoice => "Tu mundo"@,
            OnboardingStep::AssistanceChoice => "Iniciativa"@,
            OnboardingStep::IntelligenceChoice => "Inteligencia"@,
        }
    }

    pub open spec fn headline_spec(self) -> Seq<char> {
        match self {
            OnboardingStep::Welcome => "Hola. Soy Tom."@,
            OnboardingStep::PersonaChoice => "¿Cómo quieres que hable contigo?"@,
            OnboardingStep::ProfessionChoice => "¿En qué mundo trabajaremos juntos?"@,
            OnboardingStep::AssistanceChoice => "¿Cuánta iniciativa quieres de mí?"@,
            OnboardingStep::IntelligenceChoice => "¿Qué inteligencia quieres conectar?"@,
        }
    }

    pub open spec fn body_spec(self) -> Seq<char> {
        match self {
            OnboardingStep::Welcome => "Antes de mostrarte paneles, quiero entender cómo acompañarte. Son cuatro decisiones cortas y podrás cambiarlas después."@,
            OnboardingStep::PersonaChoice => "Tom es más preciso y profesional. Tomy conserva el mismo criterio, con una voz más cercana y chill."@,
            OnboardingStep::ProfessionChoice => "Esto activa vocabulario, rutinas y sugerencias específicas para tu actividad principal."@,
            OnboardingStep::AssistanceChoice => "Nunca ejecutaré acciones sensibles sin aprobación, sin importar el nivel elegido."@,
            OnboardingStep::IntelligenceChoice => "La clave de nube vivirá en Windows Credential Manager. Los modelos locales pueden funcionar sin enviar contenido fuera del PC."@,
        }
    }

    pub open spec fn orb_caption_spec(self) -> Seq<char> {
        match self {
            OnboardingStep::Welcome => "Una presencia tranquila para tu escritorio."@,
            OnboardingStep::PersonaChoice => "Mi voz se adapta; tus controles no cambian."@,
            OnboardingStep::ProfessionChoice => "Aprenderé el contexto de tu trabajo."@,
            OnboardingStep::AssistanceChoice => "Tú decides cuánto puedo anticiparme."@,
            OnboardingStep::IntelligenceChoice => "Puedes conectar una IA ahora o después."@,
        }
    }

    pub open spec fn orb_state_id_spec(self) -> Option<Seq<char>> {
        match self {
            OnboardingStep::Welcome => Some("curious"@),
            OnboardingStep::IntelligenceChoice => Some("thinking"@),
            _ => None,
        }
    }

    pub open spec fn primary_label_spec(self) -> Seq<char> {
        match self {
            OnboardingStep::Welcome => "Conocernos"@,
            OnboardingStep::IntelligenceChoice => "Terminar"@,
            _ => "Continuar"@,
        }
    }

    /// The options the step asks the user to pick from.
    pub open spec fn choices_spec(self) -> Seq<ChoiceView> {
        match self {
            OnboardingStep::Welcome => Seq::empty(),
            OnboardingStep::PersonaChoice => Persona::all_spec().map_values(
                |persona: Persona| persona.choice_spec(),
            ),
            OnboardingStep::ProfessionChoice => ProfessionalProfile::all_spec().map_values(
                |profile: ProfessionalProfile| profile.choice_spec(),
            ),
            OnboardingStep::AssistanceChoice => AssistanceStyle::all_spec().map_values(
                |style: AssistanceStyle| style.choice_spec(),
            ),
            OnboardingStep::IntelligenceChoice => AiSetup::all_spec().map_values(
                |setup: AiSetup| setup.choice_spec(),
            ),
        }
    }

    #[must_use]
    pub fn from_index(index: usize) -> (step: Option<OnboardingStep>)
        ensures
            step == OnboardingStep::from_index_spec(index as int),
    {
        let all = OnboardingStep::ALL;
        if index < 5 {
            Some(all[index])
        } else {
            None
        }
    }

    #[must_use]
    pub fn index(self) -> (index: usize)
        ensures
            index == self.index_spec(),
    {
        let all = OnboardingStep::ALL;
        let mut i: usize = 0;
        while i < 5
            invariant
                i <= 5,
                all@ == OnboardingStep::all_spec(),
                forall|j: int| 0 <= j < i ==> all@[j] != self,
            decreases 5 - i,
        {
            if all[i] == self {
                return i;
            }
            i = i + 1;
        }
        0
    }

    /// The step after this one, or `None` when there is nothing left to ask.
    #[must_use]
    pub fn next(self) -> (step: Option<OnboardingStep>)
        ensures
            step == self.next_spec(),
    {
        OnboardingStep::from_index(self.index() + 1)
    }

    /// The step before this one, or `None` on the first question.
    #[must_use]
    pub fn previous(self) -> (step: Option<OnboardingStep>)
        ensures
            step == self.previous_spec(),
    {
        match self.index().checked_sub(1) {
            Some(index) => OnboardingStep::from_index(index),
            None => None,
        }
    }

    /// Short name shown in the onboarding progress rail.
    #[must_use]
    pub fn rail_label(self) -> (label: &'static str)
        ensures
            label@ == self.rail_label_spec(),
    {
        match self {
            OnboardingStep::Welcome => "Hola",
            OnboardingStep::PersonaChoice => "Personalidad",
            OnboardingStep::ProfessionChoice => "Tu mundo",
            OnboardingStep::AssistanceChoice => "Iniciativa",
            OnboardingStep::IntelligenceChoice => "Inteligencia",
        }
    }

    #[must_use]
    pub fn headline(self) -> (headline: &'static str)
        ensures
            headline@ == self.headline_spec(),
    {
        match self {
            OnboardingStep::Welcome => "Hola. Soy Tom.",
            OnboardingStep::PersonaChoice => "¿Cómo quieres que hable contigo?",
            OnboardingStep::ProfessionChoice => "¿En qué mundo trabajaremos juntos?",
            OnboardingStep::AssistanceChoice => "¿Cuánta iniciativa quieres de mí?",
            OnboardingStep::IntelligenceChoice => "¿Qué inteligencia quieres conectar?",
        }
    }

    #[must_use]
    pub fn body(self) -> (body: &'static str)
        ensures
            body@ == self.body_spec(),
    {
        match self {
            OnboardingStep::Welcome => "Antes de mostrarte paneles, quiero entender cómo acompañarte. Son cuatro decisiones cortas y podrás cambiarlas después.",
            OnboardingStep::PersonaChoice => "Tom es más preciso y profesional. Tomy conserva el mismo criterio, con una voz más cercana y chill.",
            OnboardingStep::ProfessionChoice => "Esto activa vocabulario, rutinas y sugerencias específicas para tu actividad principal.",
            OnboardingStep::AssistanceChoice => "Nunca ejecutaré acciones sensibles sin aprobación, sin importar el nivel elegido.",
            OnboardingStep::IntelligenceChoice => "La clave de nube vivirá en Windows Credential Manager. Los modelos locales pueden funcionar sin enviar contenido fuera del PC.",
        }
    }

    /// One line under the orb, spoken in the assistant's own voice.
    #[must_use]
    pub fn orb_caption(self) -> (caption: &'static str)
        ensures
            caption@ == self.orb_caption_spec(),
    {
        match self {
            OnboardingStep::Welcome => "Una presencia tranquila para tu escritorio.",
            OnboardingStep::PersonaChoice => "Mi voz se adapta; tus controles no cambian.",
            OnboardingStep::ProfessionChoice => "Aprenderé el contexto de tu trabajo.",
            OnboardingStep::AssistanceChoice => "Tú decides cuánto puedo anticiparme.",
            OnboardingStep::IntelligenceChoice => "Puedes conectar una IA ahora o después.",
        }
    }

    /// Orb state this step should force, or `None` to keep whatever the assistant is showing.
    ///
    /// The returned id is always one of the orb's stable state ids.
    #[must_use]
    pub fn orb_state_id(self) -> (id: Option<&'static str>)
        ensures
            match id {
                Some(id) => self.orb_state_id_spec() == Some(id@),
                None => self.orb_state_id_spec() is None,
            },
    {
        match self {
            OnboardingStep::Welcome => Some("curious"),
            OnboardingStep::IntelligenceChoice => Some("thinking"),
            _ => None,
        }
    }

    #[must_use]
    pub fn primary_label(self) -> (label: &'static str)
        ensures
            label@ == self.primary_label_spec(),
    {
        match self {
            OnboardingStep::Welcome => "Conocernos",
            OnboardingStep::IntelligenceChoice => "Terminar",
            _ => "Continuar",
        }
    }

    /// The options this step asks the user to pick from; empty on the welcome step.
    #[must_use]
    pub fn choices(self) -> (choices: Vec<Choice>)
        ensures
            choice_views(choices@) == self.choices_spec(),
    {
        let mut choices: Vec<Choice> = Vec::new();
        match self {
            OnboardingStep::Welcome => {},
            OnboardingStep::PersonaChoice => {
                let all = Persona::ALL;
                let mut i: usize = 0;
                while i < 2
                    invariant
                        i <= 2,
                        all@ == Persona::all_spec(),
                        choice_views(choices@) == Persona::all_spec().take(i as int).map_values(
                            |persona: Persona| persona.choice_spec(),
                        ),
                    decreases 2 - i,
                {
                    let choice = all[i].as_choice();
                    let ghost before = choices@;
                    choices.push(choice);
                    proof {
                        lemma_choice_views_push(before, choice);
                        lemma_map_take_succ(Persona::all_spec(), i as int, |persona: Persona| persona.choice_spec());
                    }
                    i = i + 1;
                }
                assert(Persona::all_spec().take(2) =~= Persona::all_spec());
            },
            OnboardingStep::ProfessionChoice => {
                let all = ProfessionalProfile::ALL;
                let mut i: usize = 0;
                while i < 5
                    invariant
                        i <= 5,
                        all@ == ProfessionalProfile::all_spec(),
                        choice_views(choices@) == ProfessionalProfile::all_spec().take(
                            i as int,
                        ).map_values(|profile: ProfessionalProfile| profile.choice_spec()),
                    decreases 5 - i,
                {
                    let choice = all[i].as_choice();
                    let ghost before = choices@;
                    choices.push(choice);
                    proof {
                        lemma_choice_views_push(before, choice);
                        lemma_map_take_succ(ProfessionalProfile::all_spec(), i as int, |profile: ProfessionalProfile| profile.choice_spec());
                    }
                    i = i + 1;
                }
                assert(ProfessionalProfile::all_spec().take(5) =~= ProfessionalProfile::all_spec());
            },
            OnboardingStep::AssistanceChoice => {
                let all = AssistanceStyle::ALL;
                let mut i: usize = 0;
                while i < 3
                    invariant
                        i <= 3,
                        all@ == AssistanceStyle::all_spec(),
                        choice_views(choices@) == AssistanceStyle::all_spec().take(
                            i as int,
                        ).map_values(|style: AssistanceStyle| style.choice_spec()),
                    decreases 3 - i,
                {
                    let choice = all[i].as_choice();
                    let ghost before = choices@;
                    choices.push(choice);
                    proof {
                        lemma_choice_views_push(before, choice);
                        lemma_map_take_succ(AssistanceStyle::all_spec(), i as int, |style: AssistanceStyle| style.choice_spec());
                    }
                    i = i + 1;
                }
                assert(AssistanceStyle::all_spec().take(3) =~= AssistanceStyle::all_spec());
            },
            OnboardingStep::IntelligenceChoice => {
                let all = AiSetup::ALL;
                let mut i: usize = 0;
                while i < 3
                    invariant
                        i <= 3,
                        all@ == AiSetup::all_spec(),
                        choice_views(choices@) == AiSetup::all_spec().take(i as int).map_values(
                            |setup: AiSetup| setup.choice_spec(),
                        ),
                    decreases 3 - i,
                {
                    let choice = all[i].as_choice();
                    let ghost before = choices@;
                    choices.push(choice);
                    proof {
                        lemma_choice_views_push(before, choice);
                        lemma_map_take_succ(AiSetup::all_spec(), i as int, |setup: AiSetup| setup.choice_spec());
                    }
                    i = i + 1;
                }
                assert(AiSetup::all_spec().take(3) =~= AiSetup::all_spec());
            },
        }
        choices
    }
}

impl Default for OnboardingStep {
    fn default() -> (step: OnboardingStep)
        ensures
            step == OnboardingStep::Welcome,
    {
        OnboardingStep::Welcome
    }
}


/// The promises shown on the welcome step, in the order they are numbered.
pub open spec fn welcome_highlights_spec() -> Seq<Seq<char>> {
    seq![
        "Memoria visible y editable"@,
        "Rutinas explicadas antes de actuar"@,
        "IA local o cloud elegida por ti"@,
        "Un orbe discreto cuando no necesites el panel"@,
    ]
}

/// The promises shown on the welcome step, numbered in the interface.
#[must_use]
pub fn welcome_highlights() -> (highlights: [&'static str; 4])
    ensures
        highlights@.map_values(|highlight: &'static str| highlight@) == welcome_highlights_spec(),
{
    let highlights = [
        "Memoria visible y editable",
        "Rutinas explicadas antes de actuar",
        "IA local o cloud elegida por ti",
        "Un orbe discreto cuando no necesites el panel",
    ];
    assert(highlights@.map_values(|highlight: &'static str| highlight@)
        =~= welcome_highlights_spec());
    highlights
}

/// The welcome promises are non-empty and pairwise distinct.
pub proof fn lemma_welcome_highlights_are_distinct()
    ensures
        forall|i: int|
            0 <= i < 4 ==> #[trigger] welcome_highlights_spec()[i].len() > 0,
        forall|i: int, j: int|
            0 <= i < j < 4 ==> welcome_highlights_spec()[i] != welcome_highlights_spec()[j],
{
    reveal_strlit("Memoria visible y editable");
    reveal_strlit("Rutinas explicadas antes de actuar");
    reveal_strlit("IA local o cloud elegida por ti");
    reveal_strlit("Un orbe discreto cuando no necesites el panel");
    assert("Memoria visible y editable"@.len() == 26);
    assert("Rutinas explicadas antes de actuar"@.len() == 34);
    assert("IA local o cloud elegida por ti"@.len() == 31);
    assert("Un orbe discreto cuando no necesites el panel"@.len() == 45);
}

/// How a pulse entry is colored: what was seen, what was inferred, what is proposed.
#[derive(Clone, Copy, Debug, PartialEq, Eq, Structural)]
pub enum PulseTone {
    Observed,
    Inferred,
    Proposed,
}

impl PulseTone {
    pub open spec fn id_spec(self) -> Seq<char> {
        match self {
            PulseTone::Observed => "observed"@,
            PulseTone::Inferred => "inferred"@,
            PulseTone::Proposed => "proposed"@,
        }
    }

    pub open spec fn stage_label_spec(self) -> Seq<char> {
        match self {
            PulseTone::Observed => "Observado"@,
            PulseTone::Inferred => "Inferido"@,
            PulseTone::Proposed => "Propuesto"@,
        }
    }

    #[must_use]
    pub fn stable_id(self) -> (id: &'static str)
        ensures
            id@ == self.id_spec(),
    {
        match self {
            PulseTone::Observed => "observed",
            PulseTone::Inferred => "inferred",
            PulseTone::Proposed => "proposed",
        }
    }

    #[must_use]
    pub fn stage_label(self) -> (label: &'static str)
        ensures
            label@ == self.stage_label_spec(),
    {
        match self {
            PulseTone::Observed => "Observado",
            PulseTone::Inferred => "Inferido",
            PulseTone::Proposed => "Propuesto",
        }
    }
}

/// One rung of the explainability ladder shown in Today and Routines.
#[derive(Clone, Copy, Debug, PartialEq, Eq)]
pub struct PulseEntry {
    pub tone: PulseTone,
    pub title: &'static str,
    pub detail: &'static str,
    pub time: &'static str,
}

/// What a [`PulseEntry`] says.
pub ghost struct PulseEntryView {
    pub tone: PulseTone,
    pub title: Seq<char>,
    pub detail: Seq<char>,
    pub time: Seq<char>,
}

impl View for PulseEntry {
    type V = PulseEntryView;

    open spec fn view(&self) -> PulseEntryView {
        PulseEntryView { tone: self.tone, title: self.title@, detail: self.detail@, time: self.time@ }
    }
}

/// The timeline that separates observation from inference from proposal.
pub open spec fn pulse_timeline_spec() -> Seq<PulseEntryView> {
    seq![
        PulseEntryView {
            tone: PulseTone::Observed,
            title: "Volviste al workspace de Tom"@,
            detail: "Sesión local detectada; no se leyó contenido privado."@,
            time: "ahora"@,
        },
        PulseEntryView {
            tone: PulseTone::Inferred,
            title: "Estás retomando contexto"@,
            detail: "Este patrón suele aparecer al comenzar un bloque de desarrollo."@,
            time: "+2 s"@,
        },
        PulseEntryView {
            tone: PulseTone::Proposed,
            title: "Preparar el último hilo"@,
            detail: "La acción espera tu aprobación y puede descartarse."@,
            time: "lista"@,
        },
    ]
}

/// The timeline that separates observation from inference from proposal.
///
/// Both surfaces that show a pulse render this same list, so the explanation a user reads in
/// Today is word for word the one they read in Routines.
#[must_use]
pub fn pulse_timeline() -> (timeline: [PulseEntry; 3])
    ensures
        timeline@.map_values(|entry: PulseEntry| entry@) == pulse_timeline_spec(),
{
    let timeline = [
        PulseEntry {
            tone: PulseTone::Observed,
            title: "Volviste al workspace de Tom",
            detail: "Sesión local detectada; no se leyó contenido privado.",
            time: "ahora",
        },
        PulseEntry {
            tone: PulseTone::Inferred,
            title: "Estás retomando contexto",
            detail: "Este patrón suele aparecer al comenzar un bloque de desarrollo.",
            time: "+2 s",
        },
        PulseEntry {
            tone: PulseTone::Proposed,
            title: "Preparar el último hilo",
            detail: "La acción espera tu aprobación y puede descartarse.",
            time: "lista",
        },
    ];
    assert(timeline@.map_values(|entry: PulseEntry| entry@) =~= pulse_timeline_spec());
    timeline
}

/// The pulse walks from observation to inference to proposal, one rung each.
pub proof fn lemma_pulse_walks_from_observation_to_proposal()
    ensures
        pulse_timeline_spec().len() == 3,
        pulse_timeline_spec()[0].tone == PulseTone::Observed,
        pulse_timeline_spec()[1].tone == PulseTone::Inferred,
        pulse_timeline_spec()[2].tone == PulseTone::Proposed,
{
}

/// Walking the onboarding ladder: positions and steps correspond one to one, only the last
/// step has no next one, only the first has no previous one, and a step forward followed by
/// a step back returns to where it started.
pub proof fn lemma_onboarding_ladder(step: OnboardingStep, index: int)
    ensures
        step.index_spec() < 5,
        OnboardingStep::from_index_spec(step.index_spec() as int) == Some(step),
        OnboardingStep::all_spec()[step.index_spec() as int] == step,
        OnboardingStep::from_index_spec(index) is None <==> !(0 <= index < 5),
        (OnboardingStep::from_index_spec(index) == Some(step)) ==> index == step.index_spec(),
        step.next_spec() is None <==> step == OnboardingStep::IntelligenceChoice,
        step.previous_spec() is None <==> step == OnboardingStep::Welcome,
        step.next_spec() matches Some(after) ==> after.previous_spec() == Some(step),
        step.previous_spec() matches Some(before) ==> before.next_spec() == Some(step),
{
}

/// Every id an onboarding step offers parses back into a value of the domain it asks about.
pub proof fn lemma_onboarding_choice_ids_parse(step: OnboardingStep, i: int)
    requires
        0 <= i < step.choices_spec().len(),
    ensures
        step == OnboardingStep::PersonaChoice ==> Persona::from_id_spec(
            step.choices_spec()[i].id,
        ) == Some(Persona::all_spec()[i]),
        step == OnboardingStep::ProfessionChoice ==> ProfessionalProfile::from_id_spec(
            step.choices_spec()[i].id,
        ) == Some(ProfessionalProfile::all_spec()[i]),
        step == OnboardingStep::AssistanceChoice ==> AssistanceStyle::from_id_spec(
            step.choices_spec()[i].id,
        ) == Some(AssistanceStyle::all_spec()[i]),
        step == OnboardingStep::IntelligenceChoice ==> AiSetup::from_id_spec(
            step.choices_spec()[i].id,
        ) == Some(AiSetup::all_spec()[i]),
        step != OnboardingStep::Welcome,
{
    match step {
        OnboardingStep::Welcome => {},
        OnboardingStep::PersonaChoice => {
            crate::model::lemma_persona_ids_round_trip(Persona::all_spec()[i], Seq::empty());
        },
        OnboardingStep::ProfessionChoice => {
            crate::model::lemma_professional_profile_ids_round_trip(
                ProfessionalProfile::all_spec()[i],
                Seq::empty(),
            );
        },
        OnboardingStep::AssistanceChoice => {
            crate::model::lemma_assistance_style_ids_round_trip(
                AssistanceStyle::all_spec()[i],
                Seq::empty(),
            );
        },
        OnboardingStep::IntelligenceChoice => {
            lemma_ai_setup_ids_round_trip(AiSetup::all_spec()[i], Seq::empty());
        },
    }
}

/// The cloud and local headings split every provider but the disabled one between them:
/// each offered id parses to a provider of exactly that kind, and nothing is offered twice.
pub proof fn lemma_provider_groups_partition()
    ensures
        provider_choices_spec(false).len() + provider_choices_spec(true).len() + 1
            == AiProvider::all_spec().len(),
        provider_choices_spec(false) == seq![
            AiProvider::OpenAi.choice_spec(),
            AiProvider::Anthropic.choice_spec(),
            AiProvider::Gemini.choice_spec(),
            AiProvider::CustomCloud.choice_spec(),
        ],
        provider_choices_spec(true) == seq![
            AiProvider::Ollama.choice_spec(),
            AiProvider::LmStudio.choice_spec(),
            AiProvider::CustomLocal.choice_spec(),
        ],
        forall|i: int|
            0 <= i < provider_choices_spec(false).len() ==> ((#[trigger] AiProvider::from_id_spec(
                provider_choices_spec(false)[i].id,
            )) matches Some(provider) && provider.is_cloud_spec() && !provider.is_local_spec()),
        forall|i: int|
            0 <= i < provider_choices_spec(true).len() ==> ((#[trigger] AiProvider::from_id_spec(
                provider_choices_spec(true)[i].id,
            )) matches Some(provider) && provider.is_local_spec() && !provider.is_cloud_spec()),
{
    reveal_with_fuel(Seq::filter, 9);
    let cloud = AiProvider::all_spec().filter(|provider: AiProvider| provider.is_kind_spec(false));
    let local = AiProvider::all_spec().filter(|provider: AiProvider| provider.is_kind_spec(true));
    assert(cloud =~= seq![
        AiProvider::OpenAi,
        AiProvider::Anthropic,
        AiProvider::Gemini,
        AiProvider::CustomCloud,
    ]);
    assert(local =~= seq![AiProvider::Ollama, AiProvider::LmStudio, AiProvider::CustomLocal]);
    assert(provider_choices_spec(false) =~= seq![
        AiProvider::OpenAi.choice_spec(),
        AiProvider::Anthropic.choice_spec(),
        AiProvider::Gemini.choice_spec(),
        AiProvider::CustomCloud.choice_spec(),
    ]);
    assert(provider_choices_spec(true) =~= seq![
        AiProvider::Ollama.choice_spec(),
        AiProvider::LmStudio.choice_spec(),
        AiProvider::CustomLocal.choice_spec(),
    ]);
    assert forall|i: int| 0 <= i < cloud.len() implies (#[trigger] AiProvider::from_id_spec(
        provider_choices_spec(false)[i].id,
    )) == Some(cloud[i]) by {
        crate::model::lemma_ai_provider_ids_round_trip(cloud[i], Seq::empty());
    }
    assert forall|i: int| 0 <= i < local.len() implies (#[trigger] AiProvider::from_id_spec(
        provider_choices_spec(true)[i].id,
    )) == Some(local[i]) by {
        crate::model::lemma_ai_provider_ids_round_trip(local[i], Seq::empty());
    }
}

/// The key manager lists every provider except the disabled one, each of which accepts a
/// key.
pub proof fn lemma_key_manager_lists_every_enabled_provider()
    ensures
        api_key_providers_spec().len() == AiProvider::all_spec().len() - 1,
        !api_key_providers_spec().contains(AiProvider::Disabled),
        forall|i: int|
            0 <= i < api_key_providers_spec().len() ==> (#[trigger] api_key_providers_spec()[i]).accepts_api_key_spec(),
        forall|provider: AiProvider|
            provider != AiProvider::Disabled ==> api_key_providers_spec().contains(provider),
{
    reveal_with_fuel(Seq::filter, 9);
    let listed = seq![
        AiProvider::OpenAi,
        AiProvider::Anthropic,
        AiProvider::Gemini,
        AiProvider::CustomCloud,
        AiProvider::Ollama,
        AiProvider::LmStudio,
        AiProvider::CustomLocal,
    ];
    assert(api_key_providers_spec() =~= listed);
    assert forall|provider: AiProvider| provider != AiProvider::Disabled implies listed.contains(
        provider,
    ) by {
        match provider {
            AiProvider::OpenAi => assert(listed[0] == provider),
            AiProvider::Anthropic => assert(listed[1] == provider),
            AiProvider::Gemini => assert(listed[2] == provider),
            AiProvider::CustomCloud => assert(listed[3] == provider),
            AiProvider::Ollama => assert(listed[4] == provider),
            AiProvider::LmStudio => assert(listed[5] == provider),
            AiProvider::CustomLocal => assert(listed[6] == provider),
            AiProvider::Disabled => {},
        }
    }
}

} // verus!
