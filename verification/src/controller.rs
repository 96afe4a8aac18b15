//! The desktop shell's state machine: which page and window are showing, which onboarding
//! question is open, what the orb looks like and what the status line says, plus the
//! validation of everything the interface sends back.

use vstd::prelude::*;

use crate::catalog::{AiSetup, OnboardingStep};
use crate::model::{AiProvider, AssistanceStyle, Persona, ProfessionalProfile, UserProfile};
use crate::text::{is_blank, join3, str_equal, str_is_blank, trim, trimmed};

verus! {

/// Which window the assistant currently lives in.
#[derive(Clone, Copy, Debug, PartialEq, Eq, Structural)]
pub enum WindowMode {
    Dashboard,
    Orb,
}

impl Default for WindowMode {
    fn default() -> (mode: WindowMode)
        ensures
            mode == WindowMode::Dashboard,
    {
        WindowMode::Dashboard
    }
}

pub const DEFAULT_ORB_SIZE: u16 = 176;

pub const MIN_ORB_SIZE: u16 = 96;

pub const MAX_ORB_SIZE: u16 = 288;

/// How much one press of a resize button grows or shrinks the orb.
pub const ORB_RESIZE_STEP: u16 = 32;

impl WindowMode {
    /// The logical size of the window in this mode.
    pub open spec fn logical_size_spec(self) -> (u16, u16) {
        match self {
            WindowMode::Dashboard => (1120, 680),
            WindowMode::Orb => (DEFAULT_ORB_SIZE, DEFAULT_ORB_SIZE),
        }
    }

    pub fn logical_size(self) -> (size: (u16, u16))
        ensures
            size == self.logical_size_spec(),
    {
        match self {
            WindowMode::Dashboard => (1120, 680),
            WindowMode::Orb => (DEFAULT_ORB_SIZE, DEFAULT_ORB_SIZE),
        }
    }
}

/// `value` clamped into the range of `i32`, as the saturating operations of `i32` produce.
pub open spec fn saturate_i32(value: int) -> i32 {
    if value > i32::MAX {
        i32::MAX
    } else if value < i32::MIN {
        i32::MIN
    } else {
        value as i32
    }
}

/// `value / 2`, rounded toward zero as integer division does.
pub open spec fn half_toward_zero(value: int) -> int {
    if value >= 0 {
        value / 2
    } else {
        -((-value) / 2)
    }
}

fn saturating_add_i32(left: i32, right: i32) -> (sum: i32)
    ensures
        sum == saturate_i32(left + right),
{
    let wide = left as i64 + right as i64;
    if wide > i32::MAX as i64 {
        i32::MAX
    } else if wide < i32::MIN as i64 {
        i32::MIN
    } else {
        wide as i32
    }
}

fn saturating_sub_i32(left: i32, right: i32) -> (difference: i32)
    ensures
        difference == saturate_i32(left - right),
{
    let wide = left as i64 - right as i64;
    if wide > i32::MAX as i64 {
        i32::MAX
    } else if wide < i32::MIN as i64 {
        i32::MIN
    } else {
        wide as i32
    }
}

fn halve_toward_zero(value: i32) -> (half: i32)
    ensures
        half == half_toward_zero(value as int),
{
    if value >= 0 {
        value / 2
    } else {
        let magnitude = 0i64 - value as i64;
        (0i64 - magnitude / 2) as i32
    }
}

/// Where the orb lands when the dashboard collapses: aligned with the dashboard's right edge
/// and 24 logical pixels below its top.
pub fn anchored_orb_position(
    dashboard_x: i32,
    dashboard_y: i32,
    dashboard_width: i32,
    orb_width: i32,
) -> (position: (i32, i32))
    ensures
        position == (
            saturate_i32(saturate_i32(dashboard_x + dashboard_width) - orb_width),
            saturate_i32(dashboard_y + 24),
        ),
{
    (
        saturating_sub_i32(saturating_add_i32(dashboard_x, dashboard_width), orb_width),
        saturating_add_i32(dashboard_y, 24),
    )
}

/// The top-left corner a resized orb moves to: shifted back by half its growth.
pub open spec fn centered_resize_spec(
    current_x: i32,
    current_y: i32,
    current_size: i32,
    new_size: i32,
) -> (i32, i32) {
    let offset = half_toward_zero(saturate_i32(new_size - current_size) as int);
    (saturate_i32(current_x - offset), saturate_i32(current_y - offset))
}

/// Away from the ends of the coordinate range, a resized orb keeps its center: twice the
/// new corner plus the new size is twice the old corner plus the old size, give or take
/// the one pixel an odd growth cannot split.
pub proof fn lemma_resize_keeps_the_center(
    current_x: i32,
    current_y: i32,
    current_size: i32,
    new_size: i32,
)
    requires
        i32::MIN <= new_size - current_size <= i32::MAX,
        i32::MIN <= current_x - half_toward_zero(new_size - current_size) <= i32::MAX,
        i32::MIN <= current_y - half_toward_zero(new_size - current_size) <= i32::MAX,
    ensures
        ({
            let (x, y) = centered_resize_spec(current_x, current_y, current_size, new_size);
            &&& -1 <= (2 * x + new_size) - (2 * current_x + current_size) <= 1
            &&& -1 <= (2 * y + new_size) - (2 * current_y + current_size) <= 1
            &&& x - current_x == y - current_y
        }),
{
}

/// Away from the ends of the coordinate range, the collapsed orb's right edge lines up with
/// the dashboard's right edge.
pub proof fn lemma_anchored_orb_shares_the_right_edge(
    dashboard_x: i32,
    dashboard_y: i32,
    dashboard_width: i32,
    orb_width: i32,
)
    requires
        i32::MIN <= dashboard_x + dashboard_width <= i32::MAX,
        i32::MIN <= dashboard_x + dashboard_width - orb_width <= i32::MAX,
        dashboard_y + 24 <= i32::MAX,
    ensures
        saturate_i32(saturate_i32(dashboard_x + dashboard_width) - orb_width) + orb_width
            == dashboard_x + dashboard_width,
        saturate_i32(dashboard_y + 24) == dashboard_y + 24,
{
}

/// Where a resized orb goes so that its center stays where it was.
pub fn centered_resize_position(
    current_x: i32,
    current_y: i32,
    current_size: i32,
    new_size: i32,
) -> (position: (i32, i32))
    ensures
        position == centered_resize_spec(current_x, current_y, current_size, new_size),
{
    let center_offset = halve_toward_zero(saturating_sub_i32(new_size, current_size));
    (saturating_sub_i32(current_x, center_offset), saturating_sub_i32(current_y, center_offset))
}

/// Where a dragged orb goes.
pub fn translated_orb_position(current_x: i32, current_y: i32, delta_x: i32, delta_y: i32) -> (position: (
    i32,
    i32,
))
    ensures
        position == (saturate_i32(current_x + delta_x), saturate_i32(current_y + delta_y)),
{
    (saturating_add_i32(current_x, delta_x), saturating_add_i32(current_y, delta_y))
}

/// The two buttons that resize the orb.
#[derive(Clone, Copy, Debug, PartialEq, Eq, Structural)]
pub enum OrbResizeAction {
    Smaller,
    Larger,
}

impl OrbResizeAction {
    pub open spec fn parse_spec(value: Seq<char>) -> Option<OrbResizeAction> {
        if value == "smaller"@ {
            Some(OrbResizeAction::Smaller)
        } else if value == "larger"@ {
            Some(OrbResizeAction::Larger)
        } else {
            None
        }
    }

    pub fn parse(value: &str) -> (action: Option<OrbResizeAction>)
        ensures
            action == OrbResizeAction::parse_spec(value@),
    {
        if str_equal(value, "smaller") {
            Some(OrbResizeAction::Smaller)
        } else if str_equal(value, "larger") {
            Some(OrbResizeAction::Larger)
        } else {
            None
        }
    }
}

/// The pages of the dashboard.
#[derive(Clone, Copy, Debug, PartialEq, Eq, Structural)]
pub enum WorkspaceSection {
    Today,
    Memory,
    Routines,
}

impl Default for WorkspaceSection {
    fn default() -> (section: WorkspaceSection)
        ensures
            section == WorkspaceSection::Today,
    {
        WorkspaceSection::Today
    }
}

impl WorkspaceSection {
    pub const ALL: [WorkspaceSection; 3] = [
        WorkspaceSection::Today,
        WorkspaceSection::Memory,
        WorkspaceSection::Routines,
    ];

    pub open spec fn id_spec(self) -> Seq<char> {
        match self {
            WorkspaceSection::Today => "today"@,
            WorkspaceSection::Memory => "memory"@,
            WorkspaceSection::Routines => "routines"@,
        }
    }

    pub open spec fn parse_spec(value: Seq<char>) -> Option<WorkspaceSection> {
        if value == "today"@ {
            Some(WorkspaceSection::Today)
        } else if value == "memory"@ {
            Some(WorkspaceSection::Memory)
        } else if value == "routines"@ {
            Some(WorkspaceSection::Routines)
        } else {
            None
        }
    }

    pub open spec fn title_spec(self) -> Seq<char> {
        match self {
            WorkspaceSection::Today => "Espacio de enfoque"@,
            WorkspaceSection::Memory => "Archivo de memoria"@,
            WorkspaceSection::Routines => "Rutinas explicables"@,
        }
    }

    pub open spec fn subtitle_spec(self, assistant_name: Seq<char>) -> Seq<char> {
        match self {
            WorkspaceSection::Today => "Captura lo importante. "@ + assistant_name
                + " mantiene el hilo."@,
            WorkspaceSection::Memory => "Decisiones y contexto que tú controlas."@,
            WorkspaceSection::Routines => "Revisa la evidencia antes de activar cualquier ayuda."@,
        }
    }

    pub fn stable_id(self) -> (id: &'static str)
        ensures
            id@ == self.id_spec(),
    {
        match self {
            WorkspaceSection::Today => "today",
            WorkspaceSection::Memory => "memory",
            WorkspaceSection::Routines => "routines",
        }
    }

    pub fn parse(value: &str) -> (section: Option<WorkspaceSection>)
        ensures
            section == WorkspaceSection::parse_spec(value@),
    {
        if str_equal(value, "today") {
            Some(WorkspaceSection::Today)
        } else if str_equal(value, "memory") {
            Some(WorkspaceSection::Memory)
        } else if str_equal(value, "routines") {
            Some(WorkspaceSection::Routines)
        } else {
            None
        }
    }

    /// Which of the three pages is visible: exactly the one for this section.
    pub fn visibility(self) -> (visible: (bool, bool, bool))
        ensures
            visible == (
                self == WorkspaceSection::Today,
                self == WorkspaceSection::Memory,
                self == WorkspaceSection::Routines,
            ),
    {
        (
            matches!(self, WorkspaceSection::Today),
            matches!(self, WorkspaceSection::Memory),
            matches!(self, WorkspaceSection::Routines),
        )
    }

    /// Heading shown in the workspace header.
    pub fn title(self) -> (title: &'static str)
        ensures
            title@ == self.title_spec(),
    {
        match self {
            WorkspaceSection::Today => "Espacio de enfoque",
            WorkspaceSection::Memory => "Archivo de memoria",
            WorkspaceSection::Routines => "Rutinas explicables",
        }
    }

    /// Supporting line under the heading, spoken about the assistant by name.
    pub fn subtitle(self, assistant_name: &str) -> (subtitle: String)
        ensures
            subtitle@ == self.subtitle_spec(assistant_name@),
    {
        match self {
            WorkspaceSection::Today => join3(
                "Captura lo importante. ",
                assistant_name,
                " mantiene el hilo.",
            ),
            WorkspaceSection::Memory => "Decisiones y contexto que tú controlas.".to_owned(),
            WorkspaceSection::Routines => "Revisa la evidencia antes de activar cualquier ayuda.".to_owned(),
        }
    }
}

/// Every section's id parses back into that section, and an id parses only into the section
/// that carries it.
pub proof fn lemma_workspace_section_ids_round_trip(section: WorkspaceSection, id: Seq<char>)
    ensures
        WorkspaceSection::parse_spec(section.id_spec()) == Some(section),
        WorkspaceSection::parse_spec(id) == Some(section) ==> section.id_spec() == id,
{
    reveal_strlit("today");
    reveal_strlit("memory");
    reveal_strlit("routines");
    assert("today"@.len() == 5);
    assert("memory"@.len() == 6);
    assert("routines"@.len() == 8);
}

/// The faces the orb can show; each has an asset of the same id.
#[derive(Clone, Copy, Debug, PartialEq, Eq, Structural)]
pub enum OrbState {
    Idle,
    Listening,
    Thinking,
    Working,
    Success,
    Warning,
    Error,
    Sleeping,
    Curious,
}

impl Default for OrbState {
    fn default() -> (state: OrbState)
        ensures
            state == OrbState::Idle,
    {
        OrbState::Idle
    }
}

impl OrbState {
    pub const ALL: [OrbState; 9] = [
        OrbState::Idle,
        OrbState::Listening,
        OrbState::Thinking,
        OrbState::Working,
        OrbState::Success,
        OrbState::Warning,
        OrbState::Error,
        OrbState::Sleeping,
        OrbState::Curious,
    ];

    pub open spec fn id_spec(self) -> Seq<char> {
        match self {
            OrbState::Idle => "idle"@,
            OrbState::Listening => "listening"@,
            OrbState::Thinking => "thinking"@,
            OrbState::Working => "working"@,
            OrbState::Success => "success"@,
            OrbState::Warning => "warning"@,
            OrbState::Error => "error"@,
            OrbState::Sleeping => "sleeping"@,
            OrbState::Curious => "curious"@,
        }
    }

    pub open spec fn parse_spec(value: Seq<char>) -> Option<OrbState> {
        if value == "idle"@ {
            Some(OrbState::Idle)
        } else if value == "listening"@ {
            Some(OrbState::Listening)
        } else if value == "thinking"@ {
            Some(OrbState::Thinking)
        } else if value == "working"@ {
            Some(OrbState::Working)
        } else if value == "success"@ {
            Some(OrbState::Success)
        } else if value == "warning"@ {
            Some(OrbState::Warning)
        } else if value == "error"@ {
            Some(OrbState::Error)
        } else if value == "sleeping"@ {
            Some(OrbState::Sleeping)
        } else if value == "curious"@ {
            Some(OrbState::Curious)
        } else {
            None
        }
    }

    pub fn stable_id(self) -> (id: &'static str)
        ensures
            id@ == self.id_spec(),
    {
        match self {
            OrbState::Idle => "idle",
            OrbState::Listening => "listening",
            OrbState::Thinking => "thinking",
            OrbState::Working => "working",
            OrbState::Success => "success",
            OrbState::Warning => "warning",
            OrbState::Error => "error",
            OrbState::Sleeping => "sleeping",
            OrbState::Curious => "curious",
        }
    }

    /// Resolves an id back into a state; every id has a matching orb asset.
    pub fn parse(value: &str) -> (state: Option<OrbState>)
        ensures
            state == OrbState::parse_spec(value@),
    {
        if str_equal(value, "idle") {
            Some(OrbState::Idle)
        } else if str_equal(value, "listening") {
            Some(OrbState::Listening)
        } else if str_equal(value, "thinking") {
            Some(OrbState::Thinking)
        } else if str_equal(value, "working") {
            Some(OrbState::Working)
        } else if str_equal(value, "success") {
            Some(OrbState::Success)
        } else if str_equal(value, "warning") {
            Some(OrbState::Warning)
        } else if str_equal(value, "error") {
            Some(OrbState::Error)
        } else if str_equal(value, "sleeping") {
            Some(OrbState::Sleeping)
        } else if str_equal(value, "curious") {
            Some(OrbState::Curious)
        } else {
            None
        }
    }
}

/// Every orb state's id parses back into that state, and an id parses only into the state
/// that carries it.
pub proof fn lemma_orb_state_ids_round_trip(state: OrbState, id: Seq<char>)
    ensures
        OrbState::parse_spec(state.id_spec()) == Some(state),
        OrbState::parse_spec(id) == Some(state) ==> state.id_spec() == id,
{
    reveal_strlit("idle");
    reveal_strlit("listening");
    reveal_strlit("thinking");
    reveal_strlit("working");
    reveal_strlit("success");
    reveal_strlit("warning");
    reveal_strlit("error");
    reveal_strlit("sleeping");
    reveal_strlit("curious");
    assert("idle"@.len() == 4);
    assert("listening"@.len() == 9);
    assert("thinking"@.len() == 8);
    assert("working"@.len() == 7);
    assert("success"@.len() == 7);
    assert("warning"@.len() == 7);
    assert("error"@.len() == 5);
    assert("sleeping"@.len() == 8);
    assert("curious"@.len() == 7);
    assert("thinking"@[0] != "sleeping"@[0]);
    assert("working"@[0] != "success"@[0]);
    assert("working"@[1] != "warning"@[1]);
    assert("working"@[0] != "curious"@[0]);
    assert("success"@[0] != "warning"@[0]);
    assert("success"@[0] != "curious"@[0]);
    assert("warning"@[0] != "curious"@[0]);
}

/// The orb face an onboarding step asks for is always a real orb state.
pub proof fn lemma_onboarding_orb_hints_name_real_states(step: OnboardingStep)
    ensures
        step.orb_state_id_spec() matches Some(id) ==> OrbState::parse_spec(id) is Some,
{
    lemma_orb_state_ids_round_trip(OrbState::Curious, Seq::empty());
    lemma_orb_state_ids_round_trip(OrbState::Thinking, Seq::empty());
}


pub const UNKNOWN_PROVIDER: &'static str = "Proveedor de IA no reconocido";

pub const UNKNOWN_PROFILE: &'static str = "Perfil profesional no reconocido";

pub const UNKNOWN_ASSISTANCE: &'static str = "Nivel de iniciativa no reconocido";

pub const UNKNOWN_PERSONA: &'static str = "Personalidad no reconocida";

pub const UNKNOWN_AI_SETUP: &'static str = "Opcion de inteligencia no reconocida";

pub const EMPTY_API_KEY: &'static str = "Pega una clave antes de guardarla";

pub const PROVIDER_WITHOUT_KEY: &'static str = "Este proveedor no usa claves";

/// Shown whenever Tom has neither a stored key nor a local model it can reach.
pub const NO_INTELLIGENCE: &'static str = "Tom no puede pensar: anade una clave o un modelo local";

pub const MISSING_ENDPOINT: &'static str = "Configura el endpoint del proveedor";

pub const MISSING_LOCAL_MODEL: &'static str = "Configura un endpoint o modelo local";

pub const EMPTY_NOTE: &'static str = "Escribe algo antes de guardar";

/// A connection the user asked to save. Credentials never travel through this form: they
/// are managed on their own, so nothing here is secret.
#[derive(Debug, PartialEq, Eq)]
pub struct AiSettingsSubmission {
    pub provider: AiProvider,
    pub endpoint: String,
    pub model_path: String,
}

/// What saving a connection form yields: the provider with its trimmed locations, or the
/// message that says what is missing.
pub open spec fn ai_settings_submission_spec(
    provider: Seq<char>,
    endpoint: Seq<char>,
    model_path: Seq<char>,
) -> Result<(AiProvider, Seq<char>, Seq<char>), Seq<char>> {
    match AiProvider::from_id_spec(provider) {
        None => Err(UNKNOWN_PROVIDER@),
        Some(AiProvider::Disabled) => Ok((AiProvider::Disabled, Seq::empty(), Seq::empty())),
        Some(chosen) => {
            let endpoint = trimmed(endpoint);
            let model_path = trimmed(model_path);
            if chosen == AiProvider::CustomCloud && endpoint.len() == 0 {
                Err(MISSING_ENDPOINT@)
            } else if chosen == AiProvider::CustomLocal && endpoint.len() == 0 && model_path.len()
                == 0 {
                Err(MISSING_LOCAL_MODEL@)
            } else {
                Ok((chosen, endpoint, model_path))
            }
        },
    }
}

impl AiSettingsSubmission {
    /// Credentials are not checked here. No key is required to save a connection: Tom only
    /// needs one way in overall, and whether it has one is asked of the vault, not the form.
    pub fn try_from_ui(provider: &str, endpoint: &str, model_path: &str) -> (submission: Result<
        AiSettingsSubmission,
        &'static str,
    >)
        ensures
            match submission {
                Ok(accepted) => ai_settings_submission_spec(provider@, endpoint@, model_path@)
                    == Ok::<(AiProvider, Seq<char>, Seq<char>), Seq<char>>(
                    (accepted.provider, accepted.endpoint@, accepted.model_path@),
                ),
                Err(message) => ai_settings_submission_spec(provider@, endpoint@, model_path@)
                    == Err::<(AiProvider, Seq<char>, Seq<char>), Seq<char>>(message@),
            },
    {
        let provider = match AiProvider::from_stable_id(provider) {
            Some(provider) => provider,
            None => return Err(UNKNOWN_PROVIDER),
        };
        if provider == AiProvider::Disabled {
            return Ok(
                AiSettingsSubmission {
                    provider,
                    endpoint: String::new(),
                    model_path: String::new(),
                },
            );
        }
        let endpoint = trim(endpoint).to_owned();
        let model_path = trim(model_path).to_owned();

        if provider.requires_endpoint() && endpoint.as_str().is_empty() {
            return Err(MISSING_ENDPOINT);
        }
        if provider.requires_model_location() && endpoint.as_str().is_empty()
            && model_path.as_str().is_empty() {
            return Err(MISSING_LOCAL_MODEL);
        }
        Ok(AiSettingsSubmission { provider, endpoint, model_path })
    }
}

/// A credential the user asked to store for one provider.
#[derive(PartialEq, Eq)]
pub struct ApiKeySubmission {
    pub provider: AiProvider,
    pub api_key: String,
}

#[verifier::external_type_specification]
#[verifier::external_body]
pub struct ExFormatter<'a>(core::fmt::Formatter<'a>);

#[verifier::external_type_specification]
#[verifier::external_body]
pub struct ExFmtError(core::fmt::Error);

/// The name `Debug` prints for a provider: its variant's name.
pub open spec fn provider_debug_spec(provider: AiProvider) -> Seq<char> {
    match provider {
        AiProvider::Disabled => "Disabled"@,
        AiProvider::OpenAi => "OpenAi"@,
        AiProvider::Anthropic => "Anthropic"@,
        AiProvider::Gemini => "Gemini"@,
        AiProvider::CustomCloud => "CustomCloud"@,
        AiProvider::Ollama => "Ollama"@,
        AiProvider::LmStudio => "LmStudio"@,
        AiProvider::CustomLocal => "CustomLocal"@,
    }
}

fn provider_debug_name(provider: AiProvider) -> (name: &'static str)
    ensures
        name@ == provider_debug_spec(provider),
{
    match provider {
        AiProvider::Disabled => "Disabled",
        AiProvider::OpenAi => "OpenAi",
        AiProvider::Anthropic => "Anthropic",
        AiProvider::Gemini => "Gemini",
        AiProvider::CustomCloud => "CustomCloud",
        AiProvider::Ollama => "Ollama",
        AiProvider::LmStudio => "LmStudio",
        AiProvider::CustomLocal => "CustomLocal",
    }
}

/// How a key submission shows up in a log, on one line or, when `alternate` is asked
/// for, one field per line. It is made of the provider alone: the key is written as
/// `"[REDACTED]"`, so no key ever reaches a log.
pub open spec fn redacted_debug_spec(provider: AiProvider, alternate: bool) -> Seq<char> {
    if alternate {
        "ApiKeySubmission {\n    provider: "@ + provider_debug_spec(provider)
            + ",\n    api_key: \"[REDACTED]\",\n}"@
    } else {
        "ApiKeySubmission { provider: "@ + provider_debug_spec(provider)
            + ", api_key: \"[REDACTED]\" }"@
    }
}

/// Calls `core::fmt::Formatter::alternate`: whether `{:#?}` was asked for. Nothing is
/// claimed of it.
#[verifier::external_body]
fn formatter_alternate(formatter: &core::fmt::Formatter<'_>) -> bool {
    formatter.alternate()
}

/// Calls `core::fmt::Formatter::write_str` with `text`. Nothing is claimed of the outcome.
#[verifier::external_body]
fn formatter_write(formatter: &mut core::fmt::Formatter<'_>, text: &str) -> core::fmt::Result {
    formatter.write_str(text)
}

impl core::fmt::Debug for ApiKeySubmission {
    /// Writes [`ApiKeySubmission::redacted_debug`] in the form the formatter asks for.
    fn fmt(&self, formatter: &mut core::fmt::Formatter<'_>) -> core::fmt::Result {
        let alternate = formatter_alternate(formatter);
        let text = self.redacted_debug(alternate);
        formatter_write(formatter, text.as_str())
    }
}

impl ApiKeySubmission {
    /// The submission as `Debug` shows it, with the key replaced by `[REDACTED]`: the text
    /// depends on the provider and the layout alone, never on the key.
    pub fn redacted_debug(&self, alternate: bool) -> (text: String)
        ensures
            text@ == redacted_debug_spec(self.provider, alternate),
    {
        let name = provider_debug_name(self.provider);
        if alternate {
            join3("ApiKeySubmission {\n    provider: ", name, ",\n    api_key: \"[REDACTED]\",\n}")
        } else {
            join3("ApiKeySubmission { provider: ", name, ", api_key: \"[REDACTED]\" }")
        }
    }
}

/// What submitting a key yields: the provider with the trimmed key, or why it was refused.
pub open spec fn api_key_submission_spec(provider: Seq<char>, api_key: Seq<char>) -> Result<
    (AiProvider, Seq<char>),
    Seq<char>,
> {
    match AiProvider::from_id_spec(provider) {
        None => Err(UNKNOWN_PROVIDER@),
        Some(chosen) => if chosen == AiProvider::Disabled {
            Err(PROVIDER_WITHOUT_KEY@)
        } else if is_blank(api_key) {
            Err(EMPTY_API_KEY@)
        } else {
            Ok((chosen, trimmed(api_key)))
        },
    }
}

impl ApiKeySubmission {
    /// Surrounding whitespace is dropped, since it only ever arrives from a sloppy paste and
    /// no provider issues keys that begin or end with it. The key itself is never altered.
    pub fn try_from_ui(provider: &str, api_key: &str) -> (submission: Result<
        ApiKeySubmission,
        &'static str,
    >)
        ensures
            match submission {
                Ok(accepted) => api_key_submission_spec(provider@, api_key@) == Ok::<(AiProvider, Seq<char>), Seq<char>>(
                    (accepted.provider, accepted.api_key@),
                ),
                Err(message) => api_key_submission_spec(provider@, api_key@) == Err::<
                    (AiProvider, Seq<char>),
                    Seq<char>,
                >(message@),
            },
    {
        let provider = match AiProvider::from_stable_id(provider) {
            Some(provider) => provider,
            None => return Err(UNKNOWN_PROVIDER),
        };
        if !provider.accepts_api_key() {
            return Err(PROVIDER_WITHOUT_KEY);
        }
        if str_is_blank(api_key) {
            return Err(EMPTY_API_KEY);
        }
        Ok(ApiKeySubmission { provider, api_key: trim(api_key).to_owned() })
    }
}

/// The four answers onboarding collects, resolved from the ids the interface sends back.
#[derive(Clone, Copy, Debug, PartialEq, Eq, Structural)]
pub struct OnboardingAnswers {
    pub persona: Persona,
    pub professional_profile: ProfessionalProfile,
    pub assistance_style: AssistanceStyle,
    pub ai_setup: AiSetup,
}

/// The answers four ids resolve to, or the message for the first id that is unknown.
pub open spec fn onboarding_answers_spec(
    persona: Seq<char>,
    professional_profile: Seq<char>,
    assistance_style: Seq<char>,
    ai_setup: Seq<char>,
) -> Result<OnboardingAnswers, Seq<char>> {
    match Persona::from_id_spec(persona) {
        None => Err(UNKNOWN_PERSONA@),
        Some(persona) => match ProfessionalProfile::from_id_spec(professional_profile) {
            None => Err(UNKNOWN_PROFILE@),
            Some(professional_profile) => match AssistanceStyle::from_id_spec(assistance_style) {
                None => Err(UNKNOWN_ASSISTANCE@),
                Some(assistance_style) => match AiSetup::from_id_spec(ai_setup) {
                    None => Err(UNKNOWN_AI_SETUP@),
                    Some(ai_setup) => Ok(
                        OnboardingAnswers {
                            persona,
                            professional_profile,
                            assistance_style,
                            ai_setup,
                        },
                    ),
                },
            },
        },
    }
}

impl OnboardingAnswers {
    /// Rejects the whole set when any id is unknown, so a half-parsed profile is never saved.
    pub fn try_from_ui(
        persona: &str,
        professional_profile: &str,
        assistance_style: &str,
        ai_setup: &str,
    ) -> (answers: Result<OnboardingAnswers, &'static str>)
        ensures
            match answers {
                Ok(accepted) => onboarding_answers_spec(
                    persona@,
                    professional_profile@,
                    assistance_style@,
                    ai_setup@,
                ) == Ok::<OnboardingAnswers, Seq<char>>(accepted),
                Err(message) => onboarding_answers_spec(
                    persona@,
                    professional_profile@,
                    assistance_style@,
                    ai_setup@,
                ) == Err::<OnboardingAnswers, Seq<char>>(message@),
            },
    {
        let persona = match Persona::from_stable_id(persona) {
            Some(persona) => persona,
            None => return Err(UNKNOWN_PERSONA),
        };
        let professional_profile = match ProfessionalProfile::from_stable_id(professional_profile) {
            Some(profile) => profile,
            None => return Err(UNKNOWN_PROFILE),
        };
        let assistance_style = match AssistanceStyle::from_stable_id(assistance_style) {
            Some(style) => style,
            None => return Err(UNKNOWN_ASSISTANCE),
        };
        let ai_setup = match AiSetup::from_stable_id(ai_setup) {
            Some(setup) => setup,
            None => return Err(UNKNOWN_AI_SETUP),
        };
        Ok(OnboardingAnswers { persona, professional_profile, assistance_style, ai_setup })
    }

    pub fn profile(self) -> (profile: UserProfile)
        ensures
            profile == (UserProfile {
                persona: self.persona,
                professional_profile: self.professional_profile,
                assistance_style: self.assistance_style,
            }),
    {
        UserProfile {
            persona: self.persona,
            professional_profile: self.professional_profile,
            assistance_style: self.assistance_style,
        }
    }
}

/// A note the user asked to save, with its title and body trimmed.
#[derive(Debug, PartialEq, Eq)]
pub struct NoteSubmission {
    pub title: String,
    pub body: String,
}

/// What saving a note yields: its title (or the fallback title) and body, or the refusal.
pub open spec fn note_submission_spec(title: Seq<char>, body: Seq<char>) -> Result<
    (Seq<char>, Seq<char>),
    Seq<char>,
> {
    if is_blank(body) {
        Err(EMPTY_NOTE@)
    } else if is_blank(title) {
        Ok(("Nota rapida"@, trimmed(body)))
    } else {
        Ok((trimmed(title), trimmed(body)))
    }
}

impl NoteSubmission {
    pub fn try_from_ui(title: &str, body: &str) -> (submission: Result<NoteSubmission, &'static str>)
        ensures
            match submission {
                Ok(accepted) => note_submission_spec(title@, body@) == Ok::<(Seq<char>, Seq<char>), Seq<char>>(
                    (accepted.title@, accepted.body@),
                ),
                Err(message) => note_submission_spec(title@, body@) == Err::<
                    (Seq<char>, Seq<char>),
                    Seq<char>,
                >(message@),
            },
    {
        let body = trim(body);
        if body.is_empty() {
            return Err(EMPTY_NOTE);
        }
        let trimmed_title = trim(title);
        let title = if trimmed_title.is_empty() {
            "Nota rapida"
        } else {
            trimmed_title
        };
        Ok(NoteSubmission { title: title.to_owned(), body: body.to_owned() })
    }
}

/// What pressing the onboarding primary button did.
#[derive(Clone, Copy, Debug, PartialEq, Eq, Structural)]
pub enum OnboardingAdvance {
    /// The flow moved to the next question.
    Moved,
    /// The last question was answered and the profile is ready to be saved.
    Finished,
}


/// Everything the interface shows that is not persisted: the assistant's voice, the status
/// line, the note counter, onboarding progress, the window, the orb and the open page.
#[derive(Debug)]
pub struct Controller {
    persona: Persona,
    status_text: &'static str,
    note_count: i32,
    onboarding_visible: bool,
    onboarding_step: OnboardingStep,
    window_mode: WindowMode,
    orb_state: OrbState,
    active_section: WorkspaceSection,
    orb_size: u16,
}

/// The abstract state of a [`Controller`].
pub ghost struct ControllerView {
    pub persona: Persona,
    pub status_text: Seq<char>,
    pub note_count: int,
    pub onboarding_visible: bool,
    pub onboarding_step: OnboardingStep,
    pub window_mode: WindowMode,
    pub orb_state: OrbState,
    pub active_section: WorkspaceSection,
    pub orb_size: int,
}

impl View for Controller {
    type V = ControllerView;

    closed spec fn view(&self) -> ControllerView {
        ControllerView {
            persona: self.persona,
            status_text: self.status_text@,
            note_count: self.note_count as int,
            onboarding_visible: self.onboarding_visible,
            onboarding_step: self.onboarding_step,
            window_mode: self.window_mode,
            orb_state: self.orb_state,
            active_section: self.active_section,
            orb_size: self.orb_size as int,
        }
    }
}

/// The note counter shows how many notes the store holds, capped at what an `i32` holds.
pub open spec fn capped_note_count(note_count: int) -> int {
    if note_count > i32::MAX {
        i32::MAX as int
    } else {
        note_count
    }
}

/// The controller a fresh start shows: onboarding open on its first question.
pub open spec fn initial_controller() -> ControllerView {
    ControllerView {
        persona: Persona::Tom,
        status_text: "Listo para ayudarte"@,
        note_count: 0,
        onboarding_visible: true,
        onboarding_step: OnboardingStep::Welcome,
        window_mode: WindowMode::Dashboard,
        orb_state: OrbState::Idle,
        active_section: WorkspaceSection::Today,
        orb_size: DEFAULT_ORB_SIZE as int,
    }
}

/// The state after the primary onboarding button: the next question, or unchanged and
/// finished on the last one.
pub open spec fn advance_onboarding_spec(state: ControllerView) -> (ControllerView, OnboardingAdvance) {
    match state.onboarding_step.next_spec() {
        Some(step) => (ControllerView { onboarding_step: step, ..state }, OnboardingAdvance::Moved),
        None => (state, OnboardingAdvance::Finished),
    }
}

/// The state after the back button: the previous question, or unchanged on the first one.
pub open spec fn back_onboarding_spec(state: ControllerView) -> ControllerView {
    match state.onboarding_step.previous_spec() {
        Some(step) => ControllerView { onboarding_step: step, ..state },
        None => state,
    }
}

/// The orb size after one press of a resize button: one step, but never past the bounds.
pub open spec fn resized_orb_spec(size: int, action: OrbResizeAction) -> int {
    match action {
        OrbResizeAction::Smaller => if size - ORB_RESIZE_STEP < MIN_ORB_SIZE {
            MIN_ORB_SIZE as int
        } else {
            size - ORB_RESIZE_STEP
        },
        OrbResizeAction::Larger => if size + ORB_RESIZE_STEP > MAX_ORB_SIZE {
            MAX_ORB_SIZE as int
        } else {
            size + ORB_RESIZE_STEP
        },
    }
}

/// The face onboarding shows: the one the step asks for, else the assistant's live face.
pub open spec fn onboarding_orb_state_spec(state: ControllerView) -> OrbState {
    match state.onboarding_step.orb_state_id_spec() {
        Some(id) => match OrbState::parse_spec(id) {
            Some(face) => face,
            None => state.orb_state,
        },
        None => state.orb_state,
    }
}

/// The state after a persona is chosen for good: onboarding closes and the new voice
/// announces itself.
pub open spec fn persona_selected(state: ControllerView, persona: Persona) -> ControllerView {
    ControllerView {
        persona,
        onboarding_visible: false,
        onboarding_step: OnboardingStep::Welcome,
        status_text: match persona {
            Persona::Tom => "Modo profesional activado"@,
            Persona::Tomy => "Modo cercano activado"@,
        },
        orb_state: OrbState::Success,
        ..state
    }
}

/// The state after some feedback: a new status line and orb face, nothing else touched.
pub open spec fn with_feedback(state: ControllerView, status: Seq<char>, face: OrbState) -> ControllerView {
    ControllerView { status_text: status, orb_state: face, ..state }
}

impl Controller {
    #[verifier::type_invariant]
    spec fn well_formed(self) -> bool {
        &&& MIN_ORB_SIZE <= self.orb_size <= MAX_ORB_SIZE
        &&& self.note_count >= 0
    }

    /// A controller for a user who finished onboarding before, holding `note_count` notes.
    pub fn restored(persona: Persona, note_count: usize) -> (controller: Controller)
        ensures
            controller@ == (ControllerView {
                persona,
                status_text: "Memoria local sincronizada"@,
                onboarding_visible: false,
                note_count: capped_note_count(note_count as int),
                ..initial_controller()
            }),
    {
        let mut controller = Controller {
            persona,
            status_text: "Memoria local sincronizada",
            note_count: 0,
            onboarding_visible: false,
            onboarding_step: OnboardingStep::Welcome,
            window_mode: WindowMode::Dashboard,
            orb_state: OrbState::Idle,
            active_section: WorkspaceSection::Today,
            orb_size: DEFAULT_ORB_SIZE,
        };
        controller.set_note_count(note_count);
        controller
    }

    pub fn persona(&self) -> (persona: Persona)
        ensures
            persona == self@.persona,
    {
        self.persona
    }

    pub fn assistant_name(&self) -> (name: &'static str)
        ensures
            name@ == self@.persona.display_name_spec(),
    {
        self.persona.display_name()
    }

    pub fn status_text(&self) -> (text: &'static str)
        ensures
            text@ == self@.status_text,
    {
        self.status_text
    }

    pub fn note_count(&self) -> (count: i32)
        ensures
            count == self@.note_count,
            count >= 0,
    {
        proof {
            use_type_invariant(self);
        }
        self.note_count
    }

    /// Adopts the number of notes the store actually holds.
    ///
    /// The counter is a view of persisted state, not a tally of successful saves, so every
    /// reload re-reads it instead of trusting an increment that a failed write could skew.
    pub fn set_note_count(&mut self, note_count: usize)
        ensures
            final(self)@ == (ControllerView {
                note_count: capped_note_count(note_count as int),
                ..old(self)@
            }),
    {
        proof {
            use_type_invariant(&*self);
        }
        self.note_count = if note_count <= i32::MAX as usize {
            note_count as i32
        } else {
            i32::MAX
        };
    }

    pub fn onboarding_visible(&self) -> (visible: bool)
        ensures
            visible == self@.onboarding_visible,
    {
        self.onboarding_visible
    }

    /// Index of the current question, for the progress rail the interface draws.
    pub fn onboarding_step_index(&self) -> (index: i32)
        ensures
            index == self@.onboarding_step.index_spec(),
    {
        self.onboarding_step.index() as i32
    }

    pub fn onboarding_can_go_back(&self) -> (can_go_back: bool)
        ensures
            can_go_back == self@.onboarding_step.previous_spec() is Some,
    {
        self.onboarding_step.previous().is_some()
    }

    /// Moves to the next question, or reports that the flow is ready to finish.
    pub fn advance_onboarding(&mut self) -> (advance: OnboardingAdvance)
        ensures
            (final(self)@, advance) == advance_onboarding_spec(old(self)@),
    {
        proof {
            use_type_invariant(&*self);
        }
        match self.onboarding_step.next() {
            Some(step) => {
                self.onboarding_step = step;
                OnboardingAdvance::Moved
            },
            None => OnboardingAdvance::Finished,
        }
    }

    /// Returns to the previous question; the first question has nowhere to go.
    pub fn back_onboarding(&mut self)
        ensures
            final(self)@ == back_onboarding_spec(old(self)@),
    {
        proof {
            use_type_invariant(&*self);
        }
        if let Some(step) = self.onboarding_step.previous() {
            self.onboarding_step = step;
        }
    }

    /// The orb face onboarding asks for, falling back to the assistant's live state.
    pub fn onboarding_orb_state(&self) -> (state: OrbState)
        ensures
            state == onboarding_orb_state_spec(self@),
    {
        match self.onboarding_step.orb_state_id() {
            Some(id) => match OrbState::parse(id) {
                Some(state) => state,
                None => self.orb_state,
            },
            None => self.orb_state,
        }
    }

    pub fn window_mode(&self) -> (mode: WindowMode)
        ensures
            mode == self@.window_mode,
    {
        self.window_mode
    }

    pub fn orb_state(&self) -> (state: OrbState)
        ensures
            state == self@.orb_state,
    {
        self.orb_state
    }

    pub fn active_section(&self) -> (section: WorkspaceSection)
        ensures
            section == self@.active_section,
    {
        self.active_section
    }

    /// Header copy for the section currently on screen.
    pub fn section_heading(&self) -> (heading: (&'static str, String))
        ensures
            heading.0@ == self@.active_section.title_spec(),
            heading.1@ == self@.active_section.subtitle_spec(self@.persona.display_name_spec()),
    {
        (self.active_section.title(), self.active_section.subtitle(self.assistant_name()))
    }

    /// Shown wherever the routine list is empty, on Today and on Routines alike.
    pub fn empty_routines_text(&self) -> (text: String)
        ensures
            text@ == "Sin propuestas pendientes. "@ + self@.persona.display_name_spec()
                + " seguirá observando sólo las señales que autorices."@,
    {
        join3(
            "Sin propuestas pendientes. ",
            self.assistant_name(),
            " seguirá observando sólo las señales que autorices.",
        )
    }

    pub fn navigate_to(&mut self, section: WorkspaceSection)
        ensures
            final(self)@ == (ControllerView { active_section: section, ..old(self)@ }),
    {
        proof {
            use_type_invariant(&*self);
        }
        self.active_section = section;
    }

    /// The orb's size in logical pixels; always within the resize bounds.
    pub fn orb_size(&self) -> (size: u16)
        ensures
            size == self@.orb_size,
            MIN_ORB_SIZE <= size <= MAX_ORB_SIZE,
    {
        proof {
            use_type_invariant(self);
        }
        self.orb_size
    }

    pub fn resize_orb(&mut self, action: OrbResizeAction)
        ensures
            final(self)@ == (ControllerView {
                orb_size: resized_orb_spec(old(self)@.orb_size, action),
                ..old(self)@
            }),
    {
        proof {
            use_type_invariant(&*self);
        }
        self.orb_size = match action {
            OrbResizeAction::Smaller => {
                let smaller = self.orb_size.saturating_sub(ORB_RESIZE_STEP);
                if smaller < MIN_ORB_SIZE {
                    MIN_ORB_SIZE
                } else {
                    smaller
                }
            },
            OrbResizeAction::Larger => {
                let larger = self.orb_size.saturating_add(ORB_RESIZE_STEP);
                if larger > MAX_ORB_SIZE {
                    MAX_ORB_SIZE
                } else {
                    larger
                }
            },
        };
    }

    pub fn enter_orb_mode(&mut self)
        ensures
            final(self)@ == (ControllerView {
                window_mode: WindowMode::Orb,
                orb_state: OrbState::Idle,
                ..old(self)@
            }),
    {
        proof {
            use_type_invariant(&*self);
        }
        self.window_mode = WindowMode::Orb;
        self.orb_state = OrbState::Idle;
    }

    pub fn restore_dashboard(&mut self)
        ensures
            final(self)@ == (ControllerView { window_mode: WindowMode::Dashboard, ..old(self)@ }),
    {
        proof {
            use_type_invariant(&*self);
        }
        self.window_mode = WindowMode::Dashboard;
    }

    /// Reopens onboarding from the first question without discarding earlier answers.
    pub fn replay_onboarding(&mut self)
        ensures
            final(self)@ == (ControllerView {
                onboarding_visible: true,
                onboarding_step: OnboardingStep::Welcome,
                status_text: "Repasemos tu configuracion"@,
                orb_state: OrbState::Curious,
                ..old(self)@
            }),
    {
        proof {
            use_type_invariant(&*self);
        }
        self.onboarding_visible = true;
        self.onboarding_step = OnboardingStep::Welcome;
        self.status_text = "Repasemos tu configuracion";
        self.orb_state = OrbState::Curious;
    }

    /// Adopts a persona while onboarding is still open, so the flow speaks in the chosen voice.
    pub fn preview_persona(&mut self, persona: Persona)
        ensures
            final(self)@ == (ControllerView { persona, ..old(self)@ }),
    {
        proof {
            use_type_invariant(&*self);
        }
        self.persona = persona;
    }

    /// Adopts a persona and closes onboarding.
    pub fn select_persona(&mut self, persona: Persona)
        ensures
            final(self)@ == persona_selected(old(self)@, persona),
    {
        proof {
            use_type_invariant(&*self);
        }
        self.persona = persona;
        self.onboarding_visible = false;
        self.onboarding_step = OnboardingStep::Welcome;
        self.status_text = match persona {
            Persona::Tom => "Modo profesional activado",
            Persona::Tomy => "Modo cercano activado",
        };
        self.orb_state = OrbState::Success;
    }

    fn record(&mut self, status_text: &'static str, orb_state: OrbState)
        ensures
            final(self)@ == with_feedback(old(self)@, status_text@, orb_state),
    {
        proof {
            use_type_invariant(&*self);
        }
        self.status_text = status_text;
        self.orb_state = orb_state;
    }

    pub fn record_note_saved(&mut self)
        ensures
            final(self)@ == with_feedback(
                old(self)@,
                "Nota guardada en tu memoria local"@,
                OrbState::Success,
            ),
    {
        proof {
            use_type_invariant(&*self);
        }
        self.record("Nota guardada en tu memoria local", OrbState::Success);
    }

    pub fn record_invalid_note(&mut self)
        ensures
            final(self)@ == with_feedback(old(self)@, EMPTY_NOTE@, OrbState::Warning),
    {
        proof {
            use_type_invariant(&*self);
        }
        self.record(EMPTY_NOTE, OrbState::Warning);
    }

    pub fn record_routine_accepted(&mut self)
        ensures
            final(self)@ == with_feedback(old(self)@, "Rutina activada"@, OrbState::Success),
    {
        proof {
            use_type_invariant(&*self);
        }
        self.record("Rutina activada", OrbState::Success);
    }

    pub fn record_routine_dismissed(&mut self)
        ensures
            final(self)@ == with_feedback(old(self)@, "Sugerencia descartada"@, OrbState::Idle),
    {
        proof {
            use_type_invariant(&*self);
        }
        self.record("Sugerencia descartada", OrbState::Idle);
    }

    pub fn record_storage_error(&mut self)
        ensures
            final(self)@ == with_feedback(
                old(self)@,
                "No pudimos acceder a la memoria local"@,
                OrbState::Error,
            ),
    {
        proof {
            use_type_invariant(&*self);
        }
        self.record("No pudimos acceder a la memoria local", OrbState::Error);
    }

    pub fn record_ai_settings_saved(&mut self)
        ensures
            final(self)@ == with_feedback(
                old(self)@,
                "Configuracion de IA guardada"@,
                OrbState::Success,
            ),
    {
        proof {
            use_type_invariant(&*self);
        }
        self.record("Configuracion de IA guardada", OrbState::Success);
    }

    pub fn record_ai_validation_error(&mut self, message: &'static str)
        ensures
            final(self)@ == with_feedback(old(self)@, message@, OrbState::Warning),
    {
        proof {
            use_type_invariant(&*self);
        }
        self.record(message, OrbState::Warning);
    }

    pub fn record_credential_error(&mut self)
        ensures
            final(self)@ == with_feedback(
                old(self)@,
                "No pudimos acceder al almacen seguro de Windows"@,
                OrbState::Error,
            ),
    {
        proof {
            use_type_invariant(&*self);
        }
        self.record("No pudimos acceder al almacen seguro de Windows", OrbState::Error);
    }

    /// Reports the one configuration Tom cannot work with: no key and no local model.
    pub fn record_missing_intelligence(&mut self)
        ensures
            final(self)@ == with_feedback(old(self)@, NO_INTELLIGENCE@, OrbState::Warning),
    {
        proof {
            use_type_invariant(&*self);
        }
        self.record(NO_INTELLIGENCE, OrbState::Warning);
    }

    pub fn record_api_key_stored(&mut self)
        ensures
            final(self)@ == with_feedback(
                old(self)@,
                "Clave guardada en Windows"@,
                OrbState::Success,
            ),
    {
        proof {
            use_type_invariant(&*self);
        }
        self.record("Clave guardada en Windows", OrbState::Success);
    }

    pub fn record_api_key_cleared(&mut self)
        ensures
            final(self)@ == with_feedback(
                old(self)@,
                "Clave eliminada de Windows"@,
                OrbState::Success,
            ),
    {
        proof {
            use_type_invariant(&*self);
        }
        self.record("Clave eliminada de Windows", OrbState::Success);
    }
}

/// What the store said about the user's profile when the application started.
#[derive(Clone, Copy, Debug, PartialEq, Eq, Structural)]
pub enum LaunchProfile {
    /// The store could not be opened at all.
    StoreUnavailable,
    /// The store holds no profile: onboarding has not finished yet.
    NotOnboarded,
    /// The store holds a finished profile speaking with this persona.
    Onboarded(Persona),
    /// The store could not read its profile.
    Unreadable,
}

/// The controller a launch starts with, given what the store said and how many notes it
/// holds.
pub open spec fn launch_controller_spec(profile: LaunchProfile, note_count: int) -> ControllerView {
    match profile {
        LaunchProfile::Onboarded(persona) => ControllerView {
            persona,
            status_text: "Memoria local sincronizada"@,
            onboarding_visible: false,
            note_count: capped_note_count(note_count),
            ..initial_controller()
        },
        // Onboarding has not finished, but notes may already exist: the counter reflects
        // the store either way instead of claiming the archive is empty.
        LaunchProfile::NotOnboarded => ControllerView {
            note_count: capped_note_count(note_count),
            ..initial_controller()
        },
        _ => with_feedback(
            initial_controller(),
            "No pudimos acceder a la memoria local"@,
            OrbState::Error,
        ),
    }
}

impl Controller {
    /// The controller the application starts with: restored after onboarding, fresh
    /// before it, and reporting the failure when the store could not be used.
    pub fn for_launch(profile: LaunchProfile, note_count: usize) -> (controller: Controller)
        ensures
            controller@ == launch_controller_spec(profile, note_count as int),
    {
        match profile {
            LaunchProfile::Onboarded(persona) => Controller::restored(persona, note_count),
            LaunchProfile::NotOnboarded => {
                let mut controller = Controller::default();
                controller.set_note_count(note_count);
                controller
            },
            LaunchProfile::StoreUnavailable | LaunchProfile::Unreadable => {
                let mut controller = Controller::default();
                controller.record_storage_error();
                controller
            },
        }
    }
}

impl Default for Controller {
    fn default() -> (controller: Controller)
        ensures
            controller@ == initial_controller(),
    {
        Controller {
            persona: Persona::Tom,
            status_text: "Listo para ayudarte",
            note_count: 0,
            onboarding_visible: true,
            onboarding_step: OnboardingStep::Welcome,
            window_mode: WindowMode::Dashboard,
            orb_state: OrbState::Idle,
            active_section: WorkspaceSection::Today,
            orb_size: DEFAULT_ORB_SIZE,
        }
    }
}

/// Going back right after a move forward returns onboarding to exactly where it was.
pub proof fn lemma_back_undoes_advance(state: ControllerView)
    ensures
        advance_onboarding_spec(state).1 == OnboardingAdvance::Moved ==> back_onboarding_spec(
            advance_onboarding_spec(state).0,
        ) == state,
        advance_onboarding_spec(state).1 == OnboardingAdvance::Finished <==> state.onboarding_step
            == OnboardingStep::IntelligenceChoice,
{
    crate::catalog::lemma_onboarding_ladder(state.onboarding_step, 0);
}

/// A resize never leaves the bounds, and enough presses of one button reach its bound.
pub proof fn lemma_orb_resize_stays_bounded(size: int, action: OrbResizeAction)
    requires
        MIN_ORB_SIZE <= size <= MAX_ORB_SIZE,
    ensures
        MIN_ORB_SIZE <= resized_orb_spec(size, action) <= MAX_ORB_SIZE,
        action == OrbResizeAction::Smaller ==> resized_orb_spec(size, action) <= size,
        action == OrbResizeAction::Larger ==> resized_orb_spec(size, action) >= size,
        resized_orb_spec(size, action) == size ==> (action == OrbResizeAction::Smaller
            && size == MIN_ORB_SIZE) || (action == OrbResizeAction::Larger && size
            == MAX_ORB_SIZE),
{
}

/// What a connection needs before it can be saved: a provider that exists, somewhere to
/// reach a custom cloud server, and an endpoint or a model location for a custom local
/// one. Anything else is accepted as typed, with its two locations trimmed; the disabled
/// provider keeps neither.
pub proof fn lemma_a_connection_needs_only_somewhere_to_go(
    provider: Seq<char>,
    endpoint: Seq<char>,
    model_path: Seq<char>,
)
    ensures
        match AiProvider::from_id_spec(provider) {
            None => ai_settings_submission_spec(provider, endpoint, model_path) is Err,
            Some(AiProvider::Disabled) => ai_settings_submission_spec(provider, endpoint, model_path)
                == Ok::<(AiProvider, Seq<char>, Seq<char>), Seq<char>>(
                (AiProvider::Disabled, Seq::empty(), Seq::empty()),
            ),
            Some(chosen) => {
                &&& (ai_settings_submission_spec(provider, endpoint, model_path) is Ok) <==> !(
                chosen == AiProvider::CustomCloud && is_blank(endpoint)) && !(chosen
                    == AiProvider::CustomLocal && is_blank(endpoint) && is_blank(model_path))
                &&& ai_settings_submission_spec(provider, endpoint, model_path) is Ok
                    ==> ai_settings_submission_spec(provider, endpoint, model_path) == Ok::<
                    (AiProvider, Seq<char>, Seq<char>),
                    Seq<char>,
                >((chosen, trimmed(endpoint), trimmed(model_path)))
            },
        },
{
}

} // verus!
