//! Turning a conversation into an HTTP request, and an HTTP response back into a reply.
//!
//! Nothing here performs I/O. Every provider's wire format is built and read by pure
//! functions, so the awkward parts (which field holds the text, which header carries the
//! credential, what an error body looks like) are settled here instead of being discovered
//! against a live endpoint.

use vstd::prelude::*;

use crate::model::{AiProvider, AiSettings, AssistanceStyle, Persona, UserProfile};
use crate::json::{
    JsonValue, comma_joined, join_with_commas, json_quote, json_string, parse_json, parse_outcome,
    parsed_json, string_views,
};
use crate::text::{
    decimal, decimal_string, is_blank, str_equal, str_is_blank, trim, trim_trailing, trimmed,
    without_trailing,
};

verus! {

/// API version pinned for Anthropic's Messages API.
pub const ANTHROPIC_VERSION: &'static str = "2023-06-01";

/// Output ceiling for one reply. Generous enough not to truncate a normal answer, small
/// enough to stay well inside the request timeout without streaming.
pub const MAX_OUTPUT_TOKENS: u32 = 16000;

/// The shape of a provider's HTTP API.
#[derive(Clone, Copy, Debug, PartialEq, Eq, Structural)]
pub enum WireFormat {
    /// `POST {endpoint}/chat/completions`, the format OpenAI defined and others adopted.
    OpenAiCompatible,
    /// `POST {endpoint}/v1/messages`, Anthropic's Messages API.
    Anthropic,
    /// `POST {endpoint}/v1beta/models/{model}:generateContent`.
    Gemini,
}

impl AiProvider {
    pub open spec fn wire_format_spec(self) -> Option<WireFormat> {
        match self {
            AiProvider::Disabled => None,
            AiProvider::Anthropic => Some(WireFormat::Anthropic),
            AiProvider::Gemini => Some(WireFormat::Gemini),
            _ => Some(WireFormat::OpenAiCompatible),
        }
    }

    pub open spec fn default_endpoint_spec(self) -> Option<Seq<char>> {
        match self {
            AiProvider::OpenAi => Some("https://api.openai.com/v1"@),
            AiProvider::Anthropic => Some("https://api.anthropic.com"@),
            AiProvider::Gemini => Some("https://generativelanguage.googleapis.com"@),
            AiProvider::Ollama => Some("http://127.0.0.1:11434/v1"@),
            AiProvider::LmStudio => Some("http://127.0.0.1:1234/v1"@),
            _ => None,
        }
    }

    pub open spec fn default_model_spec(self) -> Option<Seq<char>> {
        match self {
            AiProvider::Anthropic => Some("opus-5"@),
            AiProvider::OpenAi => Some("gpt-4o-mini"@),
            AiProvider::Gemini => Some("gemini-2.0-flash"@),
            AiProvider::Ollama => Some("llama3.2"@),
            AiProvider::LmStudio => Some("local-model"@),
            _ => None,
        }
    }

    /// How this provider expects to be spoken to, or `None` when it is not a provider.
    #[must_use]
    pub fn wire_format(self) -> (format: Option<WireFormat>)
        ensures
            format == self.wire_format_spec(),
    {
        match self {
            AiProvider::Disabled => None,
            AiProvider::Anthropic => Some(WireFormat::Anthropic),
            AiProvider::Gemini => Some(WireFormat::Gemini),
            // Ollama and LM Studio both expose an OpenAI-compatible surface.
            AiProvider::OpenAi | AiProvider::CustomCloud | AiProvider::Ollama
            | AiProvider::LmStudio | AiProvider::CustomLocal => Some(WireFormat::OpenAiCompatible),
        }
    }

    /// Where to reach the provider when the user has not named an endpoint.
    ///
    /// The two custom providers have none on purpose: naming the endpoint is the whole
    /// point of choosing them.
    #[must_use]
    pub fn default_endpoint(self) -> (endpoint: Option<&'static str>)
        ensures
            match endpoint {
                Some(endpoint) => self.default_endpoint_spec() == Some(endpoint@),
                None => self.default_endpoint_spec() is None,
            },
    {
        match self {
            AiProvider::OpenAi => Some("https://api.openai.com/v1"),
            AiProvider::Anthropic => Some("https://api.anthropic.com"),
            AiProvider::Gemini => Some("https://generativelanguage.googleapis.com"),
            AiProvider::Ollama => Some("http://127.0.0.1:11434/v1"),
            AiProvider::LmStudio => Some("http://127.0.0.1:1234/v1"),
            AiProvider::Disabled | AiProvider::CustomCloud | AiProvider::CustomLocal => None,
        }
    }

    /// The model used when the user has not named one. Always editable in settings.
    #[must_use]
    pub fn default_model(self) -> (model: Option<&'static str>)
        ensures
            match model {
                Some(model) => self.default_model_spec() == Some(model@),
                None => self.default_model_spec() is None,
            },
    {
        match self {
            AiProvider::Anthropic => Some("opus-5"),
            AiProvider::OpenAi => Some("gpt-4o-mini"),
            AiProvider::Gemini => Some("gemini-2.0-flash"),
            AiProvider::Ollama => Some("llama3.2"),
            AiProvider::LmStudio => Some("local-model"),
            AiProvider::Disabled | AiProvider::CustomCloud | AiProvider::CustomLocal => None,
        }
    }
}

/// Only the disabled provider has no wire format, and only the two custom providers and the
/// disabled one lack a default endpoint and a default model.
pub proof fn lemma_every_usable_provider_has_a_wire_format(provider: AiProvider)
    ensures
        provider.wire_format_spec() is None <==> provider == AiProvider::Disabled,
        provider.default_endpoint_spec() is None <==> (provider == AiProvider::Disabled
            || provider == AiProvider::CustomCloud || provider == AiProvider::CustomLocal),
        provider.default_model_spec() is None <==> (provider == AiProvider::Disabled || provider
            == AiProvider::CustomCloud || provider == AiProvider::CustomLocal),
{
}

/// Who said a line of the conversation.
#[derive(Clone, Copy, Debug, PartialEq, Eq, Structural)]
pub enum ChatRole {
    User,
    Assistant,
}

impl ChatRole {
    pub open spec fn id_spec(self) -> Seq<char> {
        match self {
            ChatRole::User => "user"@,
            ChatRole::Assistant => "assistant"@,
        }
    }

    #[must_use]
    pub fn stable_id(self) -> (id: &'static str)
        ensures
            id@ == self.id_spec(),
    {
        match self {
            ChatRole::User => "user",
            ChatRole::Assistant => "assistant",
        }
    }
}

/// One line of the conversation sent to the model.
#[derive(Clone, Debug, PartialEq, Eq)]
pub struct ChatTurn {
    pub role: ChatRole,
    pub text: String,
}

/// What a [`ChatTurn`] says.
pub ghost struct ChatTurnView {
    pub role: ChatRole,
    pub text: Seq<char>,
}

impl View for ChatTurn {
    type V = ChatTurnView;

    open spec fn view(&self) -> ChatTurnView {
        ChatTurnView { role: self.role, text: self.text@ }
    }
}

impl ChatTurn {
    #[must_use]
    pub fn user(text: &str) -> (turn: ChatTurn)
        ensures
            turn@ == (ChatTurnView { role: ChatRole::User, text: text@ }),
    {
        ChatTurn { role: ChatRole::User, text: text.to_owned() }
    }

    #[must_use]
    pub fn assistant(text: &str) -> (turn: ChatTurn)
        ensures
            turn@ == (ChatTurnView { role: ChatRole::Assistant, text: text@ }),
    {
        ChatTurn { role: ChatRole::Assistant, text: text.to_owned() }
    }
}

/// A request ready to be put on the wire, with nothing provider-specific left to decide.
#[derive(Clone, Debug, PartialEq, Eq)]
pub struct ChatRequest {
    pub url: String,
    pub headers: Vec<(String, String)>,
    pub body: String,
    pub provider: AiProvider,
}

/// What a [`ChatRequest`] holds, as character sequences.
pub ghost struct ChatRequestView {
    pub url: Seq<char>,
    pub headers: Seq<(Seq<char>, Seq<char>)>,
    pub body: Seq<char>,
    pub provider: AiProvider,
}

/// The views of a list of header pairs.
pub open spec fn header_views(headers: Seq<(String, String)>) -> Seq<(Seq<char>, Seq<char>)> {
    headers.map_values(|header: (String, String)| (header.0@, header.1@))
}

impl View for ChatRequest {
    type V = ChatRequestView;

    open spec fn view(&self) -> ChatRequestView {
        ChatRequestView {
            url: self.url@,
            headers: header_views(self.headers@),
            body: self.body@,
            provider: self.provider,
        }
    }
}

impl ChatRequest {
    /// Header names only, so that a test can check that a credential never leaks into a log.
    #[must_use]
    pub fn header_names(&self) -> (names: Vec<&str>)
        ensures
            names@.map_values(|name: &str| name@) == self@.headers.map_values(
                |header: (Seq<char>, Seq<char>)| header.0,
            ),
    {
        let mut names: Vec<&str> = Vec::new();
        let ghost name_of = |header: (String, String)| header.0@;
        let mut i: usize = 0;
        while i < self.headers.len()
            invariant
                i <= self.headers@.len(),
                name_of == (|header: (String, String)| header.0@),
                names@.map_values(|name: &str| name@) == self.headers@.take(i as int).map_values(
                    name_of,
                ),
            decreases self.headers@.len() - i,
        {
            let ghost before = names@;
            names.push(self.headers[i].0.as_str());
            proof {
                crate::catalog::lemma_map_take_succ(self.headers@, i as int, name_of);
                assert(names@.map_values(|name: &str| name@) =~= before.map_values(
                    |name: &str| name@,
                ).push(self.headers@[i as int].0@));
            }
            i = i + 1;
        }
        assert(self.headers@.take(self.headers@.len() as int) =~= self.headers@);
        assert(self.headers@.map_values(name_of) =~= self@.headers.map_values(
            |header: (Seq<char>, Seq<char>)| header.0,
        ));
        names
    }
}

/// Everything that can go wrong between asking and answering.
#[derive(Clone, Debug, PartialEq, Eq)]
pub enum InferenceError {
    /// No provider is selected.
    NotConfigured,
    /// The provider needs an endpoint the user has not given.
    MissingEndpoint,
    /// The provider needs a model name the user has not given.
    MissingModel,
    /// A cloud provider has no stored credential.
    MissingApiKey,
    /// The request never reached the provider.
    Transport(String),
    /// The provider answered, with a refusal or an error.
    Status { code: u16, message: String },
    /// The provider answered in a shape this client does not understand.
    Malformed(String),
}

/// What an [`InferenceError`] says, as character sequences.
pub ghost enum InferenceErrorView {
    NotConfigured,
    MissingEndpoint,
    MissingModel,
    MissingApiKey,
    Transport(Seq<char>),
    Status { code: u16, message: Seq<char> },
    Malformed(Seq<char>),
}

impl View for InferenceError {
    type V = InferenceErrorView;

    open spec fn view(&self) -> InferenceErrorView {
        match self {
            InferenceError::NotConfigured => InferenceErrorView::NotConfigured,
            InferenceError::MissingEndpoint => InferenceErrorView::MissingEndpoint,
            InferenceError::MissingModel => InferenceErrorView::MissingModel,
            InferenceError::MissingApiKey => InferenceErrorView::MissingApiKey,
            InferenceError::Transport(detail) => InferenceErrorView::Transport(detail@),
            InferenceError::Status { code, message } => InferenceErrorView::Status {
                code: *code,
                message: message@,
            },
            InferenceError::Malformed(detail) => InferenceErrorView::Malformed(detail@),
        }
    }
}

/// The line the interface shows for an error: it names the fix, and carries no credential.
pub open spec fn user_message_spec(error: InferenceErrorView) -> Seq<char> {
    match error {
        InferenceErrorView::NotConfigured => "Elige un proveedor en Ajustes antes de hablar"@,
        InferenceErrorView::MissingEndpoint => "Configura el endpoint del proveedor en Ajustes"@,
        InferenceErrorView::MissingModel => "Escribe el modelo a usar en Ajustes"@,
        InferenceErrorView::MissingApiKey => "Este proveedor necesita una clave guardada en Ajustes"@,
        InferenceErrorView::Transport(detail) => "No pudimos contactar al proveedor: "@ + detail,
        InferenceErrorView::Status { code, message } => if message.len() == 0 {
            "El proveedor respondio con error "@ + decimal(code as nat)
        } else {
            "Error "@ + decimal(code as nat) + " del proveedor: "@ + message
        },
        InferenceErrorView::Malformed(detail) => "Respuesta inesperada del proveedor: "@ + detail,
    }
}

impl InferenceError {
    /// A line safe to show in the interface: never contains the credential or the payload.
    #[must_use]
    pub fn user_message(&self) -> (message: String)
        ensures
            message@ == user_message_spec(self@),
    {
        match self {
            InferenceError::NotConfigured => "Elige un proveedor en Ajustes antes de hablar".to_owned(),
            InferenceError::MissingEndpoint => "Configura el endpoint del proveedor en Ajustes".to_owned(),
            InferenceError::MissingModel => "Escribe el modelo a usar en Ajustes".to_owned(),
            InferenceError::MissingApiKey => "Este proveedor necesita una clave guardada en Ajustes".to_owned(),
            InferenceError::Transport(detail) => {
                let mut message = "No pudimos contactar al proveedor: ".to_owned();
                message.append(detail.as_str());
                message
            },
            InferenceError::Status { code, message } => {
                let code_text = decimal_string(*code as u32);
                if message.as_str().is_empty() {
                    let mut line = "El proveedor respondio con error ".to_owned();
                    line.append(code_text.as_str());
                    line
                } else {
                    let mut line = "Error ".to_owned();
                    line.append(code_text.as_str());
                    line.append(" del proveedor: ");
                    line.append(message.as_str());
                    line
                }
            },
            InferenceError::Malformed(detail) => {
                let mut message = "Respuesta inesperada del proveedor: ".to_owned();
                message.append(detail.as_str());
                message
            },
        }
    }
}

impl Persona {
    /// How the persona speaks, as told to the model.
    pub open spec fn voice_spec(self) -> Seq<char> {
        match self {
            Persona::Tom => "Hablas de forma precisa, serena y directa, con lenguaje profesional."@,
            Persona::Tomy => "Hablas de forma cercana, calida y relajada, sin perder criterio."@,
        }
    }
}

impl AssistanceStyle {
    /// How much initiative the model may take, as told to it.
    pub open spec fn initiative_spec(self) -> Seq<char> {
        match self {
            AssistanceStyle::Focused => "Responde solo lo que se te pregunta y no propongas trabajo extra."@,
            AssistanceStyle::Balanced => "Sugiere un siguiente paso solo cuando el patron sea claro, sin insistir."@,
            AssistanceStyle::Proactive => "Puedes anticipar necesidades y proponer acciones, siempre pidiendo aprobacion."@,
        }
    }
}

/// The instructions Tom gives the model about itself.
pub open spec fn system_prompt_spec(profile: UserProfile) -> Seq<char> {
    "Eres "@ + profile.persona.display_name_spec()
        + ", un asistente de escritorio local que acompaña a alguien cuyo trabajo principal es: "@
        + profile.professional_profile.label_spec() + ". "@ + profile.persona.voice_spec() + " "@
        + profile.assistance_style.initiative_spec()
        + " Nunca ejecutas acciones sin permiso y admites cuando no sabes algo en vez de inventarlo. Responde en el idioma del usuario."@
}

/// The instructions Tom gives the model about itself, built from the user's own profile.
#[must_use]
pub fn system_prompt(profile: &UserProfile) -> (prompt: String)
    ensures
        prompt@ == system_prompt_spec(*profile),
{
    let voice = match profile.persona {
        Persona::Tom => "Hablas de forma precisa, serena y directa, con lenguaje profesional.",
        Persona::Tomy => "Hablas de forma cercana, calida y relajada, sin perder criterio.",
    };
    let initiative = match profile.assistance_style {
        AssistanceStyle::Focused => "Responde solo lo que se te pregunta y no propongas trabajo extra.",
        AssistanceStyle::Balanced => "Sugiere un siguiente paso solo cuando el patron sea claro, sin insistir.",
        AssistanceStyle::Proactive => "Puedes anticipar necesidades y proponer acciones, siempre pidiendo aprobacion.",
    };
    let mut prompt = "Eres ".to_owned();
    prompt.append(profile.persona.display_name());
    prompt.append(
        ", un asistente de escritorio local que acompaña a alguien cuyo trabajo principal es: ",
    );
    prompt.append(profile.professional_profile.label());
    prompt.append(". ");
    prompt.append(voice);
    prompt.append(" ");
    prompt.append(initiative);
    prompt.append(
        " Nunca ejecutas acciones sin permiso y admites cuando no sabes algo en vez de inventarlo. Responde en el idioma del usuario.",
    );
    prompt
}


/// One message of an OpenAI-compatible or Anthropic conversation, as JSON.
pub open spec fn role_content_json(role: Seq<char>, content: Seq<char>) -> Seq<char> {
    "{\"content\":"@ + json_string(content) + ",\"role\":"@ + json_string(role) + "}"@
}

/// The JSON messages of a conversation, one per turn, in order.
pub open spec fn turn_messages_json(history: Seq<ChatTurnView>) -> Seq<Seq<char>> {
    history.map_values(|turn: ChatTurnView| role_content_json(turn.role.id_spec(), turn.text))
}

/// The body of an OpenAI-compatible request: the system prompt as the first message, then
/// the whole conversation.
pub open spec fn openai_body_spec(model: Seq<char>, system: Seq<char>, history: Seq<ChatTurnView>) -> Seq<char> {
    "{\"messages\":["@ + comma_joined(
        seq![role_content_json("system"@, system)] + turn_messages_json(history),
    ) + "],\"model\":"@ + json_string(model) + "}"@
}

/// The body of an Anthropic request: the system prompt in its own field, not as a message.
pub open spec fn anthropic_body_spec(model: Seq<char>, system: Seq<char>, history: Seq<ChatTurnView>) -> Seq<char> {
    "{\"max_tokens\":"@ + decimal(MAX_OUTPUT_TOKENS as nat) + ",\"messages\":["@ + comma_joined(
        turn_messages_json(history),
    ) + "],\"model\":"@ + json_string(model) + ",\"system\":"@ + json_string(system) + "}"@
}

/// Gemini calls the assistant "model".
pub open spec fn gemini_role_spec(role: ChatRole) -> Seq<char> {
    match role {
        ChatRole::User => "user"@,
        ChatRole::Assistant => "model"@,
    }
}

/// One turn of a Gemini conversation, as JSON.
pub open spec fn gemini_content_json(role: Seq<char>, text: Seq<char>) -> Seq<char> {
    "{\"parts\":[{\"text\":"@ + json_string(text) + "}],\"role\":"@ + json_string(role) + "}"@
}

/// The body of a Gemini request.
pub open spec fn gemini_body_spec(system: Seq<char>, history: Seq<ChatTurnView>) -> Seq<char> {
    "{\"contents\":["@ + comma_joined(
        history.map_values(
            |turn: ChatTurnView| gemini_content_json(gemini_role_spec(turn.role), turn.text),
        ),
    ) + "],\"systemInstruction\":{\"parts\":[{\"text\":"@ + json_string(system) + "}]}}"@
}

/// The views of a conversation.
pub open spec fn turn_views(history: Seq<ChatTurn>) -> Seq<ChatTurnView> {
    history.map_values(|turn: ChatTurn| turn@)
}

fn role_content(role: &str, content: &str) -> (message: String)
    ensures
        message@ == role_content_json(role@, content@),
{
    let mut message = "{\"content\":".to_owned();
    message.append(json_quote(content).as_str());
    message.append(",\"role\":");
    message.append(json_quote(role).as_str());
    message.append("}");
    message
}

fn gemini_content(role: &str, text: &str) -> (content: String)
    ensures
        content@ == gemini_content_json(role@, text@),
{
    let mut content = "{\"parts\":[{\"text\":".to_owned();
    content.append(json_quote(text).as_str());
    content.append("}],\"role\":");
    content.append(json_quote(role).as_str());
    content.append("}");
    content
}

fn gemini_role(role: ChatRole) -> (id: &'static str)
    ensures
        id@ == gemini_role_spec(role),
{
    match role {
        ChatRole::User => "user",
        ChatRole::Assistant => "model",
    }
}

/// The turns of a conversation as JSON messages, after the `prefix` messages.
fn turn_messages(prefix: Vec<String>, history: &[ChatTurn], gemini: bool) -> (messages: Vec<String>)
    ensures
        string_views(messages@) == string_views(prefix@) + (if gemini {
            turn_views(history@).map_values(
                |turn: ChatTurnView| gemini_content_json(gemini_role_spec(turn.role), turn.text),
            )
        } else {
            turn_messages_json(turn_views(history@))
        }),
{
    let ghost to_json = if gemini {
        |turn: ChatTurnView| gemini_content_json(gemini_role_spec(turn.role), turn.text)
    } else {
        |turn: ChatTurnView| role_content_json(turn.role.id_spec(), turn.text)
    };
    let mut messages = prefix;
    let mut i: usize = 0;
    while i < history.len()
        invariant
            i <= history@.len(),
            to_json == (if gemini {
                |turn: ChatTurnView| gemini_content_json(gemini_role_spec(turn.role), turn.text)
            } else {
                |turn: ChatTurnView| role_content_json(turn.role.id_spec(), turn.text)
            }),
            string_views(messages@) == string_views(prefix@) + turn_views(history@).take(
                i as int,
            ).map_values(to_json),
        decreases history@.len() - i,
    {
        let turn = &history[i];
        let message = if gemini {
            gemini_content(gemini_role(turn.role), turn.text.as_str())
        } else {
            role_content(turn.role.stable_id(), turn.text.as_str())
        };
        let ghost before = messages@;
        messages.push(message);
        proof {
            crate::catalog::lemma_map_take_succ(turn_views(history@), i as int, to_json);
            assert(string_views(messages@) =~= string_views(before).push(message@));
            assert(turn_views(history@)[i as int] == turn@);
        }
        i = i + 1;
    }
    assert(turn_views(history@).take(history@.len() as int) =~= turn_views(history@));
    messages
}

fn openai_body(model: &str, system: &str, history: &[ChatTurn]) -> (body: String)
    ensures
        body@ == openai_body_spec(model@, system@, turn_views(history@)),
{
    let mut prefix: Vec<String> = Vec::new();
    let system_message = role_content("system", system);
    prefix.push(system_message);
    assert(string_views(prefix@) =~= seq![role_content_json("system"@, system@)]);
    let messages = turn_messages(prefix, history, false);
    let mut body = "{\"messages\":[".to_owned();
    body.append(join_with_commas(&messages).as_str());
    body.append("],\"model\":");
    body.append(json_quote(model).as_str());
    body.append("}");
    body
}

fn anthropic_body(model: &str, system: &str, history: &[ChatTurn]) -> (body: String)
    ensures
        body@ == anthropic_body_spec(model@, system@, turn_views(history@)),
{
    let messages = turn_messages(Vec::new(), history, false);
    assert(string_views(messages@) =~= turn_messages_json(turn_views(history@)));
    let mut body = "{\"max_tokens\":".to_owned();
    body.append(decimal_string(MAX_OUTPUT_TOKENS).as_str());
    body.append(",\"messages\":[");
    body.append(join_with_commas(&messages).as_str());
    body.append("],\"model\":");
    body.append(json_quote(model).as_str());
    body.append(",\"system\":");
    body.append(json_quote(system).as_str());
    body.append("}");
    body
}

fn gemini_body(system: &str, history: &[ChatTurn]) -> (body: String)
    ensures
        body@ == gemini_body_spec(system@, turn_views(history@)),
{
    let contents = turn_messages(Vec::new(), history, true);
    assert(string_views(contents@) =~= turn_views(history@).map_values(
        |turn: ChatTurnView| gemini_content_json(gemini_role_spec(turn.role), turn.text),
    ));
    let mut body = "{\"contents\":[".to_owned();
    body.append(join_with_commas(&contents).as_str());
    body.append("],\"systemInstruction\":{\"parts\":[{\"text\":");
    body.append(json_quote(system).as_str());
    body.append("}]}}");
    body
}


/// The endpoint a request goes to: the configured one when there is one, else the
/// provider's default, without trailing slashes.
pub open spec fn resolved_endpoint_spec(provider: AiProvider, endpoint: Seq<char>) -> Option<Seq<char>> {
    let configured = trimmed(endpoint);
    if configured.len() == 0 {
        match provider.default_endpoint_spec() {
            Some(default) => Some(without_trailing(default, '/')),
            None => None,
        }
    } else {
        Some(without_trailing(configured, '/'))
    }
}

/// The model a request asks for: the configured one when there is one, else the
/// provider's default.
pub open spec fn resolved_model_spec(provider: AiProvider, model_path: Seq<char>) -> Option<Seq<char>> {
    let configured = trimmed(model_path);
    if configured.len() == 0 {
        provider.default_model_spec()
    } else {
        Some(configured)
    }
}

/// The credential a request carries: the given key without surrounding whitespace, and no
/// key at all when it is blank.
pub open spec fn usable_key_spec(api_key: Option<Seq<char>>) -> Option<Seq<char>> {
    match api_key {
        Some(key) => if is_blank(key) {
            None
        } else {
            Some(trimmed(key))
        },
        None => None,
    }
}

/// The header every request carries.
pub open spec fn content_type_header() -> (Seq<char>, Seq<char>) {
    ("content-type"@, "application/json"@)
}

/// The one request that asks the configured provider for the next reply, or the specific
/// piece of configuration that is missing.
pub open spec fn chat_request_spec(
    provider: AiProvider,
    endpoint: Seq<char>,
    model_path: Seq<char>,
    api_key: Option<Seq<char>>,
    system: Seq<char>,
    history: Seq<ChatTurnView>,
) -> Result<ChatRequestView, InferenceErrorView> {
    match provider.wire_format_spec() {
        None => Err(InferenceErrorView::NotConfigured),
        Some(format) => match resolved_endpoint_spec(provider, endpoint) {
            None => Err(InferenceErrorView::MissingEndpoint),
            Some(endpoint) => match resolved_model_spec(provider, model_path) {
                None => Err(InferenceErrorView::MissingModel),
                Some(model) => {
                    let key = usable_key_spec(api_key);
                    if provider.is_cloud_spec() && key is None {
                        Err(InferenceErrorView::MissingApiKey)
                    } else {
                        match format {
                            WireFormat::OpenAiCompatible => Ok(
                                ChatRequestView {
                                    url: endpoint + "/chat/completions"@,
                                    headers: match key {
                                        Some(key) => seq![
                                            content_type_header(),
                                            ("authorization"@, "Bearer "@ + key),
                                        ],
                                        None => seq![content_type_header()],
                                    },
                                    body: openai_body_spec(model, system, history),
                                    provider,
                                },
                            ),
                            WireFormat::Anthropic => match key {
                                None => Err(InferenceErrorView::MissingApiKey),
                                Some(key) => Ok(
                                    ChatRequestView {
                                        url: endpoint + "/v1/messages"@,
                                        headers: seq![
                                            content_type_header(),
                                            ("x-api-key"@, key),
                                            ("anthropic-version"@, ANTHROPIC_VERSION@),
                                        ],
                                        body: anthropic_body_spec(model, system, history),
                                        provider,
                                    },
                                ),
                            },
                            WireFormat::Gemini => match key {
                                None => Err(InferenceErrorView::MissingApiKey),
                                Some(key) => Ok(
                                    ChatRequestView {
                                        url: endpoint + "/v1beta/models/"@ + model
                                            + ":generateContent"@,
                                        headers: seq![
                                            content_type_header(),
                                            ("x-goog-api-key"@, key),
                                        ],
                                        body: gemini_body_spec(system, history),
                                        provider,
                                    },
                                ),
                            },
                        }
                    }
                },
            },
        },
    }
}

fn resolve_endpoint(settings: &AiSettings) -> (endpoint: Result<String, InferenceError>)
    ensures
        match endpoint {
            Ok(endpoint) => resolved_endpoint_spec(settings.provider, settings.endpoint@) == Some(
                endpoint@,
            ),
            Err(error) => resolved_endpoint_spec(settings.provider, settings.endpoint@) is None
                && error@ == InferenceErrorView::MissingEndpoint,
        },
{
    let configured = trim(settings.endpoint.as_str());
    let endpoint = if configured.is_empty() {
        match settings.provider.default_endpoint() {
            Some(default) => default,
            None => return Err(InferenceError::MissingEndpoint),
        }
    } else {
        configured
    };
    Ok(trim_trailing(endpoint, '/').to_owned())
}

fn resolve_model(settings: &AiSettings) -> (model: Result<String, InferenceError>)
    ensures
        match model {
            Ok(model) => resolved_model_spec(settings.provider, settings.model_path@) == Some(
                model@,
            ),
            Err(error) => resolved_model_spec(settings.provider, settings.model_path@) is None
                && error@ == InferenceErrorView::MissingModel,
        },
{
    let configured = trim(settings.model_path.as_str());
    if !configured.is_empty() {
        return Ok(configured.to_owned());
    }
    match settings.provider.default_model() {
        Some(model) => Ok(model.to_owned()),
        None => Err(InferenceError::MissingModel),
    }
}

fn usable_key(api_key: Option<&str>) -> (key: Option<&str>)
    ensures
        key.deep_view() == usable_key_spec(api_key.deep_view()),
{
    match api_key {
        Some(key) => {
            let trimmed_key = trim(key);
            if trimmed_key.is_empty() {
                None
            } else {
                Some(trimmed_key)
            }
        },
        None => None,
    }
}

fn header(name: &str, value: &str) -> (pair: (String, String))
    ensures
        pair.0@ == name@,
        pair.1@ == value@,
{
    (name.to_owned(), value.to_owned())
}

/// Builds the one request that asks the configured provider for the next reply.
///
/// # Errors
///
/// Returns the specific piece of configuration that is missing, so the interface can say
/// what to fix instead of reporting a generic failure.
pub fn build_chat_request(
    settings: &AiSettings,
    api_key: Option<&str>,
    system: &str,
    history: &[ChatTurn],
) -> (request: Result<ChatRequest, InferenceError>)
    ensures
        match request {
            Ok(request) => chat_request_spec(
                settings.provider,
                settings.endpoint@,
                settings.model_path@,
                api_key.deep_view(),
                system@,
                turn_views(history@),
            ) == Ok::<ChatRequestView, InferenceErrorView>(request@),
            Err(error) => chat_request_spec(
                settings.provider,
                settings.endpoint@,
                settings.model_path@,
                api_key.deep_view(),
                system@,
                turn_views(history@),
            ) == Err::<ChatRequestView, InferenceErrorView>(error@),
        },
{
    let provider = settings.provider;
    let format = match provider.wire_format() {
        Some(format) => format,
        None => return Err(InferenceError::NotConfigured),
    };
    let endpoint = match resolve_endpoint(settings) {
        Ok(endpoint) => endpoint,
        Err(error) => return Err(error),
    };
    let model = match resolve_model(settings) {
        Ok(model) => model,
        Err(error) => return Err(error),
    };
    let key = usable_key(api_key);

    // A cloud provider cannot answer without a credential; a local one usually can.
    if provider.is_cloud() && key.is_none() {
        return Err(InferenceError::MissingApiKey);
    }

    let mut headers: Vec<(String, String)> = Vec::new();
    headers.push(header("content-type", "application/json"));
    let (url, body) = match format {
        WireFormat::OpenAiCompatible => {
            if let Some(key) = key {
                let mut bearer = "Bearer ".to_owned();
                bearer.append(key);
                headers.push(header("authorization", bearer.as_str()));
                assert(header_views(headers@) =~= seq![
                    content_type_header(),
                    ("authorization"@, "Bearer "@ + key@),
                ]);
            } else {
                assert(header_views(headers@) =~= seq![content_type_header()]);
            }
            let mut url = endpoint.clone();
            url.append("/chat/completions");
            (url, openai_body(model.as_str(), system, history))
        },
        WireFormat::Anthropic => {
            let key = match key {
                Some(key) => key,
                None => return Err(InferenceError::MissingApiKey),
            };
            headers.push(header("x-api-key", key));
            headers.push(header("anthropic-version", ANTHROPIC_VERSION));
            assert(header_views(headers@) =~= seq![
                content_type_header(),
                ("x-api-key"@, key@),
                ("anthropic-version"@, ANTHROPIC_VERSION@),
            ]);
            let mut url = endpoint.clone();
            url.append("/v1/messages");
            (url, anthropic_body(model.as_str(), system, history))
        },
        WireFormat::Gemini => {
            let key = match key {
                Some(key) => key,
                None => return Err(InferenceError::MissingApiKey),
            };
            // Sent as a header rather than a query parameter so the key stays out of URLs.
            headers.push(header("x-goog-api-key", key));
            assert(header_views(headers@) =~= seq![content_type_header(), ("x-goog-api-key"@, key@)]);
            let mut url = endpoint.clone();
            url.append("/v1beta/models/");
            url.append(model.as_str());
            url.append(":generateContent");
            (url, gemini_body(system, history))
        },
    };
    Ok(ChatRequest { url, headers, body, provider })
}


/// A cloud provider without a usable credential is refused, never sent a request.
pub proof fn lemma_cloud_request_needs_a_key(
    provider: AiProvider,
    endpoint: Seq<char>,
    model_path: Seq<char>,
    api_key: Option<Seq<char>>,
    system: Seq<char>,
    history: Seq<ChatTurnView>,
)
    requires
        provider.is_cloud_spec(),
        usable_key_spec(api_key) is None,
    ensures
        chat_request_spec(provider, endpoint, model_path, api_key, system, history) is Err,
{
}

/// A provider on this machine that knows where to go and what to ask is reached with no
/// credential at all, and then the request carries no credential header.
pub proof fn lemma_local_request_needs_no_key(
    provider: AiProvider,
    endpoint: Seq<char>,
    model_path: Seq<char>,
    system: Seq<char>,
    history: Seq<ChatTurnView>,
)
    requires
        provider.is_local_spec(),
        resolved_endpoint_spec(provider, endpoint) is Some,
        resolved_model_spec(provider, model_path) is Some,
    ensures
        chat_request_spec(provider, endpoint, model_path, None, system, history) matches Ok(
            request,
        ) && request.headers == seq![content_type_header()],
{
}

/// The credential only ever travels in a header: the URL and the body of a request are
/// the same whichever key it carries.
pub proof fn lemma_key_never_reaches_url_or_body(
    provider: AiProvider,
    endpoint: Seq<char>,
    model_path: Seq<char>,
    first_key: Option<Seq<char>>,
    second_key: Option<Seq<char>>,
    system: Seq<char>,
    history: Seq<ChatTurnView>,
)
    requires
        chat_request_spec(provider, endpoint, model_path, first_key, system, history) is Ok,
        chat_request_spec(provider, endpoint, model_path, second_key, system, history) is Ok,
    ensures
        chat_request_spec(provider, endpoint, model_path, first_key, system, history)->Ok_0.url
            == chat_request_spec(
            provider,
            endpoint,
            model_path,
            second_key,
            system,
            history,
        )->Ok_0.url,
        chat_request_spec(provider, endpoint, model_path, first_key, system, history)->Ok_0.body
            == chat_request_spec(
            provider,
            endpoint,
            model_path,
            second_key,
            system,
            history,
        )->Ok_0.body,
{
}

/// Missing configuration is reported by what is missing, in the order a request needs it.
pub proof fn lemma_missing_configuration_is_named(
    provider: AiProvider,
    endpoint: Seq<char>,
    model_path: Seq<char>,
    api_key: Option<Seq<char>>,
    system: Seq<char>,
    history: Seq<ChatTurnView>,
)
    ensures
        provider == AiProvider::Disabled ==> chat_request_spec(
            provider,
            endpoint,
            model_path,
            api_key,
            system,
            history,
        ) == Err::<ChatRequestView, InferenceErrorView>(InferenceErrorView::NotConfigured),
        provider != AiProvider::Disabled && resolved_endpoint_spec(provider, endpoint) is None
            ==> chat_request_spec(provider, endpoint, model_path, api_key, system, history)
            == Err::<ChatRequestView, InferenceErrorView>(InferenceErrorView::MissingEndpoint),
        provider != AiProvider::Disabled && resolved_endpoint_spec(provider, endpoint) is Some
            && resolved_model_spec(provider, model_path) is None ==> chat_request_spec(
            provider,
            endpoint,
            model_path,
            api_key,
            system,
            history,
        ) == Err::<ChatRequestView, InferenceErrorView>(InferenceErrorView::MissingModel),
{
}


/// The string a value holds under `key`, when it is an object holding one there.
pub open spec fn member_text(value: JsonValue, key: Seq<char>) -> Option<Seq<char>> {
    match value.member_spec(key) {
        Some(member) => member.as_text_spec(),
        None => None,
    }
}

/// The text one content block contributes: its `text` when the block is untagged or
/// tagged `"text"`; nothing for thinking blocks and other kinds.
pub open spec fn block_text_spec(block: JsonValue) -> Seq<char> {
    let is_text_block = match member_text(block, "type"@) {
        Some(kind) => kind == "text"@,
        None => true,
    };
    if is_text_block {
        match member_text(block, "text"@) {
            Some(text) => text,
            None => Seq::empty(),
        }
    } else {
        Seq::empty()
    }
}

/// Every text block of a content array, joined into one string.
pub open spec fn joined_text_spec(blocks: Seq<JsonValue>) -> Seq<char>
    decreases blocks.len(),
{
    if blocks.len() == 0 {
        Seq::empty()
    } else {
        joined_text_spec(blocks.drop_last()) + block_text_spec(blocks.last())
    }
}

/// Where each wire format puts the reply text.
pub open spec fn reply_text_spec(format: WireFormat, value: JsonValue) -> Option<Seq<char>> {
    match format {
        WireFormat::OpenAiCompatible => match value.member_spec("choices"@) {
            Some(choices) => match choices.step_zero_spec() {
                Some(choice) => match choice.member_spec("message"@) {
                    Some(message) => member_text(message, "content"@),
                    None => None,
                },
                None => None,
            },
            None => None,
        },
        WireFormat::Anthropic => match value.member_spec("content"@) {
            Some(content) => match content.as_items_spec() {
                Some(blocks) => Some(joined_text_spec(blocks)),
                None => None,
            },
            None => None,
        },
        WireFormat::Gemini => match value.member_spec("candidates"@) {
            Some(candidates) => match candidates.step_zero_spec() {
                Some(candidate) => match candidate.member_spec("content"@) {
                    Some(content) => match content.member_spec("parts"@) {
                        Some(parts) => match parts.as_items_spec() {
                            Some(blocks) => Some(joined_text_spec(blocks)),
                            None => None,
                        },
                        None => None,
                    },
                    None => None,
                },
                None => None,
            },
            None => None,
        },
    }
}

/// The message a refusal is reported with.
pub open spec fn refusal_message() -> Seq<char> {
    "el proveedor declino responder"@
}

/// The message a response without reply text is reported with.
pub open spec fn no_text_message() -> Seq<char> {
    "no se encontro texto en la respuesta"@
}

/// The reply a successful response body holds, read according to the provider's format,
/// given what the JSON parser made of the body.
pub open spec fn chat_reply_spec(provider: AiProvider, parsed: Result<JsonValue, Seq<char>>) -> Result<Seq<char>, InferenceErrorView> {
    match provider.wire_format_spec() {
        None => Err(InferenceErrorView::NotConfigured),
        Some(format) => match parsed {
            Err(message) => Err(InferenceErrorView::Malformed(message)),
            Ok(value) => if format == WireFormat::Anthropic && member_text(value, "stop_reason"@)
                == Some("refusal"@) {
                // A refusal is a 200 with a stop reason, not an error status.
                Err(InferenceErrorView::Status { code: 200, message: refusal_message() })
            } else {
                match reply_text_spec(format, value) {
                    Some(text) => if is_blank(text) {
                        Err(InferenceErrorView::Malformed(no_text_message()))
                    } else {
                        Ok(text)
                    },
                    None => Err(InferenceErrorView::Malformed(no_text_message())),
                }
            },
        },
    }
}

fn member_text_of<'a>(value: &'a JsonValue, key: &str) -> (text: Option<&'a str>)
    ensures
        text.deep_view() == member_text(*value, key@),
{
    match value.member(key) {
        Some(member) => member.as_text(),
        None => None,
    }
}

/// Collects every text block of a content array into one string.
fn join_text_blocks(blocks: &Vec<JsonValue>) -> (joined: String)
    ensures
        joined@ == joined_text_spec(blocks@),
{
    let mut joined = String::new();
    let mut i: usize = 0;
    while i < blocks.len()
        invariant
            i <= blocks@.len(),
            joined@ == joined_text_spec(blocks@.take(i as int)),
        decreases blocks@.len() - i,
    {
        let block = &blocks[i];
        proof {
            assert(blocks@.take(i + 1).drop_last() =~= blocks@.take(i as int));
            assert(blocks@.take(i + 1).last() == *block);
        }
        // Anthropic tags each block; Gemini's parts carry only the text field.
        let is_text_block = match member_text_of(block, "type") {
            Some(kind) => str_equal(kind, "text"),
            None => true,
        };
        if is_text_block {
            if let Some(text) = member_text_of(block, "text") {
                joined.append(text);
            }
        }
        proof {
            assert(joined@ =~= joined_text_spec(blocks@.take(i + 1)));
        }
        i = i + 1;
    }
    assert(blocks@.take(blocks@.len() as int) =~= blocks@);
    joined
}

fn reply_text(format: WireFormat, value: &JsonValue) -> (text: Option<String>)
    ensures
        text.deep_view() == reply_text_spec(format, *value),
{
    match format {
        WireFormat::OpenAiCompatible => {
            let choices = match value.member("choices") {
                Some(choices) => choices,
                None => return None,
            };
            let choice = match choices.step_zero() {
                Some(choice) => choice,
                None => return None,
            };
            let message = match choice.member("message") {
                Some(message) => message,
                None => return None,
            };
            match member_text_of(message, "content") {
                Some(content) => Some(content.to_owned()),
                None => None,
            }
        },
        WireFormat::Anthropic => {
            let content = match value.member("content") {
                Some(content) => content,
                None => return None,
            };
            match content.as_items() {
                Some(blocks) => Some(join_text_blocks(blocks)),
                None => None,
            }
        },
        WireFormat::Gemini => {
            let candidates = match value.member("candidates") {
                Some(candidates) => candidates,
                None => return None,
            };
            let candidate = match candidates.step_zero() {
                Some(candidate) => candidate,
                None => return None,
            };
            let content = match candidate.member("content") {
                Some(content) => content,
                None => return None,
            };
            let parts = match content.member("parts") {
                Some(parts) => parts,
                None => return None,
            };
            match parts.as_items() {
                Some(blocks) => Some(join_text_blocks(blocks)),
                None => None,
            }
        },
    }
}

/// Reads the reply out of a successful response body, given what the JSON parser made of
/// that body.
///
/// # Errors
///
/// Returns [`InferenceError::Malformed`] when the body is not JSON or does not hold text
/// where this provider's format says it should, and a status 200 when Anthropic refused.
pub fn read_chat_reply(provider: AiProvider, parsed: &Result<JsonValue, String>) -> (reply: Result<String, InferenceError>)
    ensures
        match reply {
            Ok(text) => chat_reply_spec(provider, parse_outcome(*parsed)) == Ok::<Seq<char>, InferenceErrorView>(text@),
            Err(error) => chat_reply_spec(provider, parse_outcome(*parsed)) == Err::<Seq<char>, InferenceErrorView>(error@),
        },
{
    let format = match provider.wire_format() {
        Some(format) => format,
        None => return Err(InferenceError::NotConfigured),
    };
    let value = match parsed {
        Ok(value) => value,
        Err(message) => return Err(InferenceError::Malformed(message.clone())),
    };
    if format == WireFormat::Anthropic {
        if let Some(reason) = member_text_of(value, "stop_reason") {
            if str_equal(reason, "refusal") {
                return Err(
                    InferenceError::Status {
                        code: 200,
                        message: "el proveedor declino responder".to_owned(),
                    },
                );
            }
        }
    }
    match reply_text(format, value) {
        Some(text) => if str_is_blank(text.as_str()) {
            Err(InferenceError::Malformed("no se encontro texto en la respuesta".to_owned()))
        } else {
            Ok(text)
        },
        None => Err(InferenceError::Malformed("no se encontro texto en la respuesta".to_owned())),
    }
}

/// Reads the reply out of a successful response body.
///
/// # Errors
///
/// Returns [`InferenceError::NotConfigured`] for the disabled provider, and otherwise what
/// [`read_chat_reply`] returns for the parsed body.
pub fn parse_chat_response(provider: AiProvider, body: &str) -> (reply: Result<String, InferenceError>)
    ensures
        match reply {
            Ok(text) => chat_reply_spec(provider, parsed_json(body@)) == Ok::<Seq<char>, InferenceErrorView>(text@),
            Err(error) => chat_reply_spec(provider, parsed_json(body@)) == Err::<Seq<char>, InferenceErrorView>(error@),
        },
{
    if provider.wire_format().is_none() {
        return Err(InferenceError::NotConfigured);
    }
    let parsed = parse_json(body);
    read_chat_reply(provider, &parsed)
}

/// The places providers put their own error message, in the order they are tried.
pub open spec fn error_candidate_spec(value: JsonValue) -> Option<Seq<char>> {
    let nested = match value.member_spec("error"@) {
        Some(error) => member_text(error, "message"@),
        None => None,
    };
    if nested is Some {
        // OpenAI, Gemini and Anthropic all use this.
        nested
    } else if member_text(value, "message"@) is Some {
        member_text(value, "message"@)
    } else if member_text(value, "error"@) is Some {
        member_text(value, "error"@)
    } else {
        member_text(value, "detail"@)
    }
}

/// A provider's own error message, trimmed, when the body holds a non-blank one.
pub open spec fn error_message_spec(parsed: Result<JsonValue, Seq<char>>) -> Option<Seq<char>> {
    match parsed {
        Err(_) => None,
        Ok(value) => match error_candidate_spec(value) {
            Some(message) => if is_blank(message) {
                None
            } else {
                Some(trimmed(message))
            },
            None => None,
        },
    }
}

/// The provider's own error message in a failed response, given what the JSON parser made
/// of the body.
pub fn read_error_message(parsed: &Result<JsonValue, String>) -> (message: Option<String>)
    ensures
        message.deep_view() == error_message_spec(parse_outcome(*parsed)),
{
    let value = match parsed {
        Ok(value) => value,
        Err(_) => return None,
    };
    let nested = match value.member("error") {
        Some(error) => member_text_of(error, "message"),
        None => None,
    };
    let candidate = if nested.is_some() {
        nested
    } else if member_text_of(value, "message").is_some() {
        member_text_of(value, "message")
    } else if member_text_of(value, "error").is_some() {
        member_text_of(value, "error")
    } else {
        member_text_of(value, "detail")
    };
    match candidate {
        Some(message) => {
            let trimmed_message = trim(message);
            if trimmed_message.is_empty() {
                None
            } else {
                Some(trimmed_message.to_owned())
            }
        },
        None => None,
    }
}

/// Best-effort extraction of a provider's own error message from a failed response.
///
/// Every provider nests it differently and some answer with plain text, so a miss is
/// normal and the caller falls back to reporting the status code alone.
pub fn parse_error_message(body: &str) -> (message: Option<String>)
    ensures
        message.deep_view() == error_message_spec(parsed_json(body@)),
{
    let parsed = parse_json(body);
    read_error_message(&parsed)
}

/// What one exchange comes to once the provider has answered with `status` and `body`: the
/// reply for a success status, otherwise the provider's refusal, carrying the status and
/// the provider's own words when it gave any.
pub open spec fn exchange_outcome_spec(provider: AiProvider, status: u16, body: Seq<char>) -> Result<
    Seq<char>,
    InferenceErrorView,
> {
    if 200 <= status < 300 {
        chat_reply_spec(provider, parsed_json(body))
    } else {
        Err(
            InferenceErrorView::Status {
                code: status,
                message: match error_message_spec(parsed_json(body)) {
                    Some(message) => message,
                    None => Seq::empty(),
                },
            },
        )
    }
}

/// Reads the provider's answer to one exchange.
///
/// A failed status is reported as such even when its body is not JSON, so the interface
/// can tell a refusal from a request that never arrived.
pub fn read_exchange(provider: AiProvider, status: u16, body: &str) -> (reply: Result<
    String,
    InferenceError,
>)
    ensures
        match reply {
            Ok(text) => exchange_outcome_spec(provider, status, body@) == Ok::<
                Seq<char>,
                InferenceErrorView,
            >(text@),
            Err(error) => exchange_outcome_spec(provider, status, body@) == Err::<
                Seq<char>,
                InferenceErrorView,
            >(error@),
        },
{
    if 200 <= status && status < 300 {
        return parse_chat_response(provider, body);
    }
    let message = match parse_error_message(body) {
        Some(message) => message,
        None => String::new(),
    };
    Err(InferenceError::Status { code: status, message })
}

/// The credential travels exactly as the user stored it, without surrounding whitespace,
/// in the header each provider documents: `authorization: Bearer <key>` for
/// OpenAI-compatible servers, `x-api-key: <key>` next to the pinned API version for
/// Anthropic and `x-goog-api-key: <key>` for Gemini, always after the JSON content type.
/// An Anthropic request with a usable key is always built, its endpoint and model
/// falling back to the provider's defaults.
pub proof fn lemma_credential_header_carries_the_trimmed_key(
    provider: AiProvider,
    endpoint: Seq<char>,
    model_path: Seq<char>,
    key: Seq<char>,
    system: Seq<char>,
    history: Seq<ChatTurnView>,
)
    requires
        !is_blank(key),
    ensures
        provider == AiProvider::Anthropic ==> chat_request_spec(
            provider,
            endpoint,
            model_path,
            Some(key),
            system,
            history,
        ) is Ok,
        match chat_request_spec(provider, endpoint, model_path, Some(key), system, history) {
            Ok(request) => if provider == AiProvider::Anthropic {
                request.headers == seq![
                    ("content-type"@, "application/json"@),
                    ("x-api-key"@, trimmed(key)),
                    ("anthropic-version"@, "2023-06-01"@),
                ]
            } else if provider == AiProvider::Gemini {
                request.headers == seq![
                    ("content-type"@, "application/json"@),
                    ("x-goog-api-key"@, trimmed(key)),
                ]
            } else {
                request.headers == seq![
                    ("content-type"@, "application/json"@),
                    ("authorization"@, "Bearer "@ + trimmed(key)),
                ]
            },
            Err(_) => true,
        },
{
}

/// What the interface shows of words a provider wrote: nothing when there are none or they
/// are blank, otherwise the words without surrounding whitespace.
pub open spec fn shown_words(words: Option<Seq<char>>) -> Option<Seq<char>> {
    match words {
        Some(text) => if is_blank(text) {
            None
        } else {
            Some(trimmed(text))
        },
        None => None,
    }
}

/// Where a failed response keeps the provider's words, in the order they are looked for:
/// `error.message` first; then a top-level `message`, whatever a top-level `error` string
/// says; then a top-level `error` string; then `detail`. The words come back trimmed, and
/// a blank message or an unreadable body gives nothing.
pub proof fn lemma_error_message_is_looked_for_in_order(value: JsonValue, unreadable: Seq<char>)
    ensures
        error_message_spec(Err(unreadable)) is None,
        ({
            let nested = match value.member_spec("error"@) {
                Some(error) => match error.member_spec("message"@) {
                    Some(message) => message.as_text_spec(),
                    None => None,
                },
                None => None,
            };
            let message = match value.member_spec("message"@) {
                Some(member) => member.as_text_spec(),
                None => None,
            };
            let error = match value.member_spec("error"@) {
                Some(member) => member.as_text_spec(),
                None => None,
            };
            let detail = match value.member_spec("detail"@) {
                Some(member) => member.as_text_spec(),
                None => None,
            };
            &&& nested is Some ==> error_message_spec(Ok(value)) == shown_words(nested)
            &&& nested is None && message is Some ==> error_message_spec(Ok(value))
                == shown_words(message)
            &&& nested is None && message is None && error is Some ==> error_message_spec(
                Ok(value),
            ) == shown_words(error)
            &&& nested is None && message is None && error is None ==> error_message_spec(
                Ok(value),
            ) == shown_words(detail)
        }),
{
}

/// Whether `text` occurs in `s`.
pub open spec fn occurs_in(s: Seq<char>, text: Seq<char>) -> bool {
    exists|start: int|
        0 <= start && start + text.len() <= s.len() && #[trigger] s.subrange(
            start,
            start + text.len(),
        ) == text
}

/// Each persona speaks in its own voice: Tom's prompt asks for a precise, professional
/// tone and Tomy's for a warm, relaxed one, whatever the profession and the initiative.
/// The prompt names the assistant first, and also carries the profession and the
/// initiative the user chose.
pub proof fn lemma_each_persona_speaks_in_its_own_voice(profile: UserProfile)
    ensures
        system_prompt_spec(profile).take(5) == "Eres "@,
        occurs_in(
            system_prompt_spec(profile),
            if profile.persona == Persona::Tom {
                "Hablas de forma precisa, serena y directa, con lenguaje profesional."@
            } else {
                "Hablas de forma cercana, calida y relajada, sin perder criterio."@
            },
        ),
        occurs_in(
            system_prompt_spec(profile),
            match profile.assistance_style {
                AssistanceStyle::Focused => "Responde solo lo que se te pregunta y no propongas trabajo extra."@,
                AssistanceStyle::Balanced => "Sugiere un siguiente paso solo cuando el patron sea claro, sin insistir."@,
                AssistanceStyle::Proactive => "Puedes anticipar necesidades y proponer acciones, siempre pidiendo aprobacion."@,
            },
        ),
        occurs_in(system_prompt_spec(profile), profile.professional_profile.label_spec()),
{
    let prompt = system_prompt_spec(profile);
    let head = "Eres "@ + profile.persona.display_name_spec()
        + ", un asistente de escritorio local que acompaña a alguien cuyo trabajo principal es: "@;
    let label = profile.professional_profile.label_spec();
    let voice = profile.persona.voice_spec();
    let initiative = profile.assistance_style.initiative_spec();
    let label_start: int = head.len() as int;
    let voice_start: int = label_start + label.len() + ". "@.len();
    let initiative_start: int = voice_start + voice.len() + " "@.len();
    assert(prompt.subrange(label_start, label_start + label.len()) =~= label);
    assert(prompt.subrange(voice_start, voice_start + voice.len()) =~= voice);
    assert(prompt.subrange(initiative_start, initiative_start + initiative.len())
        =~= initiative);
    assert(prompt.take(5) =~= "Eres "@) by {
        reveal_strlit("Eres ");
    }
}

} // verus!
