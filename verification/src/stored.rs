//! Reading back what the local store persisted, and the search pattern it queries with.
//! The store itself talks to SQLite; every decision about what a stored row means is here.

use vstd::prelude::*;

use crate::model::{
    AiProvider, AiSettings, AssistanceStyle, Note, Persona, ProfessionalProfile, UserProfile,
};
use crate::text::{str_equal, trim, trimmed};

verus! {

#[verifier::external_type_specification]
#[verifier::external_body]
pub struct ExUuidError(uuid::Error);

#[verifier::external_type_specification]
#[verifier::external_body]
pub struct ExTimestampError(chrono::ParseError);

/// A stored row holds a value this version cannot read: an id it does not know, or an
/// identifier or timestamp that does not parse.
#[derive(Debug, PartialEq, Eq)]
pub enum StoredValueError {
    UnknownPersona(String),
    UnknownProfessionalProfile(String),
    UnknownAssistanceStyle(String),
    UnknownAiProvider(String),
    InvalidUuid { value: String, source: uuid::Error },
    InvalidTimestamp { value: String, source: chrono::ParseError },
}

/// What a [`StoredValueError`] says: the kind of problem and the stored text.
pub ghost enum StoredValueErrorView {
    UnknownPersona(Seq<char>),
    UnknownProfessionalProfile(Seq<char>),
    UnknownAssistanceStyle(Seq<char>),
    UnknownAiProvider(Seq<char>),
    InvalidUuid(Seq<char>),
    InvalidTimestamp(Seq<char>),
}

impl View for StoredValueError {
    type V = StoredValueErrorView;

    open spec fn view(&self) -> StoredValueErrorView {
        match self {
            StoredValueError::UnknownPersona(value) => StoredValueErrorView::UnknownPersona(value@),
            StoredValueError::UnknownProfessionalProfile(value) => StoredValueErrorView::UnknownProfessionalProfile(value@),
            StoredValueError::UnknownAssistanceStyle(value) => StoredValueErrorView::UnknownAssistanceStyle(value@),
            StoredValueError::UnknownAiProvider(value) => StoredValueErrorView::UnknownAiProvider(value@),
            StoredValueError::InvalidUuid { value, .. } => StoredValueErrorView::InvalidUuid(value@),
            StoredValueError::InvalidTimestamp { value, .. } => StoredValueErrorView::InvalidTimestamp(
                value@,
            ),
        }
    }
}

/// The id a persona is stored under.
pub fn persona_to_str(persona: Persona) -> (id: &'static str)
    ensures
        id@ == persona.id_spec(),
{
    match persona {
        Persona::Tom => "tom",
        Persona::Tomy => "tomy",
    }
}

/// The persona a stored id names.
pub fn parse_persona(value: &str) -> (persona: Result<Persona, StoredValueError>)
    ensures
        match persona {
            Ok(persona) => Persona::from_id_spec(value@) == Some(persona),
            Err(error) => Persona::from_id_spec(value@) is None && error@
                == StoredValueErrorView::UnknownPersona(value@),
        },
{
    if str_equal(value, "tom") {
        Ok(Persona::Tom)
    } else if str_equal(value, "tomy") {
        Ok(Persona::Tomy)
    } else {
        Err(StoredValueError::UnknownPersona(value.to_owned()))
    }
}

/// The professional profile a stored id names.
pub fn parse_professional_profile(value: &str) -> (profile: Result<ProfessionalProfile, StoredValueError>)
    ensures
        match profile {
            Ok(profile) => ProfessionalProfile::from_id_spec(value@) == Some(profile),
            Err(error) => ProfessionalProfile::from_id_spec(value@) is None && error@
                == StoredValueErrorView::UnknownProfessionalProfile(value@),
        },
{
    match ProfessionalProfile::from_stable_id(value) {
        Some(profile) => Ok(profile),
        None => Err(StoredValueError::UnknownProfessionalProfile(value.to_owned())),
    }
}

/// The profile a stored row describes, or the first column whose id is unknown.
pub open spec fn decoded_profile_spec(
    persona: Seq<char>,
    professional_profile: Seq<char>,
    assistance_style: Seq<char>,
) -> Result<UserProfile, StoredValueErrorView> {
    match Persona::from_id_spec(persona) {
        None => Err(StoredValueErrorView::UnknownPersona(persona)),
        Some(persona) => match ProfessionalProfile::from_id_spec(professional_profile) {
            None => Err(StoredValueErrorView::UnknownProfessionalProfile(professional_profile)),
            Some(professional_profile) => match AssistanceStyle::from_id_spec(assistance_style) {
                None => Err(StoredValueErrorView::UnknownAssistanceStyle(assistance_style)),
                Some(assistance_style) => Ok(
                    UserProfile { persona, professional_profile, assistance_style },
                ),
            },
        },
    }
}

/// Reads a stored profile row.
pub fn decode_profile(persona: &str, professional_profile: &str, assistance_style: &str) -> (profile: Result<
    UserProfile,
    StoredValueError,
>)
    ensures
        match profile {
            Ok(profile) => decoded_profile_spec(persona@, professional_profile@, assistance_style@)
                == Ok::<UserProfile, StoredValueErrorView>(profile),
            Err(error) => decoded_profile_spec(
                persona@,
                professional_profile@,
                assistance_style@,
            ) == Err::<UserProfile, StoredValueErrorView>(error@),
        },
{
    let persona = match parse_persona(persona) {
        Ok(persona) => persona,
        Err(error) => return Err(error),
    };
    let professional_profile = match parse_professional_profile(professional_profile) {
        Ok(profile) => profile,
        Err(error) => return Err(error),
    };
    let assistance_style = match AssistanceStyle::from_stable_id(assistance_style) {
        Some(style) => style,
        None => return Err(StoredValueError::UnknownAssistanceStyle(assistance_style.to_owned())),
    };
    Ok(UserProfile { persona, professional_profile, assistance_style })
}

/// Reads the stored AI settings row: the disabled defaults when there is none.
pub fn decode_ai_settings(stored: Option<(String, String, String)>) -> (settings: Result<
    AiSettings,
    StoredValueError,
>)
    ensures
        match stored {
            None => settings matches Ok(settings) && settings.provider == AiProvider::Disabled
                && settings.endpoint@.len() == 0 && settings.model_path@.len() == 0,
            Some((provider, endpoint, model_path)) => match AiProvider::from_id_spec(provider@) {
                None => settings matches Err(error) && error@
                    == StoredValueErrorView::UnknownAiProvider(provider@),
                Some(known) => settings matches Ok(settings) && settings.provider == known
                    && settings.endpoint@ == endpoint@ && settings.model_path@ == model_path@,
            },
        },
{
    match stored {
        None => Ok(AiSettings::default()),
        Some((provider, endpoint, model_path)) => match AiProvider::from_stable_id(provider.as_str()) {
            Some(provider) => Ok(AiSettings { provider, endpoint, model_path }),
            None => Err(StoredValueError::UnknownAiProvider(provider)),
        },
    }
}

/// Whether `c` is a hexadecimal digit, in either case.
pub open spec fn is_hex_char(c: char) -> bool {
    let v = c as u32;
    ||| 0x30 <= v <= 0x39
    ||| 0x41 <= v <= 0x46
    ||| 0x61 <= v <= 0x66
}

/// Whether `s` is a UUID in its hyphenated form: 36 characters, hyphens at positions 8,
/// 13, 18 and 23 and hexadecimal digits everywhere else.
pub open spec fn is_hyphenated_uuid(s: Seq<char>) -> bool {
    &&& s.len() == 36
    &&& forall|i: int|
        0 <= i < 36 ==> if i == 8 || i == 13 || i == 18 || i == 23 {
            s[i] == '-'
        } else {
            is_hex_char(#[trigger] s[i])
        }
}

/// Whether `c` is `expected`, a lowercase ASCII character, ignoring ASCII case.
pub open spec fn same_ignoring_ascii_case(c: char, expected: char) -> bool {
    ||| c == expected
    ||| 0x61 <= (expected as u32) <= 0x7a && (c as u32) == (expected as u32) - 0x20
}

/// Whether `uuid::Uuid::parse_str` accepts `text`: 32 hexadecimal digits, the hyphenated
/// form, the hyphenated form in braces, or `urn:uuid:` in any ASCII case followed by the
/// hyphenated form.
pub open spec fn is_uuid_text(text: Seq<char>) -> bool {
    ||| text.len() == 32 && forall|i: int| 0 <= i < 32 ==> is_hex_char(#[trigger] text[i])
    ||| is_hyphenated_uuid(text)
    ||| text.len() == 38 && text[0] == '{' && text[37] == '}' && is_hyphenated_uuid(
        text.subrange(1, 37),
    )
    ||| text.len() == 45 && (forall|i: int|
        0 <= i < 9 ==> same_ignoring_ascii_case(#[trigger] text[i], "urn:uuid:"@[i]))
        && is_hyphenated_uuid(text.skip(9))
}

/// Whether `chrono::DateTime::parse_from_rfc3339` accepts `text`.
pub uninterp spec fn is_rfc3339_text(text: Seq<char>) -> bool;

/// Calls `uuid::Uuid::parse_str`, which accepts exactly the texts [`is_uuid_text`]
/// describes: its parser checks the length, then the braces or the case-insensitive
/// `urn:uuid:` prefix, then the hyphen positions, then that every other character is a
/// hexadecimal digit. Which identifier comes back is not stated, the type being opaque
/// here.
#[verifier::external_body]
fn parse_uuid_text(text: &str) -> (parsed: Result<uuid::Uuid, uuid::Error>)
    ensures
        parsed is Ok <==> is_uuid_text(text@),
{
    uuid::Uuid::parse_str(text)
}

/// Calls `chrono::DateTime::parse_from_rfc3339` and keeps the UTC wall-clock time of the
/// instant it reads. Which texts it accepts is named, [`is_rfc3339_text`]; which instant
/// comes back is not stated, the type being opaque here.
#[verifier::external_body]
fn parse_utc_timestamp(text: &str) -> (parsed: Result<chrono::NaiveDateTime, chrono::ParseError>)
    ensures
        parsed is Ok <==> is_rfc3339_text(text@),
{
    match chrono::DateTime::parse_from_rfc3339(text) {
        Ok(instant) => Ok(instant.naive_utc()),
        Err(error) => Err(error),
    }
}

/// Why a stored note row cannot be read, checking its identifier, then its creation time,
/// then its update time; `None` when it can.
pub open spec fn note_row_error(id: Seq<char>, created_at: Seq<char>, updated_at: Seq<char>) -> Option<
    StoredValueErrorView,
> {
    if !is_uuid_text(id) {
        Some(StoredValueErrorView::InvalidUuid(id))
    } else if !is_rfc3339_text(created_at) {
        Some(StoredValueErrorView::InvalidTimestamp(created_at))
    } else if !is_rfc3339_text(updated_at) {
        Some(StoredValueErrorView::InvalidTimestamp(updated_at))
    } else {
        None
    }
}

/// Reads a stored note row: its identifier, title, body, creation and update times.
pub fn decode_note(stored: (String, String, String, String, String)) -> (note: Result<
    Note,
    StoredValueError,
>)
    ensures
        match note {
            Ok(note) => note_row_error(stored.0@, stored.3@, stored.4@) is None && note.title@
                == stored.1@ && note.body@ == stored.2@,
            Err(error) => note_row_error(stored.0@, stored.3@, stored.4@) == Some(error@),
        },
{
    let (id, title, body, created_at, updated_at) = stored;
    let id = match parse_uuid_text(id.as_str()) {
        Ok(parsed) => parsed,
        Err(source) => return Err(StoredValueError::InvalidUuid { value: id, source }),
    };
    let created = match parse_utc_timestamp(created_at.as_str()) {
        Ok(parsed) => parsed,
        Err(source) => return Err(StoredValueError::InvalidTimestamp { value: created_at, source }),
    };
    let updated = match parse_utc_timestamp(updated_at.as_str()) {
        Ok(parsed) => parsed,
        Err(source) => return Err(StoredValueError::InvalidTimestamp { value: updated_at, source }),
    };
    Ok(Note { id, title, body, created_at: created, updated_at: updated })
}

/// A stored profile table that predates the assistance style needs that column added.
pub fn needs_assistance_style_column(columns: &Vec<String>) -> (needed: bool)
    ensures
        needed == !(exists|i: int| 0 <= i < columns@.len() && (#[trigger] columns@[i])@ == "assistance_style"@),
{
    let mut i: usize = 0;
    while i < columns.len()
        invariant
            i <= columns@.len(),
            forall|j: int| 0 <= j < i ==> (#[trigger] columns@[j])@ != "assistance_style"@,
        decreases columns@.len() - i,
    {
        if str_equal(columns[i].as_str(), "assistance_style") {
            return false;
        }
        i = i + 1;
    }
    true
}

/// One character of a search query as a `LIKE` pattern matches it literally: the two
/// wildcards and the escape character itself are preceded by a backslash.
pub open spec fn like_escaped_char(c: char) -> Seq<char> {
    if c == '%' || c == '_' || c == '\\' {
        seq!['\\', c]
    } else {
        seq![c]
    }
}

/// A search query escaped character by character for a `LIKE ... ESCAPE '\'` pattern.
pub open spec fn like_escaped(query: Seq<char>) -> Seq<char>
    decreases query.len(),
{
    if query.len() == 0 {
        Seq::empty()
    } else {
        like_escaped(query.drop_last()) + like_escaped_char(query.last())
    }
}

/// Escapes the `LIKE` wildcards and the escape character of `query`.
pub fn escape_like(query: &str) -> (escaped: String)
    ensures
        escaped@ == like_escaped(query@),
{
    let n = query.unicode_len();
    let mut escaped = String::new();
    let mut i: usize = 0;
    while i < n
        invariant
            n == query@.len(),
            i <= n,
            escaped@ == like_escaped(query@.take(i as int)),
        decreases n - i,
    {
        let c = query.get_char(i);
        proof {
            assert(query@.take(i + 1).drop_last() =~= query@.take(i as int));
            assert(query@.take(i + 1).last() == c);
        }
        if c == '%' || c == '_' || c == '\\' {
            escaped.append("\\");
            proof {
                reveal_strlit("\\");
            }
        }
        escaped.append(query.substring_char(i, i + 1));
        proof {
            assert(escaped@ =~= like_escaped(query@.take(i + 1)));
        }
        i = i + 1;
    }
    assert(query@.take(n as int) =~= query@);
    escaped
}

/// The `LIKE` pattern a search runs with: the trimmed query, escaped, between wildcards;
/// nothing for a blank query, which lists every note instead.
pub open spec fn search_pattern_spec(query: Seq<char>) -> Option<Seq<char>> {
    let query = trimmed(query);
    if query.len() == 0 {
        None
    } else {
        Some("%"@ + like_escaped(query) + "%"@)
    }
}

/// The `LIKE` pattern a note search runs with, or `None` when every note is listed.
pub fn search_pattern(query: &str) -> (pattern: Option<String>)
    ensures
        pattern.deep_view() == search_pattern_spec(query@),
{
    let query = trim(query);
    if query.is_empty() {
        return None;
    }
    let mut pattern = "%".to_owned();
    pattern.append(escape_like(query).as_str());
    pattern.append("%");
    Some(pattern)
}


/// A profile written as its three ids reads back as the same profile.
pub proof fn lemma_profile_round_trips_through_its_ids(profile: UserProfile)
    ensures
        decoded_profile_spec(
            profile.persona.id_spec(),
            profile.professional_profile.id_spec(),
            profile.assistance_style.id_spec(),
        ) == Ok::<UserProfile, StoredValueErrorView>(profile),
{
    crate::model::lemma_persona_ids_round_trip(profile.persona, Seq::empty());
    crate::model::lemma_professional_profile_ids_round_trip(
        profile.professional_profile,
        Seq::empty(),
    );
    crate::model::lemma_assistance_style_ids_round_trip(profile.assistance_style, Seq::empty());
}

/// A provider written as its id reads back as the same provider; a stored row is only ever
/// refused for naming a provider that does not exist.
pub proof fn lemma_ai_settings_round_trip_through_their_id(provider: AiProvider, stored_id: Seq<char>)
    ensures
        AiProvider::from_id_spec(provider.id_spec()) == Some(provider),
        AiProvider::from_id_spec(stored_id) is None <==> forall|known: AiProvider|
            known.id_spec() != stored_id,
{
    crate::model::lemma_ai_provider_ids_round_trip(provider, stored_id);
    if AiProvider::from_id_spec(stored_id) is Some {
        let known = AiProvider::from_id_spec(stored_id)->Some_0;
        crate::model::lemma_ai_provider_ids_round_trip(known, stored_id);
    }
    assert forall|known: AiProvider| AiProvider::from_id_spec(stored_id) is None implies known.id_spec()
        != stored_id by {
        crate::model::lemma_ai_provider_ids_round_trip(known, stored_id);
    }
}

} // verus!
