//! A plain model of a parsed JSON document, and the lookups the response readers need.

use vstd::prelude::*;

use crate::text::{digit_char, str_equal};

verus! {

/// A JSON value as the parser hands it over: objects keep their members in the parser's
/// order, numbers keep their textual form.
#[derive(Debug, PartialEq, Eq)]
pub enum JsonValue {
    Null,
    Bool(bool),
    Number(String),
    Text(String),
    Array(Vec<JsonValue>),
    Object(Vec<(String, JsonValue)>),
}


/// The lowercase hexadecimal digit for `d`, below sixteen.
pub open spec fn hex_digit(d: nat) -> char {
    if d < 10 {
        digit_char(d)
    } else if d == 10 {
        'a'
    } else if d == 11 {
        'b'
    } else if d == 12 {
        'c'
    } else if d == 13 {
        'd'
    } else if d == 14 {
        'e'
    } else {
        'f'
    }
}

/// How one character appears inside a JSON string: quotes and backslashes are escaped,
/// control characters get their short escape or a `\u00XX` one, anything else is
/// written as it is.
pub open spec fn json_char(c: char) -> Seq<char> {
    if c == '"' {
        seq!['\\', '"']
    } else if c == '\\' {
        seq!['\\', '\\']
    } else if c == '\u{8}' {
        seq!['\\', 'b']
    } else if c == '\t' {
        seq!['\\', 't']
    } else if c == '\n' {
        seq!['\\', 'n']
    } else if c == '\u{c}' {
        seq!['\\', 'f']
    } else if c == '\r' {
        seq!['\\', 'r']
    } else if (c as nat) < 0x20 {
        seq!['\\', 'u', '0', '0', hex_digit((c as nat) / 16), hex_digit((c as nat) % 16)]
    } else {
        seq![c]
    }
}

/// The characters of `text` with each one escaped for a JSON string.
pub open spec fn json_escaped(text: Seq<char>) -> Seq<char>
    decreases text.len(),
{
    if text.len() == 0 {
        Seq::empty()
    } else {
        json_escaped(text.drop_last()) + json_char(text.last())
    }
}

/// The JSON string literal for `text`, as `serde_json` writes it: the escaped characters
/// between double quotes.
pub open spec fn json_string(text: Seq<char>) -> Seq<char> {
    seq!['"'] + json_escaped(text) + seq!['"']
}

/// Calls `serde_json::to_string` on a string slice, which writes the literal that
/// [`json_string`] describes: `serde_json` escapes exactly the quote, the backslash and
/// the characters below U+0020, with the short escapes for backspace, tab, line feed,
/// form feed and carriage return and lowercase `\u00XX` for the rest. A `str` always
/// serializes, so the error arm, which returns an empty string, is never taken.
#[verifier::external_body]
pub(crate) fn json_quote(text: &str) -> (quoted: String)
    ensures
        quoted@ == json_string(text@),
{
    serde_json::to_string(text).unwrap_or_default()
}

/// Items separated by commas, as JSON writes the members of an array.
pub open spec fn comma_joined(items: Seq<Seq<char>>) -> Seq<char>
    decreases items.len(),
{
    if items.len() == 0 {
        Seq::empty()
    } else if items.len() == 1 {
        items[0]
    } else {
        comma_joined(items.drop_last()) + ","@ + items.last()
    }
}

/// The views of a list of strings.
pub open spec fn string_views(items: Seq<String>) -> Seq<Seq<char>> {
    items.map_values(|item: String| item@)
}

/// Writes `items` separated by commas.
pub fn join_with_commas(items: &Vec<String>) -> (joined: String)
    ensures
        joined@ == comma_joined(string_views(items@)),
{
    let mut joined = String::new();
    let mut i: usize = 0;
    while i < items.len()
        invariant
            i <= items@.len(),
            joined@ == comma_joined(string_views(items@).take(i as int)),
        decreases items@.len() - i,
    {
        let ghost views = string_views(items@);
        proof {
            assert(views.take(i + 1).drop_last() =~= views.take(i as int));
            assert(views.take(i + 1).last() == items@[i as int]@);
        }
        if i == 0 {
            joined = items[0].clone();
            assert(views.take(1) =~= seq![items@[0]@]);
        } else {
            joined.append(",");
            joined.append(items[i].as_str());
        }
        i = i + 1;
    }
    assert(string_views(items@).take(items@.len() as int) =~= string_views(items@));
    joined
}


/// The value `members` holds under `key`: the first member with that name.
pub open spec fn first_member(members: Seq<(String, JsonValue)>, key: Seq<char>) -> Option<JsonValue>
    decreases members.len(),
{
    if members.len() == 0 {
        None
    } else if members[0].0@ == key {
        Some(members[0].1)
    } else {
        first_member(members.drop_first(), key)
    }
}

proof fn lemma_first_member_skips(members: Seq<(String, JsonValue)>, key: Seq<char>, i: int)
    requires
        0 <= i <= members.len(),
        forall|j: int| 0 <= j < i ==> (#[trigger] members[j]).0@ != key,
    ensures
        first_member(members, key) == first_member(members.skip(i), key),
    decreases i,
{
    if i > 0 {
        assert forall|j: int| 0 <= j < i - 1 implies (#[trigger] members.drop_first()[j]).0@
            != key by {
            assert(members.drop_first()[j] == members[j + 1]);
        }
        lemma_first_member_skips(members.drop_first(), key, i - 1);
        assert(members.drop_first().skip(i - 1) =~= members.skip(i));
    } else {
        assert(members.skip(0) =~= members);
    }
}

impl JsonValue {
    /// The member named `key` of an object; nothing for any other value.
    pub open spec fn member_spec(self, key: Seq<char>) -> Option<JsonValue> {
        match self {
            JsonValue::Object(members) => first_member(members@, key),
            _ => None,
        }
    }

    /// What a JSON pointer step `0` reaches: the first element of an array, or the member
    /// named `0` of an object.
    pub open spec fn step_zero_spec(self) -> Option<JsonValue> {
        match self {
            JsonValue::Array(items) => if items@.len() > 0 {
                Some(items@[0])
            } else {
                None
            },
            JsonValue::Object(members) => first_member(members@, "0"@),
            _ => None,
        }
    }

    /// The characters of a string value.
    pub open spec fn as_text_spec(self) -> Option<Seq<char>> {
        match self {
            JsonValue::Text(text) => Some(text@),
            _ => None,
        }
    }

    /// The elements of an array value.
    pub open spec fn as_items_spec(self) -> Option<Seq<JsonValue>> {
        match self {
            JsonValue::Array(items) => Some(items@),
            _ => None,
        }
    }

    /// The member named `key` of an object, as `serde_json::Value::get` looks it up.
    pub fn member(&self, key: &str) -> (found: Option<&JsonValue>)
        ensures
            match found {
                Some(value) => self.member_spec(key@) == Some(*value),
                None => self.member_spec(key@) is None,
            },
    {
        match self {
            JsonValue::Object(members) => {
                let mut i: usize = 0;
                while i < members.len()
                    invariant
                        i <= members@.len(),
                        self.member_spec(key@) == first_member(members@, key@),
                        forall|j: int| 0 <= j < i ==> (#[trigger] members@[j]).0@ != key@,
                    decreases members@.len() - i,
                {
                    let entry = &members[i];
                    if str_equal(entry.0.as_str(), key) {
                        proof {
                            lemma_first_member_skips(members@, key@, i as int);
                            let rest = members@.skip(i as int);
                            assert(rest[0] == members@[i as int]);
                            assert(rest[0].0@ == key@);
                            assert(first_member(rest, key@) == Some(rest[0].1));
                        }
                        return Some(&entry.1);
                    }
                    i = i + 1;
                }
                proof {
                    lemma_first_member_skips(members@, key@, i as int);
                }
                None
            },
            _ => None,
        }
    }

    /// The value a pointer step `0` reaches.
    pub fn step_zero(&self) -> (found: Option<&JsonValue>)
        ensures
            match found {
                Some(value) => self.step_zero_spec() == Some(*value),
                None => self.step_zero_spec() is None,
            },
    {
        match self {
            JsonValue::Array(items) => if items.len() > 0 {
                Some(&items[0])
            } else {
                None
            },
            JsonValue::Object(_) => self.member("0"),
            _ => None,
        }
    }

    /// The string a value holds, as `serde_json::Value::as_str` reads it.
    pub fn as_text(&self) -> (text: Option<&str>)
        ensures
            text.deep_view() == self.as_text_spec(),
    {
        match self {
            JsonValue::Text(text) => Some(text.as_str()),
            _ => None,
        }
    }

    /// The elements an array holds, as `serde_json::Value::as_array` reads them.
    pub fn as_items(&self) -> (items: Option<&Vec<JsonValue>>)
        ensures
            match items {
                Some(items) => self.as_items_spec() == Some(items@),
                None => self.as_items_spec() is None,
            },
    {
        match self {
            JsonValue::Array(items) => Some(items),
            _ => None,
        }
    }
}

#[verifier::external_type_specification]
#[verifier::external_body]
pub struct ExSerdeJsonValue(serde_json::Value);

/// What `serde_json::from_str::<serde_json::Value>` makes of `text`: the document, or the
/// parser's error message when `text` is not JSON.
pub uninterp spec fn parsed_json(text: Seq<char>) -> Result<JsonValue, Seq<char>>;

/// Rewrites a `serde_json::Value` as a [`JsonValue`], variant for variant; a number keeps
/// the text `serde_json` prints for it. Nothing is claimed of the result.
#[verifier::external_body]
fn json_from_serde(value: serde_json::Value) -> JsonValue {
    match value {
        serde_json::Value::Null => JsonValue::Null,
        serde_json::Value::Bool(flag) => JsonValue::Bool(flag),
        serde_json::Value::Number(number) => JsonValue::Number(number.to_string()),
        serde_json::Value::String(text) => JsonValue::Text(text),
        serde_json::Value::Array(items) => JsonValue::Array(items.into_iter().map(json_from_serde).collect()),
        serde_json::Value::Object(members) => JsonValue::Object(
            members.into_iter().map(|(key, member)| (key, json_from_serde(member))).collect(),
        ),
    }
}

/// Calls `serde_json::from_str::<serde_json::Value>` on `text`. The contract names the
/// result, [`parsed_json`], and claims nothing else of it: not which texts parse, nor
/// what document or message comes back.
#[verifier::external_body]
pub(crate) fn parse_json(text: &str) -> (parsed: Result<JsonValue, String>)
    ensures
        match parsed {
            Ok(value) => parsed_json(text@) == Ok::<JsonValue, Seq<char>>(value),
            Err(message) => parsed_json(text@) == Err::<JsonValue, Seq<char>>(message@),
        },
{
    match serde_json::from_str::<serde_json::Value>(text) {
        Ok(value) => Ok(json_from_serde(value)),
        Err(error) => Err(error.to_string()),
    }
}

/// A parse outcome with the error message as characters.
pub open spec fn parse_outcome(parsed: Result<JsonValue, String>) -> Result<JsonValue, Seq<char>> {
    match parsed {
        Ok(value) => Ok(value),
        Err(message) => Err(message@),
    }
}

} // verus!
