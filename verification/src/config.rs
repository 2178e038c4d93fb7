//! The daemon's configuration file, read for the one thing the supervisor
//! needs from it: the token that opens the dashboard.
//!
//! The token is read afresh for every request, since the daemon may replace it
//! at any time, and a token that cannot be had is no error: the dashboard is
//! then addressed without one.

use crate::files::{files_text, FileSnapshot, FileText};
use crate::text::option_text;
use vstd::prelude::*;

verus! {

/// A JSON document, as far as the supervisor reads it. A number is kept only as
/// the fact that it is one. An object keeps its members in a row; a name
/// occurs in it once.
#[derive(Debug, PartialEq, Eq)]
pub enum JsonValue {
    Null,
    Bool(bool),
    Number,
    Text(String),
    Array(Vec<JsonValue>),
    Object(Vec<(String, JsonValue)>),
}

/// The value of the first of `entries` that goes by the name `key`.
pub open spec fn entry_named(entries: Seq<(String, JsonValue)>, key: Seq<char>) -> Option<
    JsonValue,
>
    decreases entries.len(),
{
    if entries.len() == 0 {
        None
    } else if entries.first().0@ == key {
        Some(entries.first().1)
    } else {
        entry_named(entries.drop_first(), key)
    }
}

impl JsonValue {
    /// The member `key` of an object; `None` of anything that is no object or
    /// has no such member.
    pub open spec fn member(self, key: Seq<char>) -> Option<JsonValue> {
        match self {
            JsonValue::Object(entries) => entry_named(entries@, key),
            _ => None,
        }
    }

    /// The characters of a string; `None` of anything that is no string.
    pub open spec fn text(self) -> Option<Seq<char>> {
        match self {
            JsonValue::Text(s) => Some(s@),
            _ => None,
        }
    }

    /// Looks up the member `key`.
    pub fn get(&self, key: &str) -> (found: Option<&JsonValue>)
        ensures
            match found {
                Some(value) => self.member(key@) == Some(*value),
                None => self.member(key@) is None,
            },
    {
        match self {
            JsonValue::Object(entries) => {
                let wanted = String::from_str(key);
                let mut i: usize = 0;
                assert(entries@.subrange(0, entries.len() as int) =~= entries@);
                while i < entries.len()
                    invariant
                        i <= entries.len(),
                        wanted@ == key@,
                        self.member(key@) == entry_named(entries@, key@),
                        entry_named(entries@, key@) == entry_named(
                            entries@.subrange(i as int, entries.len() as int),
                            key@,
                        ),
                    decreases entries.len() - i,
                {
                    let ghost rest = entries@.subrange(i as int, entries.len() as int);
                    assert(rest.first() == entries@[i as int]);
                    assert(rest.drop_first() =~= entries@.subrange(
                        i as int + 1,
                        entries.len() as int,
                    ));
                    if entries[i].0 == wanted {
                        return Some(&entries[i].1);
                    }
                    i = i + 1;
                }
                assert(entries@.subrange(i as int, entries.len() as int).len() == 0);
                None
            },
            _ => None,
        }
    }

    /// Reads a string.
    pub fn as_text(&self) -> (found: Option<&str>)
        ensures
            match found {
                Some(s) => self.text() == Some(s@),
                None => self.text() is None,
            },
    {
        match self {
            JsonValue::Text(s) => Some(s.as_str()),
            _ => None,
        }
    }
}

/// The token of a configuration document: the string at `gateway.auth.token`.
pub open spec fn token_of(doc: JsonValue) -> Option<Seq<char>> {
    match doc.member("gateway"@) {
        Some(gateway) => match gateway.member("auth"@) {
            Some(auth) => match auth.member("token"@) {
                Some(token) => token.text(),
                None => None,
            },
            None => None,
        },
        None => None,
    }
}

/// Reads the token of a configuration document; `None` where a step of the
/// path `gateway.auth.token` is missing or leads through something that is no
/// object, or where what stands at its end is no string.
pub fn gateway_token(doc: &JsonValue) -> (token: Option<String>)
    ensures
        option_text(token) == token_of(*doc),
{
    match doc.get("gateway") {
        Some(gateway) => match gateway.get("auth") {
            Some(auth) => match auth.get("token") {
                Some(token) => match token.as_text() {
                    Some(s) => Some(String::from_str(s)),
                    None => None,
                },
                None => None,
            },
            None => None,
        },
        None => None,
    }
}

/// `serde_json::Value`: a parsed document as the parser hands it over. Nothing is
/// known of it here; it is copied into a `JsonValue` before anything reads it.
#[verifier::external_type_specification]
#[verifier::external_body]
pub struct ExJsonDocument(serde_json::Value);

/// The document that `text` is, to `serde_json::from_str`; `None` of a text
/// that it rejects.
pub uninterp spec fn parsed_json(text: Seq<char>) -> Option<JsonValue>;

/// Copies a `serde_json::Value` into a `JsonValue`, variant by variant and
/// member by member. Trusted, with nothing claimed of it alone: it is the second
/// half of `parse_json`, whose result is named as a whole. The members of an
/// object come in the order of `serde_json::Map::iter`, each name once.
#[verifier::external_body]
fn json_tree(value: &serde_json::Value) -> JsonValue {
    match value {
        serde_json::Value::Null => JsonValue::Null,
        serde_json::Value::Bool(b) => JsonValue::Bool(*b),
        serde_json::Value::Number(_) => JsonValue::Number,
        serde_json::Value::String(s) => JsonValue::Text(s.clone()),
        serde_json::Value::Array(items) => JsonValue::Array(items.iter().map(json_tree).collect()),
        serde_json::Value::Object(members) => JsonValue::Object(
            members.iter().map(|(name, member)| (name.clone(), json_tree(member))).collect(),
        ),
    }
}

/// `serde_json::from_str`, for a `serde_json::Value`, and the copy of its result.
/// Trusted: what comes back depends on `text` alone. It is `None` where the
/// parser reports an error; which texts those are is the parser's to say.
#[verifier::external_body]
pub(crate) fn parse_json(text: &str) -> (doc: Option<JsonValue>)
    ensures
        doc == parsed_json(text@),
{
    match serde_json::from_str::<serde_json::Value>(text) {
        Ok(value) => Some(json_tree(&value)),
        Err(_) => None,
    }
}

/// The token that a configuration text holds; `None` of a text that is no JSON
/// document.
pub open spec fn token_in_text(text: Seq<char>) -> Option<Seq<char>> {
    match parsed_json(text) {
        Some(doc) => token_of(doc),
        None => None,
    }
}

/// The token that a configuration file holds; `None` of a file that is
/// missing or cannot be read.
pub open spec fn token_in_file(file: FileText) -> Option<Seq<char>> {
    match file {
        FileText::Content { text } => token_in_text(text),
        _ => None,
    }
}

/// The token that the first existing one of `files` holds.
pub open spec fn token_found(files: Seq<FileText>) -> Option<Seq<char>>
    decreases files.len(),
{
    if files.len() == 0 {
        None
    } else if files.first() is Absent {
        token_found(files.drop_first())
    } else {
        token_in_file(files.first())
    }
}

/// Reads the token from the text of a configuration file.
pub fn read_token_from_text(text: &str) -> (token: Option<String>)
    ensures
        option_text(token) == token_in_text(text@),
{
    match parse_json(text) {
        Some(doc) => gateway_token(&doc),
        None => None,
    }
}

/// Reads the token from a configuration file as it was found. Every way in
/// which this can go wrong gives `None`.
pub fn read_token_from_file(file: &FileSnapshot) -> (token: Option<String>)
    ensures
        option_text(token) == token_in_file(file@),
{
    match file {
        FileSnapshot::Content { text } => read_token_from_text(text.as_str()),
        _ => None,
    }
}

/// Reads the gateway token from the configuration files as they were found,
/// given in the order of `config_candidates`. The first file that exists
/// decides: its token is the answer, and if it has none, because it cannot be
/// read or parsed or holds no token, there is none; a later file is consulted
/// only where every earlier one is missing.
pub fn read_gateway_token(files: &Vec<FileSnapshot>) -> (token: Option<String>)
    ensures
        option_text(token) == token_found(files_text(files@)),
{
    let ghost all = files_text(files@);
    let mut i: usize = 0;
    assert(all.subrange(0, all.len() as int) =~= all);
    while i < files.len()
        invariant
            i <= files.len(),
            all == files_text(files@),
            token_found(all) == token_found(all.subrange(i as int, all.len() as int)),
        decreases files.len() - i,
    {
        let ghost rest = all.subrange(i as int, all.len() as int);
        assert(rest.first() == files@[i as int]@);
        assert(rest.drop_first() =~= all.subrange(i as int + 1, all.len() as int));
        match &files[i] {
            FileSnapshot::Absent => {},
            found => {
                return read_token_from_file(found);
            },
        }
        i = i + 1;
    }
    assert(all.subrange(i as int, all.len() as int).len() == 0);
    None
}

/// Where there is no configuration file in any place, or no place to look,
/// there is no token, and nothing fails.
pub proof fn law_no_config_no_token()
    ensures
        token_found(Seq::empty()) is None,
        token_found(seq![FileText::Absent, FileText::Absent]) is None,
{
    reveal_with_fuel(token_found, 3);
    let both = seq![FileText::Absent, FileText::Absent];
    assert(both.drop_first() =~= seq![FileText::Absent]);
    assert(both.drop_first().drop_first() =~= Seq::<FileText>::empty());
}

/// Where today's configuration file is missing, the former one answers: the
/// token is the one it holds.
pub proof fn law_legacy_config_is_the_fallback(legacy: FileText)
    ensures
        token_found(seq![FileText::Absent, legacy]) == token_in_file(legacy),
        forall|text: Seq<char>, doc: JsonValue|
            legacy == (FileText::Content { text }) && parsed_json(text) == Some(doc) ==> token_found(
                seq![FileText::Absent, legacy],
            ) == token_of(doc),
{
    reveal_with_fuel(token_found, 3);
    let files = seq![FileText::Absent, legacy];
    assert(files.drop_first() =~= seq![legacy]);
    assert(files.drop_first().drop_first() =~= Seq::<FileText>::empty());
}

/// Today's configuration file, where it exists, decides alone. If it cannot be
/// read, or is no JSON document, there is no token, whatever the former file
/// holds.
pub proof fn law_present_config_decides(primary: FileText, legacy: FileText)
    requires
        !(primary is Absent),
    ensures
        token_found(seq![primary, legacy]) == token_in_file(primary),
        primary is Unreadable ==> token_found(seq![primary, legacy]) is None,
        forall|text: Seq<char>|
            primary == (FileText::Content { text }) && parsed_json(text) is None ==> token_found(
                seq![primary, legacy],
            ) is None,
{
}

/// A token is found only at the end of the whole path: a document whose
/// `gateway`, or whose `gateway.auth`, is missing or is no object holds none,
/// and neither does one whose `gateway.auth.token` is no string.
pub proof fn law_token_needs_the_whole_path(doc: JsonValue)
    ensures
        token_of(doc) is Some ==> doc is Object && doc.member("gateway"@) is Some
            && doc.member("gateway"@)->Some_0 is Object && doc.member("gateway"@)->Some_0.member(
            "auth"@,
        ) is Some && doc.member("gateway"@)->Some_0.member("auth"@)->Some_0 is Object
            && doc.member("gateway"@)->Some_0.member("auth"@)->Some_0.member("token"@) is Some
            && doc.member("gateway"@)->Some_0.member("auth"@)->Some_0.member("token"@)->Some_0 is Text,
{
}

} // verus!
