//! What the library reads of the CLI's JSON: single members of a reply
//! object, read by `serde_json`, and the decoding built on them of the CLI's
//! error envelope, of a setup progress event and of a progress-stream line.

use vstd::prelude::*;
use vstd::string::*;
use crate::cli_error::CliErrorBody;
use crate::line_buffer::string_views;
use crate::model::RuntimeSetupEvent;
use serde_json::Value;

verus! {

/// One member of a JSON object, as far as the decoding here tells kinds
/// apart.
#[derive(Debug, Clone)]
pub enum JsonMember {
    Absent,
    Null,
    Str(String),
    Number,
    /// An array: for each item, its string, or `None` when it is no string.
    Array(Vec<Option<String>>),
    /// A boolean or an object.
    Other,
}

/// The mathematical view of a `JsonMember`.
pub enum MemberView {
    Absent,
    Null,
    Str(Seq<char>),
    Number,
    Array(Seq<Option<Seq<char>>>),
    Other,
}

pub open spec fn opt_string_view(o: Option<String>) -> Option<Seq<char>> {
    match o {
        Some(s) => Some(s@),
        None => None,
    }
}

pub open spec fn opt_strings_view(o: Option<Vec<String>>) -> Option<Seq<Seq<char>>> {
    match o {
        Some(v) => Some(string_views(v@)),
        None => None,
    }
}

impl View for JsonMember {
    type V = MemberView;

    open spec fn view(&self) -> MemberView {
        match self {
            JsonMember::Absent => MemberView::Absent,
            JsonMember::Null => MemberView::Null,
            JsonMember::Str(s) => MemberView::Str(s@),
            JsonMember::Number => MemberView::Number,
            JsonMember::Array(items) => MemberView::Array(
                items@.map_values(|o: Option<String>| opt_string_view(o)),
            ),
            JsonMember::Other => MemberView::Other,
        }
    }
}

/// What `serde_json` reads of the member `key` of the JSON text `text`: the
/// parser's message when `text` is not JSON, `None` when it is no object.
pub uninterp spec fn json_member_of(text: Seq<char>, key: Seq<char>) -> Result<
    Option<MemberView>,
    Seq<char>,
>;

/// The JSON text that `serde_json` writes for the member `key` of the JSON
/// text `text`: the parser's message when `text` is not JSON, `None` when it
/// is no object or has no such member.
pub uninterp spec fn json_member_text_of(text: Seq<char>, key: Seq<char>) -> Result<
    Option<Seq<char>>,
    Seq<char>,
>;

/// An item of an array member, owned.
fn owned_item(item: Option<&str>) -> (r: Option<String>)
    ensures
        opt_string_view(r) == match item {
            Some(s) => Some(s@),
            None => None::<Seq<char>>,
        },
{
    match item {
        Some(s) => Some(String::from_str(s)),
        None => None,
    }
}

/// Parses `text` with `serde_json::from_str` into a `serde_json::Value` and,
/// when it is an object, reports the kind of its member `key` (`Map::get`),
/// with the string it holds, or for an array each item's `Value::as_str`.
/// Trusted to return the named result.
#[verifier::external_body]
pub(crate) fn json_member(text: &str, key: &str) -> (r: Result<Option<JsonMember>, String>)
    ensures
        json_member_of(text@, key@) == match r {
            Ok(Some(m)) => Ok::<Option<MemberView>, Seq<char>>(Some(m@)),
            Ok(None) => Ok::<Option<MemberView>, Seq<char>>(None),
            Err(e) => Err::<Option<MemberView>, Seq<char>>(e@),
        },
{
    let value: Value = match serde_json::from_str(text) {
        Ok(v) => v,
        Err(e) => return Err(e.to_string()),
    };
    let Some(map) = value.as_object() else { return Ok(None) };
    Ok(Some(match map.get(key) {
        None => JsonMember::Absent,
        Some(Value::Null) => JsonMember::Null,
        Some(Value::String(s)) => JsonMember::Str(s.clone()),
        Some(Value::Number(_)) => JsonMember::Number,
        Some(Value::Array(items)) => JsonMember::Array(items.iter().map(Value::as_str).map(owned_item).collect()),
        Some(_) => JsonMember::Other,
    }))
}

/// Parses `text` with `serde_json::from_str` into a `serde_json::Value` and,
/// when it is an object with a member `key` (`Map::get`), writes that member
/// back as JSON text (`Value`'s `to_string`). Trusted to return the named
/// result.
#[verifier::external_body]
pub(crate) fn json_member_text(text: &str, key: &str) -> (r: Result<Option<String>, String>)
    ensures
        json_member_text_of(text@, key@) == match r {
            Ok(Some(t)) => Ok::<Option<Seq<char>>, Seq<char>>(Some(t@)),
            Ok(None) => Ok::<Option<Seq<char>>, Seq<char>>(None),
            Err(e) => Err::<Option<Seq<char>>, Seq<char>>(e@),
        },
{
    match serde_json::from_str::<Value>(text) {
        Err(e) => Err(e.to_string()),
        Ok(value) => match value.as_object() {
            Some(map) => Ok(map.get(key).map(Value::to_string)),
            None => Ok(None),
        },
    }
}

/// The string member `key` of `text`, when `text` is an object with one.
pub open spec fn member_str(text: Seq<char>, key: Seq<char>) -> Option<Seq<char>> {
    match json_member_of(text, key) {
        Ok(Some(MemberView::Str(s))) => Some(s),
        _ => None,
    }
}

/// The JSON text of the member `key` of `text`, when `text` is an object
/// with such a member.
pub open spec fn member_text(text: Seq<char>, key: Seq<char>) -> Option<Seq<char>> {
    match json_member_text_of(text, key) {
        Ok(Some(t)) => Some(t),
        _ => None,
    }
}

/// The string member `key` of `text`, when there is one.
pub fn read_member_str(text: &str, key: &str) -> (r: Option<String>)
    ensures
        opt_string_view(r) == member_str(text@, key@),
{
    match json_member(text, key) {
        Ok(Some(JsonMember::Str(s))) => Some(s),
        _ => None,
    }
}

/// The JSON text of the member `key` of `text`, when there is one.
pub fn read_member_text(text: &str, key: &str) -> (r: Option<String>)
    ensures
        opt_string_view(r) == member_text(text@, key@),
{
    match json_member_text(text, key) {
        Ok(Some(t)) => Some(t),
        _ => None,
    }
}

pub open spec fn not_an_object_message() -> Seq<char> {
    "invalid type: expected a JSON object"@
}

pub open spec fn missing_field_message(key: Seq<char>) -> Seq<char> {
    "missing field `"@ + key + "`"@
}

pub open spec fn invalid_field_message(key: Seq<char>, expected: Seq<char>) -> Seq<char> {
    "invalid type: field `"@ + key + "`, expected "@ + expected
}

/// A required string member.
pub open spec fn required_str(text: Seq<char>, key: Seq<char>) -> Result<Seq<char>, Seq<char>> {
    match json_member_of(text, key) {
        Err(m) => Err(m),
        Ok(None) => Err(not_an_object_message()),
        Ok(Some(MemberView::Absent)) => Err(missing_field_message(key)),
        Ok(Some(MemberView::Str(s))) => Ok(s),
        Ok(Some(_)) => Err(invalid_field_message(key, "a string"@)),
    }
}

/// An optional string member: absent or `null` is none.
pub open spec fn optional_str(text: Seq<char>, key: Seq<char>) -> Result<Option<Seq<char>>, Seq<char>> {
    match json_member_of(text, key) {
        Err(m) => Err(m),
        Ok(None) => Err(not_an_object_message()),
        Ok(Some(MemberView::Absent)) | Ok(Some(MemberView::Null)) => Ok(None),
        Ok(Some(MemberView::Str(s))) => Ok(Some(s)),
        Ok(Some(_)) => Err(invalid_field_message(key, "a string"@)),
    }
}

/// Every item of an array member is a string.
pub open spec fn all_strings(items: Seq<Option<Seq<char>>>) -> bool {
    forall|k: int| 0 <= k < items.len() ==> (#[trigger] items[k]) is Some
}

/// An optional member holding a list of strings.
pub open spec fn optional_strs(text: Seq<char>, key: Seq<char>) -> Result<Option<Seq<Seq<char>>>, Seq<char>> {
    match json_member_of(text, key) {
        Err(m) => Err(m),
        Ok(None) => Err(not_an_object_message()),
        Ok(Some(MemberView::Absent)) | Ok(Some(MemberView::Null)) => Ok(None),
        Ok(Some(MemberView::Array(items))) => if all_strings(items) {
            Ok(Some(items.map_values(|o: Option<Seq<char>>| o->Some_0)))
        } else {
            Err(invalid_field_message(key, "a list of strings"@))
        },
        Ok(Some(_)) => Err(invalid_field_message(key, "a list of strings"@)),
    }
}

/// An optional numeric member, whose value is not needed here.
pub open spec fn optional_number(text: Seq<char>, key: Seq<char>) -> Result<(), Seq<char>> {
    match json_member_of(text, key) {
        Err(m) => Err(m),
        Ok(None) => Err(not_an_object_message()),
        Ok(Some(MemberView::Absent)) | Ok(Some(MemberView::Null)) | Ok(Some(MemberView::Number)) => Ok(()),
        Ok(Some(_)) => Err(invalid_field_message(key, "a number"@)),
    }
}

/// Why `text` is not the CLI's error envelope (the first problem, in the
/// order of the envelope's fields), or `None` when it is.
pub open spec fn error_body_problem(text: Seq<char>) -> Option<Seq<char>> {
    if required_str(text, "code"@) is Err {
        Some(required_str(text, "code"@)->Err_0)
    } else if required_str(text, "message"@) is Err {
        Some(required_str(text, "message"@)->Err_0)
    } else if optional_str(text, "hint"@) is Err {
        Some(optional_str(text, "hint"@)->Err_0)
    } else if optional_str(text, "detail"@) is Err {
        Some(optional_str(text, "detail"@)->Err_0)
    } else if optional_str(text, "action"@) is Err {
        Some(optional_str(text, "action"@)->Err_0)
    } else if optional_str(text, "actionValue"@) is Err {
        Some(optional_str(text, "actionValue"@)->Err_0)
    } else if optional_strs(text, "instances"@) is Err {
        Some(optional_strs(text, "instances"@)->Err_0)
    } else {
        None
    }
}

/// `body` holds exactly the fields of the error envelope `text`.
pub open spec fn body_matches(body: CliErrorBody, text: Seq<char>) -> bool {
    &&& required_str(text, "code"@) == Ok::<Seq<char>, Seq<char>>(body.code@)
    &&& required_str(text, "message"@) == Ok::<Seq<char>, Seq<char>>(body.message@)
    &&& optional_str(text, "hint"@) == Ok::<Option<Seq<char>>, Seq<char>>(opt_string_view(body.hint))
    &&& optional_str(text, "detail"@) == Ok::<Option<Seq<char>>, Seq<char>>(
        opt_string_view(body.detail),
    )
    &&& optional_str(text, "action"@) == Ok::<Option<Seq<char>>, Seq<char>>(
        opt_string_view(body.action),
    )
    &&& optional_str(text, "actionValue"@) == Ok::<Option<Seq<char>>, Seq<char>>(
        opt_string_view(body.action_value),
    )
    &&& optional_strs(text, "instances"@) == Ok::<Option<Seq<Seq<char>>>, Seq<char>>(
        opt_strings_view(body.instances),
    )
}

/// Whether `text` is a setup progress event: a string `stage`, optional
/// string `substage`, `state`, `activity`, `status` and `detail`, and an
/// optional numeric `progress`.
pub open spec fn event_decodes(text: Seq<char>) -> bool {
    &&& required_str(text, "stage"@) is Ok
    &&& optional_str(text, "substage"@) is Ok
    &&& optional_str(text, "state"@) is Ok
    &&& optional_str(text, "activity"@) is Ok
    &&& optional_str(text, "status"@) is Ok
    &&& optional_str(text, "detail"@) is Ok
    &&& optional_number(text, "progress"@) is Ok
}

/// `event` holds exactly the fields of the progress event `text`.
pub open spec fn event_matches(event: RuntimeSetupEvent, text: Seq<char>) -> bool {
    &&& required_str(text, "stage"@) == Ok::<Seq<char>, Seq<char>>(event.stage@)
    &&& optional_str(text, "substage"@) == Ok::<Option<Seq<char>>, Seq<char>>(
        opt_string_view(event.substage),
    )
    &&& optional_str(text, "state"@) == Ok::<Option<Seq<char>>, Seq<char>>(
        opt_string_view(event.state),
    )
    &&& optional_str(text, "activity"@) == Ok::<Option<Seq<char>>, Seq<char>>(
        opt_string_view(event.activity),
    )
    &&& optional_str(text, "status"@) == Ok::<Option<Seq<char>>, Seq<char>>(
        opt_string_view(event.status),
    )
    &&& optional_str(text, "detail"@) == Ok::<Option<Seq<char>>, Seq<char>>(
        opt_string_view(event.detail),
    )
}

fn not_an_object() -> (m: String)
    ensures
        m@ == not_an_object_message(),
{
    String::from_str("invalid type: expected a JSON object")
}

fn invalid_field(key: &str, expected: &str) -> (m: String)
    ensures
        m@ == invalid_field_message(key@, expected@),
{
    String::from_str("invalid type: field `").concat(key).concat("`, expected ").concat(expected)
}

fn read_required_str(text: &str, key: &str) -> (r: Result<String, String>)
    ensures
        match r {
            Ok(s) => required_str(text@, key@) == Ok::<Seq<char>, Seq<char>>(s@),
            Err(m) => required_str(text@, key@) == Err::<Seq<char>, Seq<char>>(m@),
        },
{
    match json_member(text, key) {
        Err(m) => Err(m),
        Ok(None) => Err(not_an_object()),
        Ok(Some(JsonMember::Absent)) => Err(
            String::from_str("missing field `").concat(key).concat("`"),
        ),
        Ok(Some(JsonMember::Str(s))) => Ok(s),
        Ok(Some(_)) => Err(invalid_field(key, "a string")),
    }
}

fn read_optional_str(text: &str, key: &str) -> (r: Result<Option<String>, String>)
    ensures
        match r {
            Ok(s) => optional_str(text@, key@) == Ok::<Option<Seq<char>>, Seq<char>>(
                opt_string_view(s),
            ),
            Err(m) => optional_str(text@, key@) == Err::<Option<Seq<char>>, Seq<char>>(m@),
        },
{
    match json_member(text, key) {
        Err(m) => Err(m),
        Ok(None) => Err(not_an_object()),
        Ok(Some(JsonMember::Absent)) | Ok(Some(JsonMember::Null)) => Ok(None),
        Ok(Some(JsonMember::Str(s))) => Ok(Some(s)),
        Ok(Some(_)) => Err(invalid_field(key, "a string")),
    }
}

/// The items of an array member when all of them are strings.
fn strings_of(items: &Vec<Option<String>>) -> (r: Option<Vec<String>>)
    ensures
        match r {
            Some(v) => {
                let views = items@.map_values(|o: Option<String>| opt_string_view(o));
                &&& all_strings(views)
                &&& string_views(v@) == views.map_values(|o: Option<Seq<char>>| o->Some_0)
            },
            None => !all_strings(items@.map_values(|o: Option<String>| opt_string_view(o))),
        },
{
    let ghost views = items@.map_values(|o: Option<String>| opt_string_view(o));
    let mut out: Vec<String> = Vec::new();
    let mut i: usize = 0;
    while i < items.len()
        invariant
            i <= items@.len(),
            views == items@.map_values(|o: Option<String>| opt_string_view(o)),
            forall|k: int| 0 <= k < i ==> (#[trigger] views[k]) is Some,
            out@.len() == i,
            string_views(out@) == views.take(i as int).map_values(
                |o: Option<Seq<char>>| o->Some_0,
            ),
        decreases items@.len() - i,
    {
        match &items[i] {
            Some(s) => {
                let ghost before = out@;
                out.push(s.clone());
                proof {
                    let f = |o: Option<Seq<char>>| o->Some_0;
                    assert(views[i as int] == Some(s@));
                    let next = views.take(i + 1).map_values(f);
                    let prev = views.take(i as int).map_values(f);
                    assert(string_views(before) == prev);
                    assert forall|k: int| 0 <= k < i + 1 implies #[trigger] string_views(out@)[k]
                        == next[k] by {
                        if k < i {
                            assert(out@[k] == before[k]);
                            assert(string_views(before)[k] == before[k]@);
                            assert(prev[k] == views[k]->Some_0);
                        }
                    }
                    assert(string_views(out@) =~= next);
                }
            },
            None => {
                proof {
                    assert(views[i as int] is None);
                }
                return None;
            },
        }
        i = i + 1;
    }
    proof {
        assert(views.take(i as int) =~= views);
    }
    Some(out)
}

fn read_optional_strs(text: &str, key: &str) -> (r: Result<Option<Vec<String>>, String>)
    ensures
        match r {
            Ok(v) => optional_strs(text@, key@) == Ok::<Option<Seq<Seq<char>>>, Seq<char>>(
                opt_strings_view(v),
            ),
            Err(m) => optional_strs(text@, key@) == Err::<Option<Seq<Seq<char>>>, Seq<char>>(m@),
        },
{
    match json_member(text, key) {
        Err(m) => Err(m),
        Ok(None) => Err(not_an_object()),
        Ok(Some(JsonMember::Absent)) | Ok(Some(JsonMember::Null)) => Ok(None),
        Ok(Some(JsonMember::Array(items))) => match strings_of(&items) {
            Some(v) => Ok(Some(v)),
            None => Err(invalid_field(key, "a list of strings")),
        },
        Ok(Some(_)) => Err(invalid_field(key, "a list of strings")),
    }
}

fn read_optional_number(text: &str, key: &str) -> (r: bool)
    ensures
        r == optional_number(text@, key@) is Ok,
{
    match json_member(text, key) {
        Ok(Some(JsonMember::Absent)) | Ok(Some(JsonMember::Null)) | Ok(Some(JsonMember::Number)) => true,
        _ => false,
    }
}

/// Decodes the CLI's error envelope from its JSON text: `code` and
/// `message` are required strings, `hint`, `detail`, `action` and
/// `actionValue` optional strings, `instances` an optional list of strings;
/// otherwise the first problem found, in that order.
pub fn decode_error_body(text: &str) -> (r: Result<CliErrorBody, String>)
    ensures
        match r {
            Ok(body) => error_body_problem(text@) is None && body_matches(body, text@),
            Err(m) => error_body_problem(text@) == Some(m@),
        },
{
    let code = match read_required_str(text, "code") {
        Ok(v) => v,
        Err(m) => return Err(m),
    };
    let message = match read_required_str(text, "message") {
        Ok(v) => v,
        Err(m) => return Err(m),
    };
    let hint = match read_optional_str(text, "hint") {
        Ok(v) => v,
        Err(m) => return Err(m),
    };
    let detail = match read_optional_str(text, "detail") {
        Ok(v) => v,
        Err(m) => return Err(m),
    };
    let action = match read_optional_str(text, "action") {
        Ok(v) => v,
        Err(m) => return Err(m),
    };
    let action_value = match read_optional_str(text, "actionValue") {
        Ok(v) => v,
        Err(m) => return Err(m),
    };
    let instances = match read_optional_strs(text, "instances") {
        Ok(v) => v,
        Err(m) => return Err(m),
    };
    Ok(CliErrorBody { code, message, hint, detail, action, action_value, instances })
}

/// Decodes a setup progress event from a reply line, `None` when the line
/// is not one (see `event_decodes`).
pub fn decode_setup_event(text: &str) -> (r: Option<RuntimeSetupEvent>)
    ensures
        match r {
            Some(event) => event_decodes(text@) && event_matches(event, text@),
            None => !event_decodes(text@),
        },
{
    let stage = match read_required_str(text, "stage") {
        Ok(v) => v,
        Err(_) => return None,
    };
    let substage = match read_optional_str(text, "substage") {
        Ok(v) => v,
        Err(_) => return None,
    };
    let state = match read_optional_str(text, "state") {
        Ok(v) => v,
        Err(_) => return None,
    };
    let activity = match read_optional_str(text, "activity") {
        Ok(v) => v,
        Err(_) => return None,
    };
    let status = match read_optional_str(text, "status") {
        Ok(v) => v,
        Err(_) => return None,
    };
    let detail = match read_optional_str(text, "detail") {
        Ok(v) => v,
        Err(_) => return None,
    };
    if !read_optional_number(text, "progress") {
        return None;
    }
    Some(RuntimeSetupEvent { stage, substage, state, activity, status, detail })
}

/// Why `text` is not a line of a progress stream (the first problem, in the
/// order `stage`, `state`, `detail`), or `None` when it is one.
pub open spec fn stream_event_problem(text: Seq<char>) -> Option<Seq<char>> {
    if required_str(text, "stage"@) is Err {
        Some(required_str(text, "stage"@)->Err_0)
    } else if required_str(text, "state"@) is Err {
        Some(required_str(text, "state"@)->Err_0)
    } else if optional_str(text, "detail"@) is Err {
        Some(optional_str(text, "detail"@)->Err_0)
    } else {
        None
    }
}

/// Decodes a line of a progress stream: a string `stage` and `state` and an
/// optional string `detail`; gives `stage` and `state`, or the first problem
/// found.
pub fn decode_stream_event(text: &str) -> (r: Result<(String, String), String>)
    ensures
        match r {
            Ok((stage, state)) => {
                &&& stream_event_problem(text@) is None
                &&& required_str(text@, "stage"@) == Ok::<Seq<char>, Seq<char>>(stage@)
                &&& required_str(text@, "state"@) == Ok::<Seq<char>, Seq<char>>(state@)
            },
            Err(m) => stream_event_problem(text@) == Some(m@),
        },
{
    let stage = match read_required_str(text, "stage") {
        Ok(v) => v,
        Err(m) => return Err(m),
    };
    let state = match read_required_str(text, "state") {
        Ok(v) => v,
        Err(m) => return Err(m),
    };
    match read_optional_str(text, "detail") {
        Ok(_) => Ok((stage, state)),
        Err(m) => Err(m),
    }
}

} // verus!
