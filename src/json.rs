//! Reading one line of a JSON-lines stream into an output record.
use vstd::prelude::*;
use crate::text::{lossy_text_of, push_text, same_text, text_of_bytes};

verus! {

/// A member of a JSON object, as far as the records read it.
#[derive(Debug, Clone, PartialEq, Eq)]
pub enum JsonField {
    Null,
    Bool(bool),
    Number,
    Text(String),
    Array,
    Object,
}

/// What `serde_json` makes of a byte sequence read as one JSON value: the
/// members of an object (none for any other value), or the parse error's text.
pub uninterp spec fn json_members_of(bytes: Seq<u8>) -> Result<Seq<(String, JsonField)>, Seq<char>>;

/// Relies on `serde_json::from_slice` into `serde_json::Value`: the bytes are
/// parsed as one JSON value, and the error's `Display` text is kept on failure.
#[verifier::external_body]
fn parse_members(bytes: &[u8]) -> (r: Result<Vec<(String, JsonField)>, String>)
    ensures
        match r {
            Ok(m) => json_members_of(bytes@) == Ok::<Seq<(String, JsonField)>, Seq<char>>(m@),
            Err(e) => json_members_of(bytes@) == Err::<Seq<(String, JsonField)>, Seq<char>>(e@),
        },
{
    match serde_json::from_slice::<serde_json::Value>(bytes) {
        Ok(serde_json::Value::Object(m)) => Ok(m.into_iter().map(|(k, v)| (k, match v {
            serde_json::Value::Null => JsonField::Null,
            serde_json::Value::Bool(b) => JsonField::Bool(b),
            serde_json::Value::Number(_) => JsonField::Number,
            serde_json::Value::String(s) => JsonField::Text(s),
            serde_json::Value::Array(_) => JsonField::Array,
            serde_json::Value::Object(_) => JsonField::Object,
        })).collect()),
        Ok(_) => Ok(Vec::new()),
        Err(e) => Err(e.to_string()),
    }
}

/// One decoded line of the stream: the text shown for it and whether it
/// reports success.
#[derive(Debug, Clone, PartialEq, Eq)]
pub struct LineRecord {
    pub message: String,
    pub success: bool,
}

impl View for LineRecord {
    type V = (Seq<char>, bool);

    open spec fn view(&self) -> (Seq<char>, bool) {
        (self.message@, self.success)
    }
}

/// The first member named `key`, if any.
pub open spec fn member(members: Seq<(String, JsonField)>, key: Seq<char>) -> Option<JsonField>
    decreases members.len(),
{
    if members.len() == 0 {
        None
    } else if members[0].0@ == key {
        Some(members[0].1)
    } else {
        member(members.drop_first(), key)
    }
}

/// The human-readable message of a decoded object: its "status" member, or
/// where there is none its "message" member, when that member is a string;
/// otherwise the line's own text.
pub open spec fn message_of(members: Seq<(String, JsonField)>, raw: Seq<char>) -> Seq<char> {
    let picked = if member(members, "status"@) is Some {
        member(members, "status"@)
    } else {
        member(members, "message"@)
    };
    match picked {
        Some(JsonField::Text(s)) => s@,
        _ => raw,
    }
}

/// Whether an "error" member marks a failure: present and truthy, that is
/// neither `null` nor `false`.
pub open spec fn error_set(f: Option<JsonField>) -> bool {
    match f {
        None => false,
        Some(JsonField::Null) => false,
        Some(JsonField::Bool(b)) => b,
        Some(_) => true,
    }
}

/// The opening words of the record for a line that is not JSON.
pub open spec fn non_json_prefix(is_final: bool) -> Seq<char> {
    if is_final {
        "Non-JSON final line: "@
    } else {
        "Non-JSON line: "@
    }
}

/// The record of a failed decode: the raw text and the parser's complaint.
pub open spec fn non_json_message(raw: Seq<char>, err: Seq<char>, is_final: bool) -> Seq<char> {
    non_json_prefix(is_final) + raw + " (Parse Error: "@ + err + ")"@
}

/// The record of a decoded object.
pub open spec fn object_record(members: Seq<(String, JsonField)>, raw: Seq<char>) -> (Seq<char>, bool) {
    (message_of(members, raw), !error_set(member(members, "error"@)))
}

/// The record for one trimmed, non-empty line; `is_final` marks the
/// unterminated remainder read when the stream ends.
pub open spec fn line_record(line: Seq<u8>, is_final: bool) -> (Seq<char>, bool) {
    match json_members_of(line) {
        Ok(members) => object_record(members, lossy_text_of(line)),
        Err(e) => (non_json_message(lossy_text_of(line), e, is_final), false),
    }
}

/// Where the first member named `key` stands, if any.
pub fn find_member(members: &Vec<(String, JsonField)>, key: &str) -> (r: Option<usize>)
    ensures
        match r {
            Some(i) => i < members@.len() && member(members@, key@) == Some(members@[i as int].1),
            None => member(members@, key@) is None,
        },
{
    let mut i: usize = 0;
    assert(members@.subrange(0, members@.len() as int) =~= members@);
    while i < members.len()
        invariant
            i <= members@.len(),
            member(members@, key@) == member(members@.subrange(i as int, members@.len() as int), key@),
        decreases members@.len() - i,
    {
        let ghost rest = members@.subrange(i as int, members@.len() as int);
        if same_text(members[i].0.as_str(), key) {
            return Some(i);
        }
        assert(rest.drop_first() =~= members@.subrange(i + 1, members@.len() as int));
        i = i + 1;
    }
    None
}

/// Builds the record of a decoded object from its members and the line's text.
pub fn record_of_object(members: &Vec<(String, JsonField)>, raw: String) -> (r: LineRecord)
    ensures
        r@ == object_record(members@, raw@),
{
    let picked = match find_member(members, "status") {
        Some(i) => Some(i),
        None => find_member(members, "message"),
    };
    let message = match picked {
        Some(i) => match &members[i].1 {
            JsonField::Text(s) => s.clone(),
            _ => raw,
        },
        None => raw,
    };
    let success = match find_member(members, "error") {
        None => true,
        Some(i) => match &members[i].1 {
            JsonField::Null => true,
            JsonField::Bool(b) => !*b,
            _ => false,
        },
    };
    LineRecord { message, success }
}

/// Builds the record of a line that failed to decode.
pub fn record_of_non_json(raw: &str, err: &str, is_final: bool) -> (r: LineRecord)
    ensures
        r@ == (non_json_message(raw@, err@, is_final), false),
{
    let mut message = String::new();
    if is_final {
        push_text(&mut message, "Non-JSON final line: ");
    } else {
        push_text(&mut message, "Non-JSON line: ");
    }
    push_text(&mut message, raw);
    push_text(&mut message, " (Parse Error: ");
    push_text(&mut message, err);
    push_text(&mut message, ")");
    assert(message@ =~= non_json_message(raw@, err@, is_final));
    LineRecord { message, success: false }
}

/// Decodes one trimmed, non-empty line of the stream.
pub fn decode_line(line: &[u8], is_final: bool) -> (r: LineRecord)
    ensures
        r@ == line_record(line@, is_final),
{
    let raw = text_of_bytes(line);
    match parse_members(line) {
        Ok(members) => record_of_object(&members, raw),
        Err(e) => record_of_non_json(raw.as_str(), e.as_str(), is_final),
    }
}

} // verus!
