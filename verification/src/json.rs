//! JSON as far as the proxy needs it: the members of an object, read from
//! text, and the text of an object of strings.

use vstd::prelude::*;
use vstd::string::StringExecFns;

verus! {

/// One JSON value. A number keeps its JSON text; an array or an object keeps
/// its compact JSON text.
#[derive(Clone, Debug, PartialEq, Eq)]
pub enum JsonValue {
    Null,
    Bool(bool),
    Number(String),
    Text(String),
    Array(String),
    Object(String),
}

/// One member of a JSON object.
#[derive(Clone, Debug, PartialEq, Eq)]
pub struct JsonMember {
    pub name: String,
    pub value: JsonValue,
}

/// The mathematical value of a `JsonValue`.
pub enum JsonModel {
    Null,
    Bool(bool),
    Number(Seq<char>),
    Text(Seq<char>),
    Array(Seq<char>),
    Object(Seq<char>),
}

impl View for JsonValue {
    type V = JsonModel;

    open spec fn view(&self) -> JsonModel {
        match self {
            JsonValue::Null => JsonModel::Null,
            JsonValue::Bool(b) => JsonModel::Bool(*b),
            JsonValue::Number(t) => JsonModel::Number(t@),
            JsonValue::Text(t) => JsonModel::Text(t@),
            JsonValue::Array(t) => JsonModel::Array(t@),
            JsonValue::Object(t) => JsonModel::Object(t@),
        }
    }
}

impl View for JsonMember {
    type V = (Seq<char>, JsonModel);

    open spec fn view(&self) -> (Seq<char>, JsonModel) {
        (self.name@, self.value@)
    }
}

/// The views of a sequence of members.
pub open spec fn member_views(members: Seq<JsonMember>) -> Seq<(Seq<char>, JsonModel)> {
    Seq::new(members.len(), |i: int| members[i]@)
}

/// The members of the JSON object that `text` holds, as `serde_json` reads
/// them; `None` where `text` is not one JSON object.
pub uninterp spec fn json_object_members(text: Seq<u8>) -> Option<Seq<(Seq<char>, JsonModel)>>;

/// The lower-case hexadecimal digit for `d < 16`.
pub open spec fn lower_hex(d: u8) -> char {
    if d < 10 {
        ((0x30 + d) as u8) as char
    } else {
        ((0x61 + d - 10) as u8) as char
    }
}

/// One character as it stands inside a JSON string: `"` and `\` behind a
/// backslash, a control character by its short escape or as `\u00` and two
/// hexadecimal digits, anything else as it is.
pub open spec fn escaped_char(c: char) -> Seq<char> {
    if c == '"' {
        seq!['\\', '"']
    } else if c == '\\' {
        seq!['\\', '\\']
    } else if c == '\u{08}' {
        seq!['\\', 'b']
    } else if c == '\t' {
        seq!['\\', 't']
    } else if c == '\n' {
        seq!['\\', 'n']
    } else if c == '\u{0c}' {
        seq!['\\', 'f']
    } else if c == '\r' {
        seq!['\\', 'r']
    } else if (c as u32) < 0x20 {
        seq!['\\', 'u', '0', '0', lower_hex((c as u8) / 16), lower_hex((c as u8) % 16)]
    } else {
        seq![c]
    }
}

/// The characters of `s`, each escaped for a JSON string.
pub open spec fn escaped(s: Seq<char>) -> Seq<char>
    decreases s.len(),
{
    if s.len() == 0 {
        Seq::empty()
    } else {
        escaped(s.drop_last()) + escaped_char(s.last())
    }
}

/// The JSON string that holds `s`: its escaped characters between quotes.
pub open spec fn string_text(s: Seq<char>) -> Seq<char> {
    seq!['"'] + escaped(s) + seq!['"']
}

/// The members of an object of strings, comma-separated, each as
/// `"key":"value"`.
pub open spec fn members_text(pairs: Seq<(Seq<char>, Seq<char>)>) -> Seq<char>
    decreases pairs.len(),
{
    if pairs.len() == 0 {
        Seq::empty()
    } else {
        let member = string_text(pairs.last().0) + seq![':'] + string_text(pairs.last().1);
        if pairs.len() == 1 {
            member
        } else {
            members_text(pairs.drop_last()) + seq![','] + member
        }
    }
}

/// The compact JSON text of the object whose members are `pairs`, in order.
pub open spec fn object_text(pairs: Seq<(Seq<char>, Seq<char>)>) -> Seq<char> {
    seq!['{'] + members_text(pairs) + seq!['}']
}

/// The JSON text of a value.
pub open spec fn value_text(value: JsonModel) -> Seq<char> {
    match value {
        JsonModel::Null => "null"@,
        JsonModel::Bool(b) => if b {
            "true"@
        } else {
            "false"@
        },
        JsonModel::Number(t) => t,
        JsonModel::Text(t) => string_text(t),
        JsonModel::Array(t) => t,
        JsonModel::Object(t) => t,
    }
}

/// Reads `text` with `serde_json::from_slice` as a map from names to values
/// and hands out its members in the order in which that map walks them. A
/// string member is given by its contents, a number, an array and an object
/// by the text that `serde_json` writes for it. The result depends on `text`
/// alone; the contract gives it a name and says no more.
#[verifier::external_body]
pub(crate) fn read_object(text: &[u8]) -> (out: Option<Vec<JsonMember>>)
    ensures
        match out {
            Some(members) => json_object_members(text@) == Some(member_views(members@)),
            None => json_object_members(text@).is_none(),
        },
{
    let map = serde_json::from_slice::<serde_json::Map<String, serde_json::Value>>(text).ok()?;
    Some(map.into_iter().map(|(name, v)| JsonMember { name, value: match v {
        serde_json::Value::Null => JsonValue::Null,
        serde_json::Value::Bool(b) => JsonValue::Bool(b),
        serde_json::Value::Number(n) => JsonValue::Number(n.to_string()),
        serde_json::Value::String(s) => JsonValue::Text(s),
        serde_json::Value::Array(_) => JsonValue::Array(v.to_string()),
        serde_json::Value::Object(_) => JsonValue::Object(v.to_string()),
    } }).collect())
}

/// Writes `s` as a JSON string with `serde_json::to_string`, which puts the
/// text between quotes, writes `"` and `\` behind a backslash, the control
/// characters below U+0020 as `\b`, `\t`, `\n`, `\f`, `\r` or `\u00` and two
/// lower-case hexadecimal digits, and copies every other character. Writing
/// a string into memory does not fail. The contract states exactly that.
#[verifier::external_body]
pub(crate) fn quote(s: &str) -> (out: String)
    ensures
        out@ == string_text(s@),
{
    serde_json::to_string(s).unwrap_or_default()
}

/// The compact JSON text of the object whose members are `pairs`, in order.
pub fn object_of(pairs: &Vec<(String, String)>) -> (out: String)
    ensures
        out@ == object_text(pairs.deep_view()),
{
    let ghost model = pairs.deep_view();
    let mut out = String::from_str("{");
    proof {
        reveal_strlit("{");
        reveal_strlit("}");
        reveal_strlit(",");
        reveal_strlit(":");
        assert("{"@ =~= seq!['{']);
        assert("}"@ =~= seq!['}']);
        assert(","@ =~= seq![',']);
        assert(":"@ =~= seq![':']);
        assert(model.take(0) =~= Seq::empty());
    }
    let mut i: usize = 0;
    while i < pairs.len()
        invariant
            i <= pairs@.len(),
            model == pairs.deep_view(),
            out@ == seq!['{'] + members_text(model.take(i as int)),
            ","@ == seq![','],
            ":"@ == seq![':'],
        decreases pairs@.len() - i,
    {
        let ghost before = out@;
        let key = quote(pairs[i].0.as_str());
        let value = quote(pairs[i].1.as_str());
        if i > 0 {
            out.append(",");
        }
        out.append(key.as_str());
        out.append(":");
        out.append(value.as_str());
        proof {
            let upto = model.take(i + 1);
            assert(upto.drop_last() == model.take(i as int));
            assert(upto.last() == (pairs@[i as int].0@, pairs@[i as int].1@));
            let member = string_text(upto.last().0) + seq![':'] + string_text(upto.last().1);
            if i == 0 {
                assert(model.take(0).len() == 0);
                assert(out@ =~= seq!['{'] + member);
            } else {
                assert(out@ =~= seq!['{'] + (members_text(model.take(i as int)) + seq![','] + member));
            }
        }
        i = i + 1;
    }
    assert(model.take(i as int) == model);
    out.append("}");
    out
}

} // verus!

verus! {

/// The members of an object, each value by its JSON text.
pub open spec fn texts_of(members: Seq<(Seq<char>, JsonModel)>) -> Seq<(Seq<char>, Seq<char>)> {
    members.map_values(|m: (Seq<char>, JsonModel)| (m.0, value_text(m.1)))
}

/// The JSON text of a value.
pub fn json_text(value: &JsonValue) -> (out: String)
    ensures
        out@ == value_text(value@),
{
    match value {
        JsonValue::Null => String::from_str("null"),
        JsonValue::Bool(b) => if *b {
            String::from_str("true")
        } else {
            String::from_str("false")
        },
        JsonValue::Number(t) => t.clone(),
        JsonValue::Text(t) => quote(t.as_str()),
        JsonValue::Array(t) => t.clone(),
        JsonValue::Object(t) => t.clone(),
    }
}

/// The members of an object, each value by its JSON text.
pub fn member_texts(members: &Vec<JsonMember>) -> (out: Vec<(String, String)>)
    ensures
        out.deep_view() == texts_of(member_views(members@)),
{
    let mut out: Vec<(String, String)> = Vec::new();
    let mut i: usize = 0;
    while i < members.len()
        invariant
            i <= members@.len(),
            out@.len() == i,
            forall|j: int|
                0 <= j < i ==> (#[trigger] out@[j]).0@ == members@[j].name@ && out@[j].1@
                    == value_text(members@[j].value@),
        decreases members@.len() - i,
    {
        out.push((members[i].name.clone(), json_text(&members[i].value)));
        i = i + 1;
    }
    assert(out.deep_view() =~= texts_of(member_views(members@)));
    out
}

} // verus!
