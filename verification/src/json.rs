//! A JSON document as `yq` prints it for an XML file, and the lookups that read it.

use vstd::prelude::*;

use crate::error::AppError;
use crate::text::str_eq;

verus! {

/// A JSON value. Numbers keep their text; object members keep their order, and a key
/// is looked up at its first member.
#[derive(Debug)]
pub enum Json {
    Null,
    Bool(bool),
    Number(String),
    Str(String),
    Array(Vec<Json>),
    Object(Vec<(String, Json)>),
}

/// The value of the first member whose key is `key`.
pub open spec fn lookup(members: Seq<(String, Json)>, key: Seq<char>) -> Option<Json>
    decreases members.len(),
{
    if members.len() == 0 {
        None
    } else if members[0].0@ == key {
        Some(members[0].1)
    } else {
        lookup(members.drop_first(), key)
    }
}

/// `value[key]` for an object; nothing for any other value.
pub open spec fn member(value: Json, key: Seq<char>) -> Option<Json> {
    match value {
        Json::Object(members) => lookup(members@, key),
        _ => None,
    }
}

/// A child element as a list: all items of an array, the value itself otherwise, and
/// nothing when the child is absent.
pub open spec fn items(value: Option<Json>) -> Seq<Json> {
    match value {
        Some(Json::Array(values)) => values@,
        Some(v) => seq![v],
        None => Seq::empty(),
    }
}

/// The text of the XML attribute `name`, which `yq` keeps under the key `+@name`.
pub open spec fn attribute(value: Json, name: Seq<char>) -> Option<Seq<char>> {
    match member(value, "+@"@ + name) {
        Some(Json::Str(s)) => Some(s@),
        _ => None,
    }
}

/// The text of the error for a missing XML attribute.
pub open spec fn missing_attribute_text(name: Seq<char>) -> Seq<char> {
    "缺少 XML 属性 "@ + name
}

/// The value an optional reference points to.
pub open spec fn target(r: Option<&Json>) -> Option<Json> {
    match r {
        Some(v) => Some(*v),
        None => None,
    }
}

proof fn lemma_lookup_skip(members: Seq<(String, Json)>, key: Seq<char>, i: int)
    requires
        0 <= i < members.len(),
        members[i].0@ != key,
    ensures
        lookup(members.skip(i), key) == lookup(members.skip(i + 1), key),
{
    assert(members.skip(i).drop_first() =~= members.skip(i + 1));
}

impl Json {
    /// The member `key` of an object.
    pub fn get(&self, key: &str) -> (r: Option<&Json>)
        ensures
            target(r) == member(*self, key@),
    {
        match self {
            Json::Object(members) => {
                let mut i: usize = 0;
                assert(members@.skip(0) =~= members@);
                while i < members.len()
                    invariant
                        i <= members.len(),
                        lookup(members@, key@) == lookup(members@.skip(i as int), key@),
                        member(*self, key@) == lookup(members@, key@),
                    decreases members.len() - i,
                {
                    if str_eq(members[i].0.as_str(), key) {
                        assert(members@.skip(i as int)[0] == members@[i as int]);
                        assert(members@.skip(i as int).len() > 0);
                        assert(members@[i as int].0@ == key@);
                        assert(lookup(members@.skip(i as int), key@) == Some(members@[i as int].1));
                        let found = &members[i].1;
                        assert(*found == members@[i as int].1);
                        assert(member(*self, key@) == lookup(members@, key@));
                        return Some(found);
                    }
                    proof {
                        lemma_lookup_skip(members@, key@, i as int);
                    }
                    i = i + 1;
                }
                None
            },
            _ => None,
        }
    }

    /// The text of a string value.
    pub fn as_str(&self) -> (r: Option<&String>)
        ensures
            match *self {
                Json::Str(s) => r matches Some(t) && t == s,
                _ => r is None,
            },
    {
        match self {
            Json::Str(s) => Some(s),
            _ => None,
        }
    }
}

/// The values that a list of references points to.
pub open spec fn targets(refs: Seq<&Json>) -> Seq<Json> {
    refs.map_values(|x: &Json| *x)
}

/// A child element as a list of values.
pub fn values(value: Option<&Json>) -> (r: Vec<&Json>)
    ensures
        targets(r@) == items(target(value)),
{
    match value {
        Some(Json::Array(vs)) => {
            let mut r: Vec<&Json> = Vec::new();
            let mut i: usize = 0;
            while i < vs.len()
                invariant
                    i <= vs.len(),
                    targets(r@) == vs@.take(i as int),
                decreases vs.len() - i,
            {
                let ghost before = r@;
                r.push(&vs[i]);
                assert(targets(r@) =~= targets(before).push(vs@[i as int]));
                i = i + 1;
                assert(targets(r@) =~= vs@.take(i as int));
            }
            assert(vs@.take(vs.len() as int) =~= vs@);
            r
        },
        Some(v) => {
            let mut r: Vec<&Json> = Vec::new();
            r.push(v);
            assert(targets(r@) =~= seq![*v]);
            r
        },
        None => {
            let r: Vec<&Json> = Vec::new();
            assert(targets(r@) =~= Seq::<Json>::empty());
            r
        },
    }
}

/// `serde_json::Value`, carried from the parser to the conversion below.
#[verifier::external_type_specification]
#[verifier::external_body]
pub struct ExJsonValue(serde_json::Value);

/// The JSON document that `serde_json::from_slice` reads from `bytes`, in the library's
/// form; nothing when the bytes are not one JSON text.
pub uninterp spec fn json_of_bytes(bytes: Seq<u8>) -> Option<Json>;

/// The library's form of a `serde_json::Value`: each node becomes the node of the same
/// kind, a number by the text that its `Display` gives, an object's members in the order
/// the value holds them.
#[verifier::external_body]
fn json_from_value(v: serde_json::Value) -> Json {
    match v {
        serde_json::Value::Null => Json::Null,
        serde_json::Value::Bool(b) => Json::Bool(b),
        serde_json::Value::Number(n) => Json::Number(n.to_string()),
        serde_json::Value::String(s) => Json::Str(s),
        serde_json::Value::Array(a) => Json::Array(a.into_iter().map(json_from_value).collect()),
        serde_json::Value::Object(m) => Json::Object(m.into_iter().map(|(k, x)| (k, json_from_value(x))).collect()),
    }
}

/// `serde_json::from_slice::<serde_json::Value>`: the document in `bytes`, which is a
/// function of the bytes alone and is named `json_of_bytes`; on failure the text of
/// serde_json's error, which is left unstated.
#[verifier::external_body]
pub fn parse_json(bytes: &[u8]) -> (r: Result<Json, String>)
    ensures
        r is Ok <==> json_of_bytes(bytes@) is Some,
        r matches Ok(j) ==> json_of_bytes(bytes@) == Some(j),
{
    match serde_json::from_slice::<serde_json::Value>(bytes) {
        Ok(v) => Ok(json_from_value(v)),
        Err(e) => Err(e.to_string()),
    }
}

/// The words that begin the error for output of `yq` that is not JSON.
pub open spec fn invalid_output_prefix() -> Seq<char> {
    "yq 输出不是有效 JSON: "@
}

/// The JSON document that `yq` printed for the file at `path`; a parse error of that file,
/// whose text starts with `invalid_output_prefix`, when the output is not JSON.
pub fn yq_output_json(path: &String, stdout: &[u8]) -> (r: Result<Json, AppError>)
    ensures
        match json_of_bytes(stdout@) {
            Some(j) => r matches Ok(v) && v == j,
            None => r matches Err(AppError::Parse { path: p, message: m }) && p@ == path@
                && invalid_output_prefix().is_prefix_of(m@),
        },
{
    match parse_json(stdout) {
        Ok(j) => Ok(j),
        Err(e) => {
            let message = String::from_str("yq 输出不是有效 JSON: ").concat(e.as_str());
            assert(message@.subrange(0, invalid_output_prefix().len() as int) =~= invalid_output_prefix());
            Err(AppError::Parse { path: path.clone(), message })
        },
    }
}

/// An element that occurs once reads as a list of that one element: `yq` prints a lone
/// child as the value itself and repeated children as an array, and both give one list.
pub proof fn law_lone_element_is_a_list(o: Json, v: Vec<Json>)
    requires
        o !is Array,
        v@ == seq![o],
    ensures
        items(Some(o)) == items(Some(Json::Array(v))),
{
}

/// Two values whose members agree under every key but `key`.
pub open spec fn agree_except(a: Json, b: Json, key: Seq<char>) -> bool {
    forall|k: Seq<char>| k != key ==> #[trigger] member(a, k) == member(b, k)
}

/// The text of the XML attribute `name`, if present.
pub fn attr_optional<'a>(value: &'a Json, name: &str) -> (r: Option<&'a String>)
    ensures
        match r {
            Some(s) => attribute(*value, name@) == Some(s@),
            None => attribute(*value, name@) is None,
        },
{
    let key = String::from_str("+@").concat(name);
    match value.get(key.as_str()) {
        Some(v) => v.as_str(),
        None => None,
    }
}

/// The text of the XML attribute `name`; a parse error of the file at `path` when it is missing.
pub fn attr<'a>(value: &'a Json, name: &str, path: &String) -> (r: Result<&'a String, AppError>)
    ensures
        match attribute(*value, name@) {
            Some(s) => r matches Ok(v) && v@ == s,
            None => r matches Err(AppError::Parse { path: p, message: m }) && p@ == path@
                && m@ == missing_attribute_text(name@),
        },
{
    match attr_optional(value, name) {
        Some(s) => Ok(s),
        None => Err(AppError::Parse {
            path: path.clone(),
            message: String::from_str("缺少 XML 属性 ").concat(name),
        }),
    }
}

} // verus!
