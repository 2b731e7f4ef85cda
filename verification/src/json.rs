//! The JSON collaborator: parsing and field lookup are done by serde_json
//! behind the trusted items below. A parsed document travels as a
//! [`JsonNode`], which carries, as ghost data, the text it was parsed from
//! and the key path that led to it; what each accessor returns is named as a
//! function of that text and path, so callers can state exactly what they
//! read out of a response.

use vstd::prelude::*;

verus! {

#[verifier::external_type_specification]
#[verifier::external_body]
pub struct ExValue(serde_json::Value);

#[verifier::external_type_specification]
#[verifier::external_body]
pub struct ExJsonError(serde_json::Error);

/// A JSON value inside a parsed document: `doc` is the text the document was
/// parsed from, `path` the keys followed from the root to this value. The
/// held value is crate-private, and only `parse_json` and `json_get` build
/// nodes, so `doc` and `path` always describe it.
pub struct JsonNode {
    pub(crate) value: serde_json::Value,
    pub doc: Ghost<Seq<char>>,
    pub path: Ghost<Seq<Seq<char>>>,
}

/// Whether serde_json accepts `s` as a JSON document. Acceptance depends on
/// the text alone.
pub uninterp spec fn json_accepts(s: Seq<char>) -> bool;

/// Whether the value at `path` in the document parsed from `doc` is an
/// object with a member named `key`: what `Value::get` finds there.
pub uninterp spec fn json_has(doc: Seq<char>, path: Seq<Seq<char>>, key: Seq<char>) -> bool;

/// The text of the value at `path` in the document parsed from `doc`, if
/// that value is a string: what `Value::as_str` returns there.
pub uninterp spec fn json_str_at(doc: Seq<char>, path: Seq<Seq<char>>) -> Option<Seq<char>>;

/// The number at `path` in the document parsed from `doc`, if that value is
/// an unsigned 64-bit integer: what `Value::as_u64` returns there.
pub uninterp spec fn json_u64_at(doc: Seq<char>, path: Seq<Seq<char>>) -> Option<u64>;

/// The boolean at `path` in the document parsed from `doc`, if that value is
/// one: what `Value::as_bool` returns there.
pub uninterp spec fn json_bool_at(doc: Seq<char>, path: Seq<Seq<char>>) -> Option<bool>;

/// Whether the value at `path` in the document parsed from `doc` is an
/// object: what `Value::is_object` returns there.
pub uninterp spec fn json_object_at(doc: Seq<char>, path: Seq<Seq<char>>) -> bool;

/// Relies on serde_json::from_str: parses a JSON document, deterministically
/// in the input text.
#[verifier::external_body]
fn parse_value(s: &str) -> (r: Result<serde_json::Value, serde_json::Error>)
    ensures
        r is Ok <==> json_accepts(s@),
{
    serde_json::from_str(s)
}

/// Parses a JSON document; the returned root node sits at the empty path of
/// the given text.
pub(crate) fn parse_json(s: &str) -> (r: Result<JsonNode, serde_json::Error>)
    ensures
        r is Ok <==> json_accepts(s@),
        r matches Ok(root) ==> root.doc@ == s@ && root.path@ == Seq::<Seq<char>>::empty(),
{
    match parse_value(s) {
        Ok(value) => Ok(
            JsonNode { value, doc: Ghost(s@), path: Ghost(Seq::<Seq<char>>::empty()) },
        ),
        Err(e) => Err(e),
    }
}

/// Relies on serde_json::Error's Display implementation for the detail text
/// of a parse failure.
#[verifier::external_body]
pub(crate) fn json_error_message(e: &serde_json::Error) -> String {
    e.to_string()
}

/// Relies on serde_json::Value::get: the member under `key`, present exactly
/// as `json_has` says.
#[verifier::external_body]
fn node_get_value(node: &JsonNode, key: &str) -> (r: Option<serde_json::Value>)
    ensures
        r is Some <==> json_has(node.doc@, node.path@, key@),
{
    match node.value.get(key) {
        Some(v) => Some(v.clone()),
        None => None,
    }
}

/// The member under `key`, one step further down the node's path.
pub(crate) fn json_get(node: &JsonNode, key: &str) -> (r: Option<JsonNode>)
    ensures
        r is Some <==> json_has(node.doc@, node.path@, key@),
        r matches Some(child) ==> child.doc@ == node.doc@ && child.path@ == node.path@.push(key@),
{
    match node_get_value(node, key) {
        Some(value) => Some(
            JsonNode { value, doc: Ghost(node.doc@), path: Ghost(node.path@.push(key@)) },
        ),
        None => None,
    }
}

/// Relies on serde_json::Value::as_str: the node's text, exactly as
/// `json_str_at` names it.
#[verifier::external_body]
pub(crate) fn json_as_str<'a>(node: &'a JsonNode) -> (r: Option<&'a str>)
    ensures
        r is Some <==> json_str_at(node.doc@, node.path@) is Some,
        r matches Some(s) ==> json_str_at(node.doc@, node.path@) == Some(s@),
{
    node.value.as_str()
}

/// Relies on serde_json::Value::as_u64: the node's number, exactly as
/// `json_u64_at` names it.
#[verifier::external_body]
pub(crate) fn json_as_u64(node: &JsonNode) -> (r: Option<u64>)
    ensures
        r == json_u64_at(node.doc@, node.path@),
{
    node.value.as_u64()
}

/// Relies on serde_json::Value::as_bool: the node's boolean, exactly as
/// `json_bool_at` names it.
#[verifier::external_body]
pub(crate) fn json_as_bool(node: &JsonNode) -> (r: Option<bool>)
    ensures
        r == json_bool_at(node.doc@, node.path@),
{
    node.value.as_bool()
}

/// Relies on serde_json::Value::is_object, exactly as `json_object_at`
/// names it.
#[verifier::external_body]
pub(crate) fn json_is_object(node: &JsonNode) -> (r: bool)
    ensures
        r == json_object_at(node.doc@, node.path@),
{
    node.value.is_object()
}

/// Whether the root of `doc` has a member `k1`.
pub open spec fn json_has1(doc: Seq<char>, k1: Seq<char>) -> bool {
    json_has(doc, Seq::empty(), k1)
}

/// Whether the root of `doc` has a member `k1` that is an object.
pub open spec fn json_object_field1(doc: Seq<char>, k1: Seq<char>) -> bool {
    json_has1(doc, k1) && json_object_at(doc, seq![k1])
}

/// The string one key down from the root, if the key and the string are
/// there.
pub open spec fn json_str_field1(doc: Seq<char>, k1: Seq<char>) -> Option<Seq<char>> {
    if json_has1(doc, k1) {
        json_str_at(doc, seq![k1])
    } else {
        None
    }
}

/// The string two keys down from the root, if every key and the string are
/// there.
pub open spec fn json_str_field2(doc: Seq<char>, k1: Seq<char>, k2: Seq<char>) -> Option<
    Seq<char>,
> {
    if json_has1(doc, k1) && json_has(doc, seq![k1], k2) {
        json_str_at(doc, seq![k1, k2])
    } else {
        None
    }
}

/// The string three keys down from the root, if every key and the string are
/// there.
pub open spec fn json_str_field3(
    doc: Seq<char>,
    k1: Seq<char>,
    k2: Seq<char>,
    k3: Seq<char>,
) -> Option<Seq<char>> {
    if json_has1(doc, k1) && json_has(doc, seq![k1], k2) && json_has(doc, seq![k1, k2], k3) {
        json_str_at(doc, seq![k1, k2, k3])
    } else {
        None
    }
}

/// The string four keys down from the root, if every key and the string are
/// there.
pub open spec fn json_str_field4(
    doc: Seq<char>,
    k1: Seq<char>,
    k2: Seq<char>,
    k3: Seq<char>,
    k4: Seq<char>,
) -> Option<Seq<char>> {
    if json_has1(doc, k1) && json_has(doc, seq![k1], k2) && json_has(doc, seq![k1, k2], k3)
        && json_has(doc, seq![k1, k2, k3], k4) {
        json_str_at(doc, seq![k1, k2, k3, k4])
    } else {
        None
    }
}

/// The unsigned number two keys down from the root, if every key and the
/// number are there.
pub open spec fn json_u64_field2(doc: Seq<char>, k1: Seq<char>, k2: Seq<char>) -> Option<u64> {
    if json_has1(doc, k1) && json_has(doc, seq![k1], k2) {
        json_u64_at(doc, seq![k1, k2])
    } else {
        None
    }
}

/// The boolean three keys down from the root, if every key and the boolean
/// are there.
pub open spec fn json_bool_field3(
    doc: Seq<char>,
    k1: Seq<char>,
    k2: Seq<char>,
    k3: Seq<char>,
) -> Option<bool> {
    if json_has1(doc, k1) && json_has(doc, seq![k1], k2) && json_has(doc, seq![k1, k2], k3) {
        json_bool_at(doc, seq![k1, k2, k3])
    } else {
        None
    }
}

/// Whether the root of the parsed document has a member `k1`.
pub(crate) fn has_field1(root: &JsonNode, k1: &str) -> (r: bool)
    requires
        root.path@ == Seq::<Seq<char>>::empty(),
    ensures
        r == json_has1(root.doc@, k1@),
{
    match json_get(root, k1) {
        Some(_) => true,
        None => false,
    }
}

/// Whether the root's member `k1` is there and is an object.
pub(crate) fn object_field1(root: &JsonNode, k1: &str) -> (r: bool)
    requires
        root.path@ == Seq::<Seq<char>>::empty(),
    ensures
        r == json_object_field1(root.doc@, k1@),
{
    match json_get(root, k1) {
        Some(n1) => {
            proof {
                assert(n1.path@ =~= seq![k1@]);
            }
            json_is_object(&n1)
        },
        None => false,
    }
}

/// The string under the root's member `k1`, if it is there.
pub(crate) fn str_field1(root: &JsonNode, k1: &str) -> (r: Option<String>)
    requires
        root.path@ == Seq::<Seq<char>>::empty(),
    ensures
        r is Some <==> json_str_field1(root.doc@, k1@) is Some,
        r matches Some(s) ==> json_str_field1(root.doc@, k1@) == Some(s@),
{
    match json_get(root, k1) {
        Some(n1) => {
            proof {
                assert(n1.path@ =~= seq![k1@]);
            }
            match json_as_str(&n1) {
                Some(s) => Some(s.to_owned()),
                None => None,
            }
        },
        None => None,
    }
}

/// The string two keys down from the root, if it is there.
pub(crate) fn str_field2(root: &JsonNode, k1: &str, k2: &str) -> (r: Option<String>)
    requires
        root.path@ == Seq::<Seq<char>>::empty(),
    ensures
        r is Some <==> json_str_field2(root.doc@, k1@, k2@) is Some,
        r matches Some(s) ==> json_str_field2(root.doc@, k1@, k2@) == Some(s@),
{
    match json_get(root, k1) {
        Some(n1) => {
            proof {
                assert(n1.path@ =~= seq![k1@]);
            }
            match json_get(&n1, k2) {
                Some(n2) => {
                    proof {
                        assert(n2.path@ =~= seq![k1@, k2@]);
                    }
                    match json_as_str(&n2) {
                        Some(s) => Some(s.to_owned()),
                        None => None,
                    }
                },
                None => None,
            }
        },
        None => None,
    }
}

/// The string three keys down from the root, if it is there.
pub(crate) fn str_field3(root: &JsonNode, k1: &str, k2: &str, k3: &str) -> (r: Option<String>)
    requires
        root.path@ == Seq::<Seq<char>>::empty(),
    ensures
        r is Some <==> json_str_field3(root.doc@, k1@, k2@, k3@) is Some,
        r matches Some(s) ==> json_str_field3(root.doc@, k1@, k2@, k3@) == Some(s@),
{
    match json_get(root, k1) {
        Some(n1) => {
            proof {
                assert(n1.path@ =~= seq![k1@]);
            }
            match json_get(&n1, k2) {
                Some(n2) => {
                    proof {
                        assert(n2.path@ =~= seq![k1@, k2@]);
                    }
                    match json_get(&n2, k3) {
                        Some(n3) => {
                            proof {
                                assert(n3.path@ =~= seq![k1@, k2@, k3@]);
                            }
                            match json_as_str(&n3) {
                                Some(s) => Some(s.to_owned()),
                                None => None,
                            }
                        },
                        None => None,
                    }
                },
                None => None,
            }
        },
        None => None,
    }
}

/// The string four keys down from the root, if it is there.
pub(crate) fn str_field4(root: &JsonNode, k1: &str, k2: &str, k3: &str, k4: &str) -> (r: Option<
    String,
>)
    requires
        root.path@ == Seq::<Seq<char>>::empty(),
    ensures
        r is Some <==> json_str_field4(root.doc@, k1@, k2@, k3@, k4@) is Some,
        r matches Some(s) ==> json_str_field4(root.doc@, k1@, k2@, k3@, k4@) == Some(s@),
{
    match json_get(root, k1) {
        Some(n1) => {
            proof {
                assert(n1.path@ =~= seq![k1@]);
            }
            match json_get(&n1, k2) {
                Some(n2) => {
                    proof {
                        assert(n2.path@ =~= seq![k1@, k2@]);
                    }
                    match json_get(&n2, k3) {
                        Some(n3) => {
                            proof {
                                assert(n3.path@ =~= seq![k1@, k2@, k3@]);
                            }
                            match json_get(&n3, k4) {
                                Some(n4) => {
                                    proof {
                                        assert(n4.path@ =~= seq![k1@, k2@, k3@, k4@]);
                                    }
                                    match json_as_str(&n4) {
                                        Some(s) => Some(s.to_owned()),
                                        None => None,
                                    }
                                },
                                None => None,
                            }
                        },
                        None => None,
                    }
                },
                None => None,
            }
        },
        None => None,
    }
}

/// The unsigned number two keys down from the root, if it is there.
pub(crate) fn u64_field2(root: &JsonNode, k1: &str, k2: &str) -> (r: Option<u64>)
    requires
        root.path@ == Seq::<Seq<char>>::empty(),
    ensures
        r == json_u64_field2(root.doc@, k1@, k2@),
{
    match json_get(root, k1) {
        Some(n1) => {
            proof {
                assert(n1.path@ =~= seq![k1@]);
            }
            match json_get(&n1, k2) {
                Some(n2) => {
                    proof {
                        assert(n2.path@ =~= seq![k1@, k2@]);
                    }
                    json_as_u64(&n2)
                },
                None => None,
            }
        },
        None => None,
    }
}

/// The boolean three keys down from the root, if it is there.
pub(crate) fn bool_field3(root: &JsonNode, k1: &str, k2: &str, k3: &str) -> (r: Option<bool>)
    requires
        root.path@ == Seq::<Seq<char>>::empty(),
    ensures
        r == json_bool_field3(root.doc@, k1@, k2@, k3@),
{
    match json_get(root, k1) {
        Some(n1) => {
            proof {
                assert(n1.path@ =~= seq![k1@]);
            }
            match json_get(&n1, k2) {
                Some(n2) => {
                    proof {
                        assert(n2.path@ =~= seq![k1@, k2@]);
                    }
                    match json_get(&n2, k3) {
                        Some(n3) => {
                            proof {
                                assert(n3.path@ =~= seq![k1@, k2@, k3@]);
                            }
                            json_as_bool(&n3)
                        },
                        None => None,
                    }
                },
                None => None,
            }
        },
        None => None,
    }
}

} // verus!
