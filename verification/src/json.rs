//! Reading JSON documents. The documents are `serde_json` values; what this
//! module states about them is stated over the nodes that JSON Pointers reach.

use vstd::prelude::*;

verus! {

/// `serde_json::Value`, a parsed JSON document. Nothing inside it is seen
/// here; what it holds is read through the functions below.
#[verifier::external_type_specification]
#[verifier::external_body]
pub struct ExJsonValue(serde_json::Value);

/// One node of a JSON document. A number that is written as an integer and
/// fits in 64 bits is an `Integer`; any other number is a `Float`. An array
/// is known by its length; its items are nodes of their own.
pub enum JsonNode {
    Null,
    Bool(bool),
    Integer(int),
    Float,
    Text(Seq<char>),
    Array(nat),
    Object,
}

/// The nodes of a document, each under the JSON Pointer that reaches it. The
/// empty pointer reaches the document itself.
pub uninterp spec fn json_nodes(doc: serde_json::Value) -> Map<Seq<char>, JsonNode>;

/// The nodes of the document that `text` parses to, or `None` where `text`
/// is not one JSON document.
pub uninterp spec fn json_parsed(text: Seq<char>) -> Option<Map<Seq<char>, JsonNode>>;

/// The node under `pointer`, if there is one.
pub open spec fn node_at(nodes: Map<Seq<char>, JsonNode>, pointer: Seq<char>) -> Option<JsonNode> {
    if nodes.dom().contains(pointer) {
        Some(nodes[pointer])
    } else {
        None
    }
}

/// The string under `pointer`, if there is a string.
pub open spec fn text_at(nodes: Map<Seq<char>, JsonNode>, pointer: Seq<char>) -> Option<Seq<char>> {
    match node_at(nodes, pointer) {
        Some(JsonNode::Text(s)) => Some(s),
        _ => None,
    }
}

/// The integer under `pointer`, if there is one between `low` and `high`.
pub open spec fn integer_at(
    nodes: Map<Seq<char>, JsonNode>,
    pointer: Seq<char>,
    low: int,
    high: int,
) -> Option<int> {
    match node_at(nodes, pointer) {
        Some(JsonNode::Integer(n)) => if low <= n <= high {
            Some(n)
        } else {
            None
        },
        _ => None,
    }
}

/// The signed 64-bit integer under `pointer`, if there is one.
pub open spec fn i64_at(nodes: Map<Seq<char>, JsonNode>, pointer: Seq<char>) -> Option<int> {
    integer_at(nodes, pointer, i64::MIN as int, i64::MAX as int)
}

/// The unsigned 64-bit integer under `pointer`, if there is one.
pub open spec fn u64_at(nodes: Map<Seq<char>, JsonNode>, pointer: Seq<char>) -> Option<int> {
    integer_at(nodes, pointer, 0, u64::MAX as int)
}

/// The boolean under `pointer`, if there is one.
pub open spec fn bool_at(nodes: Map<Seq<char>, JsonNode>, pointer: Seq<char>) -> Option<bool> {
    match node_at(nodes, pointer) {
        Some(JsonNode::Bool(b)) => Some(b),
        _ => None,
    }
}

/// The length of the array under `pointer`, if there is an array.
pub open spec fn array_len_at(nodes: Map<Seq<char>, JsonNode>, pointer: Seq<char>) -> Option<nat> {
    match node_at(nodes, pointer) {
        Some(JsonNode::Array(n)) => Some(n),
        _ => None,
    }
}

/// The characters of an optional string.
pub open spec fn opt_text(s: Option<String>) -> Option<Seq<char>> {
    match s {
        Some(t) => Some(t@),
        None => None,
    }
}

/// Calls `serde_json::from_str`. The contract names the nodes of the value
/// that comes back, as a function of the text; a text that does not parse
/// gives `None`.
#[verifier::external_body]
pub(crate) fn parse_json(text: &str) -> (r: Option<serde_json::Value>)
    ensures
        match r {
            Some(doc) => json_parsed(text@) == Some(json_nodes(doc)),
            None => json_parsed(text@) is None,
        },
{
    match serde_json::from_str::<serde_json::Value>(text) {
        Ok(doc) => Some(doc),
        Err(_) => None,
    }
}

/// Calls `serde_json::Value::pointer`. The contract says that a value comes
/// back exactly where the document has a node under the pointer, and that
/// the value is that node.
#[verifier::external_body]
fn json_pointer<'a>(doc: &'a serde_json::Value, pointer: &str) -> (r: Option<&'a serde_json::Value>)
    ensures
        match r {
            Some(v) => node_at(json_nodes(*doc), pointer@) == Some(
                json_nodes(*v)[Seq::<char>::empty()],
            ),
            None => node_at(json_nodes(*doc), pointer@) is None,
        },
{
    doc.pointer(pointer)
}

/// Calls `serde_json::Value::as_str`: the string that the value is, if it is
/// one.
#[verifier::external_body]
fn json_as_str(v: &serde_json::Value) -> (r: Option<String>)
    ensures
        match r {
            Some(s) => json_nodes(*v)[Seq::<char>::empty()] == JsonNode::Text(s@),
            None => !(json_nodes(*v)[Seq::<char>::empty()] is Text),
        },
{
    v.as_str().map(|s| s.to_string())
}

/// Calls `serde_json::Value::as_i64`: the integer that the value is, if it
/// is one that fits in `i64`.
#[verifier::external_body]
fn json_as_i64(v: &serde_json::Value) -> (r: Option<i64>)
    ensures
        match r {
            Some(n) => json_nodes(*v)[Seq::<char>::empty()] == JsonNode::Integer(n as int),
            None => match json_nodes(*v)[Seq::<char>::empty()] {
                JsonNode::Integer(n) => n > i64::MAX,
                _ => true,
            },
        },
{
    v.as_i64()
}

/// Calls `serde_json::Value::as_u64`: the integer that the value is, if it
/// is one that is not negative.
#[verifier::external_body]
fn json_as_u64(v: &serde_json::Value) -> (r: Option<u64>)
    ensures
        match r {
            Some(n) => json_nodes(*v)[Seq::<char>::empty()] == JsonNode::Integer(n as int),
            None => match json_nodes(*v)[Seq::<char>::empty()] {
                JsonNode::Integer(n) => n < 0,
                _ => true,
            },
        },
{
    v.as_u64()
}

/// Calls `serde_json::Value::as_bool`: the boolean that the value is, if it
/// is one.
#[verifier::external_body]
fn json_as_bool(v: &serde_json::Value) -> (r: Option<bool>)
    ensures
        match r {
            Some(b) => json_nodes(*v)[Seq::<char>::empty()] == JsonNode::Bool(b),
            None => !(json_nodes(*v)[Seq::<char>::empty()] is Bool),
        },
{
    v.as_bool()
}

/// Calls `serde_json::Value::as_array` and takes the length of the array
/// that the value is, if it is one.
#[verifier::external_body]
fn json_array_len(v: &serde_json::Value) -> (r: Option<usize>)
    ensures
        match r {
            Some(n) => json_nodes(*v)[Seq::<char>::empty()] == JsonNode::Array(n as nat),
            None => !(json_nodes(*v)[Seq::<char>::empty()] is Array),
        },
{
    v.as_array().map(|items| items.len())
}

/// The string under `pointer` in `doc`.
pub fn get_text(doc: &serde_json::Value, pointer: &str) -> (r: Option<String>)
    ensures
        opt_text(r) == text_at(json_nodes(*doc), pointer@),
{
    match json_pointer(doc, pointer) {
        Some(v) => json_as_str(v),
        None => None,
    }
}

/// The signed integer under `pointer` in `doc`.
pub fn get_i64(doc: &serde_json::Value, pointer: &str) -> (r: Option<i64>)
    ensures
        match r {
            Some(n) => i64_at(json_nodes(*doc), pointer@) == Some(n as int),
            None => i64_at(json_nodes(*doc), pointer@) is None,
        },
{
    match json_pointer(doc, pointer) {
        Some(v) => json_as_i64(v),
        None => None,
    }
}

/// The unsigned integer under `pointer` in `doc`.
pub fn get_u64(doc: &serde_json::Value, pointer: &str) -> (r: Option<u64>)
    ensures
        match r {
            Some(n) => u64_at(json_nodes(*doc), pointer@) == Some(n as int),
            None => u64_at(json_nodes(*doc), pointer@) is None,
        },
{
    match json_pointer(doc, pointer) {
        Some(v) => json_as_u64(v),
        None => None,
    }
}

/// The boolean under `pointer` in `doc`.
pub fn get_bool(doc: &serde_json::Value, pointer: &str) -> (r: Option<bool>)
    ensures
        r == bool_at(json_nodes(*doc), pointer@),
{
    match json_pointer(doc, pointer) {
        Some(v) => json_as_bool(v),
        None => None,
    }
}

/// The length of the array under `pointer` in `doc`.
pub fn get_array_len(doc: &serde_json::Value, pointer: &str) -> (r: Option<usize>)
    ensures
        match r {
            Some(n) => array_len_at(json_nodes(*doc), pointer@) == Some(n as nat),
            None => array_len_at(json_nodes(*doc), pointer@) is None,
        },
{
    match json_pointer(doc, pointer) {
        Some(v) => json_array_len(v),
        None => None,
    }
}

/// Whether `doc` has a node under `pointer`.
pub fn has_node(doc: &serde_json::Value, pointer: &str) -> (r: bool)
    ensures
        r == (node_at(json_nodes(*doc), pointer@) is Some),
{
    json_pointer(doc, pointer).is_some()
}

/// The pointer to item `index` of the array under `array`, followed by
/// `field`: `array`, `/`, the index in decimal, `field`.
pub open spec fn item_pointer(array: Seq<char>, index: nat, field: Seq<char>) -> Seq<char> {
    array + seq!['/'] + crate::text::decimal(index) + field
}

/// Builds the pointer to a field of an array item.
pub fn make_item_pointer(array: &str, index: usize, field: &str) -> (r: String)
    ensures
        r@ == item_pointer(array@, index as nat, field@),
{
    let mut out = String::from_str(array);
    proof {
        reveal_strlit("/");
    }
    out.append("/");
    crate::text::push_decimal(&mut out, index as u64);
    out.append(field);
    assert(out@ =~= item_pointer(array@, index as nat, field@)) by {
        assert("/"@ =~= seq!['/']);
    }
    out
}

} // verus!
