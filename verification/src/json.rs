//! JSON as `serde_json` parses it, seen as a flat document: what stands at
//! each JSON pointer.

use vstd::prelude::*;

verus! {

/// `serde_json::Value`, taken as it is: nothing of its inside is visible.
#[verifier::external_type_specification]
#[verifier::external_body]
pub struct ExValue(serde_json::Value);

/// What stands at one place of a document. Of an array only the length is
/// kept and of an object nothing: their members stand at pointers of their own.
#[derive(Debug)]
enum Node {
    Null,
    Bool(bool),
    /// The number, where it is an integer that `u64` holds.
    Number(Option<u64>),
    Text(String),
    Array(usize),
    Object,
}

/// A node as contracts speak of it.
pub enum NodeView {
    Null,
    Bool(bool),
    Number(Option<u64>),
    Text(Seq<char>),
    Array(nat),
    Object,
}

impl View for Node {
    type V = NodeView;

    closed spec fn view(&self) -> NodeView {
        match self {
            Node::Null => NodeView::Null,
            Node::Bool(flag) => NodeView::Bool(*flag),
            Node::Number(number) => NodeView::Number(*number),
            Node::Text(text) => NodeView::Text(text@),
            Node::Array(length) => NodeView::Array(*length as nat),
            Node::Object => NodeView::Object,
        }
    }
}

/// A document: for every JSON pointer that leads to a place in it, what
/// stands there. The empty pointer leads to the document's root.
pub type Document = Map<Seq<char>, NodeView>;

/// The document that `value` holds.
pub uninterp spec fn nodes(value: serde_json::Value) -> Map<Seq<char>, NodeView>;

/// The document that `body` is the JSON text of, if it is JSON at all.
pub uninterp spec fn parsed(body: Seq<u8>) -> Option<Map<Seq<char>, NodeView>>;

/// Parses `body` by `serde_json::from_slice`; `None` where that fails.
///
/// Trusted: `serde_json::from_slice` is a function of the bytes alone, and
/// `parsed` is the name of what it gives: the document of the value where
/// the bytes parse, nothing where they do not. Which bytes parse, and into
/// what, is not claimed.
#[verifier::external_body]
pub(crate) fn parse(body: &[u8]) -> (value: Option<serde_json::Value>)
    ensures
        value matches Some(document) ==> parsed(body@) == Some(nodes(document)),
        value is None ==> parsed(body@) is None,
{
    serde_json::from_slice(body).ok()
}

/// Looks up `pointer` in `value` by `serde_json::Value::pointer` and tells
/// what stands there; a number is read by `serde_json::Number::as_u64`.
///
/// Trusted: the lookup is a function of the value and the pointer alone,
/// and `nodes` is the name of what it gives over all pointers: a pointer
/// is in the document where the lookup finds a place, and stands for what
/// was found there. Which pointers lead where is not claimed.
#[verifier::external_body]
fn node_at(value: &serde_json::Value, pointer: &str) -> (node: Option<Node>)
    ensures
        node matches Some(found) ==> nodes(*value).contains_key(pointer@) && nodes(
            *value,
        )[pointer@] == found@,
        node is None ==> !nodes(*value).contains_key(pointer@),
{
    Some(
        match value.pointer(pointer)? {
            serde_json::Value::Null => Node::Null,
            serde_json::Value::Bool(flag) => Node::Bool(*flag),
            serde_json::Value::Number(number) => Node::Number(number.as_u64()),
            serde_json::Value::String(text) => Node::Text(text.clone()),
            serde_json::Value::Array(items) => Node::Array(items.len()),
            serde_json::Value::Object(_) => Node::Object,
        },
    )
}

/// The text at `pointer`, where a string stands there.
pub open spec fn text_in(document: Document, pointer: Seq<char>) -> Option<Seq<char>> {
    if document.contains_key(pointer) {
        match document[pointer] {
            NodeView::Text(text) => Some(text),
            _ => None,
        }
    } else {
        None
    }
}

/// The number at `pointer`, where an integer that `u64` holds stands there.
pub open spec fn number_in(document: Document, pointer: Seq<char>) -> Option<u64> {
    if document.contains_key(pointer) {
        match document[pointer] {
            NodeView::Number(number) => number,
            _ => None,
        }
    } else {
        None
    }
}

/// The length of the array at `pointer`, where an array stands there.
pub open spec fn length_in(document: Document, pointer: Seq<char>) -> Option<nat> {
    if document.contains_key(pointer) {
        match document[pointer] {
            NodeView::Array(length) => Some(length),
            _ => None,
        }
    } else {
        None
    }
}

/// The view of a text that may be missing.
pub open spec fn text_view(text: Option<String>) -> Option<Seq<char>> {
    match text {
        Some(text) => Some(text@),
        None => None,
    }
}

/// The text at `pointer`, where a string stands there.
pub fn text_at(value: &serde_json::Value, pointer: &str) -> (text: Option<String>)
    ensures
        text_view(text) == text_in(nodes(*value), pointer@),
{
    match node_at(value, pointer) {
        Some(Node::Text(text)) => Some(text),
        _ => None,
    }
}

/// The number at `pointer`, where an integer that `u64` holds stands there.
pub fn number_at(value: &serde_json::Value, pointer: &str) -> (number: Option<u64>)
    ensures
        number == number_in(nodes(*value), pointer@),
{
    match node_at(value, pointer) {
        Some(Node::Number(number)) => number,
        _ => None,
    }
}

/// The length of the array at `pointer`, where an array stands there.
pub fn length_at(value: &serde_json::Value, pointer: &str) -> (length: Option<usize>)
    ensures
        length matches Some(count) ==> length_in(nodes(*value), pointer@) == Some(count as nat),
        length is None ==> length_in(nodes(*value), pointer@) is None,
{
    match node_at(value, pointer) {
        Some(Node::Array(length)) => Some(length),
        _ => None,
    }
}

} // verus!
