//! JSON documents as trees of plain values, and the parser that yields them.

use vstd::prelude::*;
use crate::number::Double;

verus! {

/// A JSON number, as the two readings that this library asks of one.
#[derive(Clone, Copy, Debug, PartialEq)]
pub struct JsonNumber {
    /// The number as a double, rounded where it has to be.
    pub real: Option<Double>,
    /// The number itself, where it is a non-negative integer below 2^64
    /// written without fraction or exponent.
    pub unsigned: Option<u64>,
}

/// One member of a JSON object.
#[derive(Debug, PartialEq)]
pub struct JsonMember {
    pub name: String,
    pub value: Json,
}

/// A JSON document.
#[derive(Debug, PartialEq)]
pub enum Json {
    Null,
    Bool(bool),
    Number(JsonNumber),
    Text(String),
    List(Vec<Json>),
    Record(Vec<JsonMember>),
}

/// What a [`JsonMember`] holds.
pub struct MemberView {
    pub name: Seq<char>,
    pub value: JsonView,
}

/// What a [`Json`] holds.
pub enum JsonView {
    Null,
    Bool(bool),
    Number(JsonNumber),
    Text(Seq<char>),
    List(Seq<JsonView>),
    Record(Seq<MemberView>),
}

/// What a document holds, level by level.
pub open spec fn tree(j: Json) -> JsonView
    decreases j,
{
    match j {
        Json::Null => JsonView::Null,
        Json::Bool(b) => JsonView::Bool(b),
        Json::Number(n) => JsonView::Number(n),
        Json::Text(s) => JsonView::Text(s@),
        Json::List(items) => JsonView::List(
            Seq::new(
                items.len() as nat,
                |i: int|
                    if 0 <= i < items.len() {
                        tree(items[i])
                    } else {
                        JsonView::Null
                    },
            ),
        ),
        Json::Record(members) => JsonView::Record(
            Seq::new(
                members.len() as nat,
                |i: int|
                    if 0 <= i < members.len() {
                        MemberView { name: members[i].name@, value: tree(members[i].value) }
                    } else {
                        MemberView { name: Seq::empty(), value: JsonView::Null }
                    },
            ),
        ),
    }
}

impl View for Json {
    type V = JsonView;

    open spec fn view(&self) -> JsonView {
        tree(*self)
    }
}

/// The value of the first member called `name`, if there is one.
pub open spec fn lookup(members: Seq<MemberView>, name: Seq<char>) -> Option<JsonView>
    decreases members.len(),
{
    if members.len() == 0 {
        None
    } else if members[0].name == name {
        Some(members[0].value)
    } else {
        lookup(members.drop_first(), name)
    }
}

/// What the members of a record hold, in their order.
pub open spec fn members_view(members: Seq<JsonMember>) -> Seq<MemberView> {
    Seq::new(
        members.len(),
        |i: int| MemberView { name: members[i].name@, value: members[i].value@ },
    )
}

/// What the items of a list hold, in their order.
pub open spec fn items_view(items: Seq<Json>) -> Seq<JsonView> {
    Seq::new(items.len(), |i: int| items[i]@)
}

/// The view of a list is the list of its items' views, and the view of a
/// record the list of its members' views.
pub proof fn lemma_view_unfolds(j: Json)
    ensures
        j matches Json::List(items) ==> j@ == JsonView::List(items_view(items@)),
        j matches Json::Record(members) ==> j@ == JsonView::Record(members_view(members@)),
{
    match j {
        Json::List(items) => {
            assert(j@->List_0 =~= items_view(items@));
        },
        Json::Record(members) => {
            assert(j@->Record_0 =~= members_view(members@));
        },
        _ => {},
    }
}

/// Looks a member up by name; where several carry the name, the first.
pub fn member<'a>(members: &'a Vec<JsonMember>, name: &str) -> (r: Option<&'a Json>)
    ensures
        match r {
            Some(value) => lookup(members_view(members@), name@) == Some(value@),
            None => lookup(members_view(members@), name@) is None,
        },
{
    let wanted = name.to_owned();
    let ghost all = members_view(members@);
    let mut i: usize = 0;
    proof {
        assert(all.skip(0) =~= all);
    }
    while i < members.len()
        invariant
            i <= members.len(),
            all == members_view(members@),
            wanted@ == name@,
            lookup(all, name@) == lookup(all.skip(i as int), name@),
        decreases members.len() - i,
    {
        proof {
            assert(all.skip(i as int).drop_first() =~= all.skip(i as int + 1));
        }
        if members[i].name == wanted {
            return Some(&members[i].value);
        }
        i += 1;
    }
    None
}

/// The document that a sequence of bytes spells, or nothing where the bytes
/// are not one JSON document.
pub uninterp spec fn json_document(bytes: Seq<u8>) -> Option<JsonView>;

/// What a parsed value holds, level by level.
pub uninterp spec fn value_tree(value: serde_json::Value) -> JsonView;

/// `serde_json::Value`, closed to the proofs: of a value they know only what
/// the two functions below claim of [`value_tree`].
#[verifier::external_type_specification]
#[verifier::external_body]
pub struct ExValue(serde_json::Value);

/// The top level of a parsed value, with the values below it still closed.
enum Node<'a> {
    Null,
    Bool(bool),
    Number(JsonNumber),
    Text(&'a String),
    List(&'a Vec<serde_json::Value>),
    Record(Vec<(&'a String, &'a serde_json::Value)>),
}

/// What a node holds, given what the values below it hold.
spec fn node_tree(node: Node) -> JsonView {
    match node {
        Node::Null => JsonView::Null,
        Node::Bool(b) => JsonView::Bool(b),
        Node::Number(n) => JsonView::Number(n),
        Node::Text(s) => JsonView::Text(s@),
        Node::List(items) => JsonView::List(Seq::new(items@.len(), |i: int| value_tree(items@[i]))),
        Node::Record(members) => JsonView::Record(
            Seq::new(
                members@.len(),
                |i: int| MemberView { name: members@[i].0@, value: value_tree(*members@[i].1) },
            ),
        ),
    }
}

/// `serde_json::from_slice`, read as a `serde_json::Value`. Claimed: the
/// outcome depends on the bytes alone, and it is nothing exactly when the
/// parser reports an error.
#[verifier::external_body]
fn parse_value(bytes: &[u8]) -> (r: Option<serde_json::Value>)
    ensures
        match r {
            Some(value) => json_document(bytes@) == Some(value_tree(value)),
            None => json_document(bytes@) is None,
        },
{
    serde_json::from_slice::<serde_json::Value>(bytes).ok()
}

/// Opens the top level of a `serde_json::Value`, one arm for each of its six
/// variants. A number is read through `Number::as_f64` and `Number::as_u64`;
/// the members of an object come as `Map::iter` hands them out. Claimed: what
/// the value holds is what the node shows, over what the values below hold.
#[verifier::external_body]
fn open_value<'a>(value: &'a serde_json::Value) -> (node: Node<'a>)
    ensures
        value_tree(*value) == node_tree(node),
{
    match value {
        serde_json::Value::Null => Node::Null,
        serde_json::Value::Bool(b) => Node::Bool(*b),
        serde_json::Value::Number(n) => Node::Number(
            JsonNumber { real: n.as_f64().map(|x| Double::from_bits(x.to_bits())), unsigned: n.as_u64() },
        ),
        serde_json::Value::String(s) => Node::Text(s),
        serde_json::Value::Array(items) => Node::List(items),
        serde_json::Value::Object(map) => Node::Record(map.iter().collect()),
    }
}

/// Copies a parsed value into a tree of this library.
fn lift(value: &serde_json::Value) -> (j: Json)
    ensures
        j@ == value_tree(*value),
    decreases value_tree(*value),
{
    let node = open_value(value);
    match node {
        Node::Null => Json::Null,
        Node::Bool(b) => Json::Bool(b),
        Node::Number(n) => Json::Number(n),
        Node::Text(s) => Json::Text(s.clone()),
        Node::List(items) => {
            let ghost below = node_tree(node)->List_0;
            let mut out: Vec<Json> = Vec::new();
            let mut i: usize = 0;
            while i < items.len()
                invariant
                    i <= items.len(),
                    out@.len() == i,
                    value_tree(*value) == JsonView::List(below),
                    below.len() == items@.len(),
                    forall|k: int| 0 <= k < items@.len() ==> below[k] == value_tree(items@[k]),
                    forall|k: int| 0 <= k < i ==> (#[trigger] out@[k])@ == below[k],
                decreases items.len() - i,
            {
                proof {
                    let whole = value_tree(*value);
                    assert(decreases_to!(whole => whole->List_0[i as int]));
                }
                let item = lift(&items[i]);
                out.push(item);
                i += 1;
            }
            let j = Json::List(out);
            proof {
                lemma_view_unfolds(j);
                assert(items_view(out@) =~= below);
            }
            j
        },
        Node::Record(members) => {
            let ghost below = node_tree(node)->Record_0;
            let mut out: Vec<JsonMember> = Vec::new();
            let mut i: usize = 0;
            while i < members.len()
                invariant
                    i <= members.len(),
                    out@.len() == i,
                    value_tree(*value) == JsonView::Record(below),
                    below.len() == members@.len(),
                    forall|k: int|
                        0 <= k < members@.len() ==> below[k] == (MemberView {
                            name: members@[k].0@,
                            value: value_tree(*members@[k].1),
                        }),
                    forall|k: int|
                        0 <= k < i ==> (#[trigger] out@[k]).name@ == below[k].name && out@[k].value@
                            == below[k].value,
                decreases members.len() - i,
            {
                let name = members[i].0.clone();
                proof {
                    let whole = value_tree(*value);
                    assert(decreases_to!(whole => whole->Record_0[i as int].value));
                }
                let below_value = lift(members[i].1);
                out.push(JsonMember { name, value: below_value });
                i += 1;
            }
            let j = Json::Record(out);
            proof {
                lemma_view_unfolds(j);
                assert(members_view(out@) =~= below);
            }
            j
        },
    }
}

/// Parses bytes as one JSON document.
pub fn parse(bytes: &[u8]) -> (r: Option<Json>)
    ensures
        match r {
            Some(document) => json_document(bytes@) == Some(document@),
            None => json_document(bytes@) is None,
        },
{
    match parse_value(bytes) {
        Some(value) => Some(lift(&value)),
        None => None,
    }
}

} // verus!
