//! JSON objects, built and read through `serde_json`.
//!
//! An object is kept in a `serde_json::Map`, which keeps its members in the
//! order in which they were inserted. Verified code sees such a map through
//! [`members_of`] only.

use vstd::prelude::*;

verus! {

/// What a member of a JSON object holds, as far as this crate tells values
/// apart: a string, a boolean, or anything else.
pub enum JsonItem {
    Text(Seq<char>),
    Flag(bool),
    Other,
}

/// A value that this crate writes into a JSON object.
#[derive(Clone, Debug, PartialEq, Eq)]
pub enum JsonScalar {
    Text(String),
    Flag(bool),
}

impl View for JsonScalar {
    type V = JsonItem;

    open spec fn view(&self) -> JsonItem {
        match self {
            JsonScalar::Text(text) => JsonItem::Text(text@),
            JsonScalar::Flag(flag) => JsonItem::Flag(*flag),
        }
    }
}

/// The members of a JSON object in order, each a name and what it holds.
pub type Members = Seq<(Seq<char>, JsonItem)>;

/// `serde_json::Map`, the object of a JSON text. Nothing inside it is seen
/// here: what it holds is [`members_of`].
#[verifier::external_type_specification]
#[verifier::external_body]
#[verifier::reject_recursive_types(K)]
#[verifier::reject_recursive_types(V)]
pub struct ExMap<K, V>(serde_json::Map<K, V>);

/// `serde_json::Value`, a JSON value of any kind.
#[verifier::external_type_specification]
#[verifier::external_body]
pub struct ExValue(serde_json::Value);

/// `serde_json::Error`, what the parser and the printer report.
#[verifier::external_type_specification]
#[verifier::external_body]
pub struct ExJsonError(serde_json::Error);

/// The members of `object`, in the order in which the map walks them. A
/// string stands as `Text`, a boolean as `Flag`, any other value as `Other`.
pub uninterp spec fn members_of(object: serde_json::Map<String, serde_json::Value>) -> Members;

/// The text that `serde_json::to_string_pretty` gives for an object with
/// these members, `None` where it reports an error.
pub uninterp spec fn pretty_text(members: Members) -> Option<Seq<char>>;

/// The members of the JSON object that `serde_json::from_str` reads from
/// `text`, `None` where it reports an error: the text is no JSON, or is JSON
/// and no object.
pub uninterp spec fn parsed_members(text: Seq<char>) -> Option<Members>;

/// The position of the first member called `name`, or the number of members
/// where there is none.
pub open spec fn position(members: Members, name: Seq<char>) -> int
    decreases members.len(),
{
    if members.len() == 0 {
        0
    } else if members[0].0 == name {
        0
    } else {
        1 + position(members.drop_first(), name)
    }
}

/// `members` after a member `name` holding `item` was put in: in the place
/// of the member of that name, or at the end where there was none.
pub open spec fn with_member(members: Members, name: Seq<char>, item: JsonItem) -> Members {
    let at = position(members, name);
    if at < members.len() {
        members.update(at, (name, item))
    } else {
        members.push((name, item))
    }
}

/// The string that the member called `name` holds, `None` where there is no
/// such member or it holds no string.
pub open spec fn text_of(members: Members, name: Seq<char>) -> Option<Seq<char>> {
    let at = position(members, name);
    if at < members.len() {
        match members[at].1 {
            JsonItem::Text(text) => Some(text),
            _ => None,
        }
    } else {
        None
    }
}

/// Whether every member holds a string or a boolean.
pub open spec fn all_plain(members: Members) -> bool {
    forall|i: int| 0 <= i < members.len() ==> !((#[trigger] members[i]).1 is Other)
}

/// `serde_json::Map::new`: an object without members.
#[verifier::external_body]
pub(crate) fn new_object() -> (object: serde_json::Map<String, serde_json::Value>)
    ensures
        members_of(object) == Seq::<(Seq<char>, JsonItem)>::empty(),
{
    serde_json::Map::new()
}

/// `serde_json::Map::insert`, with the map in insertion order as the
/// `preserve_order` feature of `serde_json` has it: a name that the object
/// has keeps its place and gets the new value, a new name goes to the end.
#[verifier::external_body]
pub(crate) fn insert_member(
    object: &mut serde_json::Map<String, serde_json::Value>,
    name: &str,
    value: JsonScalar,
)
    ensures
        members_of(*final(object)) == with_member(members_of(*old(object)), name@, value@),
{
    let value = match value {
        JsonScalar::Text(text) => serde_json::Value::String(text),
        JsonScalar::Flag(flag) => serde_json::Value::Bool(flag),
    };
    object.insert(name.to_owned(), value);
}

/// `serde_json::to_string_pretty` on an object of strings and booleans: the
/// text depends on the members alone.
#[verifier::external_body]
pub(crate) fn render_pretty(object: &serde_json::Map<String, serde_json::Value>) -> (rendered:
    Result<String, serde_json::Error>)
    requires
        all_plain(members_of(*object)),
    ensures
        match rendered {
            Ok(text) => pretty_text(members_of(*object)) == Some(text@),
            Err(_) => pretty_text(members_of(*object)) is None,
        },
{
    serde_json::to_string_pretty(object)
}

/// `serde_json::from_str`, asked for a `serde_json::Map`: whether it gives a
/// map, and the members of that map, depend on the text alone.
#[verifier::external_body]
pub(crate) fn parse_object(text: &str) -> (parsed: Result<
    serde_json::Map<String, serde_json::Value>,
    serde_json::Error,
>)
    ensures
        match parsed {
            Ok(object) => parsed_members(text@) == Some(members_of(object)),
            Err(_) => parsed_members(text@) is None,
        },
{
    serde_json::from_str(text)
}

/// `serde_json::Map::get`, with the value told apart as `Value::as_str`
/// does: the string of the member called `name`.
#[verifier::external_body]
pub(crate) fn member_text(
    object: &serde_json::Map<String, serde_json::Value>,
    name: &str,
) -> (text: Option<String>)
    ensures
        text.deep_view() == text_of(members_of(*object), name@),
{
    match object.get(name) {
        Some(serde_json::Value::String(text)) => Some(text.clone()),
        _ => None,
    }
}

/// Whether no member is called `name`.
pub open spec fn lacks(members: Members, name: Seq<char>) -> bool {
    forall|i: int| 0 <= i < members.len() ==> (#[trigger] members[i]).0 != name
}

/// The member that an optional string contributes: one `Text` member where
/// the string is there, none where it is not.
pub open spec fn optional_member(name: Seq<char>, value: Option<Seq<char>>) -> Members {
    match value {
        Some(text) => seq![(name, JsonItem::Text(text))],
        None => Seq::empty(),
    }
}

/// A name that no member has is looked for in vain.
pub proof fn lemma_position_of_absent(members: Members, name: Seq<char>)
    requires
        lacks(members, name),
    ensures
        position(members, name) == members.len(),
    decreases members.len(),
{
    if members.len() > 0 {
        assert(members[0].0 != name);
        let rest = members.drop_first();
        assert forall|i: int| 0 <= i < rest.len() implies (#[trigger] rest[i]).0 != name by {
            assert(rest[i] == members[i + 1]);
        }
        lemma_position_of_absent(rest, name);
    }
}

/// Adds a string member under a name that the object does not have yet.
pub(crate) fn put_text(
    object: &mut serde_json::Map<String, serde_json::Value>,
    name: &str,
    text: &str,
)
    requires
        lacks(members_of(*old(object)), name@),
    ensures
        members_of(*final(object)) == members_of(*old(object)).push(
            (name@, JsonItem::Text(text@)),
        ),
{
    proof {
        lemma_position_of_absent(members_of(*object), name@);
    }
    insert_member(object, name, JsonScalar::Text(text.to_owned()));
}

/// Adds a boolean member under a name that the object does not have yet.
pub(crate) fn put_flag(
    object: &mut serde_json::Map<String, serde_json::Value>,
    name: &str,
    flag: bool,
)
    requires
        lacks(members_of(*old(object)), name@),
    ensures
        members_of(*final(object)) == members_of(*old(object)).push(
            (name@, JsonItem::Flag(flag)),
        ),
{
    proof {
        lemma_position_of_absent(members_of(*object), name@);
    }
    insert_member(object, name, JsonScalar::Flag(flag));
}

/// Adds a string member where `value` holds a string, and nothing where it
/// holds none.
pub(crate) fn put_optional_text(
    object: &mut serde_json::Map<String, serde_json::Value>,
    name: &str,
    value: &Option<String>,
)
    requires
        lacks(members_of(*old(object)), name@),
    ensures
        members_of(*final(object)) == members_of(*old(object)) + optional_member(
            name@,
            value.deep_view(),
        ),
{
    match value {
        Some(text) => {
            put_text(object, name, text.as_str());
        },
        None => {},
    }
}

} // verus!
