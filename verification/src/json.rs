//! The members of a JSON object, as far as the response parser reads them.

use vstd::prelude::*;

verus! {

/// The error that `serde_json` reports for a text it cannot read. Carried
/// through, never inspected.
#[verifier::external_type_specification]
#[verifier::external_body]
pub struct ExJsonError(serde_json::Error);

/// The value of one member of a JSON object. Numbers, arrays and nested
/// objects are recorded by kind only.
#[derive(Debug, Clone, PartialEq, Eq)]
pub enum JsonValue {
    Null,
    Bool(bool),
    Number,
    Text(String),
    Array,
    Object,
}

/// The mathematical value of a [`JsonValue`].
pub enum JsonValueView {
    Null,
    Bool(bool),
    Number,
    Text(Seq<char>),
    Array,
    Object,
}

impl View for JsonValue {
    type V = JsonValueView;

    open spec fn view(&self) -> JsonValueView {
        match *self {
            JsonValue::Null => JsonValueView::Null,
            JsonValue::Bool(b) => JsonValueView::Bool(b),
            JsonValue::Number => JsonValueView::Number,
            JsonValue::Text(s) => JsonValueView::Text(s@),
            JsonValue::Array => JsonValueView::Array,
            JsonValue::Object => JsonValueView::Object,
        }
    }
}

/// One member of a JSON object.
#[derive(Debug, Clone, PartialEq, Eq)]
pub struct Member {
    pub key: String,
    pub value: JsonValue,
}

/// The mathematical value of a [`Member`].
pub struct MemberView {
    pub key: Seq<char>,
    pub value: JsonValueView,
}

impl View for Member {
    type V = MemberView;

    open spec fn view(&self) -> MemberView {
        MemberView { key: self.key@, value: self.value@ }
    }
}

/// The views of a sequence of members, in order.
pub open spec fn members_view(members: Seq<Member>) -> Seq<MemberView> {
    members.map_values(|m: Member| m@)
}

/// What `serde_json::from_str` makes of `text` when it is asked for a JSON
/// object: the members of the object, or `None` where it refuses the text
/// (no JSON, a root that is no object, something after the object).
pub uninterp spec fn json_object_members(text: Seq<char>) -> Option<Seq<MemberView>>;

/// Reads `text` as one JSON object and lists its members.
///
/// Trusted: wraps `serde_json::from_str` at the type
/// `serde_json::Map<String, serde_json::Value>`, and maps each value of the
/// map to its kind. The contract claims only that the outcome is a function
/// of the text: an error exactly where `json_object_members` is `None`, else
/// the members that it names.
#[verifier::external_body]
pub(crate) fn read_object(text: &str) -> (r: Result<Vec<Member>, serde_json::Error>)
    ensures
        match r {
            Ok(members) => json_object_members(text@) == Some(members_view(members@)),
            Err(_) => json_object_members(text@).is_none(),
        },
{
    let object: serde_json::Map<String, serde_json::Value> = serde_json::from_str(text)?;
    Ok(object.into_iter().map(|(key, value)| Member { key, value: match value {
        serde_json::Value::Null => JsonValue::Null,
        serde_json::Value::Bool(b) => JsonValue::Bool(b),
        serde_json::Value::Number(_) => JsonValue::Number,
        serde_json::Value::String(s) => JsonValue::Text(s),
        serde_json::Value::Array(_) => JsonValue::Array,
        serde_json::Value::Object(_) => JsonValue::Object,
    } }).collect())
}

/// The value of the first member of `members` whose key is `key`.
pub open spec fn find_member(members: Seq<MemberView>, key: Seq<char>) -> Option<JsonValueView>
    decreases members.len(),
{
    if members.len() == 0 {
        None
    } else if members.first().key == key {
        Some(members.first().value)
    } else {
        find_member(members.drop_first(), key)
    }
}

/// Looks up the first member of `members` whose key is `key`.
pub fn lookup<'a>(members: &'a Vec<Member>, key: &str) -> (r: Option<&'a JsonValue>)
    ensures
        match r {
            Some(value) => find_member(members_view(members@), key@) == Some(value@),
            None => find_member(members_view(members@), key@).is_none(),
        },
{
    let wanted = String::from_str(key);
    let ghost all = members_view(members@);
    let mut i: usize = 0;
    assert(all.skip(0) =~= all);
    while i < members.len()
        invariant
            i <= members.len(),
            all == members_view(members@),
            wanted@ == key@,
            find_member(all, key@) == find_member(all.skip(i as int), key@),
        decreases members.len() - i,
    {
        proof {
            assert(all.skip(i as int).drop_first() =~= all.skip(i + 1));
        }
        if members[i].key == wanted {
            return Some(&members[i].value);
        }
        i = i + 1;
    }
    None
}

} // verus!
