//! JSON documents, as far as the agent reads and writes them.

use vstd::prelude::*;
use vstd::string::*;

verus! {

// ---------------------------------------------------------------------------
// Reading
// ---------------------------------------------------------------------------

/// Declares `serde_json::Value`, a JSON value.
#[verifier::external_type_specification]
#[verifier::external_body]
pub struct ExValue(serde_json::Value);

/// Declares `serde_json::Error`, the reason why a text is no JSON document.
#[verifier::external_type_specification]
#[verifier::external_body]
pub struct ExError(serde_json::Error);

/// The contents of a JSON value, as far as the agent looks into it.
pub enum JsonView {
    /// A string.
    Text(Seq<char>),
    /// An object, by its members.
    Object(Map<Seq<char>, JsonView>),
    /// A value of any other type.
    Other,
}

/// What a `serde_json::Value` holds.
pub uninterp spec fn json_contents(value: serde_json::Value) -> JsonView;

/// What `serde_json::from_str` reads from a text; nothing where the text is no JSON
/// document.
pub uninterp spec fn json_document(text: Seq<char>) -> Option<JsonView>;

/// The member of an object that goes by `key`; other values have no members.
pub open spec fn member(value: JsonView, key: Seq<char>) -> Option<JsonView> {
    match value {
        JsonView::Object(members) => if members.dom().contains(key) {
            Some(members[key])
        } else {
            None
        },
        _ => None,
    }
}

/// The text of a string; other values have none.
pub open spec fn as_text(value: JsonView) -> Option<Seq<char>> {
    match value {
        JsonView::Text(text) => Some(text),
        _ => None,
    }
}

/// The text of the member that goes by `key`, where there is such a member and it is a
/// string.
pub open spec fn member_text(value: JsonView, key: Seq<char>) -> Option<Seq<char>> {
    match member(value, key) {
        Some(found) => as_text(found),
        None => None,
    }
}

/// Calls `serde_json::from_str` for a `serde_json::Value`. Whether it reads one, and
/// what that holds, depends on the text alone.
#[verifier::external_body]
fn from_str(text: &str) -> (r: Result<serde_json::Value, serde_json::Error>)
    ensures
        r is Ok == json_document(text@) is Some,
        r matches Ok(value) ==> json_contents(value) == json_document(text@)->0,
{
    serde_json::from_str::<serde_json::Value>(text)
}

/// Calls `serde_json::Value::get` with a key: the member of an object that goes by the
/// key, and nothing for a value that is no object.
#[verifier::external_body]
pub(crate) fn get_member<'a>(value: &'a serde_json::Value, key: &str) -> (r: Option<
    &'a serde_json::Value,
>)
    ensures
        r is Some == member(json_contents(*value), key@) is Some,
        r matches Some(found) ==> json_contents(*found) == member(json_contents(*value), key@)->0,
{
    value.get(key)
}

/// Calls `serde_json::Value::as_str`: the text of a string, and nothing for a value
/// that is no string.
#[verifier::external_body]
fn as_str(value: &serde_json::Value) -> (r: Option<&str>)
    ensures
        r is Some == as_text(json_contents(*value)) is Some,
        r matches Some(text) ==> text@ == as_text(json_contents(*value))->0,
{
    value.as_str()
}

/// Reads a JSON document.
pub fn read_json(text: &str) -> (r: Option<serde_json::Value>)
    ensures
        r is Some == json_document(text@) is Some,
        r matches Some(value) ==> json_contents(value) == json_document(text@)->0,
{
    match from_str(text) {
        Ok(value) => Some(value),
        Err(_) => None,
    }
}

/// The text of a member that is a string.
pub fn get_text(value: &serde_json::Value, key: &str) -> (r: Option<String>)
    ensures
        r is Some == member_text(json_contents(*value), key@) is Some,
        r matches Some(text) ==> text@ == member_text(json_contents(*value), key@)->0,
{
    match get_member(value, key) {
        Some(found) => match as_str(found) {
            Some(text) => Some(text.to_owned()),
            None => None,
        },
        None => None,
    }
}

// ---------------------------------------------------------------------------
// Writing
// ---------------------------------------------------------------------------

/// A value in a message to be written.
#[derive(Debug)]
pub enum Scalar {
    Text(String),
    Flag(bool),
    Count(u64),
}

/// The contents of such a value.
pub enum ScalarView {
    Text(Seq<char>),
    Flag(bool),
    Count(u64),
}

impl View for Scalar {
    type V = ScalarView;

    open spec fn view(&self) -> ScalarView {
        match self {
            Scalar::Text(text) => ScalarView::Text(text@),
            Scalar::Flag(b) => ScalarView::Flag(*b),
            Scalar::Count(n) => ScalarView::Count(*n),
        }
    }
}

/// The contents of a list of named values.
pub open spec fn member_views(members: Seq<(String, Scalar)>) -> Seq<(Seq<char>, ScalarView)> {
    members.map_values(|m: (String, Scalar)| (m.0@, m.1@))
}

/// The text that `serde_json` writes, in its compact format, for an object with these
/// members.
pub uninterp spec fn json_object_text(members: Seq<(Seq<char>, ScalarView)>) -> Seq<char>;

/// What is read of a value that was written.
pub open spec fn read_of(value: ScalarView) -> JsonView {
    match value {
        ScalarView::Text(text) => JsonView::Text(text),
        _ => JsonView::Other,
    }
}

/// What is read of an object with these members; of two members with one key, the
/// later.
pub open spec fn object_of(members: Seq<(Seq<char>, ScalarView)>) -> Map<Seq<char>, JsonView>
    decreases members.len(),
{
    if members.len() == 0 {
        Map::empty()
    } else {
        object_of(members.drop_last()).insert(members.last().0, read_of(members.last().1))
    }
}

/// An object holds each member that was written, unless a later one has the same key.
pub proof fn law_object_holds_its_members(members: Seq<(Seq<char>, ScalarView)>, i: int)
    requires
        0 <= i < members.len(),
        forall|j: int| i < j < members.len() ==> (#[trigger] members[j]).0 != members[i].0,
    ensures
        member(JsonView::Object(object_of(members)), members[i].0) == Some(read_of(members[i].1)),
    decreases members.len(),
{
    if i < members.len() - 1 {
        law_object_holds_its_members(members.drop_last(), i);
        assert(members[members.len() - 1].0 != members[i].0);
    }
}

/// The message says this of that: it has one member with this key, and it holds this value.
pub open spec fn says(
    members: Seq<(Seq<char>, ScalarView)>,
    key: Seq<char>,
    value: ScalarView,
) -> bool {
    exists|i: int|
        {
            &&& 0 <= i < members.len()
            &&& #[trigger] members[i] == (key, value)
            &&& forall|j: int| 0 <= j < members.len() && j != i ==> (#[trigger] members[j]).0 != key
        }
}

/// The message says this of that in words.
pub open spec fn says_text(
    members: Seq<(Seq<char>, ScalarView)>,
    key: Seq<char>,
    text: Seq<char>,
) -> bool {
    says(members, key, ScalarView::Text(text))
}

/// A message whose keys differ says what each of its members holds.
pub proof fn law_members_are_said(members: Seq<(Seq<char>, ScalarView)>, i: int)
    requires
        0 <= i < members.len(),
        forall|j: int|
            0 <= j < members.len() && j != i ==> (#[trigger] members[j]).0 != members[i].0,
    ensures
        says(members, members[i].0, members[i].1),
{
    assert(members[i] == (members[i].0, members[i].1));
}

/// The text is a JSON document, and it holds an object with these members.
pub open spec fn reads_back(text: Seq<char>, members: Seq<(Seq<char>, ScalarView)>) -> bool {
    json_document(text) == Some(JsonView::Object(object_of(members)))
}

/// Collects `members` into a `serde_json::Map` and calls `to_string` on the
/// `serde_json::Value` of it, which writes the object in the compact format. The text
/// depends on the members alone, and `serde_json::from_str` reads them back from it.
#[verifier::external_body]
fn object_to_string(members: Vec<(String, Scalar)>) -> (text: String)
    ensures
        text@ == json_object_text(member_views(members@)),
        reads_back(text@, member_views(members@)),
{
    let object = members.into_iter().map(|m| (m.0, match m.1 {
        Scalar::Text(text) => serde_json::Value::String(text),
        Scalar::Flag(b) => serde_json::Value::Bool(b),
        Scalar::Count(n) => serde_json::Value::from(n),
    })).collect::<serde_json::Map<String, serde_json::Value>>();
    serde_json::Value::Object(object).to_string()
}

/// An object that is being put together.
#[derive(Debug)]
pub struct ObjectBuilder {
    pub members: Vec<(String, Scalar)>,
}

impl View for ObjectBuilder {
    type V = Seq<(Seq<char>, ScalarView)>;

    open spec fn view(&self) -> Seq<(Seq<char>, ScalarView)> {
        member_views(self.members@)
    }
}

impl ObjectBuilder {
    /// An object without members.
    pub fn new() -> (object: Self)
        ensures
            object@ == Seq::<(Seq<char>, ScalarView)>::empty(),
    {
        let members: Vec<(String, Scalar)> = Vec::new();
        assert(member_views(members@) =~= Seq::<(Seq<char>, ScalarView)>::empty());
        ObjectBuilder { members }
    }

    /// Adds a member.
    pub fn push(&mut self, key: &str, value: Scalar)
        ensures
            final(self)@ == old(self)@.push((key@, value@)),
    {
        let ghost before = self@;
        self.members.push((key.to_owned(), value));
        assert(self@ =~= before.push((key@, value@)));
    }

    /// Adds a string.
    pub fn text(&mut self, key: &str, text: &str)
        ensures
            final(self)@ == old(self)@.push((key@, ScalarView::Text(text@))),
    {
        self.push(key, Scalar::Text(text.to_owned()));
    }

    /// Adds a truth value.
    pub fn flag(&mut self, key: &str, b: bool)
        ensures
            final(self)@ == old(self)@.push((key@, ScalarView::Flag(b))),
    {
        self.push(key, Scalar::Flag(b));
    }

    /// Adds a number.
    pub fn count(&mut self, key: &str, n: u64)
        ensures
            final(self)@ == old(self)@.push((key@, ScalarView::Count(n))),
    {
        self.push(key, Scalar::Count(n));
    }

    /// Writes the object.
    pub fn write(self) -> (text: String)
        ensures
            text@ == json_object_text(self@),
            reads_back(text@, self@),
    {
        object_to_string(self.members)
    }
}

} // verus!
