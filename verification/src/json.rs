//! JSON documents as text, opened one level at a time.
//!
//! A document is held as its text. Decoding a document yields its top-level
//! members or elements; a member that is itself an array or an object is
//! handed out as text again, to be decoded when it is needed. Rendering goes
//! the other way: from members to the text of an object.

use vstd::prelude::*;
use vstd::string::*;
use serde_json::Value;
use crate::text::{
    decimal, decimal_text, lemma_numeral_round_trip, parse_unsigned, unsigned_value,
};

verus! {

/// One member of an object, or one element of an array.
#[derive(Debug, PartialEq, Eq)]
pub enum Field {
    Null,
    Bool(bool),
    /// A non-negative integer of 64 bits, as the library writes it.
    Unsigned(u64),
    /// A number as its literal: every number of a decoded document is held
    /// so.
    Number(String),
    Text(String),
    /// An array or an object, as its text.
    Nested(String),
}

/// The mathematical value of a [`Field`].
pub enum FieldView {
    Null,
    Bool(bool),
    Unsigned(u64),
    Number(Seq<char>),
    Text(Seq<char>),
    Nested(Seq<char>),
}

impl View for Field {
    type V = FieldView;

    open spec fn view(&self) -> FieldView {
        match self {
            Field::Null => FieldView::Null,
            Field::Bool(b) => FieldView::Bool(*b),
            Field::Unsigned(n) => FieldView::Unsigned(*n),
            Field::Number(t) => FieldView::Number(t@),
            Field::Text(s) => FieldView::Text(s@),
            Field::Nested(t) => FieldView::Nested(t@),
        }
    }
}

/// The members of an object, in order.
pub type Members = Vec<(String, Field)>;

/// The mathematical value of [`Members`].
pub type MembersView = Seq<(Seq<char>, FieldView)>;

/// The value of a list of members.
pub open spec fn members_view(members: Seq<(String, Field)>) -> MembersView {
    members.map_values(|m: (String, Field)| (m.0@, m.1@))
}

/// The value of a list of elements.
pub open spec fn elements_view(elements: Seq<Field>) -> Seq<FieldView> {
    elements.map_values(|f: Field| f@)
}

/// The top level of a decoded document.
#[derive(Debug, PartialEq, Eq)]
pub enum Node {
    Array(Vec<Field>),
    Object(Members),
    /// A document that is neither an array nor an object: a lone null,
    /// boolean, number or string.
    Scalar,
}

/// The mathematical value of a [`Node`].
pub enum NodeView {
    Array(Seq<FieldView>),
    Object(MembersView),
    Scalar,
}

impl View for Node {
    type V = NodeView;

    open spec fn view(&self) -> NodeView {
        match self {
            Node::Array(elements) => NodeView::Array(elements_view(elements@)),
            Node::Object(members) => NodeView::Object(members_view(members@)),
            Node::Scalar => NodeView::Scalar,
        }
    }
}

/// The top level of the JSON document `text`: `None` where `text` is not
/// well-formed JSON.
pub uninterp spec fn decoded(text: Seq<char>) -> Option<NodeView>;

/// The JSON string literal for `s`, quotes and escapes included.
pub uninterp spec fn quoted(s: Seq<char>) -> Seq<char>;

/// Parses `text` with `serde_json::from_str` and hands out the top level of
/// the document, each value of it in the library's own type; numbers, and
/// the arrays and objects inside, are held as the text that `serde_json`
/// writes for them. Trusted: the result is taken to depend on `text` alone,
/// and is named [`decoded`]; nothing else is claimed of it.
#[verifier::external_body]
pub(crate) fn decode_document(text: &str) -> (node: Option<Node>)
    ensures
        match node {
            Some(n) => decoded(text@) == Some(n@),
            None => decoded(text@) is None,
        },
{
    let lift = |v: Value| match v {
        Value::Null => Field::Null,
        Value::Bool(b) => Field::Bool(b),
        Value::Number(n) => Field::Number(n.to_string()),
        Value::String(s) => Field::Text(s),
        v @ Value::Array(_) => Field::Nested(v.to_string()),
        v @ Value::Object(_) => Field::Nested(v.to_string()),
    };
    Some(match serde_json::from_str(text).ok()? {
        Value::Array(a) => Node::Array(a.into_iter().map(lift).collect()),
        Value::Object(o) => Node::Object(o.into_iter().map(|(k, v)| (k, lift(v))).collect()),
        _ => Node::Scalar,
    })
}

/// Writes `s` as a JSON string literal with `serde_json::to_string`.
/// Trusted: the result is taken to depend on `s` alone, and is named
/// [`quoted`]; nothing else is claimed of it.
#[verifier::external_body]
pub(crate) fn quote_string(s: &str) -> (literal: String)
    ensures
        literal@ == quoted(s@),
{
    serde_json::to_string(s).unwrap_or_default()
}

/// The text of a field.
pub open spec fn field_text(f: FieldView) -> Seq<char> {
    match f {
        FieldView::Null => "null"@,
        FieldView::Bool(b) => if b {
            "true"@
        } else {
            "false"@
        },
        FieldView::Unsigned(n) => decimal(n as nat),
        FieldView::Number(t) => t,
        FieldView::Text(s) => quoted(s),
        FieldView::Nested(t) => t,
    }
}

/// The text of one member: its quoted key, a colon, its value.
pub open spec fn member_text(m: (Seq<char>, FieldView)) -> Seq<char> {
    quoted(m.0) + ":"@ + field_text(m.1)
}

/// The texts of the members, separated by commas.
pub open spec fn members_text(members: MembersView) -> Seq<char>
    decreases members.len(),
{
    if members.len() == 0 {
        Seq::empty()
    } else if members.len() == 1 {
        member_text(members[0])
    } else {
        members_text(members.drop_last()) + ","@ + member_text(members.last())
    }
}

/// The text of the object with the given members.
pub open spec fn object_text(members: MembersView) -> Seq<char> {
    "{"@ + members_text(members) + "}"@
}

/// Writes a field.
pub fn render_field(f: &Field) -> (text: String)
    ensures
        text@ == field_text(f@),
{
    match f {
        Field::Null => String::from_str("null"),
        Field::Bool(b) => if *b {
            String::from_str("true")
        } else {
            String::from_str("false")
        },
        Field::Unsigned(n) => decimal_text(*n),
        Field::Number(t) => t.clone(),
        Field::Text(s) => quote_string(s.as_str()),
        Field::Nested(t) => t.clone(),
    }
}

/// Writes the object with the given members.
pub fn render_object(members: &Members) -> (text: String)
    ensures
        text@ == object_text(members_view(members@)),
{
    let ghost all = members_view(members@);
    let mut body = String::new();
    let mut i: usize = 0;
    while i < members.len()
        invariant
            i <= members@.len(),
            all == members_view(members@),
            body@ == members_text(all.subrange(0, i as int)),
        decreases members@.len() - i,
    {
        if i > 0 {
            body.append(",");
        }
        let key = quote_string(members[i].0.as_str());
        let value = render_field(&members[i].1);
        body.append(key.as_str());
        body.append(":");
        body.append(value.as_str());
        proof {
            let next = all.subrange(0, i + 1);
            assert(next.drop_last() == all.subrange(0, i as int));
            assert(next.last() == all[i as int]);
        }
        i = i + 1;
    }
    assert(all.subrange(0, i as int) == all);
    let mut text = String::from_str("{");
    text.append(body.as_str());
    text.append("}");
    text
}

impl Clone for Field {
    fn clone(&self) -> (copy: Field)
        ensures
            copy@ == self@,
    {
        match self {
            Field::Null => Field::Null,
            Field::Bool(b) => Field::Bool(*b),
            Field::Unsigned(n) => Field::Unsigned(*n),
            Field::Number(t) => Field::Number(t.clone()),
            Field::Text(s) => Field::Text(s.clone()),
            Field::Nested(t) => Field::Nested(t.clone()),
        }
    }
}

impl Field {
    /// The integer held, if the field is a non-negative integer of 64 bits.
    pub fn as_unsigned(&self) -> (n: Option<u64>)
        ensures
            n == self@.unsigned(),
    {
        match self {
            Field::Unsigned(n) => Some(*n),
            Field::Number(t) => parse_unsigned(t.as_str()),
            _ => None,
        }
    }

    /// The string held, if the field is a string.
    pub fn as_text(&self) -> (s: Option<String>)
        ensures
            s is Some == self@.text() is Some,
            s matches Some(t) ==> self@.text() == Some(t@),
    {
        match self {
            Field::Text(s) => Some(s.clone()),
            _ => None,
        }
    }

    /// The text of the array or object held, if the field is one.
    pub fn as_nested(&self) -> (s: Option<String>)
        ensures
            s is Some == self@.nested() is Some,
            s matches Some(t) ==> self@.nested() == Some(t@),
    {
        match self {
            Field::Nested(t) => Some(t.clone()),
            _ => None,
        }
    }
}

impl FieldView {
    /// The integer held, if the field is a non-negative integer of 64 bits:
    /// one written as such, or a number whose literal is a decimal numeral.
    pub open spec fn unsigned(self) -> Option<u64> {
        match self {
            FieldView::Unsigned(n) => Some(n),
            FieldView::Number(t) => unsigned_value(t),
            _ => None,
        }
    }

    /// The string held, if the field is a string.
    pub open spec fn text(self) -> Option<Seq<char>> {
        match self {
            FieldView::Text(s) => Some(s),
            _ => None,
        }
    }

    /// The text of the array or object held, if the field is one.
    pub open spec fn nested(self) -> Option<Seq<char>> {
        match self {
            FieldView::Nested(t) => Some(t),
            _ => None,
        }
    }
}

/// The value of the first member named `key`.
pub open spec fn member_of(members: MembersView, key: Seq<char>) -> Option<FieldView>
    decreases members.len(),
{
    if members.len() == 0 {
        None
    } else if members[0].0 == key {
        Some(members[0].1)
    } else {
        member_of(members.drop_first(), key)
    }
}

/// Finds the first member named `key`.
pub fn member(members: &Members, key: &str) -> (found: Option<Field>)
    ensures
        found is Some == member_of(members_view(members@), key@) is Some,
        found matches Some(f) ==> member_of(members_view(members@), key@) == Some(f@),
{
    let ghost all = members_view(members@);
    let wanted = String::from_str(key);
    let mut i: usize = 0;
    assert(all.subrange(0, all.len() as int) == all);
    while i < members.len()
        invariant
            i <= members@.len(),
            all == members_view(members@),
            wanted@ == key@,
            member_of(all, key@) == member_of(all.subrange(i as int, all.len() as int), key@),
        decreases members@.len() - i,
    {
        let ghost rest = all.subrange(i as int, all.len() as int);
        assert(rest[0] == all[i as int]);
        assert(rest.drop_first() == all.subrange(i + 1, all.len() as int));
        if members[i].0 == wanted {
            return Some(members[i].1.clone());
        }
        i = i + 1;
    }
    None
}

/// The members of the document `text`, where it is an object.
pub open spec fn object_of(text: Seq<char>) -> Option<MembersView> {
    match decoded(text) {
        Some(NodeView::Object(members)) => Some(members),
        _ => None,
    }
}

/// The elements of the document `text`, where it is an array.
pub open spec fn array_of(text: Seq<char>) -> Option<Seq<FieldView>> {
    match decoded(text) {
        Some(NodeView::Array(elements)) => Some(elements),
        _ => None,
    }
}

/// The member named `key` of the object `text`.
pub open spec fn field_of(text: Seq<char>, key: Seq<char>) -> Option<FieldView> {
    match object_of(text) {
        Some(members) => member_of(members, key),
        None => None,
    }
}

/// Decodes `text` as an object.
pub fn object_members(text: &str) -> (members: Option<Members>)
    ensures
        members is Some == object_of(text@) is Some,
        members matches Some(m) ==> object_of(text@) == Some(members_view(m@)),
{
    match decode_document(text) {
        Some(Node::Object(members)) => Some(members),
        _ => None,
    }
}

/// Decodes `text` as an array.
pub fn array_elements(text: &str) -> (elements: Option<Vec<Field>>)
    ensures
        elements is Some == array_of(text@) is Some,
        elements matches Some(e) ==> array_of(text@) == Some(elements_view(e@)),
{
    match decode_document(text) {
        Some(Node::Array(elements)) => Some(elements),
        _ => None,
    }
}

/// Reads the member named `key` of the object `text`.
pub fn field_at(text: &str, key: &str) -> (found: Option<Field>)
    ensures
        found is Some == field_of(text@, key@) is Some,
        found matches Some(f) ==> field_of(text@, key@) == Some(f@),
{
    match object_members(text) {
        Some(members) => member(&members, key),
        None => None,
    }
}

/// The non-negative integer under `key` in the object `text`.
pub open spec fn unsigned_of(text: Seq<char>, key: Seq<char>) -> Option<u64> {
    match field_of(text, key) {
        Some(f) => f.unsigned(),
        None => None,
    }
}

/// The string under `key` in the object `text`.
pub open spec fn text_of(text: Seq<char>, key: Seq<char>) -> Option<Seq<char>> {
    match field_of(text, key) {
        Some(f) => f.text(),
        None => None,
    }
}

/// The array or object under `key` in the object `text`, as text.
pub open spec fn nested_of(text: Seq<char>, key: Seq<char>) -> Option<Seq<char>> {
    match field_of(text, key) {
        Some(f) => f.nested(),
        None => None,
    }
}

/// Reads the non-negative integer under `key` in the object `text`.
pub fn unsigned_at(text: &str, key: &str) -> (n: Option<u64>)
    ensures
        n == unsigned_of(text@, key@),
{
    match field_at(text, key) {
        Some(f) => f.as_unsigned(),
        None => None,
    }
}

/// Reads the string under `key` in the object `text`.
pub fn text_at(text: &str, key: &str) -> (s: Option<String>)
    ensures
        s is Some == text_of(text@, key@) is Some,
        s matches Some(t) ==> text_of(text@, key@) == Some(t@),
{
    match field_at(text, key) {
        Some(f) => f.as_text(),
        None => None,
    }
}

/// Reads the array or object under `key` in the object `text`.
pub fn nested_at(text: &str, key: &str) -> (s: Option<String>)
    ensures
        s is Some == nested_of(text@, key@) is Some,
        s matches Some(t) ==> nested_of(text@, key@) == Some(t@),
{
    match field_at(text, key) {
        Some(f) => f.as_nested(),
        None => None,
    }
}

/// An integer reads the same however it is held: as it was written by the
/// library, or as the literal that the library renders it to.
pub proof fn lemma_unsigned_reads_back(n: u64)
    ensures
        FieldView::Number(field_text(FieldView::Unsigned(n))).unsigned() == FieldView::Unsigned(
            n,
        ).unsigned(),
{
    lemma_numeral_round_trip(n);
}

} // verus!
