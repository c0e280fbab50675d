//! What the library reads from the replies of the browser.
//!
//! A reply is the text of an object with a `result` member; a reply without
//! one, such as an error reply, yields the failure of its reader.

use vstd::prelude::*;
use vstd::string::*;
use crate::error::Error;
use crate::json::{
    array_elements, array_of, elements_view, field_at, field_of, field_text, nested_at, nested_of,
    render_field, text_at, text_of, unsigned_at, unsigned_of, Field, FieldView,
};
use crate::number::{is_number_literal, Decimal};
use crate::text::decimal;

verus! {

/// The array or object under `key` of an object that may be absent.
pub open spec fn nested_in(document: Option<Seq<char>>, key: Seq<char>) -> Option<Seq<char>> {
    match document {
        Some(d) => nested_of(d, key),
        None => None,
    }
}

/// The member `key` of an object that may be absent.
pub open spec fn field_in(document: Option<Seq<char>>, key: Seq<char>) -> Option<FieldView> {
    match document {
        Some(d) => field_of(d, key),
        None => None,
    }
}

/// The string under `key` of an object that may be absent.
pub open spec fn text_in(document: Option<Seq<char>>, key: Seq<char>) -> Option<Seq<char>> {
    match document {
        Some(d) => text_of(d, key),
        None => None,
    }
}

/// The non-negative integer under `key` of an object that may be absent.
pub open spec fn unsigned_in(document: Option<Seq<char>>, key: Seq<char>) -> Option<u64> {
    match document {
        Some(d) => unsigned_of(d, key),
        None => None,
    }
}

/// The value of an optional text.
pub open spec fn text_view(text: Option<String>) -> Option<Seq<char>> {
    match text {
        Some(t) => Some(t@),
        None => None,
    }
}

fn nested_within(document: &Option<String>, key: &str) -> (found: Option<String>)
    ensures
        text_view(found) == nested_in(text_view(*document), key@),
{
    match document {
        Some(d) => nested_at(d.as_str(), key),
        None => None,
    }
}

fn text_within(document: &Option<String>, key: &str) -> (found: Option<String>)
    ensures
        text_view(found) == text_in(text_view(*document), key@),
{
    match document {
        Some(d) => text_at(d.as_str(), key),
        None => None,
    }
}

fn unsigned_within(document: &Option<String>, key: &str) -> (found: Option<u64>)
    ensures
        found == unsigned_in(text_view(*document), key@),
{
    match document {
        Some(d) => unsigned_at(d.as_str(), key),
        None => None,
    }
}

fn field_within(document: &Option<String>, key: &str) -> (found: Option<Field>)
    ensures
        found is Some == field_in(text_view(*document), key@) is Some,
        found matches Some(f) ==> field_in(text_view(*document), key@) == Some(f@),
{
    match document {
        Some(d) => field_at(d.as_str(), key),
        None => None,
    }
}

/// The `result` member of a reply.
pub open spec fn result_of(reply: Seq<char>) -> Option<Seq<char>> {
    nested_of(reply, "result"@)
}

fn result_at(reply: &str) -> (result: Option<String>)
    ensures
        text_view(result) == result_of(reply@),
{
    nested_at(reply, "result")
}

/// Reads the id of the target that was created: `result.targetId`.
pub fn created_target(reply: &str) -> (target: Result<String, Error>)
    ensures
        match target {
            Ok(id) => text_in(result_of(reply@), "targetId"@) == Some(id@),
            Err(e) => e == Error::UnexpectedResponseShape && text_in(
                result_of(reply@),
                "targetId"@,
            ) is None,
        },
{
    match text_within(&result_at(reply), "targetId") {
        Some(id) => Ok(id),
        None => Err(Error::UnexpectedResponseShape),
    }
}

/// Reads the id of the session that was attached: `result.sessionId`.
pub fn attached_session(reply: &str) -> (session: Result<String, Error>)
    ensures
        match session {
            Ok(id) => text_in(result_of(reply@), "sessionId"@) == Some(id@),
            Err(e) => e == Error::UnexpectedResponseShape && text_in(
                result_of(reply@),
                "sessionId"@,
            ) is None,
        },
{
    match text_within(&result_at(reply), "sessionId") {
        Some(id) => Ok(id),
        None => Err(Error::UnexpectedResponseShape),
    }
}

/// The node id of the document's root in a reply: `result.root.nodeId`.
pub open spec fn root_node_of(reply: Seq<char>) -> Option<u64> {
    unsigned_in(nested_in(result_of(reply), "root"@), "nodeId"@)
}

/// Reads the node id of the document's root.
pub fn root_node(reply: &str) -> (node: Result<u64, Error>)
    ensures
        match node {
            Ok(id) => root_node_of(reply@) == Some(id),
            Err(e) => e == Error::UnexpectedResponseShape && root_node_of(reply@) is None,
        },
{
    match unsigned_within(&nested_within(&result_at(reply), "root"), "nodeId") {
        Some(id) => Ok(id),
        None => Err(Error::UnexpectedResponseShape),
    }
}

/// The node that a selector query matched: `result.nodeId`, where it is
/// there and is not 0, the id that stands for no node.
pub open spec fn matched_node_of(reply: Seq<char>) -> Option<u64> {
    match unsigned_in(result_of(reply), "nodeId"@) {
        Some(id) => if id != 0 {
            Some(id)
        } else {
            None
        },
        None => None,
    }
}

/// Reads the node that a selector query matched.
pub fn matched_node(reply: &str) -> (node: Result<u64, Error>)
    ensures
        match node {
            Ok(id) => matched_node_of(reply@) == Some(id),
            Err(e) => e == Error::ElementNotFound && matched_node_of(reply@) is None,
        },
{
    match unsigned_within(&result_at(reply), "nodeId") {
        Some(id) => if id != 0 {
            Ok(id)
        } else {
            Err(Error::ElementNotFound)
        },
        None => Err(Error::ElementNotFound),
    }
}

/// The backend node id in the description of a node:
/// `result.node.backendNodeId`.
pub open spec fn backend_node_of(reply: Seq<char>) -> Option<u64> {
    unsigned_in(nested_in(result_of(reply), "node"@), "backendNodeId"@)
}

/// Reads the backend node id from the description of a node.
pub fn backend_node(reply: &str) -> (node: Result<u64, Error>)
    ensures
        match node {
            Ok(id) => backend_node_of(reply@) == Some(id),
            Err(e) => e == Error::UnexpectedResponseShape && backend_node_of(reply@) is None,
        },
{
    match unsigned_within(&nested_within(&result_at(reply), "node"), "backendNodeId") {
        Some(id) => Ok(id),
        None => Err(Error::UnexpectedResponseShape),
    }
}

/// The image in the reply to a capture, in base64: the string under
/// `result.data`, where there is one and it is not empty.
pub open spec fn image_of(reply: Seq<char>) -> Option<Seq<char>> {
    match text_in(result_of(reply), "data"@) {
        Some(data) => if data.len() > 0 {
            Some(data)
        } else {
            None
        },
        None => None,
    }
}

/// Reads the image of a capture, in base64. A reply without an image is a
/// failure: what is returned is never empty.
pub fn image_data(reply: &str) -> (image: Result<String, Error>)
    ensures
        match image {
            Ok(data) => image_of(reply@) == Some(data@) && data@.len() > 0,
            Err(e) => e == Error::NoImageData && image_of(reply@) is None,
        },
{
    match text_within(&result_at(reply), "data") {
        Some(data) => if data.as_str().is_empty() {
            Err(Error::NoImageData)
        } else {
            Ok(data)
        },
        None => Err(Error::NoImageData),
    }
}

/// The value of an evaluation: `result.result.value`, or null where there is
/// none.
pub open spec fn evaluated_of(reply: Seq<char>) -> FieldView {
    match field_in(nested_in(result_of(reply), "result"@), "value"@) {
        Some(value) => value,
        None => FieldView::Null,
    }
}

/// Reads the value of an evaluation.
pub fn evaluated(reply: &str) -> (value: Field)
    ensures
        value@ == evaluated_of(reply@),
{
    match field_within(&nested_within(&result_at(reply), "result"), "value") {
        Some(value) => value,
        None => Field::Null,
    }
}

/// The value of an evaluation as a string: the string itself where the value
/// is one, the text of the value where it is not.
pub open spec fn evaluated_string_of(reply: Seq<char>) -> Seq<char> {
    match evaluated_of(reply) {
        FieldView::Text(s) => s,
        other => field_text(other),
    }
}

/// Reads the value of an evaluation as a string.
pub fn evaluated_string(reply: &str) -> (value: String)
    ensures
        value@ == evaluated_string_of(reply@),
{
    match evaluated(reply) {
        Field::Text(s) => s,
        other => render_field(&other),
    }
}

/// What the reply to the readiness script tells: a reply without a result
/// is not of the expected shape; a result that holds `exceptionDetails`
/// tells that the script gave up before the page was stable; any other
/// result tells that the page has settled.
pub open spec fn settling(reply: Seq<char>) -> Result<(), Error> {
    if result_of(reply) is None {
        Err(Error::UnexpectedResponseShape)
    } else if field_in(result_of(reply), "exceptionDetails"@) is Some {
        Err(Error::ContentUnstableTimeout)
    } else {
        Ok(())
    }
}

/// Reads the reply to the readiness script.
pub fn content_settled(reply: &str) -> (outcome: Result<(), Error>)
    ensures
        outcome == settling(reply@),
{
    let result = result_at(reply);
    if result.is_none() {
        return Err(Error::UnexpectedResponseShape);
    }
    match field_within(&result, "exceptionDetails") {
        Some(_) => Err(Error::ContentUnstableTimeout),
        None => Ok(()),
    }
}

/// The four coordinates of a node's border box that a clip is made of.
/// Each is absent where the reply does not hold a number in its place.
#[derive(Debug, PartialEq, Eq)]
pub struct BorderBox {
    pub left: Option<Decimal>,
    pub top: Option<Decimal>,
    pub right: Option<Decimal>,
    pub bottom: Option<Decimal>,
}

/// The number at `index` of `elements`, as a literal.
pub open spec fn number_at(elements: Option<Seq<FieldView>>, index: int) -> Option<Seq<char>> {
    match elements {
        Some(e) => if 0 <= index < e.len() {
            match e[index] {
                FieldView::Unsigned(n) => Some(decimal(n as nat)),
                FieldView::Number(t) => if is_number_literal(t) {
                    Some(t)
                } else {
                    None
                },
                _ => None,
            }
        } else {
            None
        },
        None => None,
    }
}

/// The border quad of a box model: the elements of `result.model.border`.
pub open spec fn border_of(reply: Seq<char>) -> Option<Seq<FieldView>> {
    match nested_in(nested_in(result_of(reply), "model"@), "border"@) {
        Some(text) => array_of(text),
        None => None,
    }
}

/// The value of an optional number.
pub open spec fn decimal_view(number: Option<Decimal>) -> Option<Seq<char>> {
    match number {
        Some(d) => Some(d@),
        None => None,
    }
}

fn number_of(elements: &Option<Vec<Field>>, index: usize) -> (number: Option<Decimal>)
    ensures
        decimal_view(number) == number_at(
            match *elements {
                Some(e) => Some(elements_view(e@)),
                None => None,
            },
            index as int,
        ),
{
    match elements {
        Some(e) => if index < e.len() {
            match &e[index] {
                Field::Unsigned(n) => Some(Decimal::integer(*n)),
                Field::Number(t) => Decimal::parse(t.as_str()),
                _ => None,
            }
        } else {
            None
        },
        None => None,
    }
}

/// Reads the border box of a node from its box model. The border quad lists
/// the corners clockwise from the top left, x before y: the left edge is its
/// element 0, the top edge element 1, the right edge element 2 and the
/// bottom edge element 5.
pub fn border_box(reply: &str) -> (border: BorderBox)
    ensures
        decimal_view(border.left) == number_at(border_of(reply@), 0),
        decimal_view(border.top) == number_at(border_of(reply@), 1),
        decimal_view(border.right) == number_at(border_of(reply@), 2),
        decimal_view(border.bottom) == number_at(border_of(reply@), 5),
{
    let quad = nested_within(&nested_within(&result_at(reply), "model"), "border");
    let elements = match &quad {
        Some(text) => array_elements(text.as_str()),
        None => None,
    };
    BorderBox {
        left: number_of(&elements, 0),
        top: number_of(&elements, 1),
        right: number_of(&elements, 2),
        bottom: number_of(&elements, 5),
    }
}

/// The four edges of a border box, where none of them is missing.
pub open spec fn edges_of(
    left: Option<Seq<char>>,
    top: Option<Seq<char>>,
    right: Option<Seq<char>>,
    bottom: Option<Seq<char>>,
) -> Option<(Seq<char>, Seq<char>, Seq<char>, Seq<char>)> {
    if left is Some && top is Some && right is Some && bottom is Some {
        Some((left->0, top->0, right->0, bottom->0))
    } else {
        None
    }
}

/// Takes the four edges of a border box: left, top, right and bottom. A box
/// that lacks one of them is refused, so that no region is made up for a
/// node that the browser did not measure.
pub fn border_edges(border: &BorderBox) -> (edges: Result<
    (Decimal, Decimal, Decimal, Decimal),
    Error,
>)
    ensures
        match edges {
            Ok(e) => edges_of(
                decimal_view(border.left),
                decimal_view(border.top),
                decimal_view(border.right),
                decimal_view(border.bottom),
            ) == Some((e.0@, e.1@, e.2@, e.3@)),
            Err(error) => error == Error::UnexpectedResponseShape && edges_of(
                decimal_view(border.left),
                decimal_view(border.top),
                decimal_view(border.right),
                decimal_view(border.bottom),
            ) is None,
        },
{
    match (&border.left, &border.top, &border.right, &border.bottom) {
        (Some(left), Some(top), Some(right), Some(bottom)) => Ok(
            (left.clone(), top.clone(), right.clone(), bottom.clone()),
        ),
        _ => Err(Error::UnexpectedResponseShape),
    }
}

/// The id of the target that `info` describes, where it is a page.
pub open spec fn page_id(info: FieldView) -> Option<Option<Seq<char>>> {
    match info {
        FieldView::Nested(text) => if text_of(text, "type"@) == Some("page"@) {
            Some(text_of(text, "targetId"@))
        } else {
            None
        },
        _ => None,
    }
}

/// The id of the first page among `infos`: of the first target whose type is
/// `page`, its `targetId` where that is a string.
pub open spec fn first_page(infos: Seq<FieldView>) -> Option<Seq<char>>
    decreases infos.len(),
{
    if infos.len() == 0 {
        None
    } else {
        match page_id(infos[0]) {
            Some(id) => id,
            None => first_page(infos.drop_first()),
        }
    }
}

/// The targets listed in a reply: the elements of `result.targetInfos`.
pub open spec fn targets_of(reply: Seq<char>) -> Option<Seq<FieldView>> {
    match nested_in(result_of(reply), "targetInfos"@) {
        Some(text) => array_of(text),
        None => None,
    }
}

/// The id of the first page that a list of targets names.
pub open spec fn page_target_of(reply: Seq<char>) -> Option<Seq<char>> {
    match targets_of(reply) {
        Some(infos) => first_page(infos),
        None => None,
    }
}

/// Finds the id of the first page among `infos`.
pub fn first_page_among(infos: &Vec<Field>) -> (page: Option<String>)
    ensures
        text_view(page) == first_page(elements_view(infos@)),
{
    let ghost all = elements_view(infos@);
    let wanted = String::from_str("page");
    let mut i: usize = 0;
    assert(all.subrange(0, all.len() as int) == all);
    while i < infos.len()
        invariant
            i <= infos@.len(),
            all == elements_view(infos@),
            wanted@ == "page"@,
            first_page(all) == first_page(all.subrange(i as int, all.len() as int)),
        decreases infos@.len() - i,
    {
        let ghost rest = all.subrange(i as int, all.len() as int);
        assert(rest[0] == all[i as int]);
        assert(rest.drop_first() == all.subrange(i + 1, all.len() as int));
        match &infos[i] {
            Field::Nested(text) => {
                let is_page = match text_at(text.as_str(), "type") {
                    Some(kind) => kind == wanted,
                    None => false,
                };
                if is_page {
                    return text_at(text.as_str(), "targetId");
                }
            },
            _ => {},
        }
        i = i + 1;
    }
    None
}

/// Reads the id of the first page that a list of targets names.
pub fn page_target(reply: &str) -> (page: Option<String>)
    ensures
        text_view(page) == page_target_of(reply@),
{
    let list = nested_within(&result_at(reply), "targetInfos");
    match &list {
        Some(text) => match array_elements(text.as_str()) {
            Some(infos) => first_page_among(&infos),
            None => None,
        },
        None => None,
    }
}

} // verus!
