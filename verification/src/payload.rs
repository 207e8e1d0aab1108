//! The payload handed to the host shell: a JSON value built with `serde_json`.
//!
//! Verus cannot look inside a `serde_json::Value`, so the contracts speak of
//! its model, named by [`json_model`]. The few `serde_json` functions used to
//! build a value are called through wrappers whose contracts are taken on
//! trust; everything built from them is verified.

use vstd::prelude::*;
use crate::messages::{QueryResponse, QueryResponseView, ReportResponse, ReportResponseView};

verus! {

/// The part of JSON that the gateway produces.
pub ghost enum JsonModel {
    Flag(bool),
    Text(Seq<char>),
    List(Seq<JsonModel>),
    Object(Map<Seq<char>, JsonModel>),
}

/// `serde_json::Value`, carried through without a look inside.
#[verifier::external_type_specification]
#[verifier::external_body]
pub struct ExJsonValue(serde_json::Value);

/// `serde_json::Map`, carried through without a look inside.
#[verifier::external_type_specification]
#[verifier::external_body]
#[verifier::reject_recursive_types(K)]
#[verifier::reject_recursive_types(V)]
pub struct ExJsonMap<K, V>(serde_json::Map<K, V>);

/// What a JSON value holds.
pub uninterp spec fn json_model(value: serde_json::Value) -> JsonModel;

/// What a JSON object under construction holds: its members by key.
pub uninterp spec fn object_fields(object: serde_json::Map<String, serde_json::Value>) -> Map<Seq<char>, JsonModel>;

/// `serde_json::Value::from(String)`: trusted to give the JSON string with the
/// same text.
#[verifier::external_body]
fn json_text(text: String) -> (value: serde_json::Value)
    ensures
        json_model(value) == JsonModel::Text(text@),
{
    serde_json::Value::from(text)
}

/// `serde_json::Value::from(bool)`: trusted to give the JSON boolean with the
/// same truth value.
#[verifier::external_body]
fn json_flag(flag: bool) -> (value: serde_json::Value)
    ensures
        json_model(value) == JsonModel::Flag(flag),
{
    serde_json::Value::from(flag)
}

/// `serde_json::Value::from(Vec<Value>)`: trusted to give the JSON array that
/// holds the same values in the same order.
#[verifier::external_body]
fn json_list(items: Vec<serde_json::Value>) -> (value: serde_json::Value)
    ensures
        json_model(value) == JsonModel::List(
            Seq::new(items@.len(), |i: int| json_model(items@[i])),
        ),
{
    serde_json::Value::from(items)
}

/// `serde_json::Map::new`: trusted to give an object without members.
#[verifier::external_body]
fn empty_object() -> (object: serde_json::Map<String, serde_json::Value>)
    ensures
        object_fields(object) == (Map::<Seq<char>, JsonModel>::empty()),
{
    serde_json::Map::new()
}

/// `serde_json::Map::insert`: trusted to set the member at `key` to `value`
/// and to leave every other member as it was.
#[verifier::external_body]
fn object_insert(
    object: &mut serde_json::Map<String, serde_json::Value>,
    key: String,
    value: serde_json::Value,
)
    ensures
        object_fields(*final(object)) == object_fields(*old(object)).insert(
            key@,
            json_model(value),
        ),
{
    object.insert(key, value);
}

/// `serde_json::Value::from(Map)`: trusted to give the JSON object with the
/// same members.
#[verifier::external_body]
fn json_object(object: serde_json::Map<String, serde_json::Value>) -> (value: serde_json::Value)
    ensures
        json_model(value) == JsonModel::Object(object_fields(object)),
{
    serde_json::Value::from(object)
}

/// The JSON array of the given texts, in their order.
pub open spec fn text_list_model(texts: Seq<Seq<char>>) -> JsonModel {
    JsonModel::List(Seq::new(texts.len(), |i: int| JsonModel::Text(texts[i])))
}

/// Builds the JSON array of the given strings, in their order.
pub fn text_list(texts: &Vec<String>) -> (value: serde_json::Value)
    ensures
        json_model(value) == text_list_model(crate::messages::texts_of(texts@)),
{
    let mut items: Vec<serde_json::Value> = Vec::new();
    let mut i: usize = 0;
    while i < texts.len()
        invariant
            i <= texts.len(),
            items@.len() == i,
            forall|j: int| 0 <= j < i ==> json_model(#[trigger] items@[j]) == JsonModel::Text(texts@[j]@),
        decreases texts.len() - i,
    {
        items.push(json_text(texts[i].clone()));
        i = i + 1;
    }
    let value = json_list(items);
    assert(Seq::new(items@.len(), |i: int| json_model(items@[i]))
        =~= Seq::new(texts@.len(), |i: int| JsonModel::Text(crate::messages::texts_of(texts@)[i])));
    value
}

/// The members of the payload for an answered query: one per field of the
/// backend's answer, under the field's own name.
pub open spec fn query_payload_fields(response: QueryResponseView) -> Map<Seq<char>, JsonModel> {
    Map::empty()
        .insert("session_id"@, JsonModel::Text(response.session_id))
        .insert("answer"@, JsonModel::Text(response.answer))
        .insert("artifacts"@, text_list_model(response.artifacts))
        .insert("needs_clarification"@, JsonModel::Flag(response.needs_clarification))
        .insert("clarification_prompt"@, JsonModel::Text(response.clarification_prompt))
}

/// The payload for an answered query.
pub open spec fn query_payload_model(response: QueryResponseView) -> JsonModel {
    JsonModel::Object(query_payload_fields(response))
}

/// Flattens the backend's answer to a query into the payload for the host.
///
/// Nothing is interpreted: the clarification prompt is passed on whether or
/// not the flag is set.
pub fn query_payload(response: QueryResponse) -> (payload: serde_json::Value)
    ensures
        json_model(payload) == query_payload_model(response@),
{
    let artifacts = text_list(&response.artifacts);
    let mut object = empty_object();
    object_insert(&mut object, "session_id".to_owned(), json_text(response.session_id));
    object_insert(&mut object, "answer".to_owned(), json_text(response.answer));
    object_insert(&mut object, "artifacts".to_owned(), artifacts);
    object_insert(
        &mut object,
        "needs_clarification".to_owned(),
        json_flag(response.needs_clarification),
    );
    object_insert(
        &mut object,
        "clarification_prompt".to_owned(),
        json_text(response.clarification_prompt),
    );
    json_object(object)
}

/// The payload of an answered query holds the five fields of the backend's
/// answer, each under its own name with its own value, the artifacts in the
/// backend's order, and nothing else.
pub proof fn lemma_query_payload_is_exact(response: QueryResponseView)
    ensures
        query_payload_fields(response).dom() =~= set![
            "session_id"@,
            "answer"@,
            "artifacts"@,
            "needs_clarification"@,
            "clarification_prompt"@,
        ],
        query_payload_fields(response)["session_id"@] == JsonModel::Text(response.session_id),
        query_payload_fields(response)["answer"@] == JsonModel::Text(response.answer),
        query_payload_fields(response)["artifacts"@] == text_list_model(response.artifacts),
        query_payload_fields(response)["needs_clarification"@] == JsonModel::Flag(
            response.needs_clarification,
        ),
        query_payload_fields(response)["clarification_prompt"@] == JsonModel::Text(
            response.clarification_prompt,
        ),
        text_list_model(response.artifacts)->List_0.len() == response.artifacts.len(),
        forall|i: int|
            0 <= i < response.artifacts.len() ==> #[trigger] text_list_model(
                response.artifacts,
            )->List_0[i] == JsonModel::Text(response.artifacts[i]),
{
    reveal_strlit("session_id");
    reveal_strlit("answer");
    reveal_strlit("artifacts");
    reveal_strlit("needs_clarification");
    reveal_strlit("clarification_prompt");
    assert("session_id"@.len() == 10);
    assert("answer"@.len() == 6);
    assert("artifacts"@.len() == 9);
    assert("needs_clarification"@.len() == 19);
    assert("clarification_prompt"@.len() == 20);
}

/// Two answers with the same payload are the same answer: the payload drops
/// nothing of what the backend returned.
pub proof fn lemma_query_payload_drops_nothing(first: QueryResponseView, second: QueryResponseView)
    requires
        query_payload_model(first) == query_payload_model(second),
    ensures
        first == second,
{
    lemma_query_payload_is_exact(first);
    lemma_query_payload_is_exact(second);
    let left = text_list_model(first.artifacts)->List_0;
    let right = text_list_model(second.artifacts)->List_0;
    assert(left == right);
    assert forall|i: int| 0 <= i < first.artifacts.len() implies first.artifacts[i]
        == second.artifacts[i] by {
        assert(left[i] == JsonModel::Text(first.artifacts[i]));
        assert(right[i] == JsonModel::Text(second.artifacts[i]));
    }
    assert(first.artifacts =~= second.artifacts);
}

/// The members of the payload for a generated report.
pub open spec fn report_payload_fields(response: ReportResponseView) -> Map<Seq<char>, JsonModel> {
    Map::empty()
        .insert("session_id"@, JsonModel::Text(response.session_id))
        .insert("path"@, JsonModel::Text(response.path))
}

/// The payload for a generated report.
pub open spec fn report_payload_model(response: ReportResponseView) -> JsonModel {
    JsonModel::Object(report_payload_fields(response))
}

/// Flattens the backend's answer to a report request into the payload for the
/// host.
pub fn report_payload(response: ReportResponse) -> (payload: serde_json::Value)
    ensures
        json_model(payload) == report_payload_model(response@),
{
    let mut object = empty_object();
    object_insert(&mut object, "session_id".to_owned(), json_text(response.session_id));
    object_insert(&mut object, "path".to_owned(), json_text(response.path));
    json_object(object)
}

/// The payload of a generated report holds the two fields of the backend's
/// answer, each under its own name with its own value, and nothing else.
pub proof fn lemma_report_payload_is_exact(response: ReportResponseView)
    ensures
        report_payload_fields(response).dom() =~= set!["session_id"@, "path"@],
        report_payload_fields(response)["session_id"@] == JsonModel::Text(response.session_id),
        report_payload_fields(response)["path"@] == JsonModel::Text(response.path),
{
    reveal_strlit("session_id");
    reveal_strlit("path");
    assert("session_id"@.len() == 10);
    assert("path"@.len() == 4);
}

/// Two report answers with the same payload are the same answer.
pub proof fn lemma_report_payload_drops_nothing(
    first: ReportResponseView,
    second: ReportResponseView,
)
    requires
        report_payload_model(first) == report_payload_model(second),
    ensures
        first == second,
{
    lemma_report_payload_is_exact(first);
    lemma_report_payload_is_exact(second);
}

} // verus!
