//! The JSON envelopes of the registry: the schema in a response, the
//! identifier and the version in the response to a registration, and the body
//! of a registration.

use super::error::{SRCError, SRCErrorView};
use super::http::{json_of_reply, to_json, Reply, ReplyView};
use super::json::{
    json_items_view, json_literal, json_string, member_array, member_i64, member_text,
    member_u64, Json, JsonView,
};
use super::schema::{
    registered_references_view, RegisteredReference, RegisteredReferenceView, RegisteredSchema,
    RegisteredSchemaView, SchemaType, SchemaTypeView,
};
use super::text::{decimal, decimal_text};
use vstd::prelude::*;

verus! {

/// The number from 0 to `u32::MAX` that is left of `n` when only its lowest 32
/// bits are kept.
pub open spec fn low_u32(n: int) -> u32 {
    (n % 0x1_0000_0000) as u32
}

/// The message for a member that a reference lacks.
pub open spec fn missing_field(key: Seq<char>) -> Seq<char> {
    "missing field `"@ + key + "`"@
}

/// The message for a member of a reference that is of the wrong kind or out of
/// range.
pub open spec fn invalid_field(key: Seq<char>) -> Seq<char> {
    "invalid value for field `"@ + key + "`"@
}

/// The text of a member of a reference, or what is wrong with the member.
pub open spec fn text_field(item: JsonView, key: Seq<char>) -> Result<Seq<char>, Seq<char>> {
    match item.member(key) {
        None => Err(missing_field(key)),
        Some(member) => match member.as_text() {
            None => Err(invalid_field(key)),
            Some(text) => Ok(text),
        },
    }
}

/// The version of a reference, or what is wrong with the member.
pub open spec fn version_field(item: JsonView) -> Result<u32, Seq<char>> {
    match item.member("version"@) {
        None => Err(missing_field("version"@)),
        Some(member) => match member.as_u64() {
            None => Err(invalid_field("version"@)),
            Some(version) => if version <= u32::MAX {
                Ok(version as u32)
            } else {
                Err(invalid_field("version"@))
            },
        },
    }
}

/// The reference that an item of the envelope's `references` stands for: an
/// object with the texts `name` and `subject` and the number `version`. For
/// another item, what is wrong with it; the name is looked at first, the
/// version last.
pub open spec fn reference_of_json(item: JsonView) -> Result<RegisteredReferenceView, Seq<char>> {
    match text_field(item, "name"@) {
        Err(complaint) => Err(complaint),
        Ok(name) => match text_field(item, "subject"@) {
            Err(complaint) => Err(complaint),
            Ok(subject) => match version_field(item) {
                Err(complaint) => Err(complaint),
                Ok(version) => Ok(RegisteredReferenceView { name, subject, version }),
            },
        },
    }
}

/// The references that the items stand for, in the same order; where some do
/// not stand for one, what is wrong with the first of them.
pub open spec fn references_of_json(items: Seq<JsonView>) -> Result<
    Seq<RegisteredReferenceView>,
    Seq<char>,
>
    decreases items.len(),
{
    if items.len() == 0 {
        Ok(Seq::empty())
    } else {
        match references_of_json(items.drop_last()) {
            Err(complaint) => Err(complaint),
            Ok(references) => match reference_of_json(items.last()) {
                Err(complaint) => Err(complaint),
                Ok(reference) => Ok(references.push(reference)),
            },
        }
    }
}

/// The identifier of the schema in an envelope: the one in the envelope, or,
/// where it has none, the one that was asked for. With neither there is
/// none.
pub open spec fn envelope_id(json: JsonView, requested: Option<u32>) -> Result<
    u32,
    SRCErrorView,
> {
    match member_u64(json, "id"@) {
        Some(id) => Ok(low_u32(id as int)),
        None => match requested {
            Some(id) => Ok(id),
            None => Err(SRCErrorView::fresh("Could not get id from response"@, None, false)),
        },
    }
}

/// The schema in an envelope. The type is the one that `schemaType` names, or
/// Avro; the text `schema` must be there; `references` may be there: an array
/// of references.
pub open spec fn schema_of_json(json: JsonView, requested: Option<u32>) -> Result<
    RegisteredSchemaView,
    SRCErrorView,
> {
    match envelope_id(json, requested) {
        Err(error) => Err(error),
        Ok(id) => match member_text(json, "schema"@) {
            None => Err(
                SRCErrorView::fresh("Could not get raw schema from response"@, None, false),
            ),
            Some(schema) => match references_of_json(
                match member_array(json, "references"@) {
                    Some(items) => items,
                    None => Seq::empty(),
                },
            ) {
                Err(complaint) => Err(
                    SRCErrorView::fresh("Error parsing reference"@, Some(complaint), false),
                ),
                Ok(references) => Ok(
                    RegisteredSchemaView {
                        id,
                        schema_type: SchemaTypeView::from_name(member_text(json, "schemaType"@)),
                        schema,
                        references,
                    },
                ),
            },
        },
    }
}

/// The number of a member in the response to a registration, or the error
/// with `missing` as its message where the response has no such number.
pub open spec fn number_of_json(json: JsonView, key: Seq<char>, missing: Seq<char>) -> Result<
    u32,
    SRCErrorView,
> {
    match member_i64(json, key) {
        Some(number) => Ok(low_u32(number as int)),
        None => Err(SRCErrorView::fresh(missing, None, false)),
    }
}

/// The schema in the reply to a GET, or the error that the reply amounts to.
pub open spec fn schema_of_reply(reply: ReplyView, requested: Option<u32>) -> Result<
    RegisteredSchemaView,
    SRCErrorView,
> {
    match json_of_reply(reply, "error performing get to schema registry"@) {
        Err(error) => Err(error),
        Ok(json) => schema_of_json(json, requested),
    }
}

/// The identifier in the reply to the POST that registers a schema.
pub open spec fn id_of_reply(reply: ReplyView) -> Result<u32, SRCErrorView> {
    match json_of_reply(reply, "error performing post to schema registry to get id"@) {
        Err(error) => Err(error),
        Ok(json) => number_of_json(json, "id"@, "Could not get id from response"@),
    }
}

/// The version in the reply to the POST that asks for the version of a
/// schema.
pub open spec fn version_of_reply(reply: ReplyView) -> Result<u32, SRCErrorView> {
    match json_of_reply(reply, "error performing post to schema registry to get version"@) {
        Err(error) => Err(error),
        Ok(json) => number_of_json(json, "version"@, "Could not get version from response"@),
    }
}

/// A reference as it stands in the body of a registration.
pub open spec fn reference_text(reference: RegisteredReferenceView) -> Seq<char> {
    "{\"name\":"@ + json_literal(reference.name) + ",\"subject\":"@ + json_literal(
        reference.subject,
    ) + ",\"version\":"@ + decimal(reference.version as nat) + "}"@
}

/// References as they stand in the body of a registration: one after the
/// other, with commas between them.
pub open spec fn references_text(references: Seq<RegisteredReferenceView>) -> Seq<char>
    decreases references.len(),
{
    if references.len() == 0 {
        Seq::empty()
    } else if references.len() == 1 {
        reference_text(references[0])
    } else {
        references_text(references.drop_last()) + ","@ + reference_text(references.last())
    }
}

/// The body of a registration: the schema, the name of its type and, only
/// where there are any, its references.
pub open spec fn body_text(
    schema_type: Seq<char>,
    schema: Seq<char>,
    references: Seq<RegisteredReferenceView>,
) -> Seq<char> {
    "{\"schema\":"@ + json_literal(schema) + ",\"schemaType\":"@ + json_literal(schema_type) + (
    if references.len() == 0 {
        Seq::empty()
    } else {
        ",\"references\":["@ + references_text(references) + "]"@
    }) + "}"@
}

/// The content of an outcome that is a number.
pub open spec fn number_result_view(result: Result<u32, SRCError>) -> Result<u32, SRCErrorView> {
    match result {
        Ok(number) => Ok(number),
        Err(error) => Err(error@),
    }
}

/// The content of an outcome that is a schema.
pub open spec fn schema_result_view(result: Result<RegisteredSchema, SRCError>) -> Result<
    RegisteredSchemaView,
    SRCErrorView,
> {
    match result {
        Ok(schema) => Ok(schema@),
        Err(error) => Err(error@),
    }
}

/// The content of the outcome of [`reference_from_json`].
pub open spec fn reference_result_view(result: Result<RegisteredReference, String>) -> Result<
    RegisteredReferenceView,
    Seq<char>,
> {
    match result {
        Ok(reference) => Ok(reference@),
        Err(complaint) => Err(complaint@),
    }
}

/// Keeps the lowest 32 bits of a number.
pub fn low_u32_of_u64(n: u64) -> (low: u32)
    ensures
        low == low_u32(n as int),
{
    (n % 0x1_0000_0000) as u32
}

/// Keeps the lowest 32 bits of a number, which for a negative number are
/// those of its two's complement.
pub fn low_u32_of_i64(n: i64) -> (low: u32)
    ensures
        low == low_u32(n as int),
{
    if n >= 0 {
        ((n as u64) % 0x1_0000_0000) as u32
    } else {
        let below: u64 = (-(n + 1)) as u64;
        let low: u64 = 0xffff_ffff - below % 0x1_0000_0000;
        assert(low == (n as int) % 0x1_0000_0000) by {
            let q = below as int / 0x1_0000_0000;
            assert(n as int == (-q - 1) * 0x1_0000_0000 + low);
        }
        low as u32
    }
}

fn missing_field_text(key: &str) -> (text: String)
    ensures
        text@ == missing_field(key@),
{
    let mut text = String::from_str("missing field `");
    text.append(key);
    text.append("`");
    text
}

fn invalid_field_text(key: &str) -> (text: String)
    ensures
        text@ == invalid_field(key@),
{
    let mut text = String::from_str("invalid value for field `");
    text.append(key);
    text.append("`");
    text
}

fn text_field_of(item: &Json, key: &str) -> (result: Result<String, String>)
    ensures
        match result {
            Ok(text) => text_field(item@, key@) == Ok::<Seq<char>, Seq<char>>(text@),
            Err(complaint) => text_field(item@, key@) == Err::<Seq<char>, Seq<char>>(
                complaint@,
            ),
        },
{
    match item.member(key) {
        None => Err(missing_field_text(key)),
        Some(member) => match member.as_str() {
            None => Err(invalid_field_text(key)),
            Some(text) => Ok(String::from_str(text)),
        },
    }
}

fn version_field_of(item: &Json) -> (result: Result<u32, String>)
    ensures
        match result {
            Ok(version) => version_field(item@) == Ok::<u32, Seq<char>>(version),
            Err(complaint) => version_field(item@) == Err::<u32, Seq<char>>(complaint@),
        },
{
    match item.member("version") {
        None => Err(missing_field_text("version")),
        Some(member) => match member.as_u64() {
            None => Err(invalid_field_text("version")),
            Some(version) => {
                if version <= 0xffff_ffff {
                    Ok(version as u32)
                } else {
                    Err(invalid_field_text("version"))
                }
            },
        },
    }
}

/// Reads a reference from an item of the envelope's `references`.
pub fn reference_from_json(item: &Json) -> (result: Result<RegisteredReference, String>)
    ensures
        reference_result_view(result) == reference_of_json(item@),
{
    let name = match text_field_of(item, "name") {
        Ok(name) => name,
        Err(complaint) => {
            return Err(complaint);
        },
    };
    let subject = match text_field_of(item, "subject") {
        Ok(subject) => subject,
        Err(complaint) => {
            return Err(complaint);
        },
    };
    match version_field_of(item) {
        Ok(version) => Ok(RegisteredReference { name, subject, version }),
        Err(complaint) => Err(complaint),
    }
}

fn references_from_json(items: &Vec<Json>) -> (result: Result<Vec<RegisteredReference>, String>)
    ensures
        match result {
            Ok(references) => references_of_json(json_items_view(*items)) == Ok::<
                Seq<RegisteredReferenceView>,
                Seq<char>,
            >(registered_references_view(references@)),
            Err(complaint) => references_of_json(json_items_view(*items)) == Err::<
                Seq<RegisteredReferenceView>,
                Seq<char>,
            >(complaint@),
        },
{
    let ghost all = json_items_view(*items);
    let mut references: Vec<RegisteredReference> = Vec::new();
    let mut i: usize = 0;
    assert(registered_references_view(references@) =~= Seq::empty());
    while i < items.len()
        invariant
            i <= items.len(),
            all == json_items_view(*items),
            references_of_json(all.take(i as int)) == Ok::<
                Seq<RegisteredReferenceView>,
                Seq<char>,
            >(registered_references_view(references@)),
        decreases items.len() - i,
    {
        assert(all.take(i + 1).drop_last() =~= all.take(i as int));
        match reference_from_json(&items[i]) {
            Ok(reference) => {
                let ghost before = registered_references_view(references@);
                references.push(reference);
                assert(registered_references_view(references@) =~= before.push(reference@));
            },
            Err(complaint) => {
                proof {
                    lemma_references_fail_on(all, i as int);
                }
                return Err(complaint);
            },
        }
        i += 1;
    }
    assert(all.take(i as int) =~= all);
    Ok(references)
}

/// Where the items before one stand for references and that one does not,
/// what is wrong with it is what is wrong with the whole.
proof fn lemma_references_fail_on(items: Seq<JsonView>, i: int)
    requires
        0 <= i < items.len(),
        references_of_json(items.take(i)) is Ok,
        reference_of_json(items[i]) is Err,
    ensures
        references_of_json(items) == Err::<Seq<RegisteredReferenceView>, Seq<char>>(
            reference_of_json(items[i])->Err_0,
        ),
    decreases items.len(),
{
    if i < items.len() - 1 {
        assert(items.drop_last().take(i) =~= items.take(i));
        lemma_references_fail_on(items.drop_last(), i);
    }
}

/// Reads the schema from an envelope. `requested` is the identifier that was
/// asked for, if the schema was asked for by one.
pub fn schema_from_json(json: &Json, requested: Option<u32>) -> (result: Result<
    RegisteredSchema,
    SRCError,
>)
    ensures
        schema_result_view(result) == schema_of_json(json@, requested),
{
    let from_envelope = match json.member("id") {
        Some(member) => member.as_u64(),
        None => None,
    };
    let id = match from_envelope {
        Some(id) => low_u32_of_u64(id),
        None => match requested {
            Some(id) => id,
            None => {
                return Err(SRCError::new("Could not get id from response", None, false));
            },
        },
    };
    let type_label = match json.member("schemaType") {
        Some(member) => member.as_str(),
        None => None,
    };
    let schema_type = SchemaType::from_name(type_label);
    let schema_text = match json.member("schema") {
        Some(member) => member.as_str(),
        None => None,
    };
    let schema = match schema_text {
        Some(text) => String::from_str(text),
        None => {
            return Err(
                SRCError::non_retryable_without_cause("Could not get raw schema from response"),
            );
        },
    };
    let listed = match json.member("references") {
        Some(member) => member.as_array(),
        None => None,
    };
    let references = match listed {
        None => {
            let none: Vec<RegisteredReference> = Vec::new();
            assert(registered_references_view(none@) =~= Seq::empty());
            none
        },
        Some(items) => match references_from_json(items) {
            Ok(references) => references,
            Err(complaint) => {
                return Err(SRCError::new("Error parsing reference", Some(complaint), false));
            },
        },
    };
    Ok(RegisteredSchema { id, schema_type, schema, references })
}

/// Reads the schema from the reply to a GET. A request that could not be
/// performed is an error that a retry may mend; whatever is wrong with the
/// reply itself is one that no retry mends.
pub fn schema_from_reply(reply: &Reply, requested: Option<u32>) -> (result: Result<
    RegisteredSchema,
    SRCError,
>)
    ensures
        schema_result_view(result) == schema_of_reply(reply@, requested),
{
    match to_json(reply, "error performing get to schema registry") {
        Ok(json) => schema_from_json(&json, requested),
        Err(error) => Err(error),
    }
}

fn number_from_json(json: &Json, key: &str, missing: &str) -> (result: Result<u32, SRCError>)
    ensures
        number_result_view(result) == number_of_json(json@, key@, missing@),
{
    let number = match json.member(key) {
        Some(member) => member.as_i64(),
        None => None,
    };
    match number {
        Some(n) => Ok(low_u32_of_i64(n)),
        None => Err(SRCError::non_retryable_without_cause(missing)),
    }
}

/// Reads the identifier from the reply to the POST that registers a schema.
pub fn id_from_reply(reply: &Reply) -> (result: Result<u32, SRCError>)
    ensures
        number_result_view(result) == id_of_reply(reply@),
{
    match to_json(reply, "error performing post to schema registry to get id") {
        Ok(json) => number_from_json(&json, "id", "Could not get id from response"),
        Err(error) => Err(error),
    }
}

/// Reads the version from the reply to the POST that asks for the version of
/// a schema.
pub fn version_from_reply(reply: &Reply) -> (result: Result<u32, SRCError>)
    ensures
        number_result_view(result) == version_of_reply(reply@),
{
    match to_json(reply, "error performing post to schema registry to get version") {
        Ok(json) => number_from_json(&json, "version", "Could not get version from response"),
        Err(error) => Err(error),
    }
}

fn reference_body(reference: &RegisteredReference) -> (text: String)
    ensures
        text@ == reference_text(reference@),
{
    let mut text = String::from_str("{\"name\":");
    let name = json_string(reference.name.as_str());
    text.append(name.as_str());
    text.append(",\"subject\":");
    let subject = json_string(reference.subject.as_str());
    text.append(subject.as_str());
    text.append(",\"version\":");
    let version = decimal_text(reference.version as u64);
    text.append(version.as_str());
    text.append("}");
    text
}

/// Writes the body of a registration. Without references the body has no
/// member for them at all.
pub fn get_body(schema_type: &str, schema: &str, references: &Vec<RegisteredReference>) -> (body:
    String)
    ensures
        body@ == body_text(schema_type@, schema@, registered_references_view(references@)),
{
    let ghost all = registered_references_view(references@);
    let mut body = String::from_str("{\"schema\":");
    let schema_literal = json_string(schema);
    body.append(schema_literal.as_str());
    body.append(",\"schemaType\":");
    let type_literal = json_string(schema_type);
    body.append(type_literal.as_str());
    if references.len() > 0 {
        let ghost head = body@;
        body.append(",\"references\":[");
        let first = reference_body(&references[0]);
        body.append(first.as_str());
        let mut i: usize = 1;
        while i < references.len()
            invariant
                1 <= i <= references.len(),
                all == registered_references_view(references@),
                body@ == head + ",\"references\":["@ + references_text(all.take(i as int)),
            decreases references.len() - i,
        {
            body.append(",");
            let next = reference_body(&references[i]);
            body.append(next.as_str());
            assert(all.take(i + 1).drop_last() =~= all.take(i as int));
            i += 1;
        }
        assert(all.take(i as int) =~= all);
        body.append("]");
    }
    body.append("}");
    body
}

} // verus!
