//! The boundary to the database driver's typed value representation and to
//! the identifier parser. Every item the verifier takes on trust lives
//! here: declarations of the driver's opaque types and thin wrappers whose
//! bodies only construct driver values from the library's own plain values.

use vstd::prelude::*;
use crate::values::{Cardinality, FieldValue};
use crate::compiler::CompiledMutation;
use edgedb_protocol::codec::ShapeElement;
use edgedb_protocol::value::Value;

verus! {

#[verifier::external_type_specification]
#[verifier::external_body]
pub struct ExValue(Value);

#[verifier::external_type_specification]
#[verifier::external_body]
pub struct ExShapeElement(ShapeElement);

/// What the identifier parser returns for a given character sequence: the
/// 128-bit form of the identifier the text denotes, if it denotes one.
pub uninterp spec fn parsed_uuid(s: Seq<char>) -> Option<u128>;

/// Relies on `uuid::Uuid::try_parse` (with `Uuid::as_u128`): the result is a
/// function of the input characters alone.
#[verifier::external_body]
pub fn parse_uuid(s: &str) -> (r: Option<u128>)
    ensures
        r == parsed_uuid(s@),
{
    match uuid::Uuid::try_parse(s) {
        Ok(u) => Some(u.as_u128()),
        Err(_) => None,
    }
}

/// Relies on `edgedb_protocol::codec::ShapeElement`: builds the shape
/// element describing one bound parameter, with every flag cleared, as the
/// driver expects for plain named arguments.
#[verifier::external_body]
pub fn create_shape_element(name: &str, cardinality: Cardinality) -> ShapeElement {
    ShapeElement {
        flag_implicit: false,
        flag_link_property: false,
        flag_link: false,
        cardinality: Some(match cardinality {
            Cardinality::One => edgedb_protocol::common::Cardinality::One,
            Cardinality::AtMostOne => edgedb_protocol::common::Cardinality::AtMostOne,
            Cardinality::AtLeastOne => edgedb_protocol::common::Cardinality::AtLeastOne,
        }),
        name: name.to_string(),
    }
}

/// Relies on `edgedb_protocol::value::Value::Str`.
#[verifier::external_body]
fn ev_str(s: &str) -> Value {
    Value::Str(s.to_string())
}

/// Relies on `edgedb_protocol::value::Value::Bool`.
#[verifier::external_body]
fn ev_bool(b: bool) -> Value {
    Value::Bool(b)
}

/// Relies on `edgedb_protocol::value::Value::Enum`.
#[verifier::external_body]
fn ev_enum(s: &str) -> Value {
    Value::Enum(s.into())
}

/// Relies on `edgedb_protocol::value::Value::Uuid` and
/// `uuid::Uuid::from_u128`.
#[verifier::external_body]
fn ev_uuid(u: u128) -> Value {
    Value::Uuid(uuid::Uuid::from_u128(u))
}

/// Relies on `edgedb_protocol::value::Value::Array`.
#[verifier::external_body]
fn ev_array(vals: Vec<Value>) -> Value {
    Value::Array(vals)
}

/// Relies on `edgedb_protocol::value::Value::Object` and
/// `edgedb_protocol::codec::ObjectShape::new`.
#[verifier::external_body]
fn ev_object(elements: Vec<ShapeElement>, fields: Vec<Option<Value>>) -> Value {
    Value::Object { shape: edgedb_protocol::codec::ObjectShape::new(elements), fields }
}

/// The driver value carrying one decoded field value; an explicit null
/// binds no value at all.
pub fn field_value_to_edge(v: &FieldValue) -> Option<Value> {
    match v {
        FieldValue::Str(s) => Some(ev_str(s.as_str())),
        FieldValue::Bool(b) => Some(ev_bool(*b)),
        FieldValue::Uuid(u) => Some(ev_uuid(*u)),
        FieldValue::Enum(s) => Some(ev_enum(s.as_str())),
        FieldValue::Absent => None,
        FieldValue::UuidList(us) => {
            let mut vals: Vec<Value> = Vec::new();
            let mut i: usize = 0;
            while i < us.len()
                decreases us.len() - i,
            {
                vals.push(ev_uuid(us[i]));
                i = i + 1;
            }
            Some(ev_array(vals))
        },
    }
}

/// Assemble the driver's named-argument object for a compiled mutation: one
/// shape element and one optional value per bound parameter, index-aligned.
pub fn make_edge_object(m: &CompiledMutation) -> Value {
    let mut elements: Vec<ShapeElement> = Vec::new();
    let mut fields: Vec<Option<Value>> = Vec::new();
    let mut i: usize = 0;
    while i < m.items.len()
        decreases m.items.len() - i,
    {
        let p = &m.items[i].param;
        elements.push(create_shape_element(p.name.as_str(), p.cardinality));
        fields.push(field_value_to_edge(&p.value));
        i = i + 1;
    }
    ev_object(elements, fields)
}

} // verus!
