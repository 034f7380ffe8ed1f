//! The packet codec: turns one framed payload into a `Packet`.
//!
//! A payload must decode as exactly one structured-text document whose
//! single top-level value is a sequence; any other shape is a format error,
//! and the offending packet is dropped without closing the connection.

use vstd::prelude::*;

use crate::packet::Packet;
use crate::value::Value;

verus! {

/// A format error in one payload.  Unlike a transport error, it costs only
/// the offending packet: the connection continues.
#[derive(Debug, Clone, Copy, PartialEq, Eq, Structural)]
pub enum CodecError {
    /// The payload is not UTF-8, or not a well-formed document.
    Malformed,
    /// The payload held zero or several documents instead of one.
    NotOneDocument,
    /// The single document's top-level value is not a sequence.
    NotSequence,
}

/// The external structured-text value a payload document parses into.
#[verifier::external_type_specification]
#[verifier::external_body]
pub struct ExYaml(yaml_rust2::Yaml);

/// Relies on the shape of `yaml_rust2::Yaml` alone: maps each variant of
/// the parsed value onto the library's closed union, moving its fields.
/// Scalars the protocol never carries — reals, booleans, aliases, bad
/// values — become `Null`, which every accessor treats as its default.
#[verifier::external_body]
fn yaml_to_value(y: &yaml_rust2::Yaml) -> Value {
    match y {
        yaml_rust2::Yaml::Integer(i) => Value::Integer(*i),
        yaml_rust2::Yaml::String(s) => Value::Text(s.clone()),
        yaml_rust2::Yaml::Array(a) => Value::Sequence(a.iter().map(yaml_to_value).collect()),
        yaml_rust2::Yaml::Hash(h) => Value::Mapping(
            h.iter().map(|(k, v)| (yaml_to_value(k), yaml_to_value(v))).collect(),
        ),
        _ => Value::Null,
    }
}

/// What parsing a payload yields: its documents as values of the closed
/// union, or nothing when the payload is not UTF-8 or not well-formed.
/// The outcome depends on the payload bytes alone.
pub uninterp spec fn parsed_docs_of(payload: Seq<u8>) -> Option<Seq<Value>>;

/// Relies on `yaml_rust2::YamlLoader::load_from_str` over the payload
/// decoded as UTF-8: parsing succeeds if and only if every document does,
/// and the documents are a function of the payload bytes alone.
#[verifier::external_body]
fn load_documents(payload: &[u8]) -> (r: Option<Vec<Value>>)
    ensures
        r matches Some(docs) ==> parsed_docs_of(payload@) == Some(docs@),
        r is None <==> parsed_docs_of(payload@) is None,
{
    let text = match core::str::from_utf8(payload) {
        Ok(text) => text,
        Err(_) => return None,
    };
    match yaml_rust2::YamlLoader::load_from_str(text) {
        Ok(docs) => Some(docs.iter().map(yaml_to_value).collect()),
        Err(_) => None,
    }
}

/// Parses one payload into a packet.
///
/// Returns the packet exactly when the payload parses as one document
/// whose top-level value is a sequence; the packet's values are that
/// sequence and its side-table starts empty.  Each error names the first
/// check that failed.
pub fn parse_payload(payload: Vec<u8>) -> (r: Result<Packet, CodecError>)
    ensures
        (match parsed_docs_of(payload@) {
            None => r == Err::<Packet, CodecError>(CodecError::Malformed),
            Some(docs) => {
                if docs.len() != 1 {
                    r == Err::<Packet, CodecError>(CodecError::NotOneDocument)
                } else {
                    match docs[0] {
                        Value::Sequence(items) => {
                            &&& r matches Ok(p)
                            &&& (r matches Ok(p) ==> p.main@ == items@ && p.raw@.len() == 0)
                        },
                        _ => r == Err::<Packet, CodecError>(CodecError::NotSequence),
                    }
                }
            },
        }),
{
    let mut docs = match load_documents(payload.as_slice()) {
        Some(docs) => docs,
        None => {
            return Err(CodecError::Malformed);
        },
    };
    if docs.len() != 1 {
        return Err(CodecError::NotOneDocument);
    }
    match docs.pop() {
        Some(Value::Sequence(items)) => Ok(Packet { main: items, raw: Vec::new() }),
        _ => Err(CodecError::NotSequence),
    }
}

} // verus!
