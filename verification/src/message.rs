//! Inbound frame classification: each text frame is parsed in two stages —
//! a generic envelope with a `type` discriminator, then the typed entity
//! payload. A malformed frame is a local, per-message failure that is
//! classified and discarded, never a connection-level failure. Every
//! outcome is pinned to the text through the named extraction functions of
//! the JSON boundary.

use vstd::prelude::*;
use vstd::string::StringExecFns;

use crate::component::{Component, ComponentType};
use crate::json::{
    json_field_doc, json_field_doc_of, json_is_valid, json_string_field, json_string_field_of,
    json_valid, rfc3339_valid, timestamp_valid,
};

verus! {

/// What one inbound text frame turned out to carry, as the dispatch logic
/// sees it.
pub enum InboundMessage {
    /// `connection_ack`: the handshake acknowledgment.
    ConnectionAck,
    /// A `data` frame whose payload decoded into the entity shape.
    EntityUpdate(Component),
    /// A `data` frame reporting upstream-level errors in its payload.
    DataErrors,
    /// A `data` frame whose payload lacks the entity or fails to decode.
    DataMalformed,
    /// An `error` frame: an upstream-level error; the connection stays open.
    UpstreamError,
    /// A `complete` frame: the upstream declared the subscription finished.
    Complete,
    /// A `ka` frame: keep-alive, a no-op.
    KeepAlive,
    /// A recognizably framed message of an unrecognized `type`: tolerated
    /// for forward compatibility.
    Unknown,
    /// Text that is not a JSON envelope at all.
    Unparseable,
}

/// The envelope's `type` discriminator field.
pub open spec fn envelope_type_of(s: Seq<char>) -> Option<Seq<char>> {
    json_string_field_of(s, "type"@)
}

/// Whether the envelope's payload reports upstream-level errors.
pub open spec fn data_has_errors(s: Seq<char>) -> bool {
    match json_field_doc_of(s, "payload"@) {
        Some(p) => json_field_doc_of(p, "errors"@) is Some,
        None => false,
    }
}

/// The named entity carried by a `data` envelope, as its own JSON text:
/// the `componentUpdate` field under `payload.data`.
pub open spec fn data_entity_doc_of(s: Seq<char>) -> Option<Seq<char>> {
    match json_field_doc_of(s, "payload"@) {
        Some(p) => match json_field_doc_of(p, "data"@) {
            Some(d) => json_field_doc_of(d, "componentUpdate"@),
            None => None,
        },
        None => None,
    }
}

/// The closed variant set, keyed by the tag as the wire spells it.
pub open spec fn spec_kind_of_tag(t: Seq<char>) -> Option<ComponentType> {
    if t == "CARD"@ {
        Some(ComponentType::Card)
    } else if t == "NOTIFICATION"@ {
        Some(ComponentType::Notification)
    } else if t == "FORM"@ {
        Some(ComponentType::Form)
    } else {
        None
    }
}

/// Whether an entity document decodes: present `id`, `type`, `data` and
/// `createdAt` fields, a known variant tag, and a timestamp the parser
/// accepts.
pub open spec fn entity_decodes(cu: Seq<char>) -> bool {
    &&& json_string_field_of(cu, "id"@) is Some
    &&& (json_string_field_of(cu, "type"@) matches Some(t) && spec_kind_of_tag(t) is Some)
    &&& json_field_doc_of(cu, "data"@) is Some
    &&& (json_string_field_of(cu, "createdAt"@) matches Some(ts) && rfc3339_valid(ts))
}

/// How a decoded entity's fields stand to the document they came from.
pub open spec fn entity_fields_of(cu: Seq<char>, c: Component) -> bool {
    &&& json_string_field_of(cu, "id"@) == Some(c.id@)
    &&& (json_string_field_of(cu, "type"@) matches Some(t) && spec_kind_of_tag(t) == Some(c.kind))
    &&& json_field_doc_of(cu, "data"@) == Some(c.data@)
    &&& json_string_field_of(cu, "createdAt"@) == Some(c.created_at@)
}

/// Whether a whole text frame carries an accepted entity update: a `data`
/// envelope, no upstream errors, and a decodable entity document.
pub open spec fn frame_carries_entity(s: Seq<char>) -> bool {
    &&& envelope_type_of(s) == Some("data"@)
    &&& !data_has_errors(s)
    &&& (data_entity_doc_of(s) matches Some(cu) && entity_decodes(cu))
}

/// The entity tag as the wire spells it, decoded to the closed variant set.
pub fn kind_of_tag(tag: &String) -> (r: Option<ComponentType>)
    ensures
        r == spec_kind_of_tag(tag@),
{
    proof {
        reveal_strlit("CARD");
        reveal_strlit("NOTIFICATION");
        reveal_strlit("FORM");
        assert("CARD"@.len() == 4);
        assert("NOTIFICATION"@.len() == 12);
        assert("FORM"@.len() == 4);
        assert("CARD"@[0] == 'C');
        assert("FORM"@[0] == 'F');
    }
    if *tag == String::from_str("CARD") {
        Some(ComponentType::Card)
    } else if *tag == String::from_str("NOTIFICATION") {
        Some(ComponentType::Notification)
    } else if *tag == String::from_str("FORM") {
        Some(ComponentType::Form)
    } else {
        None
    }
}

/// Decodes the named entity out of its JSON document: it succeeds exactly
/// when all four fields are present and acceptable, and the result's fields
/// are exactly what the document holds.
pub fn decode_entity(cu: &str) -> (r: Option<Component>)
    ensures
        r is Some <==> entity_decodes(cu@),
        r matches Some(c) ==> entity_fields_of(cu@, c),
{
    let id = match json_string_field(cu, "id") {
        Some(s) => s,
        None => {
            return None;
        },
    };
    let tag = match json_string_field(cu, "type") {
        Some(s) => s,
        None => {
            return None;
        },
    };
    let kind = match kind_of_tag(&tag) {
        Some(k) => k,
        None => {
            return None;
        },
    };
    let data = match json_field_doc(cu, "data") {
        Some(d) => d,
        None => {
            return None;
        },
    };
    let created_at = match json_string_field(cu, "createdAt") {
        Some(s) => s,
        None => {
            return None;
        },
    };
    if !timestamp_valid(created_at.as_str()) {
        return None;
    }
    Some(Component { id, kind, data, created_at })
}

/// Parses one inbound text frame into the envelope the dispatcher acts on.
/// Every outcome is represented — no frame, however malformed, escapes as a
/// failure of the receive loop — and each one says exactly which frames it
/// stands for.
pub fn classify_message(text: &str) -> (m: InboundMessage)
    ensures
        m is ConnectionAck <==> envelope_type_of(text@) == Some("connection_ack"@),
        m is UpstreamError <==> envelope_type_of(text@) == Some("error"@),
        m is Complete <==> envelope_type_of(text@) == Some("complete"@),
        m is KeepAlive <==> envelope_type_of(text@) == Some("ka"@),
        m is DataErrors <==> envelope_type_of(text@) == Some("data"@) && data_has_errors(text@),
        m is EntityUpdate <==> frame_carries_entity(text@),
        m matches InboundMessage::EntityUpdate(c) ==> entity_fields_of(
            data_entity_doc_of(text@)->Some_0,
            c,
        ),
        m is DataMalformed <==> envelope_type_of(text@) == Some("data"@) && !data_has_errors(
            text@,
        ) && !(data_entity_doc_of(text@) matches Some(cu) && entity_decodes(cu)),
        m is Unparseable <==> envelope_type_of(text@) is None && !json_valid(text@),
        m is Unknown <==> (envelope_type_of(text@) is None && json_valid(text@)) || (
        envelope_type_of(text@) matches Some(t) && t != "connection_ack"@ && t != "data"@ && t
            != "error"@ && t != "complete"@ && t != "ka"@),
{
    proof {
        reveal_strlit("connection_ack");
        reveal_strlit("data");
        reveal_strlit("error");
        reveal_strlit("complete");
        reveal_strlit("ka");
        assert("connection_ack"@.len() == 14);
        assert("data"@.len() == 4);
        assert("error"@.len() == 5);
        assert("complete"@.len() == 8);
        assert("ka"@.len() == 2);
        assert("data"@[0] == 'd');
        assert("ka"@[0] == 'k');
    }
    let t = match json_string_field(text, "type") {
        Some(s) => s,
        None => {
            if json_is_valid(text) {
                return InboundMessage::Unknown;
            } else {
                return InboundMessage::Unparseable;
            }
        },
    };
    if t == String::from_str("connection_ack") {
        InboundMessage::ConnectionAck
    } else if t == String::from_str("data") {
        match json_field_doc(text, "payload") {
            None => InboundMessage::DataMalformed,
            Some(payload) => {
                if json_field_doc(payload.as_str(), "errors").is_some() {
                    InboundMessage::DataErrors
                } else {
                    match json_field_doc(payload.as_str(), "data") {
                        None => InboundMessage::DataMalformed,
                        Some(d) => match json_field_doc(d.as_str(), "componentUpdate") {
                            None => InboundMessage::DataMalformed,
                            Some(cu) => match decode_entity(cu.as_str()) {
                                Some(c) => InboundMessage::EntityUpdate(c),
                                None => InboundMessage::DataMalformed,
                            },
                        },
                    }
                }
            },
        }
    } else if t == String::from_str("error") {
        InboundMessage::UpstreamError
    } else if t == String::from_str("complete") {
        InboundMessage::Complete
    } else if t == String::from_str("ka") {
        InboundMessage::KeepAlive
    } else {
        InboundMessage::Unknown
    }
}

} // verus!
