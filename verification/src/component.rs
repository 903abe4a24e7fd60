//! The entity relayed from the upstream source to local subscribers.

use vstd::prelude::*;

verus! {

/// The closed set of entity variants; an enumerated tag, not free text.
#[derive(Clone, Copy, Debug, PartialEq, Eq, Structural)]
pub enum ComponentType {
    Card,
    Notification,
    Form,
}

/// The unit of state exchanged with the upstream source. A value is
/// immutable once constructed: "updating" an entity means replacing the
/// store's mapping for its `id` with a new value, never mutating in place.
///
/// `data` carries the open, schema-less payload as its JSON text, and
/// `created_at` carries the origin's timestamp text, treated as opaque,
/// order-preserving metadata.
#[derive(Debug)]
pub struct Component {
    pub id: String,
    pub kind: ComponentType,
    pub data: String,
    pub created_at: String,
}

impl Clone for Component {
    fn clone(&self) -> (r: Self)
        ensures
            r == *self,
    {
        Component {
            id: self.id.clone(),
            kind: self.kind,
            data: self.data.clone(),
            created_at: self.created_at.clone(),
        }
    }
}

impl PartialEq for Component {
    fn eq(&self, other: &Self) -> (r: bool) {
        self.id == other.id && self.kind == other.kind && self.data == other.data
            && self.created_at == other.created_at
    }
}

impl vstd::std_specs::cmp::PartialEqSpecImpl for Component {
    open spec fn obeys_eq_spec() -> bool {
        true
    }

    open spec fn eq_spec(&self, other: &Self) -> bool {
        self.id@ == other.id@ && self.kind == other.kind && self.data@ == other.data@
            && self.created_at@ == other.created_at@
    }
}

} // verus!
