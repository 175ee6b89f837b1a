//! The atomic unit of the protocol: an immutable tagged event record.

use vstd::prelude::*;

verus! {

/// The mathematical value of an event: each field as a plain sequence or
/// integer.
pub ghost struct EventView {
    pub id: Seq<char>,
    pub pubkey: Seq<char>,
    pub kind: u32,
    pub content: Seq<char>,
    pub created_at: u64,
    pub tags: Seq<Seq<Seq<char>>>,
    pub sig: Seq<char>,
}

/// An event record: identifier (globally unique by convention), publisher
/// key, kind tag, opaque content, creation time, tag arrays, and an opaque
/// signature that this relay never validates. Immutable once constructed.
#[derive(Debug, Clone, PartialEq)]
pub struct NostrEvent {
    pub id: String,
    pub pubkey: String,
    pub kind: u32,
    pub content: String,
    pub created_at: u64,
    pub tags: Vec<Vec<String>>,
    pub sig: String,
}

impl View for NostrEvent {
    type V = EventView;

    open spec fn view(&self) -> EventView {
        EventView {
            id: self.id@,
            pubkey: self.pubkey@,
            kind: self.kind,
            content: self.content@,
            created_at: self.created_at,
            tags: self.tags.deep_view(),
            sig: self.sig@,
        }
    }
}

} // verus!
