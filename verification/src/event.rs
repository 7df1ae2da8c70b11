//! The events of the two logs as the controller reads them, and the seals
//! that tie an event of one log to an event of the other.
//!
//! The log engines build, sign and store the events; the controller is handed
//! the few plain values its rules depend on. Each type has a view, and every
//! contract in the crate is stated over the views.

use crate::crypto::{blake3_256_identifier, identifier};
use vstd::prelude::*;

verus! {

/// The four events a transaction event log can hold.
#[derive(Clone, Copy, Debug, PartialEq, Eq, Structural)]
pub enum EventKind {
    /// The registry is set up.
    Inception,
    /// The backers of the registry change.
    Rotation,
    /// A credential is issued.
    Issuance,
    /// A credential is revoked.
    Revocation,
}

impl EventKind {
    /// Whether the event belongs to the management log of the registry rather
    /// than to the log of one credential.
    pub open spec fn is_management(self) -> bool {
        self == EventKind::Inception || self == EventKind::Rotation
    }

    /// Whether the event belongs to the management log of the registry.
    pub fn management(&self) -> (yes: bool)
        ensures
            yes == self.is_management(),
    {
        match self {
            EventKind::Inception | EventKind::Rotation => true,
            EventKind::Issuance | EventKind::Revocation => false,
        }
    }
}

/// An event of the transaction event log, built but not yet stored.
#[derive(Debug, PartialEq, Eq)]
pub struct TelEvent {
    pub kind: EventKind,
    /// The identifier of the log it belongs to: the registry for a management
    /// event, the credential for the others.
    pub prefix: String,
    /// Its place in that log.
    pub sn: u64,
    /// The issuer that the event names. The inception of a registry names
    /// the issuer the registry belongs to; of other events this is not read.
    pub issuer: Option<String>,
    /// The bytes its digest is derived from.
    pub content: Vec<u8>,
}

pub struct TelEventView {
    pub kind: EventKind,
    pub prefix: Seq<char>,
    pub sn: u64,
    pub issuer: Option<Seq<char>>,
    pub content: Seq<u8>,
}

impl TelEventView {
    /// The digest of the event.
    pub open spec fn digest(self) -> Seq<char> {
        blake3_256_identifier(self.content)
    }

    /// The seal by which a key event anchors this event.
    pub open spec fn seal(self) -> EventSealView {
        EventSealView { prefix: self.prefix, sn: self.sn, event_digest: self.digest() }
    }
}

impl View for TelEvent {
    type V = TelEventView;

    open spec fn view(&self) -> TelEventView {
        TelEventView {
            kind: self.kind,
            prefix: self.prefix@,
            sn: self.sn,
            issuer: self.issuer.deep_view(),
            content: self.content@,
        }
    }
}

impl DeepView for TelEvent {
    type V = TelEventView;

    open spec fn deep_view(&self) -> TelEventView {
        self@
    }
}

impl Clone for TelEvent {
    fn clone(&self) -> (copy: Self)
        ensures
            copy@ == self@,
    {
        TelEvent {
            kind: self.kind,
            prefix: self.prefix.clone(),
            sn: self.sn,
            issuer: match &self.issuer {
                Some(issuer) => Some(issuer.clone()),
                None => None,
            },
            content: self.content.clone(),
        }
    }
}

impl TelEvent {
    /// The digest of the event.
    pub fn digest(&self) -> (digest: String)
        ensures
            digest@ == self@.digest(),
    {
        identifier(self.content.as_slice())
    }
}

/// A reference to one event of a transaction event log, as a key event
/// carries it.
#[derive(Debug, PartialEq, Eq)]
pub struct EventSeal {
    pub prefix: String,
    pub sn: u64,
    pub event_digest: String,
}

pub struct EventSealView {
    pub prefix: Seq<char>,
    pub sn: u64,
    pub event_digest: Seq<char>,
}

impl View for EventSeal {
    type V = EventSealView;

    open spec fn view(&self) -> EventSealView {
        EventSealView { prefix: self.prefix@, sn: self.sn, event_digest: self.event_digest@ }
    }
}

impl DeepView for EventSeal {
    type V = EventSealView;

    open spec fn deep_view(&self) -> EventSealView {
        self@
    }
}

impl Clone for EventSeal {
    fn clone(&self) -> (copy: Self)
        ensures
            copy@ == self@,
    {
        EventSeal {
            prefix: self.prefix.clone(),
            sn: self.sn,
            event_digest: self.event_digest.clone(),
        }
    }
}

impl EventSeal {
    /// The seal that anchors `event`: the log and place of the event, and the
    /// digest of its content.
    pub fn for_event(event: &TelEvent) -> (seal: EventSeal)
        ensures
            seal@ == event@.seal(),
    {
        EventSeal { prefix: event.prefix.clone(), sn: event.sn, event_digest: event.digest() }
    }

    /// Whether the two seals name the same event.
    pub fn same(&self, other: &EventSeal) -> (yes: bool)
        ensures
            yes == (self@ == other@),
    {
        self.sn == other.sn && self.prefix == other.prefix && self.event_digest
            == other.event_digest
    }
}

/// An interaction event as the key event log committed it.
#[derive(Debug, PartialEq, Eq)]
pub struct Interaction {
    /// Its place in the key event log.
    pub sn: u64,
    /// The bytes its digest is derived from.
    pub content: Vec<u8>,
    /// The seals it carries.
    pub seals: Vec<EventSeal>,
}

pub struct InteractionView {
    pub sn: u64,
    pub content: Seq<u8>,
    pub seals: Seq<EventSealView>,
}

impl InteractionView {
    /// The digest of the event.
    pub open spec fn digest(self) -> Seq<char> {
        blake3_256_identifier(self.content)
    }

    /// The seal by which an event of the transaction log names this event as
    /// its anchor.
    pub open spec fn source_seal(self) -> EventSourceSealView {
        EventSourceSealView { sn: self.sn, digest: self.digest() }
    }
}

impl View for Interaction {
    type V = InteractionView;

    open spec fn view(&self) -> InteractionView {
        InteractionView { sn: self.sn, content: self.content@, seals: self.seals.deep_view() }
    }
}

impl Interaction {
    /// Whether the event carries `seal`.
    pub fn carries(&self, seal: &EventSeal) -> (yes: bool)
        ensures
            yes == self@.seals.contains(seal@),
    {
        let mut i: usize = 0;
        while i < self.seals.len()
            invariant
                i <= self.seals.len(),
                forall|j: int| 0 <= j < i ==> self@.seals[j] != seal@,
            decreases self.seals.len() - i,
        {
            if self.seals[i].same(seal) {
                assert(self@.seals[i as int] == seal@);
                return true;
            }
            i += 1;
        }
        false
    }
}

/// A reference to the key event that anchors an event of the transaction
/// event log: the proof of where the event was anchored.
#[derive(Debug, PartialEq, Eq)]
pub struct EventSourceSeal {
    pub sn: u64,
    pub digest: String,
}

pub struct EventSourceSealView {
    pub sn: u64,
    pub digest: Seq<char>,
}

impl View for EventSourceSeal {
    type V = EventSourceSealView;

    open spec fn view(&self) -> EventSourceSealView {
        EventSourceSealView { sn: self.sn, digest: self.digest@ }
    }
}

impl DeepView for EventSourceSeal {
    type V = EventSourceSealView;

    open spec fn deep_view(&self) -> EventSourceSealView {
        self@
    }
}

impl Clone for EventSourceSeal {
    fn clone(&self) -> (copy: Self)
        ensures
            copy@ == self@,
    {
        EventSourceSeal { sn: self.sn, digest: self.digest.clone() }
    }
}

impl EventSourceSeal {
    /// The source seal of the events that `anchor` anchors: the place of the
    /// interaction event in the key event log and the digest of its content.
    pub fn for_anchor(anchor: &Interaction) -> (seal: EventSourceSeal)
        ensures
            seal@ == anchor@.source_seal(),
    {
        EventSourceSeal { sn: anchor.sn, digest: identifier(anchor.content.as_slice()) }
    }
}

/// An event of the transaction event log together with the seal of its
/// anchor: the unit that the log stores.
#[derive(Debug, PartialEq, Eq)]
pub struct VerifiableEvent {
    pub event: TelEvent,
    pub seal: EventSourceSeal,
}

pub struct VerifiableEventView {
    pub event: TelEventView,
    pub seal: EventSourceSealView,
}

impl View for VerifiableEvent {
    type V = VerifiableEventView;

    open spec fn view(&self) -> VerifiableEventView {
        VerifiableEventView { event: self.event@, seal: self.seal@ }
    }
}

impl DeepView for VerifiableEvent {
    type V = VerifiableEventView;

    open spec fn deep_view(&self) -> VerifiableEventView {
        self@
    }
}

impl Clone for VerifiableEvent {
    fn clone(&self) -> (copy: Self)
        ensures
            copy@ == self@,
    {
        VerifiableEvent { event: self.event.clone(), seal: self.seal.clone() }
    }
}

impl VerifiableEvent {
    /// Pairs an event with the seal of its anchor.
    pub fn new(event: TelEvent, seal: EventSourceSeal) -> (paired: VerifiableEvent)
        ensures
            paired@ == (VerifiableEventView { event: event@, seal: seal@ }),
    {
        VerifiableEvent { event, seal }
    }
}

} // verus!
