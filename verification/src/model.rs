//! What a controller is, as a mathematical value: the two logs as it knows
//! them, the write it has under way, and what each operation makes of them.
//!
//! The executable controller is stated against this model, and the laws of
//! the crate are proved of it.

use crate::crypto::{credential_id, keys_accept, KeyView};
use crate::error::Error;
use crate::event::{
    EventKind, EventSourceSealView, InteractionView, TelEventView, VerifiableEventView,
};
use crate::kel::{anchors, resolve, AnchorView, KelRecordView};
use crate::registry::RegistryView;
use crate::tel::{admits, fold_state, log_of, rank, TelStateView};
use vstd::prelude::*;

verus! {

/// A write to the transaction event log that has begun and is not yet stored.
pub struct PendingView {
    /// The event to be stored.
    pub event: TelEventView,
    /// The seal of its anchor, once the key event log has committed one.
    pub seal: Option<EventSourceSealView>,
    /// The state of the registry once the event is stored, for a management
    /// event.
    pub registry: Option<RegistryView>,
}

impl PendingView {
    /// The event together with the seal of its anchor.
    pub open spec fn verifiable(self) -> VerifiableEventView {
        VerifiableEventView { event: self.event, seal: self.seal->0 }
    }
}

pub struct ControllerView {
    /// The identifier of the issuer, once its key event log has begun.
    pub issuer: Option<Seq<char>>,
    /// The key event log; an event's place is its sequence number.
    pub kel: Seq<KelRecordView>,
    /// The state of the registry, once its inception is stored.
    pub registry: Option<RegistryView>,
    /// The management log of the registry.
    pub management: Seq<VerifiableEventView>,
    /// The events of all credentials, in the order in which they were stored.
    pub credentials: Seq<VerifiableEventView>,
    /// The write under way, if there is one.
    pub pending: Option<PendingView>,
}

/// Whether a log has exactly the events that bring a credential to the state
/// it folds to: nothing, an issuance, or an issuance and a revocation.
pub open spec fn shaped(log: Seq<VerifiableEventView>) -> bool {
    log.len() == rank(fold_state(log))
}

impl ControllerView {
    /// A controller that has seen nothing yet.
    pub open spec fn empty() -> ControllerView {
        ControllerView {
            issuer: None,
            kel: Seq::empty(),
            registry: None,
            management: Seq::empty(),
            credentials: Seq::empty(),
            pending: None,
        }
    }

    /// The log of the credential `id`.
    pub open spec fn log(self, id: Seq<char>) -> Seq<VerifiableEventView> {
        log_of(self.credentials, id)
    }

    /// The state of the credential `id`.
    pub open spec fn state(self, id: Seq<char>) -> TelStateView {
        fold_state(self.log(id))
    }

    /// Whether the write under way fits the logs. A management event takes
    /// the next place in the management log and comes with the state of the
    /// registry that it leads to, a registry of this issuer. A credential event moves its credential on
    /// and takes the next place in the log of that credential. An anchor
    /// that was taken is in the key event log.
    pub open spec fn fits(self, pending: PendingView) -> bool {
        &&& if pending.event.kind.is_management() {
            &&& pending.registry matches Some(registry) && registry.sn == pending.event.sn
                && self.issuer == Some(registry.issuer)
            &&& pending.event.sn == self.management.len()
        } else {
            &&& pending.registry is None
            &&& admits(self.state(pending.event.prefix), pending.event)
            &&& pending.event.sn == self.log(pending.event.prefix).len()
        }
        &&& pending.seal is Some ==> anchors(self.kel, pending.verifiable())
    }

    /// The invariant of a controller. The issuer is known exactly when its key
    /// event log has begun, and the registry exactly when its management log
    /// has, whose last place the registry then holds; the registry is one of
    /// this issuer. Every stored event is
    /// anchored: the key event that its source seal names exists and seals the
    /// digest of the event. In every log the sequence numbers count up from
    /// zero without a gap. Every credential log has the shape of its state.
    /// The write under way fits.
    pub open spec fn wf(self) -> bool {
        &&& self.issuer is Some <==> self.kel.len() > 0
        &&& self.registry is Some <==> self.management.len() > 0
        &&& self.registry matches Some(registry) ==> registry.sn + 1 == self.management.len()
            && self.issuer == Some(registry.issuer)
        &&& forall|i: int|
            0 <= i < self.management.len() ==> anchors(self.kel, #[trigger] self.management[i])
        &&& forall|i: int|
            0 <= i < self.credentials.len() ==> anchors(self.kel, #[trigger] self.credentials[i])
        &&& forall|i: int|
            0 <= i < self.management.len() ==> (#[trigger] self.management[i]).event.sn == i
        &&& forall|id: Seq<char>, k: int|
            0 <= k < log_of(self.credentials, id).len() ==> (#[trigger] log_of(
                self.credentials,
                id,
            )[k]).event.sn == k
        &&& forall|id: Seq<char>| shaped(#[trigger] log_of(self.credentials, id))
        &&& self.pending matches Some(pending) ==> self.fits(pending)
    }

    /// Whether an interaction event with the sequence number `sn` extends the
    /// key event log: the log has begun and `sn` is the next place in it.
    pub open spec fn can_interact(self, sn: u64) -> bool {
        self.kel.len() > 0 && sn == self.kel.len()
    }

    /// The controller after an interaction event that anchors nothing it
    /// stores: the event is in the key event log, under the keys that were
    /// in force before it.
    pub open spec fn interacted(self) -> ControllerView {
        ControllerView {
            kel: self.kel.push(KelRecordView { keys: self.kel.last().keys, anchor: None }),
            ..self
        }
    }

    /// Whether the key event log can begin.
    pub open spec fn can_incept_kel(self) -> bool {
        self.kel.len() == 0
    }

    /// The controller after the inception of the key event log of `prefix`
    /// with `keys`.
    pub open spec fn incepted(self, prefix: Seq<char>, keys: Seq<KeyView>) -> ControllerView {
        ControllerView {
            issuer: Some(prefix),
            kel: self.kel.push(KelRecordView { keys, anchor: None }),
            ..self
        }
    }

    /// Whether a rotation with the sequence number `sn` extends the key event
    /// log: the log has begun and `sn` is the next place in it.
    pub open spec fn can_rotate(self, sn: u64) -> bool {
        self.kel.len() > 0 && sn == self.kel.len()
    }

    /// The controller after a rotation to `keys`.
    pub open spec fn rotated(self, keys: Seq<KeyView>) -> ControllerView {
        ControllerView { kel: self.kel.push(KelRecordView { keys, anchor: None }), ..self }
    }

    /// Whether `event` can begin the registry: no write is under way, the
    /// issuer is known, there is no registry yet, and the event is an
    /// inception at the start of its log that names this issuer.
    pub open spec fn can_incept_tel(self, event: TelEventView) -> bool {
        &&& self.pending is None
        &&& self.issuer is Some
        &&& event.issuer == self.issuer
        &&& self.registry is None
        &&& event.kind == EventKind::Inception
        &&& event.sn == 0
    }

    /// Whether `event` can change the backers by `added` and `removed`: no
    /// write is under way, the registry can rotate so, and the event is the
    /// next rotation of its management log.
    pub open spec fn can_update_backers(
        self,
        added: Seq<Seq<char>>,
        removed: Seq<Seq<char>>,
        event: TelEventView,
    ) -> bool {
        &&& self.pending is None
        &&& self.registry matches Some(registry) && registry.can_rotate(added, removed)
            && event.prefix == registry.id && event.sn == registry.sn + 1
        &&& event.kind == EventKind::Rotation
    }

    /// Whether `event` can issue the credential it belongs to: no write is
    /// under way, there is a registry, the credential was never issued, and
    /// the event is an issuance at the start of the log of that credential.
    pub open spec fn can_issue_credential(self, event: TelEventView) -> bool {
        &&& self.pending is None
        &&& self.registry is Some
        &&& event.kind == EventKind::Issuance
        &&& event.sn == 0
        &&& self.state(event.prefix) is NotIssued
    }

    /// Whether `event` can issue the credential `message`: it can issue its
    /// credential, and that is the one with this text.
    pub open spec fn can_issue(self, message: Seq<char>, event: TelEventView) -> bool {
        event.prefix == credential_id(message) && self.can_issue_credential(event)
    }

    /// Whether `event` can revoke the credential it belongs to: no write is
    /// under way, there is a registry, the credential is issued and not
    /// revoked, and the event is a revocation right after the issuance.
    pub open spec fn can_revoke_credential(self, event: TelEventView) -> bool {
        &&& self.pending is None
        &&& self.registry is Some
        &&& event.kind == EventKind::Revocation
        &&& event.sn == 1
        &&& self.state(event.prefix) is Issued
    }

    /// Whether `event` can revoke the credential `message`: it can revoke its
    /// credential, and that is the one with this text.
    pub open spec fn can_revoke(self, message: Seq<char>, event: TelEventView) -> bool {
        event.prefix == credential_id(message) && self.can_revoke_credential(event)
    }

    /// The controller with the write of `event` under way.
    pub open spec fn begun(self, event: TelEventView, registry: Option<RegistryView>) -> ControllerView {
        ControllerView { pending: Some(PendingView { event, seal: None, registry }), ..self }
    }

    /// Whether a write waits for its anchor.
    pub open spec fn awaits_anchor(self) -> bool {
        self.pending matches Some(pending) && pending.seal is None
    }

    /// Whether `anchor` anchors the write under way: a write waits for its
    /// anchor, the interaction event is the next event of a key event log
    /// that has begun, and it carries the seal of the event to be stored.
    pub open spec fn accepts_anchor(self, anchor: InteractionView) -> bool {
        &&& self.awaits_anchor()
        &&& self.kel.len() > 0
        &&& anchor.sn == self.kel.len()
        &&& anchor.seals.contains(self.pending->0.event.seal())
    }

    /// The controller after `anchor` anchored the write under way: the
    /// interaction event is in the key event log, under the keys that were in
    /// force before it, and the write holds its source seal.
    pub open spec fn anchored(self, anchor: InteractionView) -> ControllerView {
        let pending = self.pending->0;
        ControllerView {
            kel: self.kel.push(
                KelRecordView {
                    keys: self.kel.last().keys,
                    anchor: Some(
                        AnchorView {
                            digest: anchor.digest(),
                            event_digest: pending.event.digest(),
                        },
                    ),
                },
            ),
            pending: Some(PendingView { seal: Some(anchor.source_seal()), ..pending }),
            ..self
        }
    }

    /// The controller after an anchor was refused: a write that waited for
    /// its anchor is over, and nothing else has changed.
    pub open spec fn anchor_refused(self) -> ControllerView {
        if self.awaits_anchor() {
            ControllerView { pending: None, ..self }
        } else {
            self
        }
    }

    /// Whether a write is anchored and waits to be stored.
    pub open spec fn awaits_submission(self) -> bool {
        self.pending matches Some(pending) && pending.seal is Some
    }

    /// The controller after the write under way was stored: the event is the
    /// last of its log, a management event has brought the registry to its
    /// new state, and no write is under way.
    pub open spec fn committed(self) -> ControllerView {
        let pending = self.pending->0;
        if pending.event.kind.is_management() {
            ControllerView {
                management: self.management.push(pending.verifiable()),
                registry: pending.registry,
                pending: None,
                ..self
            }
        } else {
            ControllerView {
                credentials: self.credentials.push(pending.verifiable()),
                pending: None,
                ..self
            }
        }
    }

    /// The controller with no write under way.
    pub open spec fn abandoned(self) -> ControllerView {
        ControllerView { pending: None, ..self }
    }

    /// The keys under which the last event of the credential `id` was
    /// anchored.
    pub open spec fn signing_keys(self, id: Seq<char>) -> Result<Seq<KeyView>, Error> {
        let log = self.log(id);
        if log.len() == 0 {
            Err(Error::NoSuchCredential)
        } else {
            resolve(self.kel, log.last().seal)
        }
    }

    /// What the verification of `signature` over the credential `message`
    /// comes to. A credential that was never issued or was revoked is
    /// refused; for an issued one, every key under which the issuance was
    /// anchored has to accept the signature.
    pub open spec fn verification(self, message: Seq<char>, signature: Seq<u8>) -> Result<
        bool,
        Error,
    > {
        let id = credential_id(message);
        match self.state(id) {
            TelStateView::NotIssued => Err(Error::NotYetIssued),
            TelStateView::Revoked => Err(Error::CredentialRevoked),
            TelStateView::Issued(_) => match self.signing_keys(id) {
                Ok(keys) => Ok(keys_accept(keys, vstd::utf8::encode_utf8(message), signature)),
                Err(e) => Err(e),
            },
        }
    }
}

} // verus!
