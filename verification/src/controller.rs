//! The controller: the one writer of an issuer's key event log and of its
//! credential registry.
//!
//! The controller does no input or output. The log engines and the signing
//! provider stay with the caller, who hands the controller what they
//! returned. A write to the transaction event log takes three calls. The
//! first takes the event that the engine built, checks it against the log and
//! gives the seal to anchor. The second takes the interaction event that the
//! key event log committed for that seal and gives the event paired with its
//! source seal. The third records that the transaction event log stored the
//! pair. So no event is stored, or counted as stored, before its anchor has
//! been committed, and a write whose anchor failed leaves nothing behind.

use crate::crypto::{all_accept, check_keys, digest, Key, KeyView};
use crate::error::Error;
use crate::event::{
    EventKind, EventSeal, EventSourceSeal, Interaction, TelEvent, VerifiableEvent,
};
use crate::kel::{copy_keys, key_state_at, Anchor, KelRecord};
use crate::laws::{
    law_commit_extends_log, lemma_anchored_wf, lemma_begun_wf, lemma_committed_wf, lemma_dropped_wf, lemma_empty_wf,
    lemma_incepted_wf, lemma_interacted_wf, lemma_rotated_wf,
};
use crate::model::{ControllerView, PendingView};
use crate::registry::{Registry, RegistryView};
use crate::tel::{copy_events, credential_log, credential_state, gate, TelState};
use vstd::prelude::*;

verus! {

/// A write that has begun: the record of an event on its way into the
/// transaction event log.
pub struct Pending {
    pub event: TelEvent,
    pub seal: Option<EventSourceSeal>,
    pub registry: Option<Registry>,
}

impl View for Pending {
    type V = PendingView;

    open spec fn view(&self) -> PendingView {
        PendingView {
            event: self.event@,
            seal: self.seal.deep_view(),
            registry: self.registry.deep_view(),
        }
    }
}

impl DeepView for Pending {
    type V = PendingView;

    open spec fn deep_view(&self) -> PendingView {
        self@
    }
}

/// The controller of one issuer and one registry.
pub struct Controller {
    issuer: Option<String>,
    kel: Vec<KelRecord>,
    registry: Option<Registry>,
    management: Vec<VerifiableEvent>,
    credentials: Vec<VerifiableEvent>,
    pending: Option<Pending>,
}

impl View for Controller {
    type V = ControllerView;

    closed spec fn view(&self) -> ControllerView {
        ControllerView {
            issuer: self.issuer.deep_view(),
            kel: self.kel.deep_view(),
            registry: self.registry.deep_view(),
            management: self.management.deep_view(),
            credentials: self.credentials.deep_view(),
            pending: self.pending.deep_view(),
        }
    }
}

impl Controller {
    /// A controller that has seen nothing yet: no identifier, no registry, no
    /// credential.
    pub fn new() -> (controller: Controller)
        ensures
            controller@ == ControllerView::empty(),
            controller@.wf(),
    {
        let controller = Controller {
            issuer: None,
            kel: Vec::new(),
            registry: None,
            management: Vec::new(),
            credentials: Vec::new(),
            pending: None,
        };
        proof {
            lemma_empty_wf();
            assert(controller.kel.deep_view() =~= Seq::empty());
            assert(controller.management.deep_view() =~= Seq::empty());
            assert(controller.credentials.deep_view() =~= Seq::empty());
        }
        controller
    }

    /// A controller for the issuer `prefix`, whose key event log has begun
    /// with `keys`, with the write of the registry's inception `event` under
    /// way. Gives the controller and the seal to anchor. The registry is the
    /// issuer's: the inception has to name `prefix`. Without backers the
    /// registry is set up as one that has none.
    pub fn init(
        prefix: String,
        keys: Vec<Key>,
        backers: Option<Vec<String>>,
        backer_threshold: u64,
        event: TelEvent,
    ) -> (started: Result<(Controller, EventSeal), Error>)
        ensures
            match started {
                Ok((controller, seal)) => {
                    &&& ControllerView::empty().incepted(prefix@, keys.deep_view()).can_incept_tel(
                        event@,
                    )
                    &&& controller@ == ControllerView::empty().incepted(
                        prefix@,
                        keys.deep_view(),
                    ).begun(
                        event@,
                        Some(
                            RegistryView::incepted(
                                event@.prefix,
                                prefix@,
                                backers.deep_view(),
                                backer_threshold,
                            ),
                        ),
                    )
                    &&& controller@.wf()
                    &&& seal@ == event@.seal()
                },
                Err(e) => {
                    &&& !ControllerView::empty().incepted(prefix@, keys.deep_view()).can_incept_tel(
                        event@,
                    )
                    &&& e == Error::InvalidTransition
                },
            },
    {
        let mut controller = Controller::new();
        let incepted = controller.incept_kel(prefix, keys);
        assert(incepted is Ok);
        match controller.incept_tel(backers, backer_threshold, event) {
            Ok(seal) => Ok((controller, seal)),
            Err(e) => Err(e),
        }
    }

    /// Records the inception of the issuer's key event log: the identifier
    /// `prefix` and the keys in force. Refused where the log has begun.
    pub fn incept_kel(&mut self, prefix: String, keys: Vec<Key>) -> (done: Result<(), Error>)
        requires
            old(self)@.wf(),
        ensures
            final(self)@.wf(),
            old(self)@.can_incept_kel() ==> done is Ok && final(self)@ == old(self)@.incepted(
                prefix@,
                keys.deep_view(),
            ),
            !old(self)@.can_incept_kel() ==> done == Err::<(), Error>(Error::AnchorFailed)
                && final(self)@ == old(self)@,
    {
        if self.kel.len() != 0 {
            return Err(Error::AnchorFailed);
        }
        let record = KelRecord { keys, anchor: None };
        let ghost before = self.kel.deep_view();
        let ghost added = record@;
        self.issuer = Some(prefix);
        self.kel.push(record);
        proof {
            assert(self.kel.deep_view() =~= before.push(added));
            lemma_incepted_wf(old(self)@, prefix@, keys.deep_view());
        }
        Ok(())
    }

    /// Records a rotation of the issuer's keys that the key event log
    /// committed at the sequence number `sn`. Refused where the log has not
    /// begun or `sn` is not the next place in it.
    pub fn rotate(&mut self, sn: u64, keys: Vec<Key>) -> (done: Result<(), Error>)
        requires
            old(self)@.wf(),
        ensures
            final(self)@.wf(),
            old(self)@.can_rotate(sn) ==> done is Ok && final(self)@ == old(self)@.rotated(
                keys.deep_view(),
            ),
            !old(self)@.can_rotate(sn) ==> done == Err::<(), Error>(Error::AnchorFailed)
                && final(self)@ == old(self)@,
    {
        if self.kel.len() == 0 || sn != self.kel.len() as u64 {
            return Err(Error::AnchorFailed);
        }
        let record = KelRecord { keys, anchor: None };
        let ghost before = self.kel.deep_view();
        let ghost added = record@;
        self.kel.push(record);
        proof {
            assert(self.kel.deep_view() =~= before.push(added));
            lemma_rotated_wf(old(self)@, sn, keys.deep_view());
        }
        Ok(())
    }

    /// Records an interaction event that the key event log committed and that
    /// anchors nothing this controller stores, such as the anchor of a write
    /// that was given up. Refused where the log has not begun or the event
    /// is not the next of it.
    pub fn interact(&mut self, anchor: &Interaction) -> (done: Result<(), Error>)
        requires
            old(self)@.wf(),
        ensures
            final(self)@.wf(),
            old(self)@.can_interact(anchor@.sn) ==> done is Ok && final(self)@ == old(
                self,
            )@.interacted(),
            !old(self)@.can_interact(anchor@.sn) ==> done == Err::<(), Error>(Error::AnchorFailed)
                && final(self)@ == old(self)@,
    {
        if self.kel.len() == 0 || anchor.sn != self.kel.len() as u64 {
            return Err(Error::AnchorFailed);
        }
        let keys = copy_keys(&self.kel[self.kel.len() - 1].keys);
        let record = KelRecord { keys, anchor: None };
        let ghost before = self.kel.deep_view();
        let ghost added = record@;
        self.kel.push(record);
        proof {
            assert(self.kel.deep_view() =~= before.push(added));
            assert(before.last() == old(self).kel[old(self).kel.len() - 1]@);
            lemma_interacted_wf(old(self)@, anchor@.sn);
        }
        Ok(())
    }

    /// Begins the write of the registry's inception `event`, for a registry
    /// with the given backers and threshold, and gives the seal to anchor.
    /// Without backers the registry is set up as one that has none. Refused,
    /// with nothing changed, where a write is under way, the issuer is not
    /// known, the registry exists, or the event is no inception at the start
    /// of its log that names this issuer.
    pub fn incept_tel(
        &mut self,
        backers: Option<Vec<String>>,
        backer_threshold: u64,
        event: TelEvent,
    ) -> (seal: Result<EventSeal, Error>)
        requires
            old(self)@.wf(),
        ensures
            final(self)@.wf(),
            match seal {
                Ok(seal) => {
                    &&& old(self)@.can_incept_tel(event@)
                    &&& seal@ == event@.seal()
                    &&& final(self)@ == old(self)@.begun(
                        event@,
                        Some(
                            RegistryView::incepted(
                                event@.prefix,
                                old(self)@.issuer->0,
                                backers.deep_view(),
                                backer_threshold,
                            ),
                        ),
                    )
                },
                Err(e) => {
                    &&& !old(self)@.can_incept_tel(event@)
                    &&& e == Error::InvalidTransition
                    &&& final(self)@ == old(self)@
                },
            },
    {
        if self.pending.is_some() || self.registry.is_some() || event.kind != EventKind::Inception
            || event.sn != 0 {
            return Err(Error::InvalidTransition);
        }
        let issuer = match (&self.issuer, &event.issuer) {
            (Some(issuer), Some(named)) => {
                if !(*issuer == *named) {
                    return Err(Error::InvalidTransition);
                }
                issuer.clone()
            },
            _ => {
                return Err(Error::InvalidTransition);
            },
        };
        let registry = Registry::incept(event.prefix.clone(), issuer, backers, backer_threshold);
        Ok(self.begin(event, Some(registry)))
    }

    /// Begins the write of `event`, the rotation of the registry's backers by
    /// `ba`, which come, and `br`, which go, and gives the seal to anchor.
    /// Refused, with nothing changed, where a write is under way, there is no
    /// registry or one without backers, an identifier is in both lists, or
    /// the event is not the next rotation of the management log.
    pub fn update_backers(&mut self, ba: &[String], br: &[String], event: TelEvent) -> (seal:
        Result<EventSeal, Error>)
        requires
            old(self)@.wf(),
        ensures
            final(self)@.wf(),
            match seal {
                Ok(seal) => {
                    &&& old(self)@.can_update_backers(ba.deep_view(), br.deep_view(), event@)
                    &&& seal@ == event@.seal()
                    &&& final(self)@ == old(self)@.begun(
                        event@,
                        Some(old(self)@.registry->0.rotated(ba.deep_view(), br.deep_view())),
                    )
                },
                Err(e) => {
                    &&& !old(self)@.can_update_backers(ba.deep_view(), br.deep_view(), event@)
                    &&& e == Error::InvalidTransition
                    &&& final(self)@ == old(self)@
                },
            },
    {
        if self.pending.is_some() || event.kind != EventKind::Rotation {
            return Err(Error::InvalidTransition);
        }
        let next = match &self.registry {
            Some(registry) => {
                if event.prefix == registry.id && registry.sn < u64::MAX && event.sn == registry.sn
                    + 1 {
                    registry.rotate(ba, br)
                } else {
                    None
                }
            },
            None => None,
        };
        match next {
            Some(registry) => Ok(self.begin(event, Some(registry))),
            None => Err(Error::InvalidTransition),
        }
    }

    /// Begins the issuance of the credential `message` with `event`, and
    /// gives the seal to anchor. Refused, with nothing changed, where a write
    /// is under way, there is no registry, the credential has an event
    /// already, or the event is no issuance of this credential at the start
    /// of its log.
    pub fn issue(&mut self, message: &str, event: TelEvent) -> (seal: Result<EventSeal, Error>)
        requires
            old(self)@.wf(),
        ensures
            final(self)@.wf(),
            match seal {
                Ok(seal) => {
                    &&& old(self)@.can_issue(message@, event@)
                    &&& seal@ == event@.seal()
                    &&& final(self)@ == old(self)@.begun(event@, None)
                },
                Err(e) => {
                    &&& !old(self)@.can_issue(message@, event@)
                    &&& e == Error::InvalidTransition
                    &&& final(self)@ == old(self)@
                },
            },
    {
        let id = digest(message);
        if !(event.prefix == id) {
            return Err(Error::InvalidTransition);
        }
        self.issue_credential(event)
    }

    /// Begins the issuance of the credential that `event` belongs to, and
    /// gives the seal to anchor. Refused, with nothing changed, where a write
    /// is under way, there is no registry, the credential has an event
    /// already, or the event is no issuance at the start of its log.
    pub fn issue_credential(&mut self, event: TelEvent) -> (seal: Result<EventSeal, Error>)
        requires
            old(self)@.wf(),
        ensures
            final(self)@.wf(),
            match seal {
                Ok(seal) => {
                    &&& old(self)@.can_issue_credential(event@)
                    &&& seal@ == event@.seal()
                    &&& final(self)@ == old(self)@.begun(event@, None)
                },
                Err(e) => {
                    &&& !old(self)@.can_issue_credential(event@)
                    &&& e == Error::InvalidTransition
                    &&& final(self)@ == old(self)@
                },
            },
    {
        if self.pending.is_some() || self.registry.is_none() || event.kind != EventKind::Issuance
            || event.sn != 0 {
            return Err(Error::InvalidTransition);
        }
        match credential_state(&self.credentials, &event.prefix) {
            TelState::NotIssued => Ok(self.begin(event, None)),
            _ => Err(Error::InvalidTransition),
        }
    }

    /// Begins the revocation of the credential `message` with `event`, and
    /// gives the seal to anchor. Refused, with nothing changed, where a write
    /// is under way, there is no registry, the credential is not issued or is
    /// revoked already, or the event is no revocation of this credential
    /// right after its issuance.
    pub fn revoke(&mut self, message: &str, event: TelEvent) -> (seal: Result<EventSeal, Error>)
        requires
            old(self)@.wf(),
        ensures
            final(self)@.wf(),
            match seal {
                Ok(seal) => {
                    &&& old(self)@.can_revoke(message@, event@)
                    &&& seal@ == event@.seal()
                    &&& final(self)@ == old(self)@.begun(event@, None)
                },
                Err(e) => {
                    &&& !old(self)@.can_revoke(message@, event@)
                    &&& e == Error::InvalidTransition
                    &&& final(self)@ == old(self)@
                },
            },
    {
        let id = digest(message);
        if !(event.prefix == id) {
            return Err(Error::InvalidTransition);
        }
        self.revoke_credential(event)
    }

    /// Begins the revocation of the credential that `event` belongs to, and
    /// gives the seal to anchor. Refused, with nothing changed, where a write
    /// is under way, there is no registry, the credential is not issued or is
    /// revoked already, or the event is no revocation right after the
    /// issuance.
    pub fn revoke_credential(&mut self, event: TelEvent) -> (seal: Result<EventSeal, Error>)
        requires
            old(self)@.wf(),
        ensures
            final(self)@.wf(),
            match seal {
                Ok(seal) => {
                    &&& old(self)@.can_revoke_credential(event@)
                    &&& seal@ == event@.seal()
                    &&& final(self)@ == old(self)@.begun(event@, None)
                },
                Err(e) => {
                    &&& !old(self)@.can_revoke_credential(event@)
                    &&& e == Error::InvalidTransition
                    &&& final(self)@ == old(self)@
                },
            },
    {
        if self.pending.is_some() || self.registry.is_none() || event.kind != EventKind::Revocation
            || event.sn != 1 {
            return Err(Error::InvalidTransition);
        }
        match credential_state(&self.credentials, &event.prefix) {
            TelState::Issued(_) => Ok(self.begin(event, None)),
            _ => Err(Error::InvalidTransition),
        }
    }

    /// Puts the write of `event` under way and gives its seal.
    fn begin(&mut self, event: TelEvent, registry: Option<Registry>) -> (seal: EventSeal)
        requires
            old(self)@.wf(),
            old(self)@.pending is None,
            old(self)@.fits(
                PendingView { event: event@, seal: None, registry: registry.deep_view() },
            ),
        ensures
            final(self)@.wf(),
            final(self)@ == old(self)@.begun(event@, registry.deep_view()),
            seal@ == event@.seal(),
    {
        let seal = EventSeal::for_event(&event);
        proof {
            lemma_begun_wf(old(self)@, event@, registry.deep_view());
        }
        self.pending = Some(Pending { event, seal: None, registry });
        seal
    }

    /// Takes the answer of the key event log to the seal of the write under
    /// way: the interaction event it committed, or nothing where it refused.
    /// Where the event is the next of the key event log and carries the seal,
    /// it is recorded, under the keys in force, and the event to be stored is
    /// given, paired with its source seal. Otherwise the anchor failed: a
    /// write that waited for its anchor is over, and nothing else changes.
    pub fn anchor(&mut self, reply: Option<Interaction>) -> (paired: Result<VerifiableEvent, Error>)
        requires
            old(self)@.wf(),
        ensures
            final(self)@.wf(),
            match paired {
                Ok(paired) => {
                    &&& reply matches Some(anchor) && old(self)@.accepts_anchor(anchor@)
                        && final(self)@ == old(self)@.anchored(anchor@)
                    &&& paired@ == final(self)@.pending->0.verifiable()
                },
                Err(e) => {
                    &&& !(reply matches Some(anchor) && old(self)@.accepts_anchor(anchor@))
                    &&& e == Error::AnchorFailed
                    &&& final(self)@ == old(self)@.anchor_refused()
                },
            },
    {
        let waiting = match &self.pending {
            Some(pending) => pending.seal.is_none(),
            None => false,
        };
        if !waiting {
            return Err(Error::AnchorFailed);
        }
        proof {
            lemma_dropped_wf(old(self)@);
        }
        let pending = self.pending.take().unwrap();
        let anchor = match reply {
            Some(anchor) => anchor,
            None => {
                return Err(Error::AnchorFailed);
            },
        };
        let seal = EventSeal::for_event(&pending.event);
        if self.kel.len() == 0 || anchor.sn != self.kel.len() as u64 || !anchor.carries(&seal) {
            return Err(Error::AnchorFailed);
        }
        let source = EventSourceSeal::for_anchor(&anchor);
        let keys = copy_keys(&self.kel[self.kel.len() - 1].keys);
        let record = KelRecord {
            keys,
            anchor: Some(Anchor { digest: source.digest.clone(), event_digest: seal.event_digest }),
        };
        let paired = VerifiableEvent::new(pending.event.clone(), source.clone());
        let ghost before = self.kel.deep_view();
        let ghost added = record@;
        self.kel.push(record);
        self.pending = Some(
            Pending { event: pending.event, seal: Some(source), registry: pending.registry },
        );
        proof {
            assert(self.kel.deep_view() =~= before.push(added));
            assert(before.last() == old(self).kel[old(self).kel.len() - 1]@);
            lemma_anchored_wf(old(self)@, anchor@);
        }
        Ok(paired)
    }

    /// Takes the answer of the transaction event log to the anchored event:
    /// whether it stored it. A stored event is the last of its log from now
    /// on, which is one event longer for it, and the write is over. Refused, with nothing changed, where no
    /// anchored write is under way or the log did not store the event; the
    /// anchored event stays under way and can be submitted again.
    pub fn submit(&mut self, accepted: bool) -> (done: Result<(), Error>)
        requires
            old(self)@.wf(),
        ensures
            final(self)@.wf(),
            accepted && old(self)@.awaits_submission() ==> done is Ok && final(self)@ == old(
                self,
            )@.committed(),
            !(accepted && old(self)@.awaits_submission()) ==> done == Err::<(), Error>(
                Error::InvalidTransition,
            ) && final(self)@ == old(self)@,
            done is Ok && !old(self)@.pending->0.event.kind.is_management() ==> final(self)@.log(
                old(self)@.pending->0.event.prefix,
            ) == old(self)@.log(old(self)@.pending->0.event.prefix).push(
                old(self)@.pending->0.verifiable(),
            ),
    {
        let anchored = match &self.pending {
            Some(pending) => pending.seal.is_some(),
            None => false,
        };
        if !accepted || !anchored {
            return Err(Error::InvalidTransition);
        }
        proof {
            lemma_committed_wf(old(self)@);
            if !old(self)@.pending->0.event.kind.is_management() {
                law_commit_extends_log(old(self)@, old(self)@.pending->0.event.prefix);
            }
        }
        let pending = self.pending.take().unwrap();
        let stored = VerifiableEvent::new(pending.event, pending.seal.unwrap());
        let ghost added = stored@;
        if stored.event.kind.management() {
            let ghost before = self.management.deep_view();
            self.management.push(stored);
            self.registry = pending.registry;
            assert(self.management.deep_view() =~= before.push(added));
        } else {
            let ghost before = self.credentials.deep_view();
            self.credentials.push(stored);
            assert(self.credentials.deep_view() =~= before.push(added));
        }
        Ok(())
    }

    /// Gives up the write under way, if there is one. An anchor that the key
    /// event log committed for it stays in that log.
    pub fn abandon(&mut self)
        requires
            old(self)@.wf(),
        ensures
            final(self)@.wf(),
            final(self)@ == old(self)@.abandoned(),
    {
        proof {
            lemma_dropped_wf(old(self)@);
        }
        self.pending = None;
    }

    /// The state of the credential with the identifier `hash`.
    pub fn get_vc_state(&self, hash: &String) -> (state: Result<TelState, Error>)
        ensures
            state matches Ok(found) && found@ == self@.state(hash@),
    {
        Ok(credential_state(&self.credentials, hash))
    }

    /// The log of the credential with the identifier `hash`, oldest event
    /// first.
    pub fn get_tel(&self, hash: &String) -> (log: Result<Vec<VerifiableEvent>, Error>)
        ensures
            log matches Ok(found) && found.deep_view() == self@.log(hash@),
    {
        Ok(credential_log(&self.credentials, hash))
    }

    /// The keys that signed for the credential with the identifier
    /// `message_hash`: those in force at the anchor of its last event. Fails
    /// where the credential has no event, where the key event log has none,
    /// and where the anchor cannot be found in the key event log.
    pub fn get_pub_key(&self, message_hash: String) -> (keys: Result<Vec<Key>, Error>)
        ensures
            match keys {
                Ok(found) => self@.signing_keys(message_hash@) == Ok::<Seq<KeyView>, Error>(
                    found.deep_view(),
                ),
                Err(e) => self@.signing_keys(message_hash@) == Err::<Seq<KeyView>, Error>(e),
            },
    {
        let log = credential_log(&self.credentials, &message_hash);
        if log.len() == 0 {
            return Err(Error::NoSuchCredential);
        }
        let last = &log[log.len() - 1];
        assert(log.deep_view().last() == last@);
        key_state_at(&self.kel, &last.seal)
    }

    /// Verifies `signature` over the credential `message`. A credential that
    /// was never issued or was revoked is refused. For an issued one the
    /// answer is whether every key that was in force at the anchor of the
    /// issuance accepts the signature.
    pub fn verify(&self, message: &str, signature: &[u8]) -> (valid: Result<bool, Error>)
        ensures
            valid == self@.verification(message@, signature@),
    {
        let id = digest(message);
        let state = credential_state(&self.credentials, &id);
        match gate(&state) {
            Ok(()) => {},
            Err(e) => {
                return Err(e);
            },
        }
        match self.get_pub_key(id) {
            Ok(keys) => {
                let verdicts = check_keys(&keys, message.as_bytes(), signature);
                Ok(all_accept(&verdicts))
            },
            Err(e) => Err(e),
        }
    }

    /// The identifier of the issuer, once its key event log has begun.
    pub fn issuer(&self) -> (issuer: Option<String>)
        ensures
            issuer.deep_view() == self@.issuer,
    {
        match &self.issuer {
            Some(prefix) => Some(prefix.clone()),
            None => None,
        }
    }

    /// The state of the registry, once its inception is stored.
    pub fn registry(&self) -> (registry: Option<Registry>)
        ensures
            registry.deep_view() == self@.registry,
    {
        match &self.registry {
            Some(registry) => Some(registry.clone()),
            None => None,
        }
    }

    /// The management log of the registry, once it has an event.
    pub fn management_log(&self) -> (log: Option<Vec<VerifiableEvent>>)
        ensures
            log is Some <==> self@.management.len() > 0,
            log matches Some(found) ==> found.deep_view() == self@.management,
    {
        if self.management.len() == 0 {
            None
        } else {
            Some(copy_events(&self.management))
        }
    }

    /// The anchored event that waits to be stored, if there is one.
    pub fn pending_event(&self) -> (paired: Option<VerifiableEvent>)
        ensures
            paired is Some <==> self@.awaits_submission(),
            paired matches Some(found) ==> found@ == self@.pending->0.verifiable(),
    {
        match &self.pending {
            Some(pending) => match &pending.seal {
                Some(seal) => Some(VerifiableEvent::new(pending.event.clone(), seal.clone())),
                None => None,
            },
            None => None,
        }
    }
}

} // verus!
