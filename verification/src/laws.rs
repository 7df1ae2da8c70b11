//! What holds of every controller: that each operation keeps the invariant,
//! and what verification answers before an issuance, after one, after a
//! revocation and after a rotation of the issuer's keys.

use crate::crypto::{credential_id, keys_accept, KeyView};
use crate::error::Error;
use crate::event::{InteractionView, TelEventView, VerifiableEventView};
use crate::kel::{anchors, lemma_anchor_stays, KelRecordView};
use crate::model::{shaped, ControllerView, PendingView};
use crate::registry::RegistryView;
use crate::tel::{lemma_fold_push, lemma_log_push, log_of};
use vstd::prelude::*;

verus! {

/// Where every stored event is anchored, so is every event of each
/// credential's log.
pub proof fn lemma_log_anchored(
    kel: Seq<KelRecordView>,
    events: Seq<VerifiableEventView>,
    id: Seq<char>,
)
    requires
        forall|i: int| 0 <= i < events.len() ==> anchors(kel, #[trigger] events[i]),
    ensures
        forall|k: int|
            0 <= k < log_of(events, id).len() ==> anchors(kel, #[trigger] log_of(events, id)[k]),
    decreases events.len(),
{
    if events.len() > 0 {
        let rest = events.drop_last();
        assert forall|i: int| 0 <= i < rest.len() implies anchors(kel, #[trigger] rest[i]) by {
            assert(rest[i] == events[i]);
        }
        lemma_log_anchored(kel, rest, id);
        assert(anchors(kel, events[events.len() - 1]));
        let log = log_of(events, id);
        let inner = log_of(rest, id);
        assert forall|k: int| 0 <= k < log.len() implies anchors(kel, #[trigger] log[k]) by {
            if k < inner.len() {
                assert(log[k] == inner[k]);
            } else {
                assert(log[k] == events.last());
            }
        }
    }
}

/// An event added to the key event log leaves the anchors of all stored
/// events where they were.
proof fn lemma_anchors_stay(
    kel: Seq<KelRecordView>,
    record: KelRecordView,
    events: Seq<VerifiableEventView>,
)
    requires
        forall|i: int| 0 <= i < events.len() ==> anchors(kel, #[trigger] events[i]),
    ensures
        forall|i: int| 0 <= i < events.len() ==> anchors(kel.push(record), #[trigger] events[i]),
{
    assert forall|i: int| 0 <= i < events.len() implies anchors(
        kel.push(record),
        #[trigger] events[i],
    ) by {
        lemma_anchor_stays(kel, record, events[i]);
    }
}

/// A controller that has seen nothing is well formed.
pub proof fn lemma_empty_wf()
    ensures
        ControllerView::empty().wf(),
{
    assert forall|id: Seq<char>| shaped(#[trigger] log_of(Seq::empty(), id)) by {}
}

/// An event added to the key event log keeps the invariant, whatever the
/// event is, as long as the issuer is known afterwards and is the one it
/// was.
proof fn lemma_kel_grows(c: ControllerView, next: ControllerView, record: KelRecordView)
    requires
        c.wf(),
        next == (ControllerView { kel: c.kel.push(record), issuer: next.issuer, ..c }),
        next.issuer is Some,
        c.issuer is Some ==> next.issuer == c.issuer,
    ensures
        next.wf(),
{
    lemma_anchors_stay(c.kel, record, c.management);
    lemma_anchors_stay(c.kel, record, c.credentials);
    if let Some(pending) = c.pending {
        if pending.seal is Some {
            lemma_anchor_stays(c.kel, record, pending.verifiable());
        }
    }
}

/// The inception of the key event log keeps the invariant.
pub proof fn lemma_incepted_wf(c: ControllerView, prefix: Seq<char>, keys: Seq<KeyView>)
    requires
        c.wf(),
        c.can_incept_kel(),
    ensures
        c.incepted(prefix, keys).wf(),
{
    lemma_kel_grows(c, c.incepted(prefix, keys), KelRecordView { keys, anchor: None });
}

/// A rotation of the issuer's keys keeps the invariant.
pub proof fn lemma_rotated_wf(c: ControllerView, sn: u64, keys: Seq<KeyView>)
    requires
        c.wf(),
        c.can_rotate(sn),
    ensures
        c.rotated(keys).wf(),
{
    lemma_kel_grows(c, c.rotated(keys), KelRecordView { keys, anchor: None });
}

/// An interaction event that anchors nothing the controller stores keeps the
/// invariant.
pub proof fn lemma_interacted_wf(c: ControllerView, sn: u64)
    requires
        c.wf(),
        c.can_interact(sn),
    ensures
        c.interacted().wf(),
{
    lemma_kel_grows(c, c.interacted(), c.interacted().kel.last());
}

/// The registry of a well formed controller belongs to its issuer: the
/// issuer that the inception of the registry named is the identifier of the
/// key event log.
pub proof fn law_registry_is_the_issuers(c: ControllerView)
    requires
        c.wf(),
    ensures
        c.registry matches Some(registry) ==> c.issuer == Some(registry.issuer),
{
}

/// A write that begins on an idle controller keeps the invariant, where it
/// fits the logs.
pub proof fn lemma_begun_wf(c: ControllerView, event: TelEventView, registry: Option<RegistryView>)
    requires
        c.wf(),
        c.pending is None,
        c.fits(PendingView { event, seal: None, registry }),
    ensures
        c.begun(event, registry).wf(),
{
}

/// An accepted anchor keeps the invariant.
pub proof fn lemma_anchored_wf(c: ControllerView, anchor: InteractionView)
    requires
        c.wf(),
        c.accepts_anchor(anchor),
    ensures
        c.anchored(anchor).wf(),
{
    let next = c.anchored(anchor);
    let record = next.kel.last();
    assert(next.kel == c.kel.push(record));
    lemma_anchors_stay(c.kel, record, c.management);
    lemma_anchors_stay(c.kel, record, c.credentials);
}

/// A refused anchor and an abandoned write keep the invariant.
pub proof fn lemma_dropped_wf(c: ControllerView)
    requires
        c.wf(),
    ensures
        c.anchor_refused().wf(),
        c.abandoned().wf(),
{
}

/// A stored write keeps the invariant.
pub proof fn lemma_committed_wf(c: ControllerView)
    requires
        c.wf(),
        c.awaits_submission(),
    ensures
        c.committed().wf(),
{
    let pending = c.pending->0;
    let stored = pending.verifiable();
    let next = c.committed();
    if pending.event.kind.is_management() {
        assert forall|i: int| 0 <= i < next.management.len() implies anchors(
            next.kel,
            #[trigger] next.management[i],
        ) && next.management[i].event.sn == i by {
            if i < c.management.len() {
                assert(next.management[i] == c.management[i]);
            }
        }
    } else {
        assert forall|i: int| 0 <= i < next.credentials.len() implies anchors(
            next.kel,
            #[trigger] next.credentials[i],
        ) by {
            if i < c.credentials.len() {
                assert(next.credentials[i] == c.credentials[i]);
            }
        }
        assert forall|id: Seq<char>| shaped(#[trigger] log_of(next.credentials, id)) by {
            lemma_log_push(c.credentials, stored, id);
            lemma_fold_push(log_of(c.credentials, id), stored);
            assert(shaped(log_of(c.credentials, id)));
        }
        assert forall|id: Seq<char>, k: int|
            0 <= k < log_of(next.credentials, id).len() implies (#[trigger] log_of(
            next.credentials,
            id,
        )[k]).event.sn == k by {
            lemma_log_push(c.credentials, stored, id);
            if k < log_of(c.credentials, id).len() {
                assert(log_of(next.credentials, id)[k] == log_of(c.credentials, id)[k]);
            }
        }
    }
}

/// In every log of a well formed controller an event's sequence number is
/// its place in the log: the numbers rise by one from zero and have no gaps.
/// The key event log has that by construction, an event's place in it being
/// its number.
pub proof fn law_sequence_numbers(c: ControllerView, id: Seq<char>, k: int)
    requires
        c.wf(),
    ensures
        0 <= k < c.log(id).len() ==> c.log(id)[k].event.sn == k,
        0 <= k < c.management.len() ==> c.management[k].event.sn == k,
{
}

/// Every stored event of a well formed controller is anchored: the key event
/// log holds, at the place its source seal names, an interaction event with
/// the digest the seal gives, which seals the digest of the stored event.
pub proof fn law_mutual_anchoring(c: ControllerView, id: Seq<char>, k: int)
    requires
        c.wf(),
    ensures
        0 <= k < c.log(id).len() ==> anchors(c.kel, c.log(id)[k]),
        0 <= k < c.management.len() ==> anchors(c.kel, c.management[k]),
{
    lemma_log_anchored(c.kel, c.credentials, id);
}

/// Only a stored write changes a credential's log: the key events, the
/// beginning of a write, its anchor, a refused anchor and an abandoned write
/// all leave every log as it was.
pub proof fn law_logs_change_by_commit_only(
    c: ControllerView,
    prefix: Seq<char>,
    keys: Seq<KeyView>,
    event: TelEventView,
    registry: Option<RegistryView>,
    anchor: InteractionView,
)
    ensures
        c.incepted(prefix, keys).credentials == c.credentials,
        c.rotated(keys).credentials == c.credentials,
        c.interacted().credentials == c.credentials,
        c.begun(event, registry).credentials == c.credentials,
        c.anchored(anchor).credentials == c.credentials,
        c.anchor_refused().credentials == c.credentials,
        c.abandoned().credentials == c.credentials,
{
}

/// Before a credential has any event, its verification fails, whatever the
/// signature: the credential was never issued. A controller that has seen
/// nothing is in that case for every credential.
pub proof fn law_unissued_is_refused(c: ControllerView, message: Seq<char>, signature: Seq<u8>)
    requires
        c.log(credential_id(message)).len() == 0,
    ensures
        c.verification(message, signature) == Err::<bool, Error>(Error::NotYetIssued),
        ControllerView::empty().verification(message, signature) == Err::<bool, Error>(
            Error::NotYetIssued,
        ),
{
}

/// A stored credential event is the last of the log of its credential, which
/// is one event longer for it, and every other log is as it was.
pub proof fn law_commit_extends_log(c: ControllerView, id: Seq<char>)
    requires
        c.awaits_submission(),
        !c.pending->0.event.kind.is_management(),
    ensures
        c.committed().log(id) == if c.pending->0.event.prefix == id {
            c.log(id).push(c.pending->0.verifiable())
        } else {
            c.log(id)
        },
        c.pending->0.event.prefix == id ==> c.committed().log(id).len() == c.log(id).len() + 1,
{
    lemma_log_push(c.credentials, c.pending->0.verifiable(), id);
}

/// A stored management event leaves every credential's log as it was.
pub proof fn law_management_keeps_logs(c: ControllerView, id: Seq<char>)
    requires
        c.awaits_submission(),
        c.pending->0.event.kind.is_management(),
    ensures
        c.committed().log(id) == c.log(id),
{
}

/// Right after an issuance is stored, verification of the credential answers
/// whether every key that was in force when the issuance was anchored accepts
/// the signature. So a signature that the issuer made with those keys
/// verifies.
pub proof fn law_issued_verifies(
    c: ControllerView,
    message: Seq<char>,
    event: TelEventView,
    anchor: InteractionView,
    signature: Seq<u8>,
)
    requires
        c.wf(),
        c.can_issue(message, event),
        c.begun(event, None).accepts_anchor(anchor),
    ensures
        c.begun(event, None).anchored(anchor).committed().verification(message, signature) == Ok::<
            bool,
            Error,
        >(keys_accept(c.kel.last().keys, vstd::utf8::encode_utf8(message), signature)),
{
    let id = credential_id(message);
    let anchored = c.begun(event, None).anchored(anchor);
    let stored = anchored.pending->0.verifiable();
    let next = anchored.committed();
    lemma_log_push(c.credentials, stored, id);
    lemma_fold_push(c.log(id), stored);
    assert(shaped(log_of(c.credentials, id)));
    assert(next.log(id) == c.log(id).push(stored));
    assert(next.log(id).last() == stored);
}

/// After a revocation is stored, verification of the credential fails,
/// whatever the signature: the credential was revoked.
pub proof fn law_revoked_is_refused(
    c: ControllerView,
    message: Seq<char>,
    event: TelEventView,
    anchor: InteractionView,
    signature: Seq<u8>,
)
    requires
        c.wf(),
        c.can_revoke(message, event),
        c.begun(event, None).accepts_anchor(anchor),
    ensures
        c.begun(event, None).anchored(anchor).committed().verification(message, signature) == Err::<
            bool,
            Error,
        >(Error::CredentialRevoked),
{
    let id = credential_id(message);
    let anchored = c.begun(event, None).anchored(anchor);
    let stored = anchored.pending->0.verifiable();
    lemma_log_push(c.credentials, stored, id);
    lemma_fold_push(c.log(id), stored);
}

/// Events added to the key event log do not change what an anchor resolves
/// to: the keys under which a credential's last event was anchored are the
/// same after a rotation and after a later anchor.
proof fn lemma_history_stays(c: ControllerView, record: KelRecordView, id: Seq<char>)
    requires
        c.wf(),
    ensures
        (ControllerView { kel: c.kel.push(record), ..c }).signing_keys(id) == c.signing_keys(id),
{
    let log = c.log(id);
    if log.len() > 0 {
        lemma_log_anchored(c.kel, c.credentials, id);
        assert(anchors(c.kel, log[log.len() - 1]));
        lemma_anchor_stays(c.kel, record, log.last());
    }
}

/// A rotation of the issuer's keys changes no verification: a credential
/// that was issued before the rotation is verified under the keys of its
/// anchor, as before.
pub proof fn law_rotation_keeps_verdicts(
    c: ControllerView,
    sn: u64,
    keys: Seq<KeyView>,
    message: Seq<char>,
    signature: Seq<u8>,
)
    requires
        c.wf(),
        c.can_rotate(sn),
    ensures
        c.rotated(keys).verification(message, signature) == c.verification(message, signature),
{
    lemma_history_stays(c, KelRecordView { keys, anchor: None }, credential_id(message));
}

/// An interaction event that anchors nothing the controller stores changes no
/// verification.
pub proof fn law_interaction_keeps_verdicts(
    c: ControllerView,
    sn: u64,
    message: Seq<char>,
    signature: Seq<u8>,
)
    requires
        c.wf(),
        c.can_interact(sn),
    ensures
        c.interacted().verification(message, signature) == c.verification(message, signature),
{
    lemma_history_stays(c, c.interacted().kel.last(), credential_id(message));
}

/// An anchor taken for a later write changes no verification either.
pub proof fn law_anchor_keeps_verdicts(
    c: ControllerView,
    anchor: InteractionView,
    message: Seq<char>,
    signature: Seq<u8>,
)
    requires
        c.wf(),
        c.accepts_anchor(anchor),
    ensures
        c.anchored(anchor).verification(message, signature) == c.verification(message, signature),
{
    let next = c.anchored(anchor);
    lemma_history_stays(c, next.kel.last(), credential_id(message));
    assert(next.kel == c.kel.push(next.kel.last()));
    assert(next.signing_keys(credential_id(message)) == (ControllerView {
        kel: c.kel.push(next.kel.last()),
        ..c
    }).signing_keys(credential_id(message)));
}

/// A credential that is issued or revoked cannot be issued, and one that is
/// not issued, or is revoked already, cannot be revoked.
pub proof fn law_transitions(c: ControllerView, message: Seq<char>, event: TelEventView)
    ensures
        !(c.state(credential_id(message)) is NotIssued) ==> !c.can_issue(message, event),
        !(c.state(credential_id(message)) is Issued) ==> !c.can_revoke(message, event),
        !(c.state(event.prefix) is NotIssued) ==> !c.can_issue_credential(event),
        !(c.state(event.prefix) is Issued) ==> !c.can_revoke_credential(event),
{
}

/// In a well formed controller a credential with events always resolves to
/// keys: the anchor of its last event is in the key event log.
pub proof fn law_history_available(c: ControllerView, id: Seq<char>)
    requires
        c.wf(),
    ensures
        c.signing_keys(id) is Ok <==> c.log(id).len() > 0,
        c.log(id).len() == 0 <==> c.state(id) is NotIssued,
{
    let log = c.log(id);
    assert(shaped(log_of(c.credentials, id)));
    if log.len() > 0 {
        lemma_log_anchored(c.kel, c.credentials, id);
        assert(anchors(c.kel, log[log.len() - 1]));
    }
}

} // verus!
