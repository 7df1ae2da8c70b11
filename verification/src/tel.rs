//! The transaction event log as the controller reads it: the state of the
//! registry, the log of each credential, and the state that a log folds to.

use crate::error::Error;
use crate::event::{EventKind, TelEvent, TelEventView, VerifiableEvent, VerifiableEventView};
use vstd::prelude::*;

verus! {

/// Where a credential stands.
#[derive(Debug, PartialEq, Eq)]
pub enum TelState {
    NotIssued,
    /// Issued, by the event with this digest.
    Issued(String),
    Revoked,
}

pub enum TelStateView {
    NotIssued,
    Issued(Seq<char>),
    Revoked,
}

impl View for TelState {
    type V = TelStateView;

    open spec fn view(&self) -> TelStateView {
        match self {
            TelState::NotIssued => TelStateView::NotIssued,
            TelState::Issued(digest) => TelStateView::Issued(digest@),
            TelState::Revoked => TelStateView::Revoked,
        }
    }
}

impl Clone for TelState {
    fn clone(&self) -> (copy: Self)
        ensures
            copy@ == self@,
    {
        match self {
            TelState::NotIssued => TelState::NotIssued,
            TelState::Issued(digest) => TelState::Issued(digest.clone()),
            TelState::Revoked => TelState::Revoked,
        }
    }
}

/// The state after `event`, for a credential in `state`. An issuance takes a
/// credential that was never issued to issued, a revocation takes an issued
/// one to revoked, and any other event leaves the state as it was.
pub open spec fn apply(state: TelStateView, event: TelEventView) -> TelStateView {
    match (state, event.kind) {
        (TelStateView::NotIssued, EventKind::Issuance) => TelStateView::Issued(event.digest()),
        (TelStateView::Issued(_), EventKind::Revocation) => TelStateView::Revoked,
        _ => state,
    }
}

/// Whether `event` moves a credential in `state` on.
pub open spec fn admits(state: TelStateView, event: TelEventView) -> bool {
    match (state, event.kind) {
        (TelStateView::NotIssued, EventKind::Issuance) => true,
        (TelStateView::Issued(_), EventKind::Revocation) => true,
        _ => false,
    }
}

/// The number of events that bring a credential to `state`.
pub open spec fn rank(state: TelStateView) -> nat {
    match state {
        TelStateView::NotIssued => 0,
        TelStateView::Issued(_) => 1,
        TelStateView::Revoked => 2,
    }
}

/// The state a log folds to, oldest event first.
pub open spec fn fold_state(log: Seq<VerifiableEventView>) -> TelStateView
    decreases log.len(),
{
    if log.len() == 0 {
        TelStateView::NotIssued
    } else {
        apply(fold_state(log.drop_last()), log.last().event)
    }
}

/// The events of `events` that belong to the log `id`, in their order.
pub open spec fn log_of(events: Seq<VerifiableEventView>, id: Seq<char>) -> Seq<
    VerifiableEventView,
>
    decreases events.len(),
{
    if events.len() == 0 {
        Seq::empty()
    } else if events.last().event.prefix == id {
        log_of(events.drop_last(), id).push(events.last())
    } else {
        log_of(events.drop_last(), id)
    }
}

/// One more event at the end of a log is one more step of the fold.
pub proof fn lemma_fold_push(log: Seq<VerifiableEventView>, event: VerifiableEventView)
    ensures
        fold_state(log.push(event)) == apply(fold_state(log), event.event),
{
    assert(log.push(event).drop_last() =~= log);
}

/// An event stored after the others is the last of its own log and leaves
/// every other log alone.
pub proof fn lemma_log_push(
    events: Seq<VerifiableEventView>,
    event: VerifiableEventView,
    id: Seq<char>,
)
    ensures
        log_of(events.push(event), id) == if event.event.prefix == id {
            log_of(events, id).push(event)
        } else {
            log_of(events, id)
        },
{
    assert(events.push(event).drop_last() =~= events);
}

/// Folding is idempotent in each event: the event that was just applied does
/// not move the state again.
pub proof fn lemma_apply_idempotent(state: TelStateView, event: TelEventView)
    ensures
        apply(apply(state, event), event) == apply(state, event),
{
}

/// The state after `event`, for a credential in `state`.
pub fn next_state(state: TelState, event: &TelEvent) -> (next: TelState)
    ensures
        next@ == apply(state@, event@),
{
    match state {
        TelState::NotIssued => match event.kind {
            EventKind::Issuance => TelState::Issued(event.digest()),
            _ => TelState::NotIssued,
        },
        TelState::Issued(digest) => match event.kind {
            EventKind::Revocation => TelState::Revoked,
            _ => TelState::Issued(digest),
        },
        TelState::Revoked => TelState::Revoked,
    }
}

/// The events of `events` that belong to the log `id`, in their order.
pub fn credential_log(events: &Vec<VerifiableEvent>, id: &String) -> (log: Vec<VerifiableEvent>)
    ensures
        log.deep_view() == log_of(events.deep_view(), id@),
{
    let mut log: Vec<VerifiableEvent> = Vec::new();
    let mut i: usize = 0;
    assert(log.deep_view() =~= Seq::empty());
    while i < events.len()
        invariant
            i <= events.len(),
            log.deep_view() == log_of(events.deep_view().take(i as int), id@),
        decreases events.len() - i,
    {
        proof {
            let all = events.deep_view();
            assert(all.take(i + 1) =~= all.take(i as int).push(events[i as int]@));
            lemma_log_push(all.take(i as int), events[i as int]@, id@);
        }
        if events[i].event.prefix == *id {
            let ghost before = log.deep_view();
            let copy = events[i].clone();
            log.push(copy);
            assert(log.deep_view() =~= before.push(copy@));
        }
        i += 1;
    }
    proof {
        assert(events.deep_view().take(events.len() as int) =~= events.deep_view());
    }
    log
}

/// The state that a log folds to.
pub fn log_state(log: &Vec<VerifiableEvent>) -> (state: TelState)
    ensures
        state@ == fold_state(log.deep_view()),
{
    let mut state = TelState::NotIssued;
    let mut i: usize = 0;
    while i < log.len()
        invariant
            i <= log.len(),
            state@ == fold_state(log.deep_view().take(i as int)),
        decreases log.len() - i,
    {
        proof {
            let all = log.deep_view();
            assert(all.take(i + 1) =~= all.take(i as int).push(log[i as int]@));
            lemma_fold_push(all.take(i as int), log[i as int]@);
        }
        state = next_state(state, &log[i].event);
        i += 1;
    }
    proof {
        assert(log.deep_view().take(log.len() as int) =~= log.deep_view());
    }
    state
}

/// The state of the credential `id` in a store of credential events.
pub fn credential_state(events: &Vec<VerifiableEvent>, id: &String) -> (state: TelState)
    ensures
        state@ == fold_state(log_of(events.deep_view(), id@)),
{
    let log = credential_log(events, id);
    log_state(&log)
}

/// A copy of a list of stored events.
pub fn copy_events(events: &Vec<VerifiableEvent>) -> (copy: Vec<VerifiableEvent>)
    ensures
        copy.deep_view() == events.deep_view(),
{
    let mut copy: Vec<VerifiableEvent> = Vec::new();
    let mut i: usize = 0;
    while i < events.len()
        invariant
            i <= events.len(),
            copy.deep_view() =~= events.deep_view().take(i as int),
        decreases events.len() - i,
    {
        let ghost before = copy.deep_view();
        let event = events[i].clone();
        copy.push(event);
        assert(copy.deep_view() =~= before.push(event@));
        i += 1;
    }
    assert(events.deep_view().take(events.len() as int) =~= events.deep_view());
    copy
}

/// Whether a credential in `state` can be verified: it must be issued and not
/// revoked.
pub fn gate(state: &TelState) -> (open: Result<(), Error>)
    ensures
        open == match state@ {
            TelStateView::NotIssued => Err::<(), Error>(Error::NotYetIssued),
            TelStateView::Issued(_) => Ok::<(), Error>(()),
            TelStateView::Revoked => Err::<(), Error>(Error::CredentialRevoked),
        },
{
    match state {
        TelState::NotIssued => Err(Error::NotYetIssued),
        TelState::Issued(_) => Ok(()),
        TelState::Revoked => Err(Error::CredentialRevoked),
    }
}

} // verus!
