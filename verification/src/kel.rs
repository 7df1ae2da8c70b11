//! The key event log of the issuer as the controller reads it: for each
//! event, in order, the keys in force after it and, for an interaction event,
//! what it anchors.
//!
//! An event's place in the list is its sequence number, so the numbers rise
//! by one and have no gaps by construction.

use crate::crypto::{Key, KeyView};
use crate::error::Error;
use crate::event::{EventSourceSeal, EventSourceSealView, VerifiableEventView};
use vstd::prelude::*;

verus! {

/// What an interaction event anchors.
#[derive(Debug, PartialEq, Eq)]
pub struct Anchor {
    /// The digest of the interaction event itself.
    pub digest: String,
    /// The digest of the event of the transaction log that it seals.
    pub event_digest: String,
}

pub struct AnchorView {
    pub digest: Seq<char>,
    pub event_digest: Seq<char>,
}

impl View for Anchor {
    type V = AnchorView;

    open spec fn view(&self) -> AnchorView {
        AnchorView { digest: self.digest@, event_digest: self.event_digest@ }
    }
}

impl DeepView for Anchor {
    type V = AnchorView;

    open spec fn deep_view(&self) -> AnchorView {
        self@
    }
}

impl Clone for Anchor {
    fn clone(&self) -> (copy: Self)
        ensures
            copy@ == self@,
    {
        Anchor { digest: self.digest.clone(), event_digest: self.event_digest.clone() }
    }
}

/// One event of the key event log.
#[derive(Debug, PartialEq, Eq)]
pub struct KelRecord {
    /// The public keys in force after the event.
    pub keys: Vec<Key>,
    /// What the event anchors; nothing for an establishment event.
    pub anchor: Option<Anchor>,
}

pub struct KelRecordView {
    pub keys: Seq<KeyView>,
    pub anchor: Option<AnchorView>,
}

impl View for KelRecord {
    type V = KelRecordView;

    open spec fn view(&self) -> KelRecordView {
        KelRecordView { keys: self.keys.deep_view(), anchor: self.anchor.deep_view() }
    }
}

impl DeepView for KelRecord {
    type V = KelRecordView;

    open spec fn deep_view(&self) -> KelRecordView {
        self@
    }
}

/// The keys that were in force at the anchor `seal` names. A log without
/// events has no key state; a seal that names no event of the log, or an
/// event that is no anchor with that digest, cannot be resolved.
pub open spec fn resolve(kel: Seq<KelRecordView>, seal: EventSourceSealView) -> Result<
    Seq<KeyView>,
    Error,
> {
    if kel.len() == 0 {
        Err(Error::NoKeyData)
    } else if seal.sn >= kel.len() {
        Err(Error::HistoryUnavailable)
    } else {
        match kel[seal.sn as int].anchor {
            Some(anchor) if anchor.digest == seal.digest => Ok(kel[seal.sn as int].keys),
            _ => Err(Error::HistoryUnavailable),
        }
    }
}

/// Whether the log holds the anchor of `event`: the interaction event that
/// the source seal names exists, has the digest the seal gives, and seals the
/// digest of `event`.
pub open spec fn anchors(kel: Seq<KelRecordView>, event: VerifiableEventView) -> bool {
    &&& event.seal.sn < kel.len()
    &&& kel[event.seal.sn as int].anchor == Some(
        AnchorView { digest: event.seal.digest, event_digest: event.event.digest() },
    )
}

/// An event added to the log leaves every anchor where it was.
pub proof fn lemma_anchor_stays(
    kel: Seq<KelRecordView>,
    record: KelRecordView,
    event: VerifiableEventView,
)
    requires
        anchors(kel, event),
    ensures
        anchors(kel.push(record), event),
        resolve(kel.push(record), event.seal) == resolve(kel, event.seal),
{
}

/// A copy of a set of keys.
pub fn copy_keys(keys: &Vec<Key>) -> (copy: Vec<Key>)
    ensures
        copy.deep_view() == keys.deep_view(),
{
    let mut copy: Vec<Key> = Vec::new();
    let mut i: usize = 0;
    while i < keys.len()
        invariant
            i <= keys.len(),
            copy.deep_view() =~= keys.deep_view().take(i as int),
        decreases keys.len() - i,
    {
        let ghost before = copy.deep_view();
        let key = keys[i].clone();
        copy.push(key);
        assert(copy.deep_view() =~= before.push(key.deep_view()));
        i += 1;
    }
    assert(keys.deep_view().take(keys.len() as int) =~= keys.deep_view());
    copy
}

impl Clone for KelRecord {
    fn clone(&self) -> (copy: Self)
        ensures
            copy@ == self@,
    {
        KelRecord {
            keys: copy_keys(&self.keys),
            anchor: match &self.anchor {
                Some(anchor) => Some(anchor.clone()),
                None => None,
            },
        }
    }
}

/// The keys that were in force at the anchor `seal` names.
pub fn key_state_at(kel: &Vec<KelRecord>, seal: &EventSourceSeal) -> (keys: Result<
    Vec<Key>,
    Error,
>)
    ensures
        match keys {
            Ok(found) => resolve(kel.deep_view(), seal@) == Ok::<Seq<KeyView>, Error>(
                found.deep_view(),
            ),
            Err(e) => resolve(kel.deep_view(), seal@) == Err::<Seq<KeyView>, Error>(e),
        },
{
    if kel.len() == 0 {
        return Err(Error::NoKeyData);
    }
    if seal.sn >= kel.len() as u64 {
        return Err(Error::HistoryUnavailable);
    }
    let record = &kel[seal.sn as usize];
    assert(kel.deep_view()[seal.sn as int] == record@);
    match &record.anchor {
        Some(anchor) => {
            if anchor.digest == seal.digest {
                Ok(copy_keys(&record.keys))
            } else {
                Err(Error::HistoryUnavailable)
            }
        },
        None => Err(Error::HistoryUnavailable),
    }
}

} // verus!
