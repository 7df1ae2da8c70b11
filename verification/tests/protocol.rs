use credential_issuer::controller::Controller;
use credential_issuer::crypto::{
    all_accept, check_key, check_keys, digest, identifier, Key, KeyKind,
};
use credential_issuer::error::Error;
use credential_issuer::event::{
    EventKind, EventSeal, EventSourceSeal, Interaction, TelEvent, VerifiableEvent,
};
use credential_issuer::kel::{key_state_at, Anchor, KelRecord};
use credential_issuer::registry::{inception_config, names, overlap, Config, Registry};
use credential_issuer::tel::{
    credential_log, credential_state, gate, log_state, next_state, TelState,
};
use keri_core::signer::Signer;

const MESSAGE: &str = "some vc";
const ISSUER: &str = "EETk5xW-rl2TgHTTXr8m5kGXiC30m3gMgsYcBAjOE9eI";
const REGISTRY: &str = "EF3TVac5quxrbLGLKAHF21laISjMgjYQAIg3OsTen969";

fn event(kind: EventKind, prefix: &str, sn: u64, content: &str) -> TelEvent {
    let issuer = match kind {
        EventKind::Inception => Some(ISSUER.to_string()),
        _ => None,
    };
    TelEvent { kind, prefix: prefix.to_string(), sn, issuer, content: content.as_bytes().to_vec() }
}

fn key(signer: &Signer) -> Key {
    Key { kind: KeyKind::Ed25519, bytes: signer.public_key().key() }
}

fn raw(byte: u8) -> Key {
    Key { kind: KeyKind::Ed25519, bytes: vec![byte; 32] }
}

fn anchoring(sn: u64, content: &str, seal: &EventSeal) -> Interaction {
    Interaction { sn, content: content.as_bytes().to_vec(), seals: vec![seal.clone()] }
}

/// Runs the three steps of a write whose first step gave `seal`.
fn finish(controller: &mut Controller, seal: &EventSeal, sn: u64, content: &str) -> VerifiableEvent {
    let paired = controller.anchor(Some(anchoring(sn, content, seal))).unwrap();
    controller.submit(true).unwrap();
    paired
}

/// A controller with an identifier and a registry, and the signer of its keys.
fn ready() -> (Controller, Signer) {
    let signer = Signer::new();
    let vcp = event(EventKind::Inception, REGISTRY, 0, "vcp");
    let (mut controller, seal) = Controller::init(
        ISSUER.to_string(),
        vec![key(&signer)],
        Some(vec![]),
        0,
        vcp,
    )
    .unwrap();
    finish(&mut controller, &seal, 1, "ixn-1");
    (controller, signer)
}

#[test]
fn digest_of_a_message_is_its_blake3_identifier() {
    let id = digest(MESSAGE);
    assert_eq!(id.len(), 44);
    assert!(id.starts_with('E'));
    assert_ne!(id, MESSAGE);
    assert_eq!(id, identifier(MESSAGE.as_bytes()));
    assert_ne!(id, digest("another vc"));
    assert_eq!(id, "EA07tL74CVf_v54yBdLEj1Tz5O1IRtJo45GPtoGrEw_n");
}

#[test]
fn a_key_accepts_its_own_signature_only() {
    let signer = Signer::new();
    let other = Signer::new();
    let signature = signer.sign(MESSAGE.as_bytes()).unwrap();
    let keys = vec![key(&signer), key(&other)];
    let verdicts = check_keys(&keys, MESSAGE.as_bytes(), &signature);
    assert_eq!(verdicts, vec![true, false]);
    assert!(!all_accept(&verdicts));
    assert_eq!(check_keys(&keys, b"some other vc", &signature), vec![false, false]);
    assert_eq!(check_keys(&keys, MESSAGE.as_bytes(), &signature[..63]), vec![false, false]);
    let short = Key { kind: KeyKind::Ed25519, bytes: vec![1u8, 2, 3] };
    assert_eq!(check_keys(&vec![short], MESSAGE.as_bytes(), &signature), vec![false]);
}

#[test]
fn unanimity_of_verdicts() {
    assert!(all_accept(&vec![]));
    assert!(all_accept(&vec![true]));
    assert!(all_accept(&vec![true, true, true]));
    assert!(!all_accept(&vec![true, false, true]));
    assert!(!all_accept(&vec![false]));
}

#[test]
fn gate_opens_for_issued_credentials_only() {
    assert_eq!(gate(&TelState::NotIssued), Err(Error::NotYetIssued));
    assert_eq!(gate(&TelState::Issued("d".to_string())), Ok(()));
    assert_eq!(gate(&TelState::Revoked), Err(Error::CredentialRevoked));
}

#[test]
fn state_moves_by_issuance_then_revocation() {
    let iss = event(EventKind::Issuance, "c", 0, "iss");
    let rev = event(EventKind::Revocation, "c", 1, "rev");
    let vcp = event(EventKind::Inception, "r", 0, "vcp");
    let issued = TelState::Issued(iss.digest());
    assert_eq!(next_state(TelState::NotIssued, &iss), issued);
    assert_eq!(next_state(TelState::NotIssued, &rev), TelState::NotIssued);
    assert_eq!(next_state(TelState::NotIssued, &vcp), TelState::NotIssued);
    assert_eq!(next_state(issued.clone(), &rev), TelState::Revoked);
    assert_eq!(next_state(issued.clone(), &iss), issued);
    assert_eq!(next_state(TelState::Revoked, &iss), TelState::Revoked);
    assert_eq!(next_state(TelState::Revoked, &rev), TelState::Revoked);
}

#[test]
fn folding_is_idempotent_in_each_event() {
    let iss = event(EventKind::Issuance, "c", 0, "iss");
    let rev = event(EventKind::Revocation, "c", 1, "rev");
    for start in [TelState::NotIssued, TelState::Issued("d".to_string()), TelState::Revoked] {
        for e in [&iss, &rev] {
            let once = next_state(start.clone(), e);
            assert_eq!(next_state(once.clone(), e), once);
        }
    }
}

#[test]
fn logs_are_kept_apart_and_in_order() {
    let seal = EventSourceSeal { sn: 1, digest: "d".to_string() };
    let a0 = VerifiableEvent::new(event(EventKind::Issuance, "a", 0, "a-iss"), seal.clone());
    let b0 = VerifiableEvent::new(event(EventKind::Issuance, "b", 0, "b-iss"), seal.clone());
    let a1 = VerifiableEvent::new(event(EventKind::Revocation, "a", 1, "a-rev"), seal.clone());
    let store = vec![a0.clone(), b0.clone(), a1.clone()];
    assert_eq!(credential_log(&store, &"a".to_string()), vec![a0.clone(), a1]);
    assert_eq!(credential_log(&store, &"b".to_string()), vec![b0.clone()]);
    assert_eq!(credential_log(&store, &"c".to_string()), vec![]);
    assert_eq!(credential_state(&store, &"a".to_string()), TelState::Revoked);
    assert_eq!(credential_state(&store, &"b".to_string()), TelState::Issued(b0.event.digest()));
    assert_eq!(credential_state(&store, &"c".to_string()), TelState::NotIssued);
    assert_eq!(log_state(&vec![]), TelState::NotIssued);
    assert_eq!(log_state(&vec![a0.clone()]), TelState::Issued(a0.event.digest()));
}

#[test]
fn seals_name_the_event_and_its_anchor() {
    let iss = event(EventKind::Issuance, "c", 0, "iss");
    let seal = EventSeal::for_event(&iss);
    assert_eq!(seal.prefix, "c");
    assert_eq!(seal.sn, 0);
    assert_eq!(seal.event_digest, identifier(b"iss"));
    assert!(seal.same(&seal.clone()));
    assert!(!seal.same(&EventSeal::for_event(&event(EventKind::Issuance, "c", 1, "iss"))));
    let ixn = anchoring(7, "ixn", &seal);
    assert!(ixn.carries(&seal));
    assert!(!ixn.carries(&EventSeal::for_event(&event(EventKind::Issuance, "c", 0, "other"))));
    let source = EventSourceSeal::for_anchor(&ixn);
    assert_eq!(source, EventSourceSeal { sn: 7, digest: identifier(b"ixn") });
    let paired = VerifiableEvent::new(iss.clone(), source.clone());
    assert_eq!(paired.event, iss);
    assert_eq!(paired.seal, source);
    assert!(EventKind::Inception.management());
    assert!(EventKind::Rotation.management());
    assert!(!EventKind::Issuance.management());
    assert!(!EventKind::Revocation.management());
}

#[test]
fn inception_config_follows_the_backers() {
    assert_eq!(inception_config(None), (vec![Config::NoBackers], vec![]));
    assert_eq!(inception_config(Some(vec![])), (vec![], vec![]));
    assert_eq!(
        inception_config(Some(vec!["b1".to_string()])),
        (vec![], vec!["b1".to_string()])
    );
}

#[test]
fn registry_rotation_removes_then_adds() {
    let ids = |list: &[&str]| list.iter().map(|s| s.to_string()).collect::<Vec<_>>();
    let registry = Registry::incept("r".to_string(), "i".to_string(), Some(ids(&["a", "b", "c"])), 2);
    assert_eq!(registry.sn, 0);
    assert!(!registry.no_backers);
    assert_eq!(registry.backer_threshold, 2);
    let next = registry.rotate(&ids(&["d"]), &ids(&["b"])).unwrap();
    assert_eq!(next.backers, ids(&["a", "c", "d"]));
    assert_eq!(next.sn, 1);
    assert_eq!(next.id, "r");
    assert_eq!(next.issuer, "i");
    assert_eq!(registry.rotate(&ids(&["d", "b"]), &ids(&["b"])), None);
    let bare = Registry::incept("r".to_string(), "i".to_string(), None, 0);
    assert_eq!(bare.rotate(&ids(&["d"]), &[]), None);
    let full = Registry { sn: u64::MAX, ..registry.clone() };
    assert_eq!(full.rotate(&ids(&["d"]), &[]), None);
    assert!(overlap(&ids(&["a", "b"]), &ids(&["c", "b"])));
    assert!(!overlap(&ids(&["a", "b"]), &ids(&["c"])));
    assert!(names(&ids(&["a", "b"]), &"b".to_string()));
    assert!(!names(&ids(&["a", "b"]), &"c".to_string()));
}

#[test]
fn key_state_lookup_errors() {
    let seal = EventSourceSeal { sn: 1, digest: "d1".to_string() };
    assert_eq!(key_state_at(&vec![], &seal), Err(Error::NoKeyData));
    let icp = KelRecord { keys: vec![raw(1)], anchor: None };
    let ixn = KelRecord {
        keys: vec![raw(1)],
        anchor: Some(Anchor { digest: "d1".to_string(), event_digest: "e".to_string() }),
    };
    assert_eq!(key_state_at(&vec![icp.clone()], &seal), Err(Error::HistoryUnavailable));
    let kel = vec![icp, ixn];
    assert_eq!(key_state_at(&kel, &seal), Ok(vec![raw(1)]));
    let wrong = EventSourceSeal { sn: 1, digest: "d2".to_string() };
    assert_eq!(key_state_at(&kel, &wrong), Err(Error::HistoryUnavailable));
    let establishment = EventSourceSeal { sn: 0, digest: "d1".to_string() };
    assert_eq!(key_state_at(&kel, &establishment), Err(Error::HistoryUnavailable));
}

#[test]
fn fresh_controller_knows_nothing() {
    let controller = Controller::new();
    let id = digest(MESSAGE);
    assert_eq!(controller.verify(MESSAGE, &[0u8; 64]), Err(Error::NotYetIssued));
    assert_eq!(controller.get_vc_state(&id), Ok(TelState::NotIssued));
    assert_eq!(controller.get_tel(&id), Ok(vec![]));
    assert_eq!(controller.get_pub_key(id), Err(Error::NoSuchCredential));
    assert_eq!(controller.issuer(), None);
    assert_eq!(controller.registry(), None);
    assert!(controller.management_log().is_none());
    assert!(controller.pending_event().is_none());
}

#[test]
fn registry_without_backers() {
    let signer = Signer::new();
    let vcp = event(EventKind::Inception, REGISTRY, 0, "vcp");
    let (mut controller, seal) =
        Controller::init(ISSUER.to_string(), vec![key(&signer)], None, 0, vcp).unwrap();
    assert_eq!(controller.registry(), None);
    finish(&mut controller, &seal, 1, "ixn-1");
    let registry = controller.registry().unwrap();
    assert!(registry.no_backers);
    assert!(registry.backers.is_empty());
    let vrt = event(EventKind::Rotation, REGISTRY, 1, "vrt");
    assert_eq!(
        controller.update_backers(&["b1".to_string()], &[], vrt),
        Err(Error::InvalidTransition)
    );
}

#[test]
fn registry_with_an_empty_backer_list() {
    let (controller, _) = ready();
    let registry = controller.registry().unwrap();
    assert_eq!(registry.id, REGISTRY);
    assert_eq!(registry.issuer, ISSUER);
    assert!(registry.backers.is_empty());
    assert!(!registry.no_backers);
    assert_eq!(registry.backer_threshold, 0);
    assert_eq!(controller.issuer(), Some(ISSUER.to_string()));
    assert_eq!(controller.management_log().unwrap().len(), 1);
}

#[test]
fn init_refuses_an_event_that_is_no_inception() {
    let keys = vec![key(&Signer::new())];
    let iss = event(EventKind::Issuance, REGISTRY, 0, "iss");
    assert!(matches!(
        Controller::init(ISSUER.to_string(), keys.clone(), Some(vec![]), 0, iss),
        Err(Error::InvalidTransition)
    ));
    let late = event(EventKind::Inception, REGISTRY, 1, "vcp");
    assert!(matches!(
        Controller::init(ISSUER.to_string(), keys, Some(vec![]), 0, late),
        Err(Error::InvalidTransition)
    ));
}

#[test]
fn registry_is_incepted_once_and_after_the_identifier() {
    let mut empty = Controller::new();
    let vcp = event(EventKind::Inception, REGISTRY, 0, "vcp");
    assert_eq!(empty.incept_tel(Some(vec![]), 0, vcp), Err(Error::InvalidTransition));
    let (mut controller, _) = ready();
    let again = event(EventKind::Inception, REGISTRY, 0, "vcp");
    assert_eq!(controller.incept_tel(Some(vec![]), 0, again), Err(Error::InvalidTransition));
    assert_eq!(
        controller.incept_kel(ISSUER.to_string(), vec![raw(0)]),
        Err(Error::AnchorFailed)
    );
}

#[test]
fn backers_are_updated_by_the_next_rotation() {
    let signer = Signer::new();
    let vcp = event(EventKind::Inception, REGISTRY, 0, "vcp");
    let (mut controller, seal) = Controller::init(
        ISSUER.to_string(),
        vec![key(&signer)],
        Some(vec!["b1".to_string(), "b2".to_string()]),
        1,
        vcp,
    )
    .unwrap();
    finish(&mut controller, &seal, 1, "ixn-1");

    let overlapping = event(EventKind::Rotation, REGISTRY, 1, "vrt");
    assert_eq!(
        controller.update_backers(&["b3".to_string()], &["b3".to_string()], overlapping),
        Err(Error::InvalidTransition)
    );
    let gap = event(EventKind::Rotation, REGISTRY, 2, "vrt");
    assert_eq!(controller.update_backers(&["b3".to_string()], &[], gap), Err(Error::InvalidTransition));
    let elsewhere = event(EventKind::Rotation, "other", 1, "vrt");
    assert_eq!(
        controller.update_backers(&["b3".to_string()], &[], elsewhere),
        Err(Error::InvalidTransition)
    );
    let wrong_kind = event(EventKind::Issuance, REGISTRY, 1, "vrt");
    assert_eq!(
        controller.update_backers(&["b3".to_string()], &[], wrong_kind),
        Err(Error::InvalidTransition)
    );

    let vrt = event(EventKind::Rotation, REGISTRY, 1, "vrt");
    let seal = controller.update_backers(&["b3".to_string()], &["b1".to_string()], vrt).unwrap();
    assert_eq!(seal, EventSeal { prefix: REGISTRY.to_string(), sn: 1, event_digest: identifier(b"vrt") });
    assert_eq!(controller.registry().unwrap().sn, 0);
    finish(&mut controller, &seal, 2, "ixn-2");
    let registry = controller.registry().unwrap();
    assert_eq!(registry.backers, vec!["b2".to_string(), "b3".to_string()]);
    assert_eq!(registry.sn, 1);
    assert_eq!(registry.backer_threshold, 1);
    assert_eq!(controller.management_log().unwrap().len(), 2);
}

#[test]
fn issue_verify_rotate_revoke() {
    let (mut controller, signer) = ready();
    let id = digest(MESSAGE);
    let signature = signer.sign(MESSAGE.as_bytes()).unwrap();
    assert_eq!(controller.verify(MESSAGE, &signature), Err(Error::NotYetIssued));

    let iss = event(EventKind::Issuance, &id, 0, "iss");
    let seal = controller.issue(MESSAGE, iss.clone()).unwrap();
    assert_eq!(seal, EventSeal { prefix: id.clone(), sn: 0, event_digest: identifier(b"iss") });
    assert_eq!(controller.get_vc_state(&id), Ok(TelState::NotIssued));
    let paired = controller.anchor(Some(anchoring(2, "ixn-2", &seal))).unwrap();
    assert_eq!(paired.event, iss);
    assert_eq!(paired.seal, EventSourceSeal { sn: 2, digest: identifier(b"ixn-2") });
    assert_eq!(controller.pending_event(), Some(paired.clone()));
    assert_eq!(controller.get_tel(&id), Ok(vec![]));
    assert_eq!(controller.submit(true), Ok(()));
    assert_eq!(controller.pending_event(), None);

    assert_eq!(controller.get_tel(&id), Ok(vec![paired.clone()]));
    assert_eq!(controller.get_vc_state(&id), Ok(TelState::Issued(identifier(b"iss"))));
    assert_eq!(controller.get_pub_key(id.clone()), Ok(vec![key(&signer)]));
    assert_eq!(controller.verify(MESSAGE, &signature), Ok(true));
    let forged = Signer::new().sign(MESSAGE.as_bytes()).unwrap();
    assert_eq!(controller.verify(MESSAGE, &forged), Ok(false));
    assert_eq!(controller.verify("another vc", &signature), Err(Error::NotYetIssued));

    let next = Signer::new();
    assert_eq!(controller.rotate(3, vec![key(&next)]), Ok(()));
    assert_eq!(controller.verify(MESSAGE, &signature), Ok(true));
    assert_eq!(controller.get_pub_key(id.clone()), Ok(vec![key(&signer)]));
    let late = next.sign(MESSAGE.as_bytes()).unwrap();
    assert_eq!(controller.verify(MESSAGE, &late), Ok(false));

    let rev = event(EventKind::Revocation, &id, 1, "rev");
    let seal = controller.revoke(MESSAGE, rev).unwrap();
    let revoked = finish(&mut controller, &seal, 4, "ixn-4");
    assert_eq!(controller.get_vc_state(&id), Ok(TelState::Revoked));
    assert_eq!(controller.get_tel(&id), Ok(vec![paired, revoked]));
    assert_eq!(controller.verify(MESSAGE, &signature), Err(Error::CredentialRevoked));
    assert_eq!(controller.get_pub_key(id), Ok(vec![key(&next)]));
}

#[test]
fn a_credential_issued_after_a_rotation_is_verified_under_the_new_keys() {
    let (mut controller, first) = ready();
    let second = Signer::new();
    controller.rotate(2, vec![key(&second)]).unwrap();
    let id = digest(MESSAGE);
    let seal = controller.issue(MESSAGE, event(EventKind::Issuance, &id, 0, "iss")).unwrap();
    finish(&mut controller, &seal, 3, "ixn-3");
    assert_eq!(controller.verify(MESSAGE, &second.sign(MESSAGE.as_bytes()).unwrap()), Ok(true));
    assert_eq!(controller.verify(MESSAGE, &first.sign(MESSAGE.as_bytes()).unwrap()), Ok(false));
}

#[test]
fn every_key_of_the_anchor_has_to_accept() {
    let one = Signer::new();
    let two = Signer::new();
    let vcp = event(EventKind::Inception, REGISTRY, 0, "vcp");
    let (mut controller, seal) = Controller::init(
        ISSUER.to_string(),
        vec![key(&one), key(&two)],
        Some(vec![]),
        0,
        vcp,
    )
    .unwrap();
    finish(&mut controller, &seal, 1, "ixn-1");
    let id = digest(MESSAGE);
    let seal = controller.issue(MESSAGE, event(EventKind::Issuance, &id, 0, "iss")).unwrap();
    finish(&mut controller, &seal, 2, "ixn-2");
    assert_eq!(controller.verify(MESSAGE, &one.sign(MESSAGE.as_bytes()).unwrap()), Ok(false));
    assert_eq!(controller.verify(MESSAGE, &two.sign(MESSAGE.as_bytes()).unwrap()), Ok(false));
}

#[test]
fn issuing_twice_and_revoking_out_of_turn_are_invalid() {
    let (mut controller, _) = ready();
    let id = digest(MESSAGE);
    let rev = event(EventKind::Revocation, &id, 1, "rev");
    assert_eq!(controller.revoke(MESSAGE, rev), Err(Error::InvalidTransition));

    let seal = controller.issue(MESSAGE, event(EventKind::Issuance, &id, 0, "iss")).unwrap();
    finish(&mut controller, &seal, 2, "ixn-2");
    let again = event(EventKind::Issuance, &id, 0, "iss-2");
    assert_eq!(controller.issue(MESSAGE, again), Err(Error::InvalidTransition));
    assert_eq!(controller.get_tel(&id).unwrap().len(), 1);

    let seal = controller.revoke(MESSAGE, event(EventKind::Revocation, &id, 1, "rev")).unwrap();
    finish(&mut controller, &seal, 3, "ixn-3");
    let reissue = event(EventKind::Issuance, &id, 0, "iss-3");
    assert_eq!(controller.issue(MESSAGE, reissue), Err(Error::InvalidTransition));
    let rerevoke = event(EventKind::Revocation, &id, 1, "rev-2");
    assert_eq!(controller.revoke(MESSAGE, rerevoke), Err(Error::InvalidTransition));
    assert_eq!(controller.get_tel(&id).unwrap().len(), 2);
    assert_eq!(controller.get_vc_state(&id), Ok(TelState::Revoked));
}

#[test]
fn an_event_that_does_not_fit_the_credential_is_invalid() {
    let (mut controller, _) = ready();
    let id = digest(MESSAGE);
    let other = event(EventKind::Issuance, &digest("another vc"), 0, "iss");
    assert_eq!(controller.issue(MESSAGE, other), Err(Error::InvalidTransition));
    let late = event(EventKind::Issuance, &id, 1, "iss");
    assert_eq!(controller.issue(MESSAGE, late), Err(Error::InvalidTransition));
    let kind = event(EventKind::Revocation, &id, 0, "iss");
    assert_eq!(controller.issue(MESSAGE, kind), Err(Error::InvalidTransition));
    let mut bare = Controller::new();
    bare.incept_kel(ISSUER.to_string(), vec![raw(0)]).unwrap();
    let iss = event(EventKind::Issuance, &id, 0, "iss");
    assert_eq!(bare.issue(MESSAGE, iss), Err(Error::InvalidTransition));
}

#[test]
fn a_failed_anchor_leaves_nothing_behind() {
    let (mut controller, signer) = ready();
    let id = digest(MESSAGE);
    let signature = signer.sign(MESSAGE.as_bytes()).unwrap();
    assert_eq!(controller.anchor(None), Err(Error::AnchorFailed));

    let seal = controller.issue(MESSAGE, event(EventKind::Issuance, &id, 0, "iss")).unwrap();
    assert_eq!(controller.anchor(None), Err(Error::AnchorFailed));
    assert_eq!(controller.submit(true), Err(Error::InvalidTransition));
    assert_eq!(controller.get_tel(&id), Ok(vec![]));
    assert_eq!(controller.verify(MESSAGE, &signature), Err(Error::NotYetIssued));

    let seal_again = controller.issue(MESSAGE, event(EventKind::Issuance, &id, 0, "iss")).unwrap();
    assert_eq!(seal, seal_again);
    assert_eq!(controller.anchor(Some(anchoring(5, "ixn", &seal))), Err(Error::AnchorFailed));
    assert_eq!(controller.submit(true), Err(Error::InvalidTransition));

    controller.issue(MESSAGE, event(EventKind::Issuance, &id, 0, "iss")).unwrap();
    let unrelated = EventSeal::for_event(&event(EventKind::Issuance, &id, 0, "other"));
    assert_eq!(controller.anchor(Some(anchoring(2, "ixn", &unrelated))), Err(Error::AnchorFailed));
    assert_eq!(controller.get_vc_state(&id), Ok(TelState::NotIssued));

    controller.issue(MESSAGE, event(EventKind::Issuance, &id, 0, "iss")).unwrap();
    finish(&mut controller, &seal, 2, "ixn-2");
    assert_eq!(controller.verify(MESSAGE, &signature), Ok(true));
}

#[test]
fn one_write_at_a_time() {
    let (mut controller, _) = ready();
    let id = digest(MESSAGE);
    let other = digest("another vc");
    let seal = controller.issue(MESSAGE, event(EventKind::Issuance, &id, 0, "iss")).unwrap();
    assert_eq!(
        controller.issue("another vc", event(EventKind::Issuance, &other, 0, "iss-b")),
        Err(Error::InvalidTransition)
    );
    let paired = controller.anchor(Some(anchoring(2, "ixn-2", &seal))).unwrap();
    assert_eq!(controller.anchor(Some(anchoring(3, "ixn-3", &seal))), Err(Error::AnchorFailed));
    assert_eq!(controller.pending_event(), Some(paired));
}

#[test]
fn a_refused_submission_can_be_repeated_or_abandoned() {
    let (mut controller, _) = ready();
    let id = digest(MESSAGE);
    assert_eq!(controller.submit(true), Err(Error::InvalidTransition));
    let seal = controller.issue(MESSAGE, event(EventKind::Issuance, &id, 0, "iss")).unwrap();
    let paired = controller.anchor(Some(anchoring(2, "ixn-2", &seal))).unwrap();
    assert_eq!(controller.submit(false), Err(Error::InvalidTransition));
    assert_eq!(controller.get_vc_state(&id), Ok(TelState::NotIssued));
    assert_eq!(controller.pending_event(), Some(paired.clone()));
    assert_eq!(controller.submit(true), Ok(()));
    assert_eq!(controller.get_tel(&id), Ok(vec![paired]));

    let seal = controller.revoke(MESSAGE, event(EventKind::Revocation, &id, 1, "rev")).unwrap();
    controller.anchor(Some(anchoring(3, "ixn-3", &seal))).unwrap();
    controller.abandon();
    assert_eq!(controller.pending_event(), None);
    assert_eq!(controller.submit(true), Err(Error::InvalidTransition));
    assert_eq!(controller.get_tel(&id).unwrap().len(), 1);
    let seal = controller.revoke(MESSAGE, event(EventKind::Revocation, &id, 1, "rev")).unwrap();
    finish(&mut controller, &seal, 4, "ixn-4");
    assert_eq!(controller.get_vc_state(&id), Ok(TelState::Revoked));
}

#[test]
fn rotation_has_to_extend_the_key_event_log() {
    let mut controller = Controller::new();
    assert_eq!(controller.rotate(0, vec![raw(0)]), Err(Error::AnchorFailed));
    controller.incept_kel(ISSUER.to_string(), vec![raw(0)]).unwrap();
    assert_eq!(controller.rotate(0, vec![raw(1)]), Err(Error::AnchorFailed));
    assert_eq!(controller.rotate(2, vec![raw(1)]), Err(Error::AnchorFailed));
    assert_eq!(controller.rotate(1, vec![raw(1)]), Ok(()));
    assert_eq!(controller.rotate(2, vec![raw(2)]), Ok(()));
}

#[test]
fn logs_grow_by_one_event_per_write_in_call_order() {
    let (mut controller, _) = ready();
    let a = digest("a");
    let b = digest("b");
    let seal = controller.issue("a", event(EventKind::Issuance, &a, 0, "a-iss")).unwrap();
    let a0 = finish(&mut controller, &seal, 2, "ixn-2");
    assert_eq!(controller.get_tel(&a).unwrap().len(), 1);
    assert_eq!(controller.get_tel(&b).unwrap().len(), 0);
    let seal = controller.issue("b", event(EventKind::Issuance, &b, 0, "b-iss")).unwrap();
    let b0 = finish(&mut controller, &seal, 3, "ixn-3");
    assert_eq!(controller.get_tel(&a).unwrap().len(), 1);
    assert_eq!(controller.get_tel(&b).unwrap().len(), 1);
    let seal = controller.revoke("a", event(EventKind::Revocation, &a, 1, "a-rev")).unwrap();
    let a1 = finish(&mut controller, &seal, 4, "ixn-4");
    assert_eq!(controller.get_tel(&a), Ok(vec![a0, a1]));
    assert_eq!(controller.get_tel(&b), Ok(vec![b0]));
}

#[test]
fn a_signature_that_cannot_be_one_is_refused() {
    let (mut controller, signer) = ready();
    let id = digest(MESSAGE);
    let seal = controller.issue(MESSAGE, event(EventKind::Issuance, &id, 0, "iss")).unwrap();
    finish(&mut controller, &seal, 2, "ixn-2");
    assert_eq!(controller.verify(MESSAGE, &[0xFFu8; 64]), Ok(false));
    assert_eq!(controller.verify(MESSAGE, &[]), Ok(false));
    assert_eq!(controller.verify(MESSAGE, &[0u8; 64]), Ok(false));
    assert_eq!(controller.verify(MESSAGE, &[0xFFu8; 65]), Ok(false));
    let mut signature = signer.sign(MESSAGE.as_bytes()).unwrap();
    assert_eq!(controller.verify(MESSAGE, &signature), Ok(true));
    signature[63] |= 0x20;
    assert_eq!(controller.verify(MESSAGE, &signature), Ok(false));
    signature[63] = 0xFF;
    assert_eq!(controller.verify(MESSAGE, &signature), Ok(false));
    assert!(!check_key(&key(&signer), MESSAGE.as_bytes(), &[0xFFu8; 64]));
    assert_eq!(check_keys(&vec![key(&signer)], MESSAGE.as_bytes(), &[0x20u8; 64]), vec![false]);
}

#[test]
fn only_an_ed25519_key_accepts() {
    let signer = Signer::new();
    let signature = signer.sign(MESSAGE.as_bytes()).unwrap();
    let bytes = signer.public_key().key();
    let of = |kind| Key { kind, bytes: bytes.clone() };
    assert!(check_key(&of(KeyKind::Ed25519), MESSAGE.as_bytes(), &signature));
    assert!(check_key(&of(KeyKind::Ed25519NonTransferable), MESSAGE.as_bytes(), &signature));
    for kind in [
        KeyKind::EcdsaSecp256k1,
        KeyKind::EcdsaSecp256k1NonTransferable,
        KeyKind::Ed448,
        KeyKind::Ed448NonTransferable,
        KeyKind::X25519,
        KeyKind::X448,
    ] {
        assert!(!kind.ed25519());
        assert!(!check_key(&of(kind), MESSAGE.as_bytes(), &signature));
    }
    assert!(KeyKind::Ed25519.ed25519());
    assert!(KeyKind::Ed25519NonTransferable.ed25519());
}

#[test]
fn the_inception_of_a_registry_has_to_name_the_issuer() {
    let mut controller = Controller::new();
    controller.incept_kel(ISSUER.to_string(), vec![raw(0)]).unwrap();
    let mut foreign = event(EventKind::Inception, REGISTRY, 0, "vcp");
    foreign.issuer = Some(REGISTRY.to_string());
    assert_eq!(controller.incept_tel(Some(vec![]), 0, foreign), Err(Error::InvalidTransition));
    let mut unnamed = event(EventKind::Inception, REGISTRY, 0, "vcp");
    unnamed.issuer = None;
    assert_eq!(controller.incept_tel(Some(vec![]), 0, unnamed), Err(Error::InvalidTransition));
    let mut elsewhere = event(EventKind::Inception, REGISTRY, 0, "vcp");
    elsewhere.issuer = Some("someone else".to_string());
    assert!(matches!(
        Controller::init(ISSUER.to_string(), vec![raw(0)], Some(vec![]), 0, elsewhere),
        Err(Error::InvalidTransition)
    ));
    let seal = controller
        .incept_tel(Some(vec![]), 0, event(EventKind::Inception, REGISTRY, 0, "vcp"))
        .unwrap();
    finish(&mut controller, &seal, 1, "ixn-1");
    assert_eq!(controller.registry().unwrap().issuer, ISSUER);
    assert_eq!(controller.issuer(), Some(ISSUER.to_string()));
}

#[test]
fn a_credential_is_issued_and_revoked_by_its_identifier() {
    let (mut controller, signer) = ready();
    let id = digest(MESSAGE);
    assert_eq!(
        controller.revoke_credential(event(EventKind::Revocation, &id, 1, "rev")),
        Err(Error::InvalidTransition)
    );
    assert_eq!(
        controller.issue_credential(event(EventKind::Issuance, &id, 1, "iss")),
        Err(Error::InvalidTransition)
    );
    let seal = controller.issue_credential(event(EventKind::Issuance, &id, 0, "iss")).unwrap();
    assert_eq!(seal.prefix, id);
    finish(&mut controller, &seal, 2, "ixn-2");
    assert_eq!(controller.verify(MESSAGE, &signer.sign(MESSAGE.as_bytes()).unwrap()), Ok(true));
    assert_eq!(
        controller.issue_credential(event(EventKind::Issuance, &id, 0, "iss")),
        Err(Error::InvalidTransition)
    );
    let seal = controller.revoke_credential(event(EventKind::Revocation, &id, 1, "rev")).unwrap();
    finish(&mut controller, &seal, 3, "ixn-3");
    assert_eq!(controller.get_vc_state(&id), Ok(TelState::Revoked));
}

#[test]
fn an_interaction_that_anchors_nothing_is_recorded() {
    let mut controller = Controller::new();
    let seal = EventSeal::for_event(&event(EventKind::Issuance, "c", 0, "lost"));
    assert_eq!(controller.interact(&anchoring(0, "ixn", &seal)), Err(Error::AnchorFailed));
    let (mut controller, signer) = ready();
    assert_eq!(controller.interact(&anchoring(1, "ixn", &seal)), Err(Error::AnchorFailed));
    assert_eq!(controller.interact(&anchoring(3, "ixn", &seal)), Err(Error::AnchorFailed));
    assert_eq!(controller.interact(&anchoring(2, "ixn", &seal)), Ok(()));
    let id = digest(MESSAGE);
    let seal = controller.issue(MESSAGE, event(EventKind::Issuance, &id, 0, "iss")).unwrap();
    finish(&mut controller, &seal, 3, "ixn-3");
    assert_eq!(controller.interact(&anchoring(4, "ixn-4", &seal)), Ok(()));
    assert_eq!(controller.verify(MESSAGE, &signer.sign(MESSAGE.as_bytes()).unwrap()), Ok(true));
    assert_eq!(controller.get_pub_key(id), Ok(vec![key(&signer)]));
}
