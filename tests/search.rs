use std::collections::{HashSet, VecDeque};

use ikebuster::engine::{
    all_candidates, bisect, chunk_transforms, gen_v1_transforms, insert_sorted, payload_to_transforms,
    remainder, MessageOutcome, ScanError, Scanner, TickAction,
};
use ikebuster::v1::definitions::{Header, NotificationPayload, Packet};
use ikebuster::v1::generator::{MessageBuilder, Transform};
use ikebuster::v1::params::{
    AuthenticationMethod, EncryptionAlgorithm, ExchangeType, GroupDescription, HashAlgorithm,
    NotifyMessageType, PayloadType,
};
use ikebuster::v1::parser::parse_packet;

fn header(cookie: u64, mode: ExchangeType, next: PayloadType) -> Header {
    Header {
        initiator_cookie: cookie,
        responder_cookie: 5,
        next_payload: next,
        major_version: 1,
        minor_version: 0,
        exchange_mode: mode,
        flags: 0,
        message_id: 0,
        length: 0,
    }
}

fn no_proposal_chosen(cookie: u64) -> Packet {
    Packet {
        header: header(cookie, ExchangeType::Informational, PayloadType::Notification),
        notification_payloads: vec![NotificationPayload {
            next_payload: PayloadType::NoNextPayload,
            length: 12,
            protocol_id: 1,
            notify_message_type: NotifyMessageType::NoProposalChosen,
            notification: vec![],
        }],
        security_associations: vec![],
        vendor_ids: vec![],
        transforms: vec![],
        proposals: vec![],
    }
}

/// A responder that accepts `accepted`: for a probe it answers with one of the offered
/// transforms that it accepts, or NO_PROPOSAL_CHOSEN.
fn respond(accepted: &HashSet<Transform>, message: &[u8], cookie: u64) -> Packet {
    let probe = parse_packet(message).unwrap();
    let offered = payload_to_transforms(&probe.security_associations[0].proposal_payload[0]).unwrap();
    match offered.iter().find(|t| accepted.contains(t)) {
        Some(t) => {
            let answer = MessageBuilder::new().add_transform(*t).build_with_cookie(cookie);
            parse_packet(&answer).unwrap()
        }
        None => no_proposal_chosen(cookie),
    }
}

/// Drive a scan to its end; returns the result and the number of probes sent.
fn run(mut scanner: Scanner, accepted: &HashSet<Transform>) -> (Vec<Transform>, usize) {
    let mut probes = 0;
    let mut cookie = 1000u64;
    loop {
        cookie += 1;
        match scanner.on_tick_with_cookie(cookie) {
            TickAction::Send { message, cookie: c, .. } => {
                probes += 1;
                let response = respond(accepted, &message, c);
                scanner.on_message(&response);
            }
            TickAction::Wait => {}
            TickAction::Finish(result) => return (result.valid_transforms, probes),
        }
        assert!(probes < 100_000);
    }
}

fn candidates(n: usize) -> Vec<Transform> {
    all_candidates().into_iter().take(n).collect()
}

#[test]
fn empty_scan() {
    let batches = chunk_transforms(&candidates(160), 20);
    let (found, probes) = run(Scanner::new(batches), &HashSet::new());
    assert!(found.is_empty());
    assert!(probes <= 9);
    assert_eq!(probes, 8);
}

#[test]
fn single_acceptance() {
    let target = Transform {
        encryption_algorithm: EncryptionAlgorithm::TripleDesCbc,
        hash_algorithm: HashAlgorithm::Sha,
        authentication_method: AuthenticationMethod::PreSharedKey,
        group_description: GroupDescription::Modp1024,
        key_size: None,
    };
    let cands: Vec<Transform> = all_candidates()
        .into_iter()
        .filter(|t| t.encryption_algorithm == EncryptionAlgorithm::TripleDesCbc && t.hash_algorithm == HashAlgorithm::Sha)
        .collect();
    assert_eq!(cands.len(), 240);
    assert!(cands.contains(&target));
    let n = cands.len();
    let batches = chunk_transforms(&cands, n);
    let accepted: HashSet<Transform> = [target].into_iter().collect();
    let (found, probes) = run(Scanner::new(batches), &accepted);
    assert_eq!(found, vec![target]);
    let log2 = (usize::BITS - (n - 1).leading_zeros()) as usize;
    assert!(probes >= 1 && probes <= log2 + 2);
}

#[test]
fn search_finds_every_accepted_transform() {
    let cands = candidates(300);
    let accepted: HashSet<Transform> = [3usize, 17, 18, 150, 299].iter().map(|i| cands[*i]).collect();
    let (found, _) = run(Scanner::new(chunk_transforms(&cands, 64)), &accepted);
    let mut expected: Vec<Transform> = accepted.into_iter().collect();
    expected.sort();
    assert_eq!(found, expected);
}

#[test]
fn two_empty_ticks_end_the_scan() {
    let mut s = Scanner::new(VecDeque::new());
    assert_eq!(s.on_tick_with_cookie(1), TickAction::Wait);
    assert!(matches!(s.on_tick_with_cookie(2), TickAction::Finish(r) if r.valid_transforms.is_empty()));
}

#[test]
fn unknown_and_ignored_messages() {
    let mut s = Scanner::new(chunk_transforms(&candidates(4), 4));
    assert_eq!(s.on_message(&no_proposal_chosen(77)), MessageOutcome::UnknownCookie);
    let mut other = no_proposal_chosen(77);
    other.notification_payloads[0].notify_message_type = NotifyMessageType::InvalidCookie;
    assert_eq!(s.on_message(&other), MessageOutcome::Ignored);
    match s.on_tick_with_cookie(9) {
        TickAction::Send { cookie, pause_first, .. } => {
            assert_eq!(cookie, 9);
            assert!(!pause_first);
        }
        other => panic!("unexpected {other:?}"),
    }
    assert_eq!(s.on_message(&no_proposal_chosen(9)), MessageOutcome::Rejected);
    assert!(s.open.is_empty());
    assert!(s.pending.is_empty());
}

#[test]
fn acceptance_bisects_and_pauses() {
    let cands = candidates(5);
    let mut s = Scanner::new(chunk_transforms(&cands, 5));
    let (message, cookie) = match s.on_tick_with_cookie(31) {
        TickAction::Send { message, cookie, .. } => (message, cookie),
        other => panic!("unexpected {other:?}"),
    };
    let accepted: HashSet<Transform> = [cands[2]].into_iter().collect();
    assert_eq!(s.on_message(&respond(&accepted, &message, cookie)), MessageOutcome::Accepted);
    assert_eq!(s.found, vec![cands[2]]);
    assert_eq!(s.pending.len(), 2);
    assert_eq!(s.pending[0], vec![cands[0], cands[3]]);
    assert_eq!(s.pending[1], vec![cands[1], cands[4]]);
    assert!(s.do_sleep);
    match s.on_tick_with_cookie(32) {
        TickAction::Send { pause_first, .. } => assert!(pause_first),
        other => panic!("unexpected {other:?}"),
    }
}

#[test]
fn bisection_halves() {
    let c = candidates(7);
    let (a, b) = bisect(c.clone());
    assert_eq!(a, vec![c[0], c[2], c[4], c[6]]);
    assert_eq!(b, vec![c[1], c[3], c[5]]);
    let (a, b) = bisect(vec![c[0]]);
    assert_eq!((a.len(), b.len()), (1, 0));
    let (a, b) = bisect(vec![]);
    assert!(a.is_empty() && b.is_empty());
    assert_eq!(remainder(&c, &vec![c[1], c[5]]), vec![c[0], c[2], c[3], c[4], c[6]]);
}

#[test]
fn enumeration_counts() {
    let all = all_candidates();
    // 7 fixed-key ciphers and AES-CBC with 3 key lengths, 6 hashes, 8 methods, 30 groups
    assert_eq!(all.len(), (7 + 3) * 6 * 8 * 30);
    let unique: HashSet<Transform> = all.iter().copied().collect();
    assert_eq!(unique.len(), all.len());
    let aes: Vec<&Transform> = all.iter().filter(|t| t.encryption_algorithm == EncryptionAlgorithm::AesCbc).collect();
    assert_eq!(aes.len(), 3 * 6 * 8 * 30);
    assert!(aes.iter().all(|t| matches!(t.key_size, Some(128) | Some(192) | Some(256))));
    assert!(all.iter().filter(|t| t.encryption_algorithm != EncryptionAlgorithm::AesCbc).all(|t| t.key_size.is_none()));
    assert_eq!(all, all_candidates());
    let batches = gen_v1_transforms(20);
    assert_eq!(batches.len(), all.len() / 20);
    assert!(batches.iter().all(|b| b.len() == 20));
    let flat: Vec<Transform> = batches.into_iter().flatten().collect();
    assert_eq!(flat, all);
    let odd = gen_v1_transforms(1000);
    assert_eq!(odd.len(), 15);
    assert_eq!(odd[14].len(), 400);
}

#[test]
fn result_set_stays_sorted() {
    let c = candidates(10);
    let mut found = vec![];
    for i in [5usize, 1, 9, 1, 0, 5, 7] {
        insert_sorted(&mut found, c[i]);
    }
    assert_eq!(found, vec![c[0], c[1], c[5], c[7], c[9]]);
}

#[test]
fn start_batches_all_candidates() {
    let s = Scanner::start(100);
    assert_eq!(s.pending.len(), 144);
    assert!(s.open.is_empty() && s.found.is_empty());
    assert_eq!(ScanError::Send("x".to_string()), ScanError::Send("x".to_string()));
}
