use ikebuster::engine::payload_to_transforms;
use ikebuster::v1::definitions::DataAttribute;
use ikebuster::v1::generator::{MessageBuilder, Transform};
use ikebuster::v1::params::{
    AttributeType, AuthenticationMethod, EncryptionAlgorithm, ExchangeType, GroupDescription,
    HashAlgorithm, PayloadType,
};
use ikebuster::v1::parser::{
    parse_data_attribute, parse_header, parse_packet, parse_proposal, IsakmpParseError,
};

fn aes256() -> Transform {
    Transform {
        encryption_algorithm: EncryptionAlgorithm::AesCbc,
        hash_algorithm: HashAlgorithm::Sha2_256,
        authentication_method: AuthenticationMethod::PreSharedKey,
        group_description: GroupDescription::Modp2048,
        key_size: Some(256),
    }
}

fn triple_des() -> Transform {
    Transform {
        encryption_algorithm: EncryptionAlgorithm::TripleDesCbc,
        hash_algorithm: HashAlgorithm::Sha,
        authentication_method: AuthenticationMethod::PreSharedKey,
        group_description: GroupDescription::Modp1024,
        key_size: None,
    }
}

fn probe(ts: &[Transform], cookie: u64) -> Vec<u8> {
    let mut b = MessageBuilder::new();
    for t in ts {
        b = b.add_transform(*t);
    }
    b.build_with_cookie(cookie)
}

#[test]
fn round_trip_sa_with_one_aes256_transform() {
    let msg = probe(&[aes256()], 0x1122334455667788);
    let packet = parse_packet(&msg).unwrap();
    assert_eq!(packet.header.initiator_cookie, 0x1122334455667788);
    assert_eq!(packet.header.exchange_mode, ExchangeType::IdentityProtection);
    assert_eq!(packet.header.major_version, 1);
    assert_eq!(packet.header.minor_version, 0);
    assert_eq!(packet.header.length as usize, msg.len());
    assert_eq!(packet.security_associations.len(), 1);
    let sa = &packet.security_associations[0];
    assert_eq!(sa.situation, vec![0, 0, 0, 1]);
    assert_eq!(sa.proposal_payload.len(), 1);
    let prop = &sa.proposal_payload[0];
    assert_eq!(prop.no_of_transforms, 1);
    assert_eq!(payload_to_transforms(prop).unwrap(), vec![aes256()]);
    let attrs = &prop.transforms[0].sa_attributes;
    assert_eq!(attrs.len(), 7);
    match &attrs[6] {
        DataAttribute::DataAttributeShort(s) => {
            assert_eq!(s.attribute_type, AttributeType::KeyLength);
            assert_eq!(s.attribute_value, 256);
        }
        DataAttribute::DataAttributeLong(_) => panic!("key length must be short"),
    }
    let n = msg.len();
    assert_eq!(&msg[n - 4..], &[0x80, 0x0e, 0x01, 0x00]);
}

#[test]
fn malformed_reserved_byte() {
    let mut msg = probe(&[aes256()], 7);
    // generic header of the proposal: 28 (header) + 12 (SA with situation)
    msg[41] = 1;
    assert_eq!(parse_packet(&msg).unwrap_err(), IsakmpParseError::UnexpectedPayload);
    assert_eq!(parse_proposal(&msg[40..]).unwrap_err(), IsakmpParseError::UnexpectedPayload);
}

#[test]
fn transform_count_mismatch() {
    let mut msg = probe(&[aes256(), triple_des()], 7);
    msg[47] = 3;
    assert_eq!(parse_proposal(&msg[40..]).unwrap_err(), IsakmpParseError::UnexpectedPayload);
    assert_eq!(parse_packet(&msg).unwrap_err(), IsakmpParseError::UnexpectedPayload);
}

#[test]
fn exchange_mode_none_is_rejected() {
    let mut msg = probe(&[triple_des()], 7);
    msg[18] = 0;
    assert_eq!(parse_packet(&msg).unwrap_err(), IsakmpParseError::UnexpectedPayload);
}

#[test]
fn truncation_gives_buffer_too_small() {
    let msg = probe(&[triple_des()], 7);
    for cut in 0..msg.len() {
        assert_eq!(parse_packet(&msg[..cut]).unwrap_err(), IsakmpParseError::BufferTooSmall, "cut at {cut}");
    }
}

#[test]
fn probe_lengths() {
    for n in [1usize, 2, 20, 100, 500] {
        let ts: Vec<Transform> = (0..n).map(|i| if i % 2 == 0 { aes256() } else { triple_des() }).collect();
        let msg = probe(&ts, 42);
        let declared = u32::from_be_bytes([msg[24], msg[25], msg[26], msg[27]]) as usize;
        assert_eq!(declared, msg.len());
        assert_eq!(msg.len() % 4, 0);
        let expected = 28 + 12 + 8 + ts.iter().map(|t| if t.key_size.is_some() { 36 } else { 32 }).sum::<usize>();
        assert_eq!(msg.len(), expected);
    }
}

#[test]
fn probes_differ_only_in_cookie() {
    let ts = [aes256(), triple_des()];
    let a = probe(&ts, 1);
    let b = probe(&ts, 0xdead_beef_0000_0001);
    assert_eq!(a.len(), b.len());
    assert_ne!(a[..8], b[..8]);
    assert_eq!(a[8..], b[8..]);
}

#[test]
fn default_builder_is_empty() {
    assert!(MessageBuilder::default().transforms.is_empty());
    assert!(MessageBuilder::new().transforms.is_empty());
}

#[test]
fn build_uses_random_cookie() {
    let (msg, cookie) = MessageBuilder::new().add_transform(triple_des()).build();
    assert_eq!(msg[..8], cookie.to_be_bytes());
    assert_eq!(msg, probe(&[triple_des()], cookie));
}

#[test]
fn probe_layout() {
    let msg = probe(&[triple_des()], 0x0102030405060708);
    let expected: Vec<u8> = vec![
        1, 2, 3, 4, 5, 6, 7, 8, // initiator cookie
        0, 0, 0, 0, 0, 0, 0, 0, // responder cookie
        1, 0x10, 2, 0, // next payload SA, version 1.0, main mode, flags
        0, 0, 0, 0, 0, 0, 0, 80, // message id, length
        0, 0, 0, 52, 0, 0, 0, 1, 0, 0, 0, 1, // SA: header, DOI, situation
        0, 0, 0, 40, 1, 1, 0, 1, // proposal
        0, 0, 0, 32, 0, 1, 0, 0, // transform header
        0x80, 1, 0, 5, 0x80, 2, 0, 2, 0x80, 3, 0, 1, 0x80, 4, 0, 2, // algorithms
        0x80, 11, 0, 1, 0x80, 12, 0x1b, 0xa8, // life type, life duration
    ];
    assert_eq!(msg, expected);
}

#[test]
fn header_fields() {
    let msg = probe(&[triple_des()], 99);
    let h = parse_header(&msg).unwrap();
    assert_eq!(h.initiator_cookie, 99);
    assert_eq!(h.next_payload, PayloadType::SecurityAssociation);
    assert_eq!(h.flags, 0);
    assert_eq!(h.message_id, 0);
    let mut bad = msg.clone();
    bad[18] = 200;
    assert_eq!(parse_header(&bad).unwrap_err(), IsakmpParseError::UnparsableVariant);
    assert_eq!(parse_header(&msg[..27]).unwrap_err(), IsakmpParseError::BufferTooSmall);
}

#[test]
fn data_attribute_formats() {
    let (short, n) = parse_data_attribute(&[0x80, 0x0e, 0x00, 0x80]).unwrap();
    assert_eq!(n, 4);
    assert!(matches!(short, DataAttribute::DataAttributeShort(s) if s.attribute_type == AttributeType::KeyLength && s.attribute_value == 128));
    let (long, n) = parse_data_attribute(&[0x00, 0x0c, 0x00, 0x02, 0x1b, 0xa8, 0xff]).unwrap();
    assert_eq!(n, 6);
    match long {
        DataAttribute::DataAttributeLong(l) => {
            assert_eq!(l.attribute_type, AttributeType::LifeDuration);
            assert_eq!(l.attribute_value, vec![0x1b, 0xa8]);
        }
        DataAttribute::DataAttributeShort(_) => panic!("expected long attribute"),
    }
    assert_eq!(parse_data_attribute(&[0x00, 0x0c, 0x00, 0x04, 1]).unwrap_err(), IsakmpParseError::BufferTooSmall);
    assert_eq!(parse_data_attribute(&[0x80, 0x30, 0, 0]).unwrap_err(), IsakmpParseError::UnparsableVariant);
    assert_eq!(parse_data_attribute(&[0x80]).unwrap_err(), IsakmpParseError::BufferTooSmall);
}

#[test]
fn v1_identifiers() {
    assert_eq!(EncryptionAlgorithm::try_from(7).unwrap(), EncryptionAlgorithm::AesCbc);
    assert_eq!(EncryptionAlgorithm::try_from(9).unwrap_err().value, 9);
    assert_eq!(GroupDescription::try_from(14).unwrap(), GroupDescription::Modp2048);
    assert_eq!(EncryptionAlgorithm::all().len(), 8);
    assert_eq!(HashAlgorithm::all().len(), 6);
    assert_eq!(AuthenticationMethod::all().len(), 8);
    assert_eq!(GroupDescription::all().len(), 30);
}

#[test]
fn wrong_major_version_is_rejected() {
    let mut msg = probe(&[triple_des()], 5);
    msg[17] = 0x20;
    assert_eq!(parse_header(&msg).unwrap_err(), IsakmpParseError::UnexpectedPayload);
    assert_eq!(parse_packet(&msg).unwrap_err(), IsakmpParseError::UnexpectedPayload);
    msg[17] = 0x11;
    assert_eq!(parse_header(&msg).unwrap().minor_version, 1);
}
