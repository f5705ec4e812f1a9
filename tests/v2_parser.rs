use ikebuster::v2::definitions::{
    Delete, KeyExchange, IKEv2, Notification, NotificationType, Payload, Proposal, SecurityAssociation, Transform,
};
use ikebuster::v2::params::{
    EncryptionAlgorithm, ExchangeType, IntegrityAlgorithm, KeyExchangeMethod, NotifyErrorMessage,
    NotifyStatusMessage, PayloadType, PseudorandomFunction, SecurityProtocol, UnparseableParameter,
};
use ikebuster::v2::parser::ParserError;

#[test]
fn parse_empty_packet() {
    let buff = vec![
        0x00, 0x04, 0xc0, 0x1d, 0xb4, 0x00, 0xb0, 0xc9, // initiator
        0x00, 0x00, 0x00, 0x00, 0x11, 0xf1, 0x5b, 0xa3, // responder
        0x00, // next payload
        0x20, // version
        0x25, // exchange type
        0x20, // flags, 0b00100000
        0x3b, 0x9a, 0xc9, 0xff, // message ID
        0x00, 0x00, 0x00, 0x1c, // length
    ];
    let packet = IKEv2::try_parse(buff.as_slice()).unwrap();
    assert_eq!(packet.initiator_cookie, 1337133713371337);
    assert_eq!(packet.responder_cookie, 301030307);
    assert_eq!(packet.message_id, 0x3b9ac9ff);
    assert_eq!(packet.exchange_type, ExchangeType::Informational);
    assert!(packet.response);
    assert_eq!(packet.payloads.len(), 0);
}

#[test]
fn parse_empty_sa_in_packet() {
    let buff = vec![
        0x00, 0x04, 0xc0, 0x1d, 0xb4, 0x00, 0xb0, 0xc9, // initiator
        0x00, 0x00, 0x00, 0x00, 0x00, 0x00, 0x00, 0x00, // responder
        0x21, // next payload, Security Association
        0x20, // version
        0x22, // exchange type
        0x08, // flags, 0b00001000
        0x1b, 0xad, 0xc9, 0xee, // message ID
        0x00, 0x00, 0x00, 0x1c, // length
        0x00, 0x00, 0x00, 0x04, // Security Association (generic payload) header
    ];
    let packet = IKEv2::try_parse(buff.as_slice()).unwrap();
    assert_eq!(packet.initiator_cookie, 1337133713371337);
    assert_eq!(packet.responder_cookie, 0);
    assert_eq!(packet.message_id, 0x1badc9ee);
    assert_eq!(packet.exchange_type, ExchangeType::IkeSaInit);
    assert!(!packet.response);
    assert!(packet.initiator);
    assert_eq!(packet.payloads.len(), 1);
    assert_eq!(packet.payloads[0], Payload::SecurityAssociation(SecurityAssociation { proposals: vec![] }));
}

#[test]
fn parse_sa_with_extra_attrs() {
    let buf = vec![
        0x00, 0x00, 0x00, 0x60, 0x01, 0x01, 0x00, 0x08, // Proposal header
        0x03, 0x00, 0x00, 0x0c, 0x01, 0x00, 0x00, 0x13, // Transform 1, encryption
        0x80, 0x0e, 0x7a, 0x69, // Transform 1, encryption, attributes
        0x03, 0x00, 0x00, 0x08, 0x02, 0x00, 0x00, 0x05, // Transform 2, PRF 1
        0x03, 0x00, 0x00, 0x0c, 0x02, 0x00, 0x00, 0x06, // Transform 3, PRF 2
        0x00, 0x00, 0x00, 0x00, // random data for transform 3 should be ignored
        0x03, 0x00, 0x00, 0x08, 0x02, 0x00, 0x00, 0x07, // Transform 4, PRF 3
        0x03, 0x00, 0x00, 0x08, 0x03, 0x00, 0x00, 0x0c, // Transform 5, integrity 1
        0x03, 0x00, 0x00, 0x08, 0x03, 0x00, 0x00, 0x0e, // Transform 6, integrity 2
        0x03, 0x00, 0x00, 0x18, 0x04, 0x00, 0x00, 0x20, // Transform 7, KE 1
        0x00, 0x11, 0x22, 0x33, 0x44, 0x55, 0x66, 0x77, // random data for transform 7
        0x88, 0x99, 0xaa, 0xbb, 0xcc, 0xdd, 0xee, 0xff, // random data for transform 7
        0x00, 0x00, 0x00, 0x08, 0x04, 0x00, 0x00, 0x1f, // Transform 8, KE 2
    ];
    let sa = SecurityAssociation::try_parse(&buf).unwrap();
    assert_eq!(sa.proposals.len(), 1);
    let p = &sa.proposals[0];
    assert_eq!(p.spi.len(), 0);
    assert_eq!(p.sequence_numbers.len(), 0);
    assert_eq!(p.key_exchange_methods.len(), 2);
    assert_eq!(
        p.pseudo_random_functions,
        vec![
            PseudorandomFunction::HmacSha2_256,
            PseudorandomFunction::HmacSha2_384,
            PseudorandomFunction::HmacSha2_512
        ]
    );
}

#[test]
fn generate_and_parse_full_sa() {
    let mut p = Proposal::new_empty(SecurityProtocol::InternetKeyExchange, Some(vec![]));
    p.add(vec![
        Transform::Integrity(IntegrityAlgorithm::HmacSha2_256_128),
        Transform::Integrity(IntegrityAlgorithm::HmacSha2_512_256),
        Transform::PseudoRandomFunction(PseudorandomFunction::HmacSha2_256),
        Transform::PseudoRandomFunction(PseudorandomFunction::HmacSha2_384),
        Transform::PseudoRandomFunction(PseudorandomFunction::HmacSha2_512),
        Transform::KeyExchange(KeyExchangeMethod::Curve448),
        Transform::KeyExchange(KeyExchangeMethod::Curve25519),
        Transform::Encryption(EncryptionAlgorithm::AesGcm12, Some(31337)),
    ]);
    let sa = SecurityAssociation { proposals: vec![p] };
    let sa_repr = sa.try_build(PayloadType::KeyExchange).unwrap();
    let buff = vec![
        0x22, 0x00, 0x00, 0x50, // Security Association header
        0x00, 0x00, 0x00, 0x4c, 0x01, 0x01, 0x00, 0x08, // Proposal header
        0x03, 0x00, 0x00, 0x0c, 0x01, 0x00, 0x00, 0x13, // Transform 1, encryption
        0x80, 0x0e, 0x7a, 0x69, // Transform 1, encryption, attributes
        0x03, 0x00, 0x00, 0x08, 0x02, 0x00, 0x00, 0x05, // Transform 2, PRF 1
        0x03, 0x00, 0x00, 0x08, 0x02, 0x00, 0x00, 0x06, // Transform 3, PRF 2
        0x03, 0x00, 0x00, 0x08, 0x02, 0x00, 0x00, 0x07, // Transform 4, PRF 3
        0x03, 0x00, 0x00, 0x08, 0x03, 0x00, 0x00, 0x0c, // Transform 5, integrity 1
        0x03, 0x00, 0x00, 0x08, 0x03, 0x00, 0x00, 0x0e, // Transform 6, integrity 2
        0x03, 0x00, 0x00, 0x08, 0x04, 0x00, 0x00, 0x20, // Transform 7, KE 1
        0x00, 0x00, 0x00, 0x08, 0x04, 0x00, 0x00, 0x1f, // Transform 8, KE 2
    ];
    assert_eq!(sa_repr, buff);
    let parsed_sa = SecurityAssociation::try_parse(&buff[4..]).unwrap();
    assert_eq!(sa, parsed_sa);
}

#[test]
fn sa_with_many_empty_proposals_round_trip() {
    let mut sa = SecurityAssociation { proposals: vec![] };
    for i in 0..100 {
        sa.proposals.push(Proposal::new_empty(SecurityProtocol::GroupIKEUpdate, Some(vec![i + 1])));
    }
    let generated_sa = sa.try_build(PayloadType::NoNextPayload).unwrap();
    let parsed_sa = SecurityAssociation::try_parse(&generated_sa[4..]).unwrap();
    assert_eq!(sa, parsed_sa);
    assert_eq!(parsed_sa.proposals.len(), 100);
    for i in 0..100 {
        assert_eq!(parsed_sa.proposals[i].spi, vec![1 + i as u8]);
    }
}

#[test]
fn empty_ike_proposals_cannot_be_built() {
    let mut sa = SecurityAssociation { proposals: vec![] };
    for i in 0..100 {
        sa.proposals.push(Proposal::new_empty(SecurityProtocol::InternetKeyExchange, Some(vec![i + 1])));
    }
    assert_eq!(
        sa.try_build(PayloadType::NoNextPayload).unwrap_err(),
        ikebuster::v2::generator::GeneratorError::MissingMandatoryTransform
    );
}

#[test]
fn generate_and_parse_notify() {
    let spi = [0x00, 0x01, 0x02, 0x03];
    let notify = Notification {
        variant: NotificationType::Error(NotifyErrorMessage::InvalidSpi),
        data: vec![0x13, 0x37],
        protocol: SecurityProtocol::EncapsulatingSecurityPayload,
        spi: Some(spi.to_vec()),
    };
    let generated_notify = notify.try_build(PayloadType::NoNextPayload).unwrap();
    let expected_result = vec![
        0x00, 0x00, 0x00, 0x0e, // Generic Payload Header
        0x03, 0x04, 0x00, 0x0b, // Notification header
        0x00, 0x01, 0x02, 0x03, // SPI
        0x13, 0x37, // Data
    ];
    assert_eq!(generated_notify, expected_result);
    let parsed_notify = Notification::try_parse(&expected_result[4..]).unwrap();
    assert_eq!(notify, parsed_notify);
}

#[test]
fn generate_and_parse_notify2() {
    let notification = Notification {
        variant: NotificationType::Status(NotifyStatusMessage::SignatureHashAlgorithms),
        data: vec![0x00, 0x02, 0x00, 0x03, 0x00, 0x04],
        protocol: SecurityProtocol::Reserved,
        spi: None,
    };
    let generated_notify = notification.try_build(PayloadType::Notify).unwrap();
    let expected_result = vec![
        0x29, 0x00, 0x00, 0x0e, 0x00, 0x00, 0x40, 0x2f, 0x00, 0x02, 0x00, 0x03, 0x00, 0x04,
    ];
    assert_eq!(generated_notify, expected_result);
    let parsed_notify = Notification::try_parse(&expected_result[4..]).unwrap();
    assert_eq!(notification, parsed_notify);
}

#[test]
fn generate_and_parse_packet() {
    let nonce = vec![
        0x13, 0x37, 0x13, 0x37, 0x13, 0x37, 0x13, 0x37, //
        0x13, 0x37, 0x13, 0x37, 0x13, 0x37, 0x13, 0x37,
    ];
    let ike = IKEv2 {
        initiator_cookie: 0x48cfb887c03b2e7f,
        responder_cookie: 0x55bf4a6acd91535e,
        exchange_type: ExchangeType::IkeSaInit,
        initiator: true,
        response: false,
        message_id: 0x661cf0d4,
        payloads: vec![
            Payload::VendorID(vec![0x42]),
            Payload::Nonce(nonce.clone()),
            Payload::SecurityAssociation(SecurityAssociation { proposals: vec![] }),
            Payload::EncryptedAndAuthenticated(vec![0x54, 0x65, 0x73, 0x74]),
        ],
    };
    let generated_packet = ike.try_build().unwrap();
    let parsed_ike = IKEv2::try_parse(generated_packet.as_slice()).unwrap();
    assert_eq!(ike, parsed_ike);
    assert_eq!(ike.payloads.len(), 4);
    assert_eq!(ike.payloads[0], Payload::VendorID(vec![0x42]));
    assert_eq!(ike.payloads[1], Payload::Nonce(nonce));
}

#[test]
fn parser_errors() {
    assert_eq!(IKEv2::try_parse(&[0u8; 27]).unwrap_err(), ParserError::BufferTooSmall);
    let mut header = vec![0u8; 28];
    header[17] = 0x10;
    assert_eq!(IKEv2::try_parse(&header).unwrap_err(), ParserError::WrongProtocol);
    header[17] = 0x20;
    header[18] = 0x22;
    header[16] = 5;
    assert_eq!(
        IKEv2::try_parse(&header).unwrap_err(),
        ParserError::UnparseableParameter(UnparseableParameter::Reserved)
    );
    assert_eq!(SecurityAssociation::try_parse(&[0, 0, 0, 8]).unwrap_err(), ParserError::BufferTooSmall);
    assert_eq!(
        SecurityAssociation::try_parse(&[0, 0, 0, 8, 2, 1, 0, 0]).unwrap_err(),
        ParserError::InvalidProposalNumberingStart
    );
    let two = vec![2, 0, 0, 8, 1, 6, 0, 0, 0, 0, 0, 8, 3, 6, 0, 0];
    assert_eq!(SecurityAssociation::try_parse(&two).unwrap_err(), ParserError::InvalidProposalNumbering);
    let missing = vec![0, 0, 0, 16, 1, 1, 0, 1, 0, 0, 0, 8, 1, 0, 0, 12];
    assert_eq!(SecurityAssociation::try_parse(&missing).unwrap_err(), ParserError::MissingMandatoryTransform);
    assert_eq!(Notification::try_parse(&[1, 4, 0, 14, 1, 2, 3, 4]).unwrap_err(), ParserError::ProtocolViolation);
    assert_eq!(Notification::try_parse(&[3, 0, 0, 14]).unwrap_err(), ParserError::ProtocolViolation);
    let truncated = vec![0, 0, 0, 16, 1, 1, 0, 1, 0, 0, 0, 8];
    assert_eq!(Proposal::try_parse(&truncated, 0).unwrap_err(), ParserError::BufferTooSmall);
}

#[test]
fn identifier_categories() {
    assert_eq!(EncryptionAlgorithm::try_from(12), Ok(EncryptionAlgorithm::AesCbc));
    assert_eq!(EncryptionAlgorithm::try_from(0), Err(UnparseableParameter::Reserved));
    assert_eq!(EncryptionAlgorithm::try_from(17), Err(UnparseableParameter::Unassigned));
    assert_eq!(EncryptionAlgorithm::try_from(1024), Err(UnparseableParameter::PrivateUse));
    assert_eq!(NotifyErrorMessage::try_from(16384), Err(UnparseableParameter::OutOfRange));
    assert_eq!(NotifyStatusMessage::try_from(16431), Ok(NotifyStatusMessage::SignatureHashAlgorithms));
    assert_eq!(NotifyStatusMessage::try_from(5), Err(UnparseableParameter::OutOfRange));
    assert_eq!(ExchangeType::try_from(240), Err(UnparseableParameter::PrivateUse));
    assert_eq!(KeyExchangeMethod::try_from(3), Err(UnparseableParameter::Reserved));
    for x in 0..=u16::MAX {
        if let Ok(v) = EncryptionAlgorithm::try_from(x) {
            assert_eq!(v.value(), x);
        }
        if let Ok(v) = NotifyStatusMessage::try_from(x) {
            assert_eq!(v.value(), x);
        }
    }
}

#[test]
fn proposal_with_only_unkept_transforms_misses_mandatory() {
    // IKE proposal whose only transform is an additional key exchange (type 6)
    let buf = vec![0, 0, 0, 16, 1, 1, 0, 1, 0, 0, 0, 8, 6, 0, 0, 31];
    assert_eq!(SecurityAssociation::try_parse(&buf).unwrap_err(), ParserError::MissingMandatoryTransform);
    // the same transform under a protocol without mandatory types is accepted and not kept
    let other = vec![0, 0, 0, 16, 1, 6, 0, 1, 0, 0, 0, 8, 6, 0, 0, 31];
    let sa = SecurityAssociation::try_parse(&other).unwrap();
    assert_eq!(sa.proposals[0].protocol, SecurityProtocol::GroupIKEUpdate);
    assert!(sa.proposals[0].is_empty());
}

#[test]
fn key_exchange_and_delete_bodies() {
    let k = KeyExchange::try_parse(&[0x00, 0x11, 0x00, 0x00, 0x01, 0x02]).unwrap();
    assert_eq!(k.dh_group, KeyExchangeMethod::ModP6144);
    assert_eq!(k.data, vec![0x01, 0x02]);
    assert_eq!(
        KeyExchange::try_parse(&[0x00, 0x03, 0x00, 0x00]).unwrap_err(),
        ParserError::UnparseableParameter(UnparseableParameter::Reserved)
    );
    assert_eq!(KeyExchange::try_parse(&[0x00, 0x11]).unwrap_err(), ParserError::BufferTooSmall);
    let d = Delete::try_parse(&[3, 4, 0, 1, 1, 2, 3, 4]).unwrap();
    assert_eq!(d.protocol, SecurityProtocol::EncapsulatingSecurityPayload);
    assert_eq!((d.spi_size, d.num_spis, d.spis.clone()), (4, 1, vec![1, 2, 3, 4]));
    assert_eq!(
        Delete::try_parse(&[7, 0, 0, 0]).unwrap_err(),
        ParserError::UnparseableParameter(UnparseableParameter::Unassigned)
    );
}

#[test]
fn packet_with_key_exchange_and_delete_round_trips() {
    let ike = IKEv2 {
        initiator_cookie: 7,
        responder_cookie: 9,
        exchange_type: ExchangeType::Informational,
        initiator: false,
        response: true,
        message_id: 3,
        payloads: vec![
            Payload::KeyExchange(KeyExchange { dh_group: KeyExchangeMethod::Curve25519, data: vec![9; 32] }),
            Payload::Delete(Delete { protocol: SecurityProtocol::EncapsulatingSecurityPayload, spi_size: 4, num_spis: 1, spis: vec![1, 2, 3, 4] }),
        ],
    };
    let bytes = ike.try_build().unwrap();
    assert_eq!(IKEv2::try_parse(&bytes).unwrap(), ike);
}
