use ikebuster::v2::header::{AttributeHeader, NotifyHeader, ProposalHeader, TransformHeader};
use ikebuster::v2::definitions::{
    Attribute, IKEv2, KeyExchange, Notification, NotificationType, Payload, Proposal,
    SecurityAssociation, Transform,
};
use ikebuster::v2::generator::GeneratorError;
use ikebuster::v2::generator::GeneratorError::MissingMandatoryTransform;
use ikebuster::v2::params::{
    EncryptionAlgorithm, ExchangeType, IntegrityAlgorithm, KeyExchangeMethod, NotifyErrorMessage,
    PayloadType, PseudorandomFunction, SecurityProtocol,
};

#[test]
fn test() {
    assert_eq!(Attribute::KeyLength(0).build(), vec![0x80, 0x0e, 0x00, 0x00]);
    assert_eq!(Attribute::KeyLength(128).build(), vec![0x80, 0x0e, 0x00, 0x80]);
    assert_eq!(Attribute::KeyLength(255).build(), vec![0x80, 0x0e, 0x00, 0xff]);
    assert_eq!(Attribute::KeyLength(256).build(), vec![0x80, 0x0e, 0x01, 0x00]);
    assert_eq!(Attribute::KeyLength(1337).build(), vec![0x80, 0x0e, 0x05, 0x39]);
}

#[test]
fn simple() {
    assert_eq!(
        KeyExchange {
            dh_group: KeyExchangeMethod::ModP6144,
            data: vec![0x01, 0x02, 0x03, 0x04, 0x05, 0x06, 0x07, 0x08],
        }
        .build(PayloadType::Notify),
        vec![
            0x29, 0x00, 0x00, 0x10, // Generic payload header
            0x00, 0x11, // DH group
            0x00, 0x00, // reserved
            0x01, 0x02, 0x03, 0x04, 0x05, 0x06, 0x07, 0x08 // key exchange data
        ]
    )
}

#[test]
fn packet_empty() {
    assert_eq!(
        IKEv2 {
            initiator_cookie: 1337133713371337,
            responder_cookie: 301030307,
            exchange_type: ExchangeType::IkeSaInit,
            initiator: true,
            response: false,
            message_id: 999999999,
            payloads: vec![],
        }
        .try_build()
        .unwrap(),
        vec![
            0x00, 0x04, 0xc0, 0x1d, 0xb4, 0x00, 0xb0, 0xc9, // initiator
            0x00, 0x00, 0x00, 0x00, 0x11, 0xf1, 0x5b, 0xa3, // responder
            0x00, // next payload
            0x20, // version
            0x22, // exchange type
            0x08, // flags
            0x3b, 0x9a, 0xc9, 0xff, // message ID
            0x00, 0x00, 0x00, 0x1c // length
        ]
    )
}

#[test]
fn proposal_empty() {
    assert_eq!(
        Proposal::new_empty(SecurityProtocol::InternetKeyExchange, Some(vec![0x13, 0x37]))
            .try_build(1, true)
            .unwrap_err(),
        MissingMandatoryTransform
    );
}

#[test]
fn single_missing_others() {
    let mut p = Proposal::new_empty(SecurityProtocol::InternetKeyExchange, None);
    p.key_exchange_methods.push(KeyExchangeMethod::Curve448);
    let e = p.try_build(1, true);
    assert!(e.is_err());
    assert_eq!(e.err().unwrap(), MissingMandatoryTransform);
}

#[test]
fn full() {
    let mut p = Proposal::new_empty(SecurityProtocol::InternetKeyExchange, None);
    p.encryption_algorithms.push((EncryptionAlgorithm::AesCbc, Some(256)));
    p.pseudo_random_functions.push(PseudorandomFunction::HmacSha2_256);
    p.integrity_algorithms.push(IntegrityAlgorithm::HmacSha2_256_128);
    p.key_exchange_methods.push(KeyExchangeMethod::Curve25519);
    assert_eq!(
        p.try_build(4, true).unwrap(),
        vec![
            0x00, 0x00, 0x00, 0x2c, 0x04, 0x01, 0x00, 0x04, // proposal header
            0x03, 0x00, 0x00, 0x0c, 0x01, 0x00, 0x00, 0x0c, // encryption header
            0x80, 0x0e, 0x01, 0x00, // encryption payload
            0x03, 0x00, 0x00, 0x08, 0x02, 0x00, 0x00, 0x05, // PRF
            0x03, 0x00, 0x00, 0x08, 0x03, 0x00, 0x00, 0x0c, // integrity
            0x00, 0x00, 0x00, 0x08, 0x04, 0x00, 0x00, 0x1f // KE
        ]
    );
}

#[test]
fn full_also_with_duplicates() {
    let mut p = Proposal::new_empty(SecurityProtocol::InternetKeyExchange, Some(vec![0x13, 0x37]));
    p.add(vec![
        Transform::Integrity(IntegrityAlgorithm::Aes256Gmac),
        Transform::Encryption(EncryptionAlgorithm::CamelliaCbc, None),
        Transform::Encryption(EncryptionAlgorithm::AesCcm16, Some(256)),
        Transform::Encryption(EncryptionAlgorithm::AesGcm16, Some(128)),
        Transform::Integrity(IntegrityAlgorithm::Aes256Gmac),
        Transform::Integrity(IntegrityAlgorithm::Aes256Gmac),
        Transform::KeyExchange(KeyExchangeMethod::Curve25519),
        Transform::KeyExchange(KeyExchangeMethod::Curve448),
        Transform::KeyExchange(KeyExchangeMethod::ModP4096),
        Transform::PseudoRandomFunction(PseudorandomFunction::HmacStreebog512),
        Transform::PseudoRandomFunction(PseudorandomFunction::HmacSha2_512),
    ]);
    let result = p.try_build(100, true).unwrap();
    assert_eq!(result.len(), 106);
    assert_eq!(
        result[..42],
        vec![
            0x00, 0x00, 0x00, 0x6a, 0x64, 0x01, 0x02, 0x0b, // proposal header
            0x13, 0x37, // SPI
            0x03, 0x00, 0x00, 0x08, 0x01, 0x00, 0x00, 0x17, // encryption 1
            0x03, 0x00, 0x00, 0x0c, 0x01, 0x00, 0x00, 0x10, // encryption 2
            0x80, 0x0e, 0x01, 0x00, // encryption 2 payload
            0x03, 0x00, 0x00, 0x0c, 0x01, 0x00, 0x00, 0x14, // encryption 3
            0x80, 0x0e, 0x00, 0x80, // encryption 3 payload
        ]
    );
    assert_eq!(
        result[42..],
        vec![
            0x03, 0x00, 0x00, 0x08, 0x02, 0x00, 0x00, 0x09, // PRF
            0x03, 0x00, 0x00, 0x08, 0x02, 0x00, 0x00, 0x07, // PRF
            0x03, 0x00, 0x00, 0x08, 0x03, 0x00, 0x00, 0x0b, // integrity 1
            0x03, 0x00, 0x00, 0x08, 0x03, 0x00, 0x00, 0x0b, // integrity 2
            0x03, 0x00, 0x00, 0x08, 0x03, 0x00, 0x00, 0x0b, // integrity 3
            0x03, 0x00, 0x00, 0x08, 0x04, 0x00, 0x00, 0x1f, // KE
            0x03, 0x00, 0x00, 0x08, 0x04, 0x00, 0x00, 0x20, // KE
            0x00, 0x00, 0x00, 0x08, 0x04, 0x00, 0x00, 0x10, // KE
        ]
    );
}

#[test]
fn security_association_empty() {
    assert_eq!(
        SecurityAssociation { proposals: vec![] }.try_build(PayloadType::NoNextPayload).unwrap(),
        vec![0x00, 0x00, 0x00, 0x04]
    )
}

#[test]
fn simple_full() {
    let mut p = Proposal::new_empty(SecurityProtocol::InternetKeyExchange, Some(vec![0x42]));
    p.add(vec![
        Transform::Encryption(EncryptionAlgorithm::AesGcm16, Some(256)),
        Transform::Integrity(IntegrityAlgorithm::HmacSha2_256_128),
        Transform::PseudoRandomFunction(PseudorandomFunction::HmacSha2_256),
        Transform::KeyExchange(KeyExchangeMethod::Curve448),
    ]);
    assert_eq!(
        SecurityAssociation { proposals: vec![p] }.try_build(PayloadType::KeyExchange).unwrap(),
        vec![
            0x22, 0x00, 0x00, 0x31, // Security Association header
            0x00, 0x00, 0x00, 0x2d, 0x01, 0x01, 0x01, 0x04, // Proposal header
            0x42, // SPI
            0x03, 0x00, 0x00, 0x0c, 0x01, 0x00, 0x00, 0x14, // Transform 1
            0x80, 0x0e, 0x01, 0x00, // Transform 1 attributes
            0x03, 0x00, 0x00, 0x08, 0x02, 0x00, 0x00, 0x05, // Transform 2
            0x03, 0x00, 0x00, 0x08, 0x03, 0x00, 0x00, 0x0c, // Transform 3
            0x00, 0x00, 0x00, 0x08, 0x04, 0x00, 0x00, 0x20 // Transform 4
        ]
    )
}

#[test]
fn key_exchange() {
    assert_eq!(
        Transform::KeyExchange(KeyExchangeMethod::Curve25519).build(true),
        vec![0x00, 0x00, 0x00, 0x08, 0x04, 0x00, 0x00, 0x1f]
    );
    assert_eq!(
        Transform::KeyExchange(KeyExchangeMethod::Curve25519).build(false),
        vec![0x03, 0x00, 0x00, 0x08, 0x04, 0x00, 0x00, 0x1f]
    );
}

#[test]
fn encryption() {
    assert_eq!(
        Transform::Encryption(EncryptionAlgorithm::CamelliaCtr, Some(192)).build(true),
        vec![0x00, 0x00, 0x00, 0x0c, 0x01, 0x00, 0x00, 0x18, 0x80, 0x0e, 0x00, 0xc0]
    );
    assert_eq!(
        Transform::Encryption(EncryptionAlgorithm::AesCbc, Some(128)).build(false),
        vec![0x03, 0x00, 0x00, 0x0c, 0x01, 0x00, 0x00, 0x0c, 0x80, 0x0e, 0x00, 0x80]
    )
}

#[test]
fn generator_errors() {
    let mut p = Proposal::new_empty(SecurityProtocol::EncapsulatingSecurityPayload, Some(vec![0; 256]));
    p.integrity_algorithms.push(IntegrityAlgorithm::HmacSha2_256_128);
    p.sequence_numbers.push(ikebuster::v2::params::SequenceNumberType::Sequential32bit);
    assert_eq!(p.try_build(1, true).unwrap_err(), GeneratorError::MaxSpiLengthExceeded);
    let short_nonce = Payload::Nonce(vec![1; 15]);
    assert_eq!(short_nonce.try_build(PayloadType::NoNextPayload).unwrap_err(), GeneratorError::InvalidNonceLength);
    let long_nonce = Payload::Nonce(vec![1; 257]);
    assert_eq!(long_nonce.try_build(PayloadType::NoNextPayload).unwrap_err(), GeneratorError::InvalidNonceLength);
    let many = SecurityAssociation {
        proposals: (0..255).map(|_| Proposal::new_empty(SecurityProtocol::GroupIKEUpdate, None)).collect(),
    };
    assert_eq!(many.try_build(PayloadType::NoNextPayload).unwrap_err(), GeneratorError::TooManyProposals);
    let packet = IKEv2 {
        initiator_cookie: 1,
        responder_cookie: 2,
        exchange_type: ExchangeType::IkeSaInit,
        initiator: true,
        response: false,
        message_id: 0,
        payloads: (0..255).map(|_| Payload::VendorID(vec![1])).collect(),
    };
    assert_eq!(packet.try_build().unwrap_err(), GeneratorError::TooManyPayloads);
    let big = Payload::VendorID(vec![0; 0xffff - 3]);
    assert_eq!(big.try_build(PayloadType::NoNextPayload).unwrap_err(), GeneratorError::PayloadTooLarge);
    let mut wide = Proposal::new_empty(SecurityProtocol::GroupIKEUpdate, None);
    for _ in 0..256 {
        wide.pseudo_random_functions.push(PseudorandomFunction::HmacSha1);
    }
    assert_eq!(wide.try_build(1, true).unwrap_err(), GeneratorError::TooManyTransforms);
}

#[test]
fn notification_status_without_spi() {
    let n = Notification {
        variant: NotificationType::Error(NotifyErrorMessage::NoProposalChosen),
        data: vec![],
        protocol: SecurityProtocol::InternetKeyExchange,
        spi: None,
    };
    assert_eq!(n.try_build(PayloadType::NoNextPayload).unwrap(), vec![0x00, 0x00, 0x00, 0x08, 0x00, 0x00, 0x00, 0x0e]);
}

#[test]
fn header_records_read_and_write() {
    let p = ProposalHeader::read(&[2, 0, 0, 0x2c, 4, 1, 0, 4, 0xff]).unwrap();
    assert_eq!((p.last_substruct, p.proposal_length, p.proposal_num, p.num_transforms), (2, 0x2c, 4, 4));
    let mut out = vec![];
    p.write(&mut out);
    assert_eq!(out, vec![2, 0, 0, 0x2c, 4, 1, 0, 4]);
    let t = TransformHeader::read(&[3, 0, 0, 12, 1, 0, 0, 12]).unwrap();
    assert_eq!((t.transform_length, t.transform_type, t.transform_id), (12, 1, 12));
    assert!(TransformHeader::read(&[3, 0, 0]).is_err());
    let a = AttributeHeader::read(&[0x80, 0x0e, 0x01, 0x00]).unwrap();
    assert!(a.is_fixed_length());
    assert_eq!(a.attribute_value, 256);
    assert!(!AttributeHeader { attribute_type: 18, attribute_value: 4 }.is_fixed_length());
    let n = NotifyHeader::read(&[0, 0, 0x40, 0x2f]).unwrap();
    assert!(!n.is_error());
    assert!(NotifyHeader { protocol_id: 0, spi_size: 0, notify_message_type: 14 }.is_error());
}
