//! High-level model of an IKEv2 message.
use vstd::prelude::*;

use crate::v2::params::{
    EncryptionAlgorithm, ExchangeType, IntegrityAlgorithm, KeyExchangeMethod, NotifyErrorMessage,
    NotifyStatusMessage, PayloadType, PseudorandomFunction, SecurityProtocol, SequenceNumberType,
    TransformType,
};

verus! {

/// An IKEv2 message: header fields and the ordered payloads.
#[derive(Debug, Clone, PartialEq, Eq)]
pub struct IKEv2 {
    /// SPI of the initiator
    pub initiator_cookie: u64,
    /// SPI of the responder, 0 in the first message
    pub responder_cookie: u64,
    /// Type of the exchange
    pub exchange_type: ExchangeType,
    /// The sender is the original initiator
    pub initiator: bool,
    /// The message is a response
    pub response: bool,
    /// Message identifier
    pub message_id: u32,
    /// Payloads in the order of the chain
    pub payloads: Vec<Payload>,
}

/// A payload of an IKEv2 message.
#[derive(Debug, Clone, PartialEq, Eq)]
pub enum Payload {
    /// Security association with its proposals
    SecurityAssociation(SecurityAssociation),
    /// Key exchange data
    KeyExchange(KeyExchange),
    /// Nonce bytes
    Nonce(Vec<u8>),
    /// Notification
    Notify(Notification),
    /// Deletion of security associations
    Delete(Delete),
    /// Vendor identifier bytes
    VendorID(Vec<u8>),
    /// Encrypted and authenticated content, always the last payload
    EncryptedAndAuthenticated(Vec<u8>),
}

impl Payload {
    /// The payload type that announces this payload in the chain.
    pub open spec fn spec_payload_type(self) -> PayloadType {
        match self {
            Payload::SecurityAssociation(_) => PayloadType::SecurityAssociation,
            Payload::KeyExchange(_) => PayloadType::KeyExchange,
            Payload::Nonce(_) => PayloadType::Nonce,
            Payload::Notify(_) => PayloadType::Notify,
            Payload::Delete(_) => PayloadType::Delete,
            Payload::VendorID(_) => PayloadType::VendorID,
            Payload::EncryptedAndAuthenticated(_) => PayloadType::EncryptedAndAuthenticated,
        }
    }

    /// The payload type that announces this payload in the chain.
    pub fn payload_type(&self) -> (r: PayloadType)
        ensures
            r == self.spec_payload_type(),
    {
        match self {
            Payload::SecurityAssociation(_) => PayloadType::SecurityAssociation,
            Payload::KeyExchange(_) => PayloadType::KeyExchange,
            Payload::Nonce(_) => PayloadType::Nonce,
            Payload::Notify(_) => PayloadType::Notify,
            Payload::Delete(_) => PayloadType::Delete,
            Payload::VendorID(_) => PayloadType::VendorID,
            Payload::EncryptedAndAuthenticated(_) => PayloadType::EncryptedAndAuthenticated,
        }
    }
}

/// Security association payload: an ordered list of proposals.
#[derive(Debug, Clone, PartialEq, Eq)]
pub struct SecurityAssociation {
    /// Proposals, numbered from 1 on the wire
    pub proposals: Vec<Proposal>,
}

/// A proposal: a protocol, an SPI and the offered transforms grouped by type.
#[derive(Debug, Clone, PartialEq, Eq)]
pub struct Proposal {
    /// Protocol that the proposal negotiates
    pub protocol: SecurityProtocol,
    /// SPI of the sender, empty in the first negotiation
    pub spi: Vec<u8>,
    /// Encryption algorithms with their optional key length
    pub encryption_algorithms: Vec<(EncryptionAlgorithm, Option<u16>)>,
    /// Pseudorandom functions
    pub pseudo_random_functions: Vec<PseudorandomFunction>,
    /// Integrity algorithms
    pub integrity_algorithms: Vec<IntegrityAlgorithm>,
    /// Key exchange methods
    pub key_exchange_methods: Vec<KeyExchangeMethod>,
    /// Sequence number types
    pub sequence_numbers: Vec<SequenceNumberType>,
}

/// A single transform of a proposal.
#[derive(Debug, Clone, Copy, PartialEq, Eq, Structural)]
pub enum Transform {
    /// Encryption algorithm with its optional key length
    Encryption(EncryptionAlgorithm, Option<u16>),
    /// Pseudorandom function
    PseudoRandomFunction(PseudorandomFunction),
    /// Integrity algorithm
    Integrity(IntegrityAlgorithm),
    /// Key exchange method
    KeyExchange(KeyExchangeMethod),
    /// Sequence number type
    SequenceNumber(SequenceNumberType),
}

impl Transform {
    /// The transform type that this transform is sent with.
    pub open spec fn spec_transform_type(self) -> TransformType {
        match self {
            Transform::Encryption(_, _) => TransformType::EncryptionAlgorithm,
            Transform::PseudoRandomFunction(_) => TransformType::PseudoRandomFunction,
            Transform::Integrity(_) => TransformType::IntegrityAlgorithm,
            Transform::KeyExchange(_) => TransformType::KeyExchangeMethod,
            Transform::SequenceNumber(_) => TransformType::SequenceNumber,
        }
    }

    /// The transform identifier on the wire.
    pub open spec fn spec_id(self) -> u16 {
        match self {
            Transform::Encryption(e, _) => e.spec_value(),
            Transform::PseudoRandomFunction(p) => p.spec_value(),
            Transform::Integrity(i) => i.spec_value(),
            Transform::KeyExchange(k) => k.spec_value(),
            Transform::SequenceNumber(s) => s.spec_value(),
        }
    }
}

/// A transform attribute.
#[derive(Debug, Clone, Copy, PartialEq, Eq, Structural)]
pub enum Attribute {
    /// Key length in bits of a variable-length cipher
    KeyLength(u16),
}

/// The class of a notification.
#[derive(Debug, Clone, Copy, PartialEq, Eq, Structural)]
pub enum NotificationType {
    /// An error type (below 16384)
    Error(NotifyErrorMessage),
    /// A status type (16384 and above)
    Status(NotifyStatusMessage),
}

impl NotificationType {
    /// The notify message type on the wire.
    pub open spec fn spec_value(self) -> u16 {
        match self {
            NotificationType::Error(e) => e.spec_value(),
            NotificationType::Status(s) => s.spec_value(),
        }
    }
}

/// Notification payload.
#[derive(Debug, Clone, PartialEq, Eq)]
pub struct Notification {
    /// Type of the notification
    pub variant: NotificationType,
    /// Type-specific data
    pub data: Vec<u8>,
    /// Protocol of the SA that the SPI belongs to; `Reserved` without an SPI
    pub protocol: SecurityProtocol,
    /// SPI of the SA that the notification concerns
    pub spi: Option<Vec<u8>>,
}

/// Key exchange payload.
#[derive(Debug, Clone, PartialEq, Eq)]
pub struct KeyExchange {
    /// Group in which the data was computed
    pub dh_group: KeyExchangeMethod,
    /// Public key exchange value
    pub data: Vec<u8>,
}

/// Delete payload.
#[derive(Debug, Clone, PartialEq, Eq)]
pub struct Delete {
    /// Protocol of the deleted SAs
    pub protocol: SecurityProtocol,
    /// Size in bytes of each SPI
    pub spi_size: u8,
    /// Number of SPIs
    pub num_spis: u16,
    /// The SPIs, concatenated
    pub spis: Vec<u8>,
}

impl Proposal {
    /// The transforms in the order they are sent: encryption, PRF, integrity, key
    /// exchange, sequence numbers.
    pub open spec fn spec_transforms(self) -> Seq<Transform> {
        self.encryption_algorithms@.map_values(|e: (EncryptionAlgorithm, Option<u16>)| Transform::Encryption(e.0, e.1))
            + self.pseudo_random_functions@.map_values(|p| Transform::PseudoRandomFunction(p))
            + self.integrity_algorithms@.map_values(|i| Transform::Integrity(i))
            + self.key_exchange_methods@.map_values(|k| Transform::KeyExchange(k))
            + self.sequence_numbers@.map_values(|s| Transform::SequenceNumber(s))
    }

    /// Number of transforms of all types.
    pub open spec fn spec_len(self) -> int {
        (self.encryption_algorithms@.len() + self.pseudo_random_functions@.len()
            + self.integrity_algorithms@.len() + self.key_exchange_methods@.len()
            + self.sequence_numbers@.len()) as int
    }

    /// The protocol's mandatory transform types are not all present (RFC 7296, 3.3.3).
    pub open spec fn spec_missing_mandatory(self) -> bool {
        match self.protocol {
            SecurityProtocol::InternetKeyExchange => self.encryption_algorithms@.len() == 0
                || self.pseudo_random_functions@.len() == 0
                || self.key_exchange_methods@.len() == 0,
            SecurityProtocol::AuthenticationHeader => self.encryption_algorithms@.len() == 0
                || self.sequence_numbers@.len() == 0,
            SecurityProtocol::EncapsulatingSecurityPayload => self.integrity_algorithms@.len() == 0
                || self.sequence_numbers@.len() == 0,
            _ => false,
        }
    }

    /// Number of transforms of all types.
    pub fn len(&self) -> (r: usize)
        requires
            self.spec_len() <= usize::MAX,
        ensures
            r == self.spec_len(),
    {
        self.encryption_algorithms.len() + self.pseudo_random_functions.len()
            + self.integrity_algorithms.len() + self.key_exchange_methods.len()
            + self.sequence_numbers.len()
    }

    /// The proposal holds no transform.
    pub fn is_empty(&self) -> (r: bool)
        ensures
            r == (self.spec_len() == 0),
    {
        self.encryption_algorithms.len() == 0 && self.pseudo_random_functions.len() == 0
            && self.integrity_algorithms.len() == 0 && self.key_exchange_methods.len() == 0
            && self.sequence_numbers.len() == 0
    }

    /// Append each transform to the list of its type, keeping their order.
    pub fn add(&mut self, transforms: Vec<Transform>)
        ensures
            final(self).protocol == old(self).protocol,
            final(self).spi@ == old(self).spi@,
            final(self).encryption_algorithms@ == old(self).encryption_algorithms@ + encryptions_of(transforms@),
            final(self).pseudo_random_functions@ == old(self).pseudo_random_functions@ + prfs_of(transforms@),
            final(self).integrity_algorithms@ == old(self).integrity_algorithms@ + integrities_of(transforms@),
            final(self).key_exchange_methods@ == old(self).key_exchange_methods@ + key_exchanges_of(transforms@),
            final(self).sequence_numbers@ == old(self).sequence_numbers@ + sequence_numbers_of(transforms@),
    {
        let mut i: usize = 0;
        while i < transforms.len()
            invariant
                i <= transforms@.len(),
                self.protocol == old(self).protocol,
                self.spi@ == old(self).spi@,
                self.encryption_algorithms@ == old(self).encryption_algorithms@ + encryptions_of(transforms@.take(i as int)),
                self.pseudo_random_functions@ == old(self).pseudo_random_functions@ + prfs_of(transforms@.take(i as int)),
                self.integrity_algorithms@ == old(self).integrity_algorithms@ + integrities_of(transforms@.take(i as int)),
                self.key_exchange_methods@ == old(self).key_exchange_methods@ + key_exchanges_of(transforms@.take(i as int)),
                self.sequence_numbers@ == old(self).sequence_numbers@ + sequence_numbers_of(transforms@.take(i as int)),
            decreases transforms@.len() - i,
        {
            let t = transforms[i];
            let ghost next = transforms@.take(i + 1);
            assert(next.drop_last() =~= transforms@.take(i as int));
            assert(next.last() == t);
            match t {
                Transform::Encryption(a, o) => self.encryption_algorithms.push((a, o)),
                Transform::PseudoRandomFunction(p) => self.pseudo_random_functions.push(p),
                Transform::Integrity(v) => self.integrity_algorithms.push(v),
                Transform::KeyExchange(k) => self.key_exchange_methods.push(k),
                Transform::SequenceNumber(s) => self.sequence_numbers.push(s),
            }
            assert(self.encryption_algorithms@ =~= old(self).encryption_algorithms@ + encryptions_of(next));
            assert(self.pseudo_random_functions@ =~= old(self).pseudo_random_functions@ + prfs_of(next));
            assert(self.integrity_algorithms@ =~= old(self).integrity_algorithms@ + integrities_of(next));
            assert(self.key_exchange_methods@ =~= old(self).key_exchange_methods@ + key_exchanges_of(next));
            assert(self.sequence_numbers@ =~= old(self).sequence_numbers@ + sequence_numbers_of(next));
            i = i + 1;
        }
        assert(transforms@.take(i as int) == transforms@);
    }

    /// A proposal without transforms; a missing SPI becomes an empty one.
    pub fn new_empty(protocol: SecurityProtocol, spi: Option<Vec<u8>>) -> (r: Proposal)
        ensures
            r.protocol == protocol,
            r.spi@ == match spi {
                Some(s) => s@,
                None => Seq::<u8>::empty(),
            },
            r.spec_len() == 0,
    {
        let spi = match spi {
            Some(s) => s,
            None => Vec::new(),
        };
        Proposal {
            protocol,
            spi,
            encryption_algorithms: Vec::new(),
            pseudo_random_functions: Vec::new(),
            integrity_algorithms: Vec::new(),
            key_exchange_methods: Vec::new(),
            sequence_numbers: Vec::new(),
        }
    }
}

/// The encryption transforms of `ts`, in order.
pub open spec fn encryptions_of(ts: Seq<Transform>) -> Seq<(EncryptionAlgorithm, Option<u16>)>
    decreases ts.len(),
{
    if ts.len() == 0 {
        Seq::empty()
    } else {
        let rest = encryptions_of(ts.drop_last());
        match ts.last() {
            Transform::Encryption(a, o) => rest.push((a, o)),
            _ => rest,
        }
    }
}

/// The pseudorandom functions of `ts`, in order.
pub open spec fn prfs_of(ts: Seq<Transform>) -> Seq<PseudorandomFunction>
    decreases ts.len(),
{
    if ts.len() == 0 {
        Seq::empty()
    } else {
        let rest = prfs_of(ts.drop_last());
        match ts.last() {
            Transform::PseudoRandomFunction(p) => rest.push(p),
            _ => rest,
        }
    }
}

/// The integrity algorithms of `ts`, in order.
pub open spec fn integrities_of(ts: Seq<Transform>) -> Seq<IntegrityAlgorithm>
    decreases ts.len(),
{
    if ts.len() == 0 {
        Seq::empty()
    } else {
        let rest = integrities_of(ts.drop_last());
        match ts.last() {
            Transform::Integrity(v) => rest.push(v),
            _ => rest,
        }
    }
}

/// The key exchange methods of `ts`, in order.
pub open spec fn key_exchanges_of(ts: Seq<Transform>) -> Seq<KeyExchangeMethod>
    decreases ts.len(),
{
    if ts.len() == 0 {
        Seq::empty()
    } else {
        let rest = key_exchanges_of(ts.drop_last());
        match ts.last() {
            Transform::KeyExchange(k) => rest.push(k),
            _ => rest,
        }
    }
}

/// The sequence number types of `ts`, in order.
pub open spec fn sequence_numbers_of(ts: Seq<Transform>) -> Seq<SequenceNumberType>
    decreases ts.len(),
{
    if ts.len() == 0 {
        Seq::empty()
    } else {
        let rest = sequence_numbers_of(ts.drop_last());
        match ts.last() {
            Transform::SequenceNumber(s) => rest.push(s),
            _ => rest,
        }
    }
}

} // verus!
