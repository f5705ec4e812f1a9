//! IKEv1 (ISAKMP) identifiers as registered by IANA.
use vstd::prelude::*;

verus! {

/// An identifier that names no known variant, with its raw value.
#[derive(Debug, Clone, Copy, PartialEq, Eq, Structural)]
pub struct UnknownValue {
    /// The value read from the wire
    pub value: u32,
}

/// Type of an ISAKMP payload (RFC 2408, 3.1; RFC 3947).
#[derive(Debug, Clone, Copy, PartialEq, Eq, Structural, PartialOrd, Ord, Hash)]
pub enum PayloadType {
    NoNextPayload,
    SecurityAssociation,
    Proposal,
    Transform,
    KeyExchange,
    Identification,
    Certificate,
    CertificateRequest,
    Hash,
    Signature,
    Nonce,
    Notification,
    Delete,
    VendorID,
    NatDiscovery,
    NatOriginalAddress,
}

impl PayloadType {
    /// The identifier of the variant on the wire.
    pub open spec fn spec_value(self) -> u8 {
        match self {
            PayloadType::NoNextPayload => 0,
            PayloadType::SecurityAssociation => 1,
            PayloadType::Proposal => 2,
            PayloadType::Transform => 3,
            PayloadType::KeyExchange => 4,
            PayloadType::Identification => 5,
            PayloadType::Certificate => 6,
            PayloadType::CertificateRequest => 7,
            PayloadType::Hash => 8,
            PayloadType::Signature => 9,
            PayloadType::Nonce => 10,
            PayloadType::Notification => 11,
            PayloadType::Delete => 12,
            PayloadType::VendorID => 13,
            PayloadType::NatDiscovery => 20,
            PayloadType::NatOriginalAddress => 21,
        }
    }

    /// The identifier of the variant on the wire.
    pub fn value(&self) -> (r: u8)
        ensures
            r == self.spec_value(),
    {
        match self {
            PayloadType::NoNextPayload => 0,
            PayloadType::SecurityAssociation => 1,
            PayloadType::Proposal => 2,
            PayloadType::Transform => 3,
            PayloadType::KeyExchange => 4,
            PayloadType::Identification => 5,
            PayloadType::Certificate => 6,
            PayloadType::CertificateRequest => 7,
            PayloadType::Hash => 8,
            PayloadType::Signature => 9,
            PayloadType::Nonce => 10,
            PayloadType::Notification => 11,
            PayloadType::Delete => 12,
            PayloadType::VendorID => 13,
            PayloadType::NatDiscovery => 20,
            PayloadType::NatOriginalAddress => 21,
        }
    }

    /// The variant that a value names, if any.
    pub open spec fn spec_from_value(x: u8) -> Option<PayloadType> {
        match x {
            0 => Some(PayloadType::NoNextPayload),
            1 => Some(PayloadType::SecurityAssociation),
            2 => Some(PayloadType::Proposal),
            3 => Some(PayloadType::Transform),
            4 => Some(PayloadType::KeyExchange),
            5 => Some(PayloadType::Identification),
            6 => Some(PayloadType::Certificate),
            7 => Some(PayloadType::CertificateRequest),
            8 => Some(PayloadType::Hash),
            9 => Some(PayloadType::Signature),
            10 => Some(PayloadType::Nonce),
            11 => Some(PayloadType::Notification),
            12 => Some(PayloadType::Delete),
            13 => Some(PayloadType::VendorID),
            20 => Some(PayloadType::NatDiscovery),
            21 => Some(PayloadType::NatOriginalAddress),
            _ => None,
        }
    }

    /// Reading back the identifier of a variant gives the variant.
    pub proof fn lemma_value_round_trip(v: PayloadType)
        ensures
            PayloadType::spec_from_value(v.spec_value()) == Some(v),
    {
        match v {
            PayloadType::NoNextPayload => {},
            PayloadType::SecurityAssociation => {},
            PayloadType::Proposal => {},
            PayloadType::Transform => {},
            PayloadType::KeyExchange => {},
            PayloadType::Identification => {},
            PayloadType::Certificate => {},
            PayloadType::CertificateRequest => {},
            PayloadType::Hash => {},
            PayloadType::Signature => {},
            PayloadType::Nonce => {},
            PayloadType::Notification => {},
            PayloadType::Delete => {},
            PayloadType::VendorID => {},
            PayloadType::NatDiscovery => {},
            PayloadType::NatOriginalAddress => {},
        }
    }

    /// Whether a value names a variant.
    pub open spec fn spec_known(x: u8) -> bool {
        PayloadType::spec_from_value(x) is Some
    }

    /// Decode an identifier; an unknown one is handed back inside the error.
    pub fn try_from(x: u8) -> (r: Result<PayloadType, UnknownValue>)
        ensures
            match r {
                Ok(v) => PayloadType::spec_from_value(x) == Some(v) && v.spec_value() == x,
                Err(e) => PayloadType::spec_from_value(x) is None && e.value == x as u32,
            },
    {
        match x {
            0 => Ok(PayloadType::NoNextPayload),
            1 => Ok(PayloadType::SecurityAssociation),
            2 => Ok(PayloadType::Proposal),
            3 => Ok(PayloadType::Transform),
            4 => Ok(PayloadType::KeyExchange),
            5 => Ok(PayloadType::Identification),
            6 => Ok(PayloadType::Certificate),
            7 => Ok(PayloadType::CertificateRequest),
            8 => Ok(PayloadType::Hash),
            9 => Ok(PayloadType::Signature),
            10 => Ok(PayloadType::Nonce),
            11 => Ok(PayloadType::Notification),
            12 => Ok(PayloadType::Delete),
            13 => Ok(PayloadType::VendorID),
            20 => Ok(PayloadType::NatDiscovery),
            21 => Ok(PayloadType::NatOriginalAddress),
            _ => Err(UnknownValue { value: x as u32 }),
        }
    }
}

/// Exchange type of an ISAKMP message (RFC 2408, 3.1; RFC 2409).
#[derive(Debug, Clone, Copy, PartialEq, Eq, Structural, PartialOrd, Ord, Hash)]
pub enum ExchangeType {
    NoExchange,
    Base,
    IdentityProtection,
    AuthenticationOnly,
    Aggressive,
    Informational,
    QuickMode,
    NewGroupMode,
}

impl ExchangeType {
    /// The identifier of the variant on the wire.
    pub open spec fn spec_value(self) -> u8 {
        match self {
            ExchangeType::NoExchange => 0,
            ExchangeType::Base => 1,
            ExchangeType::IdentityProtection => 2,
            ExchangeType::AuthenticationOnly => 3,
            ExchangeType::Aggressive => 4,
            ExchangeType::Informational => 5,
            ExchangeType::QuickMode => 32,
            ExchangeType::NewGroupMode => 33,
        }
    }

    /// The identifier of the variant on the wire.
    pub fn value(&self) -> (r: u8)
        ensures
            r == self.spec_value(),
    {
        match self {
            ExchangeType::NoExchange => 0,
            ExchangeType::Base => 1,
            ExchangeType::IdentityProtection => 2,
            ExchangeType::AuthenticationOnly => 3,
            ExchangeType::Aggressive => 4,
            ExchangeType::Informational => 5,
            ExchangeType::QuickMode => 32,
            ExchangeType::NewGroupMode => 33,
        }
    }

    /// The variant that a value names, if any.
    pub open spec fn spec_from_value(x: u8) -> Option<ExchangeType> {
        match x {
            0 => Some(ExchangeType::NoExchange),
            1 => Some(ExchangeType::Base),
            2 => Some(ExchangeType::IdentityProtection),
            3 => Some(ExchangeType::AuthenticationOnly),
            4 => Some(ExchangeType::Aggressive),
            5 => Some(ExchangeType::Informational),
            32 => Some(ExchangeType::QuickMode),
            33 => Some(ExchangeType::NewGroupMode),
            _ => None,
        }
    }

    /// Reading back the identifier of a variant gives the variant.
    pub proof fn lemma_value_round_trip(v: ExchangeType)
        ensures
            ExchangeType::spec_from_value(v.spec_value()) == Some(v),
    {
        match v {
            ExchangeType::NoExchange => {},
            ExchangeType::Base => {},
            ExchangeType::IdentityProtection => {},
            ExchangeType::AuthenticationOnly => {},
            ExchangeType::Aggressive => {},
            ExchangeType::Informational => {},
            ExchangeType::QuickMode => {},
            ExchangeType::NewGroupMode => {},
        }
    }

    /// Whether a value names a variant.
    pub open spec fn spec_known(x: u8) -> bool {
        ExchangeType::spec_from_value(x) is Some
    }

    /// Decode an identifier; an unknown one is handed back inside the error.
    pub fn try_from(x: u8) -> (r: Result<ExchangeType, UnknownValue>)
        ensures
            match r {
                Ok(v) => ExchangeType::spec_from_value(x) == Some(v) && v.spec_value() == x,
                Err(e) => ExchangeType::spec_from_value(x) is None && e.value == x as u32,
            },
    {
        match x {
            0 => Ok(ExchangeType::NoExchange),
            1 => Ok(ExchangeType::Base),
            2 => Ok(ExchangeType::IdentityProtection),
            3 => Ok(ExchangeType::AuthenticationOnly),
            4 => Ok(ExchangeType::Aggressive),
            5 => Ok(ExchangeType::Informational),
            32 => Ok(ExchangeType::QuickMode),
            33 => Ok(ExchangeType::NewGroupMode),
            _ => Err(UnknownValue { value: x as u32 }),
        }
    }
}

/// Class of an IKE SA attribute (RFC 2409, appendix A), the format bit stripped.
#[derive(Debug, Clone, Copy, PartialEq, Eq, Structural, PartialOrd, Ord, Hash)]
pub enum AttributeType {
    Reserved,
    EncryptionAlgorithm,
    HashAlgorithm,
    AuthenticationMethod,
    GroupDescription,
    GroupType,
    GroupPrime,
    GroupGeneratorOne,
    GroupGeneratorTwo,
    GroupCurveA,
    GroupCurveB,
    LifeType,
    LifeDuration,
    PRF,
    KeyLength,
    FieldSize,
    GroupOrder,
}

impl AttributeType {
    /// The identifier of the variant on the wire.
    pub open spec fn spec_value(self) -> u16 {
        match self {
            AttributeType::Reserved => 0,
            AttributeType::EncryptionAlgorithm => 1,
            AttributeType::HashAlgorithm => 2,
            AttributeType::AuthenticationMethod => 3,
            AttributeType::GroupDescription => 4,
            AttributeType::GroupType => 5,
            AttributeType::GroupPrime => 6,
            AttributeType::GroupGeneratorOne => 7,
            AttributeType::GroupGeneratorTwo => 8,
            AttributeType::GroupCurveA => 9,
            AttributeType::GroupCurveB => 10,
            AttributeType::LifeType => 11,
            AttributeType::LifeDuration => 12,
            AttributeType::PRF => 13,
            AttributeType::KeyLength => 14,
            AttributeType::FieldSize => 15,
            AttributeType::GroupOrder => 16,
        }
    }

    /// The identifier of the variant on the wire.
    pub fn value(&self) -> (r: u16)
        ensures
            r == self.spec_value(),
    {
        match self {
            AttributeType::Reserved => 0,
            AttributeType::EncryptionAlgorithm => 1,
            AttributeType::HashAlgorithm => 2,
            AttributeType::AuthenticationMethod => 3,
            AttributeType::GroupDescription => 4,
            AttributeType::GroupType => 5,
            AttributeType::GroupPrime => 6,
            AttributeType::GroupGeneratorOne => 7,
            AttributeType::GroupGeneratorTwo => 8,
            AttributeType::GroupCurveA => 9,
            AttributeType::GroupCurveB => 10,
            AttributeType::LifeType => 11,
            AttributeType::LifeDuration => 12,
            AttributeType::PRF => 13,
            AttributeType::KeyLength => 14,
            AttributeType::FieldSize => 15,
            AttributeType::GroupOrder => 16,
        }
    }

    /// The variant that a value names, if any.
    pub open spec fn spec_from_value(x: u16) -> Option<AttributeType> {
        match x {
            0 => Some(AttributeType::Reserved),
            1 => Some(AttributeType::EncryptionAlgorithm),
            2 => Some(AttributeType::HashAlgorithm),
            3 => Some(AttributeType::AuthenticationMethod),
            4 => Some(AttributeType::GroupDescription),
            5 => Some(AttributeType::GroupType),
            6 => Some(AttributeType::GroupPrime),
            7 => Some(AttributeType::GroupGeneratorOne),
            8 => Some(AttributeType::GroupGeneratorTwo),
            9 => Some(AttributeType::GroupCurveA),
            10 => Some(AttributeType::GroupCurveB),
            11 => Some(AttributeType::LifeType),
            12 => Some(AttributeType::LifeDuration),
            13 => Some(AttributeType::PRF),
            14 => Some(AttributeType::KeyLength),
            15 => Some(AttributeType::FieldSize),
            16 => Some(AttributeType::GroupOrder),
            _ => None,
        }
    }

    /// Reading back the identifier of a variant gives the variant.
    pub proof fn lemma_value_round_trip(v: AttributeType)
        ensures
            AttributeType::spec_from_value(v.spec_value()) == Some(v),
    {
        match v {
            AttributeType::Reserved => {},
            AttributeType::EncryptionAlgorithm => {},
            AttributeType::HashAlgorithm => {},
            AttributeType::AuthenticationMethod => {},
            AttributeType::GroupDescription => {},
            AttributeType::GroupType => {},
            AttributeType::GroupPrime => {},
            AttributeType::GroupGeneratorOne => {},
            AttributeType::GroupGeneratorTwo => {},
            AttributeType::GroupCurveA => {},
            AttributeType::GroupCurveB => {},
            AttributeType::LifeType => {},
            AttributeType::LifeDuration => {},
            AttributeType::PRF => {},
            AttributeType::KeyLength => {},
            AttributeType::FieldSize => {},
            AttributeType::GroupOrder => {},
        }
    }

    /// Whether a value names a variant.
    pub open spec fn spec_known(x: u16) -> bool {
        AttributeType::spec_from_value(x) is Some
    }

    /// Decode an identifier; an unknown one is handed back inside the error.
    pub fn try_from(x: u16) -> (r: Result<AttributeType, UnknownValue>)
        ensures
            match r {
                Ok(v) => AttributeType::spec_from_value(x) == Some(v) && v.spec_value() == x,
                Err(e) => AttributeType::spec_from_value(x) is None && e.value == x as u32,
            },
    {
        match x {
            0 => Ok(AttributeType::Reserved),
            1 => Ok(AttributeType::EncryptionAlgorithm),
            2 => Ok(AttributeType::HashAlgorithm),
            3 => Ok(AttributeType::AuthenticationMethod),
            4 => Ok(AttributeType::GroupDescription),
            5 => Ok(AttributeType::GroupType),
            6 => Ok(AttributeType::GroupPrime),
            7 => Ok(AttributeType::GroupGeneratorOne),
            8 => Ok(AttributeType::GroupGeneratorTwo),
            9 => Ok(AttributeType::GroupCurveA),
            10 => Ok(AttributeType::GroupCurveB),
            11 => Ok(AttributeType::LifeType),
            12 => Ok(AttributeType::LifeDuration),
            13 => Ok(AttributeType::PRF),
            14 => Ok(AttributeType::KeyLength),
            15 => Ok(AttributeType::FieldSize),
            16 => Ok(AttributeType::GroupOrder),
            _ => Err(UnknownValue { value: x as u32 }),
        }
    }
}

/// IKE encryption algorithms (RFC 2409, appendix A; RFC 3602; RFC 4312).
#[derive(Debug, Clone, Copy, PartialEq, Eq, Structural, PartialOrd, Ord, Hash)]
pub enum EncryptionAlgorithm {
    DesCbc,
    IdeaCbc,
    BlowfishCbc,
    Rc5R16B64Cbc,
    TripleDesCbc,
    CastCbc,
    AesCbc,
    CamelliaCbc,
}

impl EncryptionAlgorithm {
    /// The identifier of the variant on the wire.
    pub open spec fn spec_value(self) -> u16 {
        match self {
            EncryptionAlgorithm::DesCbc => 1,
            EncryptionAlgorithm::IdeaCbc => 2,
            EncryptionAlgorithm::BlowfishCbc => 3,
            EncryptionAlgorithm::Rc5R16B64Cbc => 4,
            EncryptionAlgorithm::TripleDesCbc => 5,
            EncryptionAlgorithm::CastCbc => 6,
            EncryptionAlgorithm::AesCbc => 7,
            EncryptionAlgorithm::CamelliaCbc => 8,
        }
    }

    /// The identifier of the variant on the wire.
    pub fn value(&self) -> (r: u16)
        ensures
            r == self.spec_value(),
    {
        match self {
            EncryptionAlgorithm::DesCbc => 1,
            EncryptionAlgorithm::IdeaCbc => 2,
            EncryptionAlgorithm::BlowfishCbc => 3,
            EncryptionAlgorithm::Rc5R16B64Cbc => 4,
            EncryptionAlgorithm::TripleDesCbc => 5,
            EncryptionAlgorithm::CastCbc => 6,
            EncryptionAlgorithm::AesCbc => 7,
            EncryptionAlgorithm::CamelliaCbc => 8,
        }
    }

    /// The variant that a value names, if any.
    pub open spec fn spec_from_value(x: u16) -> Option<EncryptionAlgorithm> {
        match x {
            1 => Some(EncryptionAlgorithm::DesCbc),
            2 => Some(EncryptionAlgorithm::IdeaCbc),
            3 => Some(EncryptionAlgorithm::BlowfishCbc),
            4 => Some(EncryptionAlgorithm::Rc5R16B64Cbc),
            5 => Some(EncryptionAlgorithm::TripleDesCbc),
            6 => Some(EncryptionAlgorithm::CastCbc),
            7 => Some(EncryptionAlgorithm::AesCbc),
            8 => Some(EncryptionAlgorithm::CamelliaCbc),
            _ => None,
        }
    }

    /// Reading back the identifier of a variant gives the variant.
    pub proof fn lemma_value_round_trip(v: EncryptionAlgorithm)
        ensures
            EncryptionAlgorithm::spec_from_value(v.spec_value()) == Some(v),
    {
        match v {
            EncryptionAlgorithm::DesCbc => {},
            EncryptionAlgorithm::IdeaCbc => {},
            EncryptionAlgorithm::BlowfishCbc => {},
            EncryptionAlgorithm::Rc5R16B64Cbc => {},
            EncryptionAlgorithm::TripleDesCbc => {},
            EncryptionAlgorithm::CastCbc => {},
            EncryptionAlgorithm::AesCbc => {},
            EncryptionAlgorithm::CamelliaCbc => {},
        }
    }

    /// Whether a value names a variant.
    pub open spec fn spec_known(x: u16) -> bool {
        EncryptionAlgorithm::spec_from_value(x) is Some
    }

    /// Decode an identifier; an unknown one is handed back inside the error.
    pub fn try_from(x: u16) -> (r: Result<EncryptionAlgorithm, UnknownValue>)
        ensures
            match r {
                Ok(v) => EncryptionAlgorithm::spec_from_value(x) == Some(v) && v.spec_value() == x,
                Err(e) => EncryptionAlgorithm::spec_from_value(x) is None && e.value == x as u32,
            },
    {
        match x {
            1 => Ok(EncryptionAlgorithm::DesCbc),
            2 => Ok(EncryptionAlgorithm::IdeaCbc),
            3 => Ok(EncryptionAlgorithm::BlowfishCbc),
            4 => Ok(EncryptionAlgorithm::Rc5R16B64Cbc),
            5 => Ok(EncryptionAlgorithm::TripleDesCbc),
            6 => Ok(EncryptionAlgorithm::CastCbc),
            7 => Ok(EncryptionAlgorithm::AesCbc),
            8 => Ok(EncryptionAlgorithm::CamelliaCbc),
            _ => Err(UnknownValue { value: x as u32 }),
        }
    }

    /// Every variant, in the order of their identifiers.
    pub open spec fn spec_all() -> Seq<EncryptionAlgorithm> {
        seq![EncryptionAlgorithm::DesCbc, EncryptionAlgorithm::IdeaCbc, EncryptionAlgorithm::BlowfishCbc, EncryptionAlgorithm::Rc5R16B64Cbc, EncryptionAlgorithm::TripleDesCbc, EncryptionAlgorithm::CastCbc, EncryptionAlgorithm::AesCbc, EncryptionAlgorithm::CamelliaCbc]
    }

    /// Every variant, in the order of their identifiers.
    pub fn all() -> (r: Vec<EncryptionAlgorithm>)
        ensures
            r@ == EncryptionAlgorithm::spec_all(),
    {
        let mut r = Vec::new();
        r.push(EncryptionAlgorithm::DesCbc);
        r.push(EncryptionAlgorithm::IdeaCbc);
        r.push(EncryptionAlgorithm::BlowfishCbc);
        r.push(EncryptionAlgorithm::Rc5R16B64Cbc);
        r.push(EncryptionAlgorithm::TripleDesCbc);
        r.push(EncryptionAlgorithm::CastCbc);
        r.push(EncryptionAlgorithm::AesCbc);
        r.push(EncryptionAlgorithm::CamelliaCbc);
        assert(r@ =~= EncryptionAlgorithm::spec_all());
        r
    }
}

/// IKE hash algorithms (RFC 2409, appendix A; RFC 4868).
#[derive(Debug, Clone, Copy, PartialEq, Eq, Structural, PartialOrd, Ord, Hash)]
pub enum HashAlgorithm {
    Md5,
    Sha,
    Tiger,
    Sha2_256,
    Sha2_384,
    Sha2_512,
}

impl HashAlgorithm {
    /// The identifier of the variant on the wire.
    pub open spec fn spec_value(self) -> u16 {
        match self {
            HashAlgorithm::Md5 => 1,
            HashAlgorithm::Sha => 2,
            HashAlgorithm::Tiger => 3,
            HashAlgorithm::Sha2_256 => 4,
            HashAlgorithm::Sha2_384 => 5,
            HashAlgorithm::Sha2_512 => 6,
        }
    }

    /// The identifier of the variant on the wire.
    pub fn value(&self) -> (r: u16)
        ensures
            r == self.spec_value(),
    {
        match self {
            HashAlgorithm::Md5 => 1,
            HashAlgorithm::Sha => 2,
            HashAlgorithm::Tiger => 3,
            HashAlgorithm::Sha2_256 => 4,
            HashAlgorithm::Sha2_384 => 5,
            HashAlgorithm::Sha2_512 => 6,
        }
    }

    /// The variant that a value names, if any.
    pub open spec fn spec_from_value(x: u16) -> Option<HashAlgorithm> {
        match x {
            1 => Some(HashAlgorithm::Md5),
            2 => Some(HashAlgorithm::Sha),
            3 => Some(HashAlgorithm::Tiger),
            4 => Some(HashAlgorithm::Sha2_256),
            5 => Some(HashAlgorithm::Sha2_384),
            6 => Some(HashAlgorithm::Sha2_512),
            _ => None,
        }
    }

    /// Reading back the identifier of a variant gives the variant.
    pub proof fn lemma_value_round_trip(v: HashAlgorithm)
        ensures
            HashAlgorithm::spec_from_value(v.spec_value()) == Some(v),
    {
        match v {
            HashAlgorithm::Md5 => {},
            HashAlgorithm::Sha => {},
            HashAlgorithm::Tiger => {},
            HashAlgorithm::Sha2_256 => {},
            HashAlgorithm::Sha2_384 => {},
            HashAlgorithm::Sha2_512 => {},
        }
    }

    /// Whether a value names a variant.
    pub open spec fn spec_known(x: u16) -> bool {
        HashAlgorithm::spec_from_value(x) is Some
    }

    /// Decode an identifier; an unknown one is handed back inside the error.
    pub fn try_from(x: u16) -> (r: Result<HashAlgorithm, UnknownValue>)
        ensures
            match r {
                Ok(v) => HashAlgorithm::spec_from_value(x) == Some(v) && v.spec_value() == x,
                Err(e) => HashAlgorithm::spec_from_value(x) is None && e.value == x as u32,
            },
    {
        match x {
            1 => Ok(HashAlgorithm::Md5),
            2 => Ok(HashAlgorithm::Sha),
            3 => Ok(HashAlgorithm::Tiger),
            4 => Ok(HashAlgorithm::Sha2_256),
            5 => Ok(HashAlgorithm::Sha2_384),
            6 => Ok(HashAlgorithm::Sha2_512),
            _ => Err(UnknownValue { value: x as u32 }),
        }
    }

    /// Every variant, in the order of their identifiers.
    pub open spec fn spec_all() -> Seq<HashAlgorithm> {
        seq![HashAlgorithm::Md5, HashAlgorithm::Sha, HashAlgorithm::Tiger, HashAlgorithm::Sha2_256, HashAlgorithm::Sha2_384, HashAlgorithm::Sha2_512]
    }

    /// Every variant, in the order of their identifiers.
    pub fn all() -> (r: Vec<HashAlgorithm>)
        ensures
            r@ == HashAlgorithm::spec_all(),
    {
        let mut r = Vec::new();
        r.push(HashAlgorithm::Md5);
        r.push(HashAlgorithm::Sha);
        r.push(HashAlgorithm::Tiger);
        r.push(HashAlgorithm::Sha2_256);
        r.push(HashAlgorithm::Sha2_384);
        r.push(HashAlgorithm::Sha2_512);
        assert(r@ =~= HashAlgorithm::spec_all());
        r
    }
}

/// IKE authentication methods (RFC 2409, appendix A; RFC 4754).
#[derive(Debug, Clone, Copy, PartialEq, Eq, Structural, PartialOrd, Ord, Hash)]
pub enum AuthenticationMethod {
    PreSharedKey,
    DssSignatures,
    RsaSignatures,
    EncryptionWithRsa,
    RevisedEncryptionWithRsa,
    EcdsaSha256P256,
    EcdsaSha384P384,
    EcdsaSha512P521,
}

impl AuthenticationMethod {
    /// The identifier of the variant on the wire.
    pub open spec fn spec_value(self) -> u16 {
        match self {
            AuthenticationMethod::PreSharedKey => 1,
            AuthenticationMethod::DssSignatures => 2,
            AuthenticationMethod::RsaSignatures => 3,
            AuthenticationMethod::EncryptionWithRsa => 4,
            AuthenticationMethod::RevisedEncryptionWithRsa => 5,
            AuthenticationMethod::EcdsaSha256P256 => 9,
            AuthenticationMethod::EcdsaSha384P384 => 10,
            AuthenticationMethod::EcdsaSha512P521 => 11,
        }
    }

    /// The identifier of the variant on the wire.
    pub fn value(&self) -> (r: u16)
        ensures
            r == self.spec_value(),
    {
        match self {
            AuthenticationMethod::PreSharedKey => 1,
            AuthenticationMethod::DssSignatures => 2,
            AuthenticationMethod::RsaSignatures => 3,
            AuthenticationMethod::EncryptionWithRsa => 4,
            AuthenticationMethod::RevisedEncryptionWithRsa => 5,
            AuthenticationMethod::EcdsaSha256P256 => 9,
            AuthenticationMethod::EcdsaSha384P384 => 10,
            AuthenticationMethod::EcdsaSha512P521 => 11,
        }
    }

    /// The variant that a value names, if any.
    pub open spec fn spec_from_value(x: u16) -> Option<AuthenticationMethod> {
        match x {
            1 => Some(AuthenticationMethod::PreSharedKey),
            2 => Some(AuthenticationMethod::DssSignatures),
            3 => Some(AuthenticationMethod::RsaSignatures),
            4 => Some(AuthenticationMethod::EncryptionWithRsa),
            5 => Some(AuthenticationMethod::RevisedEncryptionWithRsa),
            9 => Some(AuthenticationMethod::EcdsaSha256P256),
            10 => Some(AuthenticationMethod::EcdsaSha384P384),
            11 => Some(AuthenticationMethod::EcdsaSha512P521),
            _ => None,
        }
    }

    /// Reading back the identifier of a variant gives the variant.
    pub proof fn lemma_value_round_trip(v: AuthenticationMethod)
        ensures
            AuthenticationMethod::spec_from_value(v.spec_value()) == Some(v),
    {
        match v {
            AuthenticationMethod::PreSharedKey => {},
            AuthenticationMethod::DssSignatures => {},
            AuthenticationMethod::RsaSignatures => {},
            AuthenticationMethod::EncryptionWithRsa => {},
            AuthenticationMethod::RevisedEncryptionWithRsa => {},
            AuthenticationMethod::EcdsaSha256P256 => {},
            AuthenticationMethod::EcdsaSha384P384 => {},
            AuthenticationMethod::EcdsaSha512P521 => {},
        }
    }

    /// Whether a value names a variant.
    pub open spec fn spec_known(x: u16) -> bool {
        AuthenticationMethod::spec_from_value(x) is Some
    }

    /// Decode an identifier; an unknown one is handed back inside the error.
    pub fn try_from(x: u16) -> (r: Result<AuthenticationMethod, UnknownValue>)
        ensures
            match r {
                Ok(v) => AuthenticationMethod::spec_from_value(x) == Some(v) && v.spec_value() == x,
                Err(e) => AuthenticationMethod::spec_from_value(x) is None && e.value == x as u32,
            },
    {
        match x {
            1 => Ok(AuthenticationMethod::PreSharedKey),
            2 => Ok(AuthenticationMethod::DssSignatures),
            3 => Ok(AuthenticationMethod::RsaSignatures),
            4 => Ok(AuthenticationMethod::EncryptionWithRsa),
            5 => Ok(AuthenticationMethod::RevisedEncryptionWithRsa),
            9 => Ok(AuthenticationMethod::EcdsaSha256P256),
            10 => Ok(AuthenticationMethod::EcdsaSha384P384),
            11 => Ok(AuthenticationMethod::EcdsaSha512P521),
            _ => Err(UnknownValue { value: x as u32 }),
        }
    }

    /// Every variant, in the order of their identifiers.
    pub open spec fn spec_all() -> Seq<AuthenticationMethod> {
        seq![AuthenticationMethod::PreSharedKey, AuthenticationMethod::DssSignatures, AuthenticationMethod::RsaSignatures, AuthenticationMethod::EncryptionWithRsa, AuthenticationMethod::RevisedEncryptionWithRsa, AuthenticationMethod::EcdsaSha256P256, AuthenticationMethod::EcdsaSha384P384, AuthenticationMethod::EcdsaSha512P521]
    }

    /// Every variant, in the order of their identifiers.
    pub fn all() -> (r: Vec<AuthenticationMethod>)
        ensures
            r@ == AuthenticationMethod::spec_all(),
    {
        let mut r = Vec::new();
        r.push(AuthenticationMethod::PreSharedKey);
        r.push(AuthenticationMethod::DssSignatures);
        r.push(AuthenticationMethod::RsaSignatures);
        r.push(AuthenticationMethod::EncryptionWithRsa);
        r.push(AuthenticationMethod::RevisedEncryptionWithRsa);
        r.push(AuthenticationMethod::EcdsaSha256P256);
        r.push(AuthenticationMethod::EcdsaSha384P384);
        r.push(AuthenticationMethod::EcdsaSha512P521);
        assert(r@ =~= AuthenticationMethod::spec_all());
        r
    }
}

/// IKE Diffie-Hellman groups (RFC 2409, RFC 3526, RFC 5903, RFC 5114, RFC 6932).
#[derive(Debug, Clone, Copy, PartialEq, Eq, Structural, PartialOrd, Ord, Hash)]
pub enum GroupDescription {
    Modp768,
    Modp1024,
    Ec2n155,
    Ec2n185,
    Modp1536,
    Ec2n163Random,
    Ec2n163Koblitz,
    Ec2n283Random,
    Ec2n283Koblitz,
    Ec2n409Random,
    Ec2n409Koblitz,
    Ec2n571Random,
    Ec2n571Koblitz,
    Modp2048,
    Modp3072,
    Modp4096,
    Modp6144,
    Modp8192,
    Ecp256,
    Ecp384,
    Ecp521,
    Modp1024Prime160,
    Modp2048Prime224,
    Modp2048Prime256,
    Ecp192,
    Ecp224,
    BrainpoolP224r1,
    BrainpoolP256r1,
    BrainpoolP384r1,
    BrainpoolP512r1,
}

impl GroupDescription {
    /// The identifier of the variant on the wire.
    pub open spec fn spec_value(self) -> u16 {
        match self {
            GroupDescription::Modp768 => 1,
            GroupDescription::Modp1024 => 2,
            GroupDescription::Ec2n155 => 3,
            GroupDescription::Ec2n185 => 4,
            GroupDescription::Modp1536 => 5,
            GroupDescription::Ec2n163Random => 6,
            GroupDescription::Ec2n163Koblitz => 7,
            GroupDescription::Ec2n283Random => 8,
            GroupDescription::Ec2n283Koblitz => 9,
            GroupDescription::Ec2n409Random => 10,
            GroupDescription::Ec2n409Koblitz => 11,
            GroupDescription::Ec2n571Random => 12,
            GroupDescription::Ec2n571Koblitz => 13,
            GroupDescription::Modp2048 => 14,
            GroupDescription::Modp3072 => 15,
            GroupDescription::Modp4096 => 16,
            GroupDescription::Modp6144 => 17,
            GroupDescription::Modp8192 => 18,
            GroupDescription::Ecp256 => 19,
            GroupDescription::Ecp384 => 20,
            GroupDescription::Ecp521 => 21,
            GroupDescription::Modp1024Prime160 => 22,
            GroupDescription::Modp2048Prime224 => 23,
            GroupDescription::Modp2048Prime256 => 24,
            GroupDescription::Ecp192 => 25,
            GroupDescription::Ecp224 => 26,
            GroupDescription::BrainpoolP224r1 => 27,
            GroupDescription::BrainpoolP256r1 => 28,
            GroupDescription::BrainpoolP384r1 => 29,
            GroupDescription::BrainpoolP512r1 => 30,
        }
    }

    /// The identifier of the variant on the wire.
    pub fn value(&self) -> (r: u16)
        ensures
            r == self.spec_value(),
    {
        match self {
            GroupDescription::Modp768 => 1,
            GroupDescription::Modp1024 => 2,
            GroupDescription::Ec2n155 => 3,
            GroupDescription::Ec2n185 => 4,
            GroupDescription::Modp1536 => 5,
            GroupDescription::Ec2n163Random => 6,
            GroupDescription::Ec2n163Koblitz => 7,
            GroupDescription::Ec2n283Random => 8,
            GroupDescription::Ec2n283Koblitz => 9,
            GroupDescription::Ec2n409Random => 10,
            GroupDescription::Ec2n409Koblitz => 11,
            GroupDescription::Ec2n571Random => 12,
            GroupDescription::Ec2n571Koblitz => 13,
            GroupDescription::Modp2048 => 14,
            GroupDescription::Modp3072 => 15,
            GroupDescription::Modp4096 => 16,
            GroupDescription::Modp6144 => 17,
            GroupDescription::Modp8192 => 18,
            GroupDescription::Ecp256 => 19,
            GroupDescription::Ecp384 => 20,
            GroupDescription::Ecp521 => 21,
            GroupDescription::Modp1024Prime160 => 22,
            GroupDescription::Modp2048Prime224 => 23,
            GroupDescription::Modp2048Prime256 => 24,
            GroupDescription::Ecp192 => 25,
            GroupDescription::Ecp224 => 26,
            GroupDescription::BrainpoolP224r1 => 27,
            GroupDescription::BrainpoolP256r1 => 28,
            GroupDescription::BrainpoolP384r1 => 29,
            GroupDescription::BrainpoolP512r1 => 30,
        }
    }

    /// The variant that a value names, if any.
    pub open spec fn spec_from_value(x: u16) -> Option<GroupDescription> {
        match x {
            1 => Some(GroupDescription::Modp768),
            2 => Some(GroupDescription::Modp1024),
            3 => Some(GroupDescription::Ec2n155),
            4 => Some(GroupDescription::Ec2n185),
            5 => Some(GroupDescription::Modp1536),
            6 => Some(GroupDescription::Ec2n163Random),
            7 => Some(GroupDescription::Ec2n163Koblitz),
            8 => Some(GroupDescription::Ec2n283Random),
            9 => Some(GroupDescription::Ec2n283Koblitz),
            10 => Some(GroupDescription::Ec2n409Random),
            11 => Some(GroupDescription::Ec2n409Koblitz),
            12 => Some(GroupDescription::Ec2n571Random),
            13 => Some(GroupDescription::Ec2n571Koblitz),
            14 => Some(GroupDescription::Modp2048),
            15 => Some(GroupDescription::Modp3072),
            16 => Some(GroupDescription::Modp4096),
            17 => Some(GroupDescription::Modp6144),
            18 => Some(GroupDescription::Modp8192),
            19 => Some(GroupDescription::Ecp256),
            20 => Some(GroupDescription::Ecp384),
            21 => Some(GroupDescription::Ecp521),
            22 => Some(GroupDescription::Modp1024Prime160),
            23 => Some(GroupDescription::Modp2048Prime224),
            24 => Some(GroupDescription::Modp2048Prime256),
            25 => Some(GroupDescription::Ecp192),
            26 => Some(GroupDescription::Ecp224),
            27 => Some(GroupDescription::BrainpoolP224r1),
            28 => Some(GroupDescription::BrainpoolP256r1),
            29 => Some(GroupDescription::BrainpoolP384r1),
            30 => Some(GroupDescription::BrainpoolP512r1),
            _ => None,
        }
    }

    /// Reading back the identifier of a variant gives the variant.
    pub proof fn lemma_value_round_trip(v: GroupDescription)
        ensures
            GroupDescription::spec_from_value(v.spec_value()) == Some(v),
    {
        match v {
            GroupDescription::Modp768 => {},
            GroupDescription::Modp1024 => {},
            GroupDescription::Ec2n155 => {},
            GroupDescription::Ec2n185 => {},
            GroupDescription::Modp1536 => {},
            GroupDescription::Ec2n163Random => {},
            GroupDescription::Ec2n163Koblitz => {},
            GroupDescription::Ec2n283Random => {},
            GroupDescription::Ec2n283Koblitz => {},
            GroupDescription::Ec2n409Random => {},
            GroupDescription::Ec2n409Koblitz => {},
            GroupDescription::Ec2n571Random => {},
            GroupDescription::Ec2n571Koblitz => {},
            GroupDescription::Modp2048 => {},
            GroupDescription::Modp3072 => {},
            GroupDescription::Modp4096 => {},
            GroupDescription::Modp6144 => {},
            GroupDescription::Modp8192 => {},
            GroupDescription::Ecp256 => {},
            GroupDescription::Ecp384 => {},
            GroupDescription::Ecp521 => {},
            GroupDescription::Modp1024Prime160 => {},
            GroupDescription::Modp2048Prime224 => {},
            GroupDescription::Modp2048Prime256 => {},
            GroupDescription::Ecp192 => {},
            GroupDescription::Ecp224 => {},
            GroupDescription::BrainpoolP224r1 => {},
            GroupDescription::BrainpoolP256r1 => {},
            GroupDescription::BrainpoolP384r1 => {},
            GroupDescription::BrainpoolP512r1 => {},
        }
    }

    /// Whether a value names a variant.
    pub open spec fn spec_known(x: u16) -> bool {
        GroupDescription::spec_from_value(x) is Some
    }

    /// Decode an identifier; an unknown one is handed back inside the error.
    pub fn try_from(x: u16) -> (r: Result<GroupDescription, UnknownValue>)
        ensures
            match r {
                Ok(v) => GroupDescription::spec_from_value(x) == Some(v) && v.spec_value() == x,
                Err(e) => GroupDescription::spec_from_value(x) is None && e.value == x as u32,
            },
    {
        match x {
            1 => Ok(GroupDescription::Modp768),
            2 => Ok(GroupDescription::Modp1024),
            3 => Ok(GroupDescription::Ec2n155),
            4 => Ok(GroupDescription::Ec2n185),
            5 => Ok(GroupDescription::Modp1536),
            6 => Ok(GroupDescription::Ec2n163Random),
            7 => Ok(GroupDescription::Ec2n163Koblitz),
            8 => Ok(GroupDescription::Ec2n283Random),
            9 => Ok(GroupDescription::Ec2n283Koblitz),
            10 => Ok(GroupDescription::Ec2n409Random),
            11 => Ok(GroupDescription::Ec2n409Koblitz),
            12 => Ok(GroupDescription::Ec2n571Random),
            13 => Ok(GroupDescription::Ec2n571Koblitz),
            14 => Ok(GroupDescription::Modp2048),
            15 => Ok(GroupDescription::Modp3072),
            16 => Ok(GroupDescription::Modp4096),
            17 => Ok(GroupDescription::Modp6144),
            18 => Ok(GroupDescription::Modp8192),
            19 => Ok(GroupDescription::Ecp256),
            20 => Ok(GroupDescription::Ecp384),
            21 => Ok(GroupDescription::Ecp521),
            22 => Ok(GroupDescription::Modp1024Prime160),
            23 => Ok(GroupDescription::Modp2048Prime224),
            24 => Ok(GroupDescription::Modp2048Prime256),
            25 => Ok(GroupDescription::Ecp192),
            26 => Ok(GroupDescription::Ecp224),
            27 => Ok(GroupDescription::BrainpoolP224r1),
            28 => Ok(GroupDescription::BrainpoolP256r1),
            29 => Ok(GroupDescription::BrainpoolP384r1),
            30 => Ok(GroupDescription::BrainpoolP512r1),
            _ => Err(UnknownValue { value: x as u32 }),
        }
    }

    /// Every variant, in the order of their identifiers.
    pub open spec fn spec_all() -> Seq<GroupDescription> {
        seq![GroupDescription::Modp768, GroupDescription::Modp1024, GroupDescription::Ec2n155, GroupDescription::Ec2n185, GroupDescription::Modp1536, GroupDescription::Ec2n163Random, GroupDescription::Ec2n163Koblitz, GroupDescription::Ec2n283Random, GroupDescription::Ec2n283Koblitz, GroupDescription::Ec2n409Random, GroupDescription::Ec2n409Koblitz, GroupDescription::Ec2n571Random, GroupDescription::Ec2n571Koblitz, GroupDescription::Modp2048, GroupDescription::Modp3072, GroupDescription::Modp4096, GroupDescription::Modp6144, GroupDescription::Modp8192, GroupDescription::Ecp256, GroupDescription::Ecp384, GroupDescription::Ecp521, GroupDescription::Modp1024Prime160, GroupDescription::Modp2048Prime224, GroupDescription::Modp2048Prime256, GroupDescription::Ecp192, GroupDescription::Ecp224, GroupDescription::BrainpoolP224r1, GroupDescription::BrainpoolP256r1, GroupDescription::BrainpoolP384r1, GroupDescription::BrainpoolP512r1]
    }

    /// Every variant, in the order of their identifiers.
    pub fn all() -> (r: Vec<GroupDescription>)
        ensures
            r@ == GroupDescription::spec_all(),
    {
        let mut r = Vec::new();
        r.push(GroupDescription::Modp768);
        r.push(GroupDescription::Modp1024);
        r.push(GroupDescription::Ec2n155);
        r.push(GroupDescription::Ec2n185);
        r.push(GroupDescription::Modp1536);
        r.push(GroupDescription::Ec2n163Random);
        r.push(GroupDescription::Ec2n163Koblitz);
        r.push(GroupDescription::Ec2n283Random);
        r.push(GroupDescription::Ec2n283Koblitz);
        r.push(GroupDescription::Ec2n409Random);
        r.push(GroupDescription::Ec2n409Koblitz);
        r.push(GroupDescription::Ec2n571Random);
        r.push(GroupDescription::Ec2n571Koblitz);
        r.push(GroupDescription::Modp2048);
        r.push(GroupDescription::Modp3072);
        r.push(GroupDescription::Modp4096);
        r.push(GroupDescription::Modp6144);
        r.push(GroupDescription::Modp8192);
        r.push(GroupDescription::Ecp256);
        r.push(GroupDescription::Ecp384);
        r.push(GroupDescription::Ecp521);
        r.push(GroupDescription::Modp1024Prime160);
        r.push(GroupDescription::Modp2048Prime224);
        r.push(GroupDescription::Modp2048Prime256);
        r.push(GroupDescription::Ecp192);
        r.push(GroupDescription::Ecp224);
        r.push(GroupDescription::BrainpoolP224r1);
        r.push(GroupDescription::BrainpoolP256r1);
        r.push(GroupDescription::BrainpoolP384r1);
        r.push(GroupDescription::BrainpoolP512r1);
        assert(r@ =~= GroupDescription::spec_all());
        r
    }
}

/// Type of a Diffie-Hellman group (RFC 2409, appendix A).
#[derive(Debug, Clone, Copy, PartialEq, Eq, Structural, PartialOrd, Ord, Hash)]
pub enum GroupType {
    Modp,
    Ecp,
    Ec2n,
}

impl GroupType {
    /// The identifier of the variant on the wire.
    pub open spec fn spec_value(self) -> u16 {
        match self {
            GroupType::Modp => 1,
            GroupType::Ecp => 2,
            GroupType::Ec2n => 3,
        }
    }

    /// The identifier of the variant on the wire.
    pub fn value(&self) -> (r: u16)
        ensures
            r == self.spec_value(),
    {
        match self {
            GroupType::Modp => 1,
            GroupType::Ecp => 2,
            GroupType::Ec2n => 3,
        }
    }

    /// The variant that a value names, if any.
    pub open spec fn spec_from_value(x: u16) -> Option<GroupType> {
        match x {
            1 => Some(GroupType::Modp),
            2 => Some(GroupType::Ecp),
            3 => Some(GroupType::Ec2n),
            _ => None,
        }
    }

    /// Reading back the identifier of a variant gives the variant.
    pub proof fn lemma_value_round_trip(v: GroupType)
        ensures
            GroupType::spec_from_value(v.spec_value()) == Some(v),
    {
        match v {
            GroupType::Modp => {},
            GroupType::Ecp => {},
            GroupType::Ec2n => {},
        }
    }

    /// Whether a value names a variant.
    pub open spec fn spec_known(x: u16) -> bool {
        GroupType::spec_from_value(x) is Some
    }

    /// Decode an identifier; an unknown one is handed back inside the error.
    pub fn try_from(x: u16) -> (r: Result<GroupType, UnknownValue>)
        ensures
            match r {
                Ok(v) => GroupType::spec_from_value(x) == Some(v) && v.spec_value() == x,
                Err(e) => GroupType::spec_from_value(x) is None && e.value == x as u32,
            },
    {
        match x {
            1 => Ok(GroupType::Modp),
            2 => Ok(GroupType::Ecp),
            3 => Ok(GroupType::Ec2n),
            _ => Err(UnknownValue { value: x as u32 }),
        }
    }
}

/// Unit of an SA life duration (RFC 2409, appendix A).
#[derive(Debug, Clone, Copy, PartialEq, Eq, Structural, PartialOrd, Ord, Hash)]
pub enum LifeType {
    Seconds,
    Kilobytes,
}

impl LifeType {
    /// The identifier of the variant on the wire.
    pub open spec fn spec_value(self) -> u16 {
        match self {
            LifeType::Seconds => 1,
            LifeType::Kilobytes => 2,
        }
    }

    /// The identifier of the variant on the wire.
    pub fn value(&self) -> (r: u16)
        ensures
            r == self.spec_value(),
    {
        match self {
            LifeType::Seconds => 1,
            LifeType::Kilobytes => 2,
        }
    }

    /// The variant that a value names, if any.
    pub open spec fn spec_from_value(x: u16) -> Option<LifeType> {
        match x {
            1 => Some(LifeType::Seconds),
            2 => Some(LifeType::Kilobytes),
            _ => None,
        }
    }

    /// Reading back the identifier of a variant gives the variant.
    pub proof fn lemma_value_round_trip(v: LifeType)
        ensures
            LifeType::spec_from_value(v.spec_value()) == Some(v),
    {
        match v {
            LifeType::Seconds => {},
            LifeType::Kilobytes => {},
        }
    }

    /// Whether a value names a variant.
    pub open spec fn spec_known(x: u16) -> bool {
        LifeType::spec_from_value(x) is Some
    }

    /// Decode an identifier; an unknown one is handed back inside the error.
    pub fn try_from(x: u16) -> (r: Result<LifeType, UnknownValue>)
        ensures
            match r {
                Ok(v) => LifeType::spec_from_value(x) == Some(v) && v.spec_value() == x,
                Err(e) => LifeType::spec_from_value(x) is None && e.value == x as u32,
            },
    {
        match x {
            1 => Ok(LifeType::Seconds),
            2 => Ok(LifeType::Kilobytes),
            _ => Err(UnknownValue { value: x as u32 }),
        }
    }
}

/// Notify message types (RFC 2408, 3.14.1; RFC 2407, 4.6.3).
#[derive(Debug, Clone, Copy, PartialEq, Eq, Structural, PartialOrd, Ord, Hash)]
pub enum NotifyMessageType {
    InvalidPayloadType,
    DoiNotSupported,
    SituationNotSupported,
    InvalidCookie,
    InvalidMajorVersion,
    InvalidMinorVersion,
    InvalidExchangeType,
    InvalidFlags,
    InvalidMessageId,
    InvalidProtocolId,
    InvalidSpi,
    InvalidTransformId,
    AttributesNotSupported,
    NoProposalChosen,
    BadProposalSyntax,
    PayloadMalformed,
    InvalidKeyInformation,
    InvalidIdInformation,
    InvalidCertEncoding,
    InvalidCertificate,
    CertTypeUnsupported,
    InvalidCertAuthority,
    InvalidHashInformation,
    AuthenticationFailed,
    InvalidSignature,
    AddressNotification,
    NotifyPayloadLifetime,
    CertificateUnavailable,
    UnsupportedExchangeType,
    UnequalPayloadLengths,
    Connected,
    ResponderLifetime,
    ReplayStatus,
    InitialContact,
}

impl NotifyMessageType {
    /// The identifier of the variant on the wire.
    pub open spec fn spec_value(self) -> u16 {
        match self {
            NotifyMessageType::InvalidPayloadType => 1,
            NotifyMessageType::DoiNotSupported => 2,
            NotifyMessageType::SituationNotSupported => 3,
            NotifyMessageType::InvalidCookie => 4,
            NotifyMessageType::InvalidMajorVersion => 5,
            NotifyMessageType::InvalidMinorVersion => 6,
            NotifyMessageType::InvalidExchangeType => 7,
            NotifyMessageType::InvalidFlags => 8,
            NotifyMessageType::InvalidMessageId => 9,
            NotifyMessageType::InvalidProtocolId => 10,
            NotifyMessageType::InvalidSpi => 11,
            NotifyMessageType::InvalidTransformId => 12,
            NotifyMessageType::AttributesNotSupported => 13,
            NotifyMessageType::NoProposalChosen => 14,
            NotifyMessageType::BadProposalSyntax => 15,
            NotifyMessageType::PayloadMalformed => 16,
            NotifyMessageType::InvalidKeyInformation => 17,
            NotifyMessageType::InvalidIdInformation => 18,
            NotifyMessageType::InvalidCertEncoding => 19,
            NotifyMessageType::InvalidCertificate => 20,
            NotifyMessageType::CertTypeUnsupported => 21,
            NotifyMessageType::InvalidCertAuthority => 22,
            NotifyMessageType::InvalidHashInformation => 23,
            NotifyMessageType::AuthenticationFailed => 24,
            NotifyMessageType::InvalidSignature => 25,
            NotifyMessageType::AddressNotification => 26,
            NotifyMessageType::NotifyPayloadLifetime => 27,
            NotifyMessageType::CertificateUnavailable => 28,
            NotifyMessageType::UnsupportedExchangeType => 29,
            NotifyMessageType::UnequalPayloadLengths => 30,
            NotifyMessageType::Connected => 16384,
            NotifyMessageType::ResponderLifetime => 24576,
            NotifyMessageType::ReplayStatus => 24577,
            NotifyMessageType::InitialContact => 24578,
        }
    }

    /// The identifier of the variant on the wire.
    pub fn value(&self) -> (r: u16)
        ensures
            r == self.spec_value(),
    {
        match self {
            NotifyMessageType::InvalidPayloadType => 1,
            NotifyMessageType::DoiNotSupported => 2,
            NotifyMessageType::SituationNotSupported => 3,
            NotifyMessageType::InvalidCookie => 4,
            NotifyMessageType::InvalidMajorVersion => 5,
            NotifyMessageType::InvalidMinorVersion => 6,
            NotifyMessageType::InvalidExchangeType => 7,
            NotifyMessageType::InvalidFlags => 8,
            NotifyMessageType::InvalidMessageId => 9,
            NotifyMessageType::InvalidProtocolId => 10,
            NotifyMessageType::InvalidSpi => 11,
            NotifyMessageType::InvalidTransformId => 12,
            NotifyMessageType::AttributesNotSupported => 13,
            NotifyMessageType::NoProposalChosen => 14,
            NotifyMessageType::BadProposalSyntax => 15,
            NotifyMessageType::PayloadMalformed => 16,
            NotifyMessageType::InvalidKeyInformation => 17,
            NotifyMessageType::InvalidIdInformation => 18,
            NotifyMessageType::InvalidCertEncoding => 19,
            NotifyMessageType::InvalidCertificate => 20,
            NotifyMessageType::CertTypeUnsupported => 21,
            NotifyMessageType::InvalidCertAuthority => 22,
            NotifyMessageType::InvalidHashInformation => 23,
            NotifyMessageType::AuthenticationFailed => 24,
            NotifyMessageType::InvalidSignature => 25,
            NotifyMessageType::AddressNotification => 26,
            NotifyMessageType::NotifyPayloadLifetime => 27,
            NotifyMessageType::CertificateUnavailable => 28,
            NotifyMessageType::UnsupportedExchangeType => 29,
            NotifyMessageType::UnequalPayloadLengths => 30,
            NotifyMessageType::Connected => 16384,
            NotifyMessageType::ResponderLifetime => 24576,
            NotifyMessageType::ReplayStatus => 24577,
            NotifyMessageType::InitialContact => 24578,
        }
    }

    /// The variant that a value names, if any.
    pub open spec fn spec_from_value(x: u16) -> Option<NotifyMessageType> {
        match x {
            1 => Some(NotifyMessageType::InvalidPayloadType),
            2 => Some(NotifyMessageType::DoiNotSupported),
            3 => Some(NotifyMessageType::SituationNotSupported),
            4 => Some(NotifyMessageType::InvalidCookie),
            5 => Some(NotifyMessageType::InvalidMajorVersion),
            6 => Some(NotifyMessageType::InvalidMinorVersion),
            7 => Some(NotifyMessageType::InvalidExchangeType),
            8 => Some(NotifyMessageType::InvalidFlags),
            9 => Some(NotifyMessageType::InvalidMessageId),
            10 => Some(NotifyMessageType::InvalidProtocolId),
            11 => Some(NotifyMessageType::InvalidSpi),
            12 => Some(NotifyMessageType::InvalidTransformId),
            13 => Some(NotifyMessageType::AttributesNotSupported),
            14 => Some(NotifyMessageType::NoProposalChosen),
            15 => Some(NotifyMessageType::BadProposalSyntax),
            16 => Some(NotifyMessageType::PayloadMalformed),
            17 => Some(NotifyMessageType::InvalidKeyInformation),
            18 => Some(NotifyMessageType::InvalidIdInformation),
            19 => Some(NotifyMessageType::InvalidCertEncoding),
            20 => Some(NotifyMessageType::InvalidCertificate),
            21 => Some(NotifyMessageType::CertTypeUnsupported),
            22 => Some(NotifyMessageType::InvalidCertAuthority),
            23 => Some(NotifyMessageType::InvalidHashInformation),
            24 => Some(NotifyMessageType::AuthenticationFailed),
            25 => Some(NotifyMessageType::InvalidSignature),
            26 => Some(NotifyMessageType::AddressNotification),
            27 => Some(NotifyMessageType::NotifyPayloadLifetime),
            28 => Some(NotifyMessageType::CertificateUnavailable),
            29 => Some(NotifyMessageType::UnsupportedExchangeType),
            30 => Some(NotifyMessageType::UnequalPayloadLengths),
            16384 => Some(NotifyMessageType::Connected),
            24576 => Some(NotifyMessageType::ResponderLifetime),
            24577 => Some(NotifyMessageType::ReplayStatus),
            24578 => Some(NotifyMessageType::InitialContact),
            _ => None,
        }
    }

    /// Reading back the identifier of a variant gives the variant.
    pub proof fn lemma_value_round_trip(v: NotifyMessageType)
        ensures
            NotifyMessageType::spec_from_value(v.spec_value()) == Some(v),
    {
        match v {
            NotifyMessageType::InvalidPayloadType => {},
            NotifyMessageType::DoiNotSupported => {},
            NotifyMessageType::SituationNotSupported => {},
            NotifyMessageType::InvalidCookie => {},
            NotifyMessageType::InvalidMajorVersion => {},
            NotifyMessageType::InvalidMinorVersion => {},
            NotifyMessageType::InvalidExchangeType => {},
            NotifyMessageType::InvalidFlags => {},
            NotifyMessageType::InvalidMessageId => {},
            NotifyMessageType::InvalidProtocolId => {},
            NotifyMessageType::InvalidSpi => {},
            NotifyMessageType::InvalidTransformId => {},
            NotifyMessageType::AttributesNotSupported => {},
            NotifyMessageType::NoProposalChosen => {},
            NotifyMessageType::BadProposalSyntax => {},
            NotifyMessageType::PayloadMalformed => {},
            NotifyMessageType::InvalidKeyInformation => {},
            NotifyMessageType::InvalidIdInformation => {},
            NotifyMessageType::InvalidCertEncoding => {},
            NotifyMessageType::InvalidCertificate => {},
            NotifyMessageType::CertTypeUnsupported => {},
            NotifyMessageType::InvalidCertAuthority => {},
            NotifyMessageType::InvalidHashInformation => {},
            NotifyMessageType::AuthenticationFailed => {},
            NotifyMessageType::InvalidSignature => {},
            NotifyMessageType::AddressNotification => {},
            NotifyMessageType::NotifyPayloadLifetime => {},
            NotifyMessageType::CertificateUnavailable => {},
            NotifyMessageType::UnsupportedExchangeType => {},
            NotifyMessageType::UnequalPayloadLengths => {},
            NotifyMessageType::Connected => {},
            NotifyMessageType::ResponderLifetime => {},
            NotifyMessageType::ReplayStatus => {},
            NotifyMessageType::InitialContact => {},
        }
    }

    /// Whether a value names a variant.
    pub open spec fn spec_known(x: u16) -> bool {
        NotifyMessageType::spec_from_value(x) is Some
    }

    /// Decode an identifier; an unknown one is handed back inside the error.
    pub fn try_from(x: u16) -> (r: Result<NotifyMessageType, UnknownValue>)
        ensures
            match r {
                Ok(v) => NotifyMessageType::spec_from_value(x) == Some(v) && v.spec_value() == x,
                Err(e) => NotifyMessageType::spec_from_value(x) is None && e.value == x as u32,
            },
    {
        match x {
            1 => Ok(NotifyMessageType::InvalidPayloadType),
            2 => Ok(NotifyMessageType::DoiNotSupported),
            3 => Ok(NotifyMessageType::SituationNotSupported),
            4 => Ok(NotifyMessageType::InvalidCookie),
            5 => Ok(NotifyMessageType::InvalidMajorVersion),
            6 => Ok(NotifyMessageType::InvalidMinorVersion),
            7 => Ok(NotifyMessageType::InvalidExchangeType),
            8 => Ok(NotifyMessageType::InvalidFlags),
            9 => Ok(NotifyMessageType::InvalidMessageId),
            10 => Ok(NotifyMessageType::InvalidProtocolId),
            11 => Ok(NotifyMessageType::InvalidSpi),
            12 => Ok(NotifyMessageType::InvalidTransformId),
            13 => Ok(NotifyMessageType::AttributesNotSupported),
            14 => Ok(NotifyMessageType::NoProposalChosen),
            15 => Ok(NotifyMessageType::BadProposalSyntax),
            16 => Ok(NotifyMessageType::PayloadMalformed),
            17 => Ok(NotifyMessageType::InvalidKeyInformation),
            18 => Ok(NotifyMessageType::InvalidIdInformation),
            19 => Ok(NotifyMessageType::InvalidCertEncoding),
            20 => Ok(NotifyMessageType::InvalidCertificate),
            21 => Ok(NotifyMessageType::CertTypeUnsupported),
            22 => Ok(NotifyMessageType::InvalidCertAuthority),
            23 => Ok(NotifyMessageType::InvalidHashInformation),
            24 => Ok(NotifyMessageType::AuthenticationFailed),
            25 => Ok(NotifyMessageType::InvalidSignature),
            26 => Ok(NotifyMessageType::AddressNotification),
            27 => Ok(NotifyMessageType::NotifyPayloadLifetime),
            28 => Ok(NotifyMessageType::CertificateUnavailable),
            29 => Ok(NotifyMessageType::UnsupportedExchangeType),
            30 => Ok(NotifyMessageType::UnequalPayloadLengths),
            16384 => Ok(NotifyMessageType::Connected),
            24576 => Ok(NotifyMessageType::ResponderLifetime),
            24577 => Ok(NotifyMessageType::ReplayStatus),
            24578 => Ok(NotifyMessageType::InitialContact),
            _ => Err(UnknownValue { value: x as u32 }),
        }
    }
}

/// Domain of interpretation of a security association (RFC 2408, 2.1; RFC 2407).
#[derive(Debug, Clone, Copy, PartialEq, Eq, Structural, PartialOrd, Ord, Hash)]
pub enum DomainOfInterpretation {
    Isakmp,
    Ipsec,
}

impl DomainOfInterpretation {
    /// The identifier of the variant on the wire.
    pub open spec fn spec_value(self) -> u32 {
        match self {
            DomainOfInterpretation::Isakmp => 0,
            DomainOfInterpretation::Ipsec => 1,
        }
    }

    /// The identifier of the variant on the wire.
    pub fn value(&self) -> (r: u32)
        ensures
            r == self.spec_value(),
    {
        match self {
            DomainOfInterpretation::Isakmp => 0,
            DomainOfInterpretation::Ipsec => 1,
        }
    }

    /// The variant that a value names, if any.
    pub open spec fn spec_from_value(x: u32) -> Option<DomainOfInterpretation> {
        match x {
            0 => Some(DomainOfInterpretation::Isakmp),
            1 => Some(DomainOfInterpretation::Ipsec),
            _ => None,
        }
    }

    /// Reading back the identifier of a variant gives the variant.
    pub proof fn lemma_value_round_trip(v: DomainOfInterpretation)
        ensures
            DomainOfInterpretation::spec_from_value(v.spec_value()) == Some(v),
    {
        match v {
            DomainOfInterpretation::Isakmp => {},
            DomainOfInterpretation::Ipsec => {},
        }
    }

    /// Whether a value names a variant.
    pub open spec fn spec_known(x: u32) -> bool {
        DomainOfInterpretation::spec_from_value(x) is Some
    }

    /// Decode an identifier; an unknown one is handed back inside the error.
    pub fn try_from(x: u32) -> (r: Result<DomainOfInterpretation, UnknownValue>)
        ensures
            match r {
                Ok(v) => DomainOfInterpretation::spec_from_value(x) == Some(v) && v.spec_value() == x,
                Err(e) => DomainOfInterpretation::spec_from_value(x) is None && e.value == x as u32,
            },
    {
        match x {
            0 => Ok(DomainOfInterpretation::Isakmp),
            1 => Ok(DomainOfInterpretation::Ipsec),
            _ => Err(UnknownValue { value: x as u32 }),
        }
    }
}

} // verus!
