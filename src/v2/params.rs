//! IKEv2 parameters as registered by IANA ("Internet Key Exchange Version 2 (IKEv2) Parameters").
use vstd::prelude::*;

verus! {

/// Version byte of an IKEv2 header: major version 2, minor version 0.
pub const IKE_2_VERSION_VALUE: u8 = 0x20;

/// Header flag: the sender is the original initiator of the IKE SA.
pub const FLAG_INITIATOR: u8 = 0x08;

/// Header flag: the sender could speak a higher major version.
pub const FLAG_HIGHER_VERSION: u8 = 0x10;

/// Header flag: the message is a response.
pub const FLAG_RESPONSE: u8 = 0x20;

/// Payload header flag: reject the message if the payload is not understood.
pub const FLAG_CRITICAL: u8 = 0x80;

/// `last_substruct` of a proposal that is followed by another proposal (0 ends the list).
pub const FLAG_MORE_FOLLOWING_PROPOSALS: u8 = 2;

/// `last_substruct` of a transform that is followed by another transform (0 ends the list).
pub const FLAG_MORE_FOLLOWING_TRANSFORMS: u8 = 3;

/// Top bit of an attribute type: the attribute has the fixed-length (type/value) format.
pub const FLAG_ATTRIBUTE_FORMAT: u16 = 0x8000;

/// The number that the first proposal of a security association carries.
pub const CONST_FIRST_PROPOSAL_NUMBER: u8 = 1;

/// Why a value names no variant of an identifier space.
#[derive(Debug, Clone, Copy, PartialEq, Eq, Structural, PartialOrd, Ord, Hash)]
pub enum UnparseableParameter {
    /// Reserved; must not be used.
    Reserved,
    /// Not assigned by any standard.
    Unassigned,
    /// Reserved for private use.
    PrivateUse,
    /// Cannot occur in the field it was read from.
    OutOfRange,
}

/// Exchange type of an IKEv2 message.
/// 
/// Values 0-33 are reserved, 45-239 unassigned and 240-255 for private use.
#[derive(Debug, Clone, Copy, PartialEq, Eq, Structural, PartialOrd, Ord, Hash)]
pub enum ExchangeType {
    IkeSaInit,
    IkeAuth,
    CreateChildSa,
    Informational,
    IkeSessionResume,
    GsaAuth,
    GsaRegistration,
    GsaRekey,
    GsaInbandRekey,
    IkeIntermediate,
    IkeFollowupKeyExchange,
}

impl ExchangeType {
    /// The identifier of the variant on the wire.
    pub open spec fn spec_value(self) -> u8 {
        match self {
            ExchangeType::IkeSaInit => 34,
            ExchangeType::IkeAuth => 35,
            ExchangeType::CreateChildSa => 36,
            ExchangeType::Informational => 37,
            ExchangeType::IkeSessionResume => 38,
            ExchangeType::GsaAuth => 39,
            ExchangeType::GsaRegistration => 40,
            ExchangeType::GsaRekey => 41,
            ExchangeType::GsaInbandRekey => 42,
            ExchangeType::IkeIntermediate => 43,
            ExchangeType::IkeFollowupKeyExchange => 44,
        }
    }

    /// The identifier of the variant on the wire.
    pub fn value(&self) -> (r: u8)
        ensures
            r == self.spec_value(),
    {
        match self {
            ExchangeType::IkeSaInit => 34,
            ExchangeType::IkeAuth => 35,
            ExchangeType::CreateChildSa => 36,
            ExchangeType::Informational => 37,
            ExchangeType::IkeSessionResume => 38,
            ExchangeType::GsaAuth => 39,
            ExchangeType::GsaRegistration => 40,
            ExchangeType::GsaRekey => 41,
            ExchangeType::GsaInbandRekey => 42,
            ExchangeType::IkeIntermediate => 43,
            ExchangeType::IkeFollowupKeyExchange => 44,
        }
    }

    /// The category of a value that names no variant, `None` for one that does.
    pub open spec fn spec_category(x: u8) -> Option<UnparseableParameter> {
        if x <= 33 { Some(UnparseableParameter::Reserved) } else if x <= 44 { None } else if x <= 239 { Some(UnparseableParameter::Unassigned) } else { Some(UnparseableParameter::PrivateUse) }
    }

    /// The variant that a value names, if any.
    pub open spec fn spec_from_value(x: u8) -> Option<ExchangeType> {
        match x {
            34 => Some(ExchangeType::IkeSaInit),
            35 => Some(ExchangeType::IkeAuth),
            36 => Some(ExchangeType::CreateChildSa),
            37 => Some(ExchangeType::Informational),
            38 => Some(ExchangeType::IkeSessionResume),
            39 => Some(ExchangeType::GsaAuth),
            40 => Some(ExchangeType::GsaRegistration),
            41 => Some(ExchangeType::GsaRekey),
            42 => Some(ExchangeType::GsaInbandRekey),
            43 => Some(ExchangeType::IkeIntermediate),
            44 => Some(ExchangeType::IkeFollowupKeyExchange),
            _ => None,
        }
    }

    /// Reading back the identifier of a variant gives the variant.
    pub proof fn lemma_value_round_trip(v: ExchangeType)
        ensures
            ExchangeType::spec_from_value(v.spec_value()) == Some(v),
            ExchangeType::spec_category(v.spec_value()) is None,
    {
        match v {
            ExchangeType::IkeSaInit => {},
            ExchangeType::IkeAuth => {},
            ExchangeType::CreateChildSa => {},
            ExchangeType::Informational => {},
            ExchangeType::IkeSessionResume => {},
            ExchangeType::GsaAuth => {},
            ExchangeType::GsaRegistration => {},
            ExchangeType::GsaRekey => {},
            ExchangeType::GsaInbandRekey => {},
            ExchangeType::IkeIntermediate => {},
            ExchangeType::IkeFollowupKeyExchange => {},
        }
    }

    /// Decode an identifier: the variant that it names, or its category.
    pub fn try_from(x: u8) -> (r: Result<ExchangeType, UnparseableParameter>)
        ensures
            match r {
                Ok(v) => ExchangeType::spec_category(x) is None && v.spec_value() == x && ExchangeType::spec_from_value(x) == Some(v),
                Err(e) => ExchangeType::spec_category(x) == Some(e) && ExchangeType::spec_from_value(x) is None,
            },
    {
        match x {
            34 => Ok(ExchangeType::IkeSaInit),
            35 => Ok(ExchangeType::IkeAuth),
            36 => Ok(ExchangeType::CreateChildSa),
            37 => Ok(ExchangeType::Informational),
            38 => Ok(ExchangeType::IkeSessionResume),
            39 => Ok(ExchangeType::GsaAuth),
            40 => Ok(ExchangeType::GsaRegistration),
            41 => Ok(ExchangeType::GsaRekey),
            42 => Ok(ExchangeType::GsaInbandRekey),
            43 => Ok(ExchangeType::IkeIntermediate),
            44 => Ok(ExchangeType::IkeFollowupKeyExchange),
            _ => Err(Self::category(x)),
        }
    }

    fn category(x: u8) -> (r: UnparseableParameter)
        requires
            ExchangeType::spec_category(x) is Some,
        ensures
            ExchangeType::spec_category(x) == Some(r),
    {
        if x <= 33 { (UnparseableParameter::Reserved) } else if x <= 44 { UnparseableParameter::Reserved } else if x <= 239 { (UnparseableParameter::Unassigned) } else { (UnparseableParameter::PrivateUse) }
    }
}

/// Type of an IKEv2 payload.
/// 
/// Values 1-32 are reserved, 55-127 unassigned and 128-255 for private use.
#[derive(Debug, Clone, Copy, PartialEq, Eq, Structural, PartialOrd, Ord, Hash)]
pub enum PayloadType {
    NoNextPayload,
    SecurityAssociation,
    KeyExchange,
    IdentificationInitiator,
    IdentificationResponder,
    Certificate,
    CertificateRequest,
    Authentication,
    Nonce,
    Notify,
    Delete,
    VendorID,
    TrafficSelectorInitiator,
    TrafficSelectorResponder,
    EncryptedAndAuthenticated,
    Configuration,
    ExtensibleAuthentication,
    GenericSecurePasswordMethod,
    GroupIdentification,
    GroupSecureAssociation,
    KeyDownload,
    EncryptedAndAuthenticatedFragment,
    PuzzleSolution,
}

impl PayloadType {
    /// The identifier of the variant on the wire.
    pub open spec fn spec_value(self) -> u8 {
        match self {
            PayloadType::NoNextPayload => 0,
            PayloadType::SecurityAssociation => 33,
            PayloadType::KeyExchange => 34,
            PayloadType::IdentificationInitiator => 35,
            PayloadType::IdentificationResponder => 36,
            PayloadType::Certificate => 37,
            PayloadType::CertificateRequest => 38,
            PayloadType::Authentication => 39,
            PayloadType::Nonce => 40,
            PayloadType::Notify => 41,
            PayloadType::Delete => 42,
            PayloadType::VendorID => 43,
            PayloadType::TrafficSelectorInitiator => 44,
            PayloadType::TrafficSelectorResponder => 45,
            PayloadType::EncryptedAndAuthenticated => 46,
            PayloadType::Configuration => 47,
            PayloadType::ExtensibleAuthentication => 48,
            PayloadType::GenericSecurePasswordMethod => 49,
            PayloadType::GroupIdentification => 50,
            PayloadType::GroupSecureAssociation => 51,
            PayloadType::KeyDownload => 52,
            PayloadType::EncryptedAndAuthenticatedFragment => 53,
            PayloadType::PuzzleSolution => 54,
        }
    }

    /// The identifier of the variant on the wire.
    pub fn value(&self) -> (r: u8)
        ensures
            r == self.spec_value(),
    {
        match self {
            PayloadType::NoNextPayload => 0,
            PayloadType::SecurityAssociation => 33,
            PayloadType::KeyExchange => 34,
            PayloadType::IdentificationInitiator => 35,
            PayloadType::IdentificationResponder => 36,
            PayloadType::Certificate => 37,
            PayloadType::CertificateRequest => 38,
            PayloadType::Authentication => 39,
            PayloadType::Nonce => 40,
            PayloadType::Notify => 41,
            PayloadType::Delete => 42,
            PayloadType::VendorID => 43,
            PayloadType::TrafficSelectorInitiator => 44,
            PayloadType::TrafficSelectorResponder => 45,
            PayloadType::EncryptedAndAuthenticated => 46,
            PayloadType::Configuration => 47,
            PayloadType::ExtensibleAuthentication => 48,
            PayloadType::GenericSecurePasswordMethod => 49,
            PayloadType::GroupIdentification => 50,
            PayloadType::GroupSecureAssociation => 51,
            PayloadType::KeyDownload => 52,
            PayloadType::EncryptedAndAuthenticatedFragment => 53,
            PayloadType::PuzzleSolution => 54,
        }
    }

    /// The category of a value that names no variant, `None` for one that does.
    pub open spec fn spec_category(x: u8) -> Option<UnparseableParameter> {
        if x == 0 { None } else if x <= 32 { Some(UnparseableParameter::Reserved) } else if x <= 54 { None } else if x <= 127 { Some(UnparseableParameter::Unassigned) } else { Some(UnparseableParameter::PrivateUse) }
    }

    /// The variant that a value names, if any.
    pub open spec fn spec_from_value(x: u8) -> Option<PayloadType> {
        match x {
            0 => Some(PayloadType::NoNextPayload),
            33 => Some(PayloadType::SecurityAssociation),
            34 => Some(PayloadType::KeyExchange),
            35 => Some(PayloadType::IdentificationInitiator),
            36 => Some(PayloadType::IdentificationResponder),
            37 => Some(PayloadType::Certificate),
            38 => Some(PayloadType::CertificateRequest),
            39 => Some(PayloadType::Authentication),
            40 => Some(PayloadType::Nonce),
            41 => Some(PayloadType::Notify),
            42 => Some(PayloadType::Delete),
            43 => Some(PayloadType::VendorID),
            44 => Some(PayloadType::TrafficSelectorInitiator),
            45 => Some(PayloadType::TrafficSelectorResponder),
            46 => Some(PayloadType::EncryptedAndAuthenticated),
            47 => Some(PayloadType::Configuration),
            48 => Some(PayloadType::ExtensibleAuthentication),
            49 => Some(PayloadType::GenericSecurePasswordMethod),
            50 => Some(PayloadType::GroupIdentification),
            51 => Some(PayloadType::GroupSecureAssociation),
            52 => Some(PayloadType::KeyDownload),
            53 => Some(PayloadType::EncryptedAndAuthenticatedFragment),
            54 => Some(PayloadType::PuzzleSolution),
            _ => None,
        }
    }

    /// Reading back the identifier of a variant gives the variant.
    pub proof fn lemma_value_round_trip(v: PayloadType)
        ensures
            PayloadType::spec_from_value(v.spec_value()) == Some(v),
            PayloadType::spec_category(v.spec_value()) is None,
    {
        match v {
            PayloadType::NoNextPayload => {},
            PayloadType::SecurityAssociation => {},
            PayloadType::KeyExchange => {},
            PayloadType::IdentificationInitiator => {},
            PayloadType::IdentificationResponder => {},
            PayloadType::Certificate => {},
            PayloadType::CertificateRequest => {},
            PayloadType::Authentication => {},
            PayloadType::Nonce => {},
            PayloadType::Notify => {},
            PayloadType::Delete => {},
            PayloadType::VendorID => {},
            PayloadType::TrafficSelectorInitiator => {},
            PayloadType::TrafficSelectorResponder => {},
            PayloadType::EncryptedAndAuthenticated => {},
            PayloadType::Configuration => {},
            PayloadType::ExtensibleAuthentication => {},
            PayloadType::GenericSecurePasswordMethod => {},
            PayloadType::GroupIdentification => {},
            PayloadType::GroupSecureAssociation => {},
            PayloadType::KeyDownload => {},
            PayloadType::EncryptedAndAuthenticatedFragment => {},
            PayloadType::PuzzleSolution => {},
        }
    }

    /// Decode an identifier: the variant that it names, or its category.
    pub fn try_from(x: u8) -> (r: Result<PayloadType, UnparseableParameter>)
        ensures
            match r {
                Ok(v) => PayloadType::spec_category(x) is None && v.spec_value() == x && PayloadType::spec_from_value(x) == Some(v),
                Err(e) => PayloadType::spec_category(x) == Some(e) && PayloadType::spec_from_value(x) is None,
            },
    {
        match x {
            0 => Ok(PayloadType::NoNextPayload),
            33 => Ok(PayloadType::SecurityAssociation),
            34 => Ok(PayloadType::KeyExchange),
            35 => Ok(PayloadType::IdentificationInitiator),
            36 => Ok(PayloadType::IdentificationResponder),
            37 => Ok(PayloadType::Certificate),
            38 => Ok(PayloadType::CertificateRequest),
            39 => Ok(PayloadType::Authentication),
            40 => Ok(PayloadType::Nonce),
            41 => Ok(PayloadType::Notify),
            42 => Ok(PayloadType::Delete),
            43 => Ok(PayloadType::VendorID),
            44 => Ok(PayloadType::TrafficSelectorInitiator),
            45 => Ok(PayloadType::TrafficSelectorResponder),
            46 => Ok(PayloadType::EncryptedAndAuthenticated),
            47 => Ok(PayloadType::Configuration),
            48 => Ok(PayloadType::ExtensibleAuthentication),
            49 => Ok(PayloadType::GenericSecurePasswordMethod),
            50 => Ok(PayloadType::GroupIdentification),
            51 => Ok(PayloadType::GroupSecureAssociation),
            52 => Ok(PayloadType::KeyDownload),
            53 => Ok(PayloadType::EncryptedAndAuthenticatedFragment),
            54 => Ok(PayloadType::PuzzleSolution),
            _ => Err(Self::category(x)),
        }
    }

    fn category(x: u8) -> (r: UnparseableParameter)
        requires
            PayloadType::spec_category(x) is Some,
        ensures
            PayloadType::spec_category(x) == Some(r),
    {
        if x == 0 { UnparseableParameter::Reserved } else if x <= 32 { (UnparseableParameter::Reserved) } else if x <= 54 { UnparseableParameter::Reserved } else if x <= 127 { (UnparseableParameter::Unassigned) } else { (UnparseableParameter::PrivateUse) }
    }
}

/// Type of a transform inside a proposal.
/// 
/// Value 0 is reserved, 15-240 unassigned and 241-255 for private use.
#[derive(Debug, Clone, Copy, PartialEq, Eq, Structural, PartialOrd, Ord, Hash)]
pub enum TransformType {
    EncryptionAlgorithm,
    PseudoRandomFunction,
    IntegrityAlgorithm,
    KeyExchangeMethod,
    SequenceNumber,
    AdditionalKeyExchange1,
    AdditionalKeyExchange2,
    AdditionalKeyExchange3,
    AdditionalKeyExchange4,
    AdditionalKeyExchange5,
    AdditionalKeyExchange6,
    AdditionalKeyExchange7,
    KeyWrapAlgorithm,
    GroupControllerAuthenticationMethod,
}

impl TransformType {
    /// The identifier of the variant on the wire.
    pub open spec fn spec_value(self) -> u8 {
        match self {
            TransformType::EncryptionAlgorithm => 1,
            TransformType::PseudoRandomFunction => 2,
            TransformType::IntegrityAlgorithm => 3,
            TransformType::KeyExchangeMethod => 4,
            TransformType::SequenceNumber => 5,
            TransformType::AdditionalKeyExchange1 => 6,
            TransformType::AdditionalKeyExchange2 => 7,
            TransformType::AdditionalKeyExchange3 => 8,
            TransformType::AdditionalKeyExchange4 => 9,
            TransformType::AdditionalKeyExchange5 => 10,
            TransformType::AdditionalKeyExchange6 => 11,
            TransformType::AdditionalKeyExchange7 => 12,
            TransformType::KeyWrapAlgorithm => 13,
            TransformType::GroupControllerAuthenticationMethod => 14,
        }
    }

    /// The identifier of the variant on the wire.
    pub fn value(&self) -> (r: u8)
        ensures
            r == self.spec_value(),
    {
        match self {
            TransformType::EncryptionAlgorithm => 1,
            TransformType::PseudoRandomFunction => 2,
            TransformType::IntegrityAlgorithm => 3,
            TransformType::KeyExchangeMethod => 4,
            TransformType::SequenceNumber => 5,
            TransformType::AdditionalKeyExchange1 => 6,
            TransformType::AdditionalKeyExchange2 => 7,
            TransformType::AdditionalKeyExchange3 => 8,
            TransformType::AdditionalKeyExchange4 => 9,
            TransformType::AdditionalKeyExchange5 => 10,
            TransformType::AdditionalKeyExchange6 => 11,
            TransformType::AdditionalKeyExchange7 => 12,
            TransformType::KeyWrapAlgorithm => 13,
            TransformType::GroupControllerAuthenticationMethod => 14,
        }
    }

    /// The category of a value that names no variant, `None` for one that does.
    pub open spec fn spec_category(x: u8) -> Option<UnparseableParameter> {
        if x == 0 { Some(UnparseableParameter::Reserved) } else if x <= 14 { None } else if x <= 240 { Some(UnparseableParameter::Unassigned) } else { Some(UnparseableParameter::PrivateUse) }
    }

    /// The variant that a value names, if any.
    pub open spec fn spec_from_value(x: u8) -> Option<TransformType> {
        match x {
            1 => Some(TransformType::EncryptionAlgorithm),
            2 => Some(TransformType::PseudoRandomFunction),
            3 => Some(TransformType::IntegrityAlgorithm),
            4 => Some(TransformType::KeyExchangeMethod),
            5 => Some(TransformType::SequenceNumber),
            6 => Some(TransformType::AdditionalKeyExchange1),
            7 => Some(TransformType::AdditionalKeyExchange2),
            8 => Some(TransformType::AdditionalKeyExchange3),
            9 => Some(TransformType::AdditionalKeyExchange4),
            10 => Some(TransformType::AdditionalKeyExchange5),
            11 => Some(TransformType::AdditionalKeyExchange6),
            12 => Some(TransformType::AdditionalKeyExchange7),
            13 => Some(TransformType::KeyWrapAlgorithm),
            14 => Some(TransformType::GroupControllerAuthenticationMethod),
            _ => None,
        }
    }

    /// Reading back the identifier of a variant gives the variant.
    pub proof fn lemma_value_round_trip(v: TransformType)
        ensures
            TransformType::spec_from_value(v.spec_value()) == Some(v),
            TransformType::spec_category(v.spec_value()) is None,
    {
        match v {
            TransformType::EncryptionAlgorithm => {},
            TransformType::PseudoRandomFunction => {},
            TransformType::IntegrityAlgorithm => {},
            TransformType::KeyExchangeMethod => {},
            TransformType::SequenceNumber => {},
            TransformType::AdditionalKeyExchange1 => {},
            TransformType::AdditionalKeyExchange2 => {},
            TransformType::AdditionalKeyExchange3 => {},
            TransformType::AdditionalKeyExchange4 => {},
            TransformType::AdditionalKeyExchange5 => {},
            TransformType::AdditionalKeyExchange6 => {},
            TransformType::AdditionalKeyExchange7 => {},
            TransformType::KeyWrapAlgorithm => {},
            TransformType::GroupControllerAuthenticationMethod => {},
        }
    }

    /// Decode an identifier: the variant that it names, or its category.
    pub fn try_from(x: u8) -> (r: Result<TransformType, UnparseableParameter>)
        ensures
            match r {
                Ok(v) => TransformType::spec_category(x) is None && v.spec_value() == x && TransformType::spec_from_value(x) == Some(v),
                Err(e) => TransformType::spec_category(x) == Some(e) && TransformType::spec_from_value(x) is None,
            },
    {
        match x {
            1 => Ok(TransformType::EncryptionAlgorithm),
            2 => Ok(TransformType::PseudoRandomFunction),
            3 => Ok(TransformType::IntegrityAlgorithm),
            4 => Ok(TransformType::KeyExchangeMethod),
            5 => Ok(TransformType::SequenceNumber),
            6 => Ok(TransformType::AdditionalKeyExchange1),
            7 => Ok(TransformType::AdditionalKeyExchange2),
            8 => Ok(TransformType::AdditionalKeyExchange3),
            9 => Ok(TransformType::AdditionalKeyExchange4),
            10 => Ok(TransformType::AdditionalKeyExchange5),
            11 => Ok(TransformType::AdditionalKeyExchange6),
            12 => Ok(TransformType::AdditionalKeyExchange7),
            13 => Ok(TransformType::KeyWrapAlgorithm),
            14 => Ok(TransformType::GroupControllerAuthenticationMethod),
            _ => Err(Self::category(x)),
        }
    }

    fn category(x: u8) -> (r: UnparseableParameter)
        requires
            TransformType::spec_category(x) is Some,
        ensures
            TransformType::spec_category(x) == Some(r),
    {
        if x == 0 { (UnparseableParameter::Reserved) } else if x <= 14 { UnparseableParameter::Reserved } else if x <= 240 { (UnparseableParameter::Unassigned) } else { (UnparseableParameter::PrivateUse) }
    }
}

/// Type of a transform attribute (the format bit stripped).
/// 
/// Values 0-13 and 15-17 are reserved, 19-16383 unassigned, 16384-32767 for private use;
/// values with the top bit set cannot occur once the format bit is stripped.
#[derive(Debug, Clone, Copy, PartialEq, Eq, Structural, PartialOrd, Ord, Hash)]
pub enum AttributeType {
    KeyLength,
    SignatureAlgorithm,
}

impl AttributeType {
    /// The identifier of the variant on the wire.
    pub open spec fn spec_value(self) -> u16 {
        match self {
            AttributeType::KeyLength => 14,
            AttributeType::SignatureAlgorithm => 18,
        }
    }

    /// The identifier of the variant on the wire.
    pub fn value(&self) -> (r: u16)
        ensures
            r == self.spec_value(),
    {
        match self {
            AttributeType::KeyLength => 14,
            AttributeType::SignatureAlgorithm => 18,
        }
    }

    /// The category of a value that names no variant, `None` for one that does.
    pub open spec fn spec_category(x: u16) -> Option<UnparseableParameter> {
        if x <= 13 { Some(UnparseableParameter::Reserved) } else if x == 14 { None } else if x <= 17 { Some(UnparseableParameter::Reserved) } else if x == 18 { None } else if x <= 16383 { Some(UnparseableParameter::Unassigned) } else if x <= 32767 { Some(UnparseableParameter::PrivateUse) } else { Some(UnparseableParameter::OutOfRange) }
    }

    /// The variant that a value names, if any.
    pub open spec fn spec_from_value(x: u16) -> Option<AttributeType> {
        match x {
            14 => Some(AttributeType::KeyLength),
            18 => Some(AttributeType::SignatureAlgorithm),
            _ => None,
        }
    }

    /// Reading back the identifier of a variant gives the variant.
    pub proof fn lemma_value_round_trip(v: AttributeType)
        ensures
            AttributeType::spec_from_value(v.spec_value()) == Some(v),
            AttributeType::spec_category(v.spec_value()) is None,
    {
        match v {
            AttributeType::KeyLength => {},
            AttributeType::SignatureAlgorithm => {},
        }
    }

    /// Decode an identifier: the variant that it names, or its category.
    pub fn try_from(x: u16) -> (r: Result<AttributeType, UnparseableParameter>)
        ensures
            match r {
                Ok(v) => AttributeType::spec_category(x) is None && v.spec_value() == x && AttributeType::spec_from_value(x) == Some(v),
                Err(e) => AttributeType::spec_category(x) == Some(e) && AttributeType::spec_from_value(x) is None,
            },
    {
        match x {
            14 => Ok(AttributeType::KeyLength),
            18 => Ok(AttributeType::SignatureAlgorithm),
            _ => Err(Self::category(x)),
        }
    }

    fn category(x: u16) -> (r: UnparseableParameter)
        requires
            AttributeType::spec_category(x) is Some,
        ensures
            AttributeType::spec_category(x) == Some(r),
    {
        if x <= 13 { (UnparseableParameter::Reserved) } else if x == 14 { UnparseableParameter::Reserved } else if x <= 17 { (UnparseableParameter::Reserved) } else if x == 18 { UnparseableParameter::Reserved } else if x <= 16383 { (UnparseableParameter::Unassigned) } else if x <= 32767 { (UnparseableParameter::PrivateUse) } else { (UnparseableParameter::OutOfRange) }
    }
}

/// Encryption algorithm transform identifiers.
/// 
/// Values 0, 10 and 22 are reserved, 17 and 36-1023 unassigned, 1024-65535 for private use.
#[derive(Debug, Clone, Copy, PartialEq, Eq, Structural, PartialOrd, Ord, Hash)]
pub enum EncryptionAlgorithm {
    DesIv64,
    Des,
    TripleDes,
    Rc5,
    Idea,
    Cast,
    Blowfish,
    TripleIdea,
    DesIv32,
    Null,
    AesCbc,
    AesCtr,
    AesCcm8,
    AesCcm12,
    AesCcm16,
    AesGcm8,
    AesGcm12,
    AesGcm16,
    NullAuthAesGmac,
    CamelliaCbc,
    CamelliaCtr,
    CamelliaCcm8,
    CamelliaCcm12,
    CamelliaCcm16,
    Chacha20Poly1305,
    AesCcm8IIV,
    AesGcm16IIV,
    Chacha20Poly1305IIV,
    KuznyechikMgmKTree,
    MagmaMgmKTree,
    KuznyechikMgmMacKTree,
    MagmaMgmMacKTree,
}

impl EncryptionAlgorithm {
    /// The identifier of the variant on the wire.
    pub open spec fn spec_value(self) -> u16 {
        match self {
            EncryptionAlgorithm::DesIv64 => 1,
            EncryptionAlgorithm::Des => 2,
            EncryptionAlgorithm::TripleDes => 3,
            EncryptionAlgorithm::Rc5 => 4,
            EncryptionAlgorithm::Idea => 5,
            EncryptionAlgorithm::Cast => 6,
            EncryptionAlgorithm::Blowfish => 7,
            EncryptionAlgorithm::TripleIdea => 8,
            EncryptionAlgorithm::DesIv32 => 9,
            EncryptionAlgorithm::Null => 11,
            EncryptionAlgorithm::AesCbc => 12,
            EncryptionAlgorithm::AesCtr => 13,
            EncryptionAlgorithm::AesCcm8 => 14,
            EncryptionAlgorithm::AesCcm12 => 15,
            EncryptionAlgorithm::AesCcm16 => 16,
            EncryptionAlgorithm::AesGcm8 => 18,
            EncryptionAlgorithm::AesGcm12 => 19,
            EncryptionAlgorithm::AesGcm16 => 20,
            EncryptionAlgorithm::NullAuthAesGmac => 21,
            EncryptionAlgorithm::CamelliaCbc => 23,
            EncryptionAlgorithm::CamelliaCtr => 24,
            EncryptionAlgorithm::CamelliaCcm8 => 25,
            EncryptionAlgorithm::CamelliaCcm12 => 26,
            EncryptionAlgorithm::CamelliaCcm16 => 27,
            EncryptionAlgorithm::Chacha20Poly1305 => 28,
            EncryptionAlgorithm::AesCcm8IIV => 29,
            EncryptionAlgorithm::AesGcm16IIV => 30,
            EncryptionAlgorithm::Chacha20Poly1305IIV => 31,
            EncryptionAlgorithm::KuznyechikMgmKTree => 32,
            EncryptionAlgorithm::MagmaMgmKTree => 33,
            EncryptionAlgorithm::KuznyechikMgmMacKTree => 34,
            EncryptionAlgorithm::MagmaMgmMacKTree => 35,
        }
    }

    /// The identifier of the variant on the wire.
    pub fn value(&self) -> (r: u16)
        ensures
            r == self.spec_value(),
    {
        match self {
            EncryptionAlgorithm::DesIv64 => 1,
            EncryptionAlgorithm::Des => 2,
            EncryptionAlgorithm::TripleDes => 3,
            EncryptionAlgorithm::Rc5 => 4,
            EncryptionAlgorithm::Idea => 5,
            EncryptionAlgorithm::Cast => 6,
            EncryptionAlgorithm::Blowfish => 7,
            EncryptionAlgorithm::TripleIdea => 8,
            EncryptionAlgorithm::DesIv32 => 9,
            EncryptionAlgorithm::Null => 11,
            EncryptionAlgorithm::AesCbc => 12,
            EncryptionAlgorithm::AesCtr => 13,
            EncryptionAlgorithm::AesCcm8 => 14,
            EncryptionAlgorithm::AesCcm12 => 15,
            EncryptionAlgorithm::AesCcm16 => 16,
            EncryptionAlgorithm::AesGcm8 => 18,
            EncryptionAlgorithm::AesGcm12 => 19,
            EncryptionAlgorithm::AesGcm16 => 20,
            EncryptionAlgorithm::NullAuthAesGmac => 21,
            EncryptionAlgorithm::CamelliaCbc => 23,
            EncryptionAlgorithm::CamelliaCtr => 24,
            EncryptionAlgorithm::CamelliaCcm8 => 25,
            EncryptionAlgorithm::CamelliaCcm12 => 26,
            EncryptionAlgorithm::CamelliaCcm16 => 27,
            EncryptionAlgorithm::Chacha20Poly1305 => 28,
            EncryptionAlgorithm::AesCcm8IIV => 29,
            EncryptionAlgorithm::AesGcm16IIV => 30,
            EncryptionAlgorithm::Chacha20Poly1305IIV => 31,
            EncryptionAlgorithm::KuznyechikMgmKTree => 32,
            EncryptionAlgorithm::MagmaMgmKTree => 33,
            EncryptionAlgorithm::KuznyechikMgmMacKTree => 34,
            EncryptionAlgorithm::MagmaMgmMacKTree => 35,
        }
    }

    /// The category of a value that names no variant, `None` for one that does.
    pub open spec fn spec_category(x: u16) -> Option<UnparseableParameter> {
        if x == 0 || x == 10 || x == 22 { Some(UnparseableParameter::Reserved) } else if x == 17 { Some(UnparseableParameter::Unassigned) } else if x <= 35 { None } else if x <= 1023 { Some(UnparseableParameter::Unassigned) } else { Some(UnparseableParameter::PrivateUse) }
    }

    /// The variant that a value names, if any.
    pub open spec fn spec_from_value(x: u16) -> Option<EncryptionAlgorithm> {
        match x {
            1 => Some(EncryptionAlgorithm::DesIv64),
            2 => Some(EncryptionAlgorithm::Des),
            3 => Some(EncryptionAlgorithm::TripleDes),
            4 => Some(EncryptionAlgorithm::Rc5),
            5 => Some(EncryptionAlgorithm::Idea),
            6 => Some(EncryptionAlgorithm::Cast),
            7 => Some(EncryptionAlgorithm::Blowfish),
            8 => Some(EncryptionAlgorithm::TripleIdea),
            9 => Some(EncryptionAlgorithm::DesIv32),
            11 => Some(EncryptionAlgorithm::Null),
            12 => Some(EncryptionAlgorithm::AesCbc),
            13 => Some(EncryptionAlgorithm::AesCtr),
            14 => Some(EncryptionAlgorithm::AesCcm8),
            15 => Some(EncryptionAlgorithm::AesCcm12),
            16 => Some(EncryptionAlgorithm::AesCcm16),
            18 => Some(EncryptionAlgorithm::AesGcm8),
            19 => Some(EncryptionAlgorithm::AesGcm12),
            20 => Some(EncryptionAlgorithm::AesGcm16),
            21 => Some(EncryptionAlgorithm::NullAuthAesGmac),
            23 => Some(EncryptionAlgorithm::CamelliaCbc),
            24 => Some(EncryptionAlgorithm::CamelliaCtr),
            25 => Some(EncryptionAlgorithm::CamelliaCcm8),
            26 => Some(EncryptionAlgorithm::CamelliaCcm12),
            27 => Some(EncryptionAlgorithm::CamelliaCcm16),
            28 => Some(EncryptionAlgorithm::Chacha20Poly1305),
            29 => Some(EncryptionAlgorithm::AesCcm8IIV),
            30 => Some(EncryptionAlgorithm::AesGcm16IIV),
            31 => Some(EncryptionAlgorithm::Chacha20Poly1305IIV),
            32 => Some(EncryptionAlgorithm::KuznyechikMgmKTree),
            33 => Some(EncryptionAlgorithm::MagmaMgmKTree),
            34 => Some(EncryptionAlgorithm::KuznyechikMgmMacKTree),
            35 => Some(EncryptionAlgorithm::MagmaMgmMacKTree),
            _ => None,
        }
    }

    /// Reading back the identifier of a variant gives the variant.
    pub proof fn lemma_value_round_trip(v: EncryptionAlgorithm)
        ensures
            EncryptionAlgorithm::spec_from_value(v.spec_value()) == Some(v),
            EncryptionAlgorithm::spec_category(v.spec_value()) is None,
    {
        match v {
            EncryptionAlgorithm::DesIv64 => {},
            EncryptionAlgorithm::Des => {},
            EncryptionAlgorithm::TripleDes => {},
            EncryptionAlgorithm::Rc5 => {},
            EncryptionAlgorithm::Idea => {},
            EncryptionAlgorithm::Cast => {},
            EncryptionAlgorithm::Blowfish => {},
            EncryptionAlgorithm::TripleIdea => {},
            EncryptionAlgorithm::DesIv32 => {},
            EncryptionAlgorithm::Null => {},
            EncryptionAlgorithm::AesCbc => {},
            EncryptionAlgorithm::AesCtr => {},
            EncryptionAlgorithm::AesCcm8 => {},
            EncryptionAlgorithm::AesCcm12 => {},
            EncryptionAlgorithm::AesCcm16 => {},
            EncryptionAlgorithm::AesGcm8 => {},
            EncryptionAlgorithm::AesGcm12 => {},
            EncryptionAlgorithm::AesGcm16 => {},
            EncryptionAlgorithm::NullAuthAesGmac => {},
            EncryptionAlgorithm::CamelliaCbc => {},
            EncryptionAlgorithm::CamelliaCtr => {},
            EncryptionAlgorithm::CamelliaCcm8 => {},
            EncryptionAlgorithm::CamelliaCcm12 => {},
            EncryptionAlgorithm::CamelliaCcm16 => {},
            EncryptionAlgorithm::Chacha20Poly1305 => {},
            EncryptionAlgorithm::AesCcm8IIV => {},
            EncryptionAlgorithm::AesGcm16IIV => {},
            EncryptionAlgorithm::Chacha20Poly1305IIV => {},
            EncryptionAlgorithm::KuznyechikMgmKTree => {},
            EncryptionAlgorithm::MagmaMgmKTree => {},
            EncryptionAlgorithm::KuznyechikMgmMacKTree => {},
            EncryptionAlgorithm::MagmaMgmMacKTree => {},
        }
    }

    /// Decode an identifier: the variant that it names, or its category.
    pub fn try_from(x: u16) -> (r: Result<EncryptionAlgorithm, UnparseableParameter>)
        ensures
            match r {
                Ok(v) => EncryptionAlgorithm::spec_category(x) is None && v.spec_value() == x && EncryptionAlgorithm::spec_from_value(x) == Some(v),
                Err(e) => EncryptionAlgorithm::spec_category(x) == Some(e) && EncryptionAlgorithm::spec_from_value(x) is None,
            },
    {
        match x {
            1 => Ok(EncryptionAlgorithm::DesIv64),
            2 => Ok(EncryptionAlgorithm::Des),
            3 => Ok(EncryptionAlgorithm::TripleDes),
            4 => Ok(EncryptionAlgorithm::Rc5),
            5 => Ok(EncryptionAlgorithm::Idea),
            6 => Ok(EncryptionAlgorithm::Cast),
            7 => Ok(EncryptionAlgorithm::Blowfish),
            8 => Ok(EncryptionAlgorithm::TripleIdea),
            9 => Ok(EncryptionAlgorithm::DesIv32),
            11 => Ok(EncryptionAlgorithm::Null),
            12 => Ok(EncryptionAlgorithm::AesCbc),
            13 => Ok(EncryptionAlgorithm::AesCtr),
            14 => Ok(EncryptionAlgorithm::AesCcm8),
            15 => Ok(EncryptionAlgorithm::AesCcm12),
            16 => Ok(EncryptionAlgorithm::AesCcm16),
            18 => Ok(EncryptionAlgorithm::AesGcm8),
            19 => Ok(EncryptionAlgorithm::AesGcm12),
            20 => Ok(EncryptionAlgorithm::AesGcm16),
            21 => Ok(EncryptionAlgorithm::NullAuthAesGmac),
            23 => Ok(EncryptionAlgorithm::CamelliaCbc),
            24 => Ok(EncryptionAlgorithm::CamelliaCtr),
            25 => Ok(EncryptionAlgorithm::CamelliaCcm8),
            26 => Ok(EncryptionAlgorithm::CamelliaCcm12),
            27 => Ok(EncryptionAlgorithm::CamelliaCcm16),
            28 => Ok(EncryptionAlgorithm::Chacha20Poly1305),
            29 => Ok(EncryptionAlgorithm::AesCcm8IIV),
            30 => Ok(EncryptionAlgorithm::AesGcm16IIV),
            31 => Ok(EncryptionAlgorithm::Chacha20Poly1305IIV),
            32 => Ok(EncryptionAlgorithm::KuznyechikMgmKTree),
            33 => Ok(EncryptionAlgorithm::MagmaMgmKTree),
            34 => Ok(EncryptionAlgorithm::KuznyechikMgmMacKTree),
            35 => Ok(EncryptionAlgorithm::MagmaMgmMacKTree),
            _ => Err(Self::category(x)),
        }
    }

    fn category(x: u16) -> (r: UnparseableParameter)
        requires
            EncryptionAlgorithm::spec_category(x) is Some,
        ensures
            EncryptionAlgorithm::spec_category(x) == Some(r),
    {
        if x == 0 || x == 10 || x == 22 { (UnparseableParameter::Reserved) } else if x == 17 { (UnparseableParameter::Unassigned) } else if x <= 35 { UnparseableParameter::Reserved } else if x <= 1023 { (UnparseableParameter::Unassigned) } else { (UnparseableParameter::PrivateUse) }
    }
}

/// Pseudorandom function transform identifiers.
/// 
/// Value 0 is reserved, 10-1023 unassigned and 1024-65535 for private use.
#[derive(Debug, Clone, Copy, PartialEq, Eq, Structural, PartialOrd, Ord, Hash)]
pub enum PseudorandomFunction {
    HmacMd5,
    HmacSha1,
    HmacTiger,
    Aes128Xcbc,
    HmacSha2_256,
    HmacSha2_384,
    HmacSha2_512,
    Aes128Cmac,
    HmacStreebog512,
}

impl PseudorandomFunction {
    /// The identifier of the variant on the wire.
    pub open spec fn spec_value(self) -> u16 {
        match self {
            PseudorandomFunction::HmacMd5 => 1,
            PseudorandomFunction::HmacSha1 => 2,
            PseudorandomFunction::HmacTiger => 3,
            PseudorandomFunction::Aes128Xcbc => 4,
            PseudorandomFunction::HmacSha2_256 => 5,
            PseudorandomFunction::HmacSha2_384 => 6,
            PseudorandomFunction::HmacSha2_512 => 7,
            PseudorandomFunction::Aes128Cmac => 8,
            PseudorandomFunction::HmacStreebog512 => 9,
        }
    }

    /// The identifier of the variant on the wire.
    pub fn value(&self) -> (r: u16)
        ensures
            r == self.spec_value(),
    {
        match self {
            PseudorandomFunction::HmacMd5 => 1,
            PseudorandomFunction::HmacSha1 => 2,
            PseudorandomFunction::HmacTiger => 3,
            PseudorandomFunction::Aes128Xcbc => 4,
            PseudorandomFunction::HmacSha2_256 => 5,
            PseudorandomFunction::HmacSha2_384 => 6,
            PseudorandomFunction::HmacSha2_512 => 7,
            PseudorandomFunction::Aes128Cmac => 8,
            PseudorandomFunction::HmacStreebog512 => 9,
        }
    }

    /// The category of a value that names no variant, `None` for one that does.
    pub open spec fn spec_category(x: u16) -> Option<UnparseableParameter> {
        if x == 0 { Some(UnparseableParameter::Reserved) } else if x <= 9 { None } else if x <= 1023 { Some(UnparseableParameter::Unassigned) } else { Some(UnparseableParameter::PrivateUse) }
    }

    /// The variant that a value names, if any.
    pub open spec fn spec_from_value(x: u16) -> Option<PseudorandomFunction> {
        match x {
            1 => Some(PseudorandomFunction::HmacMd5),
            2 => Some(PseudorandomFunction::HmacSha1),
            3 => Some(PseudorandomFunction::HmacTiger),
            4 => Some(PseudorandomFunction::Aes128Xcbc),
            5 => Some(PseudorandomFunction::HmacSha2_256),
            6 => Some(PseudorandomFunction::HmacSha2_384),
            7 => Some(PseudorandomFunction::HmacSha2_512),
            8 => Some(PseudorandomFunction::Aes128Cmac),
            9 => Some(PseudorandomFunction::HmacStreebog512),
            _ => None,
        }
    }

    /// Reading back the identifier of a variant gives the variant.
    pub proof fn lemma_value_round_trip(v: PseudorandomFunction)
        ensures
            PseudorandomFunction::spec_from_value(v.spec_value()) == Some(v),
            PseudorandomFunction::spec_category(v.spec_value()) is None,
    {
        match v {
            PseudorandomFunction::HmacMd5 => {},
            PseudorandomFunction::HmacSha1 => {},
            PseudorandomFunction::HmacTiger => {},
            PseudorandomFunction::Aes128Xcbc => {},
            PseudorandomFunction::HmacSha2_256 => {},
            PseudorandomFunction::HmacSha2_384 => {},
            PseudorandomFunction::HmacSha2_512 => {},
            PseudorandomFunction::Aes128Cmac => {},
            PseudorandomFunction::HmacStreebog512 => {},
        }
    }

    /// Decode an identifier: the variant that it names, or its category.
    pub fn try_from(x: u16) -> (r: Result<PseudorandomFunction, UnparseableParameter>)
        ensures
            match r {
                Ok(v) => PseudorandomFunction::spec_category(x) is None && v.spec_value() == x && PseudorandomFunction::spec_from_value(x) == Some(v),
                Err(e) => PseudorandomFunction::spec_category(x) == Some(e) && PseudorandomFunction::spec_from_value(x) is None,
            },
    {
        match x {
            1 => Ok(PseudorandomFunction::HmacMd5),
            2 => Ok(PseudorandomFunction::HmacSha1),
            3 => Ok(PseudorandomFunction::HmacTiger),
            4 => Ok(PseudorandomFunction::Aes128Xcbc),
            5 => Ok(PseudorandomFunction::HmacSha2_256),
            6 => Ok(PseudorandomFunction::HmacSha2_384),
            7 => Ok(PseudorandomFunction::HmacSha2_512),
            8 => Ok(PseudorandomFunction::Aes128Cmac),
            9 => Ok(PseudorandomFunction::HmacStreebog512),
            _ => Err(Self::category(x)),
        }
    }

    fn category(x: u16) -> (r: UnparseableParameter)
        requires
            PseudorandomFunction::spec_category(x) is Some,
        ensures
            PseudorandomFunction::spec_category(x) == Some(r),
    {
        if x == 0 { (UnparseableParameter::Reserved) } else if x <= 9 { UnparseableParameter::Reserved } else if x <= 1023 { (UnparseableParameter::Unassigned) } else { (UnparseableParameter::PrivateUse) }
    }
}

/// Integrity algorithm transform identifiers.
/// 
/// Values 15-1023 are unassigned and 1024-65535 for private use.
#[derive(Debug, Clone, Copy, PartialEq, Eq, Structural, PartialOrd, Ord, Hash)]
pub enum IntegrityAlgorithm {
    NoIntegrity,
    HmacMd5_96,
    HmacSha1_96,
    DesMac,
    KpdkMd5,
    AesXcbc96,
    HmacMd5_128,
    HmacSha1_160,
    AesCmac96,
    Aes128Gmac,
    Aes192Gmac,
    Aes256Gmac,
    HmacSha2_256_128,
    HmacSha2_384_192,
    HmacSha2_512_256,
}

impl IntegrityAlgorithm {
    /// The identifier of the variant on the wire.
    pub open spec fn spec_value(self) -> u16 {
        match self {
            IntegrityAlgorithm::NoIntegrity => 0,
            IntegrityAlgorithm::HmacMd5_96 => 1,
            IntegrityAlgorithm::HmacSha1_96 => 2,
            IntegrityAlgorithm::DesMac => 3,
            IntegrityAlgorithm::KpdkMd5 => 4,
            IntegrityAlgorithm::AesXcbc96 => 5,
            IntegrityAlgorithm::HmacMd5_128 => 6,
            IntegrityAlgorithm::HmacSha1_160 => 7,
            IntegrityAlgorithm::AesCmac96 => 8,
            IntegrityAlgorithm::Aes128Gmac => 9,
            IntegrityAlgorithm::Aes192Gmac => 10,
            IntegrityAlgorithm::Aes256Gmac => 11,
            IntegrityAlgorithm::HmacSha2_256_128 => 12,
            IntegrityAlgorithm::HmacSha2_384_192 => 13,
            IntegrityAlgorithm::HmacSha2_512_256 => 14,
        }
    }

    /// The identifier of the variant on the wire.
    pub fn value(&self) -> (r: u16)
        ensures
            r == self.spec_value(),
    {
        match self {
            IntegrityAlgorithm::NoIntegrity => 0,
            IntegrityAlgorithm::HmacMd5_96 => 1,
            IntegrityAlgorithm::HmacSha1_96 => 2,
            IntegrityAlgorithm::DesMac => 3,
            IntegrityAlgorithm::KpdkMd5 => 4,
            IntegrityAlgorithm::AesXcbc96 => 5,
            IntegrityAlgorithm::HmacMd5_128 => 6,
            IntegrityAlgorithm::HmacSha1_160 => 7,
            IntegrityAlgorithm::AesCmac96 => 8,
            IntegrityAlgorithm::Aes128Gmac => 9,
            IntegrityAlgorithm::Aes192Gmac => 10,
            IntegrityAlgorithm::Aes256Gmac => 11,
            IntegrityAlgorithm::HmacSha2_256_128 => 12,
            IntegrityAlgorithm::HmacSha2_384_192 => 13,
            IntegrityAlgorithm::HmacSha2_512_256 => 14,
        }
    }

    /// The category of a value that names no variant, `None` for one that does.
    pub open spec fn spec_category(x: u16) -> Option<UnparseableParameter> {
        if x <= 14 { None } else if x <= 1023 { Some(UnparseableParameter::Unassigned) } else { Some(UnparseableParameter::PrivateUse) }
    }

    /// The variant that a value names, if any.
    pub open spec fn spec_from_value(x: u16) -> Option<IntegrityAlgorithm> {
        match x {
            0 => Some(IntegrityAlgorithm::NoIntegrity),
            1 => Some(IntegrityAlgorithm::HmacMd5_96),
            2 => Some(IntegrityAlgorithm::HmacSha1_96),
            3 => Some(IntegrityAlgorithm::DesMac),
            4 => Some(IntegrityAlgorithm::KpdkMd5),
            5 => Some(IntegrityAlgorithm::AesXcbc96),
            6 => Some(IntegrityAlgorithm::HmacMd5_128),
            7 => Some(IntegrityAlgorithm::HmacSha1_160),
            8 => Some(IntegrityAlgorithm::AesCmac96),
            9 => Some(IntegrityAlgorithm::Aes128Gmac),
            10 => Some(IntegrityAlgorithm::Aes192Gmac),
            11 => Some(IntegrityAlgorithm::Aes256Gmac),
            12 => Some(IntegrityAlgorithm::HmacSha2_256_128),
            13 => Some(IntegrityAlgorithm::HmacSha2_384_192),
            14 => Some(IntegrityAlgorithm::HmacSha2_512_256),
            _ => None,
        }
    }

    /// Reading back the identifier of a variant gives the variant.
    pub proof fn lemma_value_round_trip(v: IntegrityAlgorithm)
        ensures
            IntegrityAlgorithm::spec_from_value(v.spec_value()) == Some(v),
            IntegrityAlgorithm::spec_category(v.spec_value()) is None,
    {
        match v {
            IntegrityAlgorithm::NoIntegrity => {},
            IntegrityAlgorithm::HmacMd5_96 => {},
            IntegrityAlgorithm::HmacSha1_96 => {},
            IntegrityAlgorithm::DesMac => {},
            IntegrityAlgorithm::KpdkMd5 => {},
            IntegrityAlgorithm::AesXcbc96 => {},
            IntegrityAlgorithm::HmacMd5_128 => {},
            IntegrityAlgorithm::HmacSha1_160 => {},
            IntegrityAlgorithm::AesCmac96 => {},
            IntegrityAlgorithm::Aes128Gmac => {},
            IntegrityAlgorithm::Aes192Gmac => {},
            IntegrityAlgorithm::Aes256Gmac => {},
            IntegrityAlgorithm::HmacSha2_256_128 => {},
            IntegrityAlgorithm::HmacSha2_384_192 => {},
            IntegrityAlgorithm::HmacSha2_512_256 => {},
        }
    }

    /// Decode an identifier: the variant that it names, or its category.
    pub fn try_from(x: u16) -> (r: Result<IntegrityAlgorithm, UnparseableParameter>)
        ensures
            match r {
                Ok(v) => IntegrityAlgorithm::spec_category(x) is None && v.spec_value() == x && IntegrityAlgorithm::spec_from_value(x) == Some(v),
                Err(e) => IntegrityAlgorithm::spec_category(x) == Some(e) && IntegrityAlgorithm::spec_from_value(x) is None,
            },
    {
        match x {
            0 => Ok(IntegrityAlgorithm::NoIntegrity),
            1 => Ok(IntegrityAlgorithm::HmacMd5_96),
            2 => Ok(IntegrityAlgorithm::HmacSha1_96),
            3 => Ok(IntegrityAlgorithm::DesMac),
            4 => Ok(IntegrityAlgorithm::KpdkMd5),
            5 => Ok(IntegrityAlgorithm::AesXcbc96),
            6 => Ok(IntegrityAlgorithm::HmacMd5_128),
            7 => Ok(IntegrityAlgorithm::HmacSha1_160),
            8 => Ok(IntegrityAlgorithm::AesCmac96),
            9 => Ok(IntegrityAlgorithm::Aes128Gmac),
            10 => Ok(IntegrityAlgorithm::Aes192Gmac),
            11 => Ok(IntegrityAlgorithm::Aes256Gmac),
            12 => Ok(IntegrityAlgorithm::HmacSha2_256_128),
            13 => Ok(IntegrityAlgorithm::HmacSha2_384_192),
            14 => Ok(IntegrityAlgorithm::HmacSha2_512_256),
            _ => Err(Self::category(x)),
        }
    }

    fn category(x: u16) -> (r: UnparseableParameter)
        requires
            IntegrityAlgorithm::spec_category(x) is Some,
        ensures
            IntegrityAlgorithm::spec_category(x) == Some(r),
    {
        if x <= 14 { UnparseableParameter::Reserved } else if x <= 1023 { (UnparseableParameter::Unassigned) } else { (UnparseableParameter::PrivateUse) }
    }
}

/// Key exchange method transform identifiers (formerly Diffie-Hellman groups).
/// 
/// Values 3-4 are reserved, 6-13 and 38-1023 unassigned, 1024-65535 for private use.
#[derive(Debug, Clone, Copy, PartialEq, Eq, Structural, PartialOrd, Ord, Hash)]
pub enum KeyExchangeMethod {
    NoKeyExchange,
    ModP768,
    ModP1024,
    ModP1536,
    ModP2048,
    ModP3072,
    ModP4096,
    ModP6144,
    ModP8192,
    EcpGroup256,
    EcpGroup384,
    EcpGroup521,
    ModP1024with160Prime,
    ModP2048with224Prime,
    ModP2048with256Prime,
    EcpGroup192,
    EcpGroup224,
    BrainPoolP224,
    BrainPoolP256,
    BrainPoolP384,
    BrainPoolP512,
    Curve25519,
    Curve448,
    Gost310_256,
    Gost310_512,
    MlKem512,
    MlKem768,
    MlKem1024,
}

impl KeyExchangeMethod {
    /// The identifier of the variant on the wire.
    pub open spec fn spec_value(self) -> u16 {
        match self {
            KeyExchangeMethod::NoKeyExchange => 0,
            KeyExchangeMethod::ModP768 => 1,
            KeyExchangeMethod::ModP1024 => 2,
            KeyExchangeMethod::ModP1536 => 5,
            KeyExchangeMethod::ModP2048 => 14,
            KeyExchangeMethod::ModP3072 => 15,
            KeyExchangeMethod::ModP4096 => 16,
            KeyExchangeMethod::ModP6144 => 17,
            KeyExchangeMethod::ModP8192 => 18,
            KeyExchangeMethod::EcpGroup256 => 19,
            KeyExchangeMethod::EcpGroup384 => 20,
            KeyExchangeMethod::EcpGroup521 => 21,
            KeyExchangeMethod::ModP1024with160Prime => 22,
            KeyExchangeMethod::ModP2048with224Prime => 23,
            KeyExchangeMethod::ModP2048with256Prime => 24,
            KeyExchangeMethod::EcpGroup192 => 25,
            KeyExchangeMethod::EcpGroup224 => 26,
            KeyExchangeMethod::BrainPoolP224 => 27,
            KeyExchangeMethod::BrainPoolP256 => 28,
            KeyExchangeMethod::BrainPoolP384 => 29,
            KeyExchangeMethod::BrainPoolP512 => 30,
            KeyExchangeMethod::Curve25519 => 31,
            KeyExchangeMethod::Curve448 => 32,
            KeyExchangeMethod::Gost310_256 => 33,
            KeyExchangeMethod::Gost310_512 => 34,
            KeyExchangeMethod::MlKem512 => 35,
            KeyExchangeMethod::MlKem768 => 36,
            KeyExchangeMethod::MlKem1024 => 37,
        }
    }

    /// The identifier of the variant on the wire.
    pub fn value(&self) -> (r: u16)
        ensures
            r == self.spec_value(),
    {
        match self {
            KeyExchangeMethod::NoKeyExchange => 0,
            KeyExchangeMethod::ModP768 => 1,
            KeyExchangeMethod::ModP1024 => 2,
            KeyExchangeMethod::ModP1536 => 5,
            KeyExchangeMethod::ModP2048 => 14,
            KeyExchangeMethod::ModP3072 => 15,
            KeyExchangeMethod::ModP4096 => 16,
            KeyExchangeMethod::ModP6144 => 17,
            KeyExchangeMethod::ModP8192 => 18,
            KeyExchangeMethod::EcpGroup256 => 19,
            KeyExchangeMethod::EcpGroup384 => 20,
            KeyExchangeMethod::EcpGroup521 => 21,
            KeyExchangeMethod::ModP1024with160Prime => 22,
            KeyExchangeMethod::ModP2048with224Prime => 23,
            KeyExchangeMethod::ModP2048with256Prime => 24,
            KeyExchangeMethod::EcpGroup192 => 25,
            KeyExchangeMethod::EcpGroup224 => 26,
            KeyExchangeMethod::BrainPoolP224 => 27,
            KeyExchangeMethod::BrainPoolP256 => 28,
            KeyExchangeMethod::BrainPoolP384 => 29,
            KeyExchangeMethod::BrainPoolP512 => 30,
            KeyExchangeMethod::Curve25519 => 31,
            KeyExchangeMethod::Curve448 => 32,
            KeyExchangeMethod::Gost310_256 => 33,
            KeyExchangeMethod::Gost310_512 => 34,
            KeyExchangeMethod::MlKem512 => 35,
            KeyExchangeMethod::MlKem768 => 36,
            KeyExchangeMethod::MlKem1024 => 37,
        }
    }

    /// The category of a value that names no variant, `None` for one that does.
    pub open spec fn spec_category(x: u16) -> Option<UnparseableParameter> {
        if x <= 2 { None } else if x <= 4 { Some(UnparseableParameter::Reserved) } else if x == 5 { None } else if x <= 13 { Some(UnparseableParameter::Unassigned) } else if x <= 37 { None } else if x <= 1023 { Some(UnparseableParameter::Unassigned) } else { Some(UnparseableParameter::PrivateUse) }
    }

    /// The variant that a value names, if any.
    pub open spec fn spec_from_value(x: u16) -> Option<KeyExchangeMethod> {
        match x {
            0 => Some(KeyExchangeMethod::NoKeyExchange),
            1 => Some(KeyExchangeMethod::ModP768),
            2 => Some(KeyExchangeMethod::ModP1024),
            5 => Some(KeyExchangeMethod::ModP1536),
            14 => Some(KeyExchangeMethod::ModP2048),
            15 => Some(KeyExchangeMethod::ModP3072),
            16 => Some(KeyExchangeMethod::ModP4096),
            17 => Some(KeyExchangeMethod::ModP6144),
            18 => Some(KeyExchangeMethod::ModP8192),
            19 => Some(KeyExchangeMethod::EcpGroup256),
            20 => Some(KeyExchangeMethod::EcpGroup384),
            21 => Some(KeyExchangeMethod::EcpGroup521),
            22 => Some(KeyExchangeMethod::ModP1024with160Prime),
            23 => Some(KeyExchangeMethod::ModP2048with224Prime),
            24 => Some(KeyExchangeMethod::ModP2048with256Prime),
            25 => Some(KeyExchangeMethod::EcpGroup192),
            26 => Some(KeyExchangeMethod::EcpGroup224),
            27 => Some(KeyExchangeMethod::BrainPoolP224),
            28 => Some(KeyExchangeMethod::BrainPoolP256),
            29 => Some(KeyExchangeMethod::BrainPoolP384),
            30 => Some(KeyExchangeMethod::BrainPoolP512),
            31 => Some(KeyExchangeMethod::Curve25519),
            32 => Some(KeyExchangeMethod::Curve448),
            33 => Some(KeyExchangeMethod::Gost310_256),
            34 => Some(KeyExchangeMethod::Gost310_512),
            35 => Some(KeyExchangeMethod::MlKem512),
            36 => Some(KeyExchangeMethod::MlKem768),
            37 => Some(KeyExchangeMethod::MlKem1024),
            _ => None,
        }
    }

    /// Reading back the identifier of a variant gives the variant.
    pub proof fn lemma_value_round_trip(v: KeyExchangeMethod)
        ensures
            KeyExchangeMethod::spec_from_value(v.spec_value()) == Some(v),
            KeyExchangeMethod::spec_category(v.spec_value()) is None,
    {
        match v {
            KeyExchangeMethod::NoKeyExchange => {},
            KeyExchangeMethod::ModP768 => {},
            KeyExchangeMethod::ModP1024 => {},
            KeyExchangeMethod::ModP1536 => {},
            KeyExchangeMethod::ModP2048 => {},
            KeyExchangeMethod::ModP3072 => {},
            KeyExchangeMethod::ModP4096 => {},
            KeyExchangeMethod::ModP6144 => {},
            KeyExchangeMethod::ModP8192 => {},
            KeyExchangeMethod::EcpGroup256 => {},
            KeyExchangeMethod::EcpGroup384 => {},
            KeyExchangeMethod::EcpGroup521 => {},
            KeyExchangeMethod::ModP1024with160Prime => {},
            KeyExchangeMethod::ModP2048with224Prime => {},
            KeyExchangeMethod::ModP2048with256Prime => {},
            KeyExchangeMethod::EcpGroup192 => {},
            KeyExchangeMethod::EcpGroup224 => {},
            KeyExchangeMethod::BrainPoolP224 => {},
            KeyExchangeMethod::BrainPoolP256 => {},
            KeyExchangeMethod::BrainPoolP384 => {},
            KeyExchangeMethod::BrainPoolP512 => {},
            KeyExchangeMethod::Curve25519 => {},
            KeyExchangeMethod::Curve448 => {},
            KeyExchangeMethod::Gost310_256 => {},
            KeyExchangeMethod::Gost310_512 => {},
            KeyExchangeMethod::MlKem512 => {},
            KeyExchangeMethod::MlKem768 => {},
            KeyExchangeMethod::MlKem1024 => {},
        }
    }

    /// Decode an identifier: the variant that it names, or its category.
    pub fn try_from(x: u16) -> (r: Result<KeyExchangeMethod, UnparseableParameter>)
        ensures
            match r {
                Ok(v) => KeyExchangeMethod::spec_category(x) is None && v.spec_value() == x && KeyExchangeMethod::spec_from_value(x) == Some(v),
                Err(e) => KeyExchangeMethod::spec_category(x) == Some(e) && KeyExchangeMethod::spec_from_value(x) is None,
            },
    {
        match x {
            0 => Ok(KeyExchangeMethod::NoKeyExchange),
            1 => Ok(KeyExchangeMethod::ModP768),
            2 => Ok(KeyExchangeMethod::ModP1024),
            5 => Ok(KeyExchangeMethod::ModP1536),
            14 => Ok(KeyExchangeMethod::ModP2048),
            15 => Ok(KeyExchangeMethod::ModP3072),
            16 => Ok(KeyExchangeMethod::ModP4096),
            17 => Ok(KeyExchangeMethod::ModP6144),
            18 => Ok(KeyExchangeMethod::ModP8192),
            19 => Ok(KeyExchangeMethod::EcpGroup256),
            20 => Ok(KeyExchangeMethod::EcpGroup384),
            21 => Ok(KeyExchangeMethod::EcpGroup521),
            22 => Ok(KeyExchangeMethod::ModP1024with160Prime),
            23 => Ok(KeyExchangeMethod::ModP2048with224Prime),
            24 => Ok(KeyExchangeMethod::ModP2048with256Prime),
            25 => Ok(KeyExchangeMethod::EcpGroup192),
            26 => Ok(KeyExchangeMethod::EcpGroup224),
            27 => Ok(KeyExchangeMethod::BrainPoolP224),
            28 => Ok(KeyExchangeMethod::BrainPoolP256),
            29 => Ok(KeyExchangeMethod::BrainPoolP384),
            30 => Ok(KeyExchangeMethod::BrainPoolP512),
            31 => Ok(KeyExchangeMethod::Curve25519),
            32 => Ok(KeyExchangeMethod::Curve448),
            33 => Ok(KeyExchangeMethod::Gost310_256),
            34 => Ok(KeyExchangeMethod::Gost310_512),
            35 => Ok(KeyExchangeMethod::MlKem512),
            36 => Ok(KeyExchangeMethod::MlKem768),
            37 => Ok(KeyExchangeMethod::MlKem1024),
            _ => Err(Self::category(x)),
        }
    }

    fn category(x: u16) -> (r: UnparseableParameter)
        requires
            KeyExchangeMethod::spec_category(x) is Some,
        ensures
            KeyExchangeMethod::spec_category(x) == Some(r),
    {
        if x <= 2 { UnparseableParameter::Reserved } else if x <= 4 { (UnparseableParameter::Reserved) } else if x == 5 { UnparseableParameter::Reserved } else if x <= 13 { (UnparseableParameter::Unassigned) } else if x <= 37 { UnparseableParameter::Reserved } else if x <= 1023 { (UnparseableParameter::Unassigned) } else { (UnparseableParameter::PrivateUse) }
    }
}

/// Sequence number transform identifiers.
/// 
/// Values 3-1023 are unassigned and 1024-65535 for private use.
#[derive(Debug, Clone, Copy, PartialEq, Eq, Structural, PartialOrd, Ord, Hash)]
pub enum SequenceNumberType {
    Sequential32bit,
    PartiallyTransmitted64bit,
    Unspecified32bit,
}

impl SequenceNumberType {
    /// The identifier of the variant on the wire.
    pub open spec fn spec_value(self) -> u16 {
        match self {
            SequenceNumberType::Sequential32bit => 0,
            SequenceNumberType::PartiallyTransmitted64bit => 1,
            SequenceNumberType::Unspecified32bit => 2,
        }
    }

    /// The identifier of the variant on the wire.
    pub fn value(&self) -> (r: u16)
        ensures
            r == self.spec_value(),
    {
        match self {
            SequenceNumberType::Sequential32bit => 0,
            SequenceNumberType::PartiallyTransmitted64bit => 1,
            SequenceNumberType::Unspecified32bit => 2,
        }
    }

    /// The category of a value that names no variant, `None` for one that does.
    pub open spec fn spec_category(x: u16) -> Option<UnparseableParameter> {
        if x <= 2 { None } else if x <= 1023 { Some(UnparseableParameter::Unassigned) } else { Some(UnparseableParameter::PrivateUse) }
    }

    /// The variant that a value names, if any.
    pub open spec fn spec_from_value(x: u16) -> Option<SequenceNumberType> {
        match x {
            0 => Some(SequenceNumberType::Sequential32bit),
            1 => Some(SequenceNumberType::PartiallyTransmitted64bit),
            2 => Some(SequenceNumberType::Unspecified32bit),
            _ => None,
        }
    }

    /// Reading back the identifier of a variant gives the variant.
    pub proof fn lemma_value_round_trip(v: SequenceNumberType)
        ensures
            SequenceNumberType::spec_from_value(v.spec_value()) == Some(v),
            SequenceNumberType::spec_category(v.spec_value()) is None,
    {
        match v {
            SequenceNumberType::Sequential32bit => {},
            SequenceNumberType::PartiallyTransmitted64bit => {},
            SequenceNumberType::Unspecified32bit => {},
        }
    }

    /// Decode an identifier: the variant that it names, or its category.
    pub fn try_from(x: u16) -> (r: Result<SequenceNumberType, UnparseableParameter>)
        ensures
            match r {
                Ok(v) => SequenceNumberType::spec_category(x) is None && v.spec_value() == x && SequenceNumberType::spec_from_value(x) == Some(v),
                Err(e) => SequenceNumberType::spec_category(x) == Some(e) && SequenceNumberType::spec_from_value(x) is None,
            },
    {
        match x {
            0 => Ok(SequenceNumberType::Sequential32bit),
            1 => Ok(SequenceNumberType::PartiallyTransmitted64bit),
            2 => Ok(SequenceNumberType::Unspecified32bit),
            _ => Err(Self::category(x)),
        }
    }

    fn category(x: u16) -> (r: UnparseableParameter)
        requires
            SequenceNumberType::spec_category(x) is Some,
        ensures
            SequenceNumberType::spec_category(x) == Some(r),
    {
        if x <= 2 { UnparseableParameter::Reserved } else if x <= 1023 { (UnparseableParameter::Unassigned) } else { (UnparseableParameter::PrivateUse) }
    }
}

/// Encoding of certificates and related data.
/// 
/// Values 0 and 5 are reserved, 16-200 unassigned and 201-255 for private use.
#[derive(Debug, Clone, Copy, PartialEq, Eq, Structural, PartialOrd, Ord, Hash)]
pub enum CertificateEncoding {
    PKCS7WrappedX509Certificate,
    PGPCertificate,
    DNSSignedKey,
    X509CertificateSignature,
    KerberosTokens,
    CertificateRevocationList,
    AuthorityRevocationList,
    SPKICertificate,
    X509CertificateAttribute,
    RawRSAKey,
    HashUrlX509Certificate,
    HashUrlX509Bundle,
    OCSPContent,
    RawPublicKey,
}

impl CertificateEncoding {
    /// The identifier of the variant on the wire.
    pub open spec fn spec_value(self) -> u8 {
        match self {
            CertificateEncoding::PKCS7WrappedX509Certificate => 1,
            CertificateEncoding::PGPCertificate => 2,
            CertificateEncoding::DNSSignedKey => 3,
            CertificateEncoding::X509CertificateSignature => 4,
            CertificateEncoding::KerberosTokens => 6,
            CertificateEncoding::CertificateRevocationList => 7,
            CertificateEncoding::AuthorityRevocationList => 8,
            CertificateEncoding::SPKICertificate => 9,
            CertificateEncoding::X509CertificateAttribute => 10,
            CertificateEncoding::RawRSAKey => 11,
            CertificateEncoding::HashUrlX509Certificate => 12,
            CertificateEncoding::HashUrlX509Bundle => 13,
            CertificateEncoding::OCSPContent => 14,
            CertificateEncoding::RawPublicKey => 15,
        }
    }

    /// The identifier of the variant on the wire.
    pub fn value(&self) -> (r: u8)
        ensures
            r == self.spec_value(),
    {
        match self {
            CertificateEncoding::PKCS7WrappedX509Certificate => 1,
            CertificateEncoding::PGPCertificate => 2,
            CertificateEncoding::DNSSignedKey => 3,
            CertificateEncoding::X509CertificateSignature => 4,
            CertificateEncoding::KerberosTokens => 6,
            CertificateEncoding::CertificateRevocationList => 7,
            CertificateEncoding::AuthorityRevocationList => 8,
            CertificateEncoding::SPKICertificate => 9,
            CertificateEncoding::X509CertificateAttribute => 10,
            CertificateEncoding::RawRSAKey => 11,
            CertificateEncoding::HashUrlX509Certificate => 12,
            CertificateEncoding::HashUrlX509Bundle => 13,
            CertificateEncoding::OCSPContent => 14,
            CertificateEncoding::RawPublicKey => 15,
        }
    }

    /// The category of a value that names no variant, `None` for one that does.
    pub open spec fn spec_category(x: u8) -> Option<UnparseableParameter> {
        if x == 0 || x == 5 { Some(UnparseableParameter::Reserved) } else if x <= 15 { None } else if x <= 200 { Some(UnparseableParameter::Unassigned) } else { Some(UnparseableParameter::PrivateUse) }
    }

    /// The variant that a value names, if any.
    pub open spec fn spec_from_value(x: u8) -> Option<CertificateEncoding> {
        match x {
            1 => Some(CertificateEncoding::PKCS7WrappedX509Certificate),
            2 => Some(CertificateEncoding::PGPCertificate),
            3 => Some(CertificateEncoding::DNSSignedKey),
            4 => Some(CertificateEncoding::X509CertificateSignature),
            6 => Some(CertificateEncoding::KerberosTokens),
            7 => Some(CertificateEncoding::CertificateRevocationList),
            8 => Some(CertificateEncoding::AuthorityRevocationList),
            9 => Some(CertificateEncoding::SPKICertificate),
            10 => Some(CertificateEncoding::X509CertificateAttribute),
            11 => Some(CertificateEncoding::RawRSAKey),
            12 => Some(CertificateEncoding::HashUrlX509Certificate),
            13 => Some(CertificateEncoding::HashUrlX509Bundle),
            14 => Some(CertificateEncoding::OCSPContent),
            15 => Some(CertificateEncoding::RawPublicKey),
            _ => None,
        }
    }

    /// Reading back the identifier of a variant gives the variant.
    pub proof fn lemma_value_round_trip(v: CertificateEncoding)
        ensures
            CertificateEncoding::spec_from_value(v.spec_value()) == Some(v),
            CertificateEncoding::spec_category(v.spec_value()) is None,
    {
        match v {
            CertificateEncoding::PKCS7WrappedX509Certificate => {},
            CertificateEncoding::PGPCertificate => {},
            CertificateEncoding::DNSSignedKey => {},
            CertificateEncoding::X509CertificateSignature => {},
            CertificateEncoding::KerberosTokens => {},
            CertificateEncoding::CertificateRevocationList => {},
            CertificateEncoding::AuthorityRevocationList => {},
            CertificateEncoding::SPKICertificate => {},
            CertificateEncoding::X509CertificateAttribute => {},
            CertificateEncoding::RawRSAKey => {},
            CertificateEncoding::HashUrlX509Certificate => {},
            CertificateEncoding::HashUrlX509Bundle => {},
            CertificateEncoding::OCSPContent => {},
            CertificateEncoding::RawPublicKey => {},
        }
    }

    /// Decode an identifier: the variant that it names, or its category.
    pub fn try_from(x: u8) -> (r: Result<CertificateEncoding, UnparseableParameter>)
        ensures
            match r {
                Ok(v) => CertificateEncoding::spec_category(x) is None && v.spec_value() == x && CertificateEncoding::spec_from_value(x) == Some(v),
                Err(e) => CertificateEncoding::spec_category(x) == Some(e) && CertificateEncoding::spec_from_value(x) is None,
            },
    {
        match x {
            1 => Ok(CertificateEncoding::PKCS7WrappedX509Certificate),
            2 => Ok(CertificateEncoding::PGPCertificate),
            3 => Ok(CertificateEncoding::DNSSignedKey),
            4 => Ok(CertificateEncoding::X509CertificateSignature),
            6 => Ok(CertificateEncoding::KerberosTokens),
            7 => Ok(CertificateEncoding::CertificateRevocationList),
            8 => Ok(CertificateEncoding::AuthorityRevocationList),
            9 => Ok(CertificateEncoding::SPKICertificate),
            10 => Ok(CertificateEncoding::X509CertificateAttribute),
            11 => Ok(CertificateEncoding::RawRSAKey),
            12 => Ok(CertificateEncoding::HashUrlX509Certificate),
            13 => Ok(CertificateEncoding::HashUrlX509Bundle),
            14 => Ok(CertificateEncoding::OCSPContent),
            15 => Ok(CertificateEncoding::RawPublicKey),
            _ => Err(Self::category(x)),
        }
    }

    fn category(x: u8) -> (r: UnparseableParameter)
        requires
            CertificateEncoding::spec_category(x) is Some,
        ensures
            CertificateEncoding::spec_category(x) == Some(r),
    {
        if x == 0 || x == 5 { (UnparseableParameter::Reserved) } else if x <= 15 { UnparseableParameter::Reserved } else if x <= 200 { (UnparseableParameter::Unassigned) } else { (UnparseableParameter::PrivateUse) }
    }
}

/// Authentication methods of the AUTH payload.
/// 
/// Value 0 is reserved, 4-8 and 15-200 unassigned and 201-255 for private use.
#[derive(Debug, Clone, Copy, PartialEq, Eq, Structural, PartialOrd, Ord, Hash)]
pub enum AuthenticationMethod {
    RSADigitalSignature,
    SharedKeyMessageIntegrityCode,
    DSSDigitalSignature,
    ECDSAWithSHA256,
    ECDSAWithSHA384,
    ECDSAWithSHA512,
    GenericSecurePassword,
    NULLAuthentication,
    DigitalSignature,
}

impl AuthenticationMethod {
    /// The identifier of the variant on the wire.
    pub open spec fn spec_value(self) -> u8 {
        match self {
            AuthenticationMethod::RSADigitalSignature => 1,
            AuthenticationMethod::SharedKeyMessageIntegrityCode => 2,
            AuthenticationMethod::DSSDigitalSignature => 3,
            AuthenticationMethod::ECDSAWithSHA256 => 9,
            AuthenticationMethod::ECDSAWithSHA384 => 10,
            AuthenticationMethod::ECDSAWithSHA512 => 11,
            AuthenticationMethod::GenericSecurePassword => 12,
            AuthenticationMethod::NULLAuthentication => 13,
            AuthenticationMethod::DigitalSignature => 14,
        }
    }

    /// The identifier of the variant on the wire.
    pub fn value(&self) -> (r: u8)
        ensures
            r == self.spec_value(),
    {
        match self {
            AuthenticationMethod::RSADigitalSignature => 1,
            AuthenticationMethod::SharedKeyMessageIntegrityCode => 2,
            AuthenticationMethod::DSSDigitalSignature => 3,
            AuthenticationMethod::ECDSAWithSHA256 => 9,
            AuthenticationMethod::ECDSAWithSHA384 => 10,
            AuthenticationMethod::ECDSAWithSHA512 => 11,
            AuthenticationMethod::GenericSecurePassword => 12,
            AuthenticationMethod::NULLAuthentication => 13,
            AuthenticationMethod::DigitalSignature => 14,
        }
    }

    /// The category of a value that names no variant, `None` for one that does.
    pub open spec fn spec_category(x: u8) -> Option<UnparseableParameter> {
        if x == 0 { Some(UnparseableParameter::Reserved) } else if x <= 3 { None } else if x <= 8 { Some(UnparseableParameter::Unassigned) } else if x <= 14 { None } else if x <= 200 { Some(UnparseableParameter::Unassigned) } else { Some(UnparseableParameter::PrivateUse) }
    }

    /// The variant that a value names, if any.
    pub open spec fn spec_from_value(x: u8) -> Option<AuthenticationMethod> {
        match x {
            1 => Some(AuthenticationMethod::RSADigitalSignature),
            2 => Some(AuthenticationMethod::SharedKeyMessageIntegrityCode),
            3 => Some(AuthenticationMethod::DSSDigitalSignature),
            9 => Some(AuthenticationMethod::ECDSAWithSHA256),
            10 => Some(AuthenticationMethod::ECDSAWithSHA384),
            11 => Some(AuthenticationMethod::ECDSAWithSHA512),
            12 => Some(AuthenticationMethod::GenericSecurePassword),
            13 => Some(AuthenticationMethod::NULLAuthentication),
            14 => Some(AuthenticationMethod::DigitalSignature),
            _ => None,
        }
    }

    /// Reading back the identifier of a variant gives the variant.
    pub proof fn lemma_value_round_trip(v: AuthenticationMethod)
        ensures
            AuthenticationMethod::spec_from_value(v.spec_value()) == Some(v),
            AuthenticationMethod::spec_category(v.spec_value()) is None,
    {
        match v {
            AuthenticationMethod::RSADigitalSignature => {},
            AuthenticationMethod::SharedKeyMessageIntegrityCode => {},
            AuthenticationMethod::DSSDigitalSignature => {},
            AuthenticationMethod::ECDSAWithSHA256 => {},
            AuthenticationMethod::ECDSAWithSHA384 => {},
            AuthenticationMethod::ECDSAWithSHA512 => {},
            AuthenticationMethod::GenericSecurePassword => {},
            AuthenticationMethod::NULLAuthentication => {},
            AuthenticationMethod::DigitalSignature => {},
        }
    }

    /// Decode an identifier: the variant that it names, or its category.
    pub fn try_from(x: u8) -> (r: Result<AuthenticationMethod, UnparseableParameter>)
        ensures
            match r {
                Ok(v) => AuthenticationMethod::spec_category(x) is None && v.spec_value() == x && AuthenticationMethod::spec_from_value(x) == Some(v),
                Err(e) => AuthenticationMethod::spec_category(x) == Some(e) && AuthenticationMethod::spec_from_value(x) is None,
            },
    {
        match x {
            1 => Ok(AuthenticationMethod::RSADigitalSignature),
            2 => Ok(AuthenticationMethod::SharedKeyMessageIntegrityCode),
            3 => Ok(AuthenticationMethod::DSSDigitalSignature),
            9 => Ok(AuthenticationMethod::ECDSAWithSHA256),
            10 => Ok(AuthenticationMethod::ECDSAWithSHA384),
            11 => Ok(AuthenticationMethod::ECDSAWithSHA512),
            12 => Ok(AuthenticationMethod::GenericSecurePassword),
            13 => Ok(AuthenticationMethod::NULLAuthentication),
            14 => Ok(AuthenticationMethod::DigitalSignature),
            _ => Err(Self::category(x)),
        }
    }

    fn category(x: u8) -> (r: UnparseableParameter)
        requires
            AuthenticationMethod::spec_category(x) is Some,
        ensures
            AuthenticationMethod::spec_category(x) == Some(r),
    {
        if x == 0 { (UnparseableParameter::Reserved) } else if x <= 3 { UnparseableParameter::Reserved } else if x <= 8 { (UnparseableParameter::Unassigned) } else if x <= 14 { UnparseableParameter::Reserved } else if x <= 200 { (UnparseableParameter::Unassigned) } else { (UnparseableParameter::PrivateUse) }
    }
}

/// Notify message types that report errors.
/// 
/// Values 0, 2, 3, 6, 8, 10, 12, 13, 15, 16, 18-23 and 25-33 are reserved, 50-8191 unassigned,
/// 8192-16383 for private use; values from 16384 on are status types.
#[derive(Debug, Clone, Copy, PartialEq, Eq, Structural, PartialOrd, Ord, Hash)]
pub enum NotifyErrorMessage {
    UnsupportedCriticalPayload,
    InvalidIkeSpi,
    InvalidMajorVersion,
    InvalidSyntax,
    InvalidMessageId,
    InvalidSpi,
    NoProposalChosen,
    InvalidKeyExchangePayload,
    AuthenticationFailed,
    SinglePairRequired,
    NoAdditionalSas,
    InternalAddressFailure,
    FailedCpRequired,
    TsUnacceptable,
    InvalidSelectors,
    UnacceptableAddresses,
    UnexpectedNatDetected,
    UseAssignedHoA,
    TemporaryFailure,
    ChildSaNotFound,
    InvalidGroupId,
    AuthorizationFailed,
    StateNotFound,
    TsMaxQueue,
    RegistrationFailed,
}

impl NotifyErrorMessage {
    /// The identifier of the variant on the wire.
    pub open spec fn spec_value(self) -> u16 {
        match self {
            NotifyErrorMessage::UnsupportedCriticalPayload => 1,
            NotifyErrorMessage::InvalidIkeSpi => 4,
            NotifyErrorMessage::InvalidMajorVersion => 5,
            NotifyErrorMessage::InvalidSyntax => 7,
            NotifyErrorMessage::InvalidMessageId => 9,
            NotifyErrorMessage::InvalidSpi => 11,
            NotifyErrorMessage::NoProposalChosen => 14,
            NotifyErrorMessage::InvalidKeyExchangePayload => 17,
            NotifyErrorMessage::AuthenticationFailed => 24,
            NotifyErrorMessage::SinglePairRequired => 34,
            NotifyErrorMessage::NoAdditionalSas => 35,
            NotifyErrorMessage::InternalAddressFailure => 36,
            NotifyErrorMessage::FailedCpRequired => 37,
            NotifyErrorMessage::TsUnacceptable => 38,
            NotifyErrorMessage::InvalidSelectors => 39,
            NotifyErrorMessage::UnacceptableAddresses => 40,
            NotifyErrorMessage::UnexpectedNatDetected => 41,
            NotifyErrorMessage::UseAssignedHoA => 42,
            NotifyErrorMessage::TemporaryFailure => 43,
            NotifyErrorMessage::ChildSaNotFound => 44,
            NotifyErrorMessage::InvalidGroupId => 45,
            NotifyErrorMessage::AuthorizationFailed => 46,
            NotifyErrorMessage::StateNotFound => 47,
            NotifyErrorMessage::TsMaxQueue => 48,
            NotifyErrorMessage::RegistrationFailed => 49,
        }
    }

    /// The identifier of the variant on the wire.
    pub fn value(&self) -> (r: u16)
        ensures
            r == self.spec_value(),
    {
        match self {
            NotifyErrorMessage::UnsupportedCriticalPayload => 1,
            NotifyErrorMessage::InvalidIkeSpi => 4,
            NotifyErrorMessage::InvalidMajorVersion => 5,
            NotifyErrorMessage::InvalidSyntax => 7,
            NotifyErrorMessage::InvalidMessageId => 9,
            NotifyErrorMessage::InvalidSpi => 11,
            NotifyErrorMessage::NoProposalChosen => 14,
            NotifyErrorMessage::InvalidKeyExchangePayload => 17,
            NotifyErrorMessage::AuthenticationFailed => 24,
            NotifyErrorMessage::SinglePairRequired => 34,
            NotifyErrorMessage::NoAdditionalSas => 35,
            NotifyErrorMessage::InternalAddressFailure => 36,
            NotifyErrorMessage::FailedCpRequired => 37,
            NotifyErrorMessage::TsUnacceptable => 38,
            NotifyErrorMessage::InvalidSelectors => 39,
            NotifyErrorMessage::UnacceptableAddresses => 40,
            NotifyErrorMessage::UnexpectedNatDetected => 41,
            NotifyErrorMessage::UseAssignedHoA => 42,
            NotifyErrorMessage::TemporaryFailure => 43,
            NotifyErrorMessage::ChildSaNotFound => 44,
            NotifyErrorMessage::InvalidGroupId => 45,
            NotifyErrorMessage::AuthorizationFailed => 46,
            NotifyErrorMessage::StateNotFound => 47,
            NotifyErrorMessage::TsMaxQueue => 48,
            NotifyErrorMessage::RegistrationFailed => 49,
        }
    }

    /// The category of a value that names no variant, `None` for one that does.
    pub open spec fn spec_category(x: u16) -> Option<UnparseableParameter> {
        if x == 1 || x == 4 || x == 5 || x == 7 || x == 9 || x == 11 || x == 14 || x == 17 || x == 24 || (34 <= x && x <= 49) { None } else if x <= 49 { Some(UnparseableParameter::Reserved) } else if x <= 8191 { Some(UnparseableParameter::Unassigned) } else if x <= 16383 { Some(UnparseableParameter::PrivateUse) } else { Some(UnparseableParameter::OutOfRange) }
    }

    /// The variant that a value names, if any.
    pub open spec fn spec_from_value(x: u16) -> Option<NotifyErrorMessage> {
        match x {
            1 => Some(NotifyErrorMessage::UnsupportedCriticalPayload),
            4 => Some(NotifyErrorMessage::InvalidIkeSpi),
            5 => Some(NotifyErrorMessage::InvalidMajorVersion),
            7 => Some(NotifyErrorMessage::InvalidSyntax),
            9 => Some(NotifyErrorMessage::InvalidMessageId),
            11 => Some(NotifyErrorMessage::InvalidSpi),
            14 => Some(NotifyErrorMessage::NoProposalChosen),
            17 => Some(NotifyErrorMessage::InvalidKeyExchangePayload),
            24 => Some(NotifyErrorMessage::AuthenticationFailed),
            34 => Some(NotifyErrorMessage::SinglePairRequired),
            35 => Some(NotifyErrorMessage::NoAdditionalSas),
            36 => Some(NotifyErrorMessage::InternalAddressFailure),
            37 => Some(NotifyErrorMessage::FailedCpRequired),
            38 => Some(NotifyErrorMessage::TsUnacceptable),
            39 => Some(NotifyErrorMessage::InvalidSelectors),
            40 => Some(NotifyErrorMessage::UnacceptableAddresses),
            41 => Some(NotifyErrorMessage::UnexpectedNatDetected),
            42 => Some(NotifyErrorMessage::UseAssignedHoA),
            43 => Some(NotifyErrorMessage::TemporaryFailure),
            44 => Some(NotifyErrorMessage::ChildSaNotFound),
            45 => Some(NotifyErrorMessage::InvalidGroupId),
            46 => Some(NotifyErrorMessage::AuthorizationFailed),
            47 => Some(NotifyErrorMessage::StateNotFound),
            48 => Some(NotifyErrorMessage::TsMaxQueue),
            49 => Some(NotifyErrorMessage::RegistrationFailed),
            _ => None,
        }
    }

    /// Reading back the identifier of a variant gives the variant.
    pub proof fn lemma_value_round_trip(v: NotifyErrorMessage)
        ensures
            NotifyErrorMessage::spec_from_value(v.spec_value()) == Some(v),
            NotifyErrorMessage::spec_category(v.spec_value()) is None,
    {
        match v {
            NotifyErrorMessage::UnsupportedCriticalPayload => {},
            NotifyErrorMessage::InvalidIkeSpi => {},
            NotifyErrorMessage::InvalidMajorVersion => {},
            NotifyErrorMessage::InvalidSyntax => {},
            NotifyErrorMessage::InvalidMessageId => {},
            NotifyErrorMessage::InvalidSpi => {},
            NotifyErrorMessage::NoProposalChosen => {},
            NotifyErrorMessage::InvalidKeyExchangePayload => {},
            NotifyErrorMessage::AuthenticationFailed => {},
            NotifyErrorMessage::SinglePairRequired => {},
            NotifyErrorMessage::NoAdditionalSas => {},
            NotifyErrorMessage::InternalAddressFailure => {},
            NotifyErrorMessage::FailedCpRequired => {},
            NotifyErrorMessage::TsUnacceptable => {},
            NotifyErrorMessage::InvalidSelectors => {},
            NotifyErrorMessage::UnacceptableAddresses => {},
            NotifyErrorMessage::UnexpectedNatDetected => {},
            NotifyErrorMessage::UseAssignedHoA => {},
            NotifyErrorMessage::TemporaryFailure => {},
            NotifyErrorMessage::ChildSaNotFound => {},
            NotifyErrorMessage::InvalidGroupId => {},
            NotifyErrorMessage::AuthorizationFailed => {},
            NotifyErrorMessage::StateNotFound => {},
            NotifyErrorMessage::TsMaxQueue => {},
            NotifyErrorMessage::RegistrationFailed => {},
        }
    }

    /// Decode an identifier: the variant that it names, or its category.
    pub fn try_from(x: u16) -> (r: Result<NotifyErrorMessage, UnparseableParameter>)
        ensures
            match r {
                Ok(v) => NotifyErrorMessage::spec_category(x) is None && v.spec_value() == x && NotifyErrorMessage::spec_from_value(x) == Some(v),
                Err(e) => NotifyErrorMessage::spec_category(x) == Some(e) && NotifyErrorMessage::spec_from_value(x) is None,
            },
    {
        match x {
            1 => Ok(NotifyErrorMessage::UnsupportedCriticalPayload),
            4 => Ok(NotifyErrorMessage::InvalidIkeSpi),
            5 => Ok(NotifyErrorMessage::InvalidMajorVersion),
            7 => Ok(NotifyErrorMessage::InvalidSyntax),
            9 => Ok(NotifyErrorMessage::InvalidMessageId),
            11 => Ok(NotifyErrorMessage::InvalidSpi),
            14 => Ok(NotifyErrorMessage::NoProposalChosen),
            17 => Ok(NotifyErrorMessage::InvalidKeyExchangePayload),
            24 => Ok(NotifyErrorMessage::AuthenticationFailed),
            34 => Ok(NotifyErrorMessage::SinglePairRequired),
            35 => Ok(NotifyErrorMessage::NoAdditionalSas),
            36 => Ok(NotifyErrorMessage::InternalAddressFailure),
            37 => Ok(NotifyErrorMessage::FailedCpRequired),
            38 => Ok(NotifyErrorMessage::TsUnacceptable),
            39 => Ok(NotifyErrorMessage::InvalidSelectors),
            40 => Ok(NotifyErrorMessage::UnacceptableAddresses),
            41 => Ok(NotifyErrorMessage::UnexpectedNatDetected),
            42 => Ok(NotifyErrorMessage::UseAssignedHoA),
            43 => Ok(NotifyErrorMessage::TemporaryFailure),
            44 => Ok(NotifyErrorMessage::ChildSaNotFound),
            45 => Ok(NotifyErrorMessage::InvalidGroupId),
            46 => Ok(NotifyErrorMessage::AuthorizationFailed),
            47 => Ok(NotifyErrorMessage::StateNotFound),
            48 => Ok(NotifyErrorMessage::TsMaxQueue),
            49 => Ok(NotifyErrorMessage::RegistrationFailed),
            _ => Err(Self::category(x)),
        }
    }

    fn category(x: u16) -> (r: UnparseableParameter)
        requires
            NotifyErrorMessage::spec_category(x) is Some,
        ensures
            NotifyErrorMessage::spec_category(x) == Some(r),
    {
        if x == 1 || x == 4 || x == 5 || x == 7 || x == 9 || x == 11 || x == 14 || x == 17 || x == 24 || (34 <= x && x <= 49) { UnparseableParameter::Reserved } else if x <= 49 { (UnparseableParameter::Reserved) } else if x <= 8191 { (UnparseableParameter::Unassigned) } else if x <= 16383 { (UnparseableParameter::PrivateUse) } else { (UnparseableParameter::OutOfRange) }
    }
}

/// Security protocol identifiers of proposals and notifications.
/// 
/// `Reserved` (0) stands for "no protocol"; 7-200 are unassigned and 201-255 for private use.
#[derive(Debug, Clone, Copy, PartialEq, Eq, Structural, PartialOrd, Ord, Hash)]
pub enum SecurityProtocol {
    Reserved,
    InternetKeyExchange,
    AuthenticationHeader,
    EncapsulatingSecurityPayload,
    FcEncapsulatingSecurityPayloadHeader,
    FcCtAuthentication,
    GroupIKEUpdate,
}

impl SecurityProtocol {
    /// The identifier of the variant on the wire.
    pub open spec fn spec_value(self) -> u8 {
        match self {
            SecurityProtocol::Reserved => 0,
            SecurityProtocol::InternetKeyExchange => 1,
            SecurityProtocol::AuthenticationHeader => 2,
            SecurityProtocol::EncapsulatingSecurityPayload => 3,
            SecurityProtocol::FcEncapsulatingSecurityPayloadHeader => 4,
            SecurityProtocol::FcCtAuthentication => 5,
            SecurityProtocol::GroupIKEUpdate => 6,
        }
    }

    /// The identifier of the variant on the wire.
    pub fn value(&self) -> (r: u8)
        ensures
            r == self.spec_value(),
    {
        match self {
            SecurityProtocol::Reserved => 0,
            SecurityProtocol::InternetKeyExchange => 1,
            SecurityProtocol::AuthenticationHeader => 2,
            SecurityProtocol::EncapsulatingSecurityPayload => 3,
            SecurityProtocol::FcEncapsulatingSecurityPayloadHeader => 4,
            SecurityProtocol::FcCtAuthentication => 5,
            SecurityProtocol::GroupIKEUpdate => 6,
        }
    }

    /// The category of a value that names no variant, `None` for one that does.
    pub open spec fn spec_category(x: u8) -> Option<UnparseableParameter> {
        if x <= 6 { None } else if x <= 200 { Some(UnparseableParameter::Unassigned) } else { Some(UnparseableParameter::PrivateUse) }
    }

    /// The variant that a value names, if any.
    pub open spec fn spec_from_value(x: u8) -> Option<SecurityProtocol> {
        match x {
            0 => Some(SecurityProtocol::Reserved),
            1 => Some(SecurityProtocol::InternetKeyExchange),
            2 => Some(SecurityProtocol::AuthenticationHeader),
            3 => Some(SecurityProtocol::EncapsulatingSecurityPayload),
            4 => Some(SecurityProtocol::FcEncapsulatingSecurityPayloadHeader),
            5 => Some(SecurityProtocol::FcCtAuthentication),
            6 => Some(SecurityProtocol::GroupIKEUpdate),
            _ => None,
        }
    }

    /// Reading back the identifier of a variant gives the variant.
    pub proof fn lemma_value_round_trip(v: SecurityProtocol)
        ensures
            SecurityProtocol::spec_from_value(v.spec_value()) == Some(v),
            SecurityProtocol::spec_category(v.spec_value()) is None,
    {
        match v {
            SecurityProtocol::Reserved => {},
            SecurityProtocol::InternetKeyExchange => {},
            SecurityProtocol::AuthenticationHeader => {},
            SecurityProtocol::EncapsulatingSecurityPayload => {},
            SecurityProtocol::FcEncapsulatingSecurityPayloadHeader => {},
            SecurityProtocol::FcCtAuthentication => {},
            SecurityProtocol::GroupIKEUpdate => {},
        }
    }

    /// Decode an identifier: the variant that it names, or its category.
    pub fn try_from(x: u8) -> (r: Result<SecurityProtocol, UnparseableParameter>)
        ensures
            match r {
                Ok(v) => SecurityProtocol::spec_category(x) is None && v.spec_value() == x && SecurityProtocol::spec_from_value(x) == Some(v),
                Err(e) => SecurityProtocol::spec_category(x) == Some(e) && SecurityProtocol::spec_from_value(x) is None,
            },
    {
        match x {
            0 => Ok(SecurityProtocol::Reserved),
            1 => Ok(SecurityProtocol::InternetKeyExchange),
            2 => Ok(SecurityProtocol::AuthenticationHeader),
            3 => Ok(SecurityProtocol::EncapsulatingSecurityPayload),
            4 => Ok(SecurityProtocol::FcEncapsulatingSecurityPayloadHeader),
            5 => Ok(SecurityProtocol::FcCtAuthentication),
            6 => Ok(SecurityProtocol::GroupIKEUpdate),
            _ => Err(Self::category(x)),
        }
    }

    fn category(x: u8) -> (r: UnparseableParameter)
        requires
            SecurityProtocol::spec_category(x) is Some,
        ensures
            SecurityProtocol::spec_category(x) == Some(r),
    {
        if x <= 6 { UnparseableParameter::Reserved } else if x <= 200 { (UnparseableParameter::Unassigned) } else { (UnparseableParameter::PrivateUse) }
    }
}

/// Hash algorithm identifiers for signatures.
/// 
/// Value 0 is reserved, 8-1023 unassigned and 1024-65535 for private use.
#[derive(Debug, Clone, Copy, PartialEq, Eq, Structural, PartialOrd, Ord, Hash)]
pub enum HashAlgorithm {
    Sha1,
    Sha2_256,
    Sha2_384,
    Sha2_512,
    Identity,
    Streebog256,
    Streebog512,
}

impl HashAlgorithm {
    /// The identifier of the variant on the wire.
    pub open spec fn spec_value(self) -> u16 {
        match self {
            HashAlgorithm::Sha1 => 1,
            HashAlgorithm::Sha2_256 => 2,
            HashAlgorithm::Sha2_384 => 3,
            HashAlgorithm::Sha2_512 => 4,
            HashAlgorithm::Identity => 5,
            HashAlgorithm::Streebog256 => 6,
            HashAlgorithm::Streebog512 => 7,
        }
    }

    /// The identifier of the variant on the wire.
    pub fn value(&self) -> (r: u16)
        ensures
            r == self.spec_value(),
    {
        match self {
            HashAlgorithm::Sha1 => 1,
            HashAlgorithm::Sha2_256 => 2,
            HashAlgorithm::Sha2_384 => 3,
            HashAlgorithm::Sha2_512 => 4,
            HashAlgorithm::Identity => 5,
            HashAlgorithm::Streebog256 => 6,
            HashAlgorithm::Streebog512 => 7,
        }
    }

    /// The category of a value that names no variant, `None` for one that does.
    pub open spec fn spec_category(x: u16) -> Option<UnparseableParameter> {
        if x == 0 { Some(UnparseableParameter::Reserved) } else if x <= 7 { None } else if x <= 1023 { Some(UnparseableParameter::Unassigned) } else { Some(UnparseableParameter::PrivateUse) }
    }

    /// The variant that a value names, if any.
    pub open spec fn spec_from_value(x: u16) -> Option<HashAlgorithm> {
        match x {
            1 => Some(HashAlgorithm::Sha1),
            2 => Some(HashAlgorithm::Sha2_256),
            3 => Some(HashAlgorithm::Sha2_384),
            4 => Some(HashAlgorithm::Sha2_512),
            5 => Some(HashAlgorithm::Identity),
            6 => Some(HashAlgorithm::Streebog256),
            7 => Some(HashAlgorithm::Streebog512),
            _ => None,
        }
    }

    /// Reading back the identifier of a variant gives the variant.
    pub proof fn lemma_value_round_trip(v: HashAlgorithm)
        ensures
            HashAlgorithm::spec_from_value(v.spec_value()) == Some(v),
            HashAlgorithm::spec_category(v.spec_value()) is None,
    {
        match v {
            HashAlgorithm::Sha1 => {},
            HashAlgorithm::Sha2_256 => {},
            HashAlgorithm::Sha2_384 => {},
            HashAlgorithm::Sha2_512 => {},
            HashAlgorithm::Identity => {},
            HashAlgorithm::Streebog256 => {},
            HashAlgorithm::Streebog512 => {},
        }
    }

    /// Decode an identifier: the variant that it names, or its category.
    pub fn try_from(x: u16) -> (r: Result<HashAlgorithm, UnparseableParameter>)
        ensures
            match r {
                Ok(v) => HashAlgorithm::spec_category(x) is None && v.spec_value() == x && HashAlgorithm::spec_from_value(x) == Some(v),
                Err(e) => HashAlgorithm::spec_category(x) == Some(e) && HashAlgorithm::spec_from_value(x) is None,
            },
    {
        match x {
            1 => Ok(HashAlgorithm::Sha1),
            2 => Ok(HashAlgorithm::Sha2_256),
            3 => Ok(HashAlgorithm::Sha2_384),
            4 => Ok(HashAlgorithm::Sha2_512),
            5 => Ok(HashAlgorithm::Identity),
            6 => Ok(HashAlgorithm::Streebog256),
            7 => Ok(HashAlgorithm::Streebog512),
            _ => Err(Self::category(x)),
        }
    }

    fn category(x: u16) -> (r: UnparseableParameter)
        requires
            HashAlgorithm::spec_category(x) is Some,
        ensures
            HashAlgorithm::spec_category(x) == Some(r),
    {
        if x == 0 { (UnparseableParameter::Reserved) } else if x <= 7 { UnparseableParameter::Reserved } else if x <= 1023 { (UnparseableParameter::Unassigned) } else { (UnparseableParameter::PrivateUse) }
    }
}

/// Notify message types that report a status.
/// 
/// Values 0-16383 are error types, 16447-40959 unassigned and 40960-65535 for private use.
#[derive(Debug, Clone, Copy, PartialEq, Eq, Structural, PartialOrd, Ord, Hash)]
pub enum NotifyStatusMessage {
    InitialContact,
    SetWindowSize,
    AdditionalTsPossible,
    IpCompSupported,
    NatDetectionSourceIp,
    NatDetectionDestinationIp,
    Cookie,
    UseTransportMode,
    HttpCertLookupSupported,
    RekeySa,
    EspTfcPaddingNotSupported,
    NonFirstFragmentsAlso,
    MobIkeSupported,
    AdditionalIp4Address,
    AdditionalIp6Address,
    NoAdditionalAddresses,
    UpdateSaAddresses,
    Cookie2,
    NoNatsAllowed,
    AuthLifetime,
    MultipleAuthSupported,
    AnotherAuthFollows,
    RedirectSupported,
    Redirect,
    RedirectedFrom,
    TicketLtOpaque,
    TicketRequest,
    TicketAck,
    TicketNack,
    TicketOpaque,
    LinkId,
    UseWespMode,
    RohcSupported,
    EapOnlyAuthentication,
    ChildlessIkev2Supported,
    QuickCrashDetection,
    Ikev2MessageIdSyncSupported,
    IpsecReplayCounterSyncSupported,
    Ikev2MessageIdSync,
    IpsecReplayCounterSync,
    SecurePasswordMethods,
    PskPersist,
    PskConfirm,
    ErxSupported,
    IfomCapability,
    GroupSender,
    Ikev2FragmentationSupported,
    SignatureHashAlgorithms,
    CloneIkeSaSupported,
    CloneIkeSa,
    Puzzle,
    UsePpk,
    PpkIdentity,
    NoPpkAuth,
    IntermediateExchangeSupported,
    Ip4Allowed,
    Ip6Allowed,
    AdditionalKeyExchange,
    UseAgfrag,
    SupportedAuthMethods,
    SaResourceInfo,
    UsePpkInt,
    PpkIdentityKey,
}

impl NotifyStatusMessage {
    /// The identifier of the variant on the wire.
    pub open spec fn spec_value(self) -> u16 {
        match self {
            NotifyStatusMessage::InitialContact => 16384,
            NotifyStatusMessage::SetWindowSize => 16385,
            NotifyStatusMessage::AdditionalTsPossible => 16386,
            NotifyStatusMessage::IpCompSupported => 16387,
            NotifyStatusMessage::NatDetectionSourceIp => 16388,
            NotifyStatusMessage::NatDetectionDestinationIp => 16389,
            NotifyStatusMessage::Cookie => 16390,
            NotifyStatusMessage::UseTransportMode => 16391,
            NotifyStatusMessage::HttpCertLookupSupported => 16392,
            NotifyStatusMessage::RekeySa => 16393,
            NotifyStatusMessage::EspTfcPaddingNotSupported => 16394,
            NotifyStatusMessage::NonFirstFragmentsAlso => 16395,
            NotifyStatusMessage::MobIkeSupported => 16396,
            NotifyStatusMessage::AdditionalIp4Address => 16397,
            NotifyStatusMessage::AdditionalIp6Address => 16398,
            NotifyStatusMessage::NoAdditionalAddresses => 16399,
            NotifyStatusMessage::UpdateSaAddresses => 16400,
            NotifyStatusMessage::Cookie2 => 16401,
            NotifyStatusMessage::NoNatsAllowed => 16402,
            NotifyStatusMessage::AuthLifetime => 16403,
            NotifyStatusMessage::MultipleAuthSupported => 16404,
            NotifyStatusMessage::AnotherAuthFollows => 16405,
            NotifyStatusMessage::RedirectSupported => 16406,
            NotifyStatusMessage::Redirect => 16407,
            NotifyStatusMessage::RedirectedFrom => 16408,
            NotifyStatusMessage::TicketLtOpaque => 16409,
            NotifyStatusMessage::TicketRequest => 16410,
            NotifyStatusMessage::TicketAck => 16411,
            NotifyStatusMessage::TicketNack => 16412,
            NotifyStatusMessage::TicketOpaque => 16413,
            NotifyStatusMessage::LinkId => 16414,
            NotifyStatusMessage::UseWespMode => 16415,
            NotifyStatusMessage::RohcSupported => 16416,
            NotifyStatusMessage::EapOnlyAuthentication => 16417,
            NotifyStatusMessage::ChildlessIkev2Supported => 16418,
            NotifyStatusMessage::QuickCrashDetection => 16419,
            NotifyStatusMessage::Ikev2MessageIdSyncSupported => 16420,
            NotifyStatusMessage::IpsecReplayCounterSyncSupported => 16421,
            NotifyStatusMessage::Ikev2MessageIdSync => 16422,
            NotifyStatusMessage::IpsecReplayCounterSync => 16423,
            NotifyStatusMessage::SecurePasswordMethods => 16424,
            NotifyStatusMessage::PskPersist => 16425,
            NotifyStatusMessage::PskConfirm => 16426,
            NotifyStatusMessage::ErxSupported => 16427,
            NotifyStatusMessage::IfomCapability => 16428,
            NotifyStatusMessage::GroupSender => 16429,
            NotifyStatusMessage::Ikev2FragmentationSupported => 16430,
            NotifyStatusMessage::SignatureHashAlgorithms => 16431,
            NotifyStatusMessage::CloneIkeSaSupported => 16432,
            NotifyStatusMessage::CloneIkeSa => 16433,
            NotifyStatusMessage::Puzzle => 16434,
            NotifyStatusMessage::UsePpk => 16435,
            NotifyStatusMessage::PpkIdentity => 16436,
            NotifyStatusMessage::NoPpkAuth => 16437,
            NotifyStatusMessage::IntermediateExchangeSupported => 16438,
            NotifyStatusMessage::Ip4Allowed => 16439,
            NotifyStatusMessage::Ip6Allowed => 16440,
            NotifyStatusMessage::AdditionalKeyExchange => 16441,
            NotifyStatusMessage::UseAgfrag => 16442,
            NotifyStatusMessage::SupportedAuthMethods => 16443,
            NotifyStatusMessage::SaResourceInfo => 16444,
            NotifyStatusMessage::UsePpkInt => 16445,
            NotifyStatusMessage::PpkIdentityKey => 16446,
        }
    }

    /// The identifier of the variant on the wire.
    pub fn value(&self) -> (r: u16)
        ensures
            r == self.spec_value(),
    {
        match self {
            NotifyStatusMessage::InitialContact => 16384,
            NotifyStatusMessage::SetWindowSize => 16385,
            NotifyStatusMessage::AdditionalTsPossible => 16386,
            NotifyStatusMessage::IpCompSupported => 16387,
            NotifyStatusMessage::NatDetectionSourceIp => 16388,
            NotifyStatusMessage::NatDetectionDestinationIp => 16389,
            NotifyStatusMessage::Cookie => 16390,
            NotifyStatusMessage::UseTransportMode => 16391,
            NotifyStatusMessage::HttpCertLookupSupported => 16392,
            NotifyStatusMessage::RekeySa => 16393,
            NotifyStatusMessage::EspTfcPaddingNotSupported => 16394,
            NotifyStatusMessage::NonFirstFragmentsAlso => 16395,
            NotifyStatusMessage::MobIkeSupported => 16396,
            NotifyStatusMessage::AdditionalIp4Address => 16397,
            NotifyStatusMessage::AdditionalIp6Address => 16398,
            NotifyStatusMessage::NoAdditionalAddresses => 16399,
            NotifyStatusMessage::UpdateSaAddresses => 16400,
            NotifyStatusMessage::Cookie2 => 16401,
            NotifyStatusMessage::NoNatsAllowed => 16402,
            NotifyStatusMessage::AuthLifetime => 16403,
            NotifyStatusMessage::MultipleAuthSupported => 16404,
            NotifyStatusMessage::AnotherAuthFollows => 16405,
            NotifyStatusMessage::RedirectSupported => 16406,
            NotifyStatusMessage::Redirect => 16407,
            NotifyStatusMessage::RedirectedFrom => 16408,
            NotifyStatusMessage::TicketLtOpaque => 16409,
            NotifyStatusMessage::TicketRequest => 16410,
            NotifyStatusMessage::TicketAck => 16411,
            NotifyStatusMessage::TicketNack => 16412,
            NotifyStatusMessage::TicketOpaque => 16413,
            NotifyStatusMessage::LinkId => 16414,
            NotifyStatusMessage::UseWespMode => 16415,
            NotifyStatusMessage::RohcSupported => 16416,
            NotifyStatusMessage::EapOnlyAuthentication => 16417,
            NotifyStatusMessage::ChildlessIkev2Supported => 16418,
            NotifyStatusMessage::QuickCrashDetection => 16419,
            NotifyStatusMessage::Ikev2MessageIdSyncSupported => 16420,
            NotifyStatusMessage::IpsecReplayCounterSyncSupported => 16421,
            NotifyStatusMessage::Ikev2MessageIdSync => 16422,
            NotifyStatusMessage::IpsecReplayCounterSync => 16423,
            NotifyStatusMessage::SecurePasswordMethods => 16424,
            NotifyStatusMessage::PskPersist => 16425,
            NotifyStatusMessage::PskConfirm => 16426,
            NotifyStatusMessage::ErxSupported => 16427,
            NotifyStatusMessage::IfomCapability => 16428,
            NotifyStatusMessage::GroupSender => 16429,
            NotifyStatusMessage::Ikev2FragmentationSupported => 16430,
            NotifyStatusMessage::SignatureHashAlgorithms => 16431,
            NotifyStatusMessage::CloneIkeSaSupported => 16432,
            NotifyStatusMessage::CloneIkeSa => 16433,
            NotifyStatusMessage::Puzzle => 16434,
            NotifyStatusMessage::UsePpk => 16435,
            NotifyStatusMessage::PpkIdentity => 16436,
            NotifyStatusMessage::NoPpkAuth => 16437,
            NotifyStatusMessage::IntermediateExchangeSupported => 16438,
            NotifyStatusMessage::Ip4Allowed => 16439,
            NotifyStatusMessage::Ip6Allowed => 16440,
            NotifyStatusMessage::AdditionalKeyExchange => 16441,
            NotifyStatusMessage::UseAgfrag => 16442,
            NotifyStatusMessage::SupportedAuthMethods => 16443,
            NotifyStatusMessage::SaResourceInfo => 16444,
            NotifyStatusMessage::UsePpkInt => 16445,
            NotifyStatusMessage::PpkIdentityKey => 16446,
        }
    }

    /// The category of a value that names no variant, `None` for one that does.
    pub open spec fn spec_category(x: u16) -> Option<UnparseableParameter> {
        if x <= 16383 { Some(UnparseableParameter::OutOfRange) } else if x <= 16446 { None } else if x <= 40959 { Some(UnparseableParameter::Unassigned) } else { Some(UnparseableParameter::PrivateUse) }
    }

    /// The variant that a value names, if any.
    pub open spec fn spec_from_value(x: u16) -> Option<NotifyStatusMessage> {
        match x {
            16384 => Some(NotifyStatusMessage::InitialContact),
            16385 => Some(NotifyStatusMessage::SetWindowSize),
            16386 => Some(NotifyStatusMessage::AdditionalTsPossible),
            16387 => Some(NotifyStatusMessage::IpCompSupported),
            16388 => Some(NotifyStatusMessage::NatDetectionSourceIp),
            16389 => Some(NotifyStatusMessage::NatDetectionDestinationIp),
            16390 => Some(NotifyStatusMessage::Cookie),
            16391 => Some(NotifyStatusMessage::UseTransportMode),
            16392 => Some(NotifyStatusMessage::HttpCertLookupSupported),
            16393 => Some(NotifyStatusMessage::RekeySa),
            16394 => Some(NotifyStatusMessage::EspTfcPaddingNotSupported),
            16395 => Some(NotifyStatusMessage::NonFirstFragmentsAlso),
            16396 => Some(NotifyStatusMessage::MobIkeSupported),
            16397 => Some(NotifyStatusMessage::AdditionalIp4Address),
            16398 => Some(NotifyStatusMessage::AdditionalIp6Address),
            16399 => Some(NotifyStatusMessage::NoAdditionalAddresses),
            16400 => Some(NotifyStatusMessage::UpdateSaAddresses),
            16401 => Some(NotifyStatusMessage::Cookie2),
            16402 => Some(NotifyStatusMessage::NoNatsAllowed),
            16403 => Some(NotifyStatusMessage::AuthLifetime),
            16404 => Some(NotifyStatusMessage::MultipleAuthSupported),
            16405 => Some(NotifyStatusMessage::AnotherAuthFollows),
            16406 => Some(NotifyStatusMessage::RedirectSupported),
            16407 => Some(NotifyStatusMessage::Redirect),
            16408 => Some(NotifyStatusMessage::RedirectedFrom),
            16409 => Some(NotifyStatusMessage::TicketLtOpaque),
            16410 => Some(NotifyStatusMessage::TicketRequest),
            16411 => Some(NotifyStatusMessage::TicketAck),
            16412 => Some(NotifyStatusMessage::TicketNack),
            16413 => Some(NotifyStatusMessage::TicketOpaque),
            16414 => Some(NotifyStatusMessage::LinkId),
            16415 => Some(NotifyStatusMessage::UseWespMode),
            16416 => Some(NotifyStatusMessage::RohcSupported),
            16417 => Some(NotifyStatusMessage::EapOnlyAuthentication),
            16418 => Some(NotifyStatusMessage::ChildlessIkev2Supported),
            16419 => Some(NotifyStatusMessage::QuickCrashDetection),
            16420 => Some(NotifyStatusMessage::Ikev2MessageIdSyncSupported),
            16421 => Some(NotifyStatusMessage::IpsecReplayCounterSyncSupported),
            16422 => Some(NotifyStatusMessage::Ikev2MessageIdSync),
            16423 => Some(NotifyStatusMessage::IpsecReplayCounterSync),
            16424 => Some(NotifyStatusMessage::SecurePasswordMethods),
            16425 => Some(NotifyStatusMessage::PskPersist),
            16426 => Some(NotifyStatusMessage::PskConfirm),
            16427 => Some(NotifyStatusMessage::ErxSupported),
            16428 => Some(NotifyStatusMessage::IfomCapability),
            16429 => Some(NotifyStatusMessage::GroupSender),
            16430 => Some(NotifyStatusMessage::Ikev2FragmentationSupported),
            16431 => Some(NotifyStatusMessage::SignatureHashAlgorithms),
            16432 => Some(NotifyStatusMessage::CloneIkeSaSupported),
            16433 => Some(NotifyStatusMessage::CloneIkeSa),
            16434 => Some(NotifyStatusMessage::Puzzle),
            16435 => Some(NotifyStatusMessage::UsePpk),
            16436 => Some(NotifyStatusMessage::PpkIdentity),
            16437 => Some(NotifyStatusMessage::NoPpkAuth),
            16438 => Some(NotifyStatusMessage::IntermediateExchangeSupported),
            16439 => Some(NotifyStatusMessage::Ip4Allowed),
            16440 => Some(NotifyStatusMessage::Ip6Allowed),
            16441 => Some(NotifyStatusMessage::AdditionalKeyExchange),
            16442 => Some(NotifyStatusMessage::UseAgfrag),
            16443 => Some(NotifyStatusMessage::SupportedAuthMethods),
            16444 => Some(NotifyStatusMessage::SaResourceInfo),
            16445 => Some(NotifyStatusMessage::UsePpkInt),
            16446 => Some(NotifyStatusMessage::PpkIdentityKey),
            _ => None,
        }
    }

    /// Reading back the identifier of a variant gives the variant.
    pub proof fn lemma_value_round_trip(v: NotifyStatusMessage)
        ensures
            NotifyStatusMessage::spec_from_value(v.spec_value()) == Some(v),
            NotifyStatusMessage::spec_category(v.spec_value()) is None,
    {
        match v {
            NotifyStatusMessage::InitialContact => {},
            NotifyStatusMessage::SetWindowSize => {},
            NotifyStatusMessage::AdditionalTsPossible => {},
            NotifyStatusMessage::IpCompSupported => {},
            NotifyStatusMessage::NatDetectionSourceIp => {},
            NotifyStatusMessage::NatDetectionDestinationIp => {},
            NotifyStatusMessage::Cookie => {},
            NotifyStatusMessage::UseTransportMode => {},
            NotifyStatusMessage::HttpCertLookupSupported => {},
            NotifyStatusMessage::RekeySa => {},
            NotifyStatusMessage::EspTfcPaddingNotSupported => {},
            NotifyStatusMessage::NonFirstFragmentsAlso => {},
            NotifyStatusMessage::MobIkeSupported => {},
            NotifyStatusMessage::AdditionalIp4Address => {},
            NotifyStatusMessage::AdditionalIp6Address => {},
            NotifyStatusMessage::NoAdditionalAddresses => {},
            NotifyStatusMessage::UpdateSaAddresses => {},
            NotifyStatusMessage::Cookie2 => {},
            NotifyStatusMessage::NoNatsAllowed => {},
            NotifyStatusMessage::AuthLifetime => {},
            NotifyStatusMessage::MultipleAuthSupported => {},
            NotifyStatusMessage::AnotherAuthFollows => {},
            NotifyStatusMessage::RedirectSupported => {},
            NotifyStatusMessage::Redirect => {},
            NotifyStatusMessage::RedirectedFrom => {},
            NotifyStatusMessage::TicketLtOpaque => {},
            NotifyStatusMessage::TicketRequest => {},
            NotifyStatusMessage::TicketAck => {},
            NotifyStatusMessage::TicketNack => {},
            NotifyStatusMessage::TicketOpaque => {},
            NotifyStatusMessage::LinkId => {},
            NotifyStatusMessage::UseWespMode => {},
            NotifyStatusMessage::RohcSupported => {},
            NotifyStatusMessage::EapOnlyAuthentication => {},
            NotifyStatusMessage::ChildlessIkev2Supported => {},
            NotifyStatusMessage::QuickCrashDetection => {},
            NotifyStatusMessage::Ikev2MessageIdSyncSupported => {},
            NotifyStatusMessage::IpsecReplayCounterSyncSupported => {},
            NotifyStatusMessage::Ikev2MessageIdSync => {},
            NotifyStatusMessage::IpsecReplayCounterSync => {},
            NotifyStatusMessage::SecurePasswordMethods => {},
            NotifyStatusMessage::PskPersist => {},
            NotifyStatusMessage::PskConfirm => {},
            NotifyStatusMessage::ErxSupported => {},
            NotifyStatusMessage::IfomCapability => {},
            NotifyStatusMessage::GroupSender => {},
            NotifyStatusMessage::Ikev2FragmentationSupported => {},
            NotifyStatusMessage::SignatureHashAlgorithms => {},
            NotifyStatusMessage::CloneIkeSaSupported => {},
            NotifyStatusMessage::CloneIkeSa => {},
            NotifyStatusMessage::Puzzle => {},
            NotifyStatusMessage::UsePpk => {},
            NotifyStatusMessage::PpkIdentity => {},
            NotifyStatusMessage::NoPpkAuth => {},
            NotifyStatusMessage::IntermediateExchangeSupported => {},
            NotifyStatusMessage::Ip4Allowed => {},
            NotifyStatusMessage::Ip6Allowed => {},
            NotifyStatusMessage::AdditionalKeyExchange => {},
            NotifyStatusMessage::UseAgfrag => {},
            NotifyStatusMessage::SupportedAuthMethods => {},
            NotifyStatusMessage::SaResourceInfo => {},
            NotifyStatusMessage::UsePpkInt => {},
            NotifyStatusMessage::PpkIdentityKey => {},
        }
    }

    /// Decode an identifier: the variant that it names, or its category.
    pub fn try_from(x: u16) -> (r: Result<NotifyStatusMessage, UnparseableParameter>)
        ensures
            match r {
                Ok(v) => NotifyStatusMessage::spec_category(x) is None && v.spec_value() == x && NotifyStatusMessage::spec_from_value(x) == Some(v),
                Err(e) => NotifyStatusMessage::spec_category(x) == Some(e) && NotifyStatusMessage::spec_from_value(x) is None,
            },
    {
        match x {
            16384 => Ok(NotifyStatusMessage::InitialContact),
            16385 => Ok(NotifyStatusMessage::SetWindowSize),
            16386 => Ok(NotifyStatusMessage::AdditionalTsPossible),
            16387 => Ok(NotifyStatusMessage::IpCompSupported),
            16388 => Ok(NotifyStatusMessage::NatDetectionSourceIp),
            16389 => Ok(NotifyStatusMessage::NatDetectionDestinationIp),
            16390 => Ok(NotifyStatusMessage::Cookie),
            16391 => Ok(NotifyStatusMessage::UseTransportMode),
            16392 => Ok(NotifyStatusMessage::HttpCertLookupSupported),
            16393 => Ok(NotifyStatusMessage::RekeySa),
            16394 => Ok(NotifyStatusMessage::EspTfcPaddingNotSupported),
            16395 => Ok(NotifyStatusMessage::NonFirstFragmentsAlso),
            16396 => Ok(NotifyStatusMessage::MobIkeSupported),
            16397 => Ok(NotifyStatusMessage::AdditionalIp4Address),
            16398 => Ok(NotifyStatusMessage::AdditionalIp6Address),
            16399 => Ok(NotifyStatusMessage::NoAdditionalAddresses),
            16400 => Ok(NotifyStatusMessage::UpdateSaAddresses),
            16401 => Ok(NotifyStatusMessage::Cookie2),
            16402 => Ok(NotifyStatusMessage::NoNatsAllowed),
            16403 => Ok(NotifyStatusMessage::AuthLifetime),
            16404 => Ok(NotifyStatusMessage::MultipleAuthSupported),
            16405 => Ok(NotifyStatusMessage::AnotherAuthFollows),
            16406 => Ok(NotifyStatusMessage::RedirectSupported),
            16407 => Ok(NotifyStatusMessage::Redirect),
            16408 => Ok(NotifyStatusMessage::RedirectedFrom),
            16409 => Ok(NotifyStatusMessage::TicketLtOpaque),
            16410 => Ok(NotifyStatusMessage::TicketRequest),
            16411 => Ok(NotifyStatusMessage::TicketAck),
            16412 => Ok(NotifyStatusMessage::TicketNack),
            16413 => Ok(NotifyStatusMessage::TicketOpaque),
            16414 => Ok(NotifyStatusMessage::LinkId),
            16415 => Ok(NotifyStatusMessage::UseWespMode),
            16416 => Ok(NotifyStatusMessage::RohcSupported),
            16417 => Ok(NotifyStatusMessage::EapOnlyAuthentication),
            16418 => Ok(NotifyStatusMessage::ChildlessIkev2Supported),
            16419 => Ok(NotifyStatusMessage::QuickCrashDetection),
            16420 => Ok(NotifyStatusMessage::Ikev2MessageIdSyncSupported),
            16421 => Ok(NotifyStatusMessage::IpsecReplayCounterSyncSupported),
            16422 => Ok(NotifyStatusMessage::Ikev2MessageIdSync),
            16423 => Ok(NotifyStatusMessage::IpsecReplayCounterSync),
            16424 => Ok(NotifyStatusMessage::SecurePasswordMethods),
            16425 => Ok(NotifyStatusMessage::PskPersist),
            16426 => Ok(NotifyStatusMessage::PskConfirm),
            16427 => Ok(NotifyStatusMessage::ErxSupported),
            16428 => Ok(NotifyStatusMessage::IfomCapability),
            16429 => Ok(NotifyStatusMessage::GroupSender),
            16430 => Ok(NotifyStatusMessage::Ikev2FragmentationSupported),
            16431 => Ok(NotifyStatusMessage::SignatureHashAlgorithms),
            16432 => Ok(NotifyStatusMessage::CloneIkeSaSupported),
            16433 => Ok(NotifyStatusMessage::CloneIkeSa),
            16434 => Ok(NotifyStatusMessage::Puzzle),
            16435 => Ok(NotifyStatusMessage::UsePpk),
            16436 => Ok(NotifyStatusMessage::PpkIdentity),
            16437 => Ok(NotifyStatusMessage::NoPpkAuth),
            16438 => Ok(NotifyStatusMessage::IntermediateExchangeSupported),
            16439 => Ok(NotifyStatusMessage::Ip4Allowed),
            16440 => Ok(NotifyStatusMessage::Ip6Allowed),
            16441 => Ok(NotifyStatusMessage::AdditionalKeyExchange),
            16442 => Ok(NotifyStatusMessage::UseAgfrag),
            16443 => Ok(NotifyStatusMessage::SupportedAuthMethods),
            16444 => Ok(NotifyStatusMessage::SaResourceInfo),
            16445 => Ok(NotifyStatusMessage::UsePpkInt),
            16446 => Ok(NotifyStatusMessage::PpkIdentityKey),
            _ => Err(Self::category(x)),
        }
    }

    fn category(x: u16) -> (r: UnparseableParameter)
        requires
            NotifyStatusMessage::spec_category(x) is Some,
        ensures
            NotifyStatusMessage::spec_category(x) == Some(r),
    {
        if x <= 16383 { (UnparseableParameter::OutOfRange) } else if x <= 16446 { UnparseableParameter::Reserved } else if x <= 40959 { (UnparseableParameter::Unassigned) } else { (UnparseableParameter::PrivateUse) }
    }
}


} // verus!
