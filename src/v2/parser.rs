//! Decoding of IKEv2 messages from network bytes.
use vstd::prelude::*;

use crate::v2::definitions::{
    encryptions_of, integrities_of, key_exchanges_of, prfs_of, sequence_numbers_of, Delete, IKEv2,
    KeyExchange, Notification, NotificationType, Payload, Proposal, SecurityAssociation, Transform,
};
use crate::v2::generator::{
    notification_encoding, header_flags, ikev2_encoding, ikev2_header, notification_spi, payload_encoding, payload_type_at, payloads_encoding, proposals_encoding, security_association_encoding, proposal_encoding, transform_attributes, transform_encoding, transforms_encoding,
};
use crate::v2::generator as generator_lemmas;
use crate::v2::generator::GeneratorError;
use crate::v2::header::{AttributeHeader, KeyExchangeHeader, NotifyHeader, TransformHeader};
use crate::v2::params::{
    AttributeType, EncryptionAlgorithm, ExchangeType, IntegrityAlgorithm, KeyExchangeMethod,
    NotifyErrorMessage, NotifyStatusMessage, PayloadType, PseudorandomFunction, SecurityProtocol,
    SequenceNumberType, TransformType, UnparseableParameter, CONST_FIRST_PROPOSAL_NUMBER,
    FLAG_ATTRIBUTE_FORMAT, FLAG_INITIATOR, FLAG_MORE_FOLLOWING_PROPOSALS,
    FLAG_MORE_FOLLOWING_TRANSFORMS, FLAG_RESPONSE, IKE_2_VERSION_VALUE,
};
use crate::wire::{copy_range, read_u16, read_u32, read_u64, u16_at, u16_bytes, u32_at, u32_bytes, u64_at, u64_bytes};

verus! {

/// Why bytes are not a valid IKEv2 message.
#[derive(Debug, Clone, Copy, PartialEq, Eq, Structural)]
pub enum ParserError {
    /// The input ends before a structure that it declares
    BufferTooSmall,
    /// The version byte is not that of IKEv2
    WrongProtocol,
    /// An identifier names no known value
    UnparseableParameter(UnparseableParameter),
    /// The first proposal is not numbered 1
    InvalidProposalNumberingStart,
    /// A proposal's number is not one more than the previous one
    InvalidProposalNumbering,
    /// Protocol identifier and SPI contradict each other
    ProtocolViolation,
    /// A declared length is smaller than the fixed part it must contain
    BoundaryError,
    /// A proposal lacks a transform type that its protocol requires
    MissingMandatoryTransform,
}

impl ParserError {
    /// Wrap the category of an unknown identifier.
    pub fn from(value: UnparseableParameter) -> (r: ParserError)
        ensures
            r == ParserError::UnparseableParameter(value),
    {
        ParserError::UnparseableParameter(value)
    }
}

/// A generic payload at the start of `s`: its data, the bytes it occupies and the type
/// of the payload that follows it.
pub open spec fn generic_decoding(s: Seq<u8>) -> Result<(Seq<u8>, int, PayloadType), ParserError> {
    if s.len() < 4 {
        Err(ParserError::BufferTooSmall)
    } else if u16_at(s, 2) < 4 || u16_at(s, 2) > s.len() {
        Err(ParserError::BufferTooSmall)
    } else {
        match PayloadType::spec_from_value(s[0]) {
            None => Err(category_error(PayloadType::spec_category(s[0]))),
            Some(next) => Ok((s.subrange(4, u16_at(s, 2) as int), u16_at(s, 2) as int, next)),
        }
    }
}

/// The value of a generic payload parse as sequences and integers.
pub open spec fn generic_result(r: Result<(Vec<u8>, usize, PayloadType), ParserError>) -> Result<(Seq<u8>, int, PayloadType), ParserError> {
    match r {
        Ok((d, n, t)) => Ok((d@, n as int, t)),
        Err(e) => Err(e),
    }
}

/// Parse the generic payload at `buf[offset..]`.
pub fn try_parse_generic(buf: &[u8], offset: usize) -> (r: Result<(Vec<u8>, usize, PayloadType), ParserError>)
    requires
        offset <= buf@.len(),
    ensures
        generic_result(r) == generic_decoding(buf@.subrange(offset as int, buf@.len() as int)),
{
    let ghost s = buf@.subrange(offset as int, buf@.len() as int);
    if buf.len() - offset < 4 {
        return Err(ParserError::BufferTooSmall);
    }
    let consumed = read_u16(buf, offset + 2) as usize;
    assert(u16_at(s, 2) == consumed && s[0] == buf@[offset as int]);
    if consumed < 4 || consumed > buf.len() - offset {
        return Err(ParserError::BufferTooSmall);
    }
    let next = match PayloadType::try_from(buf[offset]) {
        Ok(n) => n,
        Err(e) => return Err(ParserError::from(e)),
    };
    let data = copy_range(buf, offset + 4, offset + consumed);
    assert(data@ =~= s.subrange(4, consumed as int));
    Ok((data, consumed, next))
}

/// The key length that the attributes `a` of an encryption transform carry: the first
/// attribute, if it is a fixed-length key length. Unknown fixed-length types are errors.
pub open spec fn key_length_decoding(a: Seq<u8>) -> Result<Option<u16>, ParserError> {
    if a.len() == 0 {
        Ok(None)
    } else if a.len() < 4 {
        Err(ParserError::BufferTooSmall)
    } else if u16_at(a, 0) >= FLAG_ATTRIBUTE_FORMAT {
        let t = (u16_at(a, 0) - FLAG_ATTRIBUTE_FORMAT) as u16;
        match AttributeType::spec_from_value(t) {
            Some(AttributeType::KeyLength) => Ok(Some(u16_at(a, 2))),
            Some(_) => Ok(None),
            None => Err(ParserError::UnparseableParameter(AttributeType::spec_category(t)->Some_0)),
        }
    } else {
        Ok(None)
    }
}

/// The error for an identifier `x` of a space whose category of `x` is `c`.
pub open spec fn category_error(c: Option<UnparseableParameter>) -> ParserError {
    ParserError::UnparseableParameter(c->Some_0)
}

/// The transform substructure at the start of `s`: the transform it holds (none for
/// types that a proposal does not keep), the bytes it occupies, and whether another
/// transform follows.
pub open spec fn transform_decoding(s: Seq<u8>) -> Result<(Option<Transform>, int, bool), ParserError> {
    if s.len() < 8 {
        Err(ParserError::BufferTooSmall)
    } else {
        let size = u16_at(s, 2) as int;
        let more = s[0] == FLAG_MORE_FOLLOWING_TRANSFORMS;
        let id = u16_at(s, 6);
        if size < 8 || size > s.len() {
            Err(ParserError::BufferTooSmall)
        } else {
            match TransformType::spec_from_value(s[4]) {
                None => Err(category_error(TransformType::spec_category(s[4]))),
                Some(TransformType::EncryptionAlgorithm) => match EncryptionAlgorithm::spec_from_value(id) {
                    None => Err(category_error(EncryptionAlgorithm::spec_category(id))),
                    Some(e) => match key_length_decoding(s.subrange(8, size)) {
                        Err(err) => Err(err),
                        Ok(k) => Ok((Some(Transform::Encryption(e, k)), size, more)),
                    },
                },
                Some(TransformType::PseudoRandomFunction) => match PseudorandomFunction::spec_from_value(id) {
                    None => Err(category_error(PseudorandomFunction::spec_category(id))),
                    Some(v) => Ok((Some(Transform::PseudoRandomFunction(v)), size, more)),
                },
                Some(TransformType::IntegrityAlgorithm) => match IntegrityAlgorithm::spec_from_value(id) {
                    None => Err(category_error(IntegrityAlgorithm::spec_category(id))),
                    Some(v) => Ok((Some(Transform::Integrity(v)), size, more)),
                },
                Some(TransformType::KeyExchangeMethod) => match KeyExchangeMethod::spec_from_value(id) {
                    None => Err(category_error(KeyExchangeMethod::spec_category(id))),
                    Some(v) => Ok((Some(Transform::KeyExchange(v)), size, more)),
                },
                Some(TransformType::SequenceNumber) => match SequenceNumberType::spec_from_value(id) {
                    None => Err(category_error(SequenceNumberType::spec_category(id))),
                    Some(v) => Ok((Some(Transform::SequenceNumber(v)), size, more)),
                },
                Some(TransformType::KeyWrapAlgorithm) => Ok((None, size, more)),
                Some(TransformType::GroupControllerAuthenticationMethod) => Ok((None, size, more)),
                Some(_) => match KeyExchangeMethod::spec_from_value(id) {
                    None => Err(category_error(KeyExchangeMethod::spec_category(id))),
                    Some(_) => Ok((None, size, more)),
                },
            }
        }
    }
}

/// The value of a transform parse as integers.
pub open spec fn transform_result(r: Result<(Option<Transform>, usize, bool), ParserError>) -> Result<(Option<Transform>, int, bool), ParserError> {
    match r {
        Ok((t, n, m)) => Ok((t, n as int, m)),
        Err(e) => Err(e),
    }
}

fn parse_key_length(buf: &[u8], start: usize, end: usize) -> (r: Result<Option<u16>, ParserError>)
    requires
        start <= end <= buf@.len(),
    ensures
        r == key_length_decoding(buf@.subrange(start as int, end as int)),
{
    let ghost a = buf@.subrange(start as int, end as int);
    if start == end {
        return Ok(None);
    }
    let header = match AttributeHeader::read(&buf[start..end]) {
        Ok(h) => h,
        Err(e) => return Err(e),
    };
    let attribute_type = header.attribute_type;
    if header.is_fixed_length() {
        match AttributeType::try_from(attribute_type - FLAG_ATTRIBUTE_FORMAT) {
            Ok(AttributeType::KeyLength) => Ok(Some(header.attribute_value)),
            Ok(_) => Ok(None),
            Err(e) => Err(ParserError::from(e)),
        }
    } else {
        Ok(None)
    }
}

/// Parse the transform substructure at `buf[pos..end]`.
pub fn parse_transform_at(buf: &[u8], pos: usize, end: usize) -> (r: Result<(Option<Transform>, usize, bool), ParserError>)
    requires
        pos <= end <= buf@.len(),
    ensures
        transform_result(r) == transform_decoding(buf@.subrange(pos as int, end as int)),
{
    let ghost s = buf@.subrange(pos as int, end as int);
    let header = match TransformHeader::read(&buf[pos..end]) {
        Ok(h) => h,
        Err(e) => return Err(e),
    };
    let t_size = header.transform_length as usize;
    if t_size < 8 || t_size > end - pos {
        return Err(ParserError::BufferTooSmall);
    }
    let more = header.last_substruct == FLAG_MORE_FOLLOWING_TRANSFORMS;
    let t_type = match TransformType::try_from(header.transform_type) {
        Ok(t) => t,
        Err(e) => return Err(ParserError::from(e)),
    };
    let id = header.transform_id;
    let kept = match t_type {
        TransformType::EncryptionAlgorithm => {
            let e = match EncryptionAlgorithm::try_from(id) {
                Ok(e) => e,
                Err(e) => return Err(ParserError::from(e)),
            };
            assert(s.subrange(8, t_size as int) =~= buf@.subrange(pos + 8, pos + t_size));
            let key_length = match parse_key_length(buf, pos + 8, pos + t_size) {
                Ok(k) => k,
                Err(e) => return Err(e),
            };
            Some(Transform::Encryption(e, key_length))
        },
        TransformType::PseudoRandomFunction => match PseudorandomFunction::try_from(id) {
            Ok(p) => Some(Transform::PseudoRandomFunction(p)),
            Err(e) => return Err(ParserError::from(e)),
        },
        TransformType::IntegrityAlgorithm => match IntegrityAlgorithm::try_from(id) {
            Ok(v) => Some(Transform::Integrity(v)),
            Err(e) => return Err(ParserError::from(e)),
        },
        TransformType::KeyExchangeMethod => match KeyExchangeMethod::try_from(id) {
            Ok(k) => Some(Transform::KeyExchange(k)),
            Err(e) => return Err(ParserError::from(e)),
        },
        TransformType::SequenceNumber => match SequenceNumberType::try_from(id) {
            Ok(v) => Some(Transform::SequenceNumber(v)),
            Err(e) => return Err(ParserError::from(e)),
        },
        TransformType::KeyWrapAlgorithm | TransformType::GroupControllerAuthenticationMethod => None,
        _ => match KeyExchangeMethod::try_from(id) {
            Ok(_) => None,
            Err(e) => return Err(ParserError::from(e)),
        },
    };
    Ok((kept, t_size, more))
}

/// The 16-bit value of the bytes of `x` is `x`.
pub proof fn lemma_u16_round_trip(x: u16)
    ensures
        u16_at(u16_bytes(x), 0) == x,
{
}

/// A transform reads back as itself, whatever follows it.
pub proof fn lemma_transform_round_trip(t: Transform, last: bool, rest: Seq<u8>)
    ensures
        transform_decoding(transform_encoding(t, last) + rest) == Ok::<(Option<Transform>, int, bool), ParserError>(
            (Some(t), transform_encoding(t, last).len() as int, !last),
        ),
{
    let enc = transform_encoding(t, last);
    let s = enc + rest;
    let attrs = transform_attributes(t);
    lemma_u16_round_trip((8 + attrs.len()) as u16);
    lemma_u16_round_trip(t.spec_id());
    assert(u16_at(s, 2) == u16_at(u16_bytes((8 + attrs.len()) as u16), 0));
    assert(u16_at(s, 6) == u16_at(u16_bytes(t.spec_id()), 0));
    TransformType::lemma_value_round_trip(t.spec_transform_type());
    assert(s[4] == t.spec_transform_type().spec_value());
    assert(s.subrange(8, enc.len() as int) =~= attrs);
    match t {
        Transform::Encryption(e, k) => {
            EncryptionAlgorithm::lemma_value_round_trip(e);
            match k {
                Some(l) => {
                    lemma_u16_round_trip(0x800e);
                    lemma_u16_round_trip(l);
                    assert(u16_at(attrs, 0) == u16_at(u16_bytes(0x800e), 0));
                    assert(u16_at(attrs, 2) == u16_at(u16_bytes(l), 0));
                    AttributeType::lemma_value_round_trip(AttributeType::KeyLength);
                },
                None => {},
            }
        },
        Transform::PseudoRandomFunction(v) => PseudorandomFunction::lemma_value_round_trip(v),
        Transform::Integrity(v) => IntegrityAlgorithm::lemma_value_round_trip(v),
        Transform::KeyExchange(v) => KeyExchangeMethod::lemma_value_round_trip(v),
        Transform::SequenceNumber(v) => SequenceNumberType::lemma_value_round_trip(v),
    }
}

/// The transforms that a chain of transform substructures at the start of `s` keeps,
/// in order; the chain goes on while a transform announces another one.
pub open spec fn transforms_decoding(s: Seq<u8>) -> Result<Seq<Transform>, ParserError>
    decreases s.len(),
{
    match transform_decoding(s) {
        Err(e) => Err(e),
        Ok((t, size, more)) => {
            let here = match t {
                Some(t) => seq![t],
                None => Seq::empty(),
            };
            if more && 8 <= size <= s.len() {
                match transforms_decoding(s.subrange(size, s.len() as int)) {
                    Err(e) => Err(e),
                    Ok(rest) => Ok(here + rest),
                }
            } else {
                Ok(here)
            }
        }
    }
}

/// The transforms of a proposal body: none if it is empty, else its chain.
pub open spec fn body_decoding(s: Seq<u8>) -> Result<Seq<Transform>, ParserError> {
    if s.len() == 0 {
        Ok(Seq::empty())
    } else {
        transforms_decoding(s)
    }
}

/// `protocol` requires a transform type of which `ts` holds none (RFC 7296, 3.3.3).
pub open spec fn lacks_mandatory(protocol: SecurityProtocol, ts: Seq<Transform>) -> bool {
    match protocol {
        SecurityProtocol::InternetKeyExchange => encryptions_of(ts).len() == 0 || prfs_of(ts).len() == 0
            || key_exchanges_of(ts).len() == 0,
        SecurityProtocol::AuthenticationHeader => encryptions_of(ts).len() == 0
            || sequence_numbers_of(ts).len() == 0,
        SecurityProtocol::EncapsulatingSecurityPayload => integrities_of(ts).len() == 0
            || sequence_numbers_of(ts).len() == 0,
        _ => false,
    }
}

/// The proposal substructure at the start of `s`: protocol, SPI and kept transforms.
/// A proposal whose body is not empty must hold the transforms that its protocol
/// requires.
pub open spec fn proposal_decoding(s: Seq<u8>) -> Result<(SecurityProtocol, Seq<u8>, Seq<Transform>), ParserError> {
    if s.len() < 8 {
        Err(ParserError::BufferTooSmall)
    } else if u16_at(s, 2) > s.len() {
        Err(ParserError::BufferTooSmall)
    } else if u16_at(s, 2) < 8 + s[6] {
        Err(ParserError::BoundaryError)
    } else {
        match SecurityProtocol::spec_from_value(s[5]) {
            None => Err(category_error(SecurityProtocol::spec_category(s[5]))),
            Some(protocol) => match body_decoding(s.subrange(8 + s[6], u16_at(s, 2) as int)) {
                Err(e) => Err(e),
                Ok(ts) => if u16_at(s, 2) > 8 + s[6] && lacks_mandatory(protocol, ts) {
                    Err(ParserError::MissingMandatoryTransform)
                } else {
                    Ok((protocol, s.subrange(8, 8 + s[6]), ts))
                },
            },
        }
    }
}

/// The proposal that `protocol`, `spi` and the transform lists of `ts` make up.
pub open spec fn proposal_matches(p: Proposal, protocol: SecurityProtocol, spi: Seq<u8>, ts: Seq<Transform>) -> bool {
    &&& p.protocol == protocol
    &&& p.spi@ == spi
    &&& p.encryption_algorithms@ == encryptions_of(ts)
    &&& p.pseudo_random_functions@ == prfs_of(ts)
    &&& p.integrity_algorithms@ == integrities_of(ts)
    &&& p.key_exchange_methods@ == key_exchanges_of(ts)
    &&& p.sequence_numbers@ == sequence_numbers_of(ts)
}

/// Transforms parsed so far, followed by the rest of the chain.
pub open spec fn chain_after(kept: Seq<Transform>, rest: Result<Seq<Transform>, ParserError>) -> Result<Seq<Transform>, ParserError> {
    match rest {
        Ok(r) => Ok(kept + r),
        Err(e) => Err(e),
    }
}

impl Proposal {
    /// Decode the proposal substructure at `buf[offset..]`; the bytes that it occupies
    /// are given by its declared length.
    pub fn try_parse(buf: &[u8], offset: usize) -> (r: Result<Proposal, ParserError>)
        requires
            offset <= buf@.len(),
        ensures
            match r {
                Ok(p) => proposal_decoding(buf@.subrange(offset as int, buf@.len() as int)) matches Ok((protocol, spi, ts))
                    && proposal_matches(p, protocol, spi, ts),
                Err(e) => proposal_decoding(buf@.subrange(offset as int, buf@.len() as int)) == Err::<(SecurityProtocol, Seq<u8>, Seq<Transform>), ParserError>(e),
            },
    {
        let ghost s = buf@.subrange(offset as int, buf@.len() as int);
        if buf.len() - offset < 8 {
            return Err(ParserError::BufferTooSmall);
        }
        let length = read_u16(buf, offset + 2) as usize;
        assert(u16_at(s, 2) == length && s[5] == buf@[offset + 5] && s[6] == buf@[offset + 6]);
        if length > buf.len() - offset {
            return Err(ParserError::BufferTooSmall);
        }
        let spi_len = buf[offset + 6] as usize;
        if length < 8 + spi_len {
            return Err(ParserError::BoundaryError);
        }
        let protocol = match SecurityProtocol::try_from(buf[offset + 5]) {
            Ok(p) => p,
            Err(e) => return Err(ParserError::from(e)),
        };
        let spi = copy_range(buf, offset + 8, offset + 8 + spi_len);
        assert(spi@ =~= s.subrange(8, 8 + s[6]));
        let end = offset + length;
        let start = offset + 8 + spi_len;
        let ghost body = buf@.subrange(start as int, end as int);
        assert(body =~= s.subrange(8 + s[6], u16_at(s, 2) as int));
        let mut proposal = Proposal::new_empty(protocol, Some(spi));
        let ghost mut kept: Seq<Transform> = Seq::empty();
        let mut pos = start;
        let mut more = pos < end;
        while more
            invariant
                start <= pos <= end <= buf@.len(),
                body == buf@.subrange(start as int, end as int),
                s == buf@.subrange(offset as int, buf@.len() as int),
                s.len() >= 8,
                u16_at(s, 2) == length,
                length <= s.len(),
                length >= 8 + s[6],
                SecurityProtocol::spec_from_value(s[5]) == Some(protocol),
                body == s.subrange(8 + s[6], u16_at(s, 2) as int),
                more ==> body_decoding(body) == chain_after(kept, transforms_decoding(buf@.subrange(pos as int, end as int))),
                !more ==> body_decoding(body) == Ok::<Seq<Transform>, ParserError>(kept),
                proposal.protocol == protocol,
                proposal.spi@ == s.subrange(8, 8 + s[6]),
                proposal.encryption_algorithms@ == encryptions_of(kept),
                proposal.pseudo_random_functions@ == prfs_of(kept),
                proposal.integrity_algorithms@ == integrities_of(kept),
                proposal.key_exchange_methods@ == key_exchanges_of(kept),
                proposal.sequence_numbers@ == sequence_numbers_of(kept),
            decreases end - pos + (if more { 1int } else { 0int }),
        {
            let ghost here_bytes = buf@.subrange(pos as int, end as int);
            let (t, t_size, next_more) = match parse_transform_at(buf, pos, end) {
                Ok(t) => t,
                Err(e) => return Err(e),
            };
            proof {
                assert(here_bytes.subrange(t_size as int, here_bytes.len() as int) =~= buf@.subrange(pos + t_size, end as int));
                if kept.len() == 0 {
                    assert(Seq::<Transform>::empty() + transforms_decoding(here_bytes)->Ok_0 =~= transforms_decoding(here_bytes)->Ok_0);
                }
            }
            match t {
                Some(Transform::Encryption(e, k)) => proposal.encryption_algorithms.push((e, k)),
                Some(Transform::PseudoRandomFunction(p)) => proposal.pseudo_random_functions.push(p),
                Some(Transform::Integrity(v)) => proposal.integrity_algorithms.push(v),
                Some(Transform::KeyExchange(k)) => proposal.key_exchange_methods.push(k),
                Some(Transform::SequenceNumber(v)) => proposal.sequence_numbers.push(v),
                None => {},
            }
            proof {
                let here = match t {
                    Some(x) => seq![x],
                    None => Seq::<Transform>::empty(),
                };
                let old_kept = kept;
                kept = kept + here;
                if t is Some {
                    assert(kept.drop_last() =~= old_kept);
                } else {
                    assert(kept =~= old_kept);
                }
                match transforms_decoding(buf@.subrange(pos + t_size, end as int)) {
                    Ok(r) => {
                        assert(old_kept + (here + r) =~= kept + r);
                    },
                    Err(_) => {},
                }
            }
            more = next_more;
            pos = pos + t_size;
        }
        let ghost ts = kept;
        assert(body_decoding(body) == Ok::<Seq<Transform>, ParserError>(ts));
        if length > 8 + spi_len {
            let missing = match proposal.protocol {
                SecurityProtocol::InternetKeyExchange => proposal.encryption_algorithms.len() == 0
                    || proposal.pseudo_random_functions.len() == 0
                    || proposal.key_exchange_methods.len() == 0,
                SecurityProtocol::AuthenticationHeader => proposal.encryption_algorithms.len() == 0
                    || proposal.sequence_numbers.len() == 0,
                SecurityProtocol::EncapsulatingSecurityPayload => proposal.integrity_algorithms.len() == 0
                    || proposal.sequence_numbers.len() == 0,
                _ => false,
            };
            if missing {
                return Err(ParserError::MissingMandatoryTransform);
            }
        }
        Ok(proposal)
    }
}

/// A decoded proposal: protocol, SPI and kept transforms.
pub type DecodedProposal = (SecurityProtocol, Seq<u8>, Seq<Transform>);

/// The chain of proposal substructures at the start of `s`. The first must be numbered
/// 1 (`first`), each later one one more than `prev`; the chain goes on while a proposal
/// announces another one.
pub open spec fn proposals_decoding(s: Seq<u8>, prev: u8, first: bool) -> Result<Seq<DecodedProposal>, ParserError>
    decreases s.len(),
{
    if s.len() < 8 {
        Err(ParserError::BufferTooSmall)
    } else if first && s[4] != CONST_FIRST_PROPOSAL_NUMBER {
        Err(ParserError::InvalidProposalNumberingStart)
    } else if !first && s[4] as int != prev as int + 1 {
        Err(ParserError::InvalidProposalNumbering)
    } else {
        match proposal_decoding(s) {
            Err(e) => Err(e),
            Ok(d) => {
                let len = u16_at(s, 2) as int;
                if s[0] == FLAG_MORE_FOLLOWING_PROPOSALS && 8 <= len <= s.len() {
                    match proposals_decoding(s.subrange(len, s.len() as int), s[4], false) {
                        Err(e) => Err(e),
                        Ok(rest) => Ok(seq![d] + rest),
                    }
                } else {
                    Ok(seq![d])
                }
            },
        }
    }
}

/// The proposals of a security association payload body; none if it is empty.
pub open spec fn security_association_decoding(s: Seq<u8>) -> Result<Seq<DecodedProposal>, ParserError> {
    if s.len() == 0 {
        Ok(Seq::empty())
    } else {
        proposals_decoding(s, 0, true)
    }
}

/// Each proposal of `ps` is the corresponding decoded one.
pub open spec fn proposals_match(ps: Seq<Proposal>, ds: Seq<DecodedProposal>) -> bool {
    &&& ps.len() == ds.len()
    &&& forall|i: int| 0 <= i < ps.len() ==> proposal_matches(#[trigger] ps[i], ds[i].0, ds[i].1, ds[i].2)
}

/// Decoded proposals parsed so far, followed by the rest of the chain.
pub open spec fn proposals_after(kept: Seq<DecodedProposal>, rest: Result<Seq<DecodedProposal>, ParserError>) -> Result<Seq<DecodedProposal>, ParserError> {
    match rest {
        Ok(r) => Ok(kept + r),
        Err(e) => Err(e),
    }
}

impl SecurityAssociation {
    /// Decode the proposals of a security association payload (the bytes after its
    /// generic header). Empty input gives a security association without proposals.
    pub fn try_parse(buf: &[u8]) -> (r: Result<SecurityAssociation, ParserError>)
        ensures
            match r {
                Ok(sa) => security_association_decoding(buf@) matches Ok(ds) && proposals_match(sa.proposals@, ds),
                Err(e) => security_association_decoding(buf@) == Err::<Seq<DecodedProposal>, ParserError>(e),
            },
    {
        let mut proposals: Vec<Proposal> = Vec::new();
        if buf.len() == 0 {
            return Ok(SecurityAssociation { proposals });
        }
        let ghost mut kept: Seq<DecodedProposal> = Seq::empty();
        let mut offset: usize = 0;
        let mut number: u8 = 0;
        let mut more = true;
        proof {
            assert(buf@.subrange(0, buf@.len() as int) =~= buf@);
            match proposals_decoding(buf@, 0, true) {
                Ok(r) => assert(Seq::<DecodedProposal>::empty() + r =~= r),
                Err(_) => {},
            }
        }
        while more
            invariant
                offset <= buf@.len(),
                buf@.len() > 0,
                offset == 0 ==> more && number == 0 && kept.len() == 0,
                more ==> security_association_decoding(buf@) == proposals_after(
                    kept,
                    proposals_decoding(buf@.subrange(offset as int, buf@.len() as int), number, offset == 0),
                ),
                !more ==> security_association_decoding(buf@) == Ok::<Seq<DecodedProposal>, ParserError>(kept),
                proposals_match(proposals@, kept),
            decreases buf@.len() - offset + (if more { 1int } else { 0int }),
        {
            let ghost sub = buf@.subrange(offset as int, buf@.len() as int);
            if offset == 0 {
                assert(buf@.subrange(0, buf@.len() as int) =~= buf@);
            }
            if buf.len() - offset < 8 {
                return Err(ParserError::BufferTooSmall);
            }
            let num = buf[offset + 4];
            assert(sub[4] == num && sub[0] == buf@[offset as int]);
            if offset == 0 && num != CONST_FIRST_PROPOSAL_NUMBER {
                return Err(ParserError::InvalidProposalNumberingStart);
            }
            if offset > 0 && num as u16 != number as u16 + 1 {
                return Err(ParserError::InvalidProposalNumbering);
            }
            let length = read_u16(buf, offset + 2) as usize;
            assert(u16_at(sub, 2) == length);
            let proposal = match Proposal::try_parse(buf, offset) {
                Ok(p) => p,
                Err(e) => return Err(e),
            };
            let ghost d = proposal_decoding(sub)->Ok_0;
            proof {
                assert(sub.subrange(length as int, sub.len() as int) =~= buf@.subrange(offset + length, buf@.len() as int));
                let old_kept = kept;
                kept = kept.push(d);
                match proposals_decoding(sub.subrange(length as int, sub.len() as int), num, false) {
                    Ok(r) => {
                        assert(old_kept + (seq![d] + r) =~= kept + r);
                    },
                    Err(_) => {},
                }
                if kept.len() == 1 {
                    assert(old_kept + seq![d] =~= kept);
                } else {
                    assert(old_kept + seq![d] =~= kept);
                }
            }
            let ghost old_props = proposals@;
            proposals.push(proposal);
            proof {
                assert forall|i: int| 0 <= i < proposals@.len() implies proposal_matches(#[trigger] proposals@[i], kept[i].0, kept[i].1, kept[i].2) by {
                    if i < old_props.len() {
                        assert(proposals@[i] == old_props[i]);
                    }
                }
            }
            more = buf[offset] == FLAG_MORE_FOLLOWING_PROPOSALS;
            number = num;
            offset = offset + length;
        }
        Ok(SecurityAssociation { proposals })
    }
}

/// Why a notify payload body `s` cannot be read, or `None` when it can: its type must be
/// known within its class (error below 16384, status from 16384), its protocol known, an
/// SPI present exactly when the protocol is not `Reserved`, no SPI on IKE, and the SPI
/// within the body.
pub open spec fn notification_error(s: Seq<u8>) -> Option<ParserError> {
    if s.len() < 4 {
        Some(ParserError::BufferTooSmall)
    } else if u16_at(s, 2) < 16384 && NotifyErrorMessage::spec_category(u16_at(s, 2)) is Some {
        Some(category_error(NotifyErrorMessage::spec_category(u16_at(s, 2))))
    } else if u16_at(s, 2) >= 16384 && NotifyStatusMessage::spec_category(u16_at(s, 2)) is Some {
        Some(category_error(NotifyStatusMessage::spec_category(u16_at(s, 2))))
    } else if SecurityProtocol::spec_category(s[0]) is Some {
        Some(category_error(SecurityProtocol::spec_category(s[0])))
    } else if s[1] > 0 && s[0] == SecurityProtocol::InternetKeyExchange.spec_value() {
        Some(ParserError::ProtocolViolation)
    } else if (s[1] == 0) != (s[0] == SecurityProtocol::Reserved.spec_value()) {
        Some(ParserError::ProtocolViolation)
    } else if s.len() < 4 + s[1] {
        Some(ParserError::BufferTooSmall)
    } else {
        None
    }
}

/// Why a key exchange payload body `s` cannot be read, or `None` when it can.
pub open spec fn key_exchange_error(s: Seq<u8>) -> Option<ParserError> {
    if s.len() < 4 {
        Some(ParserError::BufferTooSmall)
    } else if KeyExchangeMethod::spec_category(u16_at(s, 0)) is Some {
        Some(category_error(KeyExchangeMethod::spec_category(u16_at(s, 0))))
    } else {
        None
    }
}

/// Why a delete payload body `s` cannot be read, or `None` when it can.
pub open spec fn delete_error(s: Seq<u8>) -> Option<ParserError> {
    if s.len() < 4 {
        Some(ParserError::BufferTooSmall)
    } else if SecurityProtocol::spec_category(s[0]) is Some {
        Some(category_error(SecurityProtocol::spec_category(s[0])))
    } else {
        None
    }
}

/// Why the body `data` of a kept payload of type `kind` cannot be read, or `None`.
pub open spec fn payload_error(kind: PayloadType, data: Seq<u8>) -> Option<ParserError> {
    match kind {
        PayloadType::SecurityAssociation => match security_association_decoding(data) {
            Err(e) => Some(e),
            Ok(_) => None,
        },
        PayloadType::KeyExchange => key_exchange_error(data),
        PayloadType::Notify => notification_error(data),
        PayloadType::Delete => delete_error(data),
        _ => None,
    }
}

impl Notification {
    /// Decode a notify payload (the bytes after its generic header).
    pub fn try_parse(buf: &[u8]) -> (r: Result<Notification, ParserError>)
        ensures
            buf@.len() < 4 ==> r == Err::<Notification, ParserError>(ParserError::BufferTooSmall),
            match r {
                Ok(n) => {
                    &&& notification_error(buf@) is None
                    &&& buf@.len() >= 4 + buf@[1]
                    &&& n.variant.spec_value() == u16_at(buf@, 2)
                    &&& (n.variant is Error <==> u16_at(buf@, 2) < 16384)
                    &&& n.protocol.spec_value() == buf@[0]
                    &&& (buf@[1] == 0 <==> n.spi is None)
                    &&& (buf@[1] == 0 <==> n.protocol == SecurityProtocol::Reserved)
                    &&& (n.spi is Some ==> n.spi->Some_0@ == buf@.subrange(4, 4 + buf@[1]))
                    &&& n.data@ == buf@.subrange(4 + buf@[1], buf@.len() as int)
                },
                Err(e) => notification_error(buf@) == Some(e),
            },
    {
        let header = match NotifyHeader::read(buf) {
            Ok(h) => h,
            Err(e) => return Err(e),
        };
        let spi_size = header.spi_size as usize;
        let message_type = header.notify_message_type;
        proof {
            SecurityProtocol::lemma_value_round_trip(SecurityProtocol::InternetKeyExchange);
            SecurityProtocol::lemma_value_round_trip(SecurityProtocol::Reserved);
        }
        let variant = if header.is_error() {
            match NotifyErrorMessage::try_from(message_type) {
                Ok(e) => NotificationType::Error(e),
                Err(e) => return Err(ParserError::from(e)),
            }
        } else {
            match NotifyStatusMessage::try_from(message_type) {
                Ok(s) => NotificationType::Status(s),
                Err(e) => return Err(ParserError::from(e)),
            }
        };
        let protocol = match SecurityProtocol::try_from(header.protocol_id) {
            Ok(p) => p,
            Err(e) => return Err(ParserError::from(e)),
        };
        if spi_size > 0 && protocol == SecurityProtocol::InternetKeyExchange {
            return Err(ParserError::ProtocolViolation);
        }
        if (spi_size == 0) != (protocol == SecurityProtocol::Reserved) {
            return Err(ParserError::ProtocolViolation);
        }
        if buf.len() - 4 < spi_size {
            return Err(ParserError::BufferTooSmall);
        }
        let spi = if spi_size > 0 {
            Some(copy_range(buf, 4, 4 + spi_size))
        } else {
            None
        };
        let data = copy_range(buf, 4 + spi_size, buf.len());
        Ok(Notification { variant, data, protocol, spi })
    }
}

impl KeyExchange {
    /// Decode a key exchange payload (the bytes after its generic header).
    pub fn try_parse(buf: &[u8]) -> (r: Result<KeyExchange, ParserError>)
        ensures
            buf@.len() < 4 ==> r == Err::<KeyExchange, ParserError>(ParserError::BufferTooSmall),
            match r {
                Ok(k) => key_exchange_error(buf@) is None && k.dh_group.spec_value() == u16_at(buf@, 0)
                    && k.data@ == buf@.subrange(4, buf@.len() as int),
                Err(e) => key_exchange_error(buf@) == Some(e),
            },
    {
        let header = match KeyExchangeHeader::read(buf) {
            Ok(h) => h,
            Err(e) => return Err(e),
        };
        let dh_group = match KeyExchangeMethod::try_from(header.dh_group_num) {
            Ok(k) => k,
            Err(e) => return Err(ParserError::from(e)),
        };
        Ok(KeyExchange { dh_group, data: copy_range(buf, 4, buf.len()) })
    }
}

impl Delete {
    /// Decode a delete payload (the bytes after its generic header).
    pub fn try_parse(buf: &[u8]) -> (r: Result<Delete, ParserError>)
        ensures
            buf@.len() < 4 ==> r == Err::<Delete, ParserError>(ParserError::BufferTooSmall),
            match r {
                Ok(d) => {
                    &&& delete_error(buf@) is None
                    &&& d.protocol.spec_value() == buf@[0]
                    &&& d.spi_size == buf@[1]
                    &&& d.num_spis == u16_at(buf@, 2)
                    &&& d.spis@ == buf@.subrange(4, buf@.len() as int)
                },
                Err(e) => delete_error(buf@) == Some(e),
            },
    {
        if buf.len() < 4 {
            return Err(ParserError::BufferTooSmall);
        }
        let protocol = match SecurityProtocol::try_from(buf[0]) {
            Ok(p) => p,
            Err(e) => return Err(ParserError::from(e)),
        };
        Ok(Delete { protocol, spi_size: buf[1], num_spis: read_u16(buf, 2), spis: copy_range(buf, 4, buf.len()) })
    }
}

/// The payload types that a message keeps.
pub open spec fn kept_payload(t: PayloadType) -> bool {
    t == PayloadType::SecurityAssociation || t == PayloadType::KeyExchange || t == PayloadType::Nonce
        || t == PayloadType::Notify || t == PayloadType::Delete || t == PayloadType::VendorID
        || t == PayloadType::EncryptedAndAuthenticated
}

/// The chain of generic payloads at the start of `s`, the first of type `kind`: the type
/// and data of each kept payload, in order, each of which must read as its type. The
/// chain ends at "no next payload" or after an encrypted payload.
pub open spec fn payload_chain(s: Seq<u8>, kind: PayloadType) -> Result<Seq<(PayloadType, Seq<u8>)>, ParserError>
    decreases s.len(),
{
    if kind == PayloadType::NoNextPayload {
        Ok(Seq::empty())
    } else {
        match generic_decoding(s) {
            Err(e) => Err(e),
            Ok((data, size, next)) => {
                let follow = if kind == PayloadType::EncryptedAndAuthenticated {
                    PayloadType::NoNextPayload
                } else {
                    next
                };
                let here = if kept_payload(kind) {
                    seq![(kind, data)]
                } else {
                    Seq::empty()
                };
                if kept_payload(kind) && payload_error(kind, data) is Some {
                    Err(payload_error(kind, data)->Some_0)
                } else if 4 <= size <= s.len() {
                    match payload_chain(s.subrange(size, s.len() as int), follow) {
                        Err(e) => Err(e),
                        Ok(rest) => Ok(here + rest),
                    }
                } else {
                    Err(ParserError::BufferTooSmall)
                }
            },
        }
    }
}

/// `p` is what the payload of type `kind` with data `data` holds.
pub open spec fn payload_matches(p: Payload, kind: PayloadType, data: Seq<u8>) -> bool {
    &&& p.spec_payload_type() == kind
    &&& match p {
        Payload::SecurityAssociation(sa) => security_association_decoding(data) is Ok
            && proposals_match(sa.proposals@, security_association_decoding(data)->Ok_0),
        Payload::KeyExchange(k) => data.len() >= 4 && k.dh_group.spec_value() == u16_at(data, 0)
            && k.data@ == data.subrange(4, data.len() as int),
        Payload::Nonce(v) => v@ == data,
        Payload::Notify(n) => data.len() >= 4 + data[1] && n.variant.spec_value() == u16_at(data, 2)
            && n.protocol.spec_value() == data[0] && (data[1] == 0 <==> n.spi is None)
            && (n.spi is Some ==> n.spi->Some_0@ == data.subrange(4, 4 + data[1]))
            && n.data@ == data.subrange(4 + data[1], data.len() as int),
        Payload::Delete(d) => data.len() >= 4 && d.protocol.spec_value() == data[0] && d.spi_size
            == data[1] && d.num_spis == u16_at(data, 2) && d.spis@ == data.subrange(4, data.len() as int),
        Payload::VendorID(v) => v@ == data,
        Payload::EncryptedAndAuthenticated(v) => v@ == data,
    }
}

/// Each payload of `ps` is what the corresponding item of a chain holds.
pub open spec fn payloads_match(ps: Seq<Payload>, items: Seq<(PayloadType, Seq<u8>)>) -> bool {
    &&& ps.len() == items.len()
    &&& forall|i: int| 0 <= i < ps.len() ==> payload_matches(#[trigger] ps[i], items[i].0, items[i].1)
}

/// Items of a chain parsed so far, followed by the rest of the chain.
pub open spec fn items_after(kept: Seq<(PayloadType, Seq<u8>)>, rest: Result<Seq<(PayloadType, Seq<u8>)>, ParserError>) -> Result<Seq<(PayloadType, Seq<u8>)>, ParserError> {
    match rest {
        Ok(r) => Ok(kept + r),
        Err(e) => Err(e),
    }
}

/// The payload chain of a message: its body, starting with the type in its header.
pub open spec fn message_chain(buf: Seq<u8>) -> Result<Seq<(PayloadType, Seq<u8>)>, ParserError> {
    payload_chain(buf.subrange(28, buf.len() as int), PayloadType::spec_from_value(buf[16])->Some_0)
}

/// Why `buf` is not an IKEv2 message, or `None` when it is: a full header with the IKEv2
/// version, a known exchange type and first payload type, and a payload chain whose kept
/// payloads all read.
pub open spec fn message_error(buf: Seq<u8>) -> Option<ParserError> {
    if buf.len() < 28 {
        Some(ParserError::BufferTooSmall)
    } else if buf[17] != IKE_2_VERSION_VALUE {
        Some(ParserError::WrongProtocol)
    } else if ExchangeType::spec_category(buf[18]) is Some {
        Some(category_error(ExchangeType::spec_category(buf[18])))
    } else if PayloadType::spec_category(buf[16]) is Some {
        Some(category_error(PayloadType::spec_category(buf[16])))
    } else {
        match message_chain(buf) {
            Err(e) => Some(e),
            Ok(_) => None,
        }
    }
}

/// Decode the body `data` of a payload of type `kind`; `None` for types that a message
/// does not keep.
fn decode_payload(kind: PayloadType, data: Vec<u8>) -> (r: Result<Option<Payload>, ParserError>)
    ensures
        match r {
            Ok(Some(p)) => kept_payload(kind) && payload_error(kind, data@) is None && payload_matches(p, kind, data@),
            Ok(None) => !kept_payload(kind),
            Err(e) => kept_payload(kind) && payload_error(kind, data@) == Some(e),
        },
{
    match kind {
        PayloadType::SecurityAssociation => match SecurityAssociation::try_parse(data.as_slice()) {
            Ok(sa) => Ok(Some(Payload::SecurityAssociation(sa))),
            Err(e) => Err(e),
        },
        PayloadType::KeyExchange => match KeyExchange::try_parse(data.as_slice()) {
            Ok(k) => Ok(Some(Payload::KeyExchange(k))),
            Err(e) => Err(e),
        },
        PayloadType::Nonce => Ok(Some(Payload::Nonce(data))),
        PayloadType::Notify => match Notification::try_parse(data.as_slice()) {
            Ok(n) => Ok(Some(Payload::Notify(n))),
            Err(e) => Err(e),
        },
        PayloadType::Delete => match Delete::try_parse(data.as_slice()) {
            Ok(d) => Ok(Some(Payload::Delete(d))),
            Err(e) => Err(e),
        },
        PayloadType::VendorID => Ok(Some(Payload::VendorID(data))),
        PayloadType::EncryptedAndAuthenticated => Ok(Some(Payload::EncryptedAndAuthenticated(data))),
        _ => Ok(None),
    }
}

impl IKEv2 {
    /// Decode a whole IKEv2 message. Payloads of types that this model does not hold
    /// are skipped; anything after an encrypted payload is ignored.
    pub fn try_parse(buf: &[u8]) -> (r: Result<IKEv2, ParserError>)
        ensures
            buf@.len() < 28 ==> r == Err::<IKEv2, ParserError>(ParserError::BufferTooSmall),
            buf@.len() >= 28 && buf@[17] != IKE_2_VERSION_VALUE ==> r == Err::<IKEv2, ParserError>(ParserError::WrongProtocol),
            buf@.len() >= 28 && PayloadType::spec_from_value(buf@[16]) is Some && message_chain(buf@) is Err ==> r is Err,
            r is Ok <==> message_error(buf@) is None,
            match r {
                Ok(m) => {
                    &&& message_error(buf@) is None
                    &&& buf@.len() >= 28
                    &&& m.initiator_cookie == u64_at(buf@, 0)
                    &&& m.responder_cookie == u64_at(buf@, 8)
                    &&& m.exchange_type.spec_value() == buf@[18]
                    &&& m.initiator == (buf@[19] & FLAG_INITIATOR == FLAG_INITIATOR)
                    &&& m.response == (buf@[19] & FLAG_RESPONSE == FLAG_RESPONSE)
                    &&& m.message_id == u32_at(buf@, 20)
                    &&& PayloadType::spec_from_value(buf@[16]) is Some
                    &&& message_chain(buf@) is Ok
                    &&& payloads_match(m.payloads@, message_chain(buf@)->Ok_0)
                },
                Err(e) => message_error(buf@) == Some(e),
            },
    {
        if buf.len() < 28 {
            return Err(ParserError::BufferTooSmall);
        }
        if buf[17] != IKE_2_VERSION_VALUE {
            return Err(ParserError::WrongProtocol);
        }
        let exchange_type = match ExchangeType::try_from(buf[18]) {
            Ok(t) => t,
            Err(e) => return Err(ParserError::from(e)),
        };
        let mut next = match PayloadType::try_from(buf[16]) {
            Ok(t) => t,
            Err(e) => return Err(ParserError::from(e)),
        };
        let ghost first = next;
        let ghost whole = buf@.subrange(28, buf@.len() as int);
        let ghost mut kept: Seq<(PayloadType, Seq<u8>)> = Seq::empty();
        let mut payloads: Vec<Payload> = Vec::new();
        let mut offset: usize = 28;
        proof {
            match payload_chain(whole, first) {
                Ok(r) => assert(Seq::<(PayloadType, Seq<u8>)>::empty() + r =~= r),
                Err(_) => {},
            }
        }
        while next != PayloadType::NoNextPayload
            invariant
                28 <= offset <= buf@.len(),
                buf@[17] == IKE_2_VERSION_VALUE,
                exchange_type.spec_value() == buf@[18],
                whole == buf@.subrange(28, buf@.len() as int),
                PayloadType::spec_from_value(buf@[16]) == Some(first),
                payload_chain(whole, first) == items_after(kept, payload_chain(buf@.subrange(offset as int, buf@.len() as int), next)),
                payloads_match(payloads@, kept),
            decreases buf@.len() - offset + (if next == PayloadType::NoNextPayload { 0int } else { 1int }),
        {
            let ghost sub = buf@.subrange(offset as int, buf@.len() as int);
            let generic = try_parse_generic(buf, offset);
            let (data, consumed, following) = match generic {
                Ok(g) => g,
                Err(e) => return Err(e),
            };
            assert(offset + consumed <= buf@.len() == buf.len());
            assert(sub.subrange(consumed as int, sub.len() as int) =~= buf@.subrange(offset + consumed, buf@.len() as int));
            let current = next;
            next = if current == PayloadType::EncryptedAndAuthenticated {
                PayloadType::NoNextPayload
            } else {
                following
            };
            let ghost item = (current, data@);
            let ghost old_payloads = payloads@;
            let ghost old_kept = kept;
            let ghost data_view = data@;
            let decoded = match decode_payload(current, data) {
                Ok(d) => d,
                Err(e) => return Err(e),
            };
            match decoded {
                Some(p) => {
                    assert(payload_matches(p, item.0, item.1));
                    payloads.push(p);
                    proof {
                        kept = kept.push(item);
                        assert forall|i: int| 0 <= i < payloads@.len() implies payload_matches(#[trigger] payloads@[i], kept[i].0, kept[i].1) by {
                            if i < old_payloads.len() {
                                assert(payloads@[i] == old_payloads[i]);
                            }
                        }
                        match payload_chain(buf@.subrange(offset + consumed, buf@.len() as int), next) {
                            Ok(r) => assert(old_kept + (seq![item] + r) =~= kept + r),
                            Err(_) => {},
                        }
                    }
                },
                None => {
                    proof {
                        match payload_chain(buf@.subrange(offset + consumed, buf@.len() as int), next) {
                            Ok(r) => assert(old_kept + (Seq::<(PayloadType, Seq<u8>)>::empty() + r) =~= kept + r),
                            Err(_) => {},
                        }
                    }
                },
            }
            offset = offset + consumed;
        }
        proof {
            assert(kept + Seq::<(PayloadType, Seq<u8>)>::empty() =~= kept);
        }
        Ok(IKEv2 {
            initiator_cookie: read_u64(buf, 0),
            responder_cookie: read_u64(buf, 8),
            exchange_type,
            initiator: buf[19] & FLAG_INITIATOR == FLAG_INITIATOR,
            response: buf[19] & FLAG_RESPONSE == FLAG_RESPONSE,
            message_id: read_u32(buf, 20),
            payloads,
        })
    }
}

/// Transform encodings read from the front: the first transform, then the others.
pub proof fn lemma_transforms_encoding_front(ts: Seq<Transform>, k: nat)
    requires
        1 <= k <= ts.len(),
    ensures
        transforms_encoding(ts, k) == transform_encoding(ts[0], ts.len() == 1) + transforms_encoding(ts.drop_first(), (k - 1) as nat),
    decreases k,
{
    if k == 1 {
        assert(transforms_encoding(ts.drop_first(), 0) == Seq::<u8>::empty());
        assert(transforms_encoding(ts, 0) == Seq::<u8>::empty());
        assert(transforms_encoding(ts, 1) =~= transform_encoding(ts[0], ts.len() == 1) + transforms_encoding(ts.drop_first(), 0));
    } else {
        lemma_transforms_encoding_front(ts, (k - 1) as nat);
        assert(ts.drop_first()[k - 2] == ts[k - 1]);
        assert(transforms_encoding(ts, k) =~= transform_encoding(ts[0], ts.len() == 1) + transforms_encoding(ts.drop_first(), (k - 1) as nat));
    }
}

/// A non-empty chain of transform encodings reads back as the transforms.
#[verifier::rlimit(80)]
pub proof fn lemma_chain_round_trip(ts: Seq<Transform>, rest: Seq<u8>)
    requires
        ts.len() >= 1,
    ensures
        transforms_decoding(transforms_encoding(ts, ts.len()) + rest) == Ok::<Seq<Transform>, ParserError>(ts),
    decreases ts.len(),
{
    let n = ts.len();
    let tail = ts.drop_first();
    lemma_transforms_encoding_front(ts, n);
    let first = transform_encoding(ts[0], n == 1);
    let others = transforms_encoding(tail, (n - 1) as nat) + rest;
    let s = transforms_encoding(ts, n) + rest;
    assert(s =~= first + others);
    lemma_transform_round_trip(ts[0], n == 1, others);
    generator_lemmas::lemma_transform_encoding_len(ts[0], n == 1);
    if n == 1 {
        assert(seq![ts[0]] =~= ts);
    } else {
        lemma_chain_round_trip(tail, rest);
        assert(s.subrange(first.len() as int, s.len() as int) =~= others);
        assert(seq![ts[0]] + tail =~= ts);
    }
}

/// `encryptions_of` distributes over concatenation.
pub proof fn lemma_encryptions_of_add(a: Seq<Transform>, b: Seq<Transform>)
    ensures
        encryptions_of(a + b) == encryptions_of(a) + encryptions_of(b),
    decreases b.len(),
{
    if b.len() == 0 {
        assert(a + b =~= a);
        assert(encryptions_of(a) + encryptions_of(b) =~= encryptions_of(a));
    } else {
        lemma_encryptions_of_add(a, b.drop_last());
        assert((a + b).drop_last() =~= a + b.drop_last());
        assert((a + b).last() == b.last());
        assert(encryptions_of(a + b) =~= encryptions_of(a) + encryptions_of(b));
    }
}

/// `encryptions_of` of a sequence without such transforms is empty.
pub proof fn lemma_encryptions_of_none(s: Seq<Transform>)
    requires
        forall|i: int| 0 <= i < s.len() ==> !(#[trigger] s[i] is Encryption),
    ensures
        encryptions_of(s) == Seq::<(EncryptionAlgorithm, Option<u16>)>::empty(),
    decreases s.len(),
{
    if s.len() > 0 {
        lemma_encryptions_of_none(s.drop_last());
    }
}

/// `encryptions_of` of the encryption_algorithms list, as transforms, is that list.
pub proof fn lemma_encryptions_of_own(v: Seq<(EncryptionAlgorithm, Option<u16>)>)
    ensures
        encryptions_of(v.map_values(|e: (EncryptionAlgorithm, Option<u16>)| Transform::Encryption(e.0, e.1))) == v,
    decreases v.len(),
{
    if v.len() > 0 {
        lemma_encryptions_of_own(v.drop_last());
        assert(v.map_values(|e: (EncryptionAlgorithm, Option<u16>)| Transform::Encryption(e.0, e.1)).drop_last() =~= v.drop_last().map_values(|e: (EncryptionAlgorithm, Option<u16>)| Transform::Encryption(e.0, e.1)));
    }
}

/// `prfs_of` distributes over concatenation.
pub proof fn lemma_prfs_of_add(a: Seq<Transform>, b: Seq<Transform>)
    ensures
        prfs_of(a + b) == prfs_of(a) + prfs_of(b),
    decreases b.len(),
{
    if b.len() == 0 {
        assert(a + b =~= a);
        assert(prfs_of(a) + prfs_of(b) =~= prfs_of(a));
    } else {
        lemma_prfs_of_add(a, b.drop_last());
        assert((a + b).drop_last() =~= a + b.drop_last());
        assert((a + b).last() == b.last());
        assert(prfs_of(a + b) =~= prfs_of(a) + prfs_of(b));
    }
}

/// `prfs_of` of a sequence without such transforms is empty.
pub proof fn lemma_prfs_of_none(s: Seq<Transform>)
    requires
        forall|i: int| 0 <= i < s.len() ==> !(#[trigger] s[i] is PseudoRandomFunction),
    ensures
        prfs_of(s) == Seq::<PseudorandomFunction>::empty(),
    decreases s.len(),
{
    if s.len() > 0 {
        lemma_prfs_of_none(s.drop_last());
    }
}

/// `prfs_of` of the pseudo_random_functions list, as transforms, is that list.
pub proof fn lemma_prfs_of_own(v: Seq<PseudorandomFunction>)
    ensures
        prfs_of(v.map_values(|p| Transform::PseudoRandomFunction(p))) == v,
    decreases v.len(),
{
    if v.len() > 0 {
        lemma_prfs_of_own(v.drop_last());
        assert(v.map_values(|p| Transform::PseudoRandomFunction(p)).drop_last() =~= v.drop_last().map_values(|p| Transform::PseudoRandomFunction(p)));
    }
}

/// `integrities_of` distributes over concatenation.
pub proof fn lemma_integrities_of_add(a: Seq<Transform>, b: Seq<Transform>)
    ensures
        integrities_of(a + b) == integrities_of(a) + integrities_of(b),
    decreases b.len(),
{
    if b.len() == 0 {
        assert(a + b =~= a);
        assert(integrities_of(a) + integrities_of(b) =~= integrities_of(a));
    } else {
        lemma_integrities_of_add(a, b.drop_last());
        assert((a + b).drop_last() =~= a + b.drop_last());
        assert((a + b).last() == b.last());
        assert(integrities_of(a + b) =~= integrities_of(a) + integrities_of(b));
    }
}

/// `integrities_of` of a sequence without such transforms is empty.
pub proof fn lemma_integrities_of_none(s: Seq<Transform>)
    requires
        forall|i: int| 0 <= i < s.len() ==> !(#[trigger] s[i] is Integrity),
    ensures
        integrities_of(s) == Seq::<IntegrityAlgorithm>::empty(),
    decreases s.len(),
{
    if s.len() > 0 {
        lemma_integrities_of_none(s.drop_last());
    }
}

/// `integrities_of` of the integrity_algorithms list, as transforms, is that list.
pub proof fn lemma_integrities_of_own(v: Seq<IntegrityAlgorithm>)
    ensures
        integrities_of(v.map_values(|i| Transform::Integrity(i))) == v,
    decreases v.len(),
{
    if v.len() > 0 {
        lemma_integrities_of_own(v.drop_last());
        assert(v.map_values(|i| Transform::Integrity(i)).drop_last() =~= v.drop_last().map_values(|i| Transform::Integrity(i)));
    }
}

/// `key_exchanges_of` distributes over concatenation.
pub proof fn lemma_key_exchanges_of_add(a: Seq<Transform>, b: Seq<Transform>)
    ensures
        key_exchanges_of(a + b) == key_exchanges_of(a) + key_exchanges_of(b),
    decreases b.len(),
{
    if b.len() == 0 {
        assert(a + b =~= a);
        assert(key_exchanges_of(a) + key_exchanges_of(b) =~= key_exchanges_of(a));
    } else {
        lemma_key_exchanges_of_add(a, b.drop_last());
        assert((a + b).drop_last() =~= a + b.drop_last());
        assert((a + b).last() == b.last());
        assert(key_exchanges_of(a + b) =~= key_exchanges_of(a) + key_exchanges_of(b));
    }
}

/// `key_exchanges_of` of a sequence without such transforms is empty.
pub proof fn lemma_key_exchanges_of_none(s: Seq<Transform>)
    requires
        forall|i: int| 0 <= i < s.len() ==> !(#[trigger] s[i] is KeyExchange),
    ensures
        key_exchanges_of(s) == Seq::<KeyExchangeMethod>::empty(),
    decreases s.len(),
{
    if s.len() > 0 {
        lemma_key_exchanges_of_none(s.drop_last());
    }
}

/// `key_exchanges_of` of the key_exchange_methods list, as transforms, is that list.
pub proof fn lemma_key_exchanges_of_own(v: Seq<KeyExchangeMethod>)
    ensures
        key_exchanges_of(v.map_values(|k| Transform::KeyExchange(k))) == v,
    decreases v.len(),
{
    if v.len() > 0 {
        lemma_key_exchanges_of_own(v.drop_last());
        assert(v.map_values(|k| Transform::KeyExchange(k)).drop_last() =~= v.drop_last().map_values(|k| Transform::KeyExchange(k)));
    }
}

/// `sequence_numbers_of` distributes over concatenation.
pub proof fn lemma_sequence_numbers_of_add(a: Seq<Transform>, b: Seq<Transform>)
    ensures
        sequence_numbers_of(a + b) == sequence_numbers_of(a) + sequence_numbers_of(b),
    decreases b.len(),
{
    if b.len() == 0 {
        assert(a + b =~= a);
        assert(sequence_numbers_of(a) + sequence_numbers_of(b) =~= sequence_numbers_of(a));
    } else {
        lemma_sequence_numbers_of_add(a, b.drop_last());
        assert((a + b).drop_last() =~= a + b.drop_last());
        assert((a + b).last() == b.last());
        assert(sequence_numbers_of(a + b) =~= sequence_numbers_of(a) + sequence_numbers_of(b));
    }
}

/// `sequence_numbers_of` of a sequence without such transforms is empty.
pub proof fn lemma_sequence_numbers_of_none(s: Seq<Transform>)
    requires
        forall|i: int| 0 <= i < s.len() ==> !(#[trigger] s[i] is SequenceNumber),
    ensures
        sequence_numbers_of(s) == Seq::<SequenceNumberType>::empty(),
    decreases s.len(),
{
    if s.len() > 0 {
        lemma_sequence_numbers_of_none(s.drop_last());
    }
}

/// `sequence_numbers_of` of the sequence_numbers list, as transforms, is that list.
pub proof fn lemma_sequence_numbers_of_own(v: Seq<SequenceNumberType>)
    ensures
        sequence_numbers_of(v.map_values(|s| Transform::SequenceNumber(s))) == v,
    decreases v.len(),
{
    if v.len() > 0 {
        lemma_sequence_numbers_of_own(v.drop_last());
        assert(v.map_values(|s| Transform::SequenceNumber(s)).drop_last() =~= v.drop_last().map_values(|s| Transform::SequenceNumber(s)));
    }
}

/// Splitting the transforms of a proposal by type gives back its five lists.
pub proof fn lemma_transforms_split(p: Proposal)
    ensures
        encryptions_of(p.spec_transforms()) == p.encryption_algorithms@,
        prfs_of(p.spec_transforms()) == p.pseudo_random_functions@,
        integrities_of(p.spec_transforms()) == p.integrity_algorithms@,
        key_exchanges_of(p.spec_transforms()) == p.key_exchange_methods@,
        sequence_numbers_of(p.spec_transforms()) == p.sequence_numbers@,
{
    let e = p.encryption_algorithms@.map_values(|e: (EncryptionAlgorithm, Option<u16>)| Transform::Encryption(e.0, e.1));
    let f = p.pseudo_random_functions@.map_values(|p| Transform::PseudoRandomFunction(p));
    let i = p.integrity_algorithms@.map_values(|i| Transform::Integrity(i));
    let k = p.key_exchange_methods@.map_values(|k| Transform::KeyExchange(k));
    let q = p.sequence_numbers@.map_values(|s| Transform::SequenceNumber(s));
    let l1 = e + f;
    let l2 = l1 + i;
    let l3 = l2 + k;
    assert(p.spec_transforms() == l3 + q);
    lemma_encryptions_of_add(l3, q);
    lemma_encryptions_of_add(l2, k);
    lemma_encryptions_of_add(l1, i);
    lemma_encryptions_of_add(e, f);
    lemma_encryptions_of_own(p.encryption_algorithms@);
    lemma_encryptions_of_none(f);
    lemma_encryptions_of_none(i);
    lemma_encryptions_of_none(k);
    lemma_encryptions_of_none(q);
    assert(encryptions_of(p.spec_transforms()) =~= p.encryption_algorithms@);
    lemma_prfs_of_add(l3, q);
    lemma_prfs_of_add(l2, k);
    lemma_prfs_of_add(l1, i);
    lemma_prfs_of_add(e, f);
    lemma_prfs_of_none(e);
    lemma_prfs_of_own(p.pseudo_random_functions@);
    lemma_prfs_of_none(i);
    lemma_prfs_of_none(k);
    lemma_prfs_of_none(q);
    assert(prfs_of(p.spec_transforms()) =~= p.pseudo_random_functions@);
    lemma_integrities_of_add(l3, q);
    lemma_integrities_of_add(l2, k);
    lemma_integrities_of_add(l1, i);
    lemma_integrities_of_add(e, f);
    lemma_integrities_of_none(e);
    lemma_integrities_of_none(f);
    lemma_integrities_of_own(p.integrity_algorithms@);
    lemma_integrities_of_none(k);
    lemma_integrities_of_none(q);
    assert(integrities_of(p.spec_transforms()) =~= p.integrity_algorithms@);
    lemma_key_exchanges_of_add(l3, q);
    lemma_key_exchanges_of_add(l2, k);
    lemma_key_exchanges_of_add(l1, i);
    lemma_key_exchanges_of_add(e, f);
    lemma_key_exchanges_of_none(e);
    lemma_key_exchanges_of_none(f);
    lemma_key_exchanges_of_none(i);
    lemma_key_exchanges_of_own(p.key_exchange_methods@);
    lemma_key_exchanges_of_none(q);
    assert(key_exchanges_of(p.spec_transforms()) =~= p.key_exchange_methods@);
    lemma_sequence_numbers_of_add(l3, q);
    lemma_sequence_numbers_of_add(l2, k);
    lemma_sequence_numbers_of_add(l1, i);
    lemma_sequence_numbers_of_add(e, f);
    lemma_sequence_numbers_of_none(e);
    lemma_sequence_numbers_of_none(f);
    lemma_sequence_numbers_of_none(i);
    lemma_sequence_numbers_of_none(k);
    lemma_sequence_numbers_of_own(p.sequence_numbers@);
    assert(sequence_numbers_of(p.spec_transforms()) =~= p.sequence_numbers@);
}

/// Parsing the encoding of a proposal, whatever follows it, gives back its protocol,
/// its SPI and its transform lists.
pub proof fn lemma_proposal_round_trip(p: Proposal, num: u8, last: bool, rest: Seq<u8>)
    requires
        proposal_encoding(p, num, last) is Ok,
    ensures
        proposal_decoding(proposal_encoding(p, num, last)->Ok_0 + rest) matches Ok((protocol, spi, ts))
            && protocol == p.protocol && spi == p.spi@ && ts == p.spec_transforms()
            && encryptions_of(ts) == p.encryption_algorithms@
            && prfs_of(ts) == p.pseudo_random_functions@ && integrities_of(ts) == p.integrity_algorithms@
            && key_exchanges_of(ts) == p.key_exchange_methods@ && sequence_numbers_of(ts) == p.sequence_numbers@,
{
    let ts = p.spec_transforms();
    let n = ts.len();
    let body = transforms_encoding(ts, n);
    let enc = proposal_encoding(p, num, last)->Ok_0;
    let s = enc + rest;
    let spi = p.spi@;
    generator_lemmas::lemma_transforms_encoding_len(ts, n);
    let len = (8 + spi.len() + body.len()) as u16;
    lemma_u16_round_trip(len);
    assert(u16_at(s, 2) == u16_at(u16_bytes(len), 0));
    assert(s[6] == spi.len() as u8);
    assert(s[5] == p.protocol.spec_value());
    SecurityProtocol::lemma_value_round_trip(p.protocol);
    assert(s.subrange(8, 8 + s[6]) =~= spi);
    assert(s.subrange(8 + s[6], u16_at(s, 2) as int) =~= body);
    lemma_transforms_split(p);
    if n > 0 {
        lemma_chain_round_trip(ts, Seq::empty());
        assert(body + Seq::<u8>::empty() =~= body);
    } else {
        assert(body.len() == 0);
    }
}

/// The encoding of proposal `i` of `ps` as the security association numbers it.
pub open spec fn encoding_at(ps: Seq<Proposal>, i: int) -> Result<Seq<u8>, GeneratorError> {
    proposal_encoding(ps[i], (i + 1) as u8, i + 1 == ps.len())
}

/// The encodings of proposals `a..b` of `ps`, each numbered by its position from 1.
pub open spec fn proposal_range(ps: Seq<Proposal>, a: int, b: int) -> Seq<u8>
    decreases b - a,
{
    if b <= a {
        Seq::empty()
    } else {
        proposal_encoding(ps[a], (a + 1) as u8, a + 1 == ps.len())->Ok_0 + proposal_range(ps, a + 1, b)
    }
}

/// A range of proposal encodings grows at its end.
pub proof fn lemma_proposal_range_push(ps: Seq<Proposal>, a: int, b: int)
    requires
        a <= b,
    ensures
        proposal_range(ps, a, b + 1) == proposal_range(ps, a, b) + proposal_encoding(ps[b], (b + 1) as u8, b + 1 == ps.len())->Ok_0,
    decreases b - a,
{
    if a < b {
        lemma_proposal_range_push(ps, a + 1, b);
        assert(proposal_range(ps, a, b + 1) =~= proposal_range(ps, a, b) + proposal_encoding(ps[b], (b + 1) as u8, b + 1 == ps.len())->Ok_0);
    } else {
        assert(proposal_range(ps, a + 1, b + 1) == Seq::<u8>::empty());
        assert(proposal_range(ps, a, b) == Seq::<u8>::empty());
        assert(proposal_range(ps, a, b + 1) =~= proposal_range(ps, a, b) + proposal_encoding(ps[b], (b + 1) as u8, b + 1 == ps.len())->Ok_0);
    }
}

/// When the first `k` proposals encode, each of them does, and together they are the
/// range of their encodings.
pub proof fn lemma_proposals_encoding_range(ps: Seq<Proposal>, k: nat)
    requires
        k <= ps.len(),
        proposals_encoding(ps, k) is Ok,
    ensures
        proposals_encoding(ps, k)->Ok_0 == proposal_range(ps, 0, k as int),
        forall|i: int| 0 <= i < k ==> (#[trigger] encoding_at(ps, i)) is Ok,
    decreases k,
{
    if k > 0 {
        lemma_proposals_encoding_range(ps, (k - 1) as nat);
        lemma_proposal_range_push(ps, 0, k - 1);
    }
}

/// Proposals `i..` of a chain of encodings read back as those proposals.
#[verifier::rlimit(80)]
pub proof fn lemma_proposals_round_trip(ps: Seq<Proposal>, i: int, rest: Seq<u8>)
    requires
        0 <= i < ps.len() < 255,
        forall|j: int| 0 <= j < ps.len() ==> (#[trigger] encoding_at(ps, j)) is Ok,
    ensures
        proposals_decoding(proposal_range(ps, i, ps.len() as int) + rest, i as u8, i == 0) matches Ok(ds)
            && ds.len() == ps.len() - i
            && forall|j: int| 0 <= j < ds.len() ==> #[trigger] ds[j] == (ps[i + j].protocol, ps[i + j].spi@, ps[i + j].spec_transforms()),
    decreases ps.len() - i,
{
    let n = ps.len() as int;
    let p = ps[i];
    let last = i + 1 == n;
    assert(encoding_at(ps, i) is Ok);
    let enc = proposal_encoding(p, (i + 1) as u8, last)->Ok_0;
    let others = proposal_range(ps, i + 1, n) + rest;
    let s = proposal_range(ps, i, n) + rest;
    assert(s =~= enc + others);
    lemma_proposal_round_trip(p, (i + 1) as u8, last, others);
    let ts = p.spec_transforms();
    generator_lemmas::lemma_transforms_encoding_len(ts, ts.len());
    let body = transforms_encoding(ts, ts.len());
    let len = (8 + p.spi@.len() + body.len()) as u16;
    lemma_u16_round_trip(len);
    assert(u16_at(s, 2) == u16_at(u16_bytes(len), 0));
    assert(enc.len() == len);
    assert(s[4] == (i + 1) as u8);
    assert(s[0] == if last { 0u8 } else { 2u8 });
    let d = (p.protocol, p.spi@, ts);
    if last {
        let ds = seq![d];
        assert(proposals_decoding(s, i as u8, i == 0) == Ok::<Seq<DecodedProposal>, ParserError>(ds));
    } else {
        lemma_proposals_round_trip(ps, i + 1, rest);
        assert(s.subrange(enc.len() as int, s.len() as int) =~= others);
        let rds = proposals_decoding(others, (i + 1) as u8, false)->Ok_0;
        let ds = seq![d] + rds;
        assert forall|j: int| 0 <= j < ds.len() implies #[trigger] ds[j] == (ps[i + j].protocol, ps[i + j].spi@, ps[i + j].spec_transforms()) by {
            if j > 0 {
                assert(ds[j] == rds[j - 1]);
                assert(i + 1 + (j - 1) == i + j);
            }
        }
    }
}

/// Parsing the body of an encoded security association gives back each of its
/// proposals in order: protocol, SPI and transform lists.
pub proof fn lemma_security_association_round_trip(sa: SecurityAssociation, next: PayloadType)
    requires
        security_association_encoding(sa, next) is Ok,
    ensures
        ({
            let bytes = security_association_encoding(sa, next)->Ok_0;
            security_association_decoding(bytes.subrange(4, bytes.len() as int)) matches Ok(ds)
                && proposals_match(sa.proposals@, ds)
        }),
{
    let ps = sa.proposals@;
    let n = ps.len();
    let bytes = security_association_encoding(sa, next)->Ok_0;
    let body = proposals_encoding(ps, n)->Ok_0;
    lemma_proposals_encoding_range(ps, n);
    assert(bytes.subrange(4, bytes.len() as int) =~= body);
    if n > 0 {
        lemma_proposals_round_trip(ps, 0, Seq::empty());
        assert(proposal_range(ps, 0, n as int) + Seq::<u8>::empty() =~= body);
        let ds = proposals_decoding(body, 0, true)->Ok_0;
        assert forall|i: int| 0 <= i < ps.len() implies proposal_matches(#[trigger] ps[i], ds[i].0, ds[i].1, ds[i].2) by {
            assert(ds[i] == (ps[0 + i].protocol, ps[0 + i].spi@, ps[0 + i].spec_transforms()));
            lemma_transforms_split(ps[i]);
        }
    }
}


/// The payloads of a message that the encoding and the parser agree on: a notification
/// with an SPI names a protocol other than none and IKE and has a non-empty SPI, one
/// without an SPI names none; an encrypted payload comes last.
pub open spec fn payload_well_formed(ps: Seq<Payload>, i: int) -> bool {
    &&& match ps[i] {
        Payload::Notify(n) => match n.spi {
            Some(s) => s@.len() > 0 && n.protocol != SecurityProtocol::Reserved && n.protocol != SecurityProtocol::InternetKeyExchange,
            None => n.protocol == SecurityProtocol::Reserved,
        },
        Payload::EncryptedAndAuthenticated(_) => i == ps.len() - 1,
        _ => true,
    }
}

/// The body of an encoded notification reads back as it.
#[verifier::rlimit(60)]
pub proof fn lemma_notify_body_round_trip(n: Notification, next: PayloadType)
    requires
        notification_encoding(n, next) is Ok,
        match n.spi {
            Some(s) => s@.len() > 0 && n.protocol != SecurityProtocol::Reserved && n.protocol != SecurityProtocol::InternetKeyExchange,
            None => n.protocol == SecurityProtocol::Reserved,
        },
    ensures
        ({
            let enc = notification_encoding(n, next)->Ok_0;
            let data = enc.subrange(4, enc.len() as int);
            &&& notification_error(data) is None
            &&& payload_matches(Payload::Notify(n), PayloadType::Notify, data)
        }),
{
    let enc = notification_encoding(n, next)->Ok_0;
    let data = enc.subrange(4, enc.len() as int);
    let spi = notification_spi(n);
    lemma_u16_round_trip(n.variant.spec_value());
    SecurityProtocol::lemma_value_round_trip(n.protocol);
    SecurityProtocol::lemma_value_round_trip(SecurityProtocol::Reserved);
    SecurityProtocol::lemma_value_round_trip(SecurityProtocol::InternetKeyExchange);
    match n.variant {
        NotificationType::Error(e) => NotifyErrorMessage::lemma_value_round_trip(e),
        NotificationType::Status(st) => NotifyStatusMessage::lemma_value_round_trip(st),
    }
    assert(data[0] == if n.spi is None { 0u8 } else { n.protocol.spec_value() });
    assert(data[1] == spi.len());
    assert(data.subrange(2, 4) =~= u16_bytes(n.variant.spec_value()));
    assert(u16_at(data, 2) == u16_at(u16_bytes(n.variant.spec_value()), 0));
    assert(data.subrange(4, 4 + data[1]) =~= spi);
    assert(data.subrange(4 + data[1], data.len() as int) =~= n.data@);
}

/// The body of an encoded key exchange or delete payload reads back as it.
#[verifier::rlimit(60)]
pub proof fn lemma_fixed_body_round_trip(p: Payload, next: PayloadType)
    requires
        payload_encoding(p, next) is Ok,
        p is KeyExchange || p is Delete,
    ensures
        ({
            let enc = payload_encoding(p, next)->Ok_0;
            let data = enc.subrange(4, enc.len() as int);
            &&& payload_error(p.spec_payload_type(), data) is None
            &&& payload_matches(p, p.spec_payload_type(), data)
        }),
{
    let enc = payload_encoding(p, next)->Ok_0;
    let data = enc.subrange(4, enc.len() as int);
    match p {
        Payload::KeyExchange(k) => {
            lemma_u16_round_trip(k.dh_group.spec_value());
            KeyExchangeMethod::lemma_value_round_trip(k.dh_group);
            assert(data.subrange(0, 2) =~= u16_bytes(k.dh_group.spec_value()));
            assert(u16_at(data, 0) == u16_at(u16_bytes(k.dh_group.spec_value()), 0));
            assert(data.subrange(4, data.len() as int) =~= k.data@);
        },
        Payload::Delete(d) => {
            lemma_u16_round_trip(d.num_spis);
            SecurityProtocol::lemma_value_round_trip(d.protocol);
            assert(data.subrange(2, 4) =~= u16_bytes(d.num_spis));
            assert(u16_at(data, 2) == u16_at(u16_bytes(d.num_spis), 0));
            assert(data.subrange(4, data.len() as int) =~= d.spis@);
        },
        _ => {},
    }
}

/// One encoded payload reads back as a generic payload whose data it matches.
#[verifier::rlimit(60)]
pub proof fn lemma_payload_round_trip(ps: Seq<Payload>, i: int, next: PayloadType, rest: Seq<u8>)
    requires
        0 <= i < ps.len(),
        payload_encoding(ps[i], next) is Ok,
        payload_well_formed(ps, i),
    ensures
        ({
            let enc = payload_encoding(ps[i], next)->Ok_0;
            &&& enc.len() >= 4
            &&& generic_decoding(enc + rest) == Ok::<(Seq<u8>, int, PayloadType), ParserError>((enc.subrange(4, enc.len() as int), enc.len() as int, next))
            &&& payload_matches(ps[i], ps[i].spec_payload_type(), enc.subrange(4, enc.len() as int))
            &&& payload_error(ps[i].spec_payload_type(), enc.subrange(4, enc.len() as int)) is None
        }),
{
    let p = ps[i];
    let enc = payload_encoding(p, next)->Ok_0;
    let s = enc + rest;
    let data = enc.subrange(4, enc.len() as int);
    PayloadType::lemma_value_round_trip(next);
    lemma_u16_round_trip(enc.len() as u16);
    assert(s[0] == next.spec_value());
    assert(u16_at(s, 2) == u16_at(u16_bytes(enc.len() as u16), 0));
    assert(s.subrange(4, enc.len() as int) =~= data);
    match p {
        Payload::SecurityAssociation(sa) => lemma_security_association_round_trip(sa, next),
        Payload::KeyExchange(_) => lemma_fixed_body_round_trip(p, next),
        Payload::Delete(_) => lemma_fixed_body_round_trip(p, next),
        Payload::Notify(n) => lemma_notify_body_round_trip(n, next),
        Payload::Nonce(v) => assert(data =~= v@),
        Payload::VendorID(v) => assert(data =~= v@),
        Payload::EncryptedAndAuthenticated(v) => assert(data =~= v@),
    }
}

/// The encoding of payload `i` of `ps`, announcing the type of the one after it.
pub open spec fn payload_enc_at(ps: Seq<Payload>, i: int) -> Result<Seq<u8>, GeneratorError> {
    payload_encoding(ps[i], payload_type_at(ps, i + 1))
}

/// The encodings of payloads `a..b` of `ps`.
pub open spec fn payload_range(ps: Seq<Payload>, a: int, b: int) -> Seq<u8>
    decreases b - a,
{
    if b <= a {
        Seq::empty()
    } else {
        payload_enc_at(ps, a)->Ok_0 + payload_range(ps, a + 1, b)
    }
}

/// A range of payload encodings grows at its end.
pub proof fn lemma_payload_range_push(ps: Seq<Payload>, a: int, b: int)
    requires
        a <= b,
    ensures
        payload_range(ps, a, b + 1) == payload_range(ps, a, b) + payload_enc_at(ps, b)->Ok_0,
    decreases b - a,
{
    if a < b {
        lemma_payload_range_push(ps, a + 1, b);
        assert(payload_range(ps, a, b + 1) =~= payload_range(ps, a, b) + payload_enc_at(ps, b)->Ok_0);
    } else {
        assert(payload_range(ps, a + 1, b + 1) == Seq::<u8>::empty());
        assert(payload_range(ps, a, b) == Seq::<u8>::empty());
        assert(payload_range(ps, a, b + 1) =~= payload_range(ps, a, b) + payload_enc_at(ps, b)->Ok_0);
    }
}

/// When the first `k` payloads encode, each of them does, and together they are the
/// range of their encodings.
pub proof fn lemma_payloads_encoding_range(ps: Seq<Payload>, k: nat)
    requires
        k <= ps.len(),
        payloads_encoding(ps, k) is Ok,
    ensures
        payloads_encoding(ps, k)->Ok_0 == payload_range(ps, 0, k as int),
        forall|i: int| 0 <= i < k ==> (#[trigger] payload_enc_at(ps, i)) is Ok,
    decreases k,
{
    if k > 0 {
        lemma_payloads_encoding_range(ps, (k - 1) as nat);
        lemma_payload_range_push(ps, 0, k - 1);
    }
}

/// Payloads `i..` of an encoded chain read back as items that they match.
#[verifier::rlimit(60)]
pub proof fn lemma_payload_chain_round_trip(ps: Seq<Payload>, i: int, rest: Seq<u8>)
    requires
        0 <= i <= ps.len(),
        forall|j: int| 0 <= j < ps.len() ==> (#[trigger] payload_enc_at(ps, j)) is Ok,
        forall|j: int| 0 <= j < ps.len() ==> #[trigger] payload_well_formed(ps, j),
    ensures
        payload_chain(payload_range(ps, i, ps.len() as int) + rest, payload_type_at(ps, i)) is Ok,
        payloads_match(ps.subrange(i, ps.len() as int), payload_chain(payload_range(ps, i, ps.len() as int) + rest, payload_type_at(ps, i))->Ok_0),
    decreases ps.len() - i,
{
    let n = ps.len() as int;
    if i == n {
        assert(payload_chain(payload_range(ps, i, n) + rest, payload_type_at(ps, i)) == Ok::<Seq<(PayloadType, Seq<u8>)>, ParserError>(Seq::empty()));
        assert(ps.subrange(i, n) =~= Seq::<Payload>::empty());
    } else {
        let kind = payload_type_at(ps, i);
        let next = payload_type_at(ps, i + 1);
        assert(payload_enc_at(ps, i) is Ok);
        assert(payload_well_formed(ps, i));
        let enc = payload_enc_at(ps, i)->Ok_0;
        let others = payload_range(ps, i + 1, n) + rest;
        let s = payload_range(ps, i, n) + rest;
        assert(s =~= enc + others);
        lemma_payload_round_trip(ps, i, next, others);
        lemma_payload_chain_round_trip(ps, i + 1, rest);
        assert(s.subrange(enc.len() as int, s.len() as int) =~= others);
        let data = enc.subrange(4, enc.len() as int);
        let tail = payload_chain(others, next)->Ok_0;
        if kind == PayloadType::EncryptedAndAuthenticated {
            assert(i == n - 1);
            assert(next == PayloadType::NoNextPayload);
        }
        let items = seq![(kind, data)] + tail;
        assert(payload_chain(s, kind) == Ok::<Seq<(PayloadType, Seq<u8>)>, ParserError>(items));
        let sub = ps.subrange(i, n);
        assert forall|j: int| 0 <= j < sub.len() implies payload_matches(#[trigger] sub[j], items[j].0, items[j].1) by {
            if j > 0 {
                assert(sub[j] == ps.subrange(i + 1, n)[j - 1]);
                assert(items[j] == tail[j - 1]);
            }
        }
    }
}

/// The 64-bit value of the bytes of `x` is `x`.
pub proof fn lemma_u64_round_trip(x: u64)
    ensures
        u64_at(u64_bytes(x), 0) == x,
{
    let hi = (x / 0x1_0000_0000) as u32;
    let lo = (x % 0x1_0000_0000) as u32;
    let b = u64_bytes(x);
    crate::v1::generator::lemma_u32_bytes_roundtrip(hi);
    crate::v1::generator::lemma_u32_bytes_roundtrip(lo);
    assert(b.subrange(0, 4) =~= u32_bytes(hi));
    assert(b.subrange(4, 8) =~= u32_bytes(lo));
    assert(u32_at(b, 0) == u32_at(u32_bytes(hi), 0));
    assert(u32_at(b, 4) == u32_at(u32_bytes(lo), 0));
}

/// The header of an encoded message reads back.
#[verifier::rlimit(60)]
pub proof fn lemma_ikev2_header_round_trip(m: IKEv2, len: nat, body: Seq<u8>)
    ensures
        ({
            let b = ikev2_header(m, len) + body;
            &&& b.len() >= 28
            &&& b[16] == payload_type_at(m.payloads@, 0).spec_value()
            &&& b[17] == IKE_2_VERSION_VALUE
            &&& u64_at(b, 0) == m.initiator_cookie
            &&& u64_at(b, 8) == m.responder_cookie
            &&& b[18] == m.exchange_type.spec_value()
            &&& (b[19] & FLAG_INITIATOR == FLAG_INITIATOR) == m.initiator
            &&& (b[19] & FLAG_RESPONSE == FLAG_RESPONSE) == m.response
            &&& u32_at(b, 20) == m.message_id
            &&& b.subrange(28, b.len() as int) == body
        }),
{
    let b = ikev2_header(m, len) + body;
    lemma_u64_round_trip(m.initiator_cookie);
    lemma_u64_round_trip(m.responder_cookie);
    crate::v1::generator::lemma_u32_bytes_roundtrip(m.message_id);
    assert(b.subrange(0, 8) =~= u64_bytes(m.initiator_cookie));
    assert(b.subrange(8, 16) =~= u64_bytes(m.responder_cookie));
    assert(b.subrange(20, 24) =~= u32_bytes(m.message_id));
    assert(u64_at(b, 0) == u64_at(u64_bytes(m.initiator_cookie), 0));
    assert(u64_at(b, 8) == u64_at(u64_bytes(m.responder_cookie), 0));
    assert(u32_at(b, 20) == u32_at(u32_bytes(m.message_id), 0));
    assert(b[19] == header_flags(m.initiator, m.response));
    assert(0u8 & 8u8 == 0u8 && 0u8 & 32u8 == 0u8) by (bit_vector);
    assert(8u8 & 8u8 == 8u8 && 8u8 & 32u8 == 0u8) by (bit_vector);
    assert(32u8 & 8u8 == 0u8 && 32u8 & 32u8 == 32u8) by (bit_vector);
    assert(40u8 & 8u8 == 8u8 && 40u8 & 32u8 == 32u8) by (bit_vector);
    assert(b.subrange(28, b.len() as int) =~= body);
}

/// The payload chain of an encoded message holds data that each of its payloads matches.
#[verifier::rlimit(60)]
pub proof fn lemma_ikev2_chain_round_trip(m: IKEv2, b: Seq<u8>)
    requires
        m.payloads@.len() < 255,
        payloads_encoding(m.payloads@, m.payloads@.len()) is Ok,
        forall|i: int| 0 <= i < m.payloads@.len() ==> #[trigger] payload_well_formed(m.payloads@, i),
        b.len() >= 28,
        b[16] == payload_type_at(m.payloads@, 0).spec_value(),
        b.subrange(28, b.len() as int) == payloads_encoding(m.payloads@, m.payloads@.len())->Ok_0,
    ensures
        PayloadType::spec_from_value(b[16]) is Some,
        message_chain(b) is Ok,
        payloads_match(m.payloads@, message_chain(b)->Ok_0),
{
    let ps = m.payloads@;
    let n = ps.len();
    let body = payloads_encoding(ps, n)->Ok_0;
    lemma_payloads_encoding_range(ps, n);
    lemma_payload_chain_round_trip(ps, 0, Seq::empty());
    assert(payload_range(ps, 0, n as int) + Seq::<u8>::empty() =~= body);
    assert(ps.subrange(0, n as int) =~= ps);
    PayloadType::lemma_value_round_trip(payload_type_at(ps, 0));
}

/// The header fields and the payloads of an encoded message read back: the message is
/// one that `IKEv2::try_parse` accepts, and its payload chain holds data that each
/// payload of the message matches.
pub proof fn lemma_ikev2_round_trip(m: IKEv2)
    requires
        ikev2_encoding(m) is Ok,
        forall|i: int| 0 <= i < m.payloads@.len() ==> #[trigger] payload_well_formed(m.payloads@, i),
    ensures
        ({
            let b = ikev2_encoding(m)->Ok_0;
            &&& b.len() >= 28
            &&& b[17] == IKE_2_VERSION_VALUE
            &&& u64_at(b, 0) == m.initiator_cookie
            &&& u64_at(b, 8) == m.responder_cookie
            &&& b[18] == m.exchange_type.spec_value()
            &&& (b[19] & FLAG_INITIATOR == FLAG_INITIATOR) == m.initiator
            &&& (b[19] & FLAG_RESPONSE == FLAG_RESPONSE) == m.response
            &&& u32_at(b, 20) == m.message_id
            &&& PayloadType::spec_from_value(b[16]) is Some
            &&& message_chain(b) is Ok
            &&& payloads_match(m.payloads@, message_chain(b)->Ok_0)
            &&& message_error(b) is None
        }),
{
    ExchangeType::lemma_value_round_trip(m.exchange_type);
    PayloadType::lemma_value_round_trip(payload_type_at(m.payloads@, 0));
    let body = payloads_encoding(m.payloads@, m.payloads@.len())->Ok_0;
    let b = ikev2_encoding(m)->Ok_0;
    assert(b == ikev2_header(m, 28 + body.len()) + body);
    lemma_ikev2_header_round_trip(m, 28 + body.len(), body);
    lemma_ikev2_chain_round_trip(m, b);
}

} // verus!
