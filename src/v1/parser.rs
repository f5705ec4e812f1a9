//! Parser of ISAKMP (IKEv1) messages.
use vstd::prelude::*;

use crate::v1::definitions::{
    DataAttribute, DataAttributeLong, DataAttributeShort, Header, NotificationPayload, Packet,
    ProposalPayload, SecurityAssociationPayload, TransformPayload, VendorIDPayload, HEADER_SIZE,
};
use crate::v1::params::{AttributeType, DomainOfInterpretation, ExchangeType, NotifyMessageType, PayloadType};
use crate::wire::{copy_range, read_u16, read_u32, read_u64, u16_at, u32_at, u64_at};

verus! {

/// Why bytes are not a valid ISAKMP message.
#[derive(Debug, Clone, Copy, PartialEq, Eq, Structural)]
pub enum IsakmpParseError {
    /// The input ends before a structure that it declares
    BufferTooSmall,
    /// A protocol invariant is violated (reserved byte, count, length or exchange mode)
    UnexpectedPayload,
    /// An identifier names no known value
    UnparsableVariant,
    /// The message is informational
    Informational,
}

/// All payload types that a message may carry, parsed.
#[derive(Debug, Clone, PartialEq, Eq)]
pub enum Payload {
    /// Notification payload
    Notification(NotificationPayload),
    /// Security association payload
    SecurityAssociation(SecurityAssociationPayload),
    /// Vendor ID payload
    VendorID(VendorIDPayload),
    /// Proposal payload
    Proposal(ProposalPayload),
    /// Transform payload
    Transform(TransformPayload),
    /// A payload of a type that is not modelled; only its header was checked
    Skipped(PayloadType),
}

/// A parsed payload with the bytes it occupies and the type of the one after it.
#[derive(Debug, Clone, PartialEq, Eq)]
pub struct GenericPayload {
    /// Bytes that the payload occupies (its declared length)
    pub payload_size: usize,
    /// Type of the next payload
    pub next_payload_type: PayloadType,
    /// The payload itself
    pub payload: Payload,
}

/// The declared length of the payload at the start of `s` with a fixed part of `fixed`
/// bytes, or why its generic header is not acceptable.
pub open spec fn generic_header_len(s: Seq<u8>, fixed: int) -> Result<int, IsakmpParseError> {
    if s.len() < fixed {
        Err(IsakmpParseError::BufferTooSmall)
    } else if s[1] != 0 {
        Err(IsakmpParseError::UnexpectedPayload)
    } else if u16_at(s, 2) > s.len() {
        Err(IsakmpParseError::BufferTooSmall)
    } else if u16_at(s, 2) < fixed {
        Err(IsakmpParseError::UnexpectedPayload)
    } else if !PayloadType::spec_known(s[0]) {
        Err(IsakmpParseError::UnparsableVariant)
    } else {
        Ok(u16_at(s, 2) as int)
    }
}

/// Checks shared by all payloads: generic header present and reserved byte zero,
/// declared length between `fixed` and the input length, next payload type known.
/// Returns the declared length and the next payload type.
fn parse_generic_header(buf: &[u8], fixed: usize) -> (r: Result<(usize, PayloadType), IsakmpParseError>)
    requires
        4 <= fixed,
    ensures
        buf@.len() < fixed ==> r == Err::<(usize, PayloadType), IsakmpParseError>(IsakmpParseError::BufferTooSmall),
        buf@.len() >= fixed && buf@[1] != 0 ==> r == Err::<(usize, PayloadType), IsakmpParseError>(IsakmpParseError::UnexpectedPayload),
        buf@.len() >= fixed && buf@[1] == 0 && u16_at(buf@, 2) > buf@.len()
            ==> r == Err::<(usize, PayloadType), IsakmpParseError>(IsakmpParseError::BufferTooSmall),
        match r {
            Ok((len, next)) => {
                &&& buf@[1] == 0
                &&& len == u16_at(buf@, 2)
                &&& fixed <= len <= buf@.len()
                &&& next.spec_value() == buf@[0]
                &&& generic_header_len(buf@, fixed as int) == Ok::<int, IsakmpParseError>(len as int)
            },
            Err(e) => generic_header_len(buf@, fixed as int) == Err::<int, IsakmpParseError>(e),
        },
{
    if buf.len() < fixed {
        return Err(IsakmpParseError::BufferTooSmall);
    }
    if buf[1] != 0 {
        return Err(IsakmpParseError::UnexpectedPayload);
    }
    let len = read_u16(buf, 2) as usize;
    if len > buf.len() {
        return Err(IsakmpParseError::BufferTooSmall);
    }
    if len < fixed {
        return Err(IsakmpParseError::UnexpectedPayload);
    }
    match PayloadType::try_from(buf[0]) {
        Ok(next) => Ok((len, next)),
        Err(_) => Err(IsakmpParseError::UnparsableVariant),
    }
}

/// Parse the 28-byte header at the start of `buf`; its major version must be 1 (the minor
/// version is only reported).
pub fn parse_header(buf: &[u8]) -> (r: Result<Header, IsakmpParseError>)
    ensures
        buf@.len() < 28 ==> r == Err::<Header, IsakmpParseError>(IsakmpParseError::BufferTooSmall),
        buf@.len() >= 28 ==> (r is Ok <==> buf@[17] / 16 == 1 && ExchangeType::spec_known(buf@[18])
            && PayloadType::spec_known(buf@[16])),
        buf@.len() >= 28 && buf@[17] / 16 != 1 ==> r == Err::<Header, IsakmpParseError>(IsakmpParseError::UnexpectedPayload),
        buf@.len() >= 28 && buf@[17] / 16 == 1 && r is Err ==> r == Err::<Header, IsakmpParseError>(IsakmpParseError::UnparsableVariant),
        match r {
            Ok(h) => {
                &&& h.initiator_cookie == u64_at(buf@, 0)
                &&& h.responder_cookie == u64_at(buf@, 8)
                &&& h.next_payload.spec_value() == buf@[16]
                &&& h.major_version == buf@[17] / 16
                &&& h.minor_version == buf@[17] % 16
                &&& h.exchange_mode.spec_value() == buf@[18]
                &&& h.flags == buf@[19]
                &&& h.message_id == u32_at(buf@, 20)
                &&& h.length == u32_at(buf@, 24)
            },
            Err(_) => true,
        },
{
    if buf.len() < HEADER_SIZE {
        return Err(IsakmpParseError::BufferTooSmall);
    }
    if buf[17] / 16 != 1 {
        return Err(IsakmpParseError::UnexpectedPayload);
    }
    let exchange_mode = match ExchangeType::try_from(buf[18]) {
        Ok(e) => e,
        Err(_) => return Err(IsakmpParseError::UnparsableVariant),
    };
    let next_payload = match PayloadType::try_from(buf[16]) {
        Ok(p) => p,
        Err(_) => return Err(IsakmpParseError::UnparsableVariant),
    };
    Ok(Header {
        initiator_cookie: read_u64(buf, 0),
        responder_cookie: read_u64(buf, 8),
        next_payload,
        major_version: buf[17] / 16,
        minor_version: buf[17] % 16,
        exchange_mode,
        flags: buf[19],
        message_id: read_u32(buf, 20),
        length: read_u32(buf, 24),
    })
}

/// The bytes that the data attribute at the start of `s` occupies, or why it cannot be read.
pub open spec fn attribute_len(s: Seq<u8>) -> Result<int, IsakmpParseError> {
    if s.len() < 4 {
        Err(IsakmpParseError::BufferTooSmall)
    } else if s[0] >= 0x80 {
        if AttributeType::spec_known((u16_at(s, 0) - 0x8000) as u16) {
            Ok(4)
        } else {
            Err(IsakmpParseError::UnparsableVariant)
        }
    } else if 4 + u16_at(s, 2) > s.len() {
        Err(IsakmpParseError::BufferTooSmall)
    } else if AttributeType::spec_known(u16_at(s, 0)) {
        Ok(4 + u16_at(s, 2))
    } else {
        Err(IsakmpParseError::UnparsableVariant)
    }
}

/// `a` is the data attribute at the start of `s`.
pub open spec fn attribute_matches(a: DataAttribute, s: Seq<u8>) -> bool {
    match a {
        DataAttribute::DataAttributeShort(x) => {
            &&& s.len() >= 4
            &&& s[0] >= 0x80
            &&& x.attribute_type.spec_value() == u16_at(s, 0) - 0x8000
            &&& x.attribute_value == u16_at(s, 2)
        },
        DataAttribute::DataAttributeLong(l) => {
            &&& s.len() >= 4
            &&& s[0] < 0x80
            &&& l.attribute_type.spec_value() == u16_at(s, 0)
            &&& 4 + u16_at(s, 2) <= s.len()
            &&& l.attribute_value@ == s.subrange(4, 4 + u16_at(s, 2))
        },
    }
}

/// The offsets of the data attributes that fill `s` from `pos` on.
pub open spec fn attribute_chain(s: Seq<u8>, pos: int) -> Result<Seq<int>, IsakmpParseError>
    decreases s.len() - pos,
{
    if pos < 0 || pos >= s.len() {
        Ok(Seq::empty())
    } else {
        match attribute_len(s.subrange(pos, s.len() as int)) {
            Err(e) => Err(e),
            Ok(n) => if n >= 4 {
                match attribute_chain(s, pos + n) {
                    Err(e) => Err(e),
                    Ok(os) => Ok(seq![pos] + os),
                }
            } else {
                Err(IsakmpParseError::BufferTooSmall)
            },
        }
    }
}

/// Offsets found so far, followed by the rest of the chain.
pub open spec fn offsets_after(kept: Seq<int>, rest: Result<Seq<int>, IsakmpParseError>) -> Result<Seq<int>, IsakmpParseError> {
    match rest {
        Ok(r) => Ok(kept + r),
        Err(e) => Err(e),
    }
}

/// `a` is the data attribute at offset `o` of `s`.
pub open spec fn attribute_at(a: DataAttribute, s: Seq<u8>, o: int) -> bool {
    0 <= o <= s.len() && attribute_matches(a, s.subrange(o, s.len() as int))
}

/// The attributes `attrs` are those at offsets `os` of `s`.
pub open spec fn attributes_match(attrs: Seq<DataAttribute>, s: Seq<u8>, os: Seq<int>) -> bool {
    &&& attrs.len() == os.len()
    &&& forall|i: int| 0 <= i < attrs.len() ==> #[trigger] attribute_at(attrs[i], s, os[i])
}

/// Parse the data attribute at the start of `buf`; also returns the bytes it occupies.
/// The top bit of the first byte selects the short format (type, value) or the long
/// one (type, length, value bytes).
pub fn parse_data_attribute(buf: &[u8]) -> (r: Result<(DataAttribute, usize), IsakmpParseError>)
    ensures
        buf@.len() < 4 ==> r == Err::<(DataAttribute, usize), IsakmpParseError>(IsakmpParseError::BufferTooSmall),
        buf@.len() >= 4 && buf@[0] < 0x80 && 4 + u16_at(buf@, 2) > buf@.len()
            ==> r == Err::<(DataAttribute, usize), IsakmpParseError>(IsakmpParseError::BufferTooSmall),
        buf@.len() >= 4 && buf@[0] >= 0x80 ==> (r is Ok <==> AttributeType::spec_known((u16_at(buf@, 0) - 0x8000) as u16)),
        buf@.len() >= 4 && buf@[0] < 0x80 && 4 + u16_at(buf@, 2) <= buf@.len()
            ==> (r is Ok <==> AttributeType::spec_known(u16_at(buf@, 0))),
        r is Err && !(r == Err::<(DataAttribute, usize), IsakmpParseError>(IsakmpParseError::BufferTooSmall))
            ==> r == Err::<(DataAttribute, usize), IsakmpParseError>(IsakmpParseError::UnparsableVariant),
        match r {
            Ok((a, n)) => attribute_len(buf@) == Ok::<int, IsakmpParseError>(n as int) && attribute_matches(a, buf@),
            Err(e) => attribute_len(buf@) == Err::<int, IsakmpParseError>(e),
        },
        match r {
            Ok((DataAttribute::DataAttributeShort(s), n)) => {
                &&& buf@[0] >= 0x80
                &&& n == 4
                &&& s.attribute_type.spec_value() == u16_at(buf@, 0) - 0x8000
                &&& s.attribute_value == u16_at(buf@, 2)
            },
            Ok((DataAttribute::DataAttributeLong(l), n)) => {
                &&& buf@[0] < 0x80
                &&& n == 4 + u16_at(buf@, 2)
                &&& n <= buf@.len()
                &&& l.attribute_type.spec_value() == u16_at(buf@, 0)
                &&& l.attribute_value@ == buf@.subrange(4, n as int)
            },
            Err(_) => true,
        },
{
    if buf.len() < 4 {
        return Err(IsakmpParseError::BufferTooSmall);
    }
    let attribute_type = read_u16(buf, 0);
    if buf[0] >= 0x80 {
        match AttributeType::try_from(attribute_type - 0x8000) {
            Ok(t) => Ok((
                DataAttribute::DataAttributeShort(
                    DataAttributeShort { attribute_type: t, attribute_value: read_u16(buf, 2) },
                ),
                4,
            )),
            Err(_) => Err(IsakmpParseError::UnparsableVariant),
        }
    } else {
        let size = 4 + read_u16(buf, 2) as usize;
        if size > buf.len() {
            return Err(IsakmpParseError::BufferTooSmall);
        }
        match AttributeType::try_from(attribute_type) {
            Ok(t) => Ok((
                DataAttribute::DataAttributeLong(
                    DataAttributeLong { attribute_type: t, attribute_value: copy_range(buf, 4, size) },
                ),
                size,
            )),
            Err(_) => Err(IsakmpParseError::UnparsableVariant),
        }
    }
}

/// The bytes that the transform payload at the start of `s` occupies, or why it cannot
/// be read: both reserved fields must be zero and its attributes must fill it.
pub open spec fn transform_len(s: Seq<u8>) -> Result<int, IsakmpParseError> {
    if s.len() >= 8 && s[1] == 0 && u16_at(s, 6) != 0 {
        Err(IsakmpParseError::UnexpectedPayload)
    } else {
        match generic_header_len(s, 8) {
            Err(e) => Err(e),
            Ok(l) => match attribute_chain(s.subrange(0, l), 8) {
                Err(e) => Err(e),
                Ok(_) => Ok(l),
            },
        }
    }
}

/// `t` is the transform payload at the start of `s`.
pub open spec fn transform_matches(t: TransformPayload, s: Seq<u8>) -> bool {
    &&& s.len() >= 8
    &&& t.next_payload.spec_value() == s[0]
    &&& t.length == u16_at(s, 2)
    &&& 8 <= t.length <= s.len()
    &&& t.transform_no == s[4]
    &&& t.transform_id == s[5]
    &&& attribute_chain(s.subrange(0, t.length as int), 8) is Ok
    &&& attributes_match(t.sa_attributes@, s.subrange(0, t.length as int), attribute_chain(s.subrange(0, t.length as int), 8)->Ok_0)
}

/// The offsets of the transform payloads that fill `s` from `pos` on.
pub open spec fn transform_chain(s: Seq<u8>, pos: int) -> Result<Seq<int>, IsakmpParseError>
    decreases s.len() - pos,
{
    if pos < 0 || pos >= s.len() {
        Ok(Seq::empty())
    } else {
        match transform_len(s.subrange(pos, s.len() as int)) {
            Err(e) => Err(e),
            Ok(n) => if n >= 8 {
                match transform_chain(s, pos + n) {
                    Err(e) => Err(e),
                    Ok(os) => Ok(seq![pos] + os),
                }
            } else {
                Err(IsakmpParseError::BufferTooSmall)
            },
        }
    }
}

/// `t` is the transform payload at offset `o` of `s`.
pub open spec fn transform_at(t: TransformPayload, s: Seq<u8>, o: int) -> bool {
    0 <= o <= s.len() && transform_matches(t, s.subrange(o, s.len() as int))
}

/// The transform payloads `ts` are those at offsets `os` of `s`.
pub open spec fn transforms_match(ts: Seq<TransformPayload>, s: Seq<u8>, os: Seq<int>) -> bool {
    &&& ts.len() == os.len()
    &&& forall|i: int| 0 <= i < ts.len() ==> #[trigger] transform_at(ts[i], s, os[i])
}

/// The bytes that the proposal payload at the start of `s` occupies, or why it cannot be
/// read: its SPI and transforms must fill it, and the transforms must be as many as it
/// declares.
pub open spec fn proposal_len(s: Seq<u8>) -> Result<int, IsakmpParseError> {
    match generic_header_len(s, 8) {
        Err(e) => Err(e),
        Ok(l) => if 8 + s[6] > l {
            Err(IsakmpParseError::UnexpectedPayload)
        } else {
            match transform_chain(s.subrange(0, l), 8 + s[6]) {
                Err(e) => Err(e),
                Ok(os) => if os.len() != s[7] {
                    Err(IsakmpParseError::UnexpectedPayload)
                } else {
                    Ok(l)
                },
            }
        },
    }
}

/// `p` is the proposal payload at the start of `s`.
pub open spec fn proposal_payload_matches(p: ProposalPayload, s: Seq<u8>) -> bool {
    &&& s.len() >= 8
    &&& p.next_payload.spec_value() == s[0]
    &&& p.length == u16_at(s, 2)
    &&& 8 <= p.length <= s.len()
    &&& p.proposal_no == s[4]
    &&& p.protocol_id == s[5]
    &&& p.spi_size == s[6]
    &&& p.no_of_transforms == s[7]
    &&& 8 + s[6] <= p.length
    &&& p.spi@ == s.subrange(8, 8 + s[6])
    &&& p.transforms@.len() == p.no_of_transforms
    &&& transform_chain(s.subrange(0, p.length as int), 8 + s[6]) is Ok
    &&& transforms_match(p.transforms@, s.subrange(0, p.length as int), transform_chain(s.subrange(0, p.length as int), 8 + s[6])->Ok_0)
}

/// Parse the transform payload at the start of `buf`; its attributes fill its declared length.
pub fn parse_transform(buf: &[u8]) -> (r: Result<TransformPayload, IsakmpParseError>)
    ensures
        buf@.len() < 8 ==> r == Err::<TransformPayload, IsakmpParseError>(IsakmpParseError::BufferTooSmall),
        buf@.len() >= 8 && (buf@[1] != 0 || u16_at(buf@, 6) != 0)
            ==> r == Err::<TransformPayload, IsakmpParseError>(IsakmpParseError::UnexpectedPayload),
        buf@.len() >= 8 && buf@[1] == 0 && u16_at(buf@, 6) == 0 && u16_at(buf@, 2) > buf@.len()
            ==> r == Err::<TransformPayload, IsakmpParseError>(IsakmpParseError::BufferTooSmall),
        match r {
            Ok(t) => {
                &&& t.next_payload.spec_value() == buf@[0]
                &&& t.length == u16_at(buf@, 2)
                &&& 8 <= t.length <= buf@.len()
                &&& t.transform_no == buf@[4]
                &&& t.transform_id == buf@[5]
                &&& attribute_chain(buf@.subrange(0, t.length as int), 8) is Ok
                &&& attributes_match(t.sa_attributes@, buf@.subrange(0, t.length as int), attribute_chain(buf@.subrange(0, t.length as int), 8)->Ok_0)
                &&& transform_matches(t, buf@)
                &&& transform_len(buf@) == Ok::<int, IsakmpParseError>(t.length as int)
            },
            Err(e) => transform_len(buf@) == Err::<int, IsakmpParseError>(e),
        },
{
    if buf.len() >= 8 && read_u16(buf, 6) != 0 && buf[1] == 0 {
        return Err(IsakmpParseError::UnexpectedPayload);
    }
    let (len, next_payload) = match parse_generic_header(buf, 8) {
        Ok(h) => h,
        Err(e) => return Err(e),
    };
    let region = &buf[0..len];
    let mut sa_attributes: Vec<DataAttribute> = Vec::new();
    let mut pos: usize = 8;
    let ghost mut kept: Seq<int> = Seq::empty();
    proof {
        match attribute_chain(region@, 8) {
            Ok(r) => assert(Seq::<int>::empty() + r =~= r),
            Err(_) => {},
        }
    }
    while pos < len
        invariant
            8 <= pos <= len == region@.len() <= buf@.len(),
            region@ == buf@.subrange(0, len as int),
            buf@.len() >= 8,
            buf@[1] == 0,
            u16_at(buf@, 6) == 0,
            len == u16_at(buf@, 2),
            generic_header_len(buf@, 8) == Ok::<int, IsakmpParseError>(len as int),
            attribute_chain(region@, 8) == offsets_after(kept, attribute_chain(region@, pos as int)),
            attributes_match(sa_attributes@, region@, kept),
        decreases len - pos,
    {
        let rest = &region[pos..len];
        let (attribute, size) = match parse_data_attribute(rest) {
            Ok(a) => a,
            Err(e) => return Err(e),
        };
        assert(attribute_matches(attribute, rest@));
        assert(rest@ == region@.subrange(pos as int, len as int));
        let ghost old_attrs = sa_attributes@;
        let ghost old_kept = kept;
        proof {
            kept = kept.push(pos as int);
            match attribute_chain(region@, pos + size) {
                Ok(r) => assert(old_kept + (seq![pos as int] + r) =~= kept + r),
                Err(_) => {},
            }
        }
        sa_attributes.push(attribute);
        proof {
            assert forall|i: int| 0 <= i < sa_attributes@.len() implies #[trigger] attribute_at(sa_attributes@[i], region@, kept[i]) by {
                if i < old_attrs.len() {
                    assert(sa_attributes@[i] == old_attrs[i]);
                    assert(kept[i] == old_kept[i]);
                    assert(attribute_at(old_attrs[i], region@, old_kept[i]));
                } else {
                    assert(kept[i] == pos);
                    assert(rest@ == region@.subrange(pos as int, len as int));
                }
            }
        }
        pos = pos + size;
    }
    proof {
        assert(kept + Seq::<int>::empty() =~= kept);
    }
    Ok(TransformPayload {
        next_payload,
        length: len as u16,
        transform_no: buf[4],
        transform_id: buf[5],
        sa_attributes,
    })
}

/// Parse the proposal payload at the start of `buf`; its transforms fill its declared
/// length and must be as many as it declares.
pub fn parse_proposal(buf: &[u8]) -> (r: Result<ProposalPayload, IsakmpParseError>)
    ensures
        buf@.len() < 8 ==> r == Err::<ProposalPayload, IsakmpParseError>(IsakmpParseError::BufferTooSmall),
        buf@.len() >= 8 && buf@[1] != 0 ==> r == Err::<ProposalPayload, IsakmpParseError>(IsakmpParseError::UnexpectedPayload),
        buf@.len() >= 8 && buf@[1] == 0 && u16_at(buf@, 2) > buf@.len()
            ==> r == Err::<ProposalPayload, IsakmpParseError>(IsakmpParseError::BufferTooSmall),
        match r {
            Ok(p) => {
                &&& p.next_payload.spec_value() == buf@[0]
                &&& p.length == u16_at(buf@, 2)
                &&& 8 <= p.length <= buf@.len()
                &&& p.proposal_no == buf@[4]
                &&& p.protocol_id == buf@[5]
                &&& p.spi_size == buf@[6]
                &&& p.no_of_transforms == buf@[7]
                &&& p.spi@ == buf@.subrange(8, 8 + buf@[6])
                &&& p.transforms@.len() == p.no_of_transforms
                &&& proposal_payload_matches(p, buf@)
                &&& proposal_len(buf@) == Ok::<int, IsakmpParseError>(p.length as int)
            },
            Err(e) => proposal_len(buf@) == Err::<int, IsakmpParseError>(e),
        },
{
    let (len, next_payload) = match parse_generic_header(buf, 8) {
        Ok(h) => h,
        Err(e) => return Err(e),
    };
    let spi_size = buf[6] as usize;
    if 8 + spi_size > len {
        return Err(IsakmpParseError::UnexpectedPayload);
    }
    let spi = copy_range(buf, 8, 8 + spi_size);
    let region = &buf[0..len];
    let mut transforms: Vec<TransformPayload> = Vec::new();
    let mut pos: usize = 8 + spi_size;
    let ghost mut kept: Seq<int> = Seq::empty();
    proof {
        match transform_chain(region@, pos as int) {
            Ok(r) => assert(Seq::<int>::empty() + r =~= r),
            Err(_) => {},
        }
    }
    while pos < len
        invariant
            8 + spi_size <= pos <= len == region@.len() <= buf@.len(),
            region@ == buf@.subrange(0, len as int),
            spi_size == buf@[6],
            buf@[1] == 0,
            len == u16_at(buf@, 2),
            generic_header_len(buf@, 8) == Ok::<int, IsakmpParseError>(len as int),
            transform_chain(region@, 8 + spi_size) == offsets_after(kept, transform_chain(region@, pos as int)),
            transforms_match(transforms@, region@, kept),
        decreases len - pos,
    {
        let rest = &region[pos..len];
        let transform = match parse_transform(rest) {
            Ok(t) => t,
            Err(e) => return Err(e),
        };
        assert(rest@ == region@.subrange(pos as int, len as int));
        let size = transform.length as usize;
        let ghost old_ts = transforms@;
        let ghost old_kept = kept;
        proof {
            kept = kept.push(pos as int);
            match transform_chain(region@, pos + size) {
                Ok(r) => assert(old_kept + (seq![pos as int] + r) =~= kept + r),
                Err(_) => {},
            }
        }
        transforms.push(transform);
        proof {
            assert forall|i: int| 0 <= i < transforms@.len() implies #[trigger] transform_at(transforms@[i], region@, kept[i]) by {
                if i < old_ts.len() {
                    assert(transforms@[i] == old_ts[i]);
                    assert(kept[i] == old_kept[i]);
                    assert(transform_at(old_ts[i], region@, old_kept[i]));
                } else {
                    assert(kept[i] == pos);
                }
            }
        }
        pos = pos + size;
    }
    proof {
        assert(kept + Seq::<int>::empty() =~= kept);
        assert(region@.subrange(0, len as int) =~= region@);
    }
    if transforms.len() != buf[7] as usize {
        return Err(IsakmpParseError::UnexpectedPayload);
    }
    Ok(ProposalPayload {
        next_payload,
        length: len as u16,
        proposal_no: buf[4],
        protocol_id: buf[5],
        spi_size: buf[6],
        no_of_transforms: buf[7],
        spi,
        transforms,
    })
}

/// The offsets of the proposal payloads that fill `s` from `pos` on.
pub open spec fn proposal_chain(s: Seq<u8>, pos: int) -> Result<Seq<int>, IsakmpParseError>
    decreases s.len() - pos,
{
    if pos < 0 || pos >= s.len() {
        Ok(Seq::empty())
    } else {
        match proposal_len(s.subrange(pos, s.len() as int)) {
            Err(e) => Err(e),
            Ok(n) => if n >= 8 {
                match proposal_chain(s, pos + n) {
                    Err(e) => Err(e),
                    Ok(os) => Ok(seq![pos] + os),
                }
            } else {
                Err(IsakmpParseError::BufferTooSmall)
            },
        }
    }
}

/// `p` is the proposal payload at offset `o` of `s`.
pub open spec fn proposal_at(p: ProposalPayload, s: Seq<u8>, o: int) -> bool {
    0 <= o <= s.len() && proposal_payload_matches(p, s.subrange(o, s.len() as int))
}

/// The proposal payloads `ps` are those at offsets `os` of `s`.
pub open spec fn proposal_payloads_match(ps: Seq<ProposalPayload>, s: Seq<u8>, os: Seq<int>) -> bool {
    &&& ps.len() == os.len()
    &&& forall|i: int| 0 <= i < ps.len() ==> #[trigger] proposal_at(ps[i], s, os[i])
}

/// The bytes that the security association payload at the start of `s` occupies, or why
/// it cannot be read: a known DOI, and proposals that fill it after the situation.
pub open spec fn security_association_len(s: Seq<u8>) -> Result<int, IsakmpParseError> {
    match generic_header_len(s, 12) {
        Err(e) => Err(e),
        Ok(l) => if !DomainOfInterpretation::spec_known(u32_at(s, 4)) {
            Err(IsakmpParseError::UnparsableVariant)
        } else {
            match proposal_chain(s.subrange(0, l), 12) {
                Err(e) => Err(e),
                Ok(_) => Ok(l),
            }
        },
    }
}

/// Parse the security association payload at the start of `buf`: DOI, four situation
/// bytes, then proposals up to its declared length.
pub fn parse_security_association(buf: &[u8]) -> (r: Result<SecurityAssociationPayload, IsakmpParseError>)
    ensures
        buf@.len() < 12 ==> r == Err::<SecurityAssociationPayload, IsakmpParseError>(IsakmpParseError::BufferTooSmall),
        buf@.len() >= 12 && buf@[1] != 0 ==> r == Err::<SecurityAssociationPayload, IsakmpParseError>(IsakmpParseError::UnexpectedPayload),
        buf@.len() >= 12 && buf@[1] == 0 && u16_at(buf@, 2) > buf@.len()
            ==> r == Err::<SecurityAssociationPayload, IsakmpParseError>(IsakmpParseError::BufferTooSmall),
        match r {
            Ok(sa) => {
                &&& sa.next_payload.spec_value() == buf@[0]
                &&& sa.length == u16_at(buf@, 2)
                &&& 12 <= sa.length <= buf@.len()
                &&& sa.domain_of_interpretation.spec_value() == u32_at(buf@, 4)
                &&& sa.situation@ == buf@.subrange(8, 12)
                &&& security_association_len(buf@) == Ok::<int, IsakmpParseError>(sa.length as int)
                &&& proposal_chain(buf@.subrange(0, sa.length as int), 12) is Ok
                &&& proposal_payloads_match(sa.proposal_payload@, buf@.subrange(0, sa.length as int), proposal_chain(buf@.subrange(0, sa.length as int), 12)->Ok_0)
                &&& sa_payload_matches(sa, buf@)
            },
            Err(e) => security_association_len(buf@) == Err::<int, IsakmpParseError>(e),
        },
{
    let (len, next_payload) = match parse_generic_header(buf, 12) {
        Ok(h) => h,
        Err(e) => return Err(e),
    };
    let domain_of_interpretation = match DomainOfInterpretation::try_from(read_u32(buf, 4)) {
        Ok(d) => d,
        Err(_) => return Err(IsakmpParseError::UnparsableVariant),
    };
    let situation = copy_range(buf, 8, 12);
    let region = &buf[0..len];
    let mut proposal_payload: Vec<ProposalPayload> = Vec::new();
    let mut pos: usize = 12;
    let ghost mut kept: Seq<int> = Seq::empty();
    proof {
        match proposal_chain(region@, 12) {
            Ok(r) => assert(Seq::<int>::empty() + r =~= r),
            Err(_) => {},
        }
    }
    while pos < len
        invariant
            12 <= pos <= len == region@.len() <= buf@.len(),
            region@ == buf@.subrange(0, len as int),
            buf@[1] == 0,
            len == u16_at(buf@, 2),
            generic_header_len(buf@, 12) == Ok::<int, IsakmpParseError>(len as int),
            DomainOfInterpretation::spec_known(u32_at(buf@, 4)),
            proposal_chain(region@, 12) == offsets_after(kept, proposal_chain(region@, pos as int)),
            proposal_payloads_match(proposal_payload@, region@, kept),
        decreases len - pos,
    {
        let rest = &region[pos..len];
        let proposal = match parse_proposal(rest) {
            Ok(p) => p,
            Err(e) => return Err(e),
        };
        assert(rest@ == region@.subrange(pos as int, len as int));
        let size = proposal.length as usize;
        let ghost old_ps = proposal_payload@;
        let ghost old_kept = kept;
        proof {
            kept = kept.push(pos as int);
            match proposal_chain(region@, pos + size) {
                Ok(r) => assert(old_kept + (seq![pos as int] + r) =~= kept + r),
                Err(_) => {},
            }
        }
        proposal_payload.push(proposal);
        proof {
            assert forall|i: int| 0 <= i < proposal_payload@.len() implies #[trigger] proposal_at(proposal_payload@[i], region@, kept[i]) by {
                if i < old_ps.len() {
                    assert(proposal_payload@[i] == old_ps[i]);
                    assert(kept[i] == old_kept[i]);
                    assert(proposal_at(old_ps[i], region@, old_kept[i]));
                } else {
                    assert(kept[i] == pos);
                }
            }
        }
        pos = pos + size;
    }
    proof {
        assert(kept + Seq::<int>::empty() =~= kept);
    }
    Ok(SecurityAssociationPayload {
        next_payload,
        length: len as u16,
        domain_of_interpretation,
        situation,
        proposal_payload,
    })
}

/// `sa` is the security association payload at the start of `s`.
pub open spec fn sa_payload_matches(sa: SecurityAssociationPayload, s: Seq<u8>) -> bool {
    &&& s.len() >= 12
    &&& sa.next_payload.spec_value() == s[0]
    &&& sa.length == u16_at(s, 2)
    &&& 12 <= sa.length <= s.len()
    &&& sa.domain_of_interpretation.spec_value() == u32_at(s, 4)
    &&& sa.situation@ == s.subrange(8, 12)
    &&& proposal_chain(s.subrange(0, sa.length as int), 12) is Ok
    &&& proposal_payloads_match(sa.proposal_payload@, s.subrange(0, sa.length as int), proposal_chain(s.subrange(0, sa.length as int), 12)->Ok_0)
}

/// The bytes that the notification payload at the start of `s` occupies, or why it
/// cannot be read.
pub open spec fn notification_len(s: Seq<u8>) -> Result<int, IsakmpParseError> {
    match generic_header_len(s, 12) {
        Err(e) => Err(e),
        Ok(l) => if NotifyMessageType::spec_known(u16_at(s, 10)) {
            Ok(l)
        } else {
            Err(IsakmpParseError::UnparsableVariant)
        },
    }
}

/// `n` is the notification payload at the start of `s`.
pub open spec fn notification_matches(n: NotificationPayload, s: Seq<u8>) -> bool {
    &&& s.len() >= 12
    &&& n.next_payload.spec_value() == s[0]
    &&& n.length == u16_at(s, 2)
    &&& 12 <= n.length <= s.len()
    &&& n.protocol_id == s[8]
    &&& n.notify_message_type.spec_value() == u16_at(s, 10)
    &&& n.notification@ == s.subrange(12, n.length as int)
}

/// `v` is the vendor ID payload at the start of `s`.
pub open spec fn vendor_id_matches(v: VendorIDPayload, s: Seq<u8>) -> bool {
    &&& s.len() >= 4
    &&& v.next_payload.spec_value() == s[0]
    &&& v.length == u16_at(s, 2)
    &&& 4 <= v.length <= s.len()
    &&& v.vendor_id@ == s.subrange(4, v.length as int)
}

/// Parse the notification payload at the start of `buf`: DOI, protocol, SPI size and
/// notify message type, then SPI and data up to its declared length.
pub fn parse_notification(buf: &[u8]) -> (r: Result<NotificationPayload, IsakmpParseError>)
    ensures
        buf@.len() < 12 ==> r == Err::<NotificationPayload, IsakmpParseError>(IsakmpParseError::BufferTooSmall),
        buf@.len() >= 12 && buf@[1] != 0 ==> r == Err::<NotificationPayload, IsakmpParseError>(IsakmpParseError::UnexpectedPayload),
        match r {
            Ok(n) => {
                &&& n.next_payload.spec_value() == buf@[0]
                &&& n.length == u16_at(buf@, 2)
                &&& 12 <= n.length <= buf@.len()
                &&& n.protocol_id == buf@[8]
                &&& n.notify_message_type.spec_value() == u16_at(buf@, 10)
                &&& n.notification@ == buf@.subrange(12, n.length as int)
                &&& notification_matches(n, buf@)
                &&& notification_len(buf@) == Ok::<int, IsakmpParseError>(n.length as int)
            },
            Err(e) => notification_len(buf@) == Err::<int, IsakmpParseError>(e),
        },
{
    let (len, next_payload) = match parse_generic_header(buf, 12) {
        Ok(h) => h,
        Err(e) => return Err(e),
    };
    let notify_message_type = match NotifyMessageType::try_from(read_u16(buf, 10)) {
        Ok(t) => t,
        Err(_) => return Err(IsakmpParseError::UnparsableVariant),
    };
    Ok(NotificationPayload {
        next_payload,
        length: len as u16,
        protocol_id: buf[8],
        notify_message_type,
        notification: copy_range(buf, 12, len),
    })
}

/// Parse the vendor ID payload at the start of `buf`.
pub fn parse_vendor_id(buf: &[u8]) -> (r: Result<VendorIDPayload, IsakmpParseError>)
    ensures
        buf@.len() < 4 ==> r == Err::<VendorIDPayload, IsakmpParseError>(IsakmpParseError::BufferTooSmall),
        buf@.len() >= 4 && buf@[1] != 0 ==> r == Err::<VendorIDPayload, IsakmpParseError>(IsakmpParseError::UnexpectedPayload),
        match r {
            Ok(v) => {
                &&& v.next_payload.spec_value() == buf@[0]
                &&& v.length == u16_at(buf@, 2)
                &&& 4 <= v.length <= buf@.len()
                &&& v.vendor_id@ == buf@.subrange(4, v.length as int)
                &&& vendor_id_matches(v, buf@)
                &&& generic_header_len(buf@, 4) == Ok::<int, IsakmpParseError>(v.length as int)
            },
            Err(e) => generic_header_len(buf@, 4) == Err::<int, IsakmpParseError>(e),
        },
{
    let (len, next_payload) = match parse_generic_header(buf, 4) {
        Ok(h) => h,
        Err(e) => return Err(e),
    };
    Ok(VendorIDPayload { next_payload, length: len as u16, vendor_id: copy_range(buf, 4, len) })
}

/// The bytes that the payload of type `kind` at the start of `s` occupies, or why it
/// cannot be read. Types that are not modelled only need a valid generic header.
pub open spec fn payload_len(s: Seq<u8>, kind: PayloadType) -> Result<int, IsakmpParseError> {
    match kind {
        PayloadType::NoNextPayload => Err(IsakmpParseError::UnexpectedPayload),
        PayloadType::Notification => notification_len(s),
        PayloadType::SecurityAssociation => security_association_len(s),
        PayloadType::VendorID => generic_header_len(s, 4),
        PayloadType::Proposal => proposal_len(s),
        PayloadType::Transform => transform_len(s),
        _ => generic_header_len(s, 4),
    }
}

/// `p` is the payload at the start of `s`.
pub open spec fn payload_matches(p: Payload, s: Seq<u8>) -> bool {
    match p {
        Payload::Notification(n) => notification_matches(n, s),
        Payload::SecurityAssociation(sa) => sa_payload_matches(sa, s),
        Payload::VendorID(v) => vendor_id_matches(v, s),
        Payload::Proposal(x) => proposal_payload_matches(x, s),
        Payload::Transform(t) => transform_matches(t, s),
        Payload::Skipped(_) => true,
    }
}

/// Parse the payload of type `payload_type` at the start of `buf`.
pub fn parse_next_payload(buf: &[u8], payload_type: PayloadType) -> (r: Result<GenericPayload, IsakmpParseError>)
    ensures
        payload_type == PayloadType::NoNextPayload ==> r == Err::<GenericPayload, IsakmpParseError>(IsakmpParseError::UnexpectedPayload),
        buf@.len() < 4 && payload_type != PayloadType::NoNextPayload ==> r == Err::<GenericPayload, IsakmpParseError>(IsakmpParseError::BufferTooSmall),
        buf@.len() >= 12 && buf@[1] != 0 && payload_type != PayloadType::NoNextPayload
            ==> r == Err::<GenericPayload, IsakmpParseError>(IsakmpParseError::UnexpectedPayload),
        match r {
            Ok(g) => {
                &&& 4 <= g.payload_size <= buf@.len()
                &&& g.payload_size == u16_at(buf@, 2)
                &&& g.next_payload_type.spec_value() == buf@[0]
                &&& buf@[1] == 0
                &&& match g.payload {
                    Payload::Notification(n) => {
                        &&& payload_type == PayloadType::Notification
                        &&& n.length == g.payload_size
                        &&& n.protocol_id == buf@[8]
                        &&& n.notify_message_type.spec_value() == u16_at(buf@, 10)
                        &&& n.notification@ == buf@.subrange(12, n.length as int)
                    },
                    Payload::SecurityAssociation(sa) => {
                        &&& payload_type == PayloadType::SecurityAssociation
                        &&& sa.length == g.payload_size
                        &&& sa.domain_of_interpretation.spec_value() == u32_at(buf@, 4)
                        &&& sa.situation@ == buf@.subrange(8, 12)
                    },
                    Payload::VendorID(v) => {
                        &&& payload_type == PayloadType::VendorID
                        &&& v.length == g.payload_size
                        &&& v.vendor_id@ == buf@.subrange(4, v.length as int)
                    },
                    Payload::Proposal(p) => {
                        &&& payload_type == PayloadType::Proposal
                        &&& p.length == g.payload_size
                        &&& p.proposal_no == buf@[4]
                        &&& p.protocol_id == buf@[5]
                        &&& p.spi@ == buf@.subrange(8, 8 + buf@[6])
                        &&& p.transforms@.len() == p.no_of_transforms
                        &&& p.no_of_transforms == buf@[7]
                    },
                    Payload::Transform(t) => {
                        &&& payload_type == PayloadType::Transform
                        &&& t.length == g.payload_size
                        &&& t.transform_no == buf@[4]
                        &&& t.transform_id == buf@[5]
                    },
                    Payload::Skipped(t) => t == payload_type && !(t == PayloadType::Notification
                        || t == PayloadType::SecurityAssociation || t == PayloadType::VendorID
                        || t == PayloadType::Proposal || t == PayloadType::Transform),
                }
                &&& payload_matches(g.payload, buf@)
                &&& payload_len(buf@, payload_type) == Ok::<int, IsakmpParseError>(g.payload_size as int)
            },
            Err(e) => payload_len(buf@, payload_type) == Err::<int, IsakmpParseError>(e),
        },
{
    match payload_type {
        PayloadType::NoNextPayload => Err(IsakmpParseError::UnexpectedPayload),
        PayloadType::Notification => match parse_notification(buf) {
            Ok(n) => Ok(GenericPayload {
                payload_size: n.length as usize,
                next_payload_type: n.next_payload,
                payload: Payload::Notification(n),
            }),
            Err(e) => Err(e),
        },
        PayloadType::SecurityAssociation => match parse_security_association(buf) {
            Ok(sa) => Ok(GenericPayload {
                payload_size: sa.length as usize,
                next_payload_type: sa.next_payload,
                payload: Payload::SecurityAssociation(sa),
            }),
            Err(e) => Err(e),
        },
        PayloadType::VendorID => match parse_vendor_id(buf) {
            Ok(v) => Ok(GenericPayload {
                payload_size: v.length as usize,
                next_payload_type: v.next_payload,
                payload: Payload::VendorID(v),
            }),
            Err(e) => Err(e),
        },
        PayloadType::Proposal => match parse_proposal(buf) {
            Ok(p) => Ok(GenericPayload {
                payload_size: p.length as usize,
                next_payload_type: p.next_payload,
                payload: Payload::Proposal(p),
            }),
            Err(e) => Err(e),
        },
        PayloadType::Transform => match parse_transform(buf) {
            Ok(t) => Ok(GenericPayload {
                payload_size: t.length as usize,
                next_payload_type: t.next_payload,
                payload: Payload::Transform(t),
            }),
            Err(e) => Err(e),
        },
        _ => match parse_generic_header(buf, 4) {
            Ok((len, next)) => Ok(GenericPayload {
                payload_size: len,
                next_payload_type: next,
                payload: Payload::Skipped(payload_type),
            }),
            Err(e) => Err(e),
        },
    }
}

/// The kinds and offsets of the payloads of `s` from `pos` on, the first of type `kind`;
/// each payload names the type of the next, and "no next payload" ends the chain.
pub open spec fn payload_offsets(s: Seq<u8>, pos: int, kind: PayloadType) -> Result<Seq<(PayloadType, int)>, IsakmpParseError>
    decreases s.len() - pos,
{
    if kind == PayloadType::NoNextPayload {
        Ok(Seq::empty())
    } else if pos < 0 || pos > s.len() {
        Err(IsakmpParseError::BufferTooSmall)
    } else {
        match payload_len(s.subrange(pos, s.len() as int), kind) {
            Err(e) => Err(e),
            Ok(n) => if n >= 4 && pos + n <= s.len() {
                match payload_offsets(s, pos + n, PayloadType::spec_from_value(s[pos])->Some_0) {
                    Err(e) => Err(e),
                    Ok(rest) => Ok(seq![(kind, pos)] + rest),
                }
            } else {
                Err(IsakmpParseError::BufferTooSmall)
            },
        }
    }
}

/// Payload kinds and offsets found so far, followed by the rest of the chain.
pub open spec fn payloads_after(kept: Seq<(PayloadType, int)>, rest: Result<Seq<(PayloadType, int)>, IsakmpParseError>) -> Result<Seq<(PayloadType, int)>, IsakmpParseError> {
    match rest {
        Ok(r) => Ok(kept + r),
        Err(e) => Err(e),
    }
}

/// The offsets of the payloads of kind `k`, in order.
pub open spec fn offsets_of(items: Seq<(PayloadType, int)>, k: PayloadType) -> Seq<int>
    decreases items.len(),
{
    if items.len() == 0 {
        Seq::empty()
    } else if items.last().0 == k {
        offsets_of(items.drop_last(), k).push(items.last().1)
    } else {
        offsets_of(items.drop_last(), k)
    }
}

/// `n` is the notification payload at offset `o` of `s`.
pub open spec fn notification_at(n: NotificationPayload, s: Seq<u8>, o: int) -> bool {
    0 <= o <= s.len() && notification_matches(n, s.subrange(o, s.len() as int))
}

/// `sa` is the security association payload at offset `o` of `s`.
pub open spec fn sa_at(sa: SecurityAssociationPayload, s: Seq<u8>, o: int) -> bool {
    0 <= o <= s.len() && sa_payload_matches(sa, s.subrange(o, s.len() as int))
}

/// `v` is the vendor ID payload at offset `o` of `s`.
pub open spec fn vendor_id_at(v: VendorIDPayload, s: Seq<u8>, o: int) -> bool {
    0 <= o <= s.len() && vendor_id_matches(v, s.subrange(o, s.len() as int))
}

/// Each list of the packet holds the payloads of its kind at the offsets that the chain
/// gives, in order.
pub open spec fn packet_payloads_match(p: Packet, s: Seq<u8>, items: Seq<(PayloadType, int)>) -> bool {
    let ns = offsets_of(items, PayloadType::Notification);
    let sas = offsets_of(items, PayloadType::SecurityAssociation);
    let vs = offsets_of(items, PayloadType::VendorID);
    let ps = offsets_of(items, PayloadType::Proposal);
    let ts = offsets_of(items, PayloadType::Transform);
    &&& p.notification_payloads@.len() == ns.len()
    &&& forall|i: int| 0 <= i < ns.len() ==> #[trigger] notification_at(p.notification_payloads@[i], s, ns[i])
    &&& p.security_associations@.len() == sas.len()
    &&& forall|i: int| 0 <= i < sas.len() ==> #[trigger] sa_at(p.security_associations@[i], s, sas[i])
    &&& p.vendor_ids@.len() == vs.len()
    &&& forall|i: int| 0 <= i < vs.len() ==> #[trigger] vendor_id_at(p.vendor_ids@[i], s, vs[i])
    &&& p.proposals@.len() == ps.len()
    &&& forall|i: int| 0 <= i < ps.len() ==> #[trigger] proposal_at(p.proposals@[i], s, ps[i])
    &&& p.transforms@.len() == ts.len()
    &&& forall|i: int| 0 <= i < ts.len() ==> #[trigger] transform_at(p.transforms@[i], s, ts[i])
}

/// Parse a whole ISAKMP message: the header, then the payload chain that it starts.
pub fn parse_packet(buf: &[u8]) -> (r: Result<Packet, IsakmpParseError>)
    ensures
        buf@.len() < 28 ==> r == Err::<Packet, IsakmpParseError>(IsakmpParseError::BufferTooSmall),
        buf@.len() >= 28 && buf@[18] == 0 && PayloadType::spec_known(buf@[16])
            ==> r == Err::<Packet, IsakmpParseError>(IsakmpParseError::UnexpectedPayload),
        match r {
            Ok(p) => {
                &&& buf@.len() >= 28
                &&& p.header.initiator_cookie == u64_at(buf@, 0)
                &&& p.header.responder_cookie == u64_at(buf@, 8)
                &&& p.header.next_payload.spec_value() == buf@[16]
                &&& p.header.exchange_mode.spec_value() == buf@[18]
                &&& p.header.exchange_mode != ExchangeType::NoExchange
                &&& p.header.major_version == 1
                &&& p.header.major_version == buf@[17] / 16
                &&& p.header.minor_version == buf@[17] % 16
                &&& p.header.flags == buf@[19]
                &&& p.header.message_id == u32_at(buf@, 20)
                &&& p.header.length == u32_at(buf@, 24)
                &&& payload_offsets(buf@, 28, p.header.next_payload) is Ok
                &&& packet_payloads_match(p, buf@, payload_offsets(buf@, 28, p.header.next_payload)->Ok_0)
            },
            Err(e) => buf@.len() >= 28 && buf@[17] / 16 == 1 && ExchangeType::spec_known(buf@[18]) && buf@[18] != 0 && PayloadType::spec_known(buf@[16])
                ==> payload_offsets(buf@, 28, PayloadType::spec_from_value(buf@[16])->Some_0) == Err::<Seq<(PayloadType, int)>, IsakmpParseError>(e),
        },
{
    let header = match parse_header(buf) {
        Ok(h) => h,
        Err(e) => return Err(e),
    };
    if header.exchange_mode == ExchangeType::NoExchange {
        return Err(IsakmpParseError::UnexpectedPayload);
    }
    let mut packet = Packet {
        header,
        notification_payloads: Vec::new(),
        security_associations: Vec::new(),
        vendor_ids: Vec::new(),
        transforms: Vec::new(),
        proposals: Vec::new(),
    };
    let mut next_payload = header.next_payload;
    let mut offset: usize = HEADER_SIZE;
    let ghost mut kept: Seq<(PayloadType, int)> = Seq::empty();
    proof {
        PayloadType::lemma_value_round_trip(header.next_payload);
        match payload_offsets(buf@, 28, next_payload) {
            Ok(r) => assert(Seq::<(PayloadType, int)>::empty() + r =~= r),
            Err(_) => {},
        }
    }
    while next_payload != PayloadType::NoNextPayload
        invariant
            28 <= offset <= buf@.len(),
            packet.header == header,
            header.exchange_mode.spec_value() == buf@[18],
            header.exchange_mode != ExchangeType::NoExchange,
            header.major_version == 1,
            header.major_version == buf@[17] / 16,
            header.minor_version == buf@[17] % 16,
            header.flags == buf@[19],
            header.initiator_cookie == u64_at(buf@, 0),
            header.responder_cookie == u64_at(buf@, 8),
            header.next_payload.spec_value() == buf@[16],
            header.message_id == u32_at(buf@, 20),
            header.length == u32_at(buf@, 24),
            PayloadType::spec_from_value(buf@[16]) == Some(header.next_payload),
            payload_offsets(buf@, 28, header.next_payload) == payloads_after(kept, payload_offsets(buf@, offset as int, next_payload)),
            packet_payloads_match(packet, buf@, kept),
        decreases buf@.len() - offset,
    {
        let rest = &buf[offset..buf.len()];
        let generic = match parse_next_payload(rest, next_payload) {
            Ok(g) => g,
            Err(e) => return Err(e),
        };
        let ghost pos = offset as int;
        let ghost kind = next_payload;
        let ghost old_kept = kept;
        let ghost old_packet = packet;
        proof {
            PayloadType::lemma_value_round_trip(generic.next_payload_type);
            assert(rest@[0] == buf@[pos]);
            kept = kept.push((kind, pos));
            assert(kept.drop_last() =~= old_kept);
            match payload_offsets(buf@, pos + generic.payload_size, generic.next_payload_type) {
                Ok(r) => assert(old_kept + (seq![(kind, pos)] + r) =~= kept + r),
                Err(_) => {},
            }
        }
        offset = offset + generic.payload_size;
        next_payload = generic.next_payload_type;
        match generic.payload {
            Payload::Notification(n) => packet.notification_payloads.push(n),
            Payload::SecurityAssociation(sa) => packet.security_associations.push(sa),
            Payload::VendorID(v) => packet.vendor_ids.push(v),
            Payload::Proposal(p) => packet.proposals.push(p),
            Payload::Transform(t) => packet.transforms.push(t),
            Payload::Skipped(_) => {},
        }
        proof {
            let ns = offsets_of(kept, PayloadType::Notification);
            let sas = offsets_of(kept, PayloadType::SecurityAssociation);
            let vs = offsets_of(kept, PayloadType::VendorID);
            let ps = offsets_of(kept, PayloadType::Proposal);
            let ts = offsets_of(kept, PayloadType::Transform);
            assert forall|i: int| 0 <= i < ns.len() implies #[trigger] notification_at(packet.notification_payloads@[i], buf@, ns[i]) by {
                if i < old_packet.notification_payloads@.len() {
                    assert(packet.notification_payloads@[i] == old_packet.notification_payloads@[i]);
                }
            }
            assert forall|i: int| 0 <= i < sas.len() implies #[trigger] sa_at(packet.security_associations@[i], buf@, sas[i]) by {
                if i < old_packet.security_associations@.len() {
                    assert(packet.security_associations@[i] == old_packet.security_associations@[i]);
                }
            }
            assert forall|i: int| 0 <= i < vs.len() implies #[trigger] vendor_id_at(packet.vendor_ids@[i], buf@, vs[i]) by {
                if i < old_packet.vendor_ids@.len() {
                    assert(packet.vendor_ids@[i] == old_packet.vendor_ids@[i]);
                }
            }
            assert forall|i: int| 0 <= i < ps.len() implies #[trigger] proposal_at(packet.proposals@[i], buf@, ps[i]) by {
                if i < old_packet.proposals@.len() {
                    assert(packet.proposals@[i] == old_packet.proposals@[i]);
                }
            }
            assert forall|i: int| 0 <= i < ts.len() implies #[trigger] transform_at(packet.transforms@[i], buf@, ts[i]) by {
                if i < old_packet.transforms@.len() {
                    assert(packet.transforms@[i] == old_packet.transforms@[i]);
                }
            }
        }
    }
    proof {
        assert(kept + Seq::<(PayloadType, int)>::empty() =~= kept);
    }
    Ok(packet)
}

} // verus!
