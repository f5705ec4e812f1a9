//! Encoding of IKEv2 messages into network bytes.
use vstd::prelude::*;

use crate::v2::definitions::{
    Attribute, Delete, IKEv2, KeyExchange, Notification, Payload, Proposal, SecurityAssociation,
    Transform,
};
use crate::v2::header::{AttributeHeader, KeyExchangeHeader, NotifyHeader, ProposalHeader, TransformHeader};
use crate::v2::params::{PayloadType, FLAG_INITIATOR, FLAG_RESPONSE, IKE_2_VERSION_VALUE};
use crate::wire::{push_all, push_u16, push_u32, push_u64, u16_bytes, u32_bytes, u64_bytes};

verus! {

/// Why a message cannot be encoded.
#[derive(Debug, Clone, Copy, PartialEq, Eq, Structural)]
pub enum GeneratorError {
    /// An SPI is longer than 255 bytes
    MaxSpiLengthExceeded,
    /// A nonce is shorter than 16 or longer than 256 bytes
    InvalidNonceLength,
    /// A security association holds 255 proposals or more
    TooManyProposals,
    /// A message holds 255 payloads or more
    TooManyPayloads,
    /// A proposal lacks a transform type that its protocol requires
    MissingMandatoryTransform,
    /// A proposal holds more than 255 transforms
    TooManyTransforms,
    /// A payload does not fit its 16-bit length field
    PayloadTooLarge,
}

/// The bytes of an encoding result, or its error.
pub open spec fn bytes_result(r: Result<Vec<u8>, GeneratorError>) -> Result<Seq<u8>, GeneratorError> {
    match r {
        Ok(b) => Ok(b@),
        Err(e) => Err(e),
    }
}

/// Generic payload header: next payload, reserved zero, total length.
pub open spec fn generic_header(next: PayloadType, len: nat) -> Seq<u8> {
    seq![next.spec_value(), 0u8] + u16_bytes(len as u16)
}

/// A fixed-length (type/value) attribute.
pub open spec fn attribute_encoding(a: Attribute) -> Seq<u8> {
    match a {
        Attribute::KeyLength(l) => u16_bytes(0x800e) + u16_bytes(l),
    }
}

/// The attributes that a transform carries.
pub open spec fn transform_attributes(t: Transform) -> Seq<u8> {
    match t {
        Transform::Encryption(_, Some(l)) => attribute_encoding(Attribute::KeyLength(l)),
        _ => Seq::empty(),
    }
}

/// A transform substructure; `last` marks the final transform of its proposal.
pub open spec fn transform_encoding(t: Transform, last: bool) -> Seq<u8> {
    let attrs = transform_attributes(t);
    seq![if last { 0u8 } else { 3u8 }, 0u8] + u16_bytes((8 + attrs.len()) as u16) + seq![
        t.spec_transform_type().spec_value(),
        0u8,
    ] + u16_bytes(t.spec_id()) + attrs
}

/// The first `k` transforms of `ts`, the last of `ts` marked as such.
pub open spec fn transforms_encoding(ts: Seq<Transform>, k: nat) -> Seq<u8>
    decreases k,
{
    if k == 0 || k > ts.len() {
        Seq::empty()
    } else {
        transforms_encoding(ts, (k - 1) as nat) + transform_encoding(ts[k - 1], k == ts.len())
    }
}

/// A proposal substructure numbered `num`; `last` marks the final proposal.
pub open spec fn proposal_encoding(p: Proposal, num: u8, last: bool) -> Result<Seq<u8>, GeneratorError> {
    let ts = p.spec_transforms();
    let body = transforms_encoding(ts, ts.len());
    if p.spec_missing_mandatory() {
        Err(GeneratorError::MissingMandatoryTransform)
    } else if p.spi@.len() > 255 {
        Err(GeneratorError::MaxSpiLengthExceeded)
    } else if ts.len() > 255 {
        Err(GeneratorError::TooManyTransforms)
    } else {
        Ok(seq![if last { 0u8 } else { 2u8 }, 0u8] + u16_bytes((8 + p.spi@.len() + body.len()) as u16)
            + seq![num, p.protocol.spec_value(), p.spi@.len() as u8, ts.len() as u8] + p.spi@ + body)
    }
}

/// The first `k` proposals of `ps`, numbered from 1.
pub open spec fn proposals_encoding(ps: Seq<Proposal>, k: nat) -> Result<Seq<u8>, GeneratorError>
    decreases k,
{
    if k == 0 || k > ps.len() {
        Ok(Seq::empty())
    } else {
        match proposals_encoding(ps, (k - 1) as nat) {
            Err(e) => Err(e),
            Ok(b) => match proposal_encoding(ps[k - 1], k as u8, k == ps.len()) {
                Err(e) => Err(e),
                Ok(pb) => Ok(b + pb),
            },
        }
    }
}

/// A security association payload.
pub open spec fn security_association_encoding(sa: SecurityAssociation, next: PayloadType) -> Result<Seq<u8>, GeneratorError> {
    if sa.proposals@.len() >= 255 {
        Err(GeneratorError::TooManyProposals)
    } else {
        match proposals_encoding(sa.proposals@, sa.proposals@.len()) {
            Err(e) => Err(e),
            Ok(body) => if 4 + body.len() > 0xffff {
                Err(GeneratorError::PayloadTooLarge)
            } else {
                Ok(generic_header(next, 4 + body.len()) + body)
            },
        }
    }
}

/// The SPI bytes of a notification, empty without one.
pub open spec fn notification_spi(n: Notification) -> Seq<u8> {
    match n.spi {
        Some(s) => s@,
        None => Seq::empty(),
    }
}

/// A notify payload.
pub open spec fn notification_encoding(n: Notification, next: PayloadType) -> Result<Seq<u8>, GeneratorError> {
    let spi = notification_spi(n);
    let len = 8 + spi.len() + n.data@.len();
    if spi.len() > 255 {
        Err(GeneratorError::MaxSpiLengthExceeded)
    } else if len > 0xffff {
        Err(GeneratorError::PayloadTooLarge)
    } else {
        Ok(generic_header(next, len) + seq![
            if n.spi is None { 0u8 } else { n.protocol.spec_value() },
            spi.len() as u8,
        ] + u16_bytes(n.variant.spec_value()) + spi + n.data@)
    }
}

/// A key exchange payload.
pub open spec fn key_exchange_encoding(k: KeyExchange, next: PayloadType) -> Seq<u8> {
    generic_header(next, 8 + k.data@.len()) + u16_bytes(k.dh_group.spec_value()) + u16_bytes(0)
        + k.data@
}

/// A delete payload.
pub open spec fn delete_encoding(d: Delete, next: PayloadType) -> Seq<u8> {
    generic_header(next, 8 + d.spis@.len()) + seq![d.protocol.spec_value(), d.spi_size]
        + u16_bytes(d.num_spis) + d.spis@
}

/// A payload that is only a generic header and its data.
pub open spec fn generic_encoding(data: Seq<u8>, next: PayloadType) -> Seq<u8> {
    generic_header(next, 4 + data.len()) + data
}

/// Any payload, followed by a payload of type `next`.
pub open spec fn payload_encoding(p: Payload, next: PayloadType) -> Result<Seq<u8>, GeneratorError> {
    match p {
        Payload::SecurityAssociation(sa) => security_association_encoding(sa, next),
        Payload::KeyExchange(k) => if 8 + k.data@.len() > 0xffff {
            Err(GeneratorError::PayloadTooLarge)
        } else {
            Ok(key_exchange_encoding(k, next))
        },
        Payload::Nonce(v) => if v@.len() < 16 || v@.len() > 256 {
            Err(GeneratorError::InvalidNonceLength)
        } else {
            Ok(generic_encoding(v@, next))
        },
        Payload::Notify(n) => notification_encoding(n, next),
        Payload::Delete(d) => if 8 + d.spis@.len() > 0xffff {
            Err(GeneratorError::PayloadTooLarge)
        } else {
            Ok(delete_encoding(d, next))
        },
        Payload::VendorID(v) => if 4 + v@.len() > 0xffff {
            Err(GeneratorError::PayloadTooLarge)
        } else {
            Ok(generic_encoding(v@, next))
        },
        Payload::EncryptedAndAuthenticated(v) => if 4 + v@.len() > 0xffff {
            Err(GeneratorError::PayloadTooLarge)
        } else {
            Ok(generic_encoding(v@, next))
        },
    }
}

/// The type announced before payload `i` of `ps`: its own, or none past the end.
pub open spec fn payload_type_at(ps: Seq<Payload>, i: int) -> PayloadType {
    if 0 <= i < ps.len() {
        ps[i].spec_payload_type()
    } else {
        PayloadType::NoNextPayload
    }
}

/// The first `k` payloads of `ps`, each announcing the type of the one after it.
pub open spec fn payloads_encoding(ps: Seq<Payload>, k: nat) -> Result<Seq<u8>, GeneratorError>
    decreases k,
{
    if k == 0 || k > ps.len() {
        Ok(Seq::empty())
    } else {
        match payloads_encoding(ps, (k - 1) as nat) {
            Err(e) => Err(e),
            Ok(b) => match payload_encoding(ps[k - 1], payload_type_at(ps, k as int)) {
                Err(e) => Err(e),
                Ok(pb) => Ok(b + pb),
            },
        }
    }
}

/// The flags byte of an IKEv2 header.
pub open spec fn header_flags(initiator: bool, response: bool) -> u8 {
    ((if initiator { FLAG_INITIATOR } else { 0u8 }) + (if response { FLAG_RESPONSE } else { 0u8 })) as u8
}

/// The 28-byte IKEv2 header of `m` for a message of `len` bytes.
pub open spec fn ikev2_header(m: IKEv2, len: nat) -> Seq<u8> {
    u64_bytes(m.initiator_cookie) + u64_bytes(m.responder_cookie) + seq![
        payload_type_at(m.payloads@, 0).spec_value(),
        IKE_2_VERSION_VALUE,
        m.exchange_type.spec_value(),
        header_flags(m.initiator, m.response),
    ] + u32_bytes(m.message_id) + u32_bytes(len as u32)
}

/// A complete IKEv2 message.
pub open spec fn ikev2_encoding(m: IKEv2) -> Result<Seq<u8>, GeneratorError> {
    if m.payloads@.len() >= 255 {
        Err(GeneratorError::TooManyPayloads)
    } else {
        match payloads_encoding(m.payloads@, m.payloads@.len()) {
            Err(e) => Err(e),
            Ok(body) => Ok(ikev2_header(m, 28 + body.len()) + body),
        }
    }
}

/// Append a generic payload header.
fn push_generic_header(out: &mut Vec<u8>, next: PayloadType, len: u16)
    ensures
        final(out)@ == old(out)@ + generic_header(next, len as nat),
{
    out.push(next.value());
    out.push(0u8);
    push_u16(out, len);
    assert(final(out)@ =~= old(out)@ + generic_header(next, len as nat));
}

impl Attribute {
    /// Encode the attribute in the fixed-length format.
    pub fn build(&self) -> (r: Vec<u8>)
        ensures
            r@ == attribute_encoding(*self),
    {
        let mut r: Vec<u8> = Vec::new();
        match self {
            Attribute::KeyLength(l) => {
                AttributeHeader { attribute_type: 0x800e, attribute_value: *l }.write(&mut r);
            },
        }
        assert(r@ =~= attribute_encoding(*self));
        r
    }
}

impl Transform {
    /// The transform identifier on the wire.
    pub fn id(&self) -> (r: u16)
        ensures
            r == self.spec_id(),
    {
        match self {
            Transform::Encryption(e, _) => e.value(),
            Transform::PseudoRandomFunction(p) => p.value(),
            Transform::Integrity(i) => i.value(),
            Transform::KeyExchange(k) => k.value(),
            Transform::SequenceNumber(s) => s.value(),
        }
    }

    /// Encode the transform; `last` marks the final transform of its proposal.
    pub fn build(&self, last: bool) -> (r: Vec<u8>)
        ensures
            r@ == transform_encoding(*self, last),
    {
        let attributes = match self {
            Transform::Encryption(_, Some(l)) => Attribute::KeyLength(*l).build(),
            _ => Vec::new(),
        };
        assert(attributes@ == transform_attributes(*self));
        let t_type = match self {
            Transform::Encryption(_, _) => crate::v2::params::TransformType::EncryptionAlgorithm,
            Transform::PseudoRandomFunction(_) => crate::v2::params::TransformType::PseudoRandomFunction,
            Transform::Integrity(_) => crate::v2::params::TransformType::IntegrityAlgorithm,
            Transform::KeyExchange(_) => crate::v2::params::TransformType::KeyExchangeMethod,
            Transform::SequenceNumber(_) => crate::v2::params::TransformType::SequenceNumber,
        };
        let mut r: Vec<u8> = Vec::new();
        TransformHeader {
            last_substruct: if last { 0u8 } else { 3u8 },
            reserved: 0,
            transform_length: 8 + attributes.len() as u16,
            transform_type: t_type.value(),
            reserved2: 0,
            transform_id: self.id(),
        }.write(&mut r);
        push_all(&mut r, attributes.as_slice());
        assert(r@ =~= transform_encoding(*self, last));
        r
    }
}

/// Each transform's encoding is 8 or 12 bytes long.
pub proof fn lemma_transform_encoding_len(t: Transform, last: bool)
    ensures
        8 <= transform_encoding(t, last).len() <= 12,
{
}

/// The first `k` transforms take at most 12 bytes each.
pub proof fn lemma_transforms_encoding_len(ts: Seq<Transform>, k: nat)
    ensures
        transforms_encoding(ts, k).len() <= 12 * k,
    decreases k,
{
    if k > 0 && k <= ts.len() {
        lemma_transforms_encoding_len(ts, (k - 1) as nat);
        lemma_transform_encoding_len(ts[k - 1], k == ts.len());
    }
}

impl Proposal {
    /// The transforms in the order they are sent.
    pub fn transforms(&self) -> (r: Vec<Transform>)
        ensures
            r@ == self.spec_transforms(),
    {
        let mut r: Vec<Transform> = Vec::new();
        let mut j: usize = 0;
        while j < self.encryption_algorithms.len()
            invariant
                j <= self.encryption_algorithms@.len(),
                r@ == self.encryption_algorithms@.take(j as int).map_values(|e: (crate::v2::params::EncryptionAlgorithm, Option<u16>)| Transform::Encryption(e.0, e.1)),
            decreases self.encryption_algorithms@.len() - j,
        {
            let (a, o) = self.encryption_algorithms[j];
            r.push(Transform::Encryption(a, o));
            j = j + 1;
            assert(r@ =~= self.encryption_algorithms@.take(j as int).map_values(|e: (crate::v2::params::EncryptionAlgorithm, Option<u16>)| Transform::Encryption(e.0, e.1)));
        }
        assert(self.encryption_algorithms@.take(j as int) =~= self.encryption_algorithms@);
        let ghost r0 = r@;
        j = 0;
        while j < self.pseudo_random_functions.len()
            invariant
                j <= self.pseudo_random_functions@.len(),
                r@ == r0 + self.pseudo_random_functions@.take(j as int).map_values(|p| Transform::PseudoRandomFunction(p)),
            decreases self.pseudo_random_functions@.len() - j,
        {
            r.push(Transform::PseudoRandomFunction(self.pseudo_random_functions[j]));
            j = j + 1;
            assert(r@ =~= r0 + self.pseudo_random_functions@.take(j as int).map_values(|p| Transform::PseudoRandomFunction(p)));
        }
        assert(self.pseudo_random_functions@.take(j as int) =~= self.pseudo_random_functions@);
        let ghost r1 = r@;
        j = 0;
        while j < self.integrity_algorithms.len()
            invariant
                j <= self.integrity_algorithms@.len(),
                r@ == r1 + self.integrity_algorithms@.take(j as int).map_values(|i| Transform::Integrity(i)),
            decreases self.integrity_algorithms@.len() - j,
        {
            r.push(Transform::Integrity(self.integrity_algorithms[j]));
            j = j + 1;
            assert(r@ =~= r1 + self.integrity_algorithms@.take(j as int).map_values(|i| Transform::Integrity(i)));
        }
        assert(self.integrity_algorithms@.take(j as int) =~= self.integrity_algorithms@);
        let ghost r2 = r@;
        j = 0;
        while j < self.key_exchange_methods.len()
            invariant
                j <= self.key_exchange_methods@.len(),
                r@ == r2 + self.key_exchange_methods@.take(j as int).map_values(|k| Transform::KeyExchange(k)),
            decreases self.key_exchange_methods@.len() - j,
        {
            r.push(Transform::KeyExchange(self.key_exchange_methods[j]));
            j = j + 1;
            assert(r@ =~= r2 + self.key_exchange_methods@.take(j as int).map_values(|k| Transform::KeyExchange(k)));
        }
        assert(self.key_exchange_methods@.take(j as int) =~= self.key_exchange_methods@);
        let ghost r3 = r@;
        j = 0;
        while j < self.sequence_numbers.len()
            invariant
                j <= self.sequence_numbers@.len(),
                r@ == r3 + self.sequence_numbers@.take(j as int).map_values(|s| Transform::SequenceNumber(s)),
            decreases self.sequence_numbers@.len() - j,
        {
            r.push(Transform::SequenceNumber(self.sequence_numbers[j]));
            j = j + 1;
            assert(r@ =~= r3 + self.sequence_numbers@.take(j as int).map_values(|s| Transform::SequenceNumber(s)));
        }
        assert(self.sequence_numbers@.take(j as int) =~= self.sequence_numbers@);
        assert(r@ =~= self.spec_transforms());
        r
    }

    /// Encode the proposal as number `num`; `last` marks the final proposal of its
    /// security association.
    pub fn try_build(&self, num: u8, last: bool) -> (r: Result<Vec<u8>, GeneratorError>)
        ensures
            bytes_result(r) == proposal_encoding(*self, num, last),
    {
        let missing = match self.protocol {
            crate::v2::params::SecurityProtocol::InternetKeyExchange => self.encryption_algorithms.len() == 0
                || self.pseudo_random_functions.len() == 0 || self.key_exchange_methods.len() == 0,
            crate::v2::params::SecurityProtocol::AuthenticationHeader => self.encryption_algorithms.len() == 0
                || self.sequence_numbers.len() == 0,
            crate::v2::params::SecurityProtocol::EncapsulatingSecurityPayload => self.integrity_algorithms.len() == 0
                || self.sequence_numbers.len() == 0,
            _ => false,
        };
        if missing {
            return Err(GeneratorError::MissingMandatoryTransform);
        }
        if self.spi.len() > 255 {
            return Err(GeneratorError::MaxSpiLengthExceeded);
        }
        let ts = self.transforms();
        if ts.len() > 255 {
            return Err(GeneratorError::TooManyTransforms);
        }
        let n = ts.len();
        let mut body: Vec<u8> = Vec::new();
        let mut i: usize = 0;
        while i < n
            invariant
                n == ts@.len() <= 255,
                i <= n,
                body@ == transforms_encoding(ts@, i as nat),
                body@.len() <= 12 * i,
            decreases n - i,
        {
            proof {
                lemma_transform_encoding_len(ts@[i as int], i + 1 == n);
            }
            let t = ts[i].build(i + 1 == n);
            push_all(&mut body, t.as_slice());
            i = i + 1;
        }
        let len: u16 = 8 + self.spi.len() as u16 + body.len() as u16;
        let mut r: Vec<u8> = Vec::new();
        ProposalHeader {
            last_substruct: if last { 0u8 } else { 2u8 },
            reserved: 0,
            proposal_length: len,
            proposal_num: num,
            protocol_id: self.protocol.value(),
            spi_size: self.spi.len() as u8,
            num_transforms: n as u8,
        }.write(&mut r);
        push_all(&mut r, self.spi.as_slice());
        push_all(&mut r, body.as_slice());
        assert(r@ =~= proposal_encoding(*self, num, last)->Ok_0);
        Ok(r)
    }
}

impl SecurityAssociation {
    /// Encode the security association payload, followed by a payload of type `next_payload`.
    pub fn try_build(&self, next_payload: PayloadType) -> (r: Result<Vec<u8>, GeneratorError>)
        ensures
            bytes_result(r) == security_association_encoding(*self, next_payload),
    {
        let n = self.proposals.len();
        if n >= 255 {
            return Err(GeneratorError::TooManyProposals);
        }
        let mut body: Vec<u8> = Vec::new();
        let mut i: usize = 0;
        while i < n
            invariant
                n == self.proposals@.len() < 255,
                i <= n,
                proposals_encoding(self.proposals@, i as nat) == Ok::<Seq<u8>, GeneratorError>(body@),
            decreases n - i,
        {
            let p = self.proposals[i].try_build((i + 1) as u8, i + 1 == n);
            match p {
                Err(e) => {
                    proof {
                        lemma_proposals_encoding_err(self.proposals@, (i + 1) as nat, n as nat);
                    }
                    return Err(e);
                },
                Ok(pb) => {
                    push_all(&mut body, pb.as_slice());
                },
            }
            i = i + 1;
        }
        if body.len() > 0xffff - 4 {
            return Err(GeneratorError::PayloadTooLarge);
        }
        let mut r: Vec<u8> = Vec::new();
        push_generic_header(&mut r, next_payload, 4 + body.len() as u16);
        push_all(&mut r, body.as_slice());
        Ok(r)
    }
}

/// An error among the first `k` proposals stays an error for all `m >= k`.
pub proof fn lemma_proposals_encoding_err(ps: Seq<Proposal>, k: nat, m: nat)
    requires
        k <= m <= ps.len(),
        proposals_encoding(ps, k) is Err,
    ensures
        proposals_encoding(ps, m) == proposals_encoding(ps, k),
    decreases m - k,
{
    if m > k {
        lemma_proposals_encoding_err(ps, k, (m - 1) as nat);
    }
}

/// An error among the first `k` payloads stays an error for all `m >= k`.
pub proof fn lemma_payloads_encoding_err(ps: Seq<Payload>, k: nat, m: nat)
    requires
        k <= m <= ps.len(),
        payloads_encoding(ps, k) is Err,
    ensures
        payloads_encoding(ps, m) == payloads_encoding(ps, k),
    decreases m - k,
{
    if m > k {
        lemma_payloads_encoding_err(ps, k, (m - 1) as nat);
    }
}

/// Every payload encoding fits its 16-bit length field.
pub proof fn lemma_payload_encoding_len(p: Payload, next: PayloadType)
    ensures
        payload_encoding(p, next) is Ok ==> payload_encoding(p, next)->Ok_0.len() <= 0xffff,
{
}

impl Notification {
    /// Encode the notify payload, followed by a payload of type `next_payload`.
    pub fn try_build(&self, next_payload: PayloadType) -> (r: Result<Vec<u8>, GeneratorError>)
        ensures
            bytes_result(r) == notification_encoding(*self, next_payload),
    {
        let spi_len: usize = match &self.spi {
            Some(s) => s.len(),
            None => 0,
        };
        if spi_len > 255 {
            return Err(GeneratorError::MaxSpiLengthExceeded);
        }
        if self.data.len() > 0xffff - 8 - spi_len {
            return Err(GeneratorError::PayloadTooLarge);
        }
        let variant = match self.variant {
            crate::v2::definitions::NotificationType::Error(e) => e.value(),
            crate::v2::definitions::NotificationType::Status(s) => s.value(),
        };
        let mut r: Vec<u8> = Vec::new();
        push_generic_header(&mut r, next_payload, (8 + spi_len + self.data.len()) as u16);
        NotifyHeader {
            protocol_id: match &self.spi {
                None => 0u8,
                Some(_) => self.protocol.value(),
            },
            spi_size: spi_len as u8,
            notify_message_type: variant,
        }.write(&mut r);
        match &self.spi {
            Some(s) => push_all(&mut r, s.as_slice()),
            None => {},
        }
        push_all(&mut r, self.data.as_slice());
        assert(r@ =~= notification_encoding(*self, next_payload)->Ok_0);
        Ok(r)
    }
}

impl KeyExchange {
    /// Encode the key exchange payload, followed by a payload of type `next_payload`.
    pub fn build(&self, next_payload: PayloadType) -> (r: Vec<u8>)
        requires
            8 + self.data@.len() <= 0xffff,
        ensures
            r@ == key_exchange_encoding(*self, next_payload),
    {
        let mut r: Vec<u8> = Vec::new();
        push_generic_header(&mut r, next_payload, 8 + self.data.len() as u16);
        KeyExchangeHeader { dh_group_num: self.dh_group.value(), reserved: 0 }.write(&mut r);
        push_all(&mut r, self.data.as_slice());
        assert(r@ =~= key_exchange_encoding(*self, next_payload));
        r
    }
}

impl Delete {
    /// Encode the delete payload, followed by a payload of type `next_payload`.
    pub fn build(&self, next_payload: PayloadType) -> (r: Vec<u8>)
        requires
            8 + self.spis@.len() <= 0xffff,
        ensures
            r@ == delete_encoding(*self, next_payload),
    {
        let mut r: Vec<u8> = Vec::new();
        push_generic_header(&mut r, next_payload, 8 + self.spis.len() as u16);
        r.push(self.protocol.value());
        r.push(self.spi_size);
        push_u16(&mut r, self.num_spis);
        push_all(&mut r, self.spis.as_slice());
        assert(r@ =~= delete_encoding(*self, next_payload));
        r
    }
}

/// Encode a payload that is only a generic header and its data.
fn build_generic(data: &Vec<u8>, next_payload: PayloadType) -> (r: Vec<u8>)
    requires
        4 + data@.len() <= 0xffff,
    ensures
        r@ == generic_encoding(data@, next_payload),
{
    let mut r: Vec<u8> = Vec::new();
    push_generic_header(&mut r, next_payload, 4 + data.len() as u16);
    push_all(&mut r, data.as_slice());
    r
}

impl Payload {
    /// Encode the payload, followed by a payload of type `next_payload`.
    pub fn try_build(&self, next_payload: PayloadType) -> (r: Result<Vec<u8>, GeneratorError>)
        ensures
            bytes_result(r) == payload_encoding(*self, next_payload),
    {
        match self {
            Payload::SecurityAssociation(v) => v.try_build(next_payload),
            Payload::KeyExchange(v) => if v.data.len() > 0xffff - 8 {
                Err(GeneratorError::PayloadTooLarge)
            } else {
                Ok(v.build(next_payload))
            },
            Payload::Nonce(v) => if v.len() < 16 || v.len() > 256 {
                Err(GeneratorError::InvalidNonceLength)
            } else {
                Ok(build_generic(v, next_payload))
            },
            Payload::Notify(v) => v.try_build(next_payload),
            Payload::Delete(v) => if v.spis.len() > 0xffff - 8 {
                Err(GeneratorError::PayloadTooLarge)
            } else {
                Ok(v.build(next_payload))
            },
            Payload::VendorID(v) => if v.len() > 0xffff - 4 {
                Err(GeneratorError::PayloadTooLarge)
            } else {
                Ok(build_generic(v, next_payload))
            },
            Payload::EncryptedAndAuthenticated(v) => if v.len() > 0xffff - 4 {
                Err(GeneratorError::PayloadTooLarge)
            } else {
                Ok(build_generic(v, next_payload))
            },
        }
    }
}

impl IKEv2 {
    /// Encode the whole message.
    pub fn try_build(&self) -> (r: Result<Vec<u8>, GeneratorError>)
        ensures
            bytes_result(r) == ikev2_encoding(*self),
    {
        let n = self.payloads.len();
        if n >= 255 {
            return Err(GeneratorError::TooManyPayloads);
        }
        let mut body: Vec<u8> = Vec::new();
        let mut i: usize = 0;
        while i < n
            invariant
                n == self.payloads@.len() < 255,
                i <= n,
                payloads_encoding(self.payloads@, i as nat) == Ok::<Seq<u8>, GeneratorError>(body@),
                body@.len() <= 0xffff * i,
            decreases n - i,
        {
            let next = if i + 1 < n {
                self.payloads[i + 1].payload_type()
            } else {
                PayloadType::NoNextPayload
            };
            let p = self.payloads[i].try_build(next);
            match p {
                Err(e) => {
                    proof {
                        lemma_payloads_encoding_err(self.payloads@, (i + 1) as nat, n as nat);
                    }
                    return Err(e);
                },
                Ok(pb) => {
                    proof {
                        lemma_payload_encoding_len(self.payloads@[i as int], next);
                    }
                    push_all(&mut body, pb.as_slice());
                },
            }
            i = i + 1;
        }
        let first = if n > 0 {
            self.payloads[0].payload_type()
        } else {
            PayloadType::NoNextPayload
        };
        let flags: u8 = (if self.initiator { FLAG_INITIATOR } else { 0u8 }) + (if self.response {
            FLAG_RESPONSE
        } else {
            0u8
        });
        let mut r: Vec<u8> = Vec::new();
        push_u64(&mut r, self.initiator_cookie);
        push_u64(&mut r, self.responder_cookie);
        r.push(first.value());
        r.push(IKE_2_VERSION_VALUE);
        r.push(self.exchange_type.value());
        r.push(flags);
        push_u32(&mut r, self.message_id);
        push_u32(&mut r, 28 + body.len() as u32);
        push_all(&mut r, body.as_slice());
        assert(r@ =~= ikev2_encoding(*self)->Ok_0);
        Ok(r)
    }
}

} // verus!
