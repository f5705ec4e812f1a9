//! Generation of the Main Mode probe that offers a batch of transforms.
use vstd::prelude::*;

use crate::v1::params::{
    AuthenticationMethod, EncryptionAlgorithm, ExchangeType, GroupDescription, HashAlgorithm,
    LifeType, PayloadType,
};
use crate::wire::{push_all, push_u16, push_u32, push_u64, push_zeros, u16_bytes, u32_at, u32_bytes, u64_bytes, zeros};

verus! {

/// Life duration, in seconds, offered with every transform.
pub const LIFE_DURATION_SECONDS: u16 = 7080;

/// Largest batch that one probe can carry: every 16-bit length field stays in range.
pub const MAX_TRANSFORMS_PER_MESSAGE: usize = 1800;

/// A candidate transform: the algorithms that one IKEv1 transform offers.
#[derive(Debug, Clone, Copy, PartialEq, Eq, Structural, PartialOrd, Ord, Hash)]
pub struct Transform {
    /// Encryption algorithm
    pub encryption_algorithm: EncryptionAlgorithm,
    /// Hash algorithm
    pub hash_algorithm: HashAlgorithm,
    /// Authentication method
    pub authentication_method: AuthenticationMethod,
    /// Diffie-Hellman group
    pub group_description: GroupDescription,
    /// Key length in bits, for variable-length ciphers
    pub key_size: Option<u16>,
}

/// Builds a probe message from a batch of transforms.
#[derive(Debug, Clone)]
pub struct MessageBuilder {
    /// Transforms in the order they are offered
    pub transforms: Vec<Transform>,
}

/// A short attribute of class `class`: the type with its top bit set, then the value.
pub open spec fn attribute_short(class: u16, value: u16) -> Seq<u8> {
    u16_bytes((0x8000 + class) as u16) + u16_bytes(value)
}

/// The attributes that offer `t`: encryption, hash, authentication, group, life type
/// (seconds), life duration, then the key length if there is one.
pub open spec fn transform_attributes(t: Transform) -> Seq<u8> {
    attribute_short(1, t.encryption_algorithm.spec_value()) + attribute_short(
        2,
        t.hash_algorithm.spec_value(),
    ) + attribute_short(3, t.authentication_method.spec_value()) + attribute_short(
        4,
        t.group_description.spec_value(),
    ) + attribute_short(11, LifeType::Seconds.spec_value()) + attribute_short(
        12,
        LIFE_DURATION_SECONDS,
    ) + match t.key_size {
        Some(k) => attribute_short(14, k),
        None => Seq::empty(),
    }
}

/// Transform payload number `i` (KEY_IKE); `last` marks the final one.
pub open spec fn transform_payload(t: Transform, i: int, last: bool) -> Seq<u8> {
    let attrs = transform_attributes(t);
    seq![
        if last { PayloadType::NoNextPayload.spec_value() } else { PayloadType::Transform.spec_value() },
        0u8,
    ] + u16_bytes((8 + attrs.len()) as u16) + seq![i as u8, 1u8] + u16_bytes(0) + attrs
}

/// The first `k` transform payloads of a batch.
pub open spec fn transform_payloads(ts: Seq<Transform>, k: nat) -> Seq<u8>
    decreases k,
{
    if k == 0 || k > ts.len() {
        Seq::empty()
    } else {
        transform_payloads(ts, (k - 1) as nat) + transform_payload(ts[k - 1], k - 1, k == ts.len())
    }
}

/// The least multiple of 4 that is at least `n`.
pub open spec fn round_up4(n: int) -> int {
    if n % 4 == 0 {
        n
    } else {
        n + 4 - n % 4
    }
}

/// Header, SA payload header with DOI 1 and situation identity-only, and the header
/// of the single ISAKMP proposal of a probe.
pub open spec fn probe_prefix(cookie: u64, total: u32, sa_len: u16, proposal_len: u16, n: u8) -> Seq<u8> {
    u64_bytes(cookie) + u64_bytes(0) + seq![
        PayloadType::SecurityAssociation.spec_value(),
        0x10u8,
        ExchangeType::IdentityProtection.spec_value(),
        0u8,
    ] + u32_bytes(0) + u32_bytes(total) + seq![PayloadType::NoNextPayload.spec_value(), 0u8]
        + u16_bytes(sa_len) + u32_bytes(1) + seq![0u8, 0u8, 0u8, 1u8] + seq![
        PayloadType::NoNextPayload.spec_value(),
        0u8,
    ] + u16_bytes(proposal_len) + seq![1u8, 1u8, 0u8, n]
}

/// The whole probe: the prefix, the transform payloads, and zero padding up to the
/// declared length, a multiple of 4.
pub open spec fn probe_message(ts: Seq<Transform>, cookie: u64) -> Seq<u8> {
    let body = transform_payloads(ts, ts.len());
    let proposal_len = 8 + body.len();
    let sa_len = 12 + proposal_len;
    let total = round_up4(28 + sa_len as int);
    let unpadded = probe_prefix(cookie, total as u32, sa_len as u16, proposal_len as u16, ts.len() as u8) + body;
    unpadded + zeros((total - unpadded.len()) as nat)
}

/// Append the prefix of a probe.
fn push_probe_prefix(out: &mut Vec<u8>, cookie: u64, total: u32, sa_len: u16, proposal_len: u16, n: u8)
    ensures
        final(out)@ == old(out)@ + probe_prefix(cookie, total, sa_len, proposal_len, n),
        probe_prefix(cookie, total, sa_len, proposal_len, n).len() == 48,
{
    let mut r: Vec<u8> = Vec::new();
    push_u64(&mut r, cookie);
    push_u64(&mut r, 0);
    r.push(PayloadType::SecurityAssociation.value());
    r.push(0x10u8);
    r.push(ExchangeType::IdentityProtection.value());
    r.push(0u8);
    push_u32(&mut r, 0);
    push_u32(&mut r, total);
    r.push(PayloadType::NoNextPayload.value());
    r.push(0u8);
    push_u16(&mut r, sa_len);
    push_u32(&mut r, 1);
    r.push(0u8);
    r.push(0u8);
    r.push(0u8);
    r.push(1u8);
    r.push(PayloadType::NoNextPayload.value());
    r.push(0u8);
    push_u16(&mut r, proposal_len);
    r.push(1u8);
    r.push(1u8);
    r.push(0u8);
    r.push(n);
    assert(r@ =~= probe_prefix(cookie, total, sa_len, proposal_len, n));
    push_all(out, r.as_slice());
}

/// Relies on `rand::random::<u64>`: a uniformly drawn cookie; nothing is promised of it.
#[verifier::external_body]
pub(crate) fn random_cookie() -> u64 {
    rand::random::<u64>()
}

/// Append one short attribute.
fn push_attribute(out: &mut Vec<u8>, class: u16, value: u16)
    requires
        class < 0x8000,
    ensures
        final(out)@ == old(out)@ + attribute_short(class, value),
{
    push_u16(out, 0x8000 + class);
    push_u16(out, value);
    assert(final(out)@ =~= old(out)@ + attribute_short(class, value));
}

/// Transform payload number `i` of a batch; `last` marks the final one.
pub fn build_transform_payload(t: &Transform, i: usize, last: bool) -> (r: Vec<u8>)
    ensures
        r@ == transform_payload(*t, i as int, last),
        r@.len() == 32 || r@.len() == 36,
{
    let mut attrs: Vec<u8> = Vec::new();
    push_attribute(&mut attrs, 1, t.encryption_algorithm.value());
    push_attribute(&mut attrs, 2, t.hash_algorithm.value());
    push_attribute(&mut attrs, 3, t.authentication_method.value());
    push_attribute(&mut attrs, 4, t.group_description.value());
    push_attribute(&mut attrs, 11, LifeType::Seconds.value());
    push_attribute(&mut attrs, 12, LIFE_DURATION_SECONDS);
    match t.key_size {
        Some(k) => push_attribute(&mut attrs, 14, k),
        None => {},
    }
    assert(attrs@ =~= transform_attributes(*t));
    let mut r: Vec<u8> = Vec::new();
    r.push(if last { PayloadType::NoNextPayload.value() } else { PayloadType::Transform.value() });
    r.push(0u8);
    push_u16(&mut r, 8 + attrs.len() as u16);
    r.push(i as u8);
    r.push(1u8);
    push_u16(&mut r, 0);
    push_all(&mut r, attrs.as_slice());
    assert(r@ =~= transform_payload(*t, i as int, last));
    r
}

/// Each transform payload is 32 or 36 bytes long.
pub proof fn lemma_transform_payload_len(t: Transform, i: int, last: bool)
    ensures
        transform_payload(t, i, last).len() == (if t.key_size is Some { 36int } else { 32int }),
{
}

/// The first `k` transform payloads take a multiple of 4 bytes, at most 36 per transform.
pub proof fn lemma_transform_payloads_len(ts: Seq<Transform>, k: nat)
    ensures
        transform_payloads(ts, k).len() <= 36 * k,
        transform_payloads(ts, k).len() % 4 == 0,
    decreases k,
{
    if k > 0 && k <= ts.len() {
        lemma_transform_payloads_len(ts, (k - 1) as nat);
        lemma_transform_payload_len(ts[k - 1], k - 1, k == ts.len());
    }
}

impl MessageBuilder {
    /// A builder without transforms.
    pub fn new() -> (r: MessageBuilder)
        ensures
            r.transforms@ == Seq::<Transform>::empty(),
    {
        MessageBuilder { transforms: Vec::new() }
    }

    /// Offer one more transform, after those already added.
    pub fn add_transform(self, transform: Transform) -> (r: MessageBuilder)
        ensures
            r.transforms@ == self.transforms@.push(transform),
    {
        let mut s = self;
        s.transforms.push(transform);
        s
    }

    /// The probe for the batch, with `cookie` as the initiator cookie.
    pub fn build_with_cookie(&self, cookie: u64) -> (r: Vec<u8>)
        requires
            self.transforms@.len() <= MAX_TRANSFORMS_PER_MESSAGE,
        ensures
            r@ == probe_message(self.transforms@, cookie),
    {
        let n = self.transforms.len();
        let mut body: Vec<u8> = Vec::new();
        let mut i: usize = 0;
        while i < n
            invariant
                n == self.transforms@.len() <= MAX_TRANSFORMS_PER_MESSAGE,
                i <= n,
                body@ == transform_payloads(self.transforms@, i as nat),
                body@.len() <= 36 * i,
            decreases n - i,
        {
            let t = build_transform_payload(&self.transforms[i], i, i + 1 == n);
            push_all(&mut body, t.as_slice());
            i = i + 1;
        }
        let proposal_len: u16 = 8 + body.len() as u16;
        let sa_len: u16 = 12 + proposal_len;
        let unpadded_len: u32 = 28 + sa_len as u32;
        let total: u32 = if unpadded_len % 4 == 0 {
            unpadded_len
        } else {
            unpadded_len + 4 - unpadded_len % 4
        };
        let mut r: Vec<u8> = Vec::new();
        push_probe_prefix(&mut r, cookie, total, sa_len, proposal_len, n as u8);
        push_all(&mut r, body.as_slice());
        assert(r@.len() == unpadded_len);
        push_zeros(&mut r, (total - unpadded_len) as usize);
        assert(r@ =~= probe_message(self.transforms@, cookie));
        r
    }

    /// The probe for the batch and the random initiator cookie that it carries.
    pub fn build(self) -> (r: (Vec<u8>, u64))
        requires
            self.transforms@.len() <= MAX_TRANSFORMS_PER_MESSAGE,
        ensures
            r.0@ == probe_message(self.transforms@, r.1),
    {
        let cookie = random_cookie();
        (self.build_with_cookie(cookie), cookie)
    }
}

impl Default for MessageBuilder {
    /// A builder without transforms.
    fn default() -> (r: MessageBuilder)
        ensures
            r.transforms@ == Seq::<Transform>::empty(),
    {
        MessageBuilder::new()
    }
}

/// Two probes for the same batch differ at most in the 8 bytes of the initiator cookie.
pub proof fn lemma_probe_differs_only_in_cookie(ts: Seq<Transform>, c1: u64, c2: u64)
    ensures
        probe_message(ts, c1).len() == probe_message(ts, c2).len(),
        forall|i: int|
            8 <= i < probe_message(ts, c1).len() ==> #[trigger] probe_message(ts, c1)[i]
                == probe_message(ts, c2)[i],
{
    let m1 = probe_message(ts, c1);
    let m2 = probe_message(ts, c2);
    assert(u64_bytes(c1).len() == 8);
    assert(u64_bytes(c2).len() == 8);
    assert(m1.subrange(8, m1.len() as int) =~= m2.subrange(8, m2.len() as int));
    assert forall|i: int| 8 <= i < m1.len() implies m1[i] == m2[i] by {
        assert(m1[i] == m1.subrange(8, m1.len() as int)[i - 8]);
        assert(m2[i] == m2.subrange(8, m2.len() as int)[i - 8]);
    }
}

/// The 32-bit value of the bytes of `x` is `x`.
pub proof fn lemma_u32_bytes_roundtrip(x: u32)
    ensures
        u32_at(u32_bytes(x), 0) == x,
{
    let hi = (x / 0x10000) as u16;
    let lo = (x % 0x10000) as u16;
    assert(u32_bytes(x)[0] == (hi / 0x100) as u8);
    assert(u32_bytes(x)[1] == (hi % 0x100) as u8);
    assert(u32_bytes(x)[2] == (lo / 0x100) as u8);
    assert(u32_bytes(x)[3] == (lo % 0x100) as u8);
}

/// A probe is a multiple of 4 bytes long, its header declares its exact length, and that
/// length is header + SA + proposal + transforms, which need no padding.
pub proof fn lemma_probe_length(ts: Seq<Transform>, cookie: u64)
    requires
        ts.len() <= MAX_TRANSFORMS_PER_MESSAGE,
    ensures
        probe_message(ts, cookie).len() % 4 == 0,
        probe_message(ts, cookie).len() == 28 + 12 + 8 + transform_payloads(ts, ts.len()).len(),
        u32_at(probe_message(ts, cookie), 24) == probe_message(ts, cookie).len(),
{
    lemma_transform_payloads_len(ts, ts.len());
    let m = probe_message(ts, cookie);
    let body = transform_payloads(ts, ts.len());
    let total = 48 + body.len();
    assert(round_up4(48 + body.len() as int) == total);
    lemma_u32_bytes_roundtrip(total as u32);
    assert(m.subrange(24, 28) =~= u32_bytes(total as u32));
    assert(m[24] == u32_bytes(total as u32)[0]);
    assert(m[25] == u32_bytes(total as u32)[1]);
    assert(m[26] == u32_bytes(total as u32)[2]);
    assert(m[27] == u32_bytes(total as u32)[3]);
}

} // verus!
