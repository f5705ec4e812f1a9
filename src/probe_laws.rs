//! Laws of the probe codec: whatever the parser reads from a probe offers exactly the
//! batch that the probe was built from.
use vstd::prelude::*;

use crate::engine::{collect_attributes, decode_transform, decode_transforms, transform_of_attributes, Collected};
use crate::v1::definitions::{DataAttribute, Packet, ProposalPayload, TransformPayload};
use crate::v1::generator as generator_lemmas;
use crate::v1::generator::{
    attribute_short, probe_message, transform_attributes, transform_payload, transform_payloads,
    Transform, LIFE_DURATION_SECONDS, MAX_TRANSFORMS_PER_MESSAGE,
};
use crate::v1::params::{
    AttributeType, AuthenticationMethod, DomainOfInterpretation, EncryptionAlgorithm, ExchangeType, GroupDescription,
    HashAlgorithm, LifeType, PayloadType,
};
use crate::v1::parser::{
    attribute_at, attribute_chain, attribute_len, attributes_match, generic_header_len, offsets_after,
    offsets_of, packet_payloads_match, payload_offsets, proposal_at, proposal_chain, proposal_len,
    proposal_payload_matches, sa_at, sa_payload_matches, security_association_len, transform_at,
    transform_chain, transform_len, transform_matches, IsakmpParseError,
};
use crate::v2::parser::{lemma_u16_round_trip, lemma_u64_round_trip};
use crate::wire::{u16_at, u16_bytes, u32_at, u32_bytes, u64_at, u64_bytes};

verus! {

/// A short attribute of a known class at `s[p..p + 4]` takes four bytes of the chain, and
/// the only attribute that can stand there is that one.
pub proof fn lemma_chain_short_step(s: Seq<u8>, p: int, class: u16, value: u16)
    requires
        0 <= p,
        p + 4 <= s.len(),
        s.subrange(p, p + 4) == attribute_short(class, value),
        1 <= class <= 16,
    ensures
        attribute_chain(s, p) == offsets_after(seq![p], attribute_chain(s, p + 4)),
        forall|a: DataAttribute| #[trigger] attribute_at(a, s, p) ==> (a matches DataAttribute::DataAttributeShort(x)
            && x.attribute_type == AttributeType::spec_from_value(class)->Some_0 && x.attribute_value == value),
{
    let sub = s.subrange(p, s.len() as int);
    let enc = attribute_short(class, value);
    assert(sub[0] == enc[0] && sub[1] == enc[1] && sub[2] == enc[2] && sub[3] == enc[3]);
    assert(u16_at(sub, 0) == 0x8000 + class);
    assert(u16_at(sub, 2) == value);
    assert(sub[0] >= 0x80);
    assert(AttributeType::spec_known(class));
    assert(attribute_len(sub) == Ok::<int, IsakmpParseError>(4));
    match attribute_chain(s, p + 4) {
        Ok(r) => assert(seq![p] + r =~= seq![p] + r),
        Err(_) => {},
    }
    assert forall|a: DataAttribute| #[trigger] attribute_at(a, s, p) implies (a matches DataAttribute::DataAttributeShort(x)
        && x.attribute_type == AttributeType::spec_from_value(class)->Some_0 && x.attribute_value == value) by {
        if let DataAttribute::DataAttributeShort(x) = a {
            AttributeType::lemma_value_round_trip(x.attribute_type);
        }
    }
}

/// The attribute classes and values that a probe's transform carries, in order.
pub open spec fn probe_attribute(t: Transform, k: int) -> (u16, u16) {
    if k == 0 {
        (1, t.encryption_algorithm.spec_value())
    } else if k == 1 {
        (2, t.hash_algorithm.spec_value())
    } else if k == 2 {
        (3, t.authentication_method.spec_value())
    } else if k == 3 {
        (4, t.group_description.spec_value())
    } else if k == 4 {
        (11, LifeType::Seconds.spec_value())
    } else if k == 5 {
        (12, LIFE_DURATION_SECONDS)
    } else {
        (14, t.key_size->Some_0)
    }
}

/// The number of attributes that a probe's transform carries.
pub open spec fn probe_attribute_count(t: Transform) -> int {
    if t.key_size is Some {
        7
    } else {
        6
    }
}

/// Attribute `k` of a probe's transform payload sits at `8 + 4 * k`.
#[verifier::rlimit(100)]
pub proof fn lemma_probe_attribute_bytes(t: Transform, i: int, last: bool, k: int)
    requires
        0 <= k < probe_attribute_count(t),
    ensures
        transform_payload(t, i, last).len() == 8 + 4 * probe_attribute_count(t),
        transform_payload(t, i, last).subrange(8 + 4 * k, 12 + 4 * k) == attribute_short(probe_attribute(t, k).0, probe_attribute(t, k).1),
{
    let b = transform_payload(t, i, last);
    let attrs = transform_attributes(t);
    assert(b.subrange(8, b.len() as int) =~= attrs);
    let (c, v) = probe_attribute(t, k);
    assert(b.subrange(8 + 4 * k, 12 + 4 * k) =~= attrs.subrange(4 * k, 4 * k + 4));
    if k == 0 {
        assert(attrs.subrange(0, 4) =~= attribute_short(c, v));
    } else if k == 1 {
        assert(attrs.subrange(4, 8) =~= attribute_short(c, v));
    } else if k == 2 {
        assert(attrs.subrange(8, 12) =~= attribute_short(c, v));
    } else if k == 3 {
        assert(attrs.subrange(12, 16) =~= attribute_short(c, v));
    } else if k == 4 {
        assert(attrs.subrange(16, 20) =~= attribute_short(c, v));
    } else if k == 5 {
        assert(attrs.subrange(20, 24) =~= attribute_short(c, v));
    } else {
        assert(attrs.subrange(24, 28) =~= attribute_short(c, v));
    }
}

/// From attribute `k` on, bytes that hold `n` short attributes of known classes after an
/// 8-byte header are a chain of attributes four bytes apart.
pub proof fn lemma_short_chain(b: Seq<u8>, n: int, k: int, f: spec_fn(int) -> (u16, u16))
    requires
        0 <= k <= n,
        b.len() == 8 + 4 * n,
        forall|j: int| 0 <= j < n ==> 1 <= (#[trigger] f(j)).0 <= 16,
        forall|j: int| 0 <= j < n ==> #[trigger] b.subrange(8 + 4 * j, 12 + 4 * j) == attribute_short(f(j).0, f(j).1),
    ensures
        attribute_chain(b, 8 + 4 * k) == Ok::<Seq<int>, IsakmpParseError>(Seq::new((n - k) as nat, |j: int| 8 + 4 * (k + j))),
    decreases n - k,
{
    if k == n {
        assert(Seq::new((n - k) as nat, |j: int| 8 + 4 * (k + j)) =~= Seq::<int>::empty());
    } else {
        lemma_short_chain(b, n, k + 1, f);
        assert(b.subrange(8 + 4 * k, 12 + 4 * k) == attribute_short(f(k).0, f(k).1));
        assert(1 <= f(k).0 <= 16);
        lemma_chain_short_step(b, 8 + 4 * k, f(k).0, f(k).1);
        assert(8 + 4 * (k + 1) == 8 + 4 * k + 4);
        assert(seq![8 + 4 * k] + Seq::new((n - (k + 1)) as nat, |j: int| 8 + 4 * (k + 1 + j)) =~= Seq::new((n - k) as nat, |j: int| 8 + 4 * (k + j)));
    }
}

/// When `t` has a key length, `attrs` are seven attributes, the last the short key
/// length attribute carrying it.
pub open spec fn key_length_attribute(t: Transform, attrs: Seq<DataAttribute>) -> bool {
    t.key_size is Some ==> {
        &&& attrs.len() == 7
        &&& attrs[6] matches DataAttribute::DataAttributeShort(x)
        &&& x.attribute_type == AttributeType::KeyLength
        &&& x.attribute_value == t.key_size->Some_0
    }
}

/// The attributes of a probe's transform payload form a chain, and whatever attributes
/// a parser reads from it name exactly that transform.
#[verifier::rlimit(100)]
pub proof fn lemma_probe_transform_decodes(t: Transform, i: int, last: bool, attrs: Seq<DataAttribute>)
    requires
        attribute_chain(transform_payload(t, i, last), 8) is Ok
            ==> attributes_match(attrs, transform_payload(t, i, last), attribute_chain(transform_payload(t, i, last), 8)->Ok_0),
    ensures
        attribute_chain(transform_payload(t, i, last), 8) is Ok,
        transform_of_attributes(attrs) == Some(t),
        key_length_attribute(t, attrs),
{
    let b = transform_payload(t, i, last);
    let n = probe_attribute_count(t);
    generator_lemmas::lemma_transform_payload_len(t, i, last);
    let f = |j: int| probe_attribute(t, j);
    assert forall|j: int| 0 <= j < n implies #[trigger] b.subrange(8 + 4 * j, 12 + 4 * j) == attribute_short(f(j).0, f(j).1) by {
        lemma_probe_attribute_bytes(t, i, last, j);
    }
    assert forall|j: int| 0 <= j < n implies 1 <= (#[trigger] f(j)).0 <= 16 by {}
    lemma_short_chain(b, n, 0, f);
    let os = attribute_chain(b, 8)->Ok_0;
    assert(attribute_chain(b, 8) is Ok);
    assert(attrs.len() == n);
    assert forall|j: int| 0 <= j < n implies (#[trigger] attrs[j] matches DataAttribute::DataAttributeShort(x)
        && x.attribute_type == AttributeType::spec_from_value(probe_attribute(t, j).0)->Some_0
        && x.attribute_value == probe_attribute(t, j).1) by {
        assert(os[j] == 8 + 4 * j);
        assert(attribute_at(attrs[j], b, os[j]));
        lemma_probe_attribute_bytes(t, i, last, j);
        lemma_chain_short_step(b, 8 + 4 * j, probe_attribute(t, j).0, probe_attribute(t, j).1);
    }
    if t.key_size is Some {
        assert(attrs[6] matches DataAttribute::DataAttributeShort(x)
            && x.attribute_type == AttributeType::spec_from_value(probe_attribute(t, 6).0)->Some_0
            && x.attribute_value == probe_attribute(t, 6).1);
    }
    EncryptionAlgorithm::lemma_value_round_trip(t.encryption_algorithm);
    HashAlgorithm::lemma_value_round_trip(t.hash_algorithm);
    AuthenticationMethod::lemma_value_round_trip(t.authentication_method);
    GroupDescription::lemma_value_round_trip(t.group_description);
    reveal_with_fuel(collect_attributes, 8);
    assert(attrs.take(6).len() == 6);
    let c6 = collect_attributes(attrs.take(6));
    assert(attrs.take(6).drop_last() =~= attrs.take(5));
    assert(attrs.take(5).drop_last() =~= attrs.take(4));
    assert(attrs.take(4).drop_last() =~= attrs.take(3));
    assert(attrs.take(3).drop_last() =~= attrs.take(2));
    assert(attrs.take(2).drop_last() =~= attrs.take(1));
    assert(attrs.take(1).drop_last() =~= attrs.take(0));
    assert(c6 == Some(Collected {
        encryption_algorithm: Some(t.encryption_algorithm),
        hash_algorithm: Some(t.hash_algorithm),
        authentication_method: Some(t.authentication_method),
        group_description: Some(t.group_description),
        key_size: None,
    }));
    if n == 6 {
        assert(attrs.take(6) =~= attrs);
    } else {
        assert(attrs.drop_last() =~= attrs.take(6));
    }
}

/// The attributes of a probe's transform payload are a chain of short attributes four
/// bytes apart.
pub proof fn lemma_probe_attribute_chain(t: Transform, i: int, last: bool)
    ensures
        attribute_chain(transform_payload(t, i, last), 8) == Ok::<Seq<int>, IsakmpParseError>(
            Seq::new(probe_attribute_count(t) as nat, |j: int| 8 + 4 * (0 + j)),
        ),
{
    let b = transform_payload(t, i, last);
    let n = probe_attribute_count(t);
    generator_lemmas::lemma_transform_payload_len(t, i, last);
    let f = |j: int| probe_attribute(t, j);
    assert forall|j: int| 0 <= j < n implies #[trigger] b.subrange(8 + 4 * j, 12 + 4 * j) == attribute_short(f(j).0, f(j).1) by {
        lemma_probe_attribute_bytes(t, i, last, j);
    }
    assert forall|j: int| 0 <= j < n implies 1 <= (#[trigger] f(j)).0 <= 16 by {}
    lemma_short_chain(b, n, 0, f);
}

/// A probe's transform payload, whatever follows it, reads as a transform payload of its
/// own length.
pub proof fn lemma_probe_transform_len(t: Transform, i: int, last: bool, rest: Seq<u8>)
    ensures
        transform_len(transform_payload(t, i, last) + rest) == Ok::<int, IsakmpParseError>(transform_payload(t, i, last).len() as int),
{
    let b = transform_payload(t, i, last);
    let s = b + rest;
    let size = b.len() as int;
    generator_lemmas::lemma_transform_payload_len(t, i, last);
    let attrs = transform_attributes(t);
    lemma_u16_round_trip((8 + attrs.len()) as u16);
    lemma_u16_round_trip(0);
    assert(u16_at(s, 2) == u16_at(u16_bytes((8 + attrs.len()) as u16), 0));
    assert(u16_at(s, 6) == u16_at(u16_bytes(0), 0));
    assert(s[1] == 0);
    assert(PayloadType::spec_known(s[0]));
    assert(generic_header_len(s, 8) == Ok::<int, IsakmpParseError>(size));
    assert(s.subrange(0, size) =~= b);
    lemma_probe_attribute_chain(t, i, last);
}

/// The first `k` transform payloads of a batch start its first `n`.
pub proof fn lemma_transform_payloads_prefix(ts: Seq<Transform>, k: nat, n: nat)
    requires
        k <= n <= ts.len(),
    ensures
        transform_payloads(ts, k).len() <= transform_payloads(ts, n).len(),
        transform_payloads(ts, n).subrange(0, transform_payloads(ts, k).len() as int) == transform_payloads(ts, k),
    decreases n - k,
{
    if k < n {
        lemma_transform_payloads_prefix(ts, k, (n - 1) as nat);
        let a = transform_payloads(ts, (n - 1) as nat);
        let full = transform_payloads(ts, n);
        assert(full.subrange(0, a.len() as int) =~= a);
        assert(full.subrange(0, transform_payloads(ts, k).len() as int) =~= a.subrange(0, transform_payloads(ts, k).len() as int));
    } else {
        assert(transform_payloads(ts, n).subrange(0, transform_payloads(ts, n).len() as int) =~= transform_payloads(ts, n));
    }
}

/// The offset of transform payload `k` within a batch's transform payloads.
pub open spec fn payload_offset(ts: Seq<Transform>, k: int) -> int {
    transform_payloads(ts, k as nat).len() as int
}

/// Within a region that carries a batch after an 8-byte header, transform payload `k`
/// starts at `8 + payload_offset(ts, k)` and the next one right after it.
#[verifier::rlimit(60)]
pub proof fn lemma_payload_slice(ts: Seq<Transform>, p: Seq<u8>, k: int)
    requires
        0 <= k < ts.len(),
        p.len() == 8 + transform_payloads(ts, ts.len()).len(),
        p.subrange(8, p.len() as int) == transform_payloads(ts, ts.len()),
    ensures
        payload_offset(ts, k + 1) == payload_offset(ts, k) + transform_payload(ts[k], k, k + 1 == ts.len()).len(),
        8 + payload_offset(ts, k + 1) <= p.len(),
        p.subrange(8 + payload_offset(ts, k), p.len() as int) == transform_payload(ts[k], k, k + 1 == ts.len())
            + p.subrange(8 + payload_offset(ts, k + 1), p.len() as int),
{
    let n = ts.len();
    let body = transform_payloads(ts, n);
    lemma_transform_payloads_prefix(ts, k as nat, n);
    lemma_transform_payloads_prefix(ts, (k + 1) as nat, n);
    let off = payload_offset(ts, k);
    let next = payload_offset(ts, k + 1);
    let here = transform_payload(ts[k], k, k + 1 == n);
    assert(transform_payloads(ts, (k + 1) as nat) == transform_payloads(ts, k as nat) + here);
    assert(body.subrange(off, next) =~= here) by {
        assert(body.subrange(0, next) == transform_payloads(ts, (k + 1) as nat));
        assert(body.subrange(off, next) =~= body.subrange(0, next).subrange(off, next));
    }
    assert(p.subrange(8 + off, p.len() as int) =~= here + p.subrange(8 + next, p.len() as int)) by {
        assert(p.subrange(8 + off, 8 + next) =~= body.subrange(off, next));
    }
}

/// A proposal region that carries a batch after an 8-byte header is a chain of its
/// transform payloads, from payload `k` on.
#[verifier::rlimit(60)]
pub proof fn lemma_probe_transform_chain(ts: Seq<Transform>, p: Seq<u8>, k: int)
    requires
        0 <= k <= ts.len(),
        p.len() == 8 + transform_payloads(ts, ts.len()).len(),
        p.subrange(8, p.len() as int) == transform_payloads(ts, ts.len()),
    ensures
        transform_chain(p, 8 + payload_offset(ts, k)) == Ok::<Seq<int>, IsakmpParseError>(
            Seq::new((ts.len() - k) as nat, |j: int| 8 + payload_offset(ts, k + j)),
        ),
    decreases ts.len() - k,
{
    let n = ts.len();
    let body = transform_payloads(ts, n);
    lemma_transform_payloads_prefix(ts, k as nat, n);
    if k == n {
        assert(Seq::new((n - k) as nat, |j: int| 8 + payload_offset(ts, k + j)) =~= Seq::<int>::empty());
    } else {
        lemma_probe_transform_chain(ts, p, k + 1);
        lemma_payload_slice(ts, p, k);
        let off = payload_offset(ts, k);
        let next = payload_offset(ts, k + 1);
        let here = transform_payload(ts[k], k, k + 1 == n);
        let rest = p.subrange(8 + next, p.len() as int);
        lemma_probe_transform_len(ts[k], k, k + 1 == n, rest);
        generator_lemmas::lemma_transform_payload_len(ts[k], k, k + 1 == n);
        assert(8 + off + here.len() == 8 + next);
        assert(seq![8 + off] + Seq::new((n - (k + 1)) as nat, |j: int| 8 + payload_offset(ts, k + 1 + j))
            =~= Seq::new((n - k) as nat, |j: int| 8 + payload_offset(ts, k + j)));
    }
}

/// Decoding every transform payload of a list decodes the list.
pub proof fn lemma_decode_all(tps: Seq<TransformPayload>, ts: Seq<Transform>)
    requires
        tps.len() == ts.len(),
        forall|k: int| 0 <= k < tps.len() ==> #[trigger] decode_transform(tps[k]) == Some(ts[k]),
    ensures
        decode_transforms(tps) == Some(ts),
    decreases tps.len(),
{
    if tps.len() > 0 {
        lemma_decode_all(tps.drop_last(), ts.drop_last());
        assert(decode_transform(tps[tps.len() - 1]) == Some(ts[ts.len() - 1]));
        assert(ts.drop_last().push(ts.last()) =~= ts);
    }
}

/// The proposal of a probe: its header, then the batch's transform payloads.
pub open spec fn probe_proposal(ts: Seq<Transform>) -> Seq<u8> {
    let body = transform_payloads(ts, ts.len());
    seq![PayloadType::NoNextPayload.spec_value(), 0u8] + u16_bytes((8 + body.len()) as u16) + seq![1u8, 1u8, 0u8, ts.len() as u8] + body
}

/// The transforms of a probe's proposal region lie at the offsets of its payloads.
#[verifier::rlimit(60)]
pub proof fn lemma_probe_proposal_region(ts: Seq<Transform>)
    requires
        1 <= ts.len() <= 255,
    ensures
        ({
            let p = probe_proposal(ts);
            &&& p.len() == 8 + transform_payloads(ts, ts.len()).len()
            &&& p.subrange(8, p.len() as int) == transform_payloads(ts, ts.len())
            &&& u16_at(p, 2) == p.len()
            &&& p.subrange(0, p.len() as int) == p
            &&& p[6] == 0
            &&& p[7] == ts.len()
            &&& transform_chain(p, 8) == Ok::<Seq<int>, IsakmpParseError>(Seq::new(ts.len() as nat, |j: int| 8 + payload_offset(ts, 0 + j)))
        }),
{
    let n = ts.len();
    let p = probe_proposal(ts);
    let body = transform_payloads(ts, n);
    generator_lemmas::lemma_transform_payloads_len(ts, n);
    lemma_u16_round_trip((8 + body.len()) as u16);
    assert(u16_at(p, 2) == u16_at(u16_bytes((8 + body.len()) as u16), 0));
    assert(p.subrange(0, p.len() as int) =~= p);
    assert(p.subrange(8, p.len() as int) =~= body);
    lemma_probe_transform_chain(ts, p, 0);
    assert(payload_offset(ts, 0) == 0);
}

/// Transform payload `k` of a probe's proposal, as the bytes from its offset on.
#[verifier::rlimit(100)]
pub proof fn lemma_probe_transform_bytes(ts: Seq<Transform>, k: int)
    requires
        1 <= ts.len() <= 255,
        0 <= k < ts.len(),
    ensures
        ({
            let p = probe_proposal(ts);
            let here = transform_payload(ts[k], k, k + 1 == ts.len());
            let x = p.subrange(8 + payload_offset(ts, k), p.len() as int);
            &&& 0 <= 8 + payload_offset(ts, k) <= p.len()
            &&& x.len() >= here.len()
            &&& x.subrange(0, here.len() as int) == here
            &&& u16_at(x, 2) == here.len()
        }),
{
    let n = ts.len();
    let p = probe_proposal(ts);
    lemma_probe_proposal_region(ts);
    lemma_payload_slice(ts, p, k);
    let here = transform_payload(ts[k], k, k + 1 == n);
    let x = p.subrange(8 + payload_offset(ts, k), p.len() as int);
    let rest = p.subrange(8 + payload_offset(ts, k + 1), p.len() as int);
    assert(x == here + rest);
    generator_lemmas::lemma_transform_payload_len(ts[k], k, k + 1 == n);
    lemma_u16_round_trip((8 + transform_attributes(ts[k]).len()) as u16);
    assert(u16_at(x, 2) == u16_at(u16_bytes((8 + transform_attributes(ts[k]).len()) as u16), 0));
    assert(x.subrange(0, here.len() as int) =~= here);
}

/// A transform payload read from bytes that start with a probe's transform payload
/// offers that transform.
#[verifier::rlimit(100)]
pub proof fn lemma_matched_transform_decodes(t: Transform, i: int, last: bool, tp: TransformPayload, x: Seq<u8>)
    requires
        x.len() >= transform_payload(t, i, last).len(),
        x.subrange(0, transform_payload(t, i, last).len() as int) == transform_payload(t, i, last),
        u16_at(x, 2) == transform_payload(t, i, last).len(),
        transform_matches(tp, x),
    ensures
        decode_transform(tp) == Some(t),
        key_length_attribute(t, tp.sa_attributes@),
{
    lemma_probe_transform_decodes(t, i, last, tp.sa_attributes@);
}

/// Transform payload `k` of a parsed probe proposal offers transform `k` of the batch.
pub proof fn lemma_probe_proposal_transform(ts: Seq<Transform>, prop: ProposalPayload, k: int)
    requires
        1 <= ts.len() <= 255,
        0 <= k < ts.len(),
        prop.transforms@.len() == ts.len(),
        transform_at(prop.transforms@[k], probe_proposal(ts), 8 + payload_offset(ts, k)),
    ensures
        decode_transform(prop.transforms@[k]) == Some(ts[k]),
        key_length_attribute(ts[k], prop.transforms@[k].sa_attributes@),
{
    let p = probe_proposal(ts);
    lemma_probe_transform_bytes(ts, k);
    let x = p.subrange(8 + payload_offset(ts, k), p.len() as int);
    lemma_matched_transform_decodes(ts[k], k, k + 1 == ts.len(), prop.transforms@[k], x);
}

/// A parsed proposal payload of a probe offers exactly the batch.
pub proof fn lemma_probe_proposal_decodes(ts: Seq<Transform>, prop: ProposalPayload)
    requires
        1 <= ts.len() <= 255,
        proposal_payload_matches(prop, probe_proposal(ts)),
    ensures
        decode_transforms(prop.transforms@) == Some(ts),
        forall|k: int| 0 <= k < ts.len() ==> key_length_attribute(ts[k], #[trigger] prop.transforms@[k].sa_attributes@),
{
    let n = ts.len();
    let p = probe_proposal(ts);
    lemma_probe_proposal_region(ts);
    let os = transform_chain(p, 8)->Ok_0;
    assert forall|k: int| 0 <= k < n implies #[trigger] decode_transform(prop.transforms@[k]) == Some(ts[k])
        && key_length_attribute(ts[k], prop.transforms@[k].sa_attributes@) by {
        assert(os[k] == 8 + payload_offset(ts, 0 + k));
        assert(transform_at(prop.transforms@[k], p, os[k]));
        lemma_probe_proposal_transform(ts, prop, k);
    }
    assert forall|k: int| 0 <= k < n implies key_length_attribute(ts[k], #[trigger] prop.transforms@[k].sa_attributes@) by {
        assert(os[k] == 8 + payload_offset(ts, 0 + k));
        assert(transform_at(prop.transforms@[k], p, os[k]));
        lemma_probe_proposal_transform(ts, prop, k);
    }
    lemma_decode_all(prop.transforms@, ts);
}

/// The security association payload of a probe, to the end of the message.
pub open spec fn probe_sa(ts: Seq<Transform>) -> Seq<u8> {
    let body = transform_payloads(ts, ts.len());
    seq![PayloadType::NoNextPayload.spec_value(), 0u8] + u16_bytes((20 + body.len()) as u16) + u32_bytes(1)
        + seq![0u8, 0u8, 0u8, 1u8] + probe_proposal(ts)
}

/// A probe's proposal reads as a proposal payload of its own length.
#[verifier::rlimit(60)]
pub proof fn lemma_probe_proposal_len(ts: Seq<Transform>)
    requires
        1 <= ts.len() <= 255,
    ensures
        proposal_len(probe_proposal(ts)) == Ok::<int, IsakmpParseError>(probe_proposal(ts).len() as int),
        probe_proposal(ts).len() >= 8,
{
    let p = probe_proposal(ts);
    lemma_probe_proposal_region(ts);
    assert(PayloadType::spec_known(p[0]));
    assert(generic_header_len(p, 8) == Ok::<int, IsakmpParseError>(p.len() as int));
}

/// The header of a probe's security association payload is acceptable, with DOI 1.
#[verifier::rlimit(60)]
pub proof fn lemma_probe_sa_header(ts: Seq<Transform>)
    requires
        1 <= ts.len() <= 255,
    ensures
        generic_header_len(probe_sa(ts), 12) == Ok::<int, IsakmpParseError>(probe_sa(ts).len() as int),
        DomainOfInterpretation::spec_known(u32_at(probe_sa(ts), 4)),
        probe_sa(ts).subrange(12, probe_sa(ts).len() as int) == probe_proposal(ts),
        probe_sa(ts).subrange(0, probe_sa(ts).len() as int) == probe_sa(ts),
        probe_sa(ts).len() == 12 + probe_proposal(ts).len(),
        u16_at(probe_sa(ts), 2) == probe_sa(ts).len(),
{
    let n = ts.len();
    let body = transform_payloads(ts, n);
    let s = probe_sa(ts);
    generator_lemmas::lemma_transform_payloads_len(ts, n);
    lemma_u16_round_trip((20 + body.len()) as u16);
    generator_lemmas::lemma_u32_bytes_roundtrip(1);
    assert(u16_at(s, 2) == u16_at(u16_bytes((20 + body.len()) as u16), 0));
    assert(s.subrange(4, 8) =~= u32_bytes(1));
    assert(u32_at(s, 4) == u32_at(u32_bytes(1), 0));
    assert(s.subrange(0, s.len() as int) =~= s);
    assert(s.subrange(12, s.len() as int) =~= probe_proposal(ts));
}

/// A probe's security association payload reads as one proposal offering the batch.
#[verifier::rlimit(60)]
pub proof fn lemma_probe_sa_len(ts: Seq<Transform>)
    requires
        1 <= ts.len() <= 255,
    ensures
        security_association_len(probe_sa(ts)) == Ok::<int, IsakmpParseError>(probe_sa(ts).len() as int),
        proposal_chain(probe_sa(ts), 12) == Ok::<Seq<int>, IsakmpParseError>(seq![12int]),
        probe_sa(ts).subrange(12, probe_sa(ts).len() as int) == probe_proposal(ts),
        u16_at(probe_sa(ts), 2) == probe_sa(ts).len(),
{
    let s = probe_sa(ts);
    let p = probe_proposal(ts);
    lemma_probe_sa_header(ts);
    lemma_probe_proposal_len(ts);
    assert(proposal_chain(s, 12 + p.len() as int) == Ok::<Seq<int>, IsakmpParseError>(Seq::empty()));
    assert(seq![12int] + Seq::<int>::empty() =~= seq![12int]);
}

/// A probe message is its header followed by its security association payload.
pub proof fn lemma_probe_layout(ts: Seq<Transform>, cookie: u64)
    requires
        1 <= ts.len() <= MAX_TRANSFORMS_PER_MESSAGE,
    ensures
        probe_message(ts, cookie).len() == 28 + probe_sa(ts).len(),
        probe_message(ts, cookie).subrange(28, probe_message(ts, cookie).len() as int) == probe_sa(ts),
{
    let m = probe_message(ts, cookie);
    generator_lemmas::lemma_probe_length(ts, cookie);
    generator_lemmas::lemma_transform_payloads_len(ts, ts.len());
    let body = transform_payloads(ts, ts.len());
    assert(generator_lemmas::round_up4(28 + (12 + (8 + body.len())) as int) == 48 + body.len());
    assert(m.subrange(28, m.len() as int) =~= probe_sa(ts));
}

/// The payload chain of a probe is its security association alone.
#[verifier::rlimit(100)]
pub proof fn lemma_probe_payload_offsets(ts: Seq<Transform>, cookie: u64)
    requires
        1 <= ts.len() <= 255,
    ensures
        payload_offsets(probe_message(ts, cookie), 28, PayloadType::SecurityAssociation)
            == Ok::<Seq<(PayloadType, int)>, IsakmpParseError>(seq![(PayloadType::SecurityAssociation, 28int)]),
{
    let m = probe_message(ts, cookie);
    let s = probe_sa(ts);
    lemma_probe_layout(ts, cookie);
    lemma_probe_sa_len(ts);
    assert(m[28] == s[0]);
    PayloadType::lemma_value_round_trip(PayloadType::NoNextPayload);
    assert(payload_offsets(m, 28 + s.len() as int, PayloadType::NoNextPayload) == Ok::<Seq<(PayloadType, int)>, IsakmpParseError>(Seq::empty()));
    assert(seq![(PayloadType::SecurityAssociation, 28int)] + Seq::<(PayloadType, int)>::empty() =~= seq![(PayloadType::SecurityAssociation, 28int)]);
}

/// Whatever packet the parser reads from a probe holds one security association with one
/// proposal, which offers exactly the batch, and no other payload.
#[verifier::rlimit(100)]
pub proof fn lemma_probe_round_trip(ts: Seq<Transform>, cookie: u64, p: Packet)
    requires
        1 <= ts.len() <= 255,
        payload_offsets(probe_message(ts, cookie), 28, PayloadType::SecurityAssociation) is Ok ==> packet_payloads_match(
            p,
            probe_message(ts, cookie),
            payload_offsets(probe_message(ts, cookie), 28, PayloadType::SecurityAssociation)->Ok_0,
        ),
    ensures
        payload_offsets(probe_message(ts, cookie), 28, PayloadType::SecurityAssociation)
            == Ok::<Seq<(PayloadType, int)>, IsakmpParseError>(seq![(PayloadType::SecurityAssociation, 28int)]),
        p.security_associations@.len() == 1,
        p.notification_payloads@.len() == 0,
        p.vendor_ids@.len() == 0,
        p.proposals@.len() == 0,
        p.transforms@.len() == 0,
        p.security_associations@[0].proposal_payload@.len() == 1,
        decode_transforms(p.security_associations@[0].proposal_payload@[0].transforms@) == Some(ts),
        forall|k: int| 0 <= k < ts.len() ==> key_length_attribute(ts[k],
            #[trigger] p.security_associations@[0].proposal_payload@[0].transforms@[k].sa_attributes@),
{
    lemma_probe_payload_offsets(ts, cookie);
    lemma_probe_layout(ts, cookie);
    lemma_sa_packet_decodes(ts, probe_message(ts, cookie), p);
}

/// A message that is a header and then a probe's security association payload, with
/// that payload as its only one, parses into packets that offer exactly the batch.
#[verifier::rlimit(100)]
pub proof fn lemma_sa_packet_decodes(ts: Seq<Transform>, m: Seq<u8>, p: Packet)
    requires
        1 <= ts.len() <= 255,
        m.len() == 28 + probe_sa(ts).len(),
        m.subrange(28, m.len() as int) == probe_sa(ts),
        packet_payloads_match(p, m, seq![(PayloadType::SecurityAssociation, 28int)]),
    ensures
        p.security_associations@.len() == 1,
        p.notification_payloads@.len() == 0,
        p.vendor_ids@.len() == 0,
        p.proposals@.len() == 0,
        p.transforms@.len() == 0,
        p.security_associations@[0].proposal_payload@.len() == 1,
        decode_transforms(p.security_associations@[0].proposal_payload@[0].transforms@) == Some(ts),
        forall|k: int| 0 <= k < ts.len() ==> key_length_attribute(ts[k],
            #[trigger] p.security_associations@[0].proposal_payload@[0].transforms@[k].sa_attributes@),
{
    let s = probe_sa(ts);
    lemma_probe_sa_len(ts);
    let items = seq![(PayloadType::SecurityAssociation, 28int)];
    lemma_single_sa_offsets(items);
    let sas = offsets_of(items, PayloadType::SecurityAssociation);
    assert(sas[0] == 28);
    let sa = p.security_associations@[0];
    assert(sa_at(p.security_associations@[0], m, sas[0]));
    assert(m.subrange(28, m.len() as int) == s);
    assert(sa_payload_matches(sa, s));
    assert(sa.length == s.len());
    let region = s.subrange(0, sa.length as int);
    assert(region =~= s);
    let os = proposal_chain(region, 12)->Ok_0;
    assert(os =~= seq![12int]);
    let prop = sa.proposal_payload@[0];
    assert(proposal_at(sa.proposal_payload@[0], region, os[0]));
    assert(proposal_at(prop, s, 12));
    lemma_probe_proposal_decodes(ts, prop);
}

/// A chain of one security association gives its offset to that list alone.
pub proof fn lemma_single_sa_offsets(items: Seq<(PayloadType, int)>)
    requires
        items == seq![(PayloadType::SecurityAssociation, 28int)],
    ensures
        offsets_of(items, PayloadType::SecurityAssociation) == seq![28int],
        offsets_of(items, PayloadType::Notification) == Seq::<int>::empty(),
        offsets_of(items, PayloadType::VendorID) == Seq::<int>::empty(),
        offsets_of(items, PayloadType::Proposal) == Seq::<int>::empty(),
        offsets_of(items, PayloadType::Transform) == Seq::<int>::empty(),
{
    let e = Seq::<(PayloadType, int)>::empty();
    assert(items.drop_last() =~= e);
    assert(items.last() == (PayloadType::SecurityAssociation, 28int));
    assert(offsets_of(e, PayloadType::SecurityAssociation) == Seq::<int>::empty());
    assert(offsets_of(e, PayloadType::Notification) == Seq::<int>::empty());
    assert(offsets_of(e, PayloadType::VendorID) == Seq::<int>::empty());
    assert(offsets_of(e, PayloadType::Proposal) == Seq::<int>::empty());
    assert(offsets_of(e, PayloadType::Transform) == Seq::<int>::empty());
    assert(Seq::<int>::empty().push(28int) =~= seq![28int]);
}


/// The header of a probe: the cookie, a zero responder cookie, an SA first, version 1.0,
/// Main Mode, no flags, message id 0 and the exact length. With `parse_packet`'s contract
/// and `lemma_probe_payload_offsets`, every probe parses.
#[verifier::rlimit(60)]
pub proof fn lemma_probe_header(ts: Seq<Transform>, cookie: u64)
    requires
        1 <= ts.len() <= MAX_TRANSFORMS_PER_MESSAGE,
    ensures
        ({
            let m = probe_message(ts, cookie);
            &&& m.len() >= 28
            &&& u64_at(m, 0) == cookie
            &&& u64_at(m, 8) == 0
            &&& m[16] == PayloadType::SecurityAssociation.spec_value()
            &&& m[17] == 0x10
            &&& m[18] == ExchangeType::IdentityProtection.spec_value()
            &&& m[19] == 0
            &&& u32_at(m, 20) == 0
            &&& u32_at(m, 24) == m.len()
        }),
{
    let m = probe_message(ts, cookie);
    generator_lemmas::lemma_probe_length(ts, cookie);
    lemma_u64_round_trip(cookie);
    lemma_u64_round_trip(0);
    generator_lemmas::lemma_u32_bytes_roundtrip(0);
    assert(m.subrange(0, 8) =~= u64_bytes(cookie));
    assert(m.subrange(8, 16) =~= u64_bytes(0));
    assert(m.subrange(20, 24) =~= u32_bytes(0));
    assert(u64_at(m, 0) == u64_at(u64_bytes(cookie), 0));
    assert(u64_at(m, 8) == u64_at(u64_bytes(0), 0));
    assert(u32_at(m, 20) == u32_at(u32_bytes(0), 0));
}

} // verus!
