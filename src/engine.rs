//! The transform search: enumeration of candidates, batching, bisection of accepted
//! batches, correlation of responses by cookie, and the accumulated result set.
use vstd::prelude::*;

use std::collections::{HashMap, VecDeque};

use crate::v1::definitions::{DataAttribute, Packet, ProposalPayload, SecurityAssociationPayload, TransformPayload};
use crate::v1::generator::{probe_message, MessageBuilder, Transform, MAX_TRANSFORMS_PER_MESSAGE};
use crate::v1::params::{
    AttributeType, AuthenticationMethod, EncryptionAlgorithm, GroupDescription, HashAlgorithm,
    NotifyMessageType,
};
use crate::wire::u16_at;

verus! {

/// The candidates that one (encryption, hash, authentication, group) combination gives:
/// AES-CBC with each key length 128, 192 and 256, any other cipher without a key length.
pub open spec fn key_variants(e: EncryptionAlgorithm, h: HashAlgorithm, a: AuthenticationMethod, g: GroupDescription) -> Seq<Transform> {
    let t = Transform { encryption_algorithm: e, hash_algorithm: h, authentication_method: a, group_description: g, key_size: None };
    if e == EncryptionAlgorithm::AesCbc {
        seq![
            Transform { key_size: Some(128u16), ..t },
            Transform { key_size: Some(192u16), ..t },
            Transform { key_size: Some(256u16), ..t },
        ]
    } else {
        seq![t]
    }
}

/// Candidates for each group of `gs`, in order.
pub open spec fn over_groups(e: EncryptionAlgorithm, h: HashAlgorithm, a: AuthenticationMethod, gs: Seq<GroupDescription>) -> Seq<Transform>
    decreases gs.len(),
{
    if gs.len() == 0 {
        Seq::empty()
    } else {
        over_groups(e, h, a, gs.drop_last()) + key_variants(e, h, a, gs.last())
    }
}

/// Candidates for each authentication method of `aus`, then each group.
pub open spec fn over_auths(e: EncryptionAlgorithm, h: HashAlgorithm, aus: Seq<AuthenticationMethod>, gs: Seq<GroupDescription>) -> Seq<Transform>
    decreases aus.len(),
{
    if aus.len() == 0 {
        Seq::empty()
    } else {
        over_auths(e, h, aus.drop_last(), gs) + over_groups(e, h, aus.last(), gs)
    }
}

/// Candidates for each hash of `hs`, then each authentication method and group.
pub open spec fn over_hashes(e: EncryptionAlgorithm, hs: Seq<HashAlgorithm>, aus: Seq<AuthenticationMethod>, gs: Seq<GroupDescription>) -> Seq<Transform>
    decreases hs.len(),
{
    if hs.len() == 0 {
        Seq::empty()
    } else {
        over_hashes(e, hs.drop_last(), aus, gs) + over_auths(e, hs.last(), aus, gs)
    }
}

/// Candidates for each encryption of `es`, then each hash, authentication and group.
pub open spec fn over_encryptions(es: Seq<EncryptionAlgorithm>, hs: Seq<HashAlgorithm>, aus: Seq<AuthenticationMethod>, gs: Seq<GroupDescription>) -> Seq<Transform>
    decreases es.len(),
{
    if es.len() == 0 {
        Seq::empty()
    } else {
        over_encryptions(es.drop_last(), hs, aus, gs) + over_hashes(es.last(), hs, aus, gs)
    }
}

/// Every candidate transform: the Cartesian product of all encryption algorithms, hash
/// algorithms, authentication methods and groups, in that nesting order.
pub open spec fn candidates() -> Seq<Transform> {
    over_encryptions(
        EncryptionAlgorithm::spec_all(),
        HashAlgorithm::spec_all(),
        AuthenticationMethod::spec_all(),
        GroupDescription::spec_all(),
    )
}

fn push_key_variants(out: &mut Vec<Transform>, e: EncryptionAlgorithm, h: HashAlgorithm, a: AuthenticationMethod, g: GroupDescription)
    ensures
        final(out)@ == old(out)@ + key_variants(e, h, a, g),
{
    let t = Transform { encryption_algorithm: e, hash_algorithm: h, authentication_method: a, group_description: g, key_size: None };
    if e == EncryptionAlgorithm::AesCbc {
        out.push(Transform { key_size: Some(128u16), ..t });
        out.push(Transform { key_size: Some(192u16), ..t });
        out.push(Transform { key_size: Some(256u16), ..t });
    } else {
        out.push(t);
    }
    assert(final(out)@ =~= old(out)@ + key_variants(e, h, a, g));
}

/// Every candidate transform, in enumeration order.
pub fn all_candidates() -> (r: Vec<Transform>)
    ensures
        r@ == candidates(),
{
    let es = EncryptionAlgorithm::all();
    let hs = HashAlgorithm::all();
    let aus = AuthenticationMethod::all();
    let gs = GroupDescription::all();
    let mut r: Vec<Transform> = Vec::new();
    let mut i: usize = 0;
    while i < es.len()
        invariant
            i <= es@.len(),
            r@ == over_encryptions(es@.take(i as int), hs@, aus@, gs@),
        decreases es@.len() - i,
    {
        let ghost before_e = r@;
        let mut j: usize = 0;
        while j < hs.len()
            invariant
                i < es@.len(),
                j <= hs@.len(),
                r@ == before_e + over_hashes(es@[i as int], hs@.take(j as int), aus@, gs@),
            decreases hs@.len() - j,
        {
            let ghost before_h = r@;
            let mut l: usize = 0;
            while l < aus.len()
                invariant
                    i < es@.len(),
                    j < hs@.len(),
                    l <= aus@.len(),
                    r@ == before_h + over_auths(es@[i as int], hs@[j as int], aus@.take(l as int), gs@),
                decreases aus@.len() - l,
            {
                let ghost before_a = r@;
                let mut m: usize = 0;
                while m < gs.len()
                    invariant
                        i < es@.len(),
                        j < hs@.len(),
                        l < aus@.len(),
                        m <= gs@.len(),
                        r@ == before_a + over_groups(es@[i as int], hs@[j as int], aus@[l as int], gs@.take(m as int)),
                    decreases gs@.len() - m,
                {
                    push_key_variants(&mut r, es[i], hs[j], aus[l], gs[m]);
                    assert(gs@.take(m + 1).drop_last() =~= gs@.take(m as int));
                    m = m + 1;
                    assert(r@ =~= before_a + over_groups(es@[i as int], hs@[j as int], aus@[l as int], gs@.take(m as int)));
                }
                assert(gs@.take(m as int) =~= gs@);
                assert(aus@.take(l + 1).drop_last() =~= aus@.take(l as int));
                l = l + 1;
                assert(r@ =~= before_h + over_auths(es@[i as int], hs@[j as int], aus@.take(l as int), gs@));
            }
            assert(aus@.take(l as int) =~= aus@);
            assert(hs@.take(j + 1).drop_last() =~= hs@.take(j as int));
            j = j + 1;
            assert(r@ =~= before_e + over_hashes(es@[i as int], hs@.take(j as int), aus@, gs@));
        }
        assert(hs@.take(j as int) =~= hs@);
        assert(es@.take(i + 1).drop_last() =~= es@.take(i as int));
        i = i + 1;
        assert(r@ =~= over_encryptions(es@.take(i as int), hs@, aus@, gs@));
    }
    assert(es@.take(i as int) =~= es@);
    r
}

/// Split `ts` into consecutive batches of `n` (the last one may be shorter), in order.
pub fn chunk_transforms(ts: &Vec<Transform>, n: usize) -> (r: VecDeque<Vec<Transform>>)
    requires
        n >= 1,
    ensures
        r@.len() == (ts@.len() + n - 1) / n as int,
        forall|i: int| 0 <= i < r@.len() ==> 1 <= #[trigger] r@[i]@.len() <= n,
        forall|i: int|
            0 <= i < r@.len() ==> #[trigger] r@[i]@ == ts@.subrange(
                i * n,
                if (i + 1) * n < ts@.len() { (i + 1) * n } else { ts@.len() as int },
            ),
{
    let mut r: VecDeque<Vec<Transform>> = VecDeque::new();
    let mut start: usize = 0;
    let ghost len = ts@.len() as int;
    assert(r@.len() * n == 0) by (nonlinear_arith)
        requires r@.len() == 0;
    while start < ts.len()
        invariant
            n >= 1,
            len == ts@.len(),
            start <= len,
            start < len ==> start == r@.len() * n,
            start == len ==> r@.len() * n >= len,
            r@.len() == 0 || (r@.len() - 1) * n < len,
            forall|i: int| 0 <= i < r@.len() ==> 1 <= #[trigger] r@[i]@.len() <= n,
            forall|i: int|
                0 <= i < r@.len() ==> #[trigger] r@[i]@ == ts@.subrange(
                    i * n,
                    if (i + 1) * n < len { (i + 1) * n } else { len },
                ),
        decreases len - start,
    {
        let end = if ts.len() - start > n { start + n } else { ts.len() };
        let mut batch: Vec<Transform> = Vec::new();
        let mut k: usize = start;
        while k < end
            invariant
                start <= k <= end <= ts@.len(),
                batch@ == ts@.subrange(start as int, k as int),
            decreases end - k,
        {
            batch.push(ts[k]);
            k = k + 1;
            assert(batch@ =~= ts@.subrange(start as int, k as int));
        }
        let ghost idx = r@.len() as int;
        assert((idx + 1) * n == idx * n + n) by (nonlinear_arith);
        r.push_back(batch);
        start = end;
        assert(r@[idx]@ == ts@.subrange(idx * n, if (idx + 1) * n < len { (idx + 1) * n } else { len }));
    }
    proof {
        let c = r@.len() as int;
        assert((len + n - 1) / n as int == c) by (nonlinear_arith)
            requires c * n >= len, c == 0 || (c - 1) * n < len, n >= 1, len >= 0, c >= 0;
    }
    r
}

/// All candidates, in batches of at most `transform_no`, in enumeration order.
pub fn gen_v1_transforms(transform_no: usize) -> (r: VecDeque<Vec<Transform>>)
    requires
        transform_no >= 1,
    ensures
        r@.len() == (candidates().len() + transform_no - 1) / transform_no as int,
        forall|i: int| 0 <= i < r@.len() ==> 1 <= #[trigger] r@[i]@.len() <= transform_no,
        forall|i: int|
            0 <= i < r@.len() ==> #[trigger] r@[i]@ == candidates().subrange(
                i * transform_no,
                if (i + 1) * transform_no < candidates().len() { (i + 1) * transform_no } else { candidates().len() as int },
            ),
{
    let all = all_candidates();
    chunk_transforms(&all, transform_no)
}

/// The elements at even positions of `s`.
pub open spec fn evens<A>(s: Seq<A>) -> Seq<A> {
    Seq::new(((s.len() + 1) / 2) as nat, |i: int| s[2 * i])
}

/// The elements at odd positions of `s`.
pub open spec fn odds<A>(s: Seq<A>) -> Seq<A> {
    Seq::new((s.len() / 2) as nat, |i: int| s[2 * i + 1])
}

/// Split a remainder into two halves: each element goes to the first half when both
/// halves are equally long and to the second otherwise, so the first half takes the
/// elements at even positions and the second those at odd positions.
pub fn bisect(remainder: Vec<Transform>) -> (r: (Vec<Transform>, Vec<Transform>))
    ensures
        r.0@ == evens(remainder@),
        r.1@ == odds(remainder@),
{
    let mut a: Vec<Transform> = Vec::new();
    let mut b: Vec<Transform> = Vec::new();
    let mut i: usize = 0;
    while i < remainder.len()
        invariant
            i <= remainder@.len(),
            a@ == evens(remainder@.take(i as int)),
            b@ == odds(remainder@.take(i as int)),
        decreases remainder@.len() - i,
    {
        let x = remainder[i];
        if a.len() == b.len() {
            a.push(x);
        } else {
            b.push(x);
        }
        i = i + 1;
        assert(a@ =~= evens(remainder@.take(i as int)));
        assert(b@ =~= odds(remainder@.take(i as int)));
    }
    assert(remainder@.take(i as int) =~= remainder@);
    (a, b)
}

/// The halves of a bisection hold every element of the remainder exactly as often, are
/// as long as it together, and differ in length by at most one.
pub proof fn lemma_bisect_halves<A>(s: Seq<A>)
    ensures
        evens(s).len() + odds(s).len() == s.len(),
        evens(s).len() == odds(s).len() || evens(s).len() == odds(s).len() + 1,
        evens(s).to_multiset().add(odds(s).to_multiset()) == s.to_multiset(),
    decreases s.len(),
{
    broadcast use vstd::seq_lib::group_to_multiset_ensures;
    if s.len() > 0 {
        let t = s.drop_last();
        lemma_bisect_halves(t);
        if t.len() % 2 == 0 {
            assert(evens(s) =~= evens(t).push(s.last()));
            assert(odds(s) =~= odds(t));
        } else {
            assert(evens(s) =~= evens(t));
            assert(odds(s) =~= odds(t).push(s.last()));
        }
        assert(s =~= t.push(s.last()));
        assert(evens(s).to_multiset().add(odds(s).to_multiset()) =~= s.to_multiset());
    }
}

/// A responder's transform lacks a required attribute or carries an unknown value.
#[derive(Debug, Clone, Copy, PartialEq, Eq, Structural)]
pub struct InvalidTransform;

/// The attributes of a transform read so far.
#[derive(Debug, Clone, Copy, PartialEq, Eq, Structural)]
pub struct Collected {
    /// Encryption algorithm, if seen
    pub encryption_algorithm: Option<EncryptionAlgorithm>,
    /// Hash algorithm, if seen
    pub hash_algorithm: Option<HashAlgorithm>,
    /// Authentication method, if seen
    pub authentication_method: Option<AuthenticationMethod>,
    /// Group, if seen
    pub group_description: Option<GroupDescription>,
    /// Key length, if seen
    pub key_size: Option<u16>,
}

/// The numeric value of an attribute: the short value, or the first two bytes of a long
/// one (none if it has fewer).
pub open spec fn attribute_number(a: DataAttribute) -> Option<u16> {
    match a {
        DataAttribute::DataAttributeShort(s) => Some(s.attribute_value),
        DataAttribute::DataAttributeLong(l) => if l.attribute_value@.len() >= 2 {
            Some(u16_at(l.attribute_value@, 0))
        } else {
            None
        },
    }
}

/// The class of an attribute.
pub open spec fn attribute_class(a: DataAttribute) -> AttributeType {
    match a {
        DataAttribute::DataAttributeShort(s) => s.attribute_type,
        DataAttribute::DataAttributeLong(l) => l.attribute_type,
    }
}

/// Record one attribute; `None` when its value cannot be read or names no algorithm.
/// Later attributes of a class replace earlier ones; classes that do not matter here
/// are passed over.
pub open spec fn apply_attribute(c: Collected, a: DataAttribute) -> Option<Collected> {
    match attribute_number(a) {
        None => None,
        Some(v) => match attribute_class(a) {
            AttributeType::EncryptionAlgorithm => match EncryptionAlgorithm::spec_from_value(v) {
                Some(e) => Some(Collected { encryption_algorithm: Some(e), ..c }),
                None => None,
            },
            AttributeType::HashAlgorithm => match HashAlgorithm::spec_from_value(v) {
                Some(h) => Some(Collected { hash_algorithm: Some(h), ..c }),
                None => None,
            },
            AttributeType::AuthenticationMethod => match AuthenticationMethod::spec_from_value(v) {
                Some(m) => Some(Collected { authentication_method: Some(m), ..c }),
                None => None,
            },
            AttributeType::GroupDescription => match GroupDescription::spec_from_value(v) {
                Some(g) => Some(Collected { group_description: Some(g), ..c }),
                None => None,
            },
            AttributeType::KeyLength => Some(Collected { key_size: Some(v), ..c }),
            _ => Some(c),
        },
    }
}

/// Nothing read yet.
pub open spec fn nothing_collected() -> Collected {
    Collected { encryption_algorithm: None, hash_algorithm: None, authentication_method: None, group_description: None, key_size: None }
}

/// Read the attributes in order.
pub open spec fn collect_attributes(attrs: Seq<DataAttribute>) -> Option<Collected>
    decreases attrs.len(),
{
    if attrs.len() == 0 {
        Some(nothing_collected())
    } else {
        match collect_attributes(attrs.drop_last()) {
            None => None,
            Some(c) => apply_attribute(c, attrs.last()),
        }
    }
}

/// The candidate that a list of attributes names, if it names all four algorithms.
pub open spec fn transform_of_attributes(attrs: Seq<DataAttribute>) -> Option<Transform> {
    match collect_attributes(attrs) {
        Some(c) => if c.encryption_algorithm is Some && c.hash_algorithm is Some
            && c.authentication_method is Some && c.group_description is Some {
            Some(Transform {
                encryption_algorithm: c.encryption_algorithm->Some_0,
                hash_algorithm: c.hash_algorithm->Some_0,
                authentication_method: c.authentication_method->Some_0,
                group_description: c.group_description->Some_0,
                key_size: c.key_size,
            })
        } else {
            None
        },
        None => None,
    }
}

/// The candidate that a transform payload offers, if its attributes name all four
/// algorithms.
pub open spec fn decode_transform(tp: TransformPayload) -> Option<Transform> {
    transform_of_attributes(tp.sa_attributes@)
}

/// The candidates that transform payloads offer, if each of them offers one.
pub open spec fn decode_transforms(tps: Seq<TransformPayload>) -> Option<Seq<Transform>>
    decreases tps.len(),
{
    if tps.len() == 0 {
        Some(Seq::empty())
    } else {
        match (decode_transforms(tps.drop_last()), decode_transform(tps.last())) {
            (Some(s), Some(t)) => Some(s.push(t)),
            _ => None,
        }
    }
}

fn attribute_number_of(a: &DataAttribute) -> (r: Option<u16>)
    ensures
        r == attribute_number(*a),
{
    match a {
        DataAttribute::DataAttributeShort(s) => Some(s.attribute_value),
        DataAttribute::DataAttributeLong(l) => if l.attribute_value.len() >= 2 {
            Some((l.attribute_value[0] as u16) * 0x100 + l.attribute_value[1] as u16)
        } else {
            None
        },
    }
}

fn apply_attribute_exec(c: Collected, a: &DataAttribute) -> (r: Option<Collected>)
    ensures
        r == apply_attribute(c, *a),
{
    let v = match attribute_number_of(a) {
        Some(v) => v,
        None => return None,
    };
    let class = match a {
        DataAttribute::DataAttributeShort(s) => s.attribute_type,
        DataAttribute::DataAttributeLong(l) => l.attribute_type,
    };
    match class {
        AttributeType::EncryptionAlgorithm => match EncryptionAlgorithm::try_from(v) {
            Ok(e) => Some(Collected { encryption_algorithm: Some(e), ..c }),
            Err(_) => None,
        },
        AttributeType::HashAlgorithm => match HashAlgorithm::try_from(v) {
            Ok(h) => Some(Collected { hash_algorithm: Some(h), ..c }),
            Err(_) => None,
        },
        AttributeType::AuthenticationMethod => match AuthenticationMethod::try_from(v) {
            Ok(m) => Some(Collected { authentication_method: Some(m), ..c }),
            Err(_) => None,
        },
        AttributeType::GroupDescription => match GroupDescription::try_from(v) {
            Ok(g) => Some(Collected { group_description: Some(g), ..c }),
            Err(_) => None,
        },
        AttributeType::KeyLength => Some(Collected { key_size: Some(v), ..c }),
        _ => Some(c),
    }
}

/// The candidate that one transform payload offers.
pub fn transform_from_payload(tp: &TransformPayload) -> (r: Result<Transform, InvalidTransform>)
    ensures
        match r {
            Ok(t) => decode_transform(*tp) == Some(t),
            Err(_) => decode_transform(*tp) is None,
        },
{
    let mut c = Collected { encryption_algorithm: None, hash_algorithm: None, authentication_method: None, group_description: None, key_size: None };
    let mut j: usize = 0;
    while j < tp.sa_attributes.len()
        invariant
            j <= tp.sa_attributes@.len(),
            collect_attributes(tp.sa_attributes@.take(j as int)) == Some(c),
        decreases tp.sa_attributes@.len() - j,
    {
        assert(tp.sa_attributes@.take(j + 1).drop_last() =~= tp.sa_attributes@.take(j as int));
        match apply_attribute_exec(c, &tp.sa_attributes[j]) {
            Some(next) => c = next,
            None => {
                proof {
                    lemma_collect_none(tp.sa_attributes@, (j + 1) as nat);
                }
                return Err(InvalidTransform);
            },
        }
        j = j + 1;
    }
    assert(tp.sa_attributes@.take(j as int) =~= tp.sa_attributes@);
    match (c.encryption_algorithm, c.hash_algorithm, c.authentication_method, c.group_description) {
        (Some(e), Some(h), Some(a), Some(g)) => Ok(Transform {
            encryption_algorithm: e,
            hash_algorithm: h,
            authentication_method: a,
            group_description: g,
            key_size: c.key_size,
        }),
        _ => Err(InvalidTransform),
    }
}

/// Once the attributes cannot be read, longer prefixes cannot either.
pub proof fn lemma_collect_none(attrs: Seq<DataAttribute>, k: nat)
    requires
        k <= attrs.len(),
        collect_attributes(attrs.take(k as int)) is None,
    ensures
        collect_attributes(attrs) is None,
    decreases attrs.len() - k,
{
    if k < attrs.len() {
        assert(attrs.take((k + 1) as int).drop_last() =~= attrs.take(k as int));
        lemma_collect_none(attrs, k + 1);
    } else {
        assert(attrs.take(k as int) =~= attrs);
    }
}

/// Once a transform payload cannot be decoded, longer prefixes cannot either.
pub proof fn lemma_decode_none(tps: Seq<TransformPayload>, k: nat)
    requires
        k <= tps.len(),
        decode_transforms(tps.take(k as int)) is None,
    ensures
        decode_transforms(tps) is None,
    decreases tps.len() - k,
{
    if k < tps.len() {
        assert(tps.take((k + 1) as int).drop_last() =~= tps.take(k as int));
        lemma_decode_none(tps, k + 1);
    } else {
        assert(tps.take(k as int) =~= tps);
    }
}

/// The candidates that a responder's proposal offers; fails if any of its transforms
/// lacks one of the four algorithms or names an unknown one.
pub fn payload_to_transforms(payload: &ProposalPayload) -> (r: Result<Vec<Transform>, InvalidTransform>)
    ensures
        match r {
            Ok(v) => decode_transforms(payload.transforms@) == Some(v@),
            Err(_) => decode_transforms(payload.transforms@) is None,
        },
{
    let mut v: Vec<Transform> = Vec::new();
    let mut i: usize = 0;
    while i < payload.transforms.len()
        invariant
            i <= payload.transforms@.len(),
            decode_transforms(payload.transforms@.take(i as int)) == Some(v@),
        decreases payload.transforms@.len() - i,
    {
        assert(payload.transforms@.take(i + 1).drop_last() =~= payload.transforms@.take(i as int));
        match transform_from_payload(&payload.transforms[i]) {
            Ok(t) => v.push(t),
            Err(e) => {
                proof {
                    lemma_decode_none(payload.transforms@, (i + 1) as nat);
                }
                return Err(e);
            },
        }
        i = i + 1;
    }
    assert(payload.transforms@.take(i as int) =~= payload.transforms@);
    Ok(v)
}

/// The key length as a number, none sorting first.
pub open spec fn key_rank(t: Transform) -> int {
    match t.key_size {
        None => -1,
        Some(k) => k as int,
    }
}

/// Strict order of candidates: by encryption, hash, authentication, group identifier,
/// then key length (none first). It is the order in which the variants are declared.
pub open spec fn transform_lt(a: Transform, b: Transform) -> bool {
    let (ea, eb) = (a.encryption_algorithm.spec_value(), b.encryption_algorithm.spec_value());
    let (ha, hb) = (a.hash_algorithm.spec_value(), b.hash_algorithm.spec_value());
    let (ma, mb) = (a.authentication_method.spec_value(), b.authentication_method.spec_value());
    let (ga, gb) = (a.group_description.spec_value(), b.group_description.spec_value());
    ea < eb || (ea == eb && (ha < hb || (ha == hb && (ma < mb || (ma == mb && (ga < gb || (ga
        == gb && key_rank(a) < key_rank(b))))))))
}

/// `a` sorts before `b` or at the same place.
pub open spec fn transform_le(a: Transform, b: Transform) -> bool {
    !transform_lt(b, a)
}

/// Sorted by `transform_lt`, no candidate twice.
pub open spec fn sorted_set(s: Seq<Transform>) -> bool {
    &&& s.no_duplicates()
    &&& forall|i: int, j: int| 0 <= i < j < s.len() ==> transform_le(#[trigger] s[i], #[trigger] s[j])
}

fn transform_less(a: &Transform, b: &Transform) -> (r: bool)
    ensures
        r == transform_lt(*a, *b),
{
    let (ea, eb) = (a.encryption_algorithm.value(), b.encryption_algorithm.value());
    let (ha, hb) = (a.hash_algorithm.value(), b.hash_algorithm.value());
    let (ma, mb) = (a.authentication_method.value(), b.authentication_method.value());
    let (ga, gb) = (a.group_description.value(), b.group_description.value());
    let ka: i32 = match a.key_size {
        None => -1,
        Some(k) => k as i32,
    };
    let kb: i32 = match b.key_size {
        None => -1,
        Some(k) => k as i32,
    };
    ea < eb || (ea == eb && (ha < hb || (ha == hb && (ma < mb || (ma == mb && (ga < gb || (ga
        == gb && ka < kb)))))))
}

/// Add `t` to a sorted set of candidates, keeping it sorted and free of repeats.
pub fn insert_sorted(found: &mut Vec<Transform>, t: Transform)
    requires
        sorted_set(old(found)@),
    ensures
        sorted_set(final(found)@),
        forall|x: Transform| #[trigger] final(found)@.contains(x) <==> (old(found)@.contains(x) || x == t),
{
    let n = found.len();
    let mut i: usize = 0;
    while i < n
        invariant
            n == found@.len(),
            found@ == old(found)@,
            sorted_set(found@),
            i <= n,
            forall|k: int| 0 <= k < i ==> found@[k] != t,
        decreases n - i,
    {
        if found[i] == t {
            return;
        }
        i = i + 1;
    }
    let mut p: usize = 0;
    while p < n && transform_less(&found[p], &t)
        invariant
            n == found@.len(),
            found@ == old(found)@,
            p <= n,
            forall|k: int| 0 <= k < p ==> transform_lt(#[trigger] found@[k], t),
        decreases n - p,
    {
        p = p + 1;
    }
    let ghost old_s = found@;
    found.insert(p, t);
    proof {
        lemma_insert_sorted(old_s, p as int, t);
    }
}

/// The order of candidates is transitive.
pub proof fn lemma_le_trans(a: Transform, b: Transform, c: Transform)
    requires
        transform_le(a, b),
        transform_le(b, c),
    ensures
        transform_le(a, c),
{
}

/// Inserting a new candidate where the order puts it keeps a sorted set sorted.
pub proof fn lemma_insert_sorted(s: Seq<Transform>, p: int, t: Transform)
    requires
        sorted_set(s),
        0 <= p <= s.len(),
        forall|k: int| 0 <= k < p ==> transform_lt(#[trigger] s[k], t),
        p < s.len() ==> !transform_lt(s[p], t),
        forall|k: int| 0 <= k < s.len() ==> s[k] != t,
    ensures
        sorted_set(s.insert(p, t)),
        forall|x: Transform| #[trigger] s.insert(p, t).contains(x) <==> (s.contains(x) || x == t),
{
    let f = s.insert(p, t);
    assert forall|x: Transform| #[trigger] f.contains(x) <==> (s.contains(x) || x == t) by {
        if f.contains(x) {
            let j = choose|j: int| 0 <= j < f.len() && f[j] == x;
            if j < p {
                assert(s[j] == x);
            } else if j > p {
                assert(s[j - 1] == x);
            }
        }
        if s.contains(x) {
            let j = choose|j: int| 0 <= j < s.len() && s[j] == x;
            if j < p {
                assert(f[j] == x);
            } else {
                assert(f[j + 1] == x);
            }
        }
        if x == t {
            assert(f[p] == t);
        }
    }
    assert forall|a: int, b: int| 0 <= a < b < f.len() implies transform_le(#[trigger] f[a], #[trigger] f[b]) by {
        if a < p && b > p {
            assert(transform_le(s[a], s[b - 1]));
        } else if a == p && b > p {
            if b - 1 > p {
                assert(transform_le(s[p], s[b - 1]));
                lemma_le_trans(t, s[p], s[b - 1]);
            }
        } else if a > p {
            assert(transform_le(s[a - 1], s[b - 1]));
        } else if a < p && b < p {
            assert(transform_le(s[a], s[b]));
        }
    }
    assert forall|a: int, b: int| 0 <= a < b < f.len() implies f[a] != f[b] by {
        if a < p && b > p {
            assert(s[a] != s[b - 1]);
        } else if a > p {
            assert(s[a - 1] != s[b - 1]);
        } else if a < p && b < p {
            assert(s[a] != s[b]);
        }
    }
}

/// The result of a finished scan.
#[derive(Debug, Clone, PartialEq, Eq)]
pub struct ScanResult {
    /// Every transform that the server accepted, sorted, each once
    pub valid_transforms: Vec<Transform>,
}

/// Errors that end a scan.
#[derive(Debug, Clone, PartialEq, Eq)]
pub enum ScanError {
    /// The local socket could not be bound
    CouldNotBind(String),
    /// Receiving failed
    Receive(String),
    /// Sending failed
    Send(String),
}

/// What the driver does on a tick of the send timer.
#[derive(Debug, Clone, PartialEq, Eq)]
pub enum TickAction {
    /// Send `message`, whose initiator cookie is `cookie`; pause first if `pause_first`
    Send { message: Vec<u8>, cookie: u64, pause_first: bool },
    /// Nothing to send: wait one more tick for late responses
    Wait,
    /// Nothing to send after the extra tick: the scan is over
    Finish(ScanResult),
}

/// How a received message was interpreted.
#[derive(Debug, Clone, Copy, PartialEq, Eq, Structural)]
pub enum MessageOutcome {
    /// The server accepted at least one transform of the batch
    Accepted,
    /// The server rejected the whole batch
    Rejected,
    /// A response whose cookie belongs to no batch in flight
    UnknownCookie,
    /// Neither an acceptance nor a rejection
    Ignored,
}

/// The elements of `s` that `acc` does not hold, in order.
pub open spec fn without(s: Seq<Transform>, acc: Seq<Transform>) -> Seq<Transform>
    decreases s.len(),
{
    if s.len() == 0 {
        Seq::empty()
    } else {
        let r = without(s.drop_last(), acc);
        if acc.contains(s.last()) {
            r
        } else {
            r.push(s.last())
        }
    }
}

/// The batches that a remainder is split into: both halves, the first alone when the
/// second is empty, nothing when the remainder is empty.
pub open spec fn halves(r: Seq<Transform>) -> Seq<Seq<Transform>> {
    if odds(r).len() > 0 {
        seq![evens(r), odds(r)]
    } else if evens(r).len() > 0 {
        seq![evens(r)]
    } else {
        Seq::empty()
    }
}

/// The batch in flight under `cookie`, if any.
pub open spec fn batch_of(open: Map<u64, Vec<Transform>>, cookie: u64) -> Option<Seq<Transform>> {
    if open.contains_key(cookie) {
        Some(open[cookie]@)
    } else {
        None
    }
}

/// Pending batches and result set after one accepting proposal: its transforms join
/// the results, and what the batch held beyond them is bisected and queued.
pub open spec fn resolve_proposal(pending: Seq<Seq<Transform>>, found: Set<Transform>, batch: Option<Seq<Transform>>, prop: ProposalPayload) -> (Seq<Seq<Transform>>, Set<Transform>) {
    match decode_transforms(prop.transforms@) {
        None => (pending, found),
        Some(ts) => (
            match batch {
                Some(b) => pending + halves(without(b, ts)),
                None => pending,
            },
            found.union(ts.to_set()),
        ),
    }
}

/// `resolve_proposal` for each proposal in order.
pub open spec fn resolve_proposals(pending: Seq<Seq<Transform>>, found: Set<Transform>, batch: Option<Seq<Transform>>, props: Seq<ProposalPayload>) -> (Seq<Seq<Transform>>, Set<Transform>)
    decreases props.len(),
{
    if props.len() == 0 {
        (pending, found)
    } else {
        let (p, f) = resolve_proposals(pending, found, batch, props.drop_last());
        resolve_proposal(p, f, batch, props.last())
    }
}

/// The proposals of all security associations, in order.
pub open spec fn proposals_of(sas: Seq<SecurityAssociationPayload>) -> Seq<ProposalPayload>
    decreases sas.len(),
{
    if sas.len() == 0 {
        Seq::empty()
    } else {
        proposals_of(sas.drop_last()) + sas.last().proposal_payload@
    }
}

/// The message carries a NO_PROPOSAL_CHOSEN notification.
pub open spec fn rejects(msg: Packet) -> bool {
    exists|i: int| 0 <= i < msg.notification_payloads@.len()
        && (#[trigger] msg.notification_payloads@[i]).notify_message_type == NotifyMessageType::NoProposalChosen
}

/// A remainder is no longer than the batch it comes from.
pub proof fn lemma_without_len(s: Seq<Transform>, acc: Seq<Transform>)
    ensures
        without(s, acc).len() <= s.len(),
    decreases s.len(),
{
    if s.len() > 0 {
        lemma_without_len(s.drop_last(), acc);
    }
}

fn contains_transform(v: &Vec<Transform>, t: &Transform) -> (r: bool)
    ensures
        r == v@.contains(*t),
{
    let mut i: usize = 0;
    while i < v.len()
        invariant
            i <= v@.len(),
            forall|k: int| 0 <= k < i ==> v@[k] != *t,
        decreases v@.len() - i,
    {
        if v[i] == *t {
            return true;
        }
        i = i + 1;
    }
    false
}

/// The members of `batch` that `accepted` does not hold, in order.
pub fn remainder(batch: &Vec<Transform>, accepted: &Vec<Transform>) -> (r: Vec<Transform>)
    ensures
        r@ == without(batch@, accepted@),
{
    let mut r: Vec<Transform> = Vec::new();
    let mut i: usize = 0;
    while i < batch.len()
        invariant
            i <= batch@.len(),
            r@ == without(batch@.take(i as int), accepted@),
        decreases batch@.len() - i,
    {
        assert(batch@.take(i + 1).drop_last() =~= batch@.take(i as int));
        if !contains_transform(accepted, &batch[i]) {
            r.push(batch[i]);
        }
        i = i + 1;
    }
    assert(batch@.take(i as int) =~= batch@);
    r
}

fn copy_transforms(v: &Vec<Transform>) -> (r: Vec<Transform>)
    ensures
        r@ == v@,
{
    let mut r: Vec<Transform> = Vec::new();
    let mut i: usize = 0;
    while i < v.len()
        invariant
            i <= v@.len(),
            r@ == v@.take(i as int),
        decreases v@.len() - i,
    {
        r.push(v[i]);
        i = i + 1;
        assert(r@ =~= v@.take(i as int));
    }
    assert(v@.take(i as int) =~= v@);
    r
}

/// The state of a scan: batches waiting to be sent, batches in flight by initiator
/// cookie, the transforms found so far, whether to pause before the next send, and
/// whether the last tick found nothing to send.
pub struct Scanner {
    /// Batches waiting to be sent, in order
    pub pending: VecDeque<Vec<Transform>>,
    /// Batches in flight, by the initiator cookie of their probe
    pub open: HashMap<u64, Vec<Transform>>,
    /// Accepted transforms, sorted, each once
    pub found: Vec<Transform>,
    /// Pause before the next send
    pub do_sleep: bool,
    /// The last tick found nothing to send
    pub idle: bool,
}

impl Scanner {
    /// The pending batches as sequences.
    pub open spec fn pending_view(&self) -> Seq<Seq<Transform>> {
        self.pending@.map_values(|b: Vec<Transform>| b@)
    }

    /// Every batch fits one probe and the results are a sorted set.
    pub open spec fn wf(&self) -> bool {
        &&& sorted_set(self.found@)
        &&& forall|i: int| 0 <= i < self.pending@.len() ==> #[trigger] self.pending@[i]@.len() <= MAX_TRANSFORMS_PER_MESSAGE
        &&& forall|c: u64| #[trigger] self.open@.contains_key(c) ==> self.open@[c]@.len() <= MAX_TRANSFORMS_PER_MESSAGE
    }

    /// A scan of the given batches, nothing sent yet.
    pub fn new(batches: VecDeque<Vec<Transform>>) -> (r: Scanner)
        requires
            forall|i: int| 0 <= i < batches@.len() ==> #[trigger] batches@[i]@.len() <= MAX_TRANSFORMS_PER_MESSAGE,
        ensures
            r.wf(),
            r.pending@ == batches@,
            r.open@ == Map::<u64, Vec<Transform>>::empty(),
            r.found@ == Seq::<Transform>::empty(),
            !r.do_sleep,
            !r.idle,
    {
        Scanner { pending: batches, open: HashMap::new(), found: Vec::new(), do_sleep: false, idle: false }
    }

    /// A scan of every candidate, in batches of `transform_no`.
    pub fn start(transform_no: usize) -> (r: Scanner)
        requires
            1 <= transform_no <= MAX_TRANSFORMS_PER_MESSAGE,
        ensures
            r.wf(),
            r.pending@.len() == (candidates().len() + transform_no - 1) / transform_no as int,
            forall|i: int|
                0 <= i < r.pending@.len() ==> #[trigger] r.pending@[i]@ == candidates().subrange(
                    i * transform_no,
                    if (i + 1) * transform_no < candidates().len() { (i + 1) * transform_no } else { candidates().len() as int },
                ),
            r.open@ == Map::<u64, Vec<Transform>>::empty(),
            r.found@ == Seq::<Transform>::empty(),
    {
        Scanner::new(gen_v1_transforms(transform_no))
    }

    /// React to a tick of the send timer, with `cookie` as the cookie of a probe sent now.
    pub fn on_tick_with_cookie(&mut self, cookie: u64) -> (r: TickAction)
        requires
            old(self).wf(),
        ensures
            final(self).wf(),
            old(self).pending@.len() == 0 && old(self).idle ==> {
                &&& r matches TickAction::Finish(res)
                &&& res.valid_transforms@ == old(self).found@
                &&& final(self).pending@ == old(self).pending@
                &&& final(self).open@ == old(self).open@
                &&& final(self).found@ == old(self).found@
                &&& final(self).do_sleep == old(self).do_sleep
                &&& final(self).idle
            },
            old(self).pending@.len() == 0 && !old(self).idle ==> {
                &&& r == TickAction::Wait
                &&& final(self).idle
                &&& final(self).pending@ == old(self).pending@
                &&& final(self).open@ == old(self).open@
                &&& final(self).found@ == old(self).found@
                &&& final(self).do_sleep == old(self).do_sleep
            },
            old(self).pending@.len() > 0 ==> {
                &&& r matches TickAction::Send { message, cookie: c, pause_first }
                &&& c == cookie
                &&& message@ == probe_message(old(self).pending@[0]@, cookie)
                &&& pause_first == old(self).do_sleep
                &&& final(self).pending@ == old(self).pending@.subrange(1, old(self).pending@.len() as int)
                &&& final(self).open@ == old(self).open@.insert(cookie, old(self).pending@[0])
                &&& final(self).found@ == old(self).found@
                &&& !final(self).do_sleep
                &&& !final(self).idle
            },
    {
        broadcast use vstd::std_specs::hash::group_hash_axioms;
        match self.pending.pop_front() {
            None => {
                if self.idle {
                    TickAction::Finish(ScanResult { valid_transforms: copy_transforms(&self.found) })
                } else {
                    self.idle = true;
                    TickAction::Wait
                }
            },
            Some(batch) => {
                let builder = MessageBuilder { transforms: batch };
                let message = builder.build_with_cookie(cookie);
                let pause_first = self.do_sleep;
                self.do_sleep = false;
                self.idle = false;
                self.open.insert(cookie, builder.transforms);
                TickAction::Send { message, cookie, pause_first }
            },
        }
    }

    /// React to a tick of the send timer; a probe sent now gets a random cookie. With
    /// nothing pending, the first tick waits and the next one finishes the scan.
    pub fn on_tick(&mut self) -> (r: TickAction)
        requires
            old(self).wf(),
        ensures
            final(self).wf(),
            old(self).pending@.len() == 0 && old(self).idle ==> {
                &&& r matches TickAction::Finish(res)
                &&& res.valid_transforms@ == old(self).found@
                &&& final(self).pending@ == old(self).pending@
                &&& final(self).open@ == old(self).open@
                &&& final(self).found@ == old(self).found@
                &&& final(self).do_sleep == old(self).do_sleep
                &&& final(self).idle
            },
            old(self).pending@.len() == 0 && !old(self).idle ==> {
                &&& r == TickAction::Wait
                &&& final(self).idle
                &&& final(self).pending@ == old(self).pending@
                &&& final(self).open@ == old(self).open@
                &&& final(self).found@ == old(self).found@
                &&& final(self).do_sleep == old(self).do_sleep
            },
            old(self).pending@.len() > 0 ==> {
                &&& r matches TickAction::Send { message, cookie, pause_first }
                &&& message@ == probe_message(old(self).pending@[0]@, cookie)
                &&& pause_first == old(self).do_sleep
                &&& final(self).pending@ == old(self).pending@.subrange(1, old(self).pending@.len() as int)
                &&& final(self).open@ == old(self).open@.insert(cookie, old(self).pending@[0])
                &&& final(self).found@ == old(self).found@
                &&& !final(self).do_sleep
                &&& !final(self).idle
            },
    {
        let cookie = crate::v1::generator::random_cookie();
        self.on_tick_with_cookie(cookie)
    }

    /// Record the transforms that one proposal of a response accepted, and queue the
    /// halves of what the batch in flight under `cookie` held beyond them.
    fn resolve(&mut self, cookie: u64, prop: &ProposalPayload)
        requires
            old(self).wf(),
        ensures
            final(self).wf(),
            final(self).open@ == old(self).open@,
            final(self).do_sleep == old(self).do_sleep,
            final(self).idle == old(self).idle,
            (final(self).pending_view(), final(self).found@.to_set()) == resolve_proposal(
                old(self).pending_view(),
                old(self).found@.to_set(),
                batch_of(old(self).open@, cookie),
                *prop,
            ),
    {
        broadcast use vstd::std_specs::hash::group_hash_axioms;
        let ts = match payload_to_transforms(prop) {
            Ok(ts) => ts,
            Err(_) => return,
        };
        let ghost base = self.found@;
        let mut k: usize = 0;
        while k < ts.len()
            invariant
                k <= ts@.len(),
                sorted_set(self.found@),
                self.open@ == old(self).open@,
                self.pending@ == old(self).pending@,
                self.do_sleep == old(self).do_sleep,
                self.idle == old(self).idle,
                old(self).wf(),
                forall|x: Transform| #[trigger] self.found@.contains(x) <==> (base.contains(x) || ts@.take(k as int).contains(x)),
            decreases ts@.len() - k,
        {
            insert_sorted(&mut self.found, ts[k]);
            proof {
                let tk1 = ts@.take(k + 1);
                let tk = ts@.take(k as int);
                assert forall|x: Transform| #[trigger] tk1.contains(x) <==> (tk.contains(x) || x == ts@[k as int]) by {
                    if tk1.contains(x) {
                        let j = choose|j: int| 0 <= j < tk1.len() && tk1[j] == x;
                        if j < k {
                            assert(tk[j] == x);
                        }
                    }
                    if tk.contains(x) {
                        let j = choose|j: int| 0 <= j < tk.len() && tk[j] == x;
                        assert(tk1[j] == x);
                    }
                    if x == ts@[k as int] {
                        assert(tk1[k as int] == x);
                    }
                }
            }
            k = k + 1;
        }
        assert(ts@.take(k as int) =~= ts@);
        assert(self.found@.to_set() =~= base.to_set().union(ts@.to_set()));
        let ghost pending_before = self.pending_view();
        match self.open.get(&cookie) {
            Some(all) => {
                let other = remainder(all, &ts);
                proof {
                    lemma_without_len(all@, ts@);
                }
                let (a, b) = bisect(other);
                assert(all@ == old(self).open@[cookie]@);
                proof {
                    lemma_bisect_halves(without(all@, ts@));
                }
                if b.len() > 0 {
                    self.pending.push_back(a);
                    self.pending.push_back(b);
                } else if a.len() > 0 {
                    self.pending.push_back(a);
                }
                assert(self.pending_view() =~= pending_before + halves(without(old(self).open@[cookie]@, ts@)));
            },
            None => {},
        }
    }

    /// React to a response. A security association means the batch under the message's
    /// initiator cookie held accepted transforms: each proposal is resolved, the batch
    /// leaves the in-flight map and the next send pauses. A NO_PROPOSAL_CHOSEN
    /// notification means the whole batch was rejected: it leaves the map. Anything
    /// else changes nothing.
    pub fn on_message(&mut self, msg: &Packet) -> (r: MessageOutcome)
        requires
            old(self).wf(),
        ensures
            final(self).wf(),
            final(self).idle == old(self).idle,
            ({
                let c = msg.header.initiator_cookie;
                let props = proposals_of(msg.security_associations@);
                let resolved = resolve_proposals(
                    old(self).pending_view(),
                    old(self).found@.to_set(),
                    batch_of(old(self).open@, c),
                    props,
                );
                &&& msg.security_associations@.len() > 0 ==> {
                    &&& final(self).pending_view() == resolved.0
                    &&& final(self).found@.to_set() == resolved.1
                    &&& final(self).open@ == old(self).open@.remove(c)
                    &&& final(self).do_sleep == (old(self).do_sleep || props.len() > 0)
                    &&& r == if old(self).open@.contains_key(c) { MessageOutcome::Accepted } else { MessageOutcome::UnknownCookie }
                }
                &&& msg.security_associations@.len() == 0 && rejects(*msg) ==> {
                    &&& final(self).pending@ == old(self).pending@
                    &&& final(self).found@ == old(self).found@
                    &&& final(self).open@ == old(self).open@.remove(c)
                    &&& final(self).do_sleep == old(self).do_sleep
                    &&& r == if old(self).open@.contains_key(c) { MessageOutcome::Rejected } else { MessageOutcome::UnknownCookie }
                }
                &&& msg.security_associations@.len() == 0 && !rejects(*msg) ==> {
                    &&& *final(self) == *old(self)
                    &&& r == MessageOutcome::Ignored
                }
            }),
    {
        broadcast use vstd::std_specs::hash::group_hash_axioms;
        let cookie = msg.header.initiator_cookie;
        let known = self.open.contains_key(&cookie);
        if msg.security_associations.len() > 0 {
            let sas = &msg.security_associations;
            let ghost batch = batch_of(self.open@, cookie);
            let ghost p0 = self.pending_view();
            let ghost f0 = self.found@.to_set();
            let ghost s0 = self.do_sleep;
            let mut s: usize = 0;
            while s < sas.len()
                invariant
                    s <= sas@.len(),
                    self.wf(),
                    self.open@ == old(self).open@,
                    self.idle == old(self).idle,
                    batch == batch_of(self.open@, cookie),
                    (self.pending_view(), self.found@.to_set()) == resolve_proposals(p0, f0, batch, proposals_of(sas@.take(s as int))),
                    self.do_sleep == (s0 || proposals_of(sas@.take(s as int)).len() > 0),
                decreases sas@.len() - s,
            {
                let props = &sas[s].proposal_payload;
                let ghost done = proposals_of(sas@.take(s as int));
                let mut q: usize = 0;
                while q < props.len()
                    invariant
                        q <= props@.len(),
                        self.wf(),
                        self.open@ == old(self).open@,
                        self.idle == old(self).idle,
                        batch == batch_of(self.open@, cookie),
                        (self.pending_view(), self.found@.to_set()) == resolve_proposals(p0, f0, batch, done + props@.take(q as int)),
                        self.do_sleep == (s0 || (done + props@.take(q as int)).len() > 0),
                    decreases props@.len() - q,
                {
                    assert((done + props@.take(q + 1)).drop_last() =~= done + props@.take(q as int));
                    assert((done + props@.take(q + 1)).last() == props@[q as int]);
                    self.resolve(cookie, &props[q]);
                    self.do_sleep = true;
                    q = q + 1;
                }
                assert(props@.take(q as int) =~= props@);
                assert(sas@.take(s + 1).drop_last() =~= sas@.take(s as int));
                s = s + 1;
            }
            assert(sas@.take(s as int) =~= sas@);
            self.open.remove(&cookie);
            if known {
                MessageOutcome::Accepted
            } else {
                MessageOutcome::UnknownCookie
            }
        } else {
            let mut i: usize = 0;
            let mut rejected = false;
            while i < msg.notification_payloads.len()
                invariant
                    i <= msg.notification_payloads@.len(),
                    !rejected ==> forall|k: int| 0 <= k < i ==> (#[trigger] msg.notification_payloads@[k]).notify_message_type != NotifyMessageType::NoProposalChosen,
                    rejected ==> rejects(*msg),
                decreases msg.notification_payloads@.len() - i,
            {
                if msg.notification_payloads[i].notify_message_type == NotifyMessageType::NoProposalChosen {
                    rejected = true;
                }
                i = i + 1;
            }
            if rejected {
                self.open.remove(&cookie);
                if known {
                    MessageOutcome::Rejected
                } else {
                    MessageOutcome::UnknownCookie
                }
            } else {
                MessageOutcome::Ignored
            }
        }
    }
}

} // verus!
