//! Laws of the candidate enumeration: every combination of algorithms appears exactly
//! once per allowed key length, and nothing else does.
use vstd::prelude::*;

use crate::engine::{candidates, key_variants, over_auths, over_encryptions, over_groups, over_hashes};
use crate::v1::generator::Transform;
use crate::v1::params::{AuthenticationMethod, EncryptionAlgorithm, GroupDescription, HashAlgorithm};

verus! {

/// Every EncryptionAlgorithm variant is listed, each once.
pub proof fn lemma_all_encryption_algorithm()
    ensures
        EncryptionAlgorithm::spec_all().no_duplicates(),
        forall|v: EncryptionAlgorithm| #[trigger] EncryptionAlgorithm::spec_all().contains(v),
{
    let s = EncryptionAlgorithm::spec_all();
    assert forall|i: int| 0 <= i < s.len() implies #[trigger] s[i].spec_value() == (i + 1) by {
        if i == 0 {
            assert(s[0] == EncryptionAlgorithm::DesCbc);
        } else if i == 1 {
            assert(s[1] == EncryptionAlgorithm::IdeaCbc);
        } else if i == 2 {
            assert(s[2] == EncryptionAlgorithm::BlowfishCbc);
        } else if i == 3 {
            assert(s[3] == EncryptionAlgorithm::Rc5R16B64Cbc);
        } else if i == 4 {
            assert(s[4] == EncryptionAlgorithm::TripleDesCbc);
        } else if i == 5 {
            assert(s[5] == EncryptionAlgorithm::CastCbc);
        } else if i == 6 {
            assert(s[6] == EncryptionAlgorithm::AesCbc);
        } else if i == 7 {
            assert(s[7] == EncryptionAlgorithm::CamelliaCbc);
        }
    }
    assert forall|i: int, j: int| 0 <= i < j < s.len() implies s[i] != s[j] by {
        assert(s[i].spec_value() != s[j].spec_value());
    }
    assert forall|v: EncryptionAlgorithm| #[trigger] s.contains(v) by {
        match v {
            EncryptionAlgorithm::DesCbc => assert(s[0] == v),
            EncryptionAlgorithm::IdeaCbc => assert(s[1] == v),
            EncryptionAlgorithm::BlowfishCbc => assert(s[2] == v),
            EncryptionAlgorithm::Rc5R16B64Cbc => assert(s[3] == v),
            EncryptionAlgorithm::TripleDesCbc => assert(s[4] == v),
            EncryptionAlgorithm::CastCbc => assert(s[5] == v),
            EncryptionAlgorithm::AesCbc => assert(s[6] == v),
            EncryptionAlgorithm::CamelliaCbc => assert(s[7] == v),
        }
    }
}

/// Every HashAlgorithm variant is listed, each once.
pub proof fn lemma_all_hash_algorithm()
    ensures
        HashAlgorithm::spec_all().no_duplicates(),
        forall|v: HashAlgorithm| #[trigger] HashAlgorithm::spec_all().contains(v),
{
    let s = HashAlgorithm::spec_all();
    assert forall|i: int| 0 <= i < s.len() implies #[trigger] s[i].spec_value() == (i + 1) by {
        if i == 0 {
            assert(s[0] == HashAlgorithm::Md5);
        } else if i == 1 {
            assert(s[1] == HashAlgorithm::Sha);
        } else if i == 2 {
            assert(s[2] == HashAlgorithm::Tiger);
        } else if i == 3 {
            assert(s[3] == HashAlgorithm::Sha2_256);
        } else if i == 4 {
            assert(s[4] == HashAlgorithm::Sha2_384);
        } else if i == 5 {
            assert(s[5] == HashAlgorithm::Sha2_512);
        }
    }
    assert forall|i: int, j: int| 0 <= i < j < s.len() implies s[i] != s[j] by {
        assert(s[i].spec_value() != s[j].spec_value());
    }
    assert forall|v: HashAlgorithm| #[trigger] s.contains(v) by {
        match v {
            HashAlgorithm::Md5 => assert(s[0] == v),
            HashAlgorithm::Sha => assert(s[1] == v),
            HashAlgorithm::Tiger => assert(s[2] == v),
            HashAlgorithm::Sha2_256 => assert(s[3] == v),
            HashAlgorithm::Sha2_384 => assert(s[4] == v),
            HashAlgorithm::Sha2_512 => assert(s[5] == v),
        }
    }
}

/// Every AuthenticationMethod variant is listed, each once.
pub proof fn lemma_all_authentication_method()
    ensures
        AuthenticationMethod::spec_all().no_duplicates(),
        forall|v: AuthenticationMethod| #[trigger] AuthenticationMethod::spec_all().contains(v),
{
    let s = AuthenticationMethod::spec_all();
    assert forall|i: int| 0 <= i < s.len() implies #[trigger] s[i].spec_value() == (if i < 5 { i + 1 } else { i + 4 }) by {
        if i == 0 {
            assert(s[0] == AuthenticationMethod::PreSharedKey);
        } else if i == 1 {
            assert(s[1] == AuthenticationMethod::DssSignatures);
        } else if i == 2 {
            assert(s[2] == AuthenticationMethod::RsaSignatures);
        } else if i == 3 {
            assert(s[3] == AuthenticationMethod::EncryptionWithRsa);
        } else if i == 4 {
            assert(s[4] == AuthenticationMethod::RevisedEncryptionWithRsa);
        } else if i == 5 {
            assert(s[5] == AuthenticationMethod::EcdsaSha256P256);
        } else if i == 6 {
            assert(s[6] == AuthenticationMethod::EcdsaSha384P384);
        } else if i == 7 {
            assert(s[7] == AuthenticationMethod::EcdsaSha512P521);
        }
    }
    assert forall|i: int, j: int| 0 <= i < j < s.len() implies s[i] != s[j] by {
        assert(s[i].spec_value() != s[j].spec_value());
    }
    assert forall|v: AuthenticationMethod| #[trigger] s.contains(v) by {
        match v {
            AuthenticationMethod::PreSharedKey => assert(s[0] == v),
            AuthenticationMethod::DssSignatures => assert(s[1] == v),
            AuthenticationMethod::RsaSignatures => assert(s[2] == v),
            AuthenticationMethod::EncryptionWithRsa => assert(s[3] == v),
            AuthenticationMethod::RevisedEncryptionWithRsa => assert(s[4] == v),
            AuthenticationMethod::EcdsaSha256P256 => assert(s[5] == v),
            AuthenticationMethod::EcdsaSha384P384 => assert(s[6] == v),
            AuthenticationMethod::EcdsaSha512P521 => assert(s[7] == v),
        }
    }
}

/// Every GroupDescription variant is listed, each once.
pub proof fn lemma_all_group_description()
    ensures
        GroupDescription::spec_all().no_duplicates(),
        forall|v: GroupDescription| #[trigger] GroupDescription::spec_all().contains(v),
{
    let s = GroupDescription::spec_all();
    assert forall|i: int| 0 <= i < s.len() implies #[trigger] s[i].spec_value() == (i + 1) by {
        if i == 0 {
            assert(s[0] == GroupDescription::Modp768);
        } else if i == 1 {
            assert(s[1] == GroupDescription::Modp1024);
        } else if i == 2 {
            assert(s[2] == GroupDescription::Ec2n155);
        } else if i == 3 {
            assert(s[3] == GroupDescription::Ec2n185);
        } else if i == 4 {
            assert(s[4] == GroupDescription::Modp1536);
        } else if i == 5 {
            assert(s[5] == GroupDescription::Ec2n163Random);
        } else if i == 6 {
            assert(s[6] == GroupDescription::Ec2n163Koblitz);
        } else if i == 7 {
            assert(s[7] == GroupDescription::Ec2n283Random);
        } else if i == 8 {
            assert(s[8] == GroupDescription::Ec2n283Koblitz);
        } else if i == 9 {
            assert(s[9] == GroupDescription::Ec2n409Random);
        } else if i == 10 {
            assert(s[10] == GroupDescription::Ec2n409Koblitz);
        } else if i == 11 {
            assert(s[11] == GroupDescription::Ec2n571Random);
        } else if i == 12 {
            assert(s[12] == GroupDescription::Ec2n571Koblitz);
        } else if i == 13 {
            assert(s[13] == GroupDescription::Modp2048);
        } else if i == 14 {
            assert(s[14] == GroupDescription::Modp3072);
        } else if i == 15 {
            assert(s[15] == GroupDescription::Modp4096);
        } else if i == 16 {
            assert(s[16] == GroupDescription::Modp6144);
        } else if i == 17 {
            assert(s[17] == GroupDescription::Modp8192);
        } else if i == 18 {
            assert(s[18] == GroupDescription::Ecp256);
        } else if i == 19 {
            assert(s[19] == GroupDescription::Ecp384);
        } else if i == 20 {
            assert(s[20] == GroupDescription::Ecp521);
        } else if i == 21 {
            assert(s[21] == GroupDescription::Modp1024Prime160);
        } else if i == 22 {
            assert(s[22] == GroupDescription::Modp2048Prime224);
        } else if i == 23 {
            assert(s[23] == GroupDescription::Modp2048Prime256);
        } else if i == 24 {
            assert(s[24] == GroupDescription::Ecp192);
        } else if i == 25 {
            assert(s[25] == GroupDescription::Ecp224);
        } else if i == 26 {
            assert(s[26] == GroupDescription::BrainpoolP224r1);
        } else if i == 27 {
            assert(s[27] == GroupDescription::BrainpoolP256r1);
        } else if i == 28 {
            assert(s[28] == GroupDescription::BrainpoolP384r1);
        } else if i == 29 {
            assert(s[29] == GroupDescription::BrainpoolP512r1);
        }
    }
    assert forall|i: int, j: int| 0 <= i < j < s.len() implies s[i] != s[j] by {
        assert(s[i].spec_value() != s[j].spec_value());
    }
    assert forall|v: GroupDescription| #[trigger] s.contains(v) by {
        match v {
            GroupDescription::Modp768 => assert(s[0] == v),
            GroupDescription::Modp1024 => assert(s[1] == v),
            GroupDescription::Ec2n155 => assert(s[2] == v),
            GroupDescription::Ec2n185 => assert(s[3] == v),
            GroupDescription::Modp1536 => assert(s[4] == v),
            GroupDescription::Ec2n163Random => assert(s[5] == v),
            GroupDescription::Ec2n163Koblitz => assert(s[6] == v),
            GroupDescription::Ec2n283Random => assert(s[7] == v),
            GroupDescription::Ec2n283Koblitz => assert(s[8] == v),
            GroupDescription::Ec2n409Random => assert(s[9] == v),
            GroupDescription::Ec2n409Koblitz => assert(s[10] == v),
            GroupDescription::Ec2n571Random => assert(s[11] == v),
            GroupDescription::Ec2n571Koblitz => assert(s[12] == v),
            GroupDescription::Modp2048 => assert(s[13] == v),
            GroupDescription::Modp3072 => assert(s[14] == v),
            GroupDescription::Modp4096 => assert(s[15] == v),
            GroupDescription::Modp6144 => assert(s[16] == v),
            GroupDescription::Modp8192 => assert(s[17] == v),
            GroupDescription::Ecp256 => assert(s[18] == v),
            GroupDescription::Ecp384 => assert(s[19] == v),
            GroupDescription::Ecp521 => assert(s[20] == v),
            GroupDescription::Modp1024Prime160 => assert(s[21] == v),
            GroupDescription::Modp2048Prime224 => assert(s[22] == v),
            GroupDescription::Modp2048Prime256 => assert(s[23] == v),
            GroupDescription::Ecp192 => assert(s[24] == v),
            GroupDescription::Ecp224 => assert(s[25] == v),
            GroupDescription::BrainpoolP224r1 => assert(s[26] == v),
            GroupDescription::BrainpoolP256r1 => assert(s[27] == v),
            GroupDescription::BrainpoolP384r1 => assert(s[28] == v),
            GroupDescription::BrainpoolP512r1 => assert(s[29] == v),
        }
    }
}

/// The key lengths that a candidate may carry: 128, 192 or 256 bits for AES-CBC, none
/// for any other cipher.
pub open spec fn allowed_key_size(t: Transform) -> bool {
    if t.encryption_algorithm == EncryptionAlgorithm::AesCbc {
        t.key_size == Some(128u16) || t.key_size == Some(192u16) || t.key_size == Some(256u16)
    } else {
        t.key_size is None
    }
}

/// Membership in a concatenation.
pub proof fn lemma_contains_concat<A>(a: Seq<A>, b: Seq<A>, x: A)
    ensures
        (a + b).contains(x) <==> (a.contains(x) || b.contains(x)),
{
    if (a + b).contains(x) {
        let k = choose|k: int| 0 <= k < (a + b).len() && (a + b)[k] == x;
        if k < a.len() {
            assert(a[k] == x);
        } else {
            assert(b[k - a.len()] == x);
        }
    }
    if a.contains(x) {
        let k = choose|k: int| 0 <= k < a.len() && a[k] == x;
        assert((a + b)[k] == x);
    }
    if b.contains(x) {
        let k = choose|k: int| 0 <= k < b.len() && b[k] == x;
        assert((a + b)[a.len() + k] == x);
    }
}

/// Two sequences without repeats and without common elements concatenate to one
/// without repeats.
pub proof fn lemma_no_duplicates_concat<A>(a: Seq<A>, b: Seq<A>)
    requires
        a.no_duplicates(),
        b.no_duplicates(),
        forall|x: A| a.contains(x) ==> !b.contains(x),
    ensures
        (a + b).no_duplicates(),
{
    let c = a + b;
    assert forall|i: int, j: int| 0 <= i < c.len() && 0 <= j < c.len() && i != j implies c[i] != c[j] by {
        if i < a.len() && j >= a.len() {
            assert(a.contains(c[i]));
            assert(b[j - a.len()] == c[j]);
        } else if j < a.len() && i >= a.len() {
            assert(a.contains(c[j]));
            assert(b[i - a.len()] == c[i]);
        } else if i < a.len() {
            assert(a[i] == c[i] && a[j] == c[j]);
        } else {
            assert(b[i - a.len()] == c[i] && b[j - a.len()] == c[j]);
        }
    }
}

/// The candidates of one combination: that combination with each allowed key length.
pub proof fn lemma_key_variants(e: EncryptionAlgorithm, h: HashAlgorithm, a: AuthenticationMethod, g: GroupDescription)
    ensures
        key_variants(e, h, a, g).no_duplicates(),
        forall|t: Transform| #[trigger] key_variants(e, h, a, g).contains(t) <==> (t.encryption_algorithm == e
            && t.hash_algorithm == h && t.authentication_method == a && t.group_description == g
            && allowed_key_size(t)),
{
    let s = key_variants(e, h, a, g);
    assert forall|t: Transform| #[trigger] s.contains(t) <==> (t.encryption_algorithm == e
        && t.hash_algorithm == h && t.authentication_method == a && t.group_description == g
        && allowed_key_size(t)) by {
        if s.contains(t) {
            let k = choose|k: int| 0 <= k < s.len() && s[k] == t;
        }
        if t.encryption_algorithm == e && t.hash_algorithm == h && t.authentication_method == a
            && t.group_description == g && allowed_key_size(t) {
            if e == EncryptionAlgorithm::AesCbc {
                if t.key_size == Some(128u16) {
                    assert(s[0] == t);
                } else if t.key_size == Some(192u16) {
                    assert(s[1] == t);
                } else {
                    assert(s[2] == t);
                }
            } else {
                assert(s[0] == t);
            }
        }
    }
}

/// Candidates over a list of groups.
pub proof fn lemma_over_groups(e: EncryptionAlgorithm, h: HashAlgorithm, a: AuthenticationMethod, gs: Seq<GroupDescription>)
    requires
        gs.no_duplicates(),
    ensures
        over_groups(e, h, a, gs).no_duplicates(),
        forall|t: Transform| #[trigger] over_groups(e, h, a, gs).contains(t) <==> (t.encryption_algorithm == e
            && t.hash_algorithm == h && t.authentication_method == a && gs.contains(t.group_description)
            && allowed_key_size(t)),
    decreases gs.len(),
{
    if gs.len() == 0 {
        assert forall|t: Transform| #[trigger] over_groups(e, h, a, gs).contains(t) <==> (t.encryption_algorithm == e
            && t.hash_algorithm == h && t.authentication_method == a && gs.contains(t.group_description)
            && allowed_key_size(t)) by {}
    } else {
        let init = gs.drop_last();
        assert(init.no_duplicates());
        lemma_over_groups(e, h, a, init);
        lemma_key_variants(e, h, a, gs.last());
        let l = over_groups(e, h, a, init);
        let r = key_variants(e, h, a, gs.last());
        assert(!init.contains(gs.last())) by {
            if init.contains(gs.last()) {
                let k = choose|k: int| 0 <= k < init.len() && init[k] == gs.last();
                assert(gs[k] == gs[gs.len() - 1]);
            }
        }
        lemma_no_duplicates_concat(l, r);
        assert forall|t: Transform| #[trigger] over_groups(e, h, a, gs).contains(t) <==> (t.encryption_algorithm == e
            && t.hash_algorithm == h && t.authentication_method == a && gs.contains(t.group_description)
            && allowed_key_size(t)) by {
            lemma_contains_concat(l, r, t);
            assert(gs =~= init.push(gs.last()));
            lemma_contains_concat(init, seq![gs.last()], t.group_description);
            assert(init.push(gs.last()) =~= init + seq![gs.last()]);
        }
    }
}


/// Candidates over lists of authentication methods and groups.
pub proof fn lemma_over_auths(e: EncryptionAlgorithm, h: HashAlgorithm, aus: Seq<AuthenticationMethod>, gs: Seq<GroupDescription>)
    requires
        aus.no_duplicates(),
        gs.no_duplicates(),
    ensures
        over_auths(e, h, aus, gs).no_duplicates(),
        forall|t: Transform| #[trigger] over_auths(e, h, aus, gs).contains(t) <==> (t.encryption_algorithm == e
            && t.hash_algorithm == h && aus.contains(t.authentication_method) && gs.contains(t.group_description)
            && allowed_key_size(t)),
    decreases aus.len(),
{
    if aus.len() == 0 {
        assert forall|t: Transform| #[trigger] over_auths(e, h, aus, gs).contains(t) <==> (t.encryption_algorithm == e
            && t.hash_algorithm == h && aus.contains(t.authentication_method) && gs.contains(t.group_description)
            && allowed_key_size(t)) by {}
    } else {
        let init = aus.drop_last();
        assert(init.no_duplicates());
        lemma_over_auths(e, h, init, gs);
        lemma_over_groups(e, h, aus.last(), gs);
        let l = over_auths(e, h, init, gs);
        let r = over_groups(e, h, aus.last(), gs);
        assert(!init.contains(aus.last())) by {
            if init.contains(aus.last()) {
                let k = choose|k: int| 0 <= k < init.len() && init[k] == aus.last();
                assert(aus[k] == aus[aus.len() - 1]);
            }
        }
        lemma_no_duplicates_concat(l, r);
        assert(aus =~= init + seq![aus.last()]);
        assert forall|t: Transform| #[trigger] over_auths(e, h, aus, gs).contains(t) <==> (t.encryption_algorithm == e
            && t.hash_algorithm == h && aus.contains(t.authentication_method) && gs.contains(t.group_description)
            && allowed_key_size(t)) by {
            lemma_contains_concat(l, r, t);
            lemma_contains_concat(init, seq![aus.last()], t.authentication_method);
        }
    }
}

/// Candidates over lists of hashes, authentication methods and groups.
pub proof fn lemma_over_hashes(e: EncryptionAlgorithm, hs: Seq<HashAlgorithm>, aus: Seq<AuthenticationMethod>, gs: Seq<GroupDescription>)
    requires
        hs.no_duplicates(),
        aus.no_duplicates(),
        gs.no_duplicates(),
    ensures
        over_hashes(e, hs, aus, gs).no_duplicates(),
        forall|t: Transform| #[trigger] over_hashes(e, hs, aus, gs).contains(t) <==> (t.encryption_algorithm == e
            && hs.contains(t.hash_algorithm) && aus.contains(t.authentication_method) && gs.contains(t.group_description)
            && allowed_key_size(t)),
    decreases hs.len(),
{
    if hs.len() == 0 {
        assert forall|t: Transform| #[trigger] over_hashes(e, hs, aus, gs).contains(t) <==> (t.encryption_algorithm == e
            && hs.contains(t.hash_algorithm) && aus.contains(t.authentication_method) && gs.contains(t.group_description)
            && allowed_key_size(t)) by {}
    } else {
        let init = hs.drop_last();
        assert(init.no_duplicates());
        lemma_over_hashes(e, init, aus, gs);
        lemma_over_auths(e, hs.last(), aus, gs);
        let l = over_hashes(e, init, aus, gs);
        let r = over_auths(e, hs.last(), aus, gs);
        assert(!init.contains(hs.last())) by {
            if init.contains(hs.last()) {
                let k = choose|k: int| 0 <= k < init.len() && init[k] == hs.last();
                assert(hs[k] == hs[hs.len() - 1]);
            }
        }
        lemma_no_duplicates_concat(l, r);
        assert(hs =~= init + seq![hs.last()]);
        assert forall|t: Transform| #[trigger] over_hashes(e, hs, aus, gs).contains(t) <==> (t.encryption_algorithm == e
            && hs.contains(t.hash_algorithm) && aus.contains(t.authentication_method) && gs.contains(t.group_description)
            && allowed_key_size(t)) by {
            lemma_contains_concat(l, r, t);
            lemma_contains_concat(init, seq![hs.last()], t.hash_algorithm);
        }
    }
}

/// Candidates over lists of ciphers, hashes, authentication methods and groups.
pub proof fn lemma_over_encryptions(es: Seq<EncryptionAlgorithm>, hs: Seq<HashAlgorithm>, aus: Seq<AuthenticationMethod>, gs: Seq<GroupDescription>)
    requires
        es.no_duplicates(),
        hs.no_duplicates(),
        aus.no_duplicates(),
        gs.no_duplicates(),
    ensures
        over_encryptions(es, hs, aus, gs).no_duplicates(),
        forall|t: Transform| #[trigger] over_encryptions(es, hs, aus, gs).contains(t) <==> (es.contains(t.encryption_algorithm)
            && hs.contains(t.hash_algorithm) && aus.contains(t.authentication_method) && gs.contains(t.group_description)
            && allowed_key_size(t)),
    decreases es.len(),
{
    if es.len() == 0 {
        assert forall|t: Transform| #[trigger] over_encryptions(es, hs, aus, gs).contains(t) <==> (es.contains(t.encryption_algorithm)
            && hs.contains(t.hash_algorithm) && aus.contains(t.authentication_method) && gs.contains(t.group_description)
            && allowed_key_size(t)) by {}
    } else {
        let init = es.drop_last();
        assert(init.no_duplicates());
        lemma_over_encryptions(init, hs, aus, gs);
        lemma_over_hashes(es.last(), hs, aus, gs);
        let l = over_encryptions(init, hs, aus, gs);
        let r = over_hashes(es.last(), hs, aus, gs);
        assert(!init.contains(es.last())) by {
            if init.contains(es.last()) {
                let k = choose|k: int| 0 <= k < init.len() && init[k] == es.last();
                assert(es[k] == es[es.len() - 1]);
            }
        }
        lemma_no_duplicates_concat(l, r);
        assert(es =~= init + seq![es.last()]);
        assert forall|t: Transform| #[trigger] over_encryptions(es, hs, aus, gs).contains(t) <==> (es.contains(t.encryption_algorithm)
            && hs.contains(t.hash_algorithm) && aus.contains(t.authentication_method) && gs.contains(t.group_description)
            && allowed_key_size(t)) by {
            lemma_contains_concat(l, r, t);
            lemma_contains_concat(init, seq![es.last()], t.encryption_algorithm);
        }
    }
}

/// The candidates hold every combination of encryption, hash, authentication and group
/// exactly once per allowed key length (128, 192 and 256 bits for AES-CBC, none for the
/// others), and nothing else.
pub proof fn lemma_candidates_exact()
    ensures
        candidates().no_duplicates(),
        forall|t: Transform| #[trigger] candidates().contains(t) <==> allowed_key_size(t),
{
    lemma_all_encryption_algorithm();
    lemma_all_hash_algorithm();
    lemma_all_authentication_method();
    lemma_all_group_description();
    lemma_over_encryptions(
        EncryptionAlgorithm::spec_all(),
        HashAlgorithm::spec_all(),
        AuthenticationMethod::spec_all(),
        GroupDescription::spec_all(),
    );
}

} // verus!
