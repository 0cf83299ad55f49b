//! Trust anchors: the roots that certificate chains may end in.
use vstd::prelude::*;
use vstd::slice::slice_subrange;
use crate::pki;
use crate::pki::TrustAnchorView;

verus! {

/// A DER-encoded X.500 distinguished name.
#[derive(Debug)]
pub struct DistinguishedName(pub Vec<u8>);

impl View for DistinguishedName {
    type V = Seq<u8>;

    open spec fn view(&self) -> Seq<u8> {
        self.0@
    }
}

impl Clone for DistinguishedName {
    fn clone(&self) -> (copy: Self)
        ensures
            copy@ == self@,
            copy.0@ == self.0@,
    {
        DistinguishedName(self.0.clone())
    }
}

/// The digits of `n` in base 256, the most significant one first and without
/// leading zeros.
pub open spec fn base256(n: nat) -> Seq<u8>
    decreases n,
{
    if n == 0 {
        Seq::empty()
    } else {
        base256(n / 256).push((n % 256) as u8)
    }
}

/// The DER encoding of a length.
pub open spec fn der_length(n: nat) -> Seq<u8> {
    if n < 0x80 {
        seq![n as u8]
    } else {
        seq![(0x80 + base256(n).len()) as u8] + base256(n)
    }
}

/// The DER encoding of a SEQUENCE with the given contents.
pub open spec fn der_sequence(contents: Seq<u8>) -> Seq<u8> {
    seq![0x30u8] + der_length(contents.len()) + contents
}

/// The least number that takes more than `digits` digits in base 256.
spec fn base256_limit(digits: nat) -> nat
    decreases digits,
{
    if digits == 0 {
        1
    } else {
        256 * base256_limit((digits - 1) as nat)
    }
}

proof fn lemma_base256_len(n: nat, digits: nat)
    requires
        n < base256_limit(digits),
    ensures
        base256(n).len() <= digits,
    decreases digits,
{
    if n > 0 {
        lemma_base256_len(n / 256, (digits - 1) as nat);
    }
}

/// A length field is at most nine bytes long on any machine.
pub(crate) proof fn lemma_usize_digits(n: usize)
    ensures
        base256(n as nat).len() <= 8,
{
    assert(base256_limit(8) == 0x1_0000_0000_0000_0000) by {
        reveal_with_fuel(base256_limit, 9);
    }
    lemma_base256_len(n as nat, 8);
}

/// The tag and length that precede the contents of a SEQUENCE.
fn sequence_header(length: usize) -> (header: Vec<u8>)
    ensures
        header@ == seq![0x30u8] + der_length(length as nat),
{
    let mut header: Vec<u8> = Vec::new();
    header.push(0x30);
    if length < 0x80 {
        header.push(length as u8);
        return header;
    }
    let mut digits: Vec<u8> = Vec::new();
    let mut left: usize = length;
    while left > 0
        invariant
            base256(length as nat) == base256(left as nat) + digits@,
        decreases left,
    {
        let ghost seen = digits@;
        digits.insert(0, (left % 256) as u8);
        proof {
            assert(digits@ =~= seq![(left % 256) as u8] + seen);
            assert(base256(left as nat) + seen =~= base256((left / 256) as nat) + digits@);
        }
        left = left / 256;
    }
    proof {
        assert(digits@ =~= base256(length as nat));
        lemma_usize_digits(length);
    }
    header.push(0x80 + digits.len() as u8);
    header.append(&mut digits);
    header
}

/// A trust anchor that owns what it consists of.
///
/// The view of it is what path building looks at.
pub struct OwnedTrustAnchor {
    subject_dn: DistinguishedName,
    subject_dn_header_len: usize,
    spki: Vec<u8>,
    name_constraints: Option<Vec<u8>>,
}

impl View for OwnedTrustAnchor {
    type V = TrustAnchorView;

    closed spec fn view(&self) -> TrustAnchorView {
        TrustAnchorView {
            subject: self.subject_dn@.skip(self.subject_dn_header_len as int),
            spki: self.spki@,
            name_constraints: match self.name_constraints {
                Some(constraints) => Some(constraints@),
                None => None,
            },
        }
    }
}

impl OwnedTrustAnchor {
    /// The distinguished name is the encoding of its contents.
    #[verifier::type_invariant]
    spec fn well_formed(&self) -> bool {
        &&& self.subject_dn_header_len <= self.subject_dn@.len()
        &&& self.subject_dn@ == der_sequence(
            self.subject_dn@.skip(self.subject_dn_header_len as int),
        )
    }

    /// Makes a trust anchor of the contents of its subject, its public key
    /// information and its name constraints, each without its outer DER tag and
    /// length.
    pub fn from_subject_spki_name_constraints(
        subject: Vec<u8>,
        spki: Vec<u8>,
        name_constraints: Option<Vec<u8>>,
    ) -> (anchor: Self)
        ensures
            anchor@ == (TrustAnchorView {
                subject: subject@,
                spki: spki@,
                name_constraints: match name_constraints {
                    Some(constraints) => Some(constraints@),
                    None => None,
                },
            }),
    {
        let mut contents = subject;
        let mut subject_dn = sequence_header(contents.len());
        let subject_dn_header_len = subject_dn.len();
        subject_dn.append(&mut contents);
        proof {
            assert(subject_dn@.skip(subject_dn_header_len as int) =~= subject@);
        }
        OwnedTrustAnchor {
            subject_dn: DistinguishedName(subject_dn),
            subject_dn_header_len,
            spki,
            name_constraints,
        }
    }

    /// The subject of this anchor as a complete DER-encoded distinguished name.
    pub fn subject(&self) -> (name: &DistinguishedName)
        ensures
            name@ == der_sequence(self@.subject),
    {
        proof {
            use_type_invariant(self);
        }
        &self.subject_dn
    }

    /// This anchor in the form that path building takes.
    pub fn to_trust_anchor(&self) -> (anchor: webpki::TrustAnchor<'_>)
        ensures
            pki::trust_anchor_view(anchor) == self@,
    {
        proof {
            use_type_invariant(self);
        }
        let subject = slice_subrange(
            self.subject_dn.0.as_slice(),
            self.subject_dn_header_len,
            self.subject_dn.0.len(),
        );
        match &self.name_constraints {
            Some(constraints) => pki::trust_anchor(
                subject,
                self.spki.as_slice(),
                Some(constraints.as_slice()),
            ),
            None => pki::trust_anchor(subject, self.spki.as_slice(), None),
        }
    }
}

/// A container for the trust anchors that a verifier relies on.
pub struct RootCertStore {
    /// The anchors.
    pub roots: Vec<OwnedTrustAnchor>,
}

impl View for RootCertStore {
    type V = Seq<TrustAnchorView>;

    open spec fn view(&self) -> Seq<TrustAnchorView> {
        self.roots@.map_values(|anchor: OwnedTrustAnchor| anchor@)
    }
}

/// The anchors in `roots`, in order, in the form that path building takes.
pub fn trust_roots(roots: &RootCertStore) -> (anchors: Vec<webpki::TrustAnchor<'_>>)
    ensures
        pki::trust_anchor_views(anchors@) == roots@,
{
    let mut anchors: Vec<webpki::TrustAnchor<'_>> = Vec::new();
    for i in 0..roots.roots.len()
        invariant
            pki::trust_anchor_views(anchors@) == roots@.take(i as int),
    {
        let ghost before = anchors@;
        anchors.push(roots.roots[i].to_trust_anchor());
        assert(pki::trust_anchor_views(anchors@) =~= pki::trust_anchor_views(before).push(
            roots@[i as int],
        ));
        assert(roots@.take(i + 1) =~= roots@.take(i as int).push(roots@[i as int]));
    }
    assert(roots@.take(roots.roots.len() as int) =~= roots@);
    anchors
}

} // verus!
