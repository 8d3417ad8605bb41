//! Carrier types for the pairing library's scalars and source-group points.
//!
//! An element is held as its canonical byte encoding, and the view of each
//! type is that encoding as a `Seq<u8>`. The arithmetic itself is done by
//! `amcl_wrapper`; each operation is reached through one trusted wrapper
//! whose contract names the result as a function of the operand encodings.
use vstd::prelude::*;

use amcl_wrapper::extension_field_gt::GT;
use amcl_wrapper::field_elem::FieldElement;
use amcl_wrapper::group_elem::GroupElement;
use amcl_wrapper::group_elem_g1::{G1, G1Vector};
use amcl_wrapper::group_elem_g2::{G2, G2Vector};

verus! {

/// Length in bytes of a canonically encoded scalar.
pub const SCALAR_BYTES: usize = 48;

/// Length in bytes of an uncompressed G1 point encoding.
pub const G1_BYTES: usize = 97;

/// Length in bytes of an uncompressed G2 point encoding.
pub const G2_BYTES: usize = 193;

/// An element of the scalar field, as its canonical big-endian encoding.
#[derive(Clone, Debug, PartialEq, Eq)]
pub struct Scalar {
    bytes: Vec<u8>,
}

/// A point of the first source group G1, in which signatures live,
/// as its uncompressed canonical encoding.
#[derive(Clone, Debug, PartialEq, Eq)]
pub struct SignatureGroup {
    bytes: Vec<u8>,
}

/// A point of the second source group G2, in which the verification key's
/// `X_tilde`/`Y_tilde` components and committed values live, as its
/// uncompressed canonical encoding.
#[derive(Clone, Debug, PartialEq, Eq)]
pub struct OtherGroup {
    bytes: Vec<u8>,
}

impl View for Scalar {
    type V = Seq<u8>;

    closed spec fn view(&self) -> Seq<u8> {
        self.bytes@
    }
}

impl View for SignatureGroup {
    type V = Seq<u8>;

    closed spec fn view(&self) -> Seq<u8> {
        self.bytes@
    }
}

impl View for OtherGroup {
    type V = Seq<u8>;

    closed spec fn view(&self) -> Seq<u8> {
        self.bytes@
    }
}

/// Copies a byte vector element by element.
pub(crate) fn copy_bytes(v: &Vec<u8>) -> (r: Vec<u8>)
    ensures
        r@ == v@,
{
    let mut r: Vec<u8> = Vec::new();
    let mut i: usize = 0;
    while i < v.len()
        invariant
            i <= v.len(),
            r@ == v@.take(i as int),
        decreases v.len() - i,
    {
        r.push(v[i]);
        proof {
            assert(v@.take(i as int).push(v@[i as int]) =~= v@.take(i + 1 as int));
        }
        i = i + 1;
    }
    proof {
        assert(v@.take(v@.len() as int) =~= v@);
    }
    r
}

/// Compares two byte vectors for equality of their contents.
pub(crate) fn bytes_eq(a: &Vec<u8>, b: &Vec<u8>) -> (r: bool)
    ensures
        r == (a@ == b@),
{
    if a.len() != b.len() {
        return false;
    }
    let mut i: usize = 0;
    while i < a.len()
        invariant
            i <= a@.len(),
            a@.len() == b@.len(),
            forall|k: int| 0 <= k < i ==> a@[k] == b@[k],
        decreases a@.len() - i,
    {
        if a[i] != b[i] {
            return false;
        }
        i = i + 1;
    }
    proof {
        assert(a@ =~= b@);
    }
    true
}

impl Scalar {
    /// A scalar is well formed when its encoding has the canonical length.
    pub open spec fn wf(&self) -> bool {
        self@.len() == SCALAR_BYTES
    }

    /// Whether the two encodings are equal.
    pub fn equals(&self, other: &Scalar) -> (r: bool)
        ensures
            r == (self@ == other@),
    {
        bytes_eq(&self.bytes, &other.bytes)
    }

    /// Wraps an encoding of the canonical length; rejects any other length.
    pub fn from_bytes(bytes: Vec<u8>) -> (r: Option<Scalar>)
        ensures
            bytes@.len() == SCALAR_BYTES ==> (r matches Some(s) && s@ == bytes@ && s.wf()),
            bytes@.len() != SCALAR_BYTES ==> r is None,
    {
        if bytes.len() == SCALAR_BYTES {
            Some(Scalar { bytes })
        } else {
            None
        }
    }

    /// The canonical encoding.
    pub fn to_bytes(&self) -> (r: Vec<u8>)
        ensures
            r@ == self@,
    {
        copy_bytes(&self.bytes)
    }

    /// A copy whose encoding is equal to this one's.
    pub fn dup(&self) -> (r: Scalar)
        ensures
            r@ == self@,
    {
        Scalar { bytes: copy_bytes(&self.bytes) }
    }
}

impl SignatureGroup {
    /// A G1 point is well formed when its encoding has the canonical length.
    pub open spec fn wf(&self) -> bool {
        self@.len() == G1_BYTES
    }

    /// Whether the two encodings are equal.
    pub fn equals(&self, other: &SignatureGroup) -> (r: bool)
        ensures
            r == (self@ == other@),
    {
        bytes_eq(&self.bytes, &other.bytes)
    }

    /// Wraps an encoding of the canonical length; rejects any other length.
    pub fn from_bytes(bytes: Vec<u8>) -> (r: Option<SignatureGroup>)
        ensures
            bytes@.len() == G1_BYTES ==> (r matches Some(p) && p@ == bytes@ && p.wf()),
            bytes@.len() != G1_BYTES ==> r is None,
    {
        if bytes.len() == G1_BYTES {
            Some(SignatureGroup { bytes })
        } else {
            None
        }
    }

    /// The canonical encoding.
    pub fn to_bytes(&self) -> (r: Vec<u8>)
        ensures
            r@ == self@,
    {
        copy_bytes(&self.bytes)
    }

    /// A copy whose encoding is equal to this one's.
    pub fn dup(&self) -> (r: SignatureGroup)
        ensures
            r@ == self@,
    {
        SignatureGroup { bytes: copy_bytes(&self.bytes) }
    }
}

impl OtherGroup {
    /// A G2 point is well formed when its encoding has the canonical length.
    pub open spec fn wf(&self) -> bool {
        self@.len() == G2_BYTES
    }

    /// Whether the two encodings are equal.
    pub fn equals(&self, other: &OtherGroup) -> (r: bool)
        ensures
            r == (self@ == other@),
    {
        bytes_eq(&self.bytes, &other.bytes)
    }

    /// Wraps an encoding of the canonical length; rejects any other length.
    pub fn from_bytes(bytes: Vec<u8>) -> (r: Option<OtherGroup>)
        ensures
            bytes@.len() == G2_BYTES ==> (r matches Some(p) && p@ == bytes@ && p.wf()),
            bytes@.len() != G2_BYTES ==> r is None,
    {
        if bytes.len() == G2_BYTES {
            Some(OtherGroup { bytes })
        } else {
            None
        }
    }

    /// The canonical encoding.
    pub fn to_bytes(&self) -> (r: Vec<u8>)
        ensures
            r@ == self@,
    {
        copy_bytes(&self.bytes)
    }

    /// A copy whose encoding is equal to this one's.
    pub fn dup(&self) -> (r: OtherGroup)
        ensures
            r@ == self@,
    {
        OtherGroup { bytes: copy_bytes(&self.bytes) }
    }
}

/// The encodings of a sequence of scalars.
pub open spec fn scalar_views(s: Seq<Scalar>) -> Seq<Seq<u8>> {
    s.map_values(|x: Scalar| x@)
}

/// The encodings of a sequence of G1 points.
pub open spec fn g1_views(s: Seq<SignatureGroup>) -> Seq<Seq<u8>> {
    s.map_values(|x: SignatureGroup| x@)
}

/// The encodings of a sequence of G2 points.
pub open spec fn g2_views(s: Seq<OtherGroup>) -> Seq<Seq<u8>> {
    s.map_values(|x: OtherGroup| x@)
}

/// Every scalar in the sequence is well formed.
pub open spec fn scalars_wf(s: Seq<Scalar>) -> bool {
    forall|i: int| 0 <= i < s.len() ==> (#[trigger] s[i]).wf()
}

/// Every G1 point in the sequence is well formed.
pub open spec fn g1s_wf(s: Seq<SignatureGroup>) -> bool {
    forall|i: int| 0 <= i < s.len() ==> (#[trigger] s[i]).wf()
}

/// Every G2 point in the sequence is well formed.
pub open spec fn g2s_wf(s: Seq<OtherGroup>) -> bool {
    forall|i: int| 0 <= i < s.len() ==> (#[trigger] s[i]).wf()
}

// --- names for the pairing library's operations, as functions of encodings ---

/// The scalar that `FieldElement::from_msg_hash` derives from a message.
pub uninterp spec fn fe_hash_of(msg: Seq<u8>) -> Seq<u8>;

/// The sum of two scalars modulo the curve order.
pub uninterp spec fn fe_add_of(a: Seq<u8>, b: Seq<u8>) -> Seq<u8>;

/// The product of two scalars modulo the curve order.
pub uninterp spec fn fe_mul_of(a: Seq<u8>, b: Seq<u8>) -> Seq<u8>;

/// The G1 point that `G1::from_msg_hash` derives from a message.
pub uninterp spec fn g1_hash_of(msg: Seq<u8>) -> Seq<u8>;

/// The G2 point that `G2::from_msg_hash` derives from a message.
pub uninterp spec fn g2_hash_of(msg: Seq<u8>) -> Seq<u8>;

/// The G1 point `p` multiplied by the scalar `s`.
pub uninterp spec fn g1_mul_of(p: Seq<u8>, s: Seq<u8>) -> Seq<u8>;

/// The G2 point `p` multiplied by the scalar `s`.
pub uninterp spec fn g2_mul_of(p: Seq<u8>, s: Seq<u8>) -> Seq<u8>;

/// The sum of two G1 points.
pub uninterp spec fn g1_add_of(p: Seq<u8>, q: Seq<u8>) -> Seq<u8>;

/// The sum of two G2 points.
pub uninterp spec fn g2_add_of(p: Seq<u8>, q: Seq<u8>) -> Seq<u8>;

/// The negation of a G1 point.
pub uninterp spec fn g1_neg_of(p: Seq<u8>) -> Seq<u8>;

/// Whether a G1 encoding denotes the group identity.
pub uninterp spec fn g1_is_id_of(p: Seq<u8>) -> bool;

/// The constant-time multi-scalar product over G1 bases and scalars.
pub uninterp spec fn g1_msm_of(ps: Seq<Seq<u8>>, ss: Seq<Seq<u8>>) -> Seq<u8>;

/// The variable-time multi-scalar product over G1 bases and scalars.
pub uninterp spec fn g1_msm_var_of(ps: Seq<Seq<u8>>, ss: Seq<Seq<u8>>) -> Seq<u8>;

/// The constant-time multi-scalar product over G2 bases and scalars.
pub uninterp spec fn g2_msm_of(ps: Seq<Seq<u8>>, ss: Seq<Seq<u8>>) -> Seq<u8>;

/// The variable-time multi-scalar product over G2 bases and scalars.
pub uninterp spec fn g2_msm_var_of(ps: Seq<Seq<u8>>, ss: Seq<Seq<u8>>) -> Seq<u8>;

/// Whether the two-pairing product e(a1, b1) * e(a2, b2) is the identity
/// of the target group.
pub uninterp spec fn pair2_is_one_of(a1: Seq<u8>, b1: Seq<u8>, a2: Seq<u8>, b2: Seq<u8>) -> bool;

// --- trusted wrappers around the pairing library ---

/// Relies on `FieldElement::random`: draws a fresh uniform scalar. Nothing
/// is assumed of the value beyond its encoding length.
#[verifier::external_body]
pub(crate) fn fe_random() -> (r: Scalar)
    ensures
        r.wf(),
{
    Scalar { bytes: FieldElement::random().to_bytes() }
}

/// Relies on `FieldElement::from_msg_hash`: hashes a message to a scalar,
/// a function of the message bytes alone.
#[verifier::external_body]
pub(crate) fn fe_hash(msg: &Vec<u8>) -> (r: Scalar)
    ensures
        r@ == fe_hash_of(msg@),
        r.wf(),
{
    Scalar { bytes: FieldElement::from_msg_hash(msg.as_slice()).to_bytes() }
}

/// Relies on `FieldElement::plus`: addition modulo the curve order, a
/// function of the operand encodings. `from_bytes` errs only on length,
/// which the precondition excludes.
#[verifier::external_body]
pub(crate) fn fe_add(a: &Scalar, b: &Scalar) -> (r: Scalar)
    requires
        a.wf(),
        b.wf(),
    ensures
        r@ == fe_add_of(a@, b@),
        r.wf(),
{
    let x = FieldElement::from_bytes(&a.bytes).unwrap();
    let y = FieldElement::from_bytes(&b.bytes).unwrap();
    Scalar { bytes: x.plus(&y).to_bytes() }
}

/// Relies on `FieldElement::multiply`: multiplication modulo the curve
/// order, a function of the operand encodings.
#[verifier::external_body]
pub(crate) fn fe_mul(a: &Scalar, b: &Scalar) -> (r: Scalar)
    requires
        a.wf(),
        b.wf(),
    ensures
        r@ == fe_mul_of(a@, b@),
        r.wf(),
{
    let x = FieldElement::from_bytes(&a.bytes).unwrap();
    let y = FieldElement::from_bytes(&b.bytes).unwrap();
    Scalar { bytes: x.multiply(&y).to_bytes() }
}

/// Relies on `G1::from_msg_hash`: hash-to-curve into G1, a function of the
/// message bytes alone.
#[verifier::external_body]
pub(crate) fn g1_hash(msg: &Vec<u8>) -> (r: SignatureGroup)
    ensures
        r@ == g1_hash_of(msg@),
        r.wf(),
{
    SignatureGroup { bytes: G1::from_msg_hash(msg.as_slice()).to_bytes(false) }
}

/// Relies on `G2::from_msg_hash`: hash-to-curve into G2, a function of the
/// message bytes alone.
#[verifier::external_body]
pub(crate) fn g2_hash(msg: &Vec<u8>) -> (r: OtherGroup)
    ensures
        r@ == g2_hash_of(msg@),
        r.wf(),
{
    OtherGroup { bytes: G2::from_msg_hash(msg.as_slice()).to_bytes(false) }
}

/// Relies on `G1::scalar_mul_const_time`: constant-time scalar
/// multiplication in G1, a function of the operand encodings.
#[verifier::external_body]
pub(crate) fn g1_mul(p: &SignatureGroup, s: &Scalar) -> (r: SignatureGroup)
    requires
        p.wf(),
        s.wf(),
    ensures
        r@ == g1_mul_of(p@, s@),
        r.wf(),
{
    let arr: [u8; G1_BYTES] = p.bytes.as_slice().try_into().unwrap();
    let pt = G1::from(&arr);
    let sc = FieldElement::from_bytes(&s.bytes).unwrap();
    SignatureGroup { bytes: pt.scalar_mul_const_time(&sc).to_bytes(false) }
}

/// Relies on `G2::scalar_mul_const_time`: constant-time scalar
/// multiplication in G2, a function of the operand encodings.
#[verifier::external_body]
pub(crate) fn g2_mul(p: &OtherGroup, s: &Scalar) -> (r: OtherGroup)
    requires
        p.wf(),
        s.wf(),
    ensures
        r@ == g2_mul_of(p@, s@),
        r.wf(),
{
    let arr: [u8; G2_BYTES] = p.bytes.as_slice().try_into().unwrap();
    let pt = G2::from(&arr);
    let sc = FieldElement::from_bytes(&s.bytes).unwrap();
    OtherGroup { bytes: pt.scalar_mul_const_time(&sc).to_bytes(false) }
}

/// Relies on `G1::plus`: point addition in G1, a function of the operand
/// encodings.
#[verifier::external_body]
pub(crate) fn g1_add(p: &SignatureGroup, q: &SignatureGroup) -> (r: SignatureGroup)
    requires
        p.wf(),
        q.wf(),
    ensures
        r@ == g1_add_of(p@, q@),
        r.wf(),
{
    let pa: [u8; G1_BYTES] = p.bytes.as_slice().try_into().unwrap();
    let qa: [u8; G1_BYTES] = q.bytes.as_slice().try_into().unwrap();
    SignatureGroup { bytes: G1::from(&pa).plus(&G1::from(&qa)).to_bytes(false) }
}

/// Relies on `G2::plus`: point addition in G2, a function of the operand
/// encodings.
#[verifier::external_body]
pub(crate) fn g2_add(p: &OtherGroup, q: &OtherGroup) -> (r: OtherGroup)
    requires
        p.wf(),
        q.wf(),
    ensures
        r@ == g2_add_of(p@, q@),
        r.wf(),
{
    let pa: [u8; G2_BYTES] = p.bytes.as_slice().try_into().unwrap();
    let qa: [u8; G2_BYTES] = q.bytes.as_slice().try_into().unwrap();
    OtherGroup { bytes: G2::from(&pa).plus(&G2::from(&qa)).to_bytes(false) }
}

/// Relies on `G1::negation`: point negation in G1, a function of the
/// operand encoding.
#[verifier::external_body]
pub(crate) fn g1_neg(p: &SignatureGroup) -> (r: SignatureGroup)
    requires
        p.wf(),
    ensures
        r@ == g1_neg_of(p@),
        r.wf(),
{
    let arr: [u8; G1_BYTES] = p.bytes.as_slice().try_into().unwrap();
    SignatureGroup { bytes: G1::from(&arr).negation().to_bytes(false) }
}

/// Relies on `G1::is_identity`: whether the point is the group identity,
/// a function of the encoding.
#[verifier::external_body]
pub(crate) fn g1_is_identity(p: &SignatureGroup) -> (r: bool)
    requires
        p.wf(),
    ensures
        r == g1_is_id_of(p@),
{
    let arr: [u8; G1_BYTES] = p.bytes.as_slice().try_into().unwrap();
    G1::from(&arr).is_identity()
}

/// Relies on `G1Vector::multi_scalar_mul_const_time_without_precomputation`:
/// the product of the bases raised to the scalars, a function of the
/// encodings; it errs only on a length mismatch, excluded here.
#[verifier::external_body]
pub(crate) fn g1_msm_const(bases: &Vec<SignatureGroup>, scalars: &Vec<Scalar>) -> (r:
    SignatureGroup)
    requires
        bases@.len() == scalars@.len(),
        g1s_wf(bases@),
        scalars_wf(scalars@),
    ensures
        r@ == g1_msm_of(g1_views(bases@), scalar_views(scalars@)),
        r.wf(),
{
    let mut bs: Vec<G1> = Vec::new();
    for b in bases.iter() {
        let arr: [u8; G1_BYTES] = b.bytes.as_slice().try_into().unwrap();
        bs.push(G1::from(&arr));
    }
    let mut es: Vec<FieldElement> = Vec::new();
    for s in scalars.iter() {
        es.push(FieldElement::from_bytes(&s.bytes).unwrap());
    }
    let prod = G1Vector::multi_scalar_mul_const_time_without_precomputation(bs.iter(), es.iter());
    SignatureGroup { bytes: prod.unwrap().to_bytes(false) }
}

/// Relies on `G1Vector::multi_scalar_mul_var_time_without_precomputation`:
/// the same product computed in variable time, a function of the encodings.
#[verifier::external_body]
pub(crate) fn g1_msm_var(bases: &Vec<SignatureGroup>, scalars: &Vec<Scalar>) -> (r: SignatureGroup)
    requires
        bases@.len() == scalars@.len(),
        g1s_wf(bases@),
        scalars_wf(scalars@),
    ensures
        r@ == g1_msm_var_of(g1_views(bases@), scalar_views(scalars@)),
        r.wf(),
{
    let mut bs: Vec<G1> = Vec::new();
    for b in bases.iter() {
        let arr: [u8; G1_BYTES] = b.bytes.as_slice().try_into().unwrap();
        bs.push(G1::from(&arr));
    }
    let mut es: Vec<FieldElement> = Vec::new();
    for s in scalars.iter() {
        es.push(FieldElement::from_bytes(&s.bytes).unwrap());
    }
    let prod = G1Vector::multi_scalar_mul_var_time_without_precomputation(bs.iter(), es.iter());
    SignatureGroup { bytes: prod.unwrap().to_bytes(false) }
}

/// Relies on `G2Vector::multi_scalar_mul_const_time_without_precomputation`:
/// the product of the bases raised to the scalars, a function of the
/// encodings; it errs only on a length mismatch, excluded here.
#[verifier::external_body]
pub(crate) fn g2_msm_const(bases: &Vec<OtherGroup>, scalars: &Vec<Scalar>) -> (r: OtherGroup)
    requires
        bases@.len() == scalars@.len(),
        g2s_wf(bases@),
        scalars_wf(scalars@),
    ensures
        r@ == g2_msm_of(g2_views(bases@), scalar_views(scalars@)),
        r.wf(),
{
    let mut bs: Vec<G2> = Vec::new();
    for b in bases.iter() {
        let arr: [u8; G2_BYTES] = b.bytes.as_slice().try_into().unwrap();
        bs.push(G2::from(&arr));
    }
    let mut es: Vec<FieldElement> = Vec::new();
    for s in scalars.iter() {
        es.push(FieldElement::from_bytes(&s.bytes).unwrap());
    }
    let prod = G2Vector::multi_scalar_mul_const_time_without_precomputation(bs.iter(), es.iter());
    OtherGroup { bytes: prod.unwrap().to_bytes(false) }
}

/// Relies on `G2Vector::multi_scalar_mul_var_time_without_precomputation`:
/// the same product computed in variable time, a function of the encodings.
#[verifier::external_body]
pub(crate) fn g2_msm_var(bases: &Vec<OtherGroup>, scalars: &Vec<Scalar>) -> (r: OtherGroup)
    requires
        bases@.len() == scalars@.len(),
        g2s_wf(bases@),
        scalars_wf(scalars@),
    ensures
        r@ == g2_msm_var_of(g2_views(bases@), scalar_views(scalars@)),
        r.wf(),
{
    let mut bs: Vec<G2> = Vec::new();
    for b in bases.iter() {
        let arr: [u8; G2_BYTES] = b.bytes.as_slice().try_into().unwrap();
        bs.push(G2::from(&arr));
    }
    let mut es: Vec<FieldElement> = Vec::new();
    for s in scalars.iter() {
        es.push(FieldElement::from_bytes(&s.bytes).unwrap());
    }
    let prod = G2Vector::multi_scalar_mul_var_time_without_precomputation(bs.iter(), es.iter());
    OtherGroup { bytes: prod.unwrap().to_bytes(false) }
}

/// Relies on `GT::ate_2_pairing` and `GT::is_one`: whether the two-pairing
/// product e(a1, b1) * e(a2, b2) equals the identity of the target group,
/// a function of the four encodings.
#[verifier::external_body]
pub(crate) fn pair2_is_one(
    a1: &SignatureGroup,
    b1: &OtherGroup,
    a2: &SignatureGroup,
    b2: &OtherGroup,
) -> (r: bool)
    requires
        a1.wf(),
        b1.wf(),
        a2.wf(),
        b2.wf(),
    ensures
        r == pair2_is_one_of(a1@, b1@, a2@, b2@),
{
    let a1a: [u8; G1_BYTES] = a1.bytes.as_slice().try_into().unwrap();
    let a2a: [u8; G1_BYTES] = a2.bytes.as_slice().try_into().unwrap();
    let b1a: [u8; G2_BYTES] = b1.bytes.as_slice().try_into().unwrap();
    let b2a: [u8; G2_BYTES] = b2.bytes.as_slice().try_into().unwrap();
    GT::ate_2_pairing(&G1::from(&a1a), &G2::from(&b1a), &G1::from(&a2a), &G2::from(&b2a)).is_one()
}

} // verus!
