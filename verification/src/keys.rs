//! Public parameters, signing key and verification key.
use vstd::prelude::*;

use crate::curve::{
    fe_random, g1_mul, g1_hash, g2_mul, g2_hash, g1_mul_of, g2_mul_of, g1_hash_of, g2_hash_of,
    g1s_wf, g2s_wf, scalars_wf, OtherGroup, Scalar, SignatureGroup,
};
use crate::errors::PSError;

verus! {

/// Deterministic generators `g` of G1 and `g_tilde` of G2, derived from a
/// domain label by hash-to-curve.
#[derive(Clone, Debug)]
pub struct Params {
    pub g: SignatureGroup,
    pub g_tilde: OtherGroup,
}

impl Params {
    /// Both generators carry canonical encodings.
    pub open spec fn wf(&self) -> bool {
        self.g.wf() && self.g_tilde.wf()
    }

    /// The domain-separation suffix appended to the label for `g`: `" : g"`.
    pub open spec fn domain_g() -> Seq<u8> {
        seq![32u8, 58u8, 32u8, 103u8]
    }

    /// The suffix appended to the label for `g_tilde`: `" : g_tilde"`.
    pub open spec fn domain_g_tilde() -> Seq<u8> {
        seq![32u8, 58u8, 32u8, 103u8, 95u8, 116u8, 105u8, 108u8, 100u8, 101u8]
    }

    /// Derives both generators from the label by hash-to-curve, with a
    /// distinct domain-separation suffix for each group.
    pub fn new(label: &Vec<u8>) -> (r: Params)
        ensures
            r.g@ == g1_hash_of(label@ + Self::domain_g()),
            r.g_tilde@ == g2_hash_of(label@ + Self::domain_g_tilde()),
            r.wf(),
    {
        let mut m1 = crate::curve::copy_bytes(label);
        m1.push(32);
        m1.push(58);
        m1.push(32);
        m1.push(103);
        proof {
            assert(m1@ =~= label@ + Self::domain_g());
        }
        let g = g1_hash(&m1);
        let mut m2 = crate::curve::copy_bytes(label);
        m2.push(32);
        m2.push(58);
        m2.push(32);
        m2.push(103);
        m2.push(95);
        m2.push(116);
        m2.push(105);
        m2.push(108);
        m2.push(100);
        m2.push(101);
        proof {
            assert(m2@ =~= label@ + Self::domain_g_tilde());
        }
        let g_tilde = g2_hash(&m2);
        Params { g, g_tilde }
    }

    /// Canonical serialization: the encoding of `g` followed by that of
    /// `g_tilde`.
    pub fn to_bytes(&self) -> (r: Vec<u8>)
        ensures
            r@ == self.g@ + self.g_tilde@,
    {
        let mut r = self.g.to_bytes();
        let mut t = self.g_tilde.to_bytes();
        r.append(&mut t);
        r
    }
}

/// The issuer's signing key: the secret exponent `x` together with the
/// per-message exponents `y`, which signing needs and which are therefore
/// retained as part of the key.
#[derive(Clone, Debug)]
pub struct Sigkey {
    pub x: Scalar,
    pub y: Vec<Scalar>,
}

impl Sigkey {
    /// All components carry canonical encodings.
    pub open spec fn wf(&self) -> bool {
        self.x.wf() && scalars_wf(self.y@)
    }
}

/// The public verification key `(X_tilde, Y, Y_tilde)`.
#[derive(Clone, Debug)]
pub struct Verkey {
    pub X_tilde: OtherGroup,
    pub Y: Vec<SignatureGroup>,
    pub Y_tilde: Vec<OtherGroup>,
}

impl Verkey {
    /// All components carry canonical encodings.
    pub open spec fn wf(&self) -> bool {
        self.X_tilde.wf() && g1s_wf(self.Y@) && g2s_wf(self.Y_tilde@)
    }

    /// A key supports one message per `Y`/`Y_tilde` pair; the two lists
    /// must therefore be of equal length.
    pub fn validate(&self) -> (r: Result<(), PSError>)
        ensures
            r == if self.Y@.len() == self.Y_tilde@.len() {
                Ok::<(), PSError>(())
            } else {
                Err::<(), PSError>(
                    PSError::InvalidVerkey {
                        y: self.Y@.len() as usize,
                        y_tilde: self.Y_tilde@.len() as usize,
                    },
                )
            },
    {
        if self.Y.len() != self.Y_tilde.len() {
            return Err(PSError::InvalidVerkey { y: self.Y.len(), y_tilde: self.Y_tilde.len() });
        }
        Ok(())
    }
}

/// Samples a signing key for `count_messages` messages and derives the
/// matching verification key over the given generators.
pub fn keygen(count_messages: usize, params: &Params) -> (r: (Sigkey, Verkey))
    requires
        params.wf(),
    ensures
        ({
            let (sk, vk) = r;
            &&& sk.wf()
            &&& vk.wf()
            &&& sk.y@.len() == count_messages
            &&& vk.Y@.len() == count_messages
            &&& vk.Y_tilde@.len() == count_messages
            &&& vk.X_tilde@ == g2_mul_of(params.g_tilde@, sk.x@)
            &&& forall|i: int|
                0 <= i < count_messages ==> (#[trigger] vk.Y@[i])@ == g1_mul_of(
                    params.g@,
                    sk.y@[i]@,
                )
            &&& forall|i: int|
                0 <= i < count_messages ==> (#[trigger] vk.Y_tilde@[i])@ == g2_mul_of(
                    params.g_tilde@,
                    sk.y@[i]@,
                )
        }),
{
    let x = fe_random();
    let X_tilde = g2_mul(&params.g_tilde, &x);
    let mut y: Vec<Scalar> = Vec::new();
    let mut Y: Vec<SignatureGroup> = Vec::new();
    let mut Y_tilde: Vec<OtherGroup> = Vec::new();
    let mut i: usize = 0;
    while i < count_messages
        invariant
            i <= count_messages,
            params.wf(),
            y@.len() == i,
            Y@.len() == i,
            Y_tilde@.len() == i,
            scalars_wf(y@),
            g1s_wf(Y@),
            g2s_wf(Y_tilde@),
            forall|k: int| 0 <= k < i ==> (#[trigger] Y@[k])@ == g1_mul_of(params.g@, y@[k]@),
            forall|k: int|
                0 <= k < i ==> (#[trigger] Y_tilde@[k])@ == g2_mul_of(params.g_tilde@, y@[k]@),
        decreases count_messages - i,
    {
        let yi = fe_random();
        Y.push(g1_mul(&params.g, &yi));
        Y_tilde.push(g2_mul(&params.g_tilde, &yi));
        y.push(yi);
        i = i + 1;
    }
    (Sigkey { x, y }, Verkey { X_tilde, Y, Y_tilde })
}

} // verus!
