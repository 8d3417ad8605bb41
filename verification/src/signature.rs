//! The Pointcheval–Sanders signature on a vector of message scalars.
use vstd::prelude::*;

use crate::curve::{
    fe_add, fe_add_of, fe_mul, fe_mul_of, fe_random, g1_is_id_of, g1_is_identity, g1_mul,
    g1_mul_of, g1_neg, g1_neg_of, g2_add, g2_add_of, g2_msm_const, g2_msm_of, g2_views, pair2_is_one_of,
    scalar_views, scalars_wf, Scalar, SignatureGroup,
};
use crate::errors::PSError;
use crate::keys::{Params, Sigkey, Verkey};

verus! {

/// A PS signature `(sigma_1, sigma_2)` on a message vector, both points in G1.
#[derive(Clone, Debug)]
pub struct Signature {
    pub sigma_1: SignatureGroup,
    pub sigma_2: SignatureGroup,
}

impl Signature {
    /// Both points carry canonical encodings.
    pub open spec fn wf(&self) -> bool {
        self.sigma_1.wf() && self.sigma_2.wf()
    }

    /// The signing exponent `x + sum y_k * m_k` over the first `i` messages.
    pub open spec fn exponent_of(x: Seq<u8>, ys: Seq<Seq<u8>>, ms: Seq<Seq<u8>>, i: int) -> Seq<u8>
        decreases i,
    {
        if i <= 0 {
            x
        } else {
            fe_add_of(Self::exponent_of(x, ys, ms, i - 1), fe_mul_of(ys[i - 1], ms[i - 1]))
        }
    }

    /// Checks that the key pair lists are consistent and support exactly the
    /// given number of messages.
    pub fn check_verkey_and_messages_compat(messages: &Vec<Scalar>, vk: &Verkey) -> (r: Result<
        (),
        PSError,
    >)
        ensures
            r == if vk.Y@.len() != vk.Y_tilde@.len() {
                Err::<(), PSError>(
                    PSError::InvalidVerkey {
                        y: vk.Y@.len() as usize,
                        y_tilde: vk.Y_tilde@.len() as usize,
                    },
                )
            } else if messages@.len() != vk.Y@.len() {
                Err::<(), PSError>(
                    PSError::UnsupportedNoOfMessages {
                        expected: vk.Y@.len() as usize,
                        given: messages@.len() as usize,
                    },
                )
            } else {
                Ok::<(), PSError>(())
            },
    {
        match vk.validate() {
            Err(e) => Err(e),
            Ok(()) => {
                if messages.len() != vk.Y.len() {
                    Err(
                        PSError::UnsupportedNoOfMessages {
                            expected: vk.Y.len(),
                            given: messages.len(),
                        },
                    )
                } else {
                    Ok(())
                }
            },
        }
    }

    /// Signs a message vector: `sigma_1 = g^u` for a fresh non-zero `u`, and
    /// `sigma_2 = sigma_1^(x + sum y_i * m_i)`.
    pub fn new(messages: &Vec<Scalar>, sigkey: &Sigkey, params: &Params) -> (r: Result<
        Signature,
        PSError,
    >)
        requires
            sigkey.wf(),
            params.wf(),
            scalars_wf(messages@),
        ensures
            messages@.len() != sigkey.y@.len() ==> r == Err::<Signature, PSError>(
                PSError::UnsupportedNoOfMessages {
                    expected: sigkey.y@.len() as usize,
                    given: messages@.len() as usize,
                },
            ),
            messages@.len() == sigkey.y@.len() ==> (r matches Ok(s) && {
                &&& s.wf()
                &&& exists|u: Seq<u8>| s.sigma_1@ == g1_mul_of(params.g@, u)
                &&& s.sigma_2@ == g1_mul_of(
                    s.sigma_1@,
                    Self::exponent_of(
                        sigkey.x@,
                        scalar_views(sigkey.y@),
                        scalar_views(messages@),
                        messages@.len() as int,
                    ),
                )
            }),
    {
        if messages.len() != sigkey.y.len() {
            return Err(
                PSError::UnsupportedNoOfMessages {
                    expected: sigkey.y.len(),
                    given: messages.len(),
                },
            );
        }
        let mut expo = sigkey.x.dup();
        let mut i: usize = 0;
        while i < messages.len()
            invariant
                i <= messages@.len(),
                messages@.len() == sigkey.y@.len(),
                sigkey.wf(),
                scalars_wf(messages@),
                expo.wf(),
                expo@ == Self::exponent_of(
                    sigkey.x@,
                    scalar_views(sigkey.y@),
                    scalar_views(messages@),
                    i as int,
                ),
            decreases messages@.len() - i,
        {
            let term = fe_mul(&sigkey.y[i], &messages[i]);
            expo = fe_add(&expo, &term);
            i = i + 1;
        }
        // The arithmetic library's sampling returns a non-zero scalar, so
        // sigma_1 is never the identity.
        let u = fe_random();
        let sigma_1 = g1_mul(&params.g, &u);
        let sigma_2 = g1_mul(&sigma_1, &expo);
        Ok(Signature { sigma_1, sigma_2 })
    }

    /// Verifies the signature: false if `sigma_1` is the identity, else the
    /// two-pairing check `e(sigma_1, X_tilde * prod Y_tilde_i^(m_i)) *
    /// e(-sigma_2, g_tilde) == 1`.
    pub fn verify(&self, messages: &Vec<Scalar>, vk: &Verkey, params: &Params) -> (r: Result<
        bool,
        PSError,
    >)
        requires
            self.wf(),
            vk.wf(),
            params.wf(),
            scalars_wf(messages@),
        ensures
            vk.Y@.len() != vk.Y_tilde@.len() ==> r == Err::<bool, PSError>(
                PSError::InvalidVerkey {
                    y: vk.Y@.len() as usize,
                    y_tilde: vk.Y_tilde@.len() as usize,
                },
            ),
            vk.Y@.len() == vk.Y_tilde@.len() && messages@.len() != vk.Y@.len() ==> r == Err::<
                bool,
                PSError,
            >(
                PSError::UnsupportedNoOfMessages {
                    expected: vk.Y@.len() as usize,
                    given: messages@.len() as usize,
                },
            ),
            vk.Y@.len() == vk.Y_tilde@.len() && messages@.len() == vk.Y@.len() ==> r == Ok::<
                bool,
                PSError,
            >(
                !g1_is_id_of(self.sigma_1@) && pair2_is_one_of(
                    self.sigma_1@,
                    g2_add_of(
                        vk.X_tilde@,
                        g2_msm_of(g2_views(vk.Y_tilde@), scalar_views(messages@)),
                    ),
                    g1_neg_of(self.sigma_2@),
                    params.g_tilde@,
                ),
            ),
    {
        match Self::check_verkey_and_messages_compat(messages, vk) {
            Err(e) => {
                return Err(e);
            },
            Ok(()) => {},
        }
        if g1_is_identity(&self.sigma_1) {
            return Ok(false);
        }
        let msm = g2_msm_const(&vk.Y_tilde, messages);
        let accum = g2_add(&vk.X_tilde, &msm);
        let neg_sigma_2 = g1_neg(&self.sigma_2);
        Ok(crate::curve::pair2_is_one(&self.sigma_1, &accum, &neg_sigma_2, &params.g_tilde))
    }

    /// Canonical serialization: the encoding of `sigma_1` followed by that
    /// of `sigma_2`.
    pub fn to_bytes(&self) -> (r: Vec<u8>)
        ensures
            r@ == self.sigma_1@ + self.sigma_2@,
    {
        let mut r = self.sigma_1.to_bytes();
        let mut t = self.sigma_2.to_bytes();
        r.append(&mut t);
        r
    }

    /// A copy whose encodings equal this one's.
    pub fn dup(&self) -> (r: Signature)
        ensures
            r.sigma_1@ == self.sigma_1@,
            r.sigma_2@ == self.sigma_2@,
    {
        Signature { sigma_1: self.sigma_1.dup(), sigma_2: self.sigma_2.dup() }
    }
}

} // verus!
