//! Multi-base Schnorr proof of knowledge of a discrete-log representation:
//! given bases `b_j` and a value `C = prod b_j^(w_j)`, the prover commits to
//! `T = prod b_j^(rho_j)`, receives a challenge `c`, and responds with
//! `s_j = rho_j + c * w_j`; the verifier checks
//! `prod b_j^(s_j) == T * C^c`.
//!
//! The protocol is instantiated once for each source group: the
//! `...OtherGroup` types work over G2 and the `...SignatureGroup` types over
//! G1. The two instantiations are identical but for the group.
use vstd::prelude::*;

use crate::curve::{
    fe_add, fe_add_of, fe_hash, fe_hash_of, fe_mul, fe_mul_of, fe_random, g1_add, g1_add_of,
    g1_msm_const, g1_msm_of, g1_msm_var, g1_msm_var_of, g1_mul, g1_mul_of, g1_views, g1s_wf,
    g2_add, g2_add_of, g2_msm_const, g2_msm_of, g2_msm_var, g2_msm_var_of, g2_mul, g2_mul_of,
    g2_views, g2s_wf, scalar_views, scalars_wf, OtherGroup, Scalar, SignatureGroup,
};
use crate::errors::PSError;

verus! {

/// The concatenation of a sequence of byte strings.
pub open spec fn concat_of(l: Seq<Seq<u8>>) -> Seq<u8>
    decreases l.len(),
{
    if l.len() == 0 {
        Seq::empty()
    } else {
        concat_of(l.drop_last()) + l.last()
    }
}

// --- instantiation over G2 (`OtherGroup`) ---

/// The commit phase over G2: ordered bases with their blindings.
#[derive(Clone, Debug)]
pub struct ProverCommittingOtherGroup {
    pub gens: Vec<OtherGroup>,
    pub blindings: Vec<Scalar>,
}

/// A closed commitment over G2: the bases, the blindings and
/// `T = prod gens[j]^(blindings[j])`.
#[derive(Clone, Debug)]
pub struct ProverCommittedOtherGroup {
    pub gens: Vec<OtherGroup>,
    pub blindings: Vec<Scalar>,
    pub commitment: OtherGroup,
}

/// A Schnorr proof over G2: the commitment `T` and the responses.
#[derive(Clone, Debug)]
pub struct ProofOtherGroup {
    pub commitment: OtherGroup,
    pub responses: Vec<Scalar>,
}

impl ProverCommittingOtherGroup {
    /// One blinding per base, all encodings canonical.
    pub open spec fn wf(&self) -> bool {
        g2s_wf(self.gens@) && scalars_wf(self.blindings@) && self.gens@.len()
            == self.blindings@.len()
    }

    /// Starts a commit phase with no bases.
    pub fn new() -> (r: Self)
        ensures
            r.gens@.len() == 0,
            r.blindings@.len() == 0,
            r.wf(),
    {
        ProverCommittingOtherGroup { gens: Vec::new(), blindings: Vec::new() }
    }

    /// Appends a base, blinded by the supplied scalar or by a fresh random
    /// one; returns the index the base occupies. Base order is significant
    /// and preserved.
    pub fn commit(&mut self, gen: &OtherGroup, blinding: Option<&Scalar>) -> (idx: usize)
        requires
            old(self).wf(),
            gen.wf(),
            (blinding matches Some(b) ==> b.wf()),
        ensures
            final(self).wf(),
            idx == old(self).gens@.len(),
            final(self).gens@.len() == old(self).gens@.len() + 1,
            final(self).blindings@.len() == old(self).blindings@.len() + 1,
            g2_views(final(self).gens@) == g2_views(old(self).gens@).push(gen@),
            forall|k: int|
                0 <= k < old(self).blindings@.len() ==> (#[trigger] final(self).blindings@[k])@
                    == old(self).blindings@[k]@,
            (blinding matches Some(b) ==> final(self).blindings@.last()@ == b@),
    {
        let idx = self.gens.len();
        self.gens.push(gen.dup());
        match blinding {
            Some(b) => self.blindings.push(b.dup()),
            None => self.blindings.push(fe_random()),
        }
        proof {
            assert(g2_views(self.gens@) =~= g2_views(old(self).gens@).push(gen@));
        }
        idx
    }

    /// Closes the commit phase, computing the commitment
    /// `T = prod gens[j]^(blindings[j])` by constant-time multi-scalar
    /// multiplication.
    pub fn finish(self) -> (r: ProverCommittedOtherGroup)
        requires
            self.wf(),
        ensures
            r.wf(),
            r.gens@ == self.gens@,
            r.blindings@ == self.blindings@,
            r.commitment@ == g2_msm_of(g2_views(self.gens@), scalar_views(self.blindings@)),
    {
        let commitment = g2_msm_const(&self.gens, &self.blindings);
        ProverCommittedOtherGroup { gens: self.gens, blindings: self.blindings, commitment }
    }
}

impl ProverCommittedOtherGroup {
    /// One blinding per base, all encodings canonical.
    pub open spec fn wf(&self) -> bool {
        g2s_wf(self.gens@) && scalars_wf(self.blindings@) && self.gens@.len()
            == self.blindings@.len() && self.commitment.wf()
    }

    /// The challenge-hash input: each base's encoding in order, then the
    /// commitment's.
    pub open spec fn spec_to_bytes(&self) -> Seq<u8> {
        concat_of(g2_views(self.gens@)) + self.commitment@
    }

    /// Serializes the public elements for challenge computation.
    pub fn to_bytes(&self) -> (r: Vec<u8>)
        ensures
            r@ == self.spec_to_bytes(),
    {
        let mut bytes: Vec<u8> = Vec::new();
        let mut i: usize = 0;
        while i < self.gens.len()
            invariant
                i <= self.gens@.len(),
                bytes@ == concat_of(g2_views(self.gens@).take(i as int)),
            decreases self.gens@.len() - i,
        {
            let mut t = self.gens[i].to_bytes();
            bytes.append(&mut t);
            proof {
                let vs = g2_views(self.gens@);
                assert(vs.take(i + 1 as int).drop_last() =~= vs.take(i as int));
                assert(vs.take(i + 1 as int).last() == vs[i as int]);
            }
            i = i + 1;
        }
        proof {
            assert(g2_views(self.gens@).take(self.gens@.len() as int) =~= g2_views(self.gens@));
        }
        let mut c = self.commitment.to_bytes();
        bytes.append(&mut c);
        bytes
    }

    /// Fiat–Shamir challenge: the hash, as a scalar, of the public bytes
    /// followed by the caller's extra bytes.
    pub fn gen_challenge(&self, extra: Vec<u8>) -> (c: Scalar)
        ensures
            c@ == fe_hash_of(self.spec_to_bytes() + extra@),
            c.wf(),
    {
        let mut bytes = self.to_bytes();
        let mut e = extra;
        bytes.append(&mut e);
        fe_hash(&bytes)
    }

    /// Response phase: `s_j = blindings[j] + c * secrets[j]` for every slot,
    /// in base order. Consumes the commitment state.
    pub fn gen_proof(self, challenge: &Scalar, secrets: &Vec<Scalar>) -> (r: Result<
        ProofOtherGroup,
        PSError,
    >)
        requires
            self.wf(),
            challenge.wf(),
            scalars_wf(secrets@),
        ensures
            secrets@.len() != self.gens@.len() ==> r == Err::<ProofOtherGroup, PSError>(
                PSError::UnequalNoOfBasesExponents {
                    bases: self.gens@.len() as usize,
                    exponents: secrets@.len() as usize,
                },
            ),
            secrets@.len() == self.gens@.len() ==> (r matches Ok(p) && {
                &&& p.wf()
                &&& p.commitment@ == self.commitment@
                &&& p.responses@.len() == secrets@.len()
                &&& forall|j: int|
                    0 <= j < secrets@.len() ==> (#[trigger] p.responses@[j])@ == fe_add_of(
                        self.blindings@[j]@,
                        fe_mul_of(challenge@, secrets@[j]@),
                    )
            }),
    {
        if secrets.len() != self.gens.len() {
            return Err(
                PSError::UnequalNoOfBasesExponents {
                    bases: self.gens.len(),
                    exponents: secrets.len(),
                },
            );
        }
        let mut responses: Vec<Scalar> = Vec::new();
        let mut i: usize = 0;
        while i < self.blindings.len()
            invariant
                i <= self.blindings@.len(),
                self.wf(),
                scalars_wf(secrets@),
                challenge.wf(),
                secrets@.len() == self.blindings@.len(),
                responses@.len() == i,
                scalars_wf(responses@),
                forall|j: int|
                    0 <= j < i ==> (#[trigger] responses@[j])@ == fe_add_of(
                        self.blindings@[j]@,
                        fe_mul_of(challenge@, secrets@[j]@),
                    ),
            decreases self.blindings@.len() - i,
        {
            let t = fe_mul(challenge, &secrets[i]);
            responses.push(fe_add(&self.blindings[i], &t));
            i = i + 1;
        }
        Ok(ProofOtherGroup { commitment: self.commitment, responses })
    }
}

impl ProofOtherGroup {
    /// All encodings canonical.
    pub open spec fn wf(&self) -> bool {
        self.commitment.wf() && scalars_wf(self.responses@)
    }

    /// The Schnorr check over the byte model:
    /// `prod bases[j]^(responses[j]) == T * C^c`.
    pub open spec fn spec_verify(&self, bases: Seq<Seq<u8>>, commitment: Seq<u8>, c: Seq<u8>) -> bool {
        g2_msm_var_of(bases, scalar_views(self.responses@)) == g2_add_of(
            self.commitment@,
            g2_mul_of(commitment, c),
        )
    }

    /// Canonical serialization: the commitment's encoding, then each
    /// response's in slot order.
    pub fn to_bytes(&self) -> (r: Vec<u8>)
        ensures
            r@ == self.commitment@ + concat_of(scalar_views(self.responses@)),
    {
        let mut bytes = self.commitment.to_bytes();
        let mut i: usize = 0;
        while i < self.responses.len()
            invariant
                i <= self.responses@.len(),
                bytes@ == self.commitment@ + concat_of(scalar_views(self.responses@).take(i as int)),
            decreases self.responses@.len() - i,
        {
            let mut t = self.responses[i].to_bytes();
            bytes.append(&mut t);
            proof {
                let vs = scalar_views(self.responses@);
                assert(vs.take(i + 1 as int).drop_last() =~= vs.take(i as int));
                assert(vs.take(i + 1 as int).last() == vs[i as int]);
            }
            i = i + 1;
        }
        proof {
            let vs = scalar_views(self.responses@);
            assert(vs.take(vs.len() as int) =~= vs);
        }
        bytes
    }

    /// Verifies the proof against the claimed value `commitment` (the `C`
    /// whose representation knowledge is claimed) under the challenge.
    pub fn verify(&self, bases: &Vec<OtherGroup>, commitment: &OtherGroup, challenge: &Scalar) -> (r:
        Result<bool, PSError>)
        requires
            self.wf(),
            g2s_wf(bases@),
            commitment.wf(),
            challenge.wf(),
        ensures
            bases@.len() != self.responses@.len() ==> r == Err::<bool, PSError>(
                PSError::UnequalNoOfBasesExponents {
                    bases: bases@.len() as usize,
                    exponents: self.responses@.len() as usize,
                },
            ),
            bases@.len() == self.responses@.len() ==> r == Ok::<bool, PSError>(
                self.spec_verify(g2_views(bases@), commitment@, challenge@),
            ),
    {
        if bases.len() != self.responses.len() {
            return Err(
                PSError::UnequalNoOfBasesExponents {
                    bases: bases.len(),
                    exponents: self.responses.len(),
                },
            );
        }
        let lhs = g2_msm_var(bases, &self.responses);
        let ct = g2_mul(commitment, challenge);
        let rhs = g2_add(&self.commitment, &ct);
        Ok(lhs.equals(&rhs))
    }
}

/// Law: two Schnorr proofs generated with the same challenge carry
/// byte-identical responses at any pair of slots that share both their
/// blinding and their secret. The `requires` restate how `gen_proof` forms
/// each response, `s_j = rho_j + c * w_j`.
pub proof fn lemma_response_equality_under_shared_blinding(
    p1: ProofOtherGroup,
    rho1: Seq<Seq<u8>>,
    w1: Seq<Seq<u8>>,
    p2: ProofOtherGroup,
    rho2: Seq<Seq<u8>>,
    w2: Seq<Seq<u8>>,
    c: Seq<u8>,
    j1: int,
    j2: int,
)
    requires
        p1.responses@.len() == w1.len(),
        rho1.len() == w1.len(),
        p2.responses@.len() == w2.len(),
        rho2.len() == w2.len(),
        forall|j: int|
            0 <= j < w1.len() ==> (#[trigger] p1.responses@[j])@ == fe_add_of(
                rho1[j],
                fe_mul_of(c, w1[j]),
            ),
        forall|j: int|
            0 <= j < w2.len() ==> (#[trigger] p2.responses@[j])@ == fe_add_of(
                rho2[j],
                fe_mul_of(c, w2[j]),
            ),
        0 <= j1 < w1.len(),
        0 <= j2 < w2.len(),
        rho1[j1] == rho2[j2],
        w1[j1] == w2[j2],
    ensures
        p1.responses@[j1]@ == p2.responses@[j2]@,
{
}

// --- instantiation over G1 (`SignatureGroup`) ---

/// The commit phase over G1: ordered bases with their blindings.
#[derive(Clone, Debug)]
pub struct ProverCommittingSignatureGroup {
    pub gens: Vec<SignatureGroup>,
    pub blindings: Vec<Scalar>,
}

/// A closed commitment over G1: the bases, the blindings and
/// `T = prod gens[j]^(blindings[j])`.
#[derive(Clone, Debug)]
pub struct ProverCommittedSignatureGroup {
    pub gens: Vec<SignatureGroup>,
    pub blindings: Vec<Scalar>,
    pub commitment: SignatureGroup,
}

/// A Schnorr proof over G1: the commitment `T` and the responses.
#[derive(Clone, Debug)]
pub struct ProofSignatureGroup {
    pub commitment: SignatureGroup,
    pub responses: Vec<Scalar>,
}

impl ProverCommittingSignatureGroup {
    /// One blinding per base, all encodings canonical.
    pub open spec fn wf(&self) -> bool {
        g1s_wf(self.gens@) && scalars_wf(self.blindings@) && self.gens@.len()
            == self.blindings@.len()
    }

    /// Starts a commit phase with no bases.
    pub fn new() -> (r: Self)
        ensures
            r.gens@.len() == 0,
            r.blindings@.len() == 0,
            r.wf(),
    {
        ProverCommittingSignatureGroup { gens: Vec::new(), blindings: Vec::new() }
    }

    /// Appends a base, blinded by the supplied scalar or by a fresh random
    /// one; returns the index the base occupies. Base order is significant
    /// and preserved.
    pub fn commit(&mut self, gen: &SignatureGroup, blinding: Option<&Scalar>) -> (idx: usize)
        requires
            old(self).wf(),
            gen.wf(),
            (blinding matches Some(b) ==> b.wf()),
        ensures
            final(self).wf(),
            idx == old(self).gens@.len(),
            final(self).gens@.len() == old(self).gens@.len() + 1,
            final(self).blindings@.len() == old(self).blindings@.len() + 1,
            g1_views(final(self).gens@) == g1_views(old(self).gens@).push(gen@),
            forall|k: int|
                0 <= k < old(self).blindings@.len() ==> (#[trigger] final(self).blindings@[k])@
                    == old(self).blindings@[k]@,
            (blinding matches Some(b) ==> final(self).blindings@.last()@ == b@),
    {
        let idx = self.gens.len();
        self.gens.push(gen.dup());
        match blinding {
            Some(b) => self.blindings.push(b.dup()),
            None => self.blindings.push(fe_random()),
        }
        proof {
            assert(g1_views(self.gens@) =~= g1_views(old(self).gens@).push(gen@));
        }
        idx
    }

    /// Closes the commit phase, computing the commitment
    /// `T = prod gens[j]^(blindings[j])` by constant-time multi-scalar
    /// multiplication.
    pub fn finish(self) -> (r: ProverCommittedSignatureGroup)
        requires
            self.wf(),
        ensures
            r.wf(),
            r.gens@ == self.gens@,
            r.blindings@ == self.blindings@,
            r.commitment@ == g1_msm_of(g1_views(self.gens@), scalar_views(self.blindings@)),
    {
        let commitment = g1_msm_const(&self.gens, &self.blindings);
        ProverCommittedSignatureGroup { gens: self.gens, blindings: self.blindings, commitment }
    }
}

impl ProverCommittedSignatureGroup {
    /// One blinding per base, all encodings canonical.
    pub open spec fn wf(&self) -> bool {
        g1s_wf(self.gens@) && scalars_wf(self.blindings@) && self.gens@.len()
            == self.blindings@.len() && self.commitment.wf()
    }

    /// The challenge-hash input: each base's encoding in order, then the
    /// commitment's.
    pub open spec fn spec_to_bytes(&self) -> Seq<u8> {
        concat_of(g1_views(self.gens@)) + self.commitment@
    }

    /// Serializes the public elements for challenge computation.
    pub fn to_bytes(&self) -> (r: Vec<u8>)
        ensures
            r@ == self.spec_to_bytes(),
    {
        let mut bytes: Vec<u8> = Vec::new();
        let mut i: usize = 0;
        while i < self.gens.len()
            invariant
                i <= self.gens@.len(),
                bytes@ == concat_of(g1_views(self.gens@).take(i as int)),
            decreases self.gens@.len() - i,
        {
            let mut t = self.gens[i].to_bytes();
            bytes.append(&mut t);
            proof {
                let vs = g1_views(self.gens@);
                assert(vs.take(i + 1 as int).drop_last() =~= vs.take(i as int));
                assert(vs.take(i + 1 as int).last() == vs[i as int]);
            }
            i = i + 1;
        }
        proof {
            assert(g1_views(self.gens@).take(self.gens@.len() as int) =~= g1_views(self.gens@));
        }
        let mut c = self.commitment.to_bytes();
        bytes.append(&mut c);
        bytes
    }

    /// Fiat–Shamir challenge: the hash, as a scalar, of the public bytes
    /// followed by the caller's extra bytes.
    pub fn gen_challenge(&self, extra: Vec<u8>) -> (c: Scalar)
        ensures
            c@ == fe_hash_of(self.spec_to_bytes() + extra@),
            c.wf(),
    {
        let mut bytes = self.to_bytes();
        let mut e = extra;
        bytes.append(&mut e);
        fe_hash(&bytes)
    }

    /// Response phase: `s_j = blindings[j] + c * secrets[j]` for every slot,
    /// in base order. Consumes the commitment state.
    pub fn gen_proof(self, challenge: &Scalar, secrets: &Vec<Scalar>) -> (r: Result<
        ProofSignatureGroup,
        PSError,
    >)
        requires
            self.wf(),
            challenge.wf(),
            scalars_wf(secrets@),
        ensures
            secrets@.len() != self.gens@.len() ==> r == Err::<ProofSignatureGroup, PSError>(
                PSError::UnequalNoOfBasesExponents {
                    bases: self.gens@.len() as usize,
                    exponents: secrets@.len() as usize,
                },
            ),
            secrets@.len() == self.gens@.len() ==> (r matches Ok(p) && {
                &&& p.wf()
                &&& p.commitment@ == self.commitment@
                &&& p.responses@.len() == secrets@.len()
                &&& forall|j: int|
                    0 <= j < secrets@.len() ==> (#[trigger] p.responses@[j])@ == fe_add_of(
                        self.blindings@[j]@,
                        fe_mul_of(challenge@, secrets@[j]@),
                    )
            }),
    {
        if secrets.len() != self.gens.len() {
            return Err(
                PSError::UnequalNoOfBasesExponents {
                    bases: self.gens.len(),
                    exponents: secrets.len(),
                },
            );
        }
        let mut responses: Vec<Scalar> = Vec::new();
        let mut i: usize = 0;
        while i < self.blindings.len()
            invariant
                i <= self.blindings@.len(),
                self.wf(),
                scalars_wf(secrets@),
                challenge.wf(),
                secrets@.len() == self.blindings@.len(),
                responses@.len() == i,
                scalars_wf(responses@),
                forall|j: int|
                    0 <= j < i ==> (#[trigger] responses@[j])@ == fe_add_of(
                        self.blindings@[j]@,
                        fe_mul_of(challenge@, secrets@[j]@),
                    ),
            decreases self.blindings@.len() - i,
        {
            let t = fe_mul(challenge, &secrets[i]);
            responses.push(fe_add(&self.blindings[i], &t));
            i = i + 1;
        }
        Ok(ProofSignatureGroup { commitment: self.commitment, responses })
    }
}

impl ProofSignatureGroup {
    /// All encodings canonical.
    pub open spec fn wf(&self) -> bool {
        self.commitment.wf() && scalars_wf(self.responses@)
    }

    /// The Schnorr check over the byte model:
    /// `prod bases[j]^(responses[j]) == T * C^c`.
    pub open spec fn spec_verify(&self, bases: Seq<Seq<u8>>, commitment: Seq<u8>, c: Seq<u8>) -> bool {
        g1_msm_var_of(bases, scalar_views(self.responses@)) == g1_add_of(
            self.commitment@,
            g1_mul_of(commitment, c),
        )
    }

    /// Canonical serialization: the commitment's encoding, then each
    /// response's in slot order.
    pub fn to_bytes(&self) -> (r: Vec<u8>)
        ensures
            r@ == self.commitment@ + concat_of(scalar_views(self.responses@)),
    {
        let mut bytes = self.commitment.to_bytes();
        let mut i: usize = 0;
        while i < self.responses.len()
            invariant
                i <= self.responses@.len(),
                bytes@ == self.commitment@ + concat_of(scalar_views(self.responses@).take(i as int)),
            decreases self.responses@.len() - i,
        {
            let mut t = self.responses[i].to_bytes();
            bytes.append(&mut t);
            proof {
                let vs = scalar_views(self.responses@);
                assert(vs.take(i + 1 as int).drop_last() =~= vs.take(i as int));
                assert(vs.take(i + 1 as int).last() == vs[i as int]);
            }
            i = i + 1;
        }
        proof {
            let vs = scalar_views(self.responses@);
            assert(vs.take(vs.len() as int) =~= vs);
        }
        bytes
    }

    /// Verifies the proof against the claimed value `commitment` (the `C`
    /// whose representation knowledge is claimed) under the challenge.
    pub fn verify(
        &self,
        bases: &Vec<SignatureGroup>,
        commitment: &SignatureGroup,
        challenge: &Scalar,
    ) -> (r: Result<bool, PSError>)
        requires
            self.wf(),
            g1s_wf(bases@),
            commitment.wf(),
            challenge.wf(),
        ensures
            bases@.len() != self.responses@.len() ==> r == Err::<bool, PSError>(
                PSError::UnequalNoOfBasesExponents {
                    bases: bases@.len() as usize,
                    exponents: self.responses@.len() as usize,
                },
            ),
            bases@.len() == self.responses@.len() ==> r == Ok::<bool, PSError>(
                self.spec_verify(g1_views(bases@), commitment@, challenge@),
            ),
    {
        if bases.len() != self.responses.len() {
            return Err(
                PSError::UnequalNoOfBasesExponents {
                    bases: bases.len(),
                    exponents: self.responses.len(),
                },
            );
        }
        let lhs = g1_msm_var(bases, &self.responses);
        let ct = g1_mul(commitment, challenge);
        let rhs = g1_add(&self.commitment, &ct);
        Ok(lhs.equals(&rhs))
    }
}

} // verus!
