//! Proof of knowledge of a Pointcheval–Sanders signature with selective
//! disclosure.
//!
//! The prover randomizes the signature into an unlinkable token
//! `sigma' = (sigma_1^r, (sigma_2 * sigma_1^t)^r)`, commits to the hidden
//! messages and the aggregate exponent `t` in
//! `J = g_tilde^t * prod Y_tilde_i^(m_i)` over the hidden indices in
//! ascending order, and proves knowledge of `J`'s representation with the
//! multi-base Schnorr protocol. The verifier folds the revealed messages
//! into `J` and checks the pairing identity
//! `e(sigma'_1, J_full * X_tilde) * e(-sigma'_2, g_tilde) == 1`.
use vstd::prelude::*;

use std::collections::HashMap;
use std::collections::HashSet;

use crate::curve::{
    fe_add_of, fe_mul_of, fe_random, g1_add, g1_add_of, g1_is_id_of, g1_is_identity, g1_mul,
    g1_mul_of, g1_neg, g1_neg_of, g2_add, g2_add_of, g2_msm_const, g2_msm_of, g2_msm_var,
    g2_msm_var_of, g2_views, g2s_wf, pair2_is_one, pair2_is_one_of, scalar_views, scalars_wf,
    OtherGroup, Scalar,
};
use crate::errors::PSError;
use crate::keys::{Params, Verkey};
use crate::pok_vc::{concat_of, ProofOtherGroup, ProverCommittedOtherGroup, ProverCommittingOtherGroup};
use crate::signature::Signature;
use vstd::string::StringExecFns;

verus! {

broadcast use vstd::std_specs::hash::group_hash_axioms, vstd::set::group_set_axioms;

/// How many members of `dom` lie below `n`.
pub open spec fn count_below(n: int, dom: Set<usize>) -> int
    decreases n,
{
    if n <= 0 {
        0
    } else {
        count_below(n - 1, dom) + if dom.contains((n - 1) as usize) {
            1int
        } else {
            0int
        }
    }
}

/// The members of `[0, n)` not in `dom`, in ascending order: the indices of
/// the hidden messages.
pub open spec fn hidden_indices(n: int, dom: Set<usize>) -> Seq<usize>
    decreases n,
{
    if n <= 0 {
        Seq::empty()
    } else {
        hidden_indices(n - 1, dom) + if dom.contains((n - 1) as usize) {
            Seq::<usize>::empty()
        } else {
            seq![(n - 1) as usize]
        }
    }
}

/// The members of `[0, n)` in `dom`, in ascending order: the indices of the
/// revealed messages.
pub open spec fn revealed_indices(n: int, dom: Set<usize>) -> Seq<usize>
    decreases n,
{
    if n <= 0 {
        Seq::empty()
    } else {
        revealed_indices(n - 1, dom) + if dom.contains((n - 1) as usize) {
            seq![(n - 1) as usize]
        } else {
            Seq::<usize>::empty()
        }
    }
}

/// The set of `usize` values below `n`.
pub open spec fn below_set(n: int) -> Set<usize> {
    Set::new(|u: usize| (u as int) < n)
}

/// `count_below` is the cardinality of the part of `dom` below `n`.
proof fn lemma_count_below_is_card(n: int, dom: Set<usize>)
    requires
        0 <= n <= usize::MAX,
        dom.finite(),
    ensures
        count_below(n, dom) == dom.intersect(below_set(n)).len(),
        dom.intersect(below_set(n)).finite(),
        dom.intersect(below_set(n)).subset_of(dom),
    decreases n,
{
    if n == 0 {
        assert(dom.intersect(below_set(0)) =~= Set::empty());
    } else {
        lemma_count_below_is_card(n - 1, dom);
        let prev = dom.intersect(below_set(n - 1));
        let cur = dom.intersect(below_set(n));
        if dom.contains((n - 1) as usize) {
            assert(cur =~= prev.insert((n - 1) as usize));
            assert(!prev.contains((n - 1) as usize));
        } else {
            assert(cur =~= prev);
        }
    }
}

/// Every member of `dom` lies below `n` exactly when the count below `n`
/// exhausts the whole of `dom`.
proof fn lemma_count_below_exhausts(n: int, dom: Set<usize>)
    requires
        0 <= n <= usize::MAX,
        dom.finite(),
    ensures
        count_below(n, dom) <= dom.len(),
        count_below(n, dom) == dom.len() <==> (forall|u: usize|
            dom.contains(u) ==> (u as int) < n),
{
    lemma_count_below_is_card(n, dom);
    let s = dom.intersect(below_set(n));
    vstd::set_lib::lemma_len_subset(s, dom);
    if forall|u: usize| dom.contains(u) ==> (u as int) < n {
        assert(s =~= dom);
    } else {
        let u = choose|u: usize| dom.contains(u) && (u as int) >= n;
        assert(!s.contains(u));
        s.lemma_subset_not_in_lt(dom, u);
    }
}

/// The count below `n` grows by at most one per index.
proof fn lemma_count_below_le(i: int, n: int, dom: Set<usize>)
    requires
        0 <= i <= n,
    ensures
        count_below(i, dom) <= count_below(n, dom),
        count_below(n, dom) - count_below(i, dom) <= n - i,
    decreases n,
{
    if n > i {
        lemma_count_below_le(i, n - 1, dom);
    }
}

/// The hidden indices: as many as the messages not counted by
/// `count_below`, each below `n` and outside `dom`.
proof fn lemma_hidden_indices(n: int, dom: Set<usize>)
    requires
        n >= 0,
    ensures
        hidden_indices(n, dom).len() == n - count_below(n, dom),
        forall|j: int|
            0 <= j < hidden_indices(n, dom).len() ==> (#[trigger] hidden_indices(n, dom)[j] as int)
                < n && !dom.contains(hidden_indices(n, dom)[j]),
    decreases n,
{
    if n > 0 {
        lemma_hidden_indices(n - 1, dom);
    }
}

/// The message reported when a revealed index is out of range.
pub open spec fn msg_index_out_of_range() -> Seq<char> {
    "revealed message index beyond the message count"@
}

/// The message reported when the blindings count differs from the hidden
/// message count.
pub open spec fn msg_wrong_blinding_count() -> Seq<char> {
    "blindings count differs from the hidden message count"@
}

/// The message reported when a response is requested for a revealed index.
pub open spec fn msg_no_response_for_revealed() -> Seq<char> {
    "message index is revealed, so no response stands for it"@
}

/// The message reported when a response slot lies beyond the proof.
pub open spec fn msg_response_slot_out_of_range() -> Seq<char> {
    "message index beyond the proof's response slots"@
}

/// The prover's working state: the randomized signature, the committed
/// element `J`, the ordered secrets `(t, hidden messages...)`, and the
/// in-progress Schnorr commitment. Single use: consumed by `gen_proof`.
#[derive(Clone, Debug)]
pub struct PoKOfSignature {
    pub secrets: Vec<Scalar>,
    pub sig: Signature,
    pub J: OtherGroup,
    pub pok_vc: ProverCommittedOtherGroup,
}

/// The proof sent to the verifier: the randomized signature, the committed
/// element `J`, and the Schnorr proof of `J`'s representation.
#[derive(Clone, Debug)]
pub struct PoKOfSignatureProof {
    pub sig: Signature,
    pub J: OtherGroup,
    pub proof_vc: ProofOtherGroup,
}

impl PoKOfSignature {
    /// All encodings canonical, and one secret per committed base.
    pub open spec fn wf(&self) -> bool {
        &&& self.sig.wf()
        &&& self.J.wf()
        &&& self.pok_vc.wf()
        &&& scalars_wf(self.secrets@)
        &&& self.secrets@.len() == self.pok_vc.gens@.len()
    }

    /// Randomizes the signature and commits to the hidden messages.
    ///
    /// Checks, in order: every revealed index is below the message count;
    /// the key supports exactly the given messages; a supplied blinding
    /// vector has one entry per hidden message. The committed bases are
    /// `g_tilde` first, then `Y_tilde_i` for the hidden `i` ascending; the
    /// secrets are `t` first, then the hidden messages in the same order.
    pub fn init(
        sig: &Signature,
        vk: &Verkey,
        params: &Params,
        messages: &Vec<Scalar>,
        blindings: Option<&Vec<Scalar>>,
        revealed_msg_indices: HashSet<usize>,
    ) -> (r: Result<PoKOfSignature, PSError>)
        requires
            sig.wf(),
            vk.wf(),
            params.wf(),
            scalars_wf(messages@),
            (blindings matches Some(b) ==> scalars_wf(b@)),
            revealed_msg_indices@.finite(),
        ensures
            ({
                let dom = revealed_msg_indices@;
                let n = messages@.len() as int;
                let hid = hidden_indices(n, dom);
                let oob = exists|u: usize| #[trigger] dom.contains(u) && (u as int) >= n;
                let keybad = vk.Y@.len() != vk.Y_tilde@.len();
                let lenbad = messages@.len() != vk.Y@.len();
                let blindbad = blindings matches Some(b) && b@.len() != hid.len();
                &&& oob ==> (r matches Err(e) && e matches PSError::GeneralError { msg } && msg@
                    == msg_index_out_of_range())
                &&& !oob && keybad ==> r == Err::<PoKOfSignature, PSError>(
                    PSError::InvalidVerkey {
                        y: vk.Y@.len() as usize,
                        y_tilde: vk.Y_tilde@.len() as usize,
                    },
                )
                &&& !oob && !keybad && lenbad ==> r == Err::<PoKOfSignature, PSError>(
                    PSError::UnsupportedNoOfMessages {
                        expected: vk.Y@.len() as usize,
                        given: messages@.len() as usize,
                    },
                )
                &&& !oob && !keybad && !lenbad && blindbad ==> (r matches Err(e) && e matches
                    PSError::GeneralError { msg } && msg@ == msg_wrong_blinding_count())
                &&& !oob && !keybad && !lenbad && !blindbad ==> (r matches Ok(pok) && {
                    &&& pok.wf()
                    &&& pok.secrets@.len() == hid.len() + 1
                    &&& pok.pok_vc.gens@.len() == hid.len() + 1
                    &&& pok.pok_vc.blindings@.len() == hid.len() + 1
                    &&& pok.pok_vc.gens@[0]@ == params.g_tilde@
                    &&& forall|j: int|
                        0 <= j < hid.len() ==> (#[trigger] pok.pok_vc.gens@[j + 1])@
                            == vk.Y_tilde@[hid[j] as int]@
                    &&& forall|j: int|
                        0 <= j < hid.len() ==> (#[trigger] pok.secrets@[j + 1])@
                            == messages@[hid[j] as int]@
                    &&& pok.J@ == g2_msm_of(
                        g2_views(pok.pok_vc.gens@),
                        scalar_views(pok.secrets@),
                    )
                    &&& pok.pok_vc.commitment@ == g2_msm_of(
                        g2_views(pok.pok_vc.gens@),
                        scalar_views(pok.pok_vc.blindings@),
                    )
                    &&& (blindings matches Some(b) ==> forall|j: int|
                        0 <= j < hid.len() ==> (#[trigger] pok.pok_vc.blindings@[j + 1])@
                            == b@[j]@)
                    &&& exists|rr: Seq<u8>, tt: Seq<u8>|
                        {
                            &&& pok.sig.sigma_1@ == g1_mul_of(sig.sigma_1@, rr)
                            &&& pok.sig.sigma_2@ == g1_mul_of(
                                g1_add_of(sig.sigma_2@, g1_mul_of(sig.sigma_1@, tt)),
                                rr,
                            )
                            &&& pok.secrets@[0]@ == tt
                        }
                })
            }),
    {
        let ghost dom = revealed_msg_indices@;
        let n = messages.len();
        // Reject any revealed index at or beyond the message count: the
        // indices below it account for the whole set exactly when none
        // overshoots.
        let mut cnt: usize = 0;
        let mut i: usize = 0;
        while i < n
            invariant
                i <= n,
                cnt == count_below(i as int, dom),
                cnt <= i,
                revealed_msg_indices@ == dom,
            decreases n - i,
        {
            if revealed_msg_indices.contains(&i) {
                cnt = cnt + 1;
            }
            i = i + 1;
        }
        proof {
            lemma_count_below_exhausts(n as int, dom);
        }
        if cnt != revealed_msg_indices.len() {
            return Err(
                PSError::GeneralError {
                    msg: String::from_str("revealed message index beyond the message count"),
                },
            );
        }
        match Signature::check_verkey_and_messages_compat(messages, vk) {
            Err(e) => {
                return Err(e);
            },
            Ok(()) => {},
        }
        proof {
            lemma_hidden_indices(n as int, dom);
        }
        match blindings {
            Some(b) => {
                if b.len() != n - cnt {
                    return Err(
                        PSError::GeneralError {
                            msg: String::from_str(
                                "blindings count differs from the hidden message count",
                            ),
                        },
                    );
                }
            },
            None => {},
        }
        let r = fe_random();
        let t = fe_random();
        let sigma_1_t = g1_mul(&sig.sigma_1, &t);
        let sigma_prime_1 = g1_mul(&sig.sigma_1, &r);
        let sigma_prime_2 = g1_mul(&g1_add(&sig.sigma_2, &sigma_1_t), &r);
        let sigma_prime = Signature { sigma_1: sigma_prime_1, sigma_2: sigma_prime_2 };

        let mut bases: Vec<OtherGroup> = Vec::new();
        let mut exponents: Vec<Scalar> = Vec::new();
        let mut committing = ProverCommittingOtherGroup::new();
        bases.push(params.g_tilde.dup());
        exponents.push(t.dup());
        committing.commit(&params.g_tilde, None);
        let mut k: usize = 0;
        let mut i: usize = 0;
        while i < n
            invariant
                i <= n,
                n == messages@.len(),
                n == vk.Y_tilde@.len(),
                revealed_msg_indices@ == dom,
                vk.wf(),
                params.wf(),
                scalars_wf(messages@),
                (blindings matches Some(b) ==> scalars_wf(b@) && b@.len() == hidden_indices(
                    n as int,
                    dom,
                ).len()),
                hidden_indices(n as int, dom).len() == n - count_below(n as int, dom),
                k == hidden_indices(i as int, dom).len(),
                k == i - count_below(i as int, dom),
                bases@.len() == k + 1,
                exponents@.len() == k + 1,
                g2s_wf(bases@),
                scalars_wf(exponents@),
                bases@[0]@ == params.g_tilde@,
                exponents@[0]@ == t@,
                t.wf(),
                forall|j: int|
                    0 <= j < k ==> (#[trigger] bases@[j + 1])@ == vk.Y_tilde@[hidden_indices(
                        i as int,
                        dom,
                    )[j] as int]@,
                forall|j: int|
                    0 <= j < k ==> (#[trigger] exponents@[j + 1])@ == messages@[hidden_indices(
                        i as int,
                        dom,
                    )[j] as int]@,
                committing.wf(),
                committing.gens@.len() == k + 1,
                g2_views(committing.gens@) == g2_views(bases@),
                (blindings matches Some(b) ==> forall|j: int|
                    0 <= j < k ==> (#[trigger] committing.blindings@[j + 1])@ == b@[j]@),
            decreases n - i,
        {
            proof {
                lemma_count_below_le(i as int + 1, n as int, dom);
            }
            if !revealed_msg_indices.contains(&i) {
                proof {
                    assert(hidden_indices(i as int + 1, dom) =~= hidden_indices(i as int, dom).push(
                        i,
                    ));
                }
                bases.push(vk.Y_tilde[i].dup());
                exponents.push(messages[i].dup());
                match blindings {
                    Some(b) => {
                        committing.commit(&vk.Y_tilde[i], Some(&b[k]));
                    },
                    None => {
                        committing.commit(&vk.Y_tilde[i], None);
                    },
                }
                k = k + 1;
            } else {
                proof {
                    assert(hidden_indices(i as int + 1, dom) =~= hidden_indices(i as int, dom));
                }
            }
            i = i + 1;
        }
        let capital_j = g2_msm_const(&bases, &exponents);
        let committed = committing.finish();
        proof {
            assert(g2_views(committed.gens@) =~= g2_views(bases@));
        }
        let pok = PoKOfSignature { secrets: exponents, sig: sigma_prime, J: capital_j, pok_vc: committed };
        proof {
            let hid = hidden_indices(n as int, dom);
            assert(g2_views(pok.pok_vc.gens@)[0] == g2_views(bases@)[0]);
            assert(pok.pok_vc.gens@[0]@ == params.g_tilde@);
            assert forall|j: int| 0 <= j < hid.len() implies (#[trigger] pok.pok_vc.gens@[j + 1])@
                == vk.Y_tilde@[hid[j] as int]@ by {
                assert(g2_views(pok.pok_vc.gens@)[j + 1] == g2_views(bases@)[j + 1]);
                assert((bases@[j + 1])@ == vk.Y_tilde@[hid[j] as int]@);
            }
        }
        proof {
            assert(pok.sig.sigma_1@ == g1_mul_of(sig.sigma_1@, r@) && pok.sig.sigma_2@
                == g1_mul_of(g1_add_of(sig.sigma_2@, g1_mul_of(sig.sigma_1@, t@)), r@)
                && pok.secrets@[0]@ == t@);
        }
        Ok(pok)
    }

    /// The challenge-hash input: the randomized signature's encoding, then
    /// `J`'s, then the Schnorr commitment's public bytes.
    pub open spec fn spec_to_bytes(&self) -> Seq<u8> {
        self.sig.sigma_1@ + self.sig.sigma_2@ + self.J@ + self.pok_vc.spec_to_bytes()
    }

    /// Serializes the public elements for challenge computation.
    pub fn to_bytes(&self) -> (r: Vec<u8>)
        ensures
            r@ == self.spec_to_bytes(),
    {
        let mut bytes = self.sig.to_bytes();
        let mut jb = self.J.to_bytes();
        bytes.append(&mut jb);
        let mut vcb = self.pok_vc.to_bytes();
        bytes.append(&mut vcb);
        bytes
    }

    /// Assembles the proof for the given Fiat–Shamir challenge: responses
    /// `s_j = rho_j + c * w_j` over the committed secrets. Consumes the
    /// working state.
    pub fn gen_proof(self, challenge: &Scalar) -> (r: Result<PoKOfSignatureProof, PSError>)
        requires
            self.wf(),
            challenge.wf(),
            self.secrets@.len() == self.pok_vc.blindings@.len(),
        ensures
            (r matches Ok(p) && {
                &&& p.wf()
                &&& p.sig.sigma_1@ == self.sig.sigma_1@
                &&& p.sig.sigma_2@ == self.sig.sigma_2@
                &&& p.J@ == self.J@
                &&& p.proof_vc.commitment@ == self.pok_vc.commitment@
                &&& p.proof_vc.responses@.len() == self.secrets@.len()
                &&& forall|j: int|
                    0 <= j < self.secrets@.len() ==> (#[trigger] p.proof_vc.responses@[j])@
                        == fe_add_of(
                        self.pok_vc.blindings@[j]@,
                        fe_mul_of(challenge@, self.secrets@[j]@),
                    )
            }),
    {
        let proof_vc = match self.pok_vc.gen_proof(challenge, &self.secrets) {
            Ok(p) => p,
            Err(e) => {
                return Err(e);
            },
        };
        Ok(PoKOfSignatureProof { sig: self.sig, J: self.J, proof_vc })
    }
}

impl PoKOfSignatureProof {
    /// All encodings canonical.
    pub open spec fn wf(&self) -> bool {
        self.sig.wf() && self.J.wf() && self.proof_vc.wf()
    }

    /// Canonical serialization: the randomized signature's encoding, then
    /// `J`'s, then the Schnorr proof's.
    pub fn to_bytes(&self) -> (r: Vec<u8>)
        ensures
            r@ == self.sig.sigma_1@ + self.sig.sigma_2@ + self.J@ + self.proof_vc.commitment@
                + concat_of(scalar_views(self.proof_vc.responses@)),
    {
        let mut bytes = self.sig.to_bytes();
        let mut jb = self.J.to_bytes();
        bytes.append(&mut jb);
        let mut vcb = self.proof_vc.to_bytes();
        bytes.append(&mut vcb);
        bytes
    }

    /// The hidden-base list the verifier rebuilds from the revealed-index
    /// set: `g_tilde`, then `Y_tilde_i` for hidden `i` ascending.
    pub open spec fn spec_vc_bases(&self, vk: Verkey, params: Params, dom: Set<usize>) -> Seq<
        Seq<u8>,
    > {
        seq![params.g_tilde@] + Seq::new(
            hidden_indices(vk.Y_tilde@.len() as int, dom).len(),
            |j: int| vk.Y_tilde@[hidden_indices(vk.Y_tilde@.len() as int, dom)[j] as int]@,
        )
    }

    /// `J` with the revealed messages folded in:
    /// `J + sum Y_tilde_i^(D(i))` over the revealed `i` ascending.
    pub open spec fn spec_j_full(&self, vk: Verkey, revealed: Map<usize, Scalar>) -> Seq<u8> {
        let rev = revealed_indices(vk.Y_tilde@.len() as int, revealed.dom());
        if rev.len() == 0 {
            self.J@
        } else {
            g2_add_of(
                self.J@,
                g2_msm_var_of(
                    Seq::new(rev.len(), |j: int| vk.Y_tilde@[rev[j] as int]@),
                    Seq::new(rev.len(), |j: int| revealed[rev[j]]@),
                ),
            )
        }
    }

    /// Verifies the proof: rejects identity components of the randomized
    /// signature, checks the Schnorr proof of `J`'s representation over the
    /// rebuilt hidden bases, folds the revealed messages into `J`, and
    /// checks the pairing identity.
    pub fn verify(
        &self,
        vk: &Verkey,
        params: &Params,
        revealed_msgs: HashMap<usize, Scalar>,
        challenge: &Scalar,
    ) -> (r: Result<bool, PSError>)
        requires
            self.wf(),
            vk.wf(),
            params.wf(),
            challenge.wf(),
            forall|u: usize|
                #[trigger] revealed_msgs@.dom().contains(u) ==> (u as int) < vk.Y_tilde@.len(),
            forall|u: usize| #[trigger] revealed_msgs@.dom().contains(u) ==> revealed_msgs@[u].wf(),
        ensures
            ({
                let dom = revealed_msgs@.dom();
                let ids = g1_is_id_of(self.sig.sigma_1@) || g1_is_id_of(self.sig.sigma_2@);
                let bases = self.spec_vc_bases(*vk, *params, dom);
                &&& ids ==> r == Ok::<bool, PSError>(false)
                &&& !ids && bases.len() != self.proof_vc.responses@.len() ==> r == Err::<
                    bool,
                    PSError,
                >(
                    PSError::UnequalNoOfBasesExponents {
                        bases: bases.len() as usize,
                        exponents: self.proof_vc.responses@.len() as usize,
                    },
                )
                &&& !ids && bases.len() == self.proof_vc.responses@.len() ==> r == Ok::<
                    bool,
                    PSError,
                >(
                    self.proof_vc.spec_verify(bases, self.J@, challenge@)
                        && pair2_is_one_of(
                        self.sig.sigma_1@,
                        g2_add_of(self.spec_j_full(*vk, revealed_msgs@), vk.X_tilde@),
                        g1_neg_of(self.sig.sigma_2@),
                        params.g_tilde@,
                    ),
                )
            }),
    {
        let ghost dom = revealed_msgs@.dom();
        if g1_is_identity(&self.sig.sigma_1) || g1_is_identity(&self.sig.sigma_2) {
            return Ok(false);
        }
        let n = vk.Y_tilde.len();
        let mut bases: Vec<OtherGroup> = Vec::new();
        bases.push(params.g_tilde.dup());
        let mut i: usize = 0;
        while i < n
            invariant
                i <= n,
                n == vk.Y_tilde@.len(),
                revealed_msgs@.dom() == dom,
                vk.wf(),
                params.wf(),
                bases@.len() == 1 + hidden_indices(i as int, dom).len(),
                g2s_wf(bases@),
                bases@[0]@ == params.g_tilde@,
                forall|j: int|
                    0 <= j < hidden_indices(i as int, dom).len() ==> (#[trigger] bases@[j + 1])@
                        == vk.Y_tilde@[hidden_indices(i as int, dom)[j] as int]@,
            decreases n - i,
        {
            if !revealed_msgs.contains_key(&i) {
                proof {
                    assert(hidden_indices(i as int + 1, dom) =~= hidden_indices(i as int, dom).push(
                        i,
                    ));
                }
                bases.push(vk.Y_tilde[i].dup());
            } else {
                proof {
                    assert(hidden_indices(i as int + 1, dom) =~= hidden_indices(i as int, dom));
                }
            }
            i = i + 1;
        }
        proof {
            let sv = self.spec_vc_bases(*vk, *params, dom);
            let hid = hidden_indices(n as int, dom);
            assert forall|l: int| 0 <= l < sv.len() implies g2_views(bases@)[l] == sv[l] by {
                if l > 0 {
                    let j = l - 1;
                    assert((bases@[j + 1])@ == vk.Y_tilde@[hid[j] as int]@);
                }
            }
            assert(g2_views(bases@) =~= sv);
        }
        match self.proof_vc.verify(&bases, &self.J, challenge) {
            Err(e) => {
                return Err(e);
            },
            Ok(false) => {
                return Ok(false);
            },
            Ok(true) => {},
        }
        let mut rbases: Vec<OtherGroup> = Vec::new();
        let mut rexps: Vec<Scalar> = Vec::new();
        let mut i: usize = 0;
        while i < n
            invariant
                i <= n,
                n == vk.Y_tilde@.len(),
                revealed_msgs@.dom() == dom,
                vk.wf(),
                forall|u: usize|
                    #[trigger] revealed_msgs@.dom().contains(u) ==> revealed_msgs@[u].wf(),
                rbases@.len() == revealed_indices(i as int, dom).len(),
                rexps@.len() == rbases@.len(),
                g2s_wf(rbases@),
                scalars_wf(rexps@),
                forall|j: int|
                    0 <= j < revealed_indices(i as int, dom).len() ==> (#[trigger] rbases@[j])@
                        == vk.Y_tilde@[revealed_indices(i as int, dom)[j] as int]@,
                forall|j: int|
                    0 <= j < revealed_indices(i as int, dom).len() ==> (#[trigger] rexps@[j])@
                        == revealed_msgs@[revealed_indices(i as int, dom)[j]]@,
            decreases n - i,
        {
            match revealed_msgs.get(&i) {
                Some(m) => {
                    proof {
                        assert(revealed_indices(i as int + 1, dom) =~= revealed_indices(
                            i as int,
                            dom,
                        ).push(i));
                    }
                    rbases.push(vk.Y_tilde[i].dup());
                    rexps.push(m.dup());
                },
                None => {
                    proof {
                        assert(revealed_indices(i as int + 1, dom) =~= revealed_indices(
                            i as int,
                            dom,
                        ));
                    }
                },
            }
            i = i + 1;
        }
        let j_full = if rbases.len() == 0 {
            self.J.dup()
        } else {
            proof {
                let rev = revealed_indices(n as int, dom);
                assert(g2_views(rbases@) =~= Seq::new(
                    rev.len(),
                    |j: int| vk.Y_tilde@[rev[j] as int]@,
                ));
                assert(scalar_views(rexps@) =~= Seq::new(
                    rev.len(),
                    |j: int| revealed_msgs@[rev[j]]@,
                ));
            }
            g2_add(&self.J, &g2_msm_var(&rbases, &rexps))
        };
        let accum = g2_add(&j_full, &vk.X_tilde);
        let neg_sigma_2 = g1_neg(&self.sig.sigma_2);
        Ok(pair2_is_one(&self.sig.sigma_1, &accum, &neg_sigma_2, &params.g_tilde))
    }

    /// Law (structural completeness): a proof carrying one response per
    /// hidden message plus one for the aggregate exponent `t` — the shape
    /// `init` and `gen_proof` produce — always matches the base list the
    /// verifier rebuilds for the same revealed set, so `verify` never
    /// reports a bases/responses mismatch for an honestly generated proof.
    pub proof fn lemma_honest_proof_passes_structural_gate(
        self,
        vk: Verkey,
        params: Params,
        dom: Set<usize>,
    )
        requires
            self.proof_vc.responses@.len() == hidden_indices(vk.Y_tilde@.len() as int, dom).len()
                + 1,
        ensures
            self.spec_vc_bases(vk, params, dom).len() == self.proof_vc.responses@.len(),
    {
    }

    /// The response slot standing for the hidden message at `msg_idx`:
    /// slot 0 carries the aggregate exponent `t`, so the message's slot is
    /// one past its rank among the hidden indices. Rejects a revealed index
    /// and a slot beyond the proof.
    pub fn response_for_message(&self, msg_idx: usize, revealed_msg_indices: &HashSet<usize>) -> (r:
        Result<Scalar, PSError>)
        ensures
            ({
                let dom = revealed_msg_indices@;
                let slot = 1 + hidden_indices(msg_idx as int, dom).len();
                &&& dom.contains(msg_idx) ==> (r matches Err(e) && e matches
                    PSError::GeneralError { msg } && msg@ == msg_no_response_for_revealed())
                &&& !dom.contains(msg_idx) && slot >= self.proof_vc.responses@.len() ==> (r
                    matches Err(e) && e matches PSError::GeneralError { msg } && msg@
                    == msg_response_slot_out_of_range())
                &&& !dom.contains(msg_idx) && slot < self.proof_vc.responses@.len() ==> (r
                    matches Ok(s) && s@ == self.proof_vc.responses@[slot as int]@)
            }),
    {
        if revealed_msg_indices.contains(&msg_idx) {
            return Err(
                PSError::GeneralError {
                    msg: String::from_str("message index is revealed, so no response stands for it"),
                },
            );
        }
        let ghost dom = revealed_msg_indices@;
        let mut k: usize = 0;
        let mut j: usize = 0;
        while j < msg_idx
            invariant
                j <= msg_idx,
                revealed_msg_indices@ == dom,
                k == hidden_indices(j as int, dom).len(),
                k <= j,
            decreases msg_idx - j,
        {
            if !revealed_msg_indices.contains(&j) {
                proof {
                    assert(hidden_indices(j as int + 1, dom) =~= hidden_indices(j as int, dom).push(
                        j,
                    ));
                }
                k = k + 1;
            } else {
                proof {
                    assert(hidden_indices(j as int + 1, dom) =~= hidden_indices(j as int, dom));
                }
            }
            j = j + 1;
        }
        if k >= self.proof_vc.responses.len() || k + 1 >= self.proof_vc.responses.len() {
            return Err(
                PSError::GeneralError {
                    msg: String::from_str("message index beyond the proof's response slots"),
                },
            );
        }
        Ok(self.proof_vc.responses[k + 1].dup())
    }
}

} // verus!
