//! The Groth16 check, as a state machine that asks its caller for one host
//! group operation at a time.
//!
//! The public inputs are folded into the prepared-input point
//! `IC[0] + IC[1]·s[0] + ... + IC[n]·s[n-1]`, left to right, one
//! multiplication then one addition per input; then the multi-pairing over
//! `(-A, B), (α, β), (prepared, γ), (C, δ)` decides. The caller runs the
//! loop: it reads [`Groth16Verifier::request`], makes the host call, and
//! hands the status and the filled buffer to [`Groth16Verifier::deliver`].
use crate::bn254::{
    group_op_result, GroupOp, ALT_BN128_G1_POINT_SIZE, ALT_BN128_G2_POINT_SIZE,
    ALT_BN128_PAIRING_OUTPUT_SIZE,
};
use crate::errors::Groth16Error;
use crate::field::{base_modulus, be_value, field_neg, is_less_than_scalar_modulus, negate_g1, scalar_modulus};
use vstd::prelude::*;

verus! {

/// Bytes of one public input: a big-endian scalar.
pub const PUBLIC_INPUT_SIZE: usize = 32;

/// A verifying key: the fixed points α, β, γ, δ and the input-commitment
/// bases `ic`, one per public input plus a constant term first.
pub struct VerifyingKey {
    pub alpha_g1: [u8; 64],
    pub beta_g2: [u8; 128],
    pub gamma_g2: [u8; 128],
    pub delta_g2: [u8; 128],
    pub ic: Vec<[u8; 64]>,
}

/// A proof: A and C in G1, B in G2, uncompressed.
pub struct Proof {
    pub a: [u8; 64],
    pub b: [u8; 128],
    pub c: [u8; 64],
}

fn array_from_slice<const N: usize>(s: &[u8]) -> (r: [u8; N])
    requires
        s@.len() == N,
    ensures
        r@ == s@,
{
    let mut r: [u8; N] = vstd::array::array_fill_for_copy_types(0u8);
    let mut i: usize = 0;
    while i < N
        invariant
            i <= N,
            s@.len() == N,
            r@.len() == N,
            forall|j: int| 0 <= j < i ==> r@[j] == s@[j],
        decreases N - i,
    {
        r[i] = s[i];
        i = i + 1;
    }
    assert(r@ =~= s@);
    r
}

impl Proof {
    /// Takes the three points of an untrusted proof, checking their lengths
    /// in the order A, B, C.
    pub fn from_slices(a: &[u8], b: &[u8], c: &[u8]) -> (r: Result<Proof, Groth16Error>)
        ensures
            r is Ok <==> (a@.len() == 64 && b@.len() == 128 && c@.len() == 64),
            a@.len() != 64 ==> r == Err::<Proof, Groth16Error>(Groth16Error::InvalidG1Length),
            a@.len() == 64 && b@.len() != 128 ==> r == Err::<Proof, Groth16Error>(
                Groth16Error::InvalidG2Length,
            ),
            a@.len() == 64 && b@.len() == 128 && c@.len() != 64 ==> r == Err::<Proof, Groth16Error>(
                Groth16Error::InvalidG1Length,
            ),
            r is Ok ==> r->Ok_0.a@ == a@ && r->Ok_0.b@ == b@ && r->Ok_0.c@ == c@,
    {
        if a.len() != ALT_BN128_G1_POINT_SIZE {
            return Err(Groth16Error::InvalidG1Length);
        }
        if b.len() != ALT_BN128_G2_POINT_SIZE {
            return Err(Groth16Error::InvalidG2Length);
        }
        if c.len() != ALT_BN128_G1_POINT_SIZE {
            return Err(Groth16Error::InvalidG1Length);
        }
        Ok(Proof { a: array_from_slice(a), b: array_from_slice(b), c: array_from_slice(c) })
    }
}

/// The `k`-th 32-byte scalar of a flat buffer.
pub open spec fn scalar_at(bytes: Seq<u8>, k: int) -> Seq<u8> {
    bytes.subrange(k * 32, k * 32 + 32)
}

/// Splits a flat buffer into its 32-byte public inputs, in order. Fails with
/// `InvalidPublicInputsLength` where the buffer is not whole scalars.
pub fn public_inputs_from_bytes(bytes: &[u8]) -> (r: Result<Vec<[u8; 32]>, Groth16Error>)
    ensures
        r is Ok <==> bytes@.len() % 32 == 0,
        r is Err ==> r->Err_0 == Groth16Error::InvalidPublicInputsLength,
        r is Ok ==> r->Ok_0@.len() == bytes@.len() / 32 && forall|k: int|
            0 <= k < r->Ok_0@.len() ==> (#[trigger] r->Ok_0@[k])@ == scalar_at(bytes@, k),
{
    if bytes.len() % PUBLIC_INPUT_SIZE != 0 {
        return Err(Groth16Error::InvalidPublicInputsLength);
    }
    let len: usize = bytes.len();
    let n: usize = len / PUBLIC_INPUT_SIZE;
    let mut out: Vec<[u8; 32]> = Vec::with_capacity(n);
    let mut k: usize = 0;
    while k < n
        invariant
            k <= n,
            len == bytes@.len(),
            n == bytes@.len() / 32,
            bytes@.len() % 32 == 0,
            out@.len() == k,
            forall|j: int| 0 <= j < k ==> (#[trigger] out@[j])@ == scalar_at(bytes@, j),
        decreases n - k,
    {
        let mut s: [u8; 32] = [0u8; 32];
        proof {
            assert(k * 32 + 32 <= len) by (nonlinear_arith)
                requires
                    len == bytes@.len(),
                    k < n,
                    n == bytes@.len() / 32,
                    bytes@.len() % 32 == 0,
            ;
        }
        let start: usize = k * 32;
        let mut i: usize = 0;
        while i < 32
            invariant
                i <= 32,
                k < n,
                n == bytes@.len() / 32,
                bytes@.len() % 32 == 0,
                start == k * 32,
                start + 32 <= bytes@.len(),
                s@.len() == 32,
                forall|j: int| 0 <= j < i ==> s@[j] == bytes@[start + j],
            decreases 32 - i,
        {
            s[i] = bytes[start + i];
            i = i + 1;
        }
        assert(s@ =~= scalar_at(bytes@, k as int));
        out.push(s);
        k = k + 1;
    }
    Ok(out)
}

/// Whether some public input is not a scalar-field element.
pub open spec fn some_input_out_of_field(inputs: Seq<[u8; 32]>) -> bool {
    exists|k: int| 0 <= k < inputs.len() && be_value((#[trigger] inputs[k])@) >= scalar_modulus()
}

/// The checks on the public inputs before any of them is folded: their
/// number first, then the range of each scalar.
pub fn check_public_inputs(vk: &VerifyingKey, inputs: &Vec<[u8; 32]>) -> (r: Result<(), Groth16Error>)
    ensures
        inputs@.len() + 1 != vk.ic@.len() ==> r == Err::<(), Groth16Error>(
            Groth16Error::IncompatibleVerifyingKeyWithNrPublicInputs,
        ),
        inputs@.len() + 1 == vk.ic@.len() && some_input_out_of_field(inputs@) ==> r == Err::<
            (),
            Groth16Error,
        >(Groth16Error::PublicInputGreaterThanFieldSize),
        r is Ok <==> inputs@.len() + 1 == vk.ic@.len() && !some_input_out_of_field(inputs@),
{
    if vk.ic.len() == 0 || inputs.len() != vk.ic.len() - 1 {
        return Err(Groth16Error::IncompatibleVerifyingKeyWithNrPublicInputs);
    }
    let mut k: usize = 0;
    while k < inputs.len()
        invariant
            k <= inputs@.len(),
            inputs@.len() + 1 == vk.ic@.len(),
            forall|j: int| 0 <= j < k ==> be_value((#[trigger] inputs@[j])@) < scalar_modulus(),
        decreases inputs@.len() - k,
    {
        if !is_less_than_scalar_modulus(&inputs[k]) {
            return Err(Groth16Error::PublicInputGreaterThanFieldSize);
        }
        k = k + 1;
    }
    Ok(())
}

/// What the verifier asks of its caller next.
pub enum Request {
    /// Make the host group operation `op` on `input`, then hand its status
    /// and output buffer to [`Groth16Verifier::deliver`].
    Call { op: GroupOp, input: Vec<u8> },
    /// Verification is over: `Ok(())` accepts the proof.
    Done(Result<(), Groth16Error>),
}

/// One Groth16 verification in progress.
///
/// `term` public inputs have been folded into `prepared`; `product` holds
/// the multiplication of the next base by its input while the addition that
/// folds it in is pending; `outcome` is set once the verification is over.
pub struct Groth16Verifier {
    pub vk: VerifyingKey,
    pub neg_a: [u8; 64],
    pub b: [u8; 128],
    pub c: [u8; 64],
    pub inputs: Vec<[u8; 32]>,
    pub term: usize,
    pub product: Option<[u8; 64]>,
    pub prepared: [u8; 64],
    pub outcome: Option<Result<(), Groth16Error>>,
}

/// The pairing input: the pairs `(-A, B), (α, β), (prepared, γ), (C, δ)`,
/// each a G1 point followed by a G2 point.
pub open spec fn pairing_input(
    vk: VerifyingKey,
    neg_a: Seq<u8>,
    b: Seq<u8>,
    prepared: Seq<u8>,
    c: Seq<u8>,
) -> Seq<u8> {
    neg_a + b + vk.alpha_g1@ + vk.beta_g2@ + prepared + vk.gamma_g2@ + c + vk.delta_g2@
}

/// Whether the pairing's output says that the product of the pairings is
/// the identity: its last byte is 1.
pub open spec fn pairing_accepts(output: Seq<u8>) -> bool {
    output[31] == 1
}

impl Groth16Verifier {
    pub open spec fn wf(self) -> bool {
        &&& self.vk.ic@.len() == self.inputs@.len() + 1
        &&& self.term <= self.inputs@.len()
        &&& self.product is Some ==> self.term < self.inputs@.len()
        &&& !some_input_out_of_field(self.inputs@)
    }

    /// The host operation that comes next, and its input: for each public
    /// input in turn, its base times the scalar, then the running sum plus
    /// that product; after the last one, the pairing.
    pub open spec fn next_call(self) -> (GroupOp, Seq<u8>) {
        if self.term < self.inputs@.len() {
            match self.product {
                None => (
                    GroupOp::Multiplication,
                    self.vk.ic@[self.term + 1]@ + self.inputs@[self.term as int]@,
                ),
                Some(p) => (GroupOp::Addition, self.prepared@ + p@),
            }
        } else {
            (
                GroupOp::Pairing,
                pairing_input(self.vk, self.neg_a@, self.b@, self.prepared@, self.c@),
            )
        }
    }

    /// Starts verifying `proof` against `vk` for `inputs`. Refuses, before
    /// any host call, a number of inputs that does not match the key, then a
    /// scalar outside the field. A proof A with a coordinate outside the
    /// base field fails as a failed check does.
    pub fn new(vk: VerifyingKey, proof: Proof, inputs: Vec<[u8; 32]>) -> (r: Result<
        Groth16Verifier,
        Groth16Error,
    >)
        ensures
            inputs@.len() + 1 != vk.ic@.len() ==> r == Err::<Groth16Verifier, Groth16Error>(
                Groth16Error::IncompatibleVerifyingKeyWithNrPublicInputs,
            ),
            inputs@.len() + 1 == vk.ic@.len() && some_input_out_of_field(inputs@) ==> r == Err::<
                Groth16Verifier,
                Groth16Error,
            >(Groth16Error::PublicInputGreaterThanFieldSize),
            inputs@.len() + 1 == vk.ic@.len() && !some_input_out_of_field(inputs@) ==> (r is Ok
                <==> be_value(proof.a@.subrange(0, 32)) < base_modulus() && be_value(
                proof.a@.subrange(32, 64),
            ) < base_modulus()),
            r is Err ==> r->Err_0 == Groth16Error::IncompatibleVerifyingKeyWithNrPublicInputs
                || r->Err_0 == Groth16Error::PublicInputGreaterThanFieldSize || r->Err_0
                == Groth16Error::ProofVerificationFailed,
            r is Ok ==> {
                let v = r->Ok_0;
                &&& v.wf()
                &&& v.vk == vk
                &&& v.inputs@ == inputs@
                &&& v.b == proof.b
                &&& v.c == proof.c
                &&& v.neg_a@.subrange(0, 32) == proof.a@.subrange(0, 32)
                &&& be_value(v.neg_a@.subrange(32, 64)) == field_neg(
                    be_value(proof.a@.subrange(32, 64)),
                )
                &&& v.term == 0
                &&& v.product is None
                &&& v.prepared@ == vk.ic@[0]@
                &&& v.outcome is None
            },
    {
        match check_public_inputs(&vk, &inputs) {
            Err(e) => {
                return Err(e);
            },
            Ok(()) => {},
        }
        let neg_a = match negate_g1(&proof.a) {
            Err(e) => {
                return Err(e);
            },
            Ok(p) => p,
        };
        let prepared = vk.ic[0];
        Ok(
            Groth16Verifier {
                vk,
                neg_a,
                b: proof.b,
                c: proof.c,
                inputs,
                term: 0,
                product: None,
                prepared,
                outcome: None,
            },
        )
    }

    /// What the caller is to do next. Every input asked for is one the host
    /// may be given for its operation.
    pub fn request(&self) -> (r: Request)
        requires
            self.wf(),
        ensures
            self.outcome is Some ==> r == Request::Done(self.outcome->Some_0),
            self.outcome is None ==> (r matches Request::Call { op, input } && op
                == self.next_call().0 && input@ == self.next_call().1
                && op.accepts_input_len(input@.len() as int)),
    {
        match &self.outcome {
            Some(o) => {
                return Request::Done(*o);
            },
            None => {},
        }
        let mut input: Vec<u8> = Vec::new();
        if self.term < self.inputs.len() {
            match &self.product {
                None => {
                    append_bytes(&mut input, &self.vk.ic[self.term + 1]);
                    append_bytes(&mut input, &self.inputs[self.term]);
                    Request::Call { op: GroupOp::Multiplication, input }
                },
                Some(p) => {
                    append_bytes(&mut input, &self.prepared);
                    append_bytes(&mut input, p);
                    Request::Call { op: GroupOp::Addition, input }
                },
            }
        } else {
            append_bytes(&mut input, &self.neg_a);
            append_bytes(&mut input, &self.b);
            append_bytes(&mut input, &self.vk.alpha_g1);
            append_bytes(&mut input, &self.vk.beta_g2);
            append_bytes(&mut input, &self.prepared);
            append_bytes(&mut input, &self.vk.gamma_g2);
            append_bytes(&mut input, &self.c);
            append_bytes(&mut input, &self.vk.delta_g2);
            Request::Call { op: GroupOp::Pairing, input }
        }
    }

    /// Takes the host's answer to the call that [`Self::request`] asked for:
    /// its `status` and the buffer it filled. A non-zero status ends the
    /// verification with that operation's error. A product is kept for the
    /// addition that follows; a sum becomes the prepared point and moves on
    /// to the next input; the pairing ends the verification, accepting the
    /// proof only where its flag byte is 1.
    pub fn deliver(&mut self, status: u64, output: Vec<u8>)
        requires
            old(self).wf(),
            old(self).outcome is None,
            output@.len() == old(self).next_call().0.spec_output_size(),
        ensures
            final(self).wf(),
            final(self).vk == old(self).vk,
            final(self).inputs@ == old(self).inputs@,
            final(self).neg_a == old(self).neg_a,
            final(self).b == old(self).b,
            final(self).c == old(self).c,
            status != 0 ==> final(self).outcome == Some(
                Err::<(), Groth16Error>(old(self).next_call().0.spec_failure()),
            ) && final(self).term == old(self).term && final(self).product == old(self).product
                && final(self).prepared == old(self).prepared,
            status == 0 ==> match old(self).next_call().0 {
                GroupOp::Multiplication => {
                    &&& final(self).outcome is None
                    &&& final(self).term == old(self).term
                    &&& final(self).product is Some
                    &&& final(self).product->Some_0@ == output@
                    &&& final(self).prepared == old(self).prepared
                },
                GroupOp::Addition => {
                    &&& final(self).outcome is None
                    &&& final(self).term == old(self).term + 1
                    &&& final(self).product is None
                    &&& final(self).prepared@ == output@
                },
                GroupOp::Pairing => {
                    &&& final(self).outcome == Some(
                        if pairing_accepts(output@) {
                            Ok::<(), Groth16Error>(())
                        } else {
                            Err(Groth16Error::ProofVerificationFailed)
                        },
                    )
                    &&& final(self).term == old(self).term
                    &&& final(self).product == old(self).product
                    &&& final(self).prepared == old(self).prepared
                },
            },
    {
        let op = if self.term < self.inputs.len() {
            match &self.product {
                None => GroupOp::Multiplication,
                Some(_) => GroupOp::Addition,
            }
        } else {
            GroupOp::Pairing
        };
        let output = match group_op_result(op, status, output) {
            Err(e) => {
                self.outcome = Some(Err(e));
                return ;
            },
            Ok(v) => v,
        };
        match op {
            GroupOp::Multiplication => {
                self.product = Some(array_from_slice(output.as_slice()));
            },
            GroupOp::Addition => {
                self.prepared = array_from_slice(output.as_slice());
                self.product = None;
                self.term = self.term + 1;
            },
            GroupOp::Pairing => {
                if output[ALT_BN128_PAIRING_OUTPUT_SIZE - 1] == 1 {
                    self.outcome = Some(Ok(()));
                } else {
                    self.outcome = Some(Err(Groth16Error::ProofVerificationFailed));
                }
            },
        }
    }
}

fn append_bytes(v: &mut Vec<u8>, s: &[u8])
    ensures
        final(v)@ == old(v)@ + s@,
{
    let mut i: usize = 0;
    while i < s.len()
        invariant
            i <= s@.len(),
            v@ == old(v)@ + s@.subrange(0, i as int),
        decreases s@.len() - i,
    {
        v.push(s[i]);
        i = i + 1;
        assert(v@ =~= old(v)@ + s@.subrange(0, i as int));
    }
    assert(s@.subrange(0, i as int) =~= s@);
}

} // verus!
