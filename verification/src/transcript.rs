//! The Fiat-Shamir transcript: a Shake128 sponge from `ark_transcript`,
//! paired with an explicit log of every operation applied to it. The sponge
//! state is a function of that log, so each value drawn from the transcript
//! is specified as a named function of the log at the moment of the draw.

use crate::field::{le_bytes, limbs_val, p, Scalar};
use vstd::prelude::*;

verus! {

#[verifier::external_type_specification]
#[verifier::external_body]
pub struct ExTranscript(ark_transcript::Transcript);

/// The log entry recording that bytes were written into the sponge between
/// two domain separators.
pub open spec fn data_entry(bytes: Seq<u8>) -> Seq<u8> {
    seq![1u8] + bytes
}

/// The log entry recording that a tagged challenge was drawn.
pub open spec fn challenge_entry(tag: u8) -> Seq<u8> {
    seq![2u8, tag]
}

/// The field elements a tagged challenge drawn after the given log yields,
/// in the order they are read from the challenge stream.
pub uninterp spec fn challenges_of(log: Seq<Seq<u8>>, tag: u8) -> Seq<nat>;

/// The 32 bytes of entropy the transcript's randomness stream yields after
/// the given log.
pub uninterp spec fn entropy_of(log: Seq<Seq<u8>>) -> Seq<u8>;

/// The field element the transcript's randomness stream yields after the
/// given log.
pub uninterp spec fn rand_scalar_of(log: Seq<Seq<u8>>) -> nat;

/// A Shake128 Fiat-Shamir transcript together with the log of the
/// operations applied to it since it was created.
pub struct ArkTranscript {
    inner: ark_transcript::Transcript,
    log: Vec<Vec<u8>>,
}

impl View for ArkTranscript {
    type V = Seq<Seq<u8>>;

    closed spec fn view(&self) -> Seq<Seq<u8>> {
        self.log.deep_view()
    }
}

impl ArkTranscript {
    /// A fresh transcript under a domain label. Relies on
    /// `ark_transcript::Transcript::new_labeled`.
    #[verifier::external_body]
    pub fn new(label: &[u8]) -> (r: ArkTranscript)
        ensures
            r@ == seq![data_entry(label@)],
    {
        let mut e = vec![1u8];
        e.extend_from_slice(label);
        let inner = ark_transcript::Transcript::new_labeled(ark_transcript::IsLabel(
            label.to_vec(),
        ));
        ArkTranscript { inner, log: vec![e] }
    }

    /// Writes bytes into the sponge between domain separators. Relies on
    /// `ark_transcript::Transcript::label`.
    #[verifier::external_body]
    pub fn append_bytes(&mut self, bytes: &[u8])
        ensures
            final(self)@ == old(self)@.push(data_entry(bytes@)),
    {
        let mut e = vec![1u8];
        e.extend_from_slice(bytes);
        self.log.push(e);
        self.inner.label(ark_transcript::IsLabel(bytes.to_vec()));
    }

    /// Writes a one-byte protocol tag into the sponge. Relies on
    /// `ark_transcript::Transcript::label`.
    #[verifier::external_body]
    pub fn append_tag(&mut self, tag: u8)
        ensures
            final(self)@ == old(self)@.push(data_entry(seq![tag])),
    {
        self.log.push(vec![1u8, tag]);
        self.inner.label(ark_transcript::IsLabel(vec![tag]));
    }

    /// Writes a field element's 32 canonical little-endian bytes into the
    /// sponge. Relies on `ark_ff::BigInt::to_bytes_le` and
    /// `ark_transcript::Transcript::label`.
    #[verifier::external_body]
    pub fn append_scalar(&mut self, s: &Scalar)
        ensures
            final(self)@ == old(self)@.push(data_entry(le_bytes(s@, 32))),
    {
        let bytes = ark_ff::BigInteger::to_bytes_le(&ark_ff::BigInt(s.to_limbs()));
        let mut e = vec![1u8];
        e.extend_from_slice(&bytes);
        self.log.push(e);
        self.inner.label(ark_transcript::IsLabel(bytes));
    }

    /// Draws `k` field elements from a labeled challenge stream. Relies on
    /// `ark_transcript::Transcript::challenge` and `Reader::read_reduce`,
    /// which reduce Shake128 output modulo the field order; the results are
    /// functions of the operation log and the label alone.
    #[verifier::external_body]
    fn challenge_limbs(&mut self, tag: u8, k: usize) -> (r: Vec<[u64; 4]>)
        ensures
            final(self)@ == old(self)@.push(challenge_entry(tag)),
            r@.len() == k,
            forall|i: int|
                0 <= i < k ==> #[trigger] limbs_val(r@[i]@) == challenges_of(old(self)@, tag)[i]
                    && limbs_val(r@[i]@) < p(),
    {
        self.log.push(vec![2u8, tag]);
        let mut rd = self.inner.challenge(ark_transcript::IsLabel(vec![tag]));
        (0..k).map(
            |_| ark_ff::PrimeField::into_bigint(rd.read_reduce::<ark_bls12_381::Fr>()).0,
        ).collect()
    }

    /// Draws `k` field-element challenges under a one-byte protocol tag.
    pub fn challenge_scalars(&mut self, tag: u8, k: usize) -> (r: Vec<Scalar>)
        ensures
            final(self)@ == old(self)@.push(challenge_entry(tag)),
            r@.len() == k,
            forall|i: int|
                0 <= i < k ==> (#[trigger] r@[i])@ == challenges_of(old(self)@, tag)[i],
    {
        let limbs = self.challenge_limbs(tag, k);
        let ghost log0 = old(self)@;
        let mut out: Vec<Scalar> = Vec::new();
        let mut i: usize = 0;
        while i < limbs.len()
            invariant
                limbs@.len() == k,
                0 <= i <= k,
                out@.len() == i,
                forall|j: int|
                    0 <= j < k ==> #[trigger] limbs_val(limbs@[j]@) == challenges_of(log0, tag)[j]
                        && limbs_val(limbs@[j]@) < p(),
                forall|j: int| 0 <= j < i ==> (#[trigger] out@[j])@ == challenges_of(log0, tag)[j],
            decreases limbs@.len() - i,
        {
            proof {
                assert(limbs_val(limbs@[i as int]@) < p());
            }
            match Scalar::from_limbs(limbs[i]) {
                Some(s) => {
                    out.push(s);
                },
                None => {
                    proof {
                        assert(false);
                    }
                },
            }
            i = i + 1;
        }
        out
    }

    /// Finalizes the transcript into its randomness stream and reads 32
    /// bytes. Relies on `ark_transcript::Transcript::challenge` and
    /// `Reader::read_bytes`.
    #[verifier::external_body]
    pub fn into_entropy(self) -> (r: Vec<u8>)
        ensures
            r@ == entropy_of(self@),
            r@.len() == 32,
    {
        let mut inner = self.inner;
        let mut rd = inner.challenge(&b"transcript_rng"[..]);
        let mut buf = vec![0u8; 32];
        rd.read_bytes(&mut buf);
        buf
    }

    /// Finalizes the transcript into its randomness stream and samples one
    /// field element from it. Relies on `ark_transcript::Transcript::
    /// challenge` and `ark_ff`'s uniform sampling, which rejection-samples
    /// deterministically from the stream.
    #[verifier::external_body]
    fn into_rand_limbs(self) -> (r: [u64; 4])
        ensures
            limbs_val(r@) == rand_scalar_of(self@),
            limbs_val(r@) < p(),
    {
        let mut inner = self.inner;
        let mut rd = inner.challenge(&b"transcript_rng"[..]);
        let s: ark_bls12_381::Fr = ark_std::UniformRand::rand(&mut rd);
        ark_ff::PrimeField::into_bigint(s).0
    }

    /// Finalizes the transcript into its randomness stream and draws the
    /// field element that randomizes an accumulated proof.
    pub fn into_rand_scalar(self) -> (r: Scalar)
        ensures
            r@ == rand_scalar_of(self@),
    {
        let ghost log0 = self@;
        let limbs = self.into_rand_limbs();
        match Scalar::from_limbs(limbs) {
            Some(s) => s,
            None => {
                proof {
                    assert(false);
                }
                Scalar::from_u64(0)
            },
        }
    }

    /// An identical copy, sponge state included. Relies on `Clone` for
    /// `ark_transcript::Transcript`.
    #[verifier::external_body]
    pub fn copy(&self) -> (r: ArkTranscript)
        ensures
            r@ == self@,
    {
        ArkTranscript { inner: self.inner.clone(), log: self.log.clone() }
    }
}

} // verus!
