//! The attestation builder and its fixed-width wire format.
//!
//! The cumulative KPI is quantized to milli-units, bound together with the
//! input commitment and a timestamp into a canonical 48-byte signing
//! message, signed, and packaged into a fixed 144-byte encoding: the
//! `kpi_value` (8 bytes, little-endian), the 32-byte commitment digest, the
//! timestamp (8 bytes, little-endian), the 32-byte public key, and the
//! 64-byte signature, at fixed offsets in that order.

use crate::crypto::{
    calculate_documents_hash, ed25519_verify, get_timestamp_ms, sha256_of, sign_with_keypair,
    verifies,
};
use crate::document::{identify_file_type, Document, DocumentType};
use crate::fixed::{round_div, round_div_i128, ROUND_DIV_LIMIT};
use crate::kpi::{
    batch_delta, batch_last_type, batch_wf, doc_delta_bound, document_change, KPIResult,
};
use ed25519_dalek::Keypair;
use vstd::bytes::{
    lemma_auto_spec_u64_to_from_le_bytes, spec_u64_from_le_bytes, spec_u64_to_le_bytes,
    u64_from_le_bytes, u64_to_le_bytes,
};
use vstd::prelude::*;
use vstd::slice::{slice_subrange, slice_to_vec};

verus! {

/// A signed claim that a KPI value was computed from the committed input at
/// a time. Once built by the pipeline, the signature verifies against
/// `tee_public_key` over the canonical message of the other three fields.
pub struct TEEAttestation {
    /// The KPI quantized to milli-units.
    pub kpi_value: u64,
    /// SHA-256 commitment to the raw serialized input (32 bytes).
    pub computation_hash: Vec<u8>,
    /// Milliseconds since the Unix epoch.
    pub timestamp: u64,
    /// The signer's Ed25519 public key (32 bytes).
    pub tee_public_key: Vec<u8>,
    /// The Ed25519 signature over the canonical message (64 bytes).
    pub signature: Vec<u8>,
}

/// The canonical signing message: `kpi_value` (8 bytes, little-endian),
/// then the commitment digest, then the timestamp (8 bytes, little-endian);
/// 48 bytes in all.
pub open spec fn signing_message_spec(
    kpi_value: u64,
    computation_hash: Seq<u8>,
    timestamp: u64,
) -> Seq<u8> {
    spec_u64_to_le_bytes(kpi_value) + computation_hash + spec_u64_to_le_bytes(timestamp)
}

/// The fixed 144-byte wire encoding of an attestation.
pub open spec fn encode_spec(a: TEEAttestation) -> Seq<u8> {
    spec_u64_to_le_bytes(a.kpi_value) + a.computation_hash@ + spec_u64_to_le_bytes(a.timestamp)
        + a.tee_public_key@ + a.signature@
}

impl TEEAttestation {
    /// The fields have the widths the wire format fixes.
    pub open spec fn wf(self) -> bool {
        self.computation_hash@.len() == 32 && self.tee_public_key@.len() == 32
            && self.signature@.len() == 64
    }

    /// The canonical signing message of this attestation's fields.
    pub open spec fn spec_message(self) -> Seq<u8> {
        signing_message_spec(self.kpi_value, self.computation_hash@, self.timestamp)
    }

    /// Encodes the attestation into its wire format: exactly 144 bytes, the
    /// five fields at their fixed offsets, integers little-endian.
    pub fn to_bytes(&self) -> (r: Vec<u8>)
        requires
            self.wf(),
        ensures
            r@ == encode_spec(*self),
            r@.len() == 144,
    {
        let mut bytes: Vec<u8> = Vec::new();
        let mut kpi_bytes = u64_to_le_bytes(self.kpi_value);
        bytes.append(&mut kpi_bytes);
        let mut hash_bytes = slice_to_vec(self.computation_hash.as_slice());
        bytes.append(&mut hash_bytes);
        let mut timestamp_bytes = u64_to_le_bytes(self.timestamp);
        bytes.append(&mut timestamp_bytes);
        let mut key_bytes = slice_to_vec(self.tee_public_key.as_slice());
        bytes.append(&mut key_bytes);
        let mut signature_bytes = slice_to_vec(self.signature.as_slice());
        bytes.append(&mut signature_bytes);
        proof {
            assert(bytes@ =~= encode_spec(*self));
        }
        bytes
    }

    /// Decodes 144 bytes back into the five fields; any other length is
    /// rejected.
    pub fn from_bytes(bytes: &Vec<u8>) -> (r: Option<TEEAttestation>)
        ensures
            match r {
                Some(a) => {
                    &&& bytes@.len() == 144
                    &&& a.wf()
                    &&& a.kpi_value == spec_u64_from_le_bytes(bytes@.subrange(0, 8))
                    &&& a.computation_hash@ == bytes@.subrange(8, 40)
                    &&& a.timestamp == spec_u64_from_le_bytes(bytes@.subrange(40, 48))
                    &&& a.tee_public_key@ == bytes@.subrange(48, 80)
                    &&& a.signature@ == bytes@.subrange(80, 144)
                },
                None => bytes@.len() != 144,
            },
    {
        if bytes.len() != 144 {
            return None;
        }
        let s = bytes.as_slice();
        let kpi_value = u64_from_le_bytes(slice_subrange(s, 0, 8));
        let computation_hash = slice_to_vec(slice_subrange(s, 8, 40));
        let timestamp = u64_from_le_bytes(slice_subrange(s, 40, 48));
        let tee_public_key = slice_to_vec(slice_subrange(s, 48, 80));
        let signature = slice_to_vec(slice_subrange(s, 80, 144));
        Some(TEEAttestation { kpi_value, computation_hash, timestamp, tee_public_key, signature })
    }

    /// Checks this attestation's signature against its own public key over
    /// the canonical message rebuilt from its fields.
    pub fn verify_signature(&self) -> (r: bool)
        requires
            self.wf(),
        ensures
            r == verifies(self.tee_public_key@, self.spec_message(), self.signature@),
    {
        let message = build_signing_message(self.kpi_value, &self.computation_hash, self.timestamp);
        ed25519_verify(&self.tee_public_key, &message, &self.signature)
    }
}

/// Builds the canonical signing message from the quantized KPI, the
/// commitment digest, and the timestamp.
pub fn build_signing_message(kpi_value: u64, computation_hash: &Vec<u8>, timestamp: u64) -> (m:
    Vec<u8>)
    requires
        computation_hash@.len() == 32,
    ensures
        m@ == signing_message_spec(kpi_value, computation_hash@, timestamp),
        m@.len() == 48,
{
    let mut message: Vec<u8> = Vec::new();
    let mut kpi_bytes = u64_to_le_bytes(kpi_value);
    message.append(&mut kpi_bytes);
    let mut hash_bytes = slice_to_vec(computation_hash.as_slice());
    message.append(&mut hash_bytes);
    let mut timestamp_bytes = u64_to_le_bytes(timestamp);
    message.append(&mut timestamp_bytes);
    proof {
        lemma_auto_spec_u64_to_from_le_bytes();
        assert(message@ =~= signing_message_spec(kpi_value, computation_hash@, timestamp));
    }
    message
}

/// Decoding the wire encoding of a well-formed attestation reproduces its
/// five fields exactly.
pub proof fn lemma_attestation_round_trip(a: TEEAttestation)
    requires
        a.wf(),
    ensures
        encode_spec(a).len() == 144,
        spec_u64_from_le_bytes(encode_spec(a).subrange(0, 8)) == a.kpi_value,
        encode_spec(a).subrange(8, 40) == a.computation_hash@,
        spec_u64_from_le_bytes(encode_spec(a).subrange(40, 48)) == a.timestamp,
        encode_spec(a).subrange(48, 80) == a.tee_public_key@,
        encode_spec(a).subrange(80, 144) == a.signature@,
{
    lemma_auto_spec_u64_to_from_le_bytes();
    let b = encode_spec(a);
    assert(b.subrange(0, 8) =~= spec_u64_to_le_bytes(a.kpi_value));
    assert(b.subrange(8, 40) =~= a.computation_hash@);
    assert(b.subrange(40, 48) =~= spec_u64_to_le_bytes(a.timestamp));
    assert(b.subrange(48, 80) =~= a.tee_public_key@);
    assert(b.subrange(80, 144) =~= a.signature@);
}

/// The KPI quantized to milli-units: three decimal digits of the unit value
/// survive, halves rounding away from zero.
pub open spec fn quantize_spec(kpi_micro: int) -> int {
    round_div(kpi_micro, 1000)
}

/// Whether a batch's quantized KPI fits the unsigned 64-bit `kpi_value`
/// field. A negative cumulative KPI does not: the pipeline reports it as an
/// explicit error rather than wrapping it into an unsigned field.
pub open spec fn quantized_in_range(docs: Seq<Document>) -> bool {
    0 <= quantize_spec(batch_delta(docs)) <= u64::MAX
}

/// Quantizes a cumulative KPI to the attestation's integer field: `None`
/// exactly where the quantized value is negative or exceeds the field.
pub fn quantize_kpi(kpi_micro: i128) -> (r: Option<u64>)
    requires
        -ROUND_DIV_LIMIT <= kpi_micro <= ROUND_DIV_LIMIT,
    ensures
        match r {
            Some(v) => v == quantize_spec(kpi_micro as int),
            None => !(0 <= quantize_spec(kpi_micro as int) <= u64::MAX),
        },
{
    let q = round_div_i128(kpi_micro, 1000);
    if 0 <= q && q <= u64::MAX as i128 {
        Some(q as u64)
    } else {
        None
    }
}

/// The errors of the attestation pipeline.
#[derive(Clone, Copy, Debug, PartialEq, Eq, Structural)]
pub enum AttestationError {
    /// The batch's quantized KPI is negative or too large for the unsigned
    /// 64-bit `kpi_value` field.
    KpiValueOutOfRange,
    /// The signing capability returned a signature that does not verify
    /// under the public key it reported: a defective keypair. The pipeline
    /// checks every signature before packaging it and refuses to emit an
    /// attestation that a verifier would reject.
    SignatureRejected,
}

/// A KPI result bundled with its attestation and the attestation's exact
/// byte encoding, ready for submission.
pub struct KPIResultWithAttestation {
    /// The cumulative KPI outcome.
    pub kpi_result: KPIResult,
    /// The signed claim.
    pub attestation: TEEAttestation,
    /// The attestation's 144-byte wire encoding.
    pub attestation_bytes: Vec<u8>,
}

impl KPIResultWithAttestation {
    /// The bundle is consistent: the attestation is well-formed, the bytes
    /// are its exact encoding, and the signature verifies over the
    /// attestation's own canonical message.
    pub open spec fn wf(self) -> bool {
        &&& self.attestation.wf()
        &&& self.attestation_bytes@ == encode_spec(self.attestation)
        &&& verifies(
            self.attestation.tee_public_key@,
            self.attestation.spec_message(),
            self.attestation.signature@,
        )
    }
}

/// What a successful attestation run returns for a batch, its raw bytes and
/// a timestamp.
pub open spec fn result_matches(
    docs: Seq<Document>,
    raw: Seq<u8>,
    timestamp: u64,
    out: KPIResultWithAttestation,
) -> bool {
    &&& out.wf()
    &&& out.kpi_result.kpi == batch_delta(docs)
    &&& out.kpi_result.change == batch_delta(docs)
    &&& out.kpi_result.file_type == batch_last_type(docs)
    &&& out.attestation.kpi_value == quantize_spec(batch_delta(docs))
    &&& out.attestation.computation_hash@ == sha256_of(raw)
    &&& out.attestation.timestamp == timestamp
    &&& out.attestation_bytes@.len() == 144
}

/// Folds a batch of documents into the cumulative KPI, commits to the raw
/// input bytes, and signs the attestation with the given timestamp.
///
/// A KPI whose quantization does not fit the unsigned `kpi_value` field is
/// reported as out of range, exactly then; on any in-range KPI the run
/// succeeds unless the signing capability itself misbehaves, which the
/// pipeline detects by checking the fresh signature against the reported
/// public key. In the cumulative result, `change` equals the whole batch's
/// effect and the classification is the last document's.
#[verifier::loop_isolation(false)]
pub fn calculate_kpi_with_attestation_at(
    documents: &Vec<Document>,
    documents_raw: &Vec<u8>,
    tee_keypair: &Keypair,
    timestamp: u64,
) -> (r: Result<KPIResultWithAttestation, AttestationError>)
    requires
        batch_wf(documents@),
    ensures
        match r {
            Ok(out) => quantized_in_range(documents@) && result_matches(
                documents@,
                documents_raw@,
                timestamp,
                out,
            ),
            Err(AttestationError::KpiValueOutOfRange) => !quantized_in_range(documents@),
            Err(AttestationError::SignatureRejected) => quantized_in_range(documents@),
        },
{
    let n = documents.len();
    let mut cumulative_kpi: i128 = 0;
    let mut last_file_type = DocumentType::Unknown;
    proof {
        assert(documents@.take(0) =~= Seq::<Document>::empty());
    }
    for i in 0..n
        invariant
            cumulative_kpi as int == batch_delta(documents@.take(i as int)),
            -(i * doc_delta_bound()) <= cumulative_kpi as int <= i * doc_delta_bound(),
            last_file_type == batch_last_type(documents@.take(i as int)),
    {
        let document = &documents[i];
        let file_type = identify_file_type(document);
        let change = document_change(document);
        proof {
            assert(documents@.take(i + 1).drop_last() =~= documents@.take(i as int));
            assert(documents@.take(i + 1).last() == documents@[i as int]);
        }
        cumulative_kpi = cumulative_kpi + change;
        last_file_type = file_type;
    }
    proof {
        assert(documents@.take(n as int) =~= documents@);
    }
    let kpi_value_u64 = match quantize_kpi(cumulative_kpi) {
        Some(v) => v,
        None => {
            return Err(AttestationError::KpiValueOutOfRange);
        },
    };
    let computation_hash = calculate_documents_hash(documents_raw);
    let message = build_signing_message(kpi_value_u64, &computation_hash, timestamp);
    let (tee_public_key, signature) = sign_with_keypair(tee_keypair, &message);
    if !ed25519_verify(&tee_public_key, &message, &signature) {
        return Err(AttestationError::SignatureRejected);
    }
    let attestation = TEEAttestation {
        kpi_value: kpi_value_u64,
        computation_hash,
        timestamp,
        tee_public_key,
        signature,
    };
    let attestation_bytes = attestation.to_bytes();
    let kpi_result = KPIResult {
        kpi: cumulative_kpi,
        change: cumulative_kpi,  // in cumulative mode the whole batch is one change
        file_type: last_file_type,
    };
    Ok(KPIResultWithAttestation { kpi_result, attestation, attestation_bytes })
}

/// As `calculate_kpi_with_attestation_at`, with the timestamp read from the
/// wall clock: everything holds of the result except which timestamp was
/// bound into it.
pub fn calculate_kpi_with_attestation(
    documents: &Vec<Document>,
    documents_raw: &Vec<u8>,
    tee_keypair: &Keypair,
) -> (r: Result<KPIResultWithAttestation, AttestationError>)
    requires
        batch_wf(documents@),
    ensures
        match r {
            Ok(out) => quantized_in_range(documents@) && result_matches(
                documents@,
                documents_raw@,
                out.attestation.timestamp,
                out,
            ),
            Err(AttestationError::KpiValueOutOfRange) => !quantized_in_range(documents@),
            Err(AttestationError::SignatureRejected) => quantized_in_range(documents@),
        },
{
    let timestamp = get_timestamp_ms();
    calculate_kpi_with_attestation_at(documents, documents_raw, tee_keypair, timestamp)
}

/// Decoding the attestation bytes of a well-formed signed result reproduces
/// the attestation's five fields, and the decoded signature verifies
/// against the decoded public key over the message rebuilt from the decoded
/// `kpi_value`, commitment digest, and timestamp.
pub proof fn lemma_round_trip_preserves_verification(out: KPIResultWithAttestation)
    requires
        out.wf(),
    ensures
        ({
            let b = out.attestation_bytes@;
            &&& b.len() == 144
            &&& spec_u64_from_le_bytes(b.subrange(0, 8)) == out.attestation.kpi_value
            &&& b.subrange(8, 40) == out.attestation.computation_hash@
            &&& spec_u64_from_le_bytes(b.subrange(40, 48)) == out.attestation.timestamp
            &&& b.subrange(48, 80) == out.attestation.tee_public_key@
            &&& b.subrange(80, 144) == out.attestation.signature@
            &&& verifies(
                b.subrange(48, 80),
                signing_message_spec(
                    spec_u64_from_le_bytes(b.subrange(0, 8)),
                    b.subrange(8, 40),
                    spec_u64_from_le_bytes(b.subrange(40, 48)),
                ),
                b.subrange(80, 144),
            )
        }),
{
    lemma_attestation_round_trip(out.attestation);
}

} // verus!
