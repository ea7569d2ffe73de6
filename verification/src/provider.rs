//! The provider: owns the embedded payload, decodes it at most once, records
//! the outcome — the text or the fatal error — for the rest of its lifetime,
//! and hands every caller an independent copy of the same recorded value.

use vstd::prelude::*;
use crate::codec::{decoded_payload, decode_payload, GeoError};

verus! {

/// The view of one call's outcome: the returned text's characters, or the
/// fatal error.
pub open spec fn outcome_view(r: Result<String, GeoError>) -> Result<Seq<char>, GeoError> {
    match r {
        Ok(s) => Ok(s@),
        Err(e) => Err(e),
    }
}

/// Owns an immutable compressed payload and a record of the one-time decode's
/// outcome. The record is written at most once — by the first call — and a
/// failure is latched like a success: the decompression is never retried.
/// Callers receive copies, never a reference into the record.
pub struct GeoDataProvider {
    payload: Vec<u8>,
    cache: Option<Result<String, GeoError>>,
    decompressions: Ghost<nat>,
}

impl GeoDataProvider {
    /// The embedded payload, which is never mutated after construction.
    pub closed spec fn payload_view(self) -> Seq<u8> {
        self.payload@
    }

    /// The recorded outcome of the one-time decode, if it has already run.
    pub closed spec fn cache_view(self) -> Option<Result<Seq<char>, GeoError>> {
        match self.cache {
            Some(Ok(s)) => Some(Ok(s@)),
            Some(Err(e)) => Some(Err(e)),
            None => None,
        }
    }

    /// How many times the decompression routine has been invoked.
    pub closed spec fn decompression_count(self) -> nat {
        self.decompressions@
    }

    /// Well-formedness: a recorded success holds exactly the decoded text of
    /// the payload, never a partial or substitute value; a recorded failure
    /// is the one fatal error, recorded only when the payload does not
    /// decode; and the decompression has run exactly once when an outcome is
    /// recorded, and not at all before.
    #[verifier::type_invariant]
    spec fn wf(self) -> bool {
        &&& self.cache_view() matches Some(Ok(t)) ==> decoded_payload(self.payload_view())
            == Some(t)
        &&& self.cache_view() matches Some(Err(e)) ==> decoded_payload(self.payload_view())
            is None && e == GeoError::CorruptPayload
        &&& self.cache_view() is None ==> self.decompressions@ == 0
        &&& self.cache_view() is Some ==> self.decompressions@ == 1
    }

    /// Wrap a build-time payload. No decoding happens yet: the record starts
    /// empty and no decompression work has been done.
    pub fn new(payload: Vec<u8>) -> (r: Self)
        ensures
            r.payload_view() == payload@,
            r.cache_view() is None,
            r.decompression_count() == 0,
    {
        GeoDataProvider { payload, cache: None, decompressions: Ghost(0) }
    }

    /// Whether the one-time decode has already run, that is, whether an
    /// outcome — the text or the fatal error — is recorded.
    pub fn is_initialized(&self) -> (r: bool)
        ensures
            r == (self.cache_view() is Some),
    {
        self.cache.is_some()
    }

    /// Return the decoded text of the payload. The first call decodes and
    /// records the outcome; every later call returns a copy of the recorded
    /// outcome and does no decompression work, so the decompression runs
    /// exactly once over the provider's lifetime — a failure is latched, not
    /// retried. Succeeds exactly when the payload decodes; a corrupt payload
    /// yields the fatal error, never partial or substitute data.
    pub fn get_geo_data(&mut self) -> (r: Result<String, GeoError>)
        ensures
            final(self).payload_view() == old(self).payload_view(),
            r is Ok <==> decoded_payload(old(self).payload_view()) is Some,
            r matches Ok(s) ==> Some(s@) == decoded_payload(old(self).payload_view()),
            r matches Err(e) ==> e == GeoError::CorruptPayload,
            final(self).cache_view() == Some(outcome_view(r)),
            old(self).cache_view() matches Some(o) ==> outcome_view(r) == o,
            final(self).decompression_count() == 1,
            old(self).cache_view() is None ==> final(self).decompression_count()
                == old(self).decompression_count() + 1,
            old(self).cache_view() is Some ==> final(self).decompression_count()
                == old(self).decompression_count(),
    {
        proof {
            use_type_invariant(&*self);
        }
        match &self.cache {
            Some(Ok(text)) => Ok(text.clone()),
            Some(Err(e)) => Err(*e),
            None => {
                let ghost runs: nat = self.decompressions@;
                let mut payload: Vec<u8> = Vec::new();
                std::mem::swap(&mut payload, &mut self.payload);
                let outcome = decode_payload(payload.as_slice());
                let r = match &outcome {
                    Ok(text) => Ok(text.clone()),
                    Err(e) => Err(*e),
                };
                *self = GeoDataProvider {
                    payload,
                    cache: Some(outcome),
                    decompressions: Ghost(runs + 1),
                };
                r
            },
        }
    }
}

/// Determinism: every successful decode of one payload yields the same text,
/// so all callers of the provider observe identical content.
pub proof fn lemma_deterministic(p: Seq<u8>, a: Seq<char>, b: Seq<char>)
    requires
        decoded_payload(p) == Some(a),
        decoded_payload(p) == Some(b),
    ensures
        a == b,
{
}

} // verus!
