//! The consensus-verified fetch: from a node's reply to a verified payload
//! with its freshness metadata.
//!
//! Building and submitting the request, running the parser and checking the
//! proof are done outside, in this order: `select` after the reply came,
//! `parsed` after the parser ran, `verified` after the proof was checked. What
//! `verified` returns names the fragments to release, whatever the verdict.

use crate::error::{CacheError, TransportFailure};
use crate::registry::StateProofRegistry;
use crate::text::same_text;
use vstd::prelude::*;

verus! {

/// Freshness facts of a reply. Not every reply carries all four.
#[derive(Clone, Copy, Debug, PartialEq, Eq, Structural)]
pub struct ResponseMetadata {
    /// Sequence number of the transaction.
    pub seq_no: Option<u64>,
    /// Time at which the transaction was ordered.
    pub txn_time: Option<u64>,
    /// Sequence number of the latest transaction that the node has seen.
    pub last_seq_no: Option<u64>,
    /// Ordering time of the latest transaction that the node has seen.
    pub last_txn_time: Option<u64>,
}

/// One node's reply to a read request, as far as the fetch reads it.
#[derive(Clone, Debug)]
pub struct Reply {
    /// The transaction type that the reply answers.
    pub txn_type: String,
    /// The artifact as the node returned it.
    pub payload: Vec<u8>,
    /// The ledger's signed state root that the reply carries.
    pub signed_root: Vec<u8>,
    /// The freshness facts that the reply carries.
    pub metadata: ResponseMetadata,
}

/// A verified payload with the freshness facts of its reply.
#[derive(Clone, Debug)]
pub struct Fetched {
    pub payload: Vec<u8>,
    pub metadata: ResponseMetadata,
}

/// A reply for which the parser is known and has not run yet.
pub struct Selected<'a, P, R> {
    pub reply: Reply,
    pub parse: &'a P,
    pub release: &'a R,
}

/// State-proof fragments that the parser allocated and that wait for the
/// verdict, with the routine that releases them.
pub struct Held<'a, R, S> {
    pub reply: Reply,
    pub release: &'a R,
    pub fragments: S,
}

/// The end of a fetch: the fragments to hand to the release routine, and the
/// outcome to report once they are released.
pub struct Settled<'a, R, S> {
    pub release: &'a R,
    pub fragments: S,
    pub outcome: Result<Fetched, CacheError>,
}

/// The transaction type of the request for validator information. Its reply
/// carries no transaction metadata.
pub open spec fn spec_validator_info() -> Seq<char> {
    "119"@
}

/// Why a reply is not taken up, if it is not: the submission failed, or no
/// parser is registered for the reply's transaction type.
pub open spec fn spec_refusal(registered: Set<Seq<char>>, reply: Result<Reply, TransportFailure>) -> Option<
    CacheError,
> {
    match reply {
        Err(_) => Some(CacheError::TransportFailure),
        Ok(r) => if registered.contains(r.txn_type@) {
            None
        } else {
            Some(CacheError::UnknownTransactionType)
        },
    }
}

/// The outcome of a fetch whose reply was parsed, given the verdict on its proof.
pub open spec fn spec_outcome(reply: Reply, valid: bool) -> Result<(Seq<u8>, ResponseMetadata), CacheError> {
    if valid {
        Ok((reply.payload@, reply.metadata))
    } else {
        Err(CacheError::StateProofVerificationFailed)
    }
}

/// A fetch outcome as a mathematical value.
pub open spec fn outcome_view(outcome: Result<Fetched, CacheError>) -> Result<
    (Seq<u8>, ResponseMetadata),
    CacheError,
> {
    match outcome {
        Ok(fetched) => Ok((fetched.payload@, fetched.metadata)),
        Err(error) => Err(error),
    }
}

/// Turns a read request for an artifact into a verified payload.
pub struct ConsensusFetcher;

impl ConsensusFetcher {
    /// Finds the parser for a reply. A failed submission is passed on. A reply
    /// whose transaction type has no registered parser is an error: no reply is
    /// accepted without verification.
    pub fn select<'a, P, R>(
        registry: &'a StateProofRegistry<P, R>,
        reply: Result<Reply, TransportFailure>,
    ) -> (selected: Result<Selected<'a, P, R>, CacheError>)
        ensures
            match spec_refusal(registry@.dom(), reply) {
                Some(error) => selected matches Err(e) && e == error,
                None => {
                    &&& selected matches Ok(s)
                    &&& s.reply == reply->Ok_0
                    &&& (*s.parse, *s.release) == registry@[s.reply.txn_type@]
                },
            },
    {
        match reply {
            Err(_) => Err(CacheError::TransportFailure),
            Ok(r) => match registry.lookup(r.txn_type.as_str()) {
                None => Err(CacheError::UnknownTransactionType),
                Some((parse, release)) => Ok(Selected { reply: r, parse, release }),
            },
        }
    }

    /// Takes what the parser returned. A reply that the parser could not turn
    /// into fragments cannot be verified; nothing was allocated for it.
    pub fn parsed<'a, P, R, S>(selected: Selected<'a, P, R>, fragments: Option<S>) -> (held: Result<
        Held<'a, R, S>,
        CacheError,
    >)
        ensures
            match fragments {
                Some(f) => held matches Ok(h) && h.reply == selected.reply && h.release
                    == selected.release && h.fragments == f,
                None => held matches Err(e) && e == CacheError::StateProofVerificationFailed,
            },
    {
        match fragments {
            Some(f) => Ok(Held { reply: selected.reply, release: selected.release, fragments: f }),
            None => Err(CacheError::StateProofVerificationFailed),
        }
    }

    /// Takes the verdict on the proof. The fragments go to the release routine
    /// in either case. A valid proof gives the payload with the reply's
    /// metadata; an invalid one fails the fetch.
    pub fn verified<'a, R, S>(held: Held<'a, R, S>, valid: bool) -> (settled: Settled<'a, R, S>)
        ensures
            settled.release == held.release,
            settled.fragments == held.fragments,
            outcome_view(settled.outcome) == spec_outcome(held.reply, valid),
    {
        let outcome = if valid {
            Ok(Fetched { payload: held.reply.payload, metadata: held.reply.metadata })
        } else {
            Err(CacheError::StateProofVerificationFailed)
        };
        Settled { release: held.release, fragments: held.fragments, outcome }
    }

    /// The freshness facts of a reply. The reply to a request for validator
    /// information carries none and is turned down.
    pub fn get_response_metadata(reply: &Reply) -> (metadata: Result<ResponseMetadata, CacheError>)
        ensures
            metadata == if reply.txn_type@ == spec_validator_info() {
                Err(CacheError::InvalidArgument)
            } else {
                Ok(reply.metadata)
            },
    {
        if same_text(reply.txn_type.as_str(), "119") {
            Err(CacheError::InvalidArgument)
        } else {
            Ok(reply.metadata)
        }
    }
}

} // verus!
