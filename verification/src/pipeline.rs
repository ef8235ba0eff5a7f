//! Mapping each decision to the HTTP surface: the status answered, and
//! whether the event handler may run.

use vstd::prelude::*;
use crate::verify::{VerificationOutcome, spec_verify};

verus! {

/// The status owed for a decision: 200 for an accepted request, 401 for every
/// rejection.
pub open spec fn spec_status(o: VerificationOutcome) -> u16 {
    match o {
        VerificationOutcome::Accepted => 200u16,
        VerificationOutcome::Rejected(_) => 401u16,
    }
}

/// The HTTP status to answer a request with, from its decision.
pub fn response_status(o: &VerificationOutcome) -> (s: u16)
    ensures
        s == spec_status(*o),
{
    match o {
        VerificationOutcome::Accepted => 200,
        VerificationOutcome::Rejected(_) => 401,
    }
}

/// Whether the event handler may be invoked: only for an accepted request,
/// never for a rejected one.
pub fn should_dispatch(o: &VerificationOutcome) -> (b: bool)
    ensures
        b == (*o is Accepted),
{
    match o {
        VerificationOutcome::Accepted => true,
        VerificationOutcome::Rejected(_) => false,
    }
}

/// Law: every rejection is answered with 401, whatever its reason; the status
/// never tells a caller why a request was turned away.
pub proof fn lemma_rejection_status_uniform(o: VerificationOutcome)
    requires
        o is Rejected,
    ensures
        spec_status(o) == 401,
{
}

/// Law: a request without a signature header is answered with the same 401 as
/// every other rejection.
pub proof fn lemma_missing_header_status(secret: Seq<u8>, body: Seq<u8>)
    ensures
        spec_status(spec_verify(secret, body, None)) == 401,
{
}

} // verus!
