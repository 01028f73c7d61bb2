use vstd::prelude::*;
use crate::response::{empty_response, Response, ResponseView, STATUS_OK};

verus! {

/// The one answer of the liveness probe.
pub open spec fn health_response() -> ResponseView {
    empty_response(STATUS_OK)
}

/// The liveness probe: success with an empty body, whatever came before.
pub fn healt_check() -> (r: Response)
    ensures
        r@ == health_response(),
        r@.status == 200,
        r@.body.len() == 0,
{
    Response::empty(STATUS_OK)
}

/// The liveness probe is idempotent: any two answers of it are the same, and
/// it reads and changes no state, so nothing a caller can observe differs
/// between the first call and any later one.
pub proof fn lemma_health_check_idempotent(first: ResponseView, second: ResponseView)
    requires
        first == health_response(),
        second == health_response(),
    ensures
        first == second,
        first.status == 200,
        first.body.len() == 0,
{
}

} // verus!
