//! Access enforcement: requests without an account stop here.

use vstd::prelude::*;
use crate::api::response::{JsonResponse, JsonStatus, UNAUTHORIZED};

verus! {

/// Lets a request pass only where an account is attached to it.
///
/// A request without an account is answered with the bare status
/// `UNAUTHORIZED`: the answer tells the reason phrase and no detail, so that
/// nothing of the validation shows. The stage must run after the resolver on
/// every route that needs an account.
pub fn authorize<U>(account: &Option<U>) -> (verdict: Result<(), JsonResponse<JsonStatus>>)
    ensures
        verdict is Ok <==> account is Some,
        verdict matches Err(answer) ==> answer.is_status(UNAUTHORIZED, None),
{
    match account {
        Some(_) => Ok(()),
        None => Err(JsonResponse::of_status(UNAUTHORIZED)),
    }
}

} // verus!
