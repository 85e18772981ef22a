use vstd::prelude::*;

use crate::types::Method;
use crate::types::Response;

verus! {

/// Liveness probe, independent of dispatch, registry and metrics: `GET` and
/// `HEAD` are answered with `200 OK`, every other method with
/// `400 Bad Request`.
pub fn healthz(method: Method) -> (r: Response)
    ensures
        (method == Method::Get || method == Method::Head) ==> (r.status == 200
            && r.body@ == "OK"@),
        !(method == Method::Get || method == Method::Head) ==> (r.status == 400
            && r.body@ == "Bad Request"@),
{
    match method {
        Method::Get | Method::Head => Response { status: 200, body: "OK".to_owned() },
        _ => Response { status: 400, body: "Bad Request".to_owned() },
    }
}

} // verus!
