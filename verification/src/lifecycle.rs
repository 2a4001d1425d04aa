//! Parameter lifecycle: the process-wide parameter state moves between
//! uninitialized and initialized under explicit, idempotent calls. The
//! caller owns the state cell and must guard it for concurrent use; every
//! proof operation checks it before touching any other input.

use vstd::prelude::*;

use crate::FCMP_SUCCESS;

verus! {

/// Proving and verification parameters: generator points and precomputed
/// tables would live here in a full proving system.
pub struct FcmpParams {
    initialized: bool,
}

impl FcmpParams {
    /// Whether the parameters are ready for use; true of every value this
    /// library constructs.
    pub closed spec fn initialized(&self) -> bool {
        self.initialized
    }
}

/// Initialize the parameters. Idempotent: from an initialized state this is
/// a no-op success, and the state is initialized afterwards in every case.
pub fn fcmp_init(params: &mut Option<FcmpParams>) -> (r: i32)
    ensures
        r == FCMP_SUCCESS,
        final(params).is_some(),
        old(params).is_none() ==> ((*final(params)) matches Some(p) && p.initialized()),
        old(params).is_some() ==> *final(params) == *old(params),
{
    if params.is_some() {
        return FCMP_SUCCESS;
    }
    *params = Some(FcmpParams { initialized: true });
    FCMP_SUCCESS
}

/// Release the parameters. Idempotent: the state is uninitialized
/// afterwards whether or not it was before.
pub fn fcmp_cleanup(params: &mut Option<FcmpParams>)
    ensures
        final(params).is_none(),
{
    *params = None;
}

/// Whether the parameters are initialized: 1 when they are, 0 when not.
pub fn fcmp_is_initialized(params: &Option<FcmpParams>) -> (r: i32)
    ensures
        r == 1 <==> params.is_some(),
        r == 1 || r == 0,
{
    if params.is_some() {
        1
    } else {
        0
    }
}

} // verus!
