use vstd::prelude::*;

verus! {

/// An HTTP status code is a success when it lies in the 2xx range.
pub open spec fn success_status(code: u16) -> bool {
    200 <= code && code <= 299
}

/// Tells whether an HTTP status code lies in the success range (2xx).
/// Redirects (3xx) are not successes.
pub fn is_success_status(code: u16) -> (r: bool)
    ensures
        r == success_status(code),
{
    200 <= code && code <= 299
}

} // verus!
