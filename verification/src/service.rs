//! What both gateway variants share: the construction-time errors, and the
//! validity rule for the configurable response header name (the token
//! characters the HTTP header grammar allows, after ASCII lowercasing).

use vstd::prelude::*;
use vstd::slice::slice_index_get;

verus! {

/// A gateway construction error; per-request failures never raise these.
#[derive(Clone, Copy, Debug, PartialEq, Eq, Structural)]
pub enum GatewayError {
    /// The configured auth-return header name is not a valid header name.
    InvalidHeaderName,
    /// The configured backend address is not a URI with a host.
    InvalidProxyAddress,
}

/// Whether a byte may appear in a lowercased header name: the HTTP token
/// characters, with the upper-case letters already folded away.
pub open spec fn is_header_name_byte(b: u8) -> bool {
    ||| b == 33
    ||| (35 <= b && b <= 39)
    ||| b == 42
    ||| b == 43
    ||| b == 45
    ||| b == 46
    ||| (48 <= b && b <= 57)
    ||| (94 <= b && b <= 96)
    ||| (97 <= b && b <= 122)
    ||| b == 124
    ||| b == 126
}

/// A valid lowercased header name: nonempty, token characters only.
pub open spec fn valid_header_name(s: Seq<u8>) -> bool {
    s.len() > 0 && forall|i: int| 0 <= i < s.len() ==> is_header_name_byte(s[i])
}

pub fn is_valid_header_name(s: &[u8]) -> (r: bool)
    ensures
        r == valid_header_name(s@),
{
    if s.len() == 0 {
        return false;
    }
    let mut i: usize = 0;
    while i < s.len()
        invariant
            0 <= i <= s@.len(),
            forall|k: int| 0 <= k < i ==> is_header_name_byte(s@[k]),
        decreases s@.len() - i,
    {
        let b = *slice_index_get(s, i);
        let ok = b == 33 || (35 <= b && b <= 39) || b == 42 || b == 43 || b == 45 || b == 46 || (48
            <= b && b <= 57) || (94 <= b && b <= 96) || (97 <= b && b <= 122) || b == 124 || b
            == 126;
        if !ok {
            return false;
        }
        i = i + 1;
    }
    true
}

} // verus!
