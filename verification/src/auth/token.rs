use vstd::prelude::*;

use crate::text::str_starts_with;

verus! {

/// What `extract_token` hands back: the header with a leading
/// `Bearer ` scheme stripped, or the header as it came.
pub open spec fn spec_extract_token(h: Seq<char>) -> Seq<char> {
    if h.len() >= 7 && h.subrange(0, 6) == "Bearer"@ {
        h.subrange(7, h.len() as int)
    } else {
        h
    }
}

/// Strips the `Bearer ` scheme off an Authorization header, leaving the
/// bare token; a header in any other shape passes through unchanged.
pub fn extract_token(auth_header: String) -> (r: String)
    ensures
        r@ == spec_extract_token(auth_header@),
{
    proof {
        reveal_strlit("Bearer");
    }
    let len = auth_header.as_str().unicode_len();
    if len >= 7 && str_starts_with(auth_header.as_str(), "Bearer") {
        let token = auth_header.as_str().substring_char(7, len);
        String::from_str(token)
    } else {
        auth_header
    }
}

} // verus!
