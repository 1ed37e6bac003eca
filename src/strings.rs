use vstd::prelude::*;

verus! {

/// The length of a string in bytes of its UTF-8 encoding.
pub open spec fn byte_len(s: &str) -> nat {
    s.len() as nat
}

/// Returns the string whose UTF-8 encoding is longer; on equal lengths, the second.
pub fn longest<'a>(x: &'a str, y: &'a str) -> (r: &'a str)
    ensures
        r == (if byte_len(x) > byte_len(y) { x } else { y }),
{
    if x.len() > y.len() {
        x
    } else {
        y
    }
}

} // verus!
