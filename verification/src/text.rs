//! Byte strings built from ASCII text.
use vstd::prelude::*;
use vstd::string::is_ascii;
use vstd::utf8::is_ascii_chars_encode_utf8;

verus! {

/// The bytes of ASCII text, one per character.
pub open spec fn ascii_bytes_of(text: Seq<char>) -> Seq<u8> {
    text.map_values(|c: char| c as u8)
}

/// Copies the bytes of an ASCII string into a fresh vector.
pub fn ascii_bytes(s: &str) -> (r: Vec<u8>)
    requires
        is_ascii(s),
    ensures
        r@ == ascii_bytes_of(s@),
{
    proof {
        is_ascii_chars_encode_utf8(s@);
    }
    let b = s.as_bytes();
    let n = b.len();
    assert(b@ =~= ascii_bytes_of(s@));
    let mut r: Vec<u8> = Vec::new();
    for i in 0..n
        invariant
            n == b@.len(),
            b@ == ascii_bytes_of(s@),
            r@ == b@.take(i as int),
    {
        r.push(b[i]);
        assert(r@ =~= b@.take(i + 1));
    }
    assert(b@.take(n as int) =~= b@);
    r
}

} // verus!
