//! String utilities proved over byte views.

use vstd::prelude::*;
use vstd::string::StringSliceAdditionalSpecFns;
use vstd::string::StrSliceExecFns;
use vstd::utf8::decode_utf8;

verus! {

/// Whole-string equality of two string slices, decided over their UTF-8
/// bytes. Equal byte encodings mean equal character sequences because UTF-8
/// decoding inverts encoding.
pub fn str_eq(a: &str, b: &str) -> (r: bool)
    ensures
        r == (a@ == b@),
{
    broadcast use vstd::utf8::decode_utf8_encode_utf8;

    let ab = a.as_bytes();
    let bb = b.as_bytes();
    if ab.len() != bb.len() {
        return false;
    }
    let n = ab.len();
    let mut i: usize = 0;
    while i < n
        invariant
            n == ab@.len() == bb@.len(),
            i <= n,
            ab@ == a.spec_bytes(),
            bb@ == b.spec_bytes(),
            forall|j: int| 0 <= j < i ==> ab@[j] == bb@[j],
        decreases n - i,
    {
        if ab[i] != bb[i] {
            return false;
        }
        i += 1;
    }
    proof {
        assert(a.spec_bytes() =~= b.spec_bytes());
        vstd::utf8::encode_utf8_decode_utf8(a@);
        vstd::utf8::encode_utf8_decode_utf8(b@);
        assert(decode_utf8(a.spec_bytes()) == decode_utf8(b.spec_bytes()));
    }
    true
}

/// The leading `"0x"` of a hex string, stripped when present; the input
/// itself otherwise.
pub fn strip_0x_prefix(s: &str) -> (r: &str)
    ensures
        (s@.len() >= 2 && s@[0] == '0' && s@[1] == 'x') ==> r@ == s@.skip(2),
        !(s@.len() >= 2 && s@[0] == '0' && s@[1] == 'x') ==> r@ == s@,
{
    if s.unicode_len() >= 2 {
        let c0 = s.get_char(0);
        let c1 = s.get_char(1);
        if c0 == '0' && c1 == 'x' {
            return s.substring_char(2, s.unicode_len());
        }
    }
    s
}

} // verus!
