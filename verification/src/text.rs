//! Comparison of strings by their characters.

use vstd::prelude::*;
use vstd::string::StringSliceAdditionalSpecFns;
use vstd::utf8::encode_utf8_decode_utf8;

verus! {

/// Whether `a` and `b` hold the same characters.
pub fn same_text(a: &str, b: &str) -> (same: bool)
    ensures
        same == (a@ == b@),
{
    let x = a.as_bytes();
    let y = b.as_bytes();
    proof {
        // A string is determined by its UTF-8 bytes.
        encode_utf8_decode_utf8(a@);
        encode_utf8_decode_utf8(b@);
    }
    if x.len() != y.len() {
        return false;
    }
    let mut i: usize = 0;
    while i < x.len()
        invariant
            i <= x.len(),
            x.len() == y.len(),
            x@ == a.spec_bytes(),
            y@ == b.spec_bytes(),
            forall|k: int| 0 <= k < i ==> x@[k] == y@[k],
        decreases x.len() - i,
    {
        if x[i] != y[i] {
            return false;
        }
        i += 1;
    }
    assert(x@ =~= y@);
    true
}

/// The length of a text and its first four characters.
///
/// Texts that differ in these are different texts, and this much is what it
/// takes to tell the keys of one protocol object apart.
pub closed spec fn head(text: Seq<char>) -> (nat, char, char, char, char) {
    (text.len(), text[0], text[1], text[2], text[3])
}

/// What `head` is made of.
pub proof fn lemma_head(text: Seq<char>)
    ensures
        head(text) == (text.len(), text[0], text[1], text[2], text[3]),
{
}

} // verus!
