use vstd::prelude::*;

verus! {

/// The length in bytes of the text `content`, as a string holds it in UTF-8.
pub open spec fn utf8_len(content: Seq<char>) -> usize {
    vstd::utf8::encode_utf8(content).len() as usize
}

} // verus!
