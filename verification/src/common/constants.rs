use vstd::prelude::*;

verus! {

/// Longest name of a charity, in bytes of UTF-8. The name is one of the seeds
/// of the charity's address, and a seed holds at most this many bytes.
pub const CHARITY_NAME_MAX_LEN: usize = 32;

/// Longest description of a charity, in bytes of UTF-8.
pub const CHARITY_DESCRIPTION_MAX_LEN: usize = 100;

/// The length of a text as the program measures it: its bytes in UTF-8.
pub open spec fn utf8_len(text: Seq<char>) -> nat {
    vstd::utf8::encode_utf8(text).len()
}

/// The length of `text` in bytes.
pub fn byte_len(text: &String) -> (len: usize)
    ensures
        len == utf8_len(text@),
{
    text.as_str().as_bytes().len()
}

} // verus!
