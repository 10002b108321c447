//! Small string routines that show how shared and exclusive borrows of one
//! owned `String` may be used: reading through a shared reference, changing
//! through an exclusive one, and several shared references that read alike.

use vstd::prelude::*;
use vstd::string::*;
use vstd::utf8::{encode_utf8, is_ascii_chars};

verus! {

broadcast use vstd::string::group_string_axioms;

/// Length in bytes of the UTF-8 encoding of `chars`.
pub open spec fn utf8_len(chars: Seq<char>) -> nat {
    encode_utf8(chars).len()
}

/// Byte length of `s`, read through a shared reference.
///
/// For text made of ASCII characters only, this is its number of characters.
pub fn calculate_len(s: &String) -> (r: usize)
    ensures
        r == utf8_len(s@),
        is_ascii_chars(s@) ==> r == s@.len(),
{
    let t: &str = s.as_str();
    proof {
        is_ascii_spec_bytes(t);
    }
    let bytes: &[u8] = t.as_bytes();
    bytes.len()
}

/// The text that `allowed_change` appends.
pub open spec fn world_suffix() -> Seq<char> {
    ", world!"@
}

/// Appends `", world!"` to `s`, through an exclusive reference.
pub fn allowed_change(s: &mut String)
    ensures
        final(s)@ == old(s)@ + world_suffix(),
{
    s.append(", world!");
}

/// Takes two shared references to one owned string at once; both read the
/// same text, which stays as it was made.
pub fn borrow_after_immutable_reference() {
    let s1: String = "Hello, world!".to_owned();
    let r1: &String = &s1;
    let r2: &String = &s1;
    assert(r1@ == r2@);
    assert(r1@ == "Hello, world!"@);
}

} // verus!
