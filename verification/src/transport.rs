//! Reading of the errors that a subscription's stream hands out.
//!
//! The transport names a lost connection in the text of its error. An error
//! whose text holds the word `Disconnect` ends the subscription; any other
//! is passed over.

use vstd::prelude::*;
use vstd::string::StringSliceAdditionalSpecFns;
use vstd::utf8::encode_utf8;

verus! {

/// Whether `needle` stands in `haystack` at the offset `at`.
pub open spec fn occurs_at(haystack: Seq<u8>, needle: Seq<u8>, at: int) -> bool {
    &&& 0 <= at
    &&& at + needle.len() <= haystack.len()
    &&& haystack.subrange(at, at + needle.len()) == needle
}

/// Whether `needle` stands somewhere in `haystack`.
pub open spec fn occurs_in(haystack: Seq<u8>, needle: Seq<u8>) -> bool {
    exists|at: int| occurs_at(haystack, needle, at)
}

/// Whether a text of an error names a lost connection: whether the bytes
/// of `Disconnect` stand somewhere in the bytes of the text.
pub open spec fn names_disconnect(text: Seq<char>) -> bool {
    occurs_in(encode_utf8(text), encode_utf8("Disconnect"@))
}

/// Whether `needle` stands in `haystack` at the offset `at`.
fn matches_at(haystack: &[u8], needle: &[u8], at: usize) -> (matched: bool)
    requires
        at + needle@.len() <= haystack@.len(),
    ensures
        matched == occurs_at(haystack@, needle@, at as int),
{
    let len = needle.len();
    let total = haystack.len();
    let mut i: usize = 0;
    while i < len
        invariant
            len == needle@.len(),
            total == haystack@.len(),
            at + len <= total,
            i <= len,
            forall|k: int| 0 <= k < i ==> haystack@[at + k] == needle@[k],
        decreases len - i,
    {
        if haystack[at + i] != needle[i] {
            assert(haystack@.subrange(at as int, at + len)[i as int] != needle@[i as int]);
            return false;
        }
        i += 1;
    }
    assert(haystack@.subrange(at as int, at + len) =~= needle@);
    true
}

/// Whether `needle` stands somewhere in `haystack`.
pub fn contains_bytes(haystack: &[u8], needle: &[u8]) -> (found: bool)
    ensures
        found == occurs_in(haystack@, needle@),
{
    let n = haystack.len();
    let m = needle.len();
    if m > n {
        return false;
    }
    let last = n - m;
    let mut at: usize = 0;
    loop
        invariant
            n == haystack@.len(),
            m == needle@.len(),
            last == n - m,
            at <= last,
            forall|k: int| 0 <= k < at ==> !occurs_at(haystack@, needle@, k),
        decreases last - at,
    {
        if matches_at(haystack, needle, at) {
            return true;
        }
        if at == last {
            return false;
        }
        at += 1;
    }
}

/// Whether the text of a stream's error names a lost connection.
pub fn is_disconnect(description: &str) -> (lost: bool)
    ensures
        lost == names_disconnect(description@),
{
    contains_bytes(description.as_bytes(), "Disconnect".as_bytes())
}

} // verus!
