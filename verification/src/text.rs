//! Operations on text that the tables and the plans need.

use vstd::prelude::*;
use vstd::string::StrSliceExecFns;

verus! {

/// Whether `text` begins with `prefix`, character by character.
pub fn starts_with(text: &str, prefix: &str) -> (r: bool)
    ensures
        r == prefix@.is_prefix_of(text@),
{
    let n = prefix.unicode_len();
    let m = text.unicode_len();
    if n > m {
        return false;
    }
    let mut i: usize = 0;
    while i < n && prefix.get_char(i) == text.get_char(i)
        invariant
            i <= n,
            n == prefix@.len(),
            m == text@.len(),
            n <= m,
            forall|j: int| 0 <= j < i ==> prefix@[j] == text@[j],
        decreases n - i,
    {
        i += 1;
    }
    proof {
        if i == n {
            assert(prefix@ =~= text@.subrange(0, n as int));
        } else {
            assert(text@.subrange(0, n as int)[i as int] == text@[i as int]);
        }
    }
    i == n
}

/// The text that `str::replace` of the standard library gives for
/// `text`, the pattern `from` and the replacement `to`: `text` with every
/// match of `from`, taken from the left and without overlap, replaced by
/// `to`.
pub uninterp spec fn replaced(text: Seq<char>, from: Seq<char>, to: Seq<char>) -> Seq<char>;

/// `text` with every match of `from` replaced by `to`.
///
/// Rests on `str::replace` of the standard library, called with a string
/// as the pattern. The contract only names the result.
#[verifier::external_body]
pub(crate) fn replace(text: &str, from: &str, to: &str) -> (r: String)
    ensures
        r@ == replaced(text@, from@, to@),
{
    text.replace(from, to)
}

} // verus!
