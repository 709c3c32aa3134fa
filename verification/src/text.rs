//! Operations on text that the classifier relies on.

use vstd::prelude::*;
use vstd::std_specs::iter::IteratorSpec;

verus! {

broadcast use vstd::string::group_string_axioms;

/// The lower-case form of a text under the Unicode case mapping.
pub uninterp spec fn lowercase(s: Seq<char>) -> Seq<char>;

/// Calls `str::to_lowercase`. The contract gives the returned text the name
/// [`lowercase`] and claims nothing else of it: the Unicode mapping is
/// taken on trust, as a function of the input text alone.
#[verifier::external_body]
pub(crate) fn to_lowercase(s: &str) -> (r: String)
    ensures
        r@ == lowercase(s@),
{
    s.to_lowercase()
}

/// Whether `s` begins with `prefix`, compared character by character.
pub fn starts_with(s: &str, prefix: &str) -> (r: bool)
    ensures
        r == prefix@.is_prefix_of(s@),
{
    let mut rest = s.chars();
    let mut want = prefix.chars();
    let ghost mut k: int = 0;
    loop
        invariant
            0 <= k <= s@.len(),
            k <= prefix@.len(),
            rest.remaining() == s@.skip(k),
            want.remaining() == prefix@.skip(k),
            s@.take(k) == prefix@.take(k),
        decreases prefix@.len() - k,
    {
        match want.next() {
            None => {
                assert(prefix@ == prefix@.take(k));
                assert(s@.take(k) == s@.subrange(0, prefix@.len() as int));
                return true;
            },
            Some(p) => {
                match rest.next() {
                    None => {
                        return false;
                    },
                    Some(c) => {
                        if c != p {
                            assert(s@[k] != prefix@[k]);
                            return false;
                        }
                        proof {
                            assert(s@.take(k + 1) == s@.take(k).push(s@[k]));
                            assert(prefix@.take(k + 1) == prefix@.take(k).push(prefix@[k]));
                            assert(s@.skip(k).drop_first() == s@.skip(k + 1));
                            assert(prefix@.skip(k).drop_first() == prefix@.skip(k + 1));
                            k = k + 1;
                        }
                    },
                }
            },
        }
    }
}

/// Whether two texts hold the same characters in the same order.
pub fn same_text(a: &str, b: &str) -> (r: bool)
    ensures
        r == (a@ == b@),
{
    let r = starts_with(a, b) && starts_with(b, a);
    proof {
        if r {
            assert(a@.len() == b@.len());
            assert(a@ =~= b@);
        }
    }
    r
}

} // verus!
