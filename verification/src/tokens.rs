//! Random identifiers for presets and sponsors, and API keys.

use vstd::prelude::*;
use rand::Rng;

verus! {

/// A number drawn uniformly below `n` with `rand::thread_rng().gen_range(0..n)`.
/// `gen_range` panics on an empty range, which `requires` leaves out. The contract
/// claims only the bound; the draw is left unsaid.
#[verifier::external_body]
fn random_below(n: usize) -> (r: usize)
    requires
        n > 0,
    ensures
        r < n,
{
    rand::thread_rng().gen_range(0..n)
}

/// The characters of identifiers and keys: ASCII letters and digits.
pub open spec fn token_alphabet() -> Seq<char> {
    "ABCDEFGHIJKLMNOPQRSTUVWXYZabcdefghijklmnopqrstuvwxyz0123456789"@
}

/// A random identifier of `len` letters and digits.
pub fn random_token(len: usize) -> (r: String)
    ensures
        r@.len() == len,
        forall|i: int| 0 <= i < len ==> token_alphabet().contains(#[trigger] r@[i]),
{
    let alphabet = "ABCDEFGHIJKLMNOPQRSTUVWXYZabcdefghijklmnopqrstuvwxyz0123456789";
    proof {
        reveal_strlit("ABCDEFGHIJKLMNOPQRSTUVWXYZabcdefghijklmnopqrstuvwxyz0123456789");
    }
    let n = alphabet.unicode_len();
    let mut r = String::new();
    let mut i: usize = 0;
    while i < len
        invariant
            n == token_alphabet().len(),
            alphabet@ == token_alphabet(),
            n == 62,
            i <= len,
            r@.len() == i,
            forall|k: int| 0 <= k < i ==> token_alphabet().contains(#[trigger] r@[k]),
        decreases len - i,
    {
        let j = random_below(n);
        let c = alphabet.substring_char(j, j + 1);
        let ghost before = r@;
        r.append(c);
        assert(r@[i as int] == token_alphabet()[j as int]);
        assert forall|k: int| 0 <= k < i + 1 implies token_alphabet().contains(#[trigger] r@[k]) by {
            if k < i {
                assert(r@[k] == before[k]);
            } else {
                assert(token_alphabet()[j as int] == r@[k]);
            }
        }
        i = i + 1;
    }
    r
}

} // verus!
