//! Small verified helpers over `&str` and `String`.

use vstd::prelude::*;
use vstd::string::*;

verus! {

/// Character-for-character equality of two string slices.
pub fn str_eq(a: &str, b: &str) -> (r: bool)
    ensures
        r == (a@ == b@),
{
    let sa = a.to_owned();
    let sb = b.to_owned();
    sa == sb
}

/// Character-for-character equality of a `String` and a string slice.
pub fn string_eq_str(a: &String, b: &str) -> (r: bool)
    ensures
        r == (a@ == b@),
{
    let sb = b.to_owned();
    *a == sb
}

/// The concatenation of two string slices as a fresh `String`.
pub fn str_concat(a: &str, b: &str) -> (r: String)
    ensures
        r@ == a@ + b@,
{
    let sa = a.to_owned();
    sa.concat(b)
}

/// Copy a list of string pairs element by element.
#[verifier::loop_isolation(false)]
pub fn clone_string_pairs(h: &Vec<(String, String)>) -> (r: Vec<(String, String)>)
    ensures
        r@ == h@,
{
    let n = h.len();
    let mut r: Vec<(String, String)> = Vec::new();
    let mut i: usize = 0;
    while i < n
        invariant
            i <= n,
            r@.len() == i,
            forall|k: int| 0 <= k < i ==> r@[k] == h@[k],
        decreases n - i,
    {
        let pair = (h[i].0.clone(), h[i].1.clone());
        proof {
            assert(pair == h@[i as int]);
        }
        r.push(pair);
        i = i + 1;
    }
    proof {
        assert(r@ =~= h@);
    }
    r
}

} // verus!
