//! Small verified helpers over strings, and the one trusted lowercasing call.

use vstd::prelude::*;

verus! {

/// The lowercased form of a sequence of characters, as `str::to_lowercase`
/// computes it. The mapping is left unnamed beyond this: contracts that speak
/// of a lowercased name speak of it through this function.
pub uninterp spec fn lower_of(s: Seq<char>) -> Seq<char>;

/// Relies on `str::to_lowercase`: the result depends on the characters of the
/// input alone.
#[verifier::external_body]
pub fn lowercase(s: &str) -> (r: String)
    ensures
        r@ == lower_of(s@),
{
    s.to_lowercase()
}

/// Whether two string slices hold the same characters.
pub fn str_eq(a: &str, b: &str) -> (r: bool)
    ensures
        r == (a@ == b@),
{
    let owned_a = a.to_owned();
    let owned_b = b.to_owned();
    owned_a == owned_b
}

} // verus!
