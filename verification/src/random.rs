//! The calls into the `rand` crate. What they hand back is a matter of
//! chance, so their contracts say only what holds of every outcome.

use vstd::prelude::*;
use rand::distr::{Alphanumeric, SampleString};

verus! {

/// An ASCII letter or digit.
pub open spec fn is_alphanumeric(c: char) -> bool {
    ||| ('a' <= c && c <= 'z')
    ||| ('A' <= c && c <= 'Z')
    ||| ('0' <= c && c <= '9')
}

/// Every character of `text` is an ASCII letter or digit.
pub open spec fn all_alphanumeric(text: Seq<char>) -> bool {
    forall|i: int| 0 <= i < text.len() ==> is_alphanumeric(#[trigger] text[i])
}

/// `SampleString::sample_string` of `rand::distr::Alphanumeric` on the
/// thread's generator: `len` characters, each an ASCII letter or digit.
#[verifier::external_body]
pub(crate) fn random_alphanumeric(len: usize) -> (text: String)
    ensures
        text@.len() == len,
        all_alphanumeric(text@),
{
    Alphanumeric.sample_string(&mut rand::rng(), len)
}

/// `rand::random::<u16>`: any 16-bit number.
#[verifier::external_body]
pub(crate) fn random_u16() -> u16 {
    rand::random::<u16>()
}

} // verus!
