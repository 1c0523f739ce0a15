//! Generation of the random identifiers that scope queue traffic: ten
//! ASCII letters or digits. They only demultiplex one client's messages on
//! a shared stream; they are not credentials.

use vstd::prelude::*;

verus! {

/// A character allowed in a generated identifier: an ASCII letter or digit.
pub open spec fn is_id_char(c: char) -> bool {
    ('a' <= c && c <= 'z') || ('A' <= c && c <= 'Z') || ('0' <= c && c <= '9')
}

/// Every character of `s` is an identifier character.
pub open spec fn spec_id_chars(s: Seq<char>) -> bool {
    forall|i: int| 0 <= i < s.len() ==> is_id_char(s[i])
}

/// Relies on rand's `Alphanumeric` distribution and its `sample_string`:
/// the sample is exactly the requested number of bytes, each drawn from
/// the 62 ASCII letters and digits.
#[verifier::external_body]
fn random_alphanumeric_10() -> (r: String)
    ensures
        r@.len() == 10,
        spec_id_chars(r@),
{
    rand::distr::SampleString::sample_string(&rand::distr::Alphanumeric, &mut rand::rng(), 10)
}

/// A fresh session identifier: ten random ASCII letters or digits.
pub fn new_session_hash() -> (r: String)
    ensures
        r@.len() == 10,
        spec_id_chars(r@),
{
    random_alphanumeric_10()
}

} // verus!
