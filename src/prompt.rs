//! Reading a yes/no answer.
use vstd::prelude::*;
use vstd::string::*;

verus! {

/// A text without its leading and trailing whitespace.
pub uninterp spec fn trimmed_of(s: Seq<char>) -> Seq<char>;

/// Relies on `str::trim`: `s` without leading and trailing whitespace, which
/// depends on the text alone.
#[verifier::external_body]
fn trim(s: &str) -> (r: &str)
    ensures
        r@ == trimmed_of(s@),
{
    s.trim()
}

/// Whether an already trimmed answer is exactly `y`.
pub fn is_yes_trimmed(trimmed: &str) -> (r: bool)
    ensures
        r == (trimmed@ == seq!['y']),
{
    let r = trimmed.unicode_len() == 1 && trimmed.get_char(0) == 'y';
    proof {
        if trimmed@.len() == 1 {
            assert(r ==> trimmed@ =~= seq!['y']);
        }
    }
    r
}

/// Whether an answer typed at a prompt means yes: `y`, with any whitespace
/// around it.
pub fn is_yes(answer: &str) -> (r: bool)
    ensures
        r == (trimmed_of(answer@) == seq!['y']),
{
    is_yes_trimmed(trim(answer))
}

} // verus!
