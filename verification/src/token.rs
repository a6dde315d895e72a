//! The confirmation-token generator: a 25-character string drawn uniformly
//! from the alphanumeric alphabet, 62 symbols per character.

use vstd::prelude::*;

verus! {

/// The alphabet a token is drawn from: ASCII digits and letters.
pub open spec fn is_alphanumeric_char(c: char) -> bool {
    ('0' <= c && c <= '9') || ('A' <= c && c <= 'Z') || ('a' <= c && c <= 'z')
}

/// The number of characters in a token.
pub const TOKEN_LENGTH: usize = 25;

/// What a well-formed confirmation token looks like: exactly
/// [`TOKEN_LENGTH`] characters, all alphanumeric.
pub open spec fn valid_token(t: Seq<char>) -> bool {
    &&& t.len() == TOKEN_LENGTH
    &&& forall|i: int| 0 <= i < t.len() ==> is_alphanumeric_char(#[trigger] t[i])
}

/// Relies on rand's `Alphanumeric` distribution: sampling it yields one byte
/// drawn uniformly from `A`-`Z`, `a`-`z` and `0`-`9`.
#[verifier::external_body]
fn sample_alphanumeric_byte() -> (r: u8)
    ensures
        (48 <= r && r <= 57) || (65 <= r && r <= 90) || (97 <= r && r <= 122),
{
    rand::Rng::sample(&mut rand::rng(), rand::distr::Alphanumeric)
}

/// Relies on std's `String::push`: appends exactly the given character.
#[verifier::external_body]
fn push_char(s: &mut String, c: char)
    ensures
        final(s)@ == old(s)@.push(c),
{
    s.push(c)
}

/// Draws a fresh confirmation token: 25 characters, uniformly random over the
/// 62-symbol alphanumeric alphabet.  Which token comes back depends on the
/// random source; that it is well-formed does not.
pub fn generate_subscription_token() -> (r: String)
    ensures
        valid_token(r@),
{
    let mut token = String::new();
    let mut i: usize = 0;
    while i < TOKEN_LENGTH
        invariant
            i <= TOKEN_LENGTH,
            token@.len() == i,
            forall|j: int| 0 <= j < i ==> is_alphanumeric_char(#[trigger] token@[j]),
        decreases TOKEN_LENGTH - i,
    {
        let b = sample_alphanumeric_byte();
        let c = b as char;
        push_char(&mut token, c);
        i += 1;
    }
    token
}

} // verus!
