//! Short codes drawn at random from the alphanumeric alphabet.

use vstd::prelude::*;

verus! {

/// How many characters a generated code has.
pub const GENERATED_CODE_LEN: usize = 6;

/// `b` is the ASCII code of a letter or a digit.
pub open spec fn is_alphanumeric_byte(b: u8) -> bool {
    (65 <= b && b <= 90) || (97 <= b && b <= 122) || (48 <= b && b <= 57)
}

/// `c` is an ASCII letter or digit: one of the 62 symbols `[A-Za-z0-9]`.
pub open spec fn is_alphanumeric_char(c: char) -> bool {
    ('A' <= c && c <= 'Z') || ('a' <= c && c <= 'z') || ('0' <= c && c <= '9')
}

/// The shape of every generated code: six characters of `[A-Za-z0-9]`.
pub open spec fn is_generated_code(s: Seq<char>) -> bool {
    &&& s.len() == GENERATED_CODE_LEN
    &&& forall|i: int| 0 <= i < s.len() ==> #[trigger] is_alphanumeric_char(s[i])
}

/// Relies on rand's `Alphanumeric` distribution sampled from `rand::rng()`,
/// the thread-local generator: each draw is one byte of
/// `ABCDEFGHIJKLMNOPQRSTUVWXYZabcdefghijklmnopqrstuvwxyz0123456789`.
/// Which byte comes is chance, so only its alphabet is stated. `rand::rng()`
/// panics only where the operating system cannot seed the generator.
#[verifier::external_body]
fn draw_alphanumeric() -> (r: u8)
    ensures
        is_alphanumeric_byte(r),
{
    rand::Rng::sample(&mut rand::rng(), rand::distr::Alphanumeric)
}

/// Relies on `String::push`: appends one character at the end.
#[verifier::external_body]
fn push_char(s: &mut String, c: char)
    ensures
        final(s)@ == old(s)@.push(c),
{
    s.push(c)
}

/// A fresh random code of six alphanumeric characters.
pub fn generate_code() -> (r: String)
    ensures
        is_generated_code(r@),
{
    let mut code = String::new();
    let mut i: usize = 0;
    while i < GENERATED_CODE_LEN
        invariant
            i <= GENERATED_CODE_LEN,
            code@.len() == i,
            forall|j: int| 0 <= j < code@.len() ==> #[trigger] is_alphanumeric_char(code@[j]),
        decreases GENERATED_CODE_LEN - i,
    {
        let b = draw_alphanumeric();
        let c = b as char;
        push_char(&mut code, c);
        i = i + 1;
    }
    code
}

} // verus!
