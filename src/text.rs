use vstd::prelude::*;

verus! {

/// Relies on str::chars (collected): yields the characters of the string in order.
#[verifier::external_body]
pub(crate) fn chars_of(s: &str) -> (r: Vec<char>)
    ensures
        r@ == s@,
{
    s.chars().collect()
}

/// Relies on String::push: appends one character at the end.
#[verifier::external_body]
pub(crate) fn push_char(s: &mut String, c: char)
    ensures
        final(s)@ == old(s)@.push(c),
{
    s.push(c)
}

/// Relies on String::with_capacity: a new empty string.
#[verifier::external_body]
pub(crate) fn string_with_capacity(n: usize) -> (r: String)
    ensures
        r@.len() == 0,
{
    String::with_capacity(n)
}

} // verus!
