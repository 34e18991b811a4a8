use vstd::prelude::*;

verus! {

/// The decimal digit character for a value below ten.
pub open spec fn dec_char_of(n: int) -> char {
    if n == 0 {
        '0'
    } else if n == 1 {
        '1'
    } else if n == 2 {
        '2'
    } else if n == 3 {
        '3'
    } else if n == 4 {
        '4'
    } else if n == 5 {
        '5'
    } else if n == 6 {
        '6'
    } else if n == 7 {
        '7'
    } else if n == 8 {
        '8'
    } else {
        '9'
    }
}

/// The decimal representation of a natural number, most significant digit first.
pub open spec fn dec_of(n: nat) -> Seq<char>
    decreases n,
{
    if n < 10 {
        seq![dec_char_of(n as int)]
    } else {
        dec_of(n / 10) + seq![dec_char_of((n % 10) as int)]
    }
}

/// Relies on std's `String::push_str`: appends the slice's characters to the string.
#[verifier::external_body]
pub fn push_str(s: &mut String, t: &str)
    ensures
        final(s)@ == old(s)@ + t@,
{
    s.push_str(t)
}

/// Relies on std's `String::push`: appends one character to the string.
#[verifier::external_body]
pub fn push_char(s: &mut String, c: char)
    ensures
        final(s)@ == old(s)@.push(c),
{
    s.push(c)
}

fn dec_char(n: usize) -> (c: char)
    requires
        n < 10,
    ensures
        c == dec_char_of(n as int),
{
    if n == 0 {
        '0'
    } else if n == 1 {
        '1'
    } else if n == 2 {
        '2'
    } else if n == 3 {
        '3'
    } else if n == 4 {
        '4'
    } else if n == 5 {
        '5'
    } else if n == 6 {
        '6'
    } else if n == 7 {
        '7'
    } else if n == 8 {
        '8'
    } else {
        '9'
    }
}

/// Appends the decimal representation of `n` to `s`.
pub fn push_dec(s: &mut String, n: usize)
    ensures
        final(s)@ == old(s)@ + dec_of(n as nat),
    decreases n,
{
    if n >= 10 {
        push_dec(s, n / 10);
        let c = dec_char(n % 10);
        push_char(s, c);
        proof {
            assert((old(s)@ + dec_of((n / 10) as nat)).push(dec_char_of((n % 10) as int))
                =~= old(s)@ + dec_of(n as nat));
        }
    } else {
        let c = dec_char(n);
        push_char(s, c);
        proof {
            assert(old(s)@ + dec_of(n as nat) =~= old(s)@.push(dec_char_of(n as int)));
        }
    }
}

} // verus!
