//! Building text: hexadecimal numbers, appended to a `String`.

use vstd::prelude::*;

verus! {

/// The upper-case hexadecimal digit for `d`, which is below sixteen.
pub open spec fn digit_char(d: int) -> char {
    if d < 10 {
        (48 + d) as char
    } else {
        (55 + d) as char
    }
}

/// `value` in upper-case hexadecimal, with zeros in front up to `width`
/// digits, and with more digits than that if it needs them.
pub open spec fn upper_hex(value: nat, width: nat) -> Seq<char>
    decreases value + width,
{
    if value < 16 && width <= 1 {
        seq![digit_char(value as int)]
    } else {
        upper_hex(
            value / 16,
            if width > 0 {
                (width - 1) as nat
            } else {
                0
            },
        ).push(digit_char((value % 16) as int))
    }
}

/// `String::push`: the character is appended at the end of the text, which
/// is otherwise unchanged. It panics only where memory runs out.
#[verifier::external_body]
pub(crate) fn push_char(text: &mut String, c: char)
    ensures
        final(text)@ == old(text)@.push(c),
{
    text.push(c)
}

/// `String::push_str`: the slice is appended at the end of the text, which
/// is otherwise unchanged. It panics only where memory runs out.
#[verifier::external_body]
pub(crate) fn push_text(text: &mut String, tail: &str)
    ensures
        final(text)@ == old(text)@ + tail@,
{
    text.push_str(tail)
}

/// The character of a hexadecimal digit.
fn digit(d: u8) -> (c: char)
    requires
        d < 16,
    ensures
        c == digit_char(d as int),
{
    if d < 10 {
        (48 + d) as char
    } else {
        (55 + d) as char
    }
}

/// Appends `value` in upper-case hexadecimal, at least `width` digits wide.
pub fn push_upper_hex(text: &mut String, value: usize, width: usize)
    ensures
        final(text)@ == old(text)@ + upper_hex(value as nat, width as nat),
    decreases value + width,
{
    if value >= 16 || width > 1 {
        let rest = if width > 0 {
            width - 1
        } else {
            0
        };
        push_upper_hex(text, value / 16, rest);
    }
    push_char(text, digit((value % 16) as u8));
}

} // verus!
