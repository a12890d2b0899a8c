//! Character-level helpers for building the strings the editor shows and stores.

use vstd::prelude::*;
use vstd::string::*;

verus! {

/// `String::push` from the standard library: appends the single character
/// `c` to the end of `s` and changes nothing else.
#[verifier::external_body]
pub(crate) fn push_char(s: &mut String, c: char)
    ensures
        final(s)@ == old(s)@.push(c),
{
    s.push(c);
}

/// The decimal digit that stands for `d`, for `d` below ten.
pub open spec fn digit_char(d: nat) -> char {
    if d == 0 {
        '0'
    } else if d == 1 {
        '1'
    } else if d == 2 {
        '2'
    } else if d == 3 {
        '3'
    } else if d == 4 {
        '4'
    } else if d == 5 {
        '5'
    } else if d == 6 {
        '6'
    } else if d == 7 {
        '7'
    } else if d == 8 {
        '8'
    } else {
        '9'
    }
}

/// `n` written in base ten, most significant digit first, without leading zeros.
pub open spec fn decimal(n: nat) -> Seq<char>
    decreases n,
{
    if n < 10 {
        seq![digit_char(n)]
    } else {
        decimal(n / 10).push(digit_char(n % 10))
    }
}

/// `count` copies of `c`.
pub open spec fn repeated(c: char, count: nat) -> Seq<char> {
    Seq::new(count, |i: int| c)
}

/// `s` moved to the right edge of a field of `width` columns by blanks in
/// front of it; a longer `s` is left as it is.
pub open spec fn right_aligned(s: Seq<char>, width: nat) -> Seq<char> {
    if s.len() < width {
        repeated(' ', (width - s.len()) as nat) + s
    } else {
        s
    }
}

/// The three dots that stand for the part of a line that does not fit.
pub open spec fn ellipsis() -> Seq<char> {
    seq!['.', '.', '.']
}

/// `line` as it is shown in `width` columns: unchanged where it fits,
/// otherwise cut so that the dots end at the last column. With fewer than
/// three columns only the dots are left.
pub open spec fn clipped(line: Seq<char>, width: nat) -> Seq<char> {
    if line.len() <= width {
        line
    } else if width >= 3 {
        line.take(width - 3) + ellipsis()
    } else {
        ellipsis()
    }
}

fn digit_of(d: u128) -> (c: char)
    requires
        d < 10,
    ensures
        c == digit_char(d as nat),
{
    if d == 0 {
        '0'
    } else if d == 1 {
        '1'
    } else if d == 2 {
        '2'
    } else if d == 3 {
        '3'
    } else if d == 4 {
        '4'
    } else if d == 5 {
        '5'
    } else if d == 6 {
        '6'
    } else if d == 7 {
        '7'
    } else if d == 8 {
        '8'
    } else {
        '9'
    }
}

/// Appends the decimal numeral of `n` to `out`.
pub fn push_decimal(out: &mut String, n: u128)
    ensures
        final(out)@ == old(out)@ + decimal(n as nat),
    decreases n,
{
    if n >= 10 {
        push_decimal(out, n / 10);
    }
    push_char(out, digit_of(n % 10));
}

/// Appends `count` copies of `c` to `out`.
pub fn push_repeated(out: &mut String, c: char, count: usize)
    ensures
        final(out)@ == old(out)@ + repeated(c, count as nat),
{
    let mut done: usize = 0;
    while done < count
        invariant
            done <= count,
            out@ == old(out)@ + repeated(c, done as nat),
        decreases count - done,
    {
        push_char(out, c);
        done += 1;
    }
}

/// Appends the first `count` characters of `chars` to `out`.
pub fn push_prefix(out: &mut String, chars: &Vec<char>, count: usize)
    requires
        count <= chars@.len(),
    ensures
        final(out)@ == old(out)@ + chars@.take(count as int),
{
    let mut done: usize = 0;
    while done < count
        invariant
            done <= count <= chars@.len(),
            out@ == old(out)@ + chars@.take(done as int),
        decreases count - done,
    {
        push_char(out, chars[done]);
        done += 1;
    }
}

/// Appends all of `chars` to `out`.
pub fn push_chars(out: &mut String, chars: &Vec<char>)
    ensures
        final(out)@ == old(out)@ + chars@,
{
    push_prefix(out, chars, chars.len());
}

/// The numeral of `n`, right-aligned in `width` columns.
pub fn right_aligned_decimal(n: u128, width: usize) -> (field: String)
    ensures
        field@ == right_aligned(decimal(n as nat), width as nat),
{
    let mut digits = String::new();
    push_decimal(&mut digits, n);
    let used = digits.as_str().unicode_len();
    let mut field = String::new();
    if used < width {
        push_repeated(&mut field, ' ', width - used);
    }
    field.append(digits.as_str());
    field
}

/// The text of `line` as it is shown in `width` columns.
pub fn clip(line: &Vec<char>, width: usize) -> (shown: String)
    ensures
        shown@ == clipped(line@, width as nat),
{
    let mut shown = String::new();
    if line.len() <= width {
        push_chars(&mut shown, line);
    } else {
        let kept: usize = if width >= 3 { width - 3 } else { 0 };
        push_prefix(&mut shown, line, kept);
        push_repeated(&mut shown, '.', 3);
    }
    shown
}

} // verus!
