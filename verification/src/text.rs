//! Building text: decimal numbers and concatenation.

use vstd::prelude::*;
use vstd::string::*;
use vstd::utf8::encode_utf8;

verus! {

/// The texts that a sequence of strings holds.
pub open spec fn texts(strings: Seq<String>) -> Seq<Seq<char>> {
    Seq::new(strings.len(), |i: int| strings[i]@)
}

/// `text` in lower case, as the Unicode character database defines it.
pub uninterp spec fn lowercase(text: Seq<char>) -> Seq<char>;

/// `str::to_lowercase`: the lower-case form of `text`, which the contract
/// names.
#[verifier::external_body]
pub(crate) fn to_lowercase(text: &str) -> (lowered: String)
    ensures
        lowered@ == lowercase(text@),
{
    text.to_lowercase()
}

/// `text` with each occurrence of the character `from` replaced by `to`.
pub open spec fn replaced(text: Seq<char>, from: char, to: Seq<char>) -> Seq<char>
    decreases text.len(),
{
    if text.len() == 0 {
        Seq::empty()
    } else {
        replaced(text.drop_last(), from, to) + if text.last() == from {
            to
        } else {
            seq![text.last()]
        }
    }
}

/// `str::replace` with a character as the pattern: a copy of `text` in which
/// `to` stands in place of each `from`.
#[verifier::external_body]
pub(crate) fn replace_char(text: &str, from: char, to: &str) -> (result: String)
    ensures
        result@ == replaced(text@, from, to@),
{
    text.replace(from, to)
}

/// The length of `text` in bytes, encoded as UTF-8.
pub open spec fn byte_len(text: Seq<char>) -> usize {
    encode_utf8(text).len() as usize
}

/// The character `c`, `count` times.
pub open spec fn repeated(c: char, count: int) -> Seq<char> {
    Seq::new(
        if count > 0 {
            count as nat
        } else {
            0
        },
        |i: int| c,
    )
}

/// `text`, filled up with spaces behind it to `width` characters.
pub open spec fn padded_right(text: Seq<char>, width: int) -> Seq<char> {
    text + repeated(' ', width - text.len())
}

/// `text`, filled up with spaces before it to `width` characters.
pub open spec fn padded_left(text: Seq<char>, width: int) -> Seq<char> {
    repeated(' ', width - text.len()) + text
}

/// `lines` with `separator` between each two neighbours.
pub open spec fn joined(lines: Seq<Seq<char>>, separator: Seq<char>) -> Seq<char>
    decreases lines.len(),
{
    if lines.len() == 0 {
        Seq::empty()
    } else if lines.len() == 1 {
        lines[0]
    } else {
        joined(lines.drop_last(), separator) + separator + lines.last()
    }
}

/// `n` written in base ten, with a minus sign where it is negative.
pub open spec fn signed_decimal(n: int) -> Seq<char> {
    if n < 0 {
        "-"@ + decimal((-n) as nat)
    } else {
        decimal(n as nat)
    }
}

/// The character that stands for the digit `d`.
pub open spec fn decimal_digit(d: int) -> char
    recommends
        0 <= d < 10,
{
    if d == 0 {
        '0'
    } else if d == 1 {
        '1'
    } else if d == 2 {
        '2'
    } else if d == 3 {
        '3'
    } else if d == 4 {
        '4'
    } else if d == 5 {
        '5'
    } else if d == 6 {
        '6'
    } else if d == 7 {
        '7'
    } else if d == 8 {
        '8'
    } else {
        '9'
    }
}

/// `n` written in base ten, without leading zeros.
pub open spec fn decimal(n: nat) -> Seq<char>
    decreases n,
{
    if n < 10 {
        seq![decimal_digit(n as int)]
    } else {
        decimal(n / 10).push(decimal_digit((n % 10) as int))
    }
}

/// The one-character text of a digit.
fn digit_text(d: u64) -> (text: &'static str)
    requires
        d < 10,
    ensures
        text@ == seq![decimal_digit(d as int)],
{
    proof {
        reveal_strlit("0");
        reveal_strlit("1");
        reveal_strlit("2");
        reveal_strlit("3");
        reveal_strlit("4");
        reveal_strlit("5");
        reveal_strlit("6");
        reveal_strlit("7");
        reveal_strlit("8");
        reveal_strlit("9");
    }
    let text = if d == 0 {
        "0"
    } else if d == 1 {
        "1"
    } else if d == 2 {
        "2"
    } else if d == 3 {
        "3"
    } else if d == 4 {
        "4"
    } else if d == 5 {
        "5"
    } else if d == 6 {
        "6"
    } else if d == 7 {
        "7"
    } else if d == 8 {
        "8"
    } else {
        "9"
    };
    text
}

/// Appends `n` in base ten to `out`.
pub fn append_decimal(out: &mut String, n: u64)
    ensures
        final(out)@ == old(out)@ + decimal(n as nat),
    decreases n,
{
    if n >= 10 {
        append_decimal(out, n / 10);
    }
    out.append(digit_text(n % 10));
}

/// Appends the one character of `unit` to `out`, `count` times.
pub fn append_repeated(out: &mut String, unit: &str, count: usize)
    requires
        unit@.len() == 1,
    ensures
        final(out)@ == old(out)@ + repeated(unit@[0], count as int),
{
    let mut done: usize = 0;
    while done < count
        invariant
            done <= count,
            unit@.len() == 1,
            out@ == old(out)@ + repeated(unit@[0], done as int),
        decreases count - done,
    {
        out.append(unit);
        done += 1;
    }
}

/// Appends `text` to `out`, filled up with spaces behind it to `width`
/// characters.
pub fn append_padded_right(out: &mut String, text: &str, width: usize)
    ensures
        final(out)@ == old(out)@ + padded_right(text@, width as int),
{
    let length = text.unicode_len();
    out.append(text);
    proof {
        reveal_strlit(" ");
    }
    if width > length {
        append_repeated(out, " ", width - length);
    }
}

/// Appends `text` to `out`, filled up with spaces before it to `width`
/// characters.
pub fn append_padded_left(out: &mut String, text: &str, width: usize)
    ensures
        final(out)@ == old(out)@ + padded_left(text@, width as int),
{
    let length = text.unicode_len();
    proof {
        reveal_strlit(" ");
    }
    if width > length {
        append_repeated(out, " ", width - length);
    }
    out.append(text);
}

/// Joins `lines` with a line feed between each two neighbours.
pub fn join_lines(lines: &Vec<String>) -> (output: String)
    ensures
        output@ == joined(texts(lines@), "\n"@),
{
    let mut output = String::new();
    let mut i: usize = 0;
    while i < lines.len()
        invariant
            i <= lines@.len(),
            output@ == joined(texts(lines@).take(i as int), "\n"@),
        decreases lines@.len() - i,
    {
        if i > 0 {
            output.append("\n");
        }
        output.append(lines[i].as_str());
        assert(texts(lines@).take(i + 1).drop_last() =~= texts(lines@).take(i as int));
        i += 1;
    }
    assert(texts(lines@).take(i as int) =~= texts(lines@));
    output
}

/// Appends `n` in base ten to `out`, with a minus sign where it is negative.
pub fn append_signed_decimal(out: &mut String, n: i64)
    ensures
        final(out)@ == old(out)@ + signed_decimal(n as int),
{
    if n < 0 {
        out.append("-");
        // -(n + 1) cannot overflow, whatever n is
        let magnitude: u64 = (-(n + 1)) as u64 + 1;
        append_decimal(out, magnitude);
    } else {
        append_decimal(out, n as u64);
    }
}

} // verus!
