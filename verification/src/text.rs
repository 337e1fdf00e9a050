//! Small pieces of text handling shared by the library: appending characters
//! and writing numbers in decimal.

use vstd::prelude::*;

verus! {

/// `String::push`: appends one character.
#[verifier::external_body]
pub(crate) fn push_char(s: &mut String, c: char)
    ensures
        final(s)@ == old(s)@.push(c),
{
    s.push(c);
}

/// The character of a decimal digit.
pub open spec fn digit_char(d: nat) -> char
    recommends
        d < 10,
{
    seq!['0', '1', '2', '3', '4', '5', '6', '7', '8', '9'][d as int]
}

/// Digit characters are not spaces, and different digits have different characters.
pub proof fn lemma_digit_char(d: nat, e: nat)
    requires
        d < 10,
        e < 10,
    ensures
        digit_char(d) != ' ',
        digit_char(d) == digit_char(e) ==> d == e,
{
    let s = seq!['0', '1', '2', '3', '4', '5', '6', '7', '8', '9'];
    assert(s[0] == '0' && s[1] == '1' && s[2] == '2' && s[3] == '3' && s[4] == '4');
    assert(s[5] == '5' && s[6] == '6' && s[7] == '7' && s[8] == '8' && s[9] == '9');
    assert(d == 0 || d == 1 || d == 2 || d == 3 || d == 4 || d == 5 || d == 6 || d == 7 || d == 8
        || d == 9);
    assert(e == 0 || e == 1 || e == 2 || e == 3 || e == 4 || e == 5 || e == 6 || e == 7 || e == 8
        || e == 9);
}

/// The character of the decimal digit `d`.
fn digit(d: usize) -> (c: char)
    requires
        d < 10,
    ensures
        c == digit_char(d as nat),
{
    match d {
        0 => '0',
        1 => '1',
        2 => '2',
        3 => '3',
        4 => '4',
        5 => '5',
        6 => '6',
        7 => '7',
        8 => '8',
        _ => '9',
    }
}

/// The decimal digits of a number, most significant first, without leading zeros.
pub open spec fn decimal(n: nat) -> Seq<char>
    decreases n,
{
    if n < 10 {
        seq![digit_char(n)]
    } else {
        decimal(n / 10).push(digit_char(n % 10))
    }
}

/// `n` spaces.
pub open spec fn spaces(n: nat) -> Seq<char> {
    Seq::new(n, |i: int| ' ')
}

/// A text right-aligned in a field of `width` characters: spaces in front of
/// it up to that width, nothing when it is already as wide.
pub open spec fn right_aligned(s: Seq<char>, width: nat) -> Seq<char> {
    if s.len() >= width {
        s
    } else {
        spaces((width - s.len()) as nat) + s
    }
}

pub proof fn lemma_decimal_len(n: nat)
    ensures
        1 <= decimal(n).len() <= n + 1,
    decreases n,
{
    if n >= 10 {
        lemma_decimal_len(n / 10);
    }
}

/// Appends the decimal digits of `n`.
pub fn push_decimal(s: &mut String, n: usize)
    ensures
        final(s)@ == old(s)@ + decimal(n as nat),
    decreases n,
{
    if n >= 10 {
        push_decimal(s, n / 10);
    }
    push_char(s, digit(n % 10));
    proof {
        assert(decimal(n as nat) == if n < 10 {
            seq![digit_char(n as nat)]
        } else {
            decimal((n / 10) as nat).push(digit_char((n % 10) as nat))
        });
    }
}

/// The number of decimal digits of `n`.
pub fn digit_count(n: usize) -> (r: usize)
    ensures
        r == decimal(n as nat).len(),
        1 <= r,
    decreases n,
{
    proof {
        lemma_decimal_len(n as nat);
    }
    if n < 10 {
        1
    } else {
        let r = digit_count(n / 10);
        proof {
            lemma_decimal_len((n / 10) as nat);
        }
        r + 1
    }
}

/// Appends the decimal digits of `n`, right-aligned in a field of `width`
/// characters, as `format!("{n:width$}")` writes them.
pub fn push_right_aligned_decimal(s: &mut String, n: usize, width: usize)
    ensures
        final(s)@ == old(s)@ + right_aligned(decimal(n as nat), width as nat),
{
    let len = digit_count(n);
    let ghost start = s@;
    if len < width {
        let mut k: usize = 0;
        while k < width - len
            invariant
                k <= width - len,
                len < width,
                s@ == start + spaces(k as nat),
            decreases width - len - k,
        {
            push_char(s, ' ');
            k = k + 1;
            proof {
                assert(spaces(k as nat) =~= spaces((k - 1) as nat).push(' '));
            }
        }
    }
    let ghost before = s@;
    push_decimal(s, n);
    proof {
        assert(start + right_aligned(decimal(n as nat), width as nat) =~= before + decimal(n as nat));
    }
}

// ---------------------------------------------------------------------------
// Escaping for JSON string literals
// ---------------------------------------------------------------------------

/// The character of a hexadecimal digit, in lower case.
pub open spec fn hex_char(d: nat) -> char
    recommends
        d < 16,
{
    seq!['0', '1', '2', '3', '4', '5', '6', '7', '8', '9', 'a', 'b', 'c', 'd', 'e', 'f'][d as int]
}

/// How one character is written inside a JSON string literal, as
/// `json_escape::escape_str` writes it: `"` and `\` behind a backslash, the
/// control characters that have a short escape as that escape (`\b`, `\t`,
/// `\n`, `\f`, `\r`), the other characters below U+0020 as `\u00` and two
/// lower-case hex digits, and every other character as it is.
pub open spec fn json_escape_char(c: char) -> Seq<char> {
    if c == '"' {
        seq!['\\', '"']
    } else if c == '\\' {
        seq!['\\', '\\']
    } else if c == '\u{8}' {
        seq!['\\', 'b']
    } else if c == '\t' {
        seq!['\\', 't']
    } else if c == '\n' {
        seq!['\\', 'n']
    } else if c == '\u{c}' {
        seq!['\\', 'f']
    } else if c == '\r' {
        seq!['\\', 'r']
    } else if (c as u32) < 0x20 {
        seq!['\\', 'u', '0', '0', hex_char((c as u32 / 16) as nat), hex_char((c as u32 % 16) as nat)]
    } else {
        seq![c]
    }
}

/// A text escaped for a JSON string literal, character by character.
pub open spec fn json_escaped(s: Seq<char>) -> Seq<char>
    decreases s.len(),
{
    if s.len() == 0 {
        seq![]
    } else {
        json_escaped(s.drop_last()) + json_escape_char(s.last())
    }
}

/// The character of the hexadecimal digit `d`, in lower case.
fn hex(d: u32) -> (c: char)
    requires
        d < 16,
    ensures
        c == hex_char(d as nat),
{
    match d {
        0 => '0',
        1 => '1',
        2 => '2',
        3 => '3',
        4 => '4',
        5 => '5',
        6 => '6',
        7 => '7',
        8 => '8',
        9 => '9',
        10 => 'a',
        11 => 'b',
        12 => 'c',
        13 => 'd',
        14 => 'e',
        _ => 'f',
    }
}

/// Escapes a text for a JSON string literal (without the quotes around it),
/// as `json_escaped` states it.
pub fn escape_json_str(s: &str) -> (r: String)
    ensures
        r@ == json_escaped(s@),
{
    let mut out = String::new();
    for c in it: s.chars()
        invariant
            it.seq() == s@,
            out@ == json_escaped(s@.take(it.index())),
    {
        let ghost n = it.index();
        let ghost before = out@;
        let code = c as u32;
        if c == '"' {
            push_char(&mut out, '\\');
            push_char(&mut out, '"');
        } else if c == '\\' {
            push_char(&mut out, '\\');
            push_char(&mut out, '\\');
        } else if c == '\u{8}' {
            push_char(&mut out, '\\');
            push_char(&mut out, 'b');
        } else if c == '\t' {
            push_char(&mut out, '\\');
            push_char(&mut out, 't');
        } else if c == '\n' {
            push_char(&mut out, '\\');
            push_char(&mut out, 'n');
        } else if c == '\u{c}' {
            push_char(&mut out, '\\');
            push_char(&mut out, 'f');
        } else if c == '\r' {
            push_char(&mut out, '\\');
            push_char(&mut out, 'r');
        } else if code < 0x20 {
            push_char(&mut out, '\\');
            push_char(&mut out, 'u');
            push_char(&mut out, '0');
            push_char(&mut out, '0');
            push_char(&mut out, hex(code / 16));
            push_char(&mut out, hex(code % 16));
        } else {
            push_char(&mut out, c);
        }
        proof {
            assert(s@.take(n + 1).drop_last() =~= s@.take(n));
            assert(s@.take(n + 1).last() == c);
            assert(out@ =~= before + json_escape_char(c));
        }
    }
    proof {
        assert(s@.take(s@.len() as int) =~= s@);
    }
    out
}

} // verus!
