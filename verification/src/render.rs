//! Verified text rendering: decimal numbers and JSON string escaping.
//!
//! Request bodies are hand-built JSON object literals. Rendering them needs
//! two primitives proved here: turning an unsigned integer into its decimal
//! digits, and escaping a user-supplied string so that embedding it between
//! double quotes always yields a well-formed JSON string literal.

use vstd::prelude::*;
use vstd::string::StrSliceExecFns;
use vstd::string::StringExecFns;

verus! {

/// The decimal digit character for a value below ten.
pub open spec fn spec_dec_digit(d: nat) -> char {
    if d == 0 {
        '0'
    } else if d == 1 {
        '1'
    } else if d == 2 {
        '2'
    } else if d == 3 {
        '3'
    } else if d == 4 {
        '4'
    } else if d == 5 {
        '5'
    } else if d == 6 {
        '6'
    } else if d == 7 {
        '7'
    } else if d == 8 {
        '8'
    } else {
        '9'
    }
}

/// The usual decimal rendering of `n`: most significant digit first, no
/// leading zeros (except for `n == 0`, rendered as `"0"`).
pub open spec fn spec_decimal(n: nat) -> Seq<char>
    decreases n,
{
    if n < 10 {
        seq![spec_dec_digit(n)]
    } else {
        spec_decimal(n / 10) + seq![spec_dec_digit(n % 10)]
    }
}

/// The lower-case hexadecimal digit character for a value below sixteen.
pub open spec fn spec_hex_digit(d: nat) -> char {
    if d < 10 {
        spec_dec_digit(d)
    } else if d == 10 {
        'a'
    } else if d == 11 {
        'b'
    } else if d == 12 {
        'c'
    } else if d == 13 {
        'd'
    } else if d == 14 {
        'e'
    } else {
        'f'
    }
}

/// How one character is written inside a JSON string literal: double quote
/// and backslash get a backslash escape, control characters get a `\u00XX`
/// escape, and every other character stands for itself.
pub open spec fn spec_escaped_char(c: char) -> Seq<char> {
    if c == '"' {
        seq!['\\', '"']
    } else if c == '\\' {
        seq!['\\', '\\']
    } else if (c as nat) < 32 {
        seq!['\\', 'u', '0', '0', spec_hex_digit((c as nat) / 16), spec_hex_digit((c as nat) % 16)]
    } else {
        seq![c]
    }
}

/// The body of a JSON string literal holding exactly the characters of `s`.
pub open spec fn spec_escaped(s: Seq<char>) -> Seq<char>
    decreases s.len(),
{
    if s.len() == 0 {
        Seq::empty()
    } else {
        spec_escaped_char(s[0]) + spec_escaped(s.drop_first())
    }
}

/// Escaping distributes over concatenation.
pub proof fn lemma_escaped_concat(s: Seq<char>, t: Seq<char>)
    ensures
        spec_escaped(s + t) == spec_escaped(s) + spec_escaped(t),
    decreases s.len(),
{
    if s.len() == 0 {
        assert(s + t =~= t);
        assert(spec_escaped(s) + spec_escaped(t) =~= spec_escaped(t));
    } else {
        assert((s + t).drop_first() =~= s.drop_first() + t);
        lemma_escaped_concat(s.drop_first(), t);
        assert(spec_escaped(s + t) =~= spec_escaped(s) + spec_escaped(t));
    }
}

/// Law: an escaped text never holds a raw control character; everything
/// below space is rewritten into a printable `\u00XX` escape, so embedding
/// it in a JSON string literal cannot break the literal.
pub proof fn lemma_escaped_has_no_controls(s: Seq<char>)
    ensures
        forall|i: int|
            0 <= i < spec_escaped(s).len() ==> (#[trigger] spec_escaped(s)[i] as nat) >= 32,
    decreases s.len(),
{
    if s.len() != 0 {
        lemma_escaped_has_no_controls(s.drop_first());
        assert forall|i: int|
            0 <= i < spec_escaped_char(s[0]).len() implies (#[trigger] spec_escaped_char(
            s[0],
        )[i] as nat) >= 32 by {
            let c = s[0];
            if c != '"' && c != '\\' && (c as nat) < 32 {
                assert(spec_hex_digit((c as nat) / 16) as nat >= 32);
                assert(spec_hex_digit((c as nat) % 16) as nat >= 32);
            }
        }
        assert(spec_escaped(s) == spec_escaped_char(s[0]) + spec_escaped(s.drop_first()));
    }
}

/// Relies on `String::push`: appends the given character to the end of the
/// string, and nothing else.
#[verifier::external_body]
fn push_char(out: &mut String, c: char)
    ensures
        final(out)@ == old(out)@ + seq![c],
{
    out.push(c);
}

/// The one-character string for a decimal digit.
fn digit_str(d: u64) -> (r: &'static str)
    requires
        d < 10,
    ensures
        r@ == seq![spec_dec_digit(d as nat)],
{
    if d == 0 {
        proof {
            reveal_strlit("0");
        }
        assert("0"@ =~= seq![spec_dec_digit(0)]);
        "0"
    } else if d == 1 {
        proof {
            reveal_strlit("1");
        }
        assert("1"@ =~= seq![spec_dec_digit(1)]);
        "1"
    } else if d == 2 {
        proof {
            reveal_strlit("2");
        }
        assert("2"@ =~= seq![spec_dec_digit(2)]);
        "2"
    } else if d == 3 {
        proof {
            reveal_strlit("3");
        }
        assert("3"@ =~= seq![spec_dec_digit(3)]);
        "3"
    } else if d == 4 {
        proof {
            reveal_strlit("4");
        }
        assert("4"@ =~= seq![spec_dec_digit(4)]);
        "4"
    } else if d == 5 {
        proof {
            reveal_strlit("5");
        }
        assert("5"@ =~= seq![spec_dec_digit(5)]);
        "5"
    } else if d == 6 {
        proof {
            reveal_strlit("6");
        }
        assert("6"@ =~= seq![spec_dec_digit(6)]);
        "6"
    } else if d == 7 {
        proof {
            reveal_strlit("7");
        }
        assert("7"@ =~= seq![spec_dec_digit(7)]);
        "7"
    } else if d == 8 {
        proof {
            reveal_strlit("8");
        }
        assert("8"@ =~= seq![spec_dec_digit(8)]);
        "8"
    } else {
        proof {
            reveal_strlit("9");
        }
        assert("9"@ =~= seq![spec_dec_digit(9)]);
        "9"
    }
}

/// Appends the decimal rendering of `n` to `out`.
pub fn push_decimal(out: &mut String, n: u64)
    ensures
        final(out)@ == old(out)@ + spec_decimal(n as nat),
    decreases n,
{
    if n < 10 {
        out.append(digit_str(n));
    } else {
        push_decimal(out, n / 10);
        out.append(digit_str(n % 10));
        assert(out@ =~= old(out)@ + spec_decimal(n as nat));
    }
}

/// The decimal rendering of `n` as a fresh string.
pub fn decimal_string(n: u64) -> (r: String)
    ensures
        r@ == spec_decimal(n as nat),
{
    let mut out = String::new();
    push_decimal(&mut out, n);
    assert(out@ =~= spec_decimal(n as nat));
    out
}

/// The one-character push for a hexadecimal digit.
fn push_hex_digit(out: &mut String, d: u32)
    requires
        d < 16,
    ensures
        final(out)@ == old(out)@ + seq![spec_hex_digit(d as nat)],
{
    let c: char = if d == 0 {
        '0'
    } else if d == 1 {
        '1'
    } else if d == 2 {
        '2'
    } else if d == 3 {
        '3'
    } else if d == 4 {
        '4'
    } else if d == 5 {
        '5'
    } else if d == 6 {
        '6'
    } else if d == 7 {
        '7'
    } else if d == 8 {
        '8'
    } else if d == 9 {
        '9'
    } else if d == 10 {
        'a'
    } else if d == 11 {
        'b'
    } else if d == 12 {
        'c'
    } else if d == 13 {
        'd'
    } else if d == 14 {
        'e'
    } else {
        'f'
    };
    assert(c == spec_hex_digit(d as nat));
    push_char(out, c);
}

/// Appends the JSON escape of one character to `out`.
fn push_escaped_char(out: &mut String, c: char)
    ensures
        final(out)@ == old(out)@ + spec_escaped_char(c),
{
    if c == '"' {
        out.append("\\\"");
        proof {
            reveal_strlit("\\\"");
        }
        assert(out@ =~= old(out)@ + spec_escaped_char(c));
    } else if c == '\\' {
        out.append("\\\\");
        proof {
            reveal_strlit("\\\\");
        }
        assert(out@ =~= old(out)@ + spec_escaped_char(c));
    } else if (c as u32) < 32 {
        out.append("\\u00");
        push_hex_digit(out, (c as u32) / 16);
        push_hex_digit(out, (c as u32) % 16);
        proof {
            reveal_strlit("\\u00");
        }
        assert(out@ =~= old(out)@ + spec_escaped_char(c));
    } else {
        push_char(out, c);
        assert(out@ =~= old(out)@ + spec_escaped_char(c));
    }
}

/// The characters of `s`, escaped for embedding between double quotes in a
/// JSON text.
pub fn escape_json_string(s: &str) -> (r: String)
    ensures
        r@ == spec_escaped(s@),
{
    let len = s.unicode_len();
    let mut out = String::new();
    let mut i: usize = 0;
    assert(out@ =~= spec_escaped(s@.subrange(0, 0)));
    while i < len
        invariant
            i <= len,
            len == s@.len(),
            out@ == spec_escaped(s@.subrange(0, i as int)),
        decreases len - i,
    {
        let c = s.get_char(i);
        push_escaped_char(&mut out, c);
        proof {
            let pre = s@.subrange(0, i as int);
            assert(s@.subrange(0, i + 1) =~= pre + seq![c]);
            lemma_escaped_concat(pre, seq![c]);
            assert(seq![c].drop_first() =~= Seq::<char>::empty());
            assert(spec_escaped(Seq::<char>::empty()) =~= Seq::<char>::empty());
            assert(spec_escaped(seq![c]) =~= spec_escaped_char(c));
        }
        i = i + 1;
    }
    assert(s@.subrange(0, len as int) =~= s@);
    out
}

} // verus!
