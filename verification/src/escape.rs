//! Quoted-string rendering and its inverse.
//!
//! A quoted-string value renders as a double-quoted token whose body escapes
//! `"`, `\` and every control character exactly as JSON string serialization
//! does: the shorthand escapes `\b \t \n \f \r` for their five characters, and
//! `\u00XX` with lowercase hex digits for the remaining control characters.
//! [`spec_json_quote`] states that text exactly; the escaping itself is done
//! by `serde_json` behind [`json_quote_string`]. The verified parser
//! [`unescape_quoted`] inverts it, and [`lemma_quote_round_trip`] proves the
//! inversion for every string.

use vstd::prelude::*;
use vstd::string::StrSliceExecFns;
use crate::text::push_char;

verus! {

/// The lowercase hex digit character for `d` in 0..16.
pub open spec fn spec_hex_digit(d: nat) -> char {
    if d == 0 {
        '0'
    } else if d == 1 {
        '1'
    } else if d == 2 {
        '2'
    } else if d == 3 {
        '3'
    } else if d == 4 {
        '4'
    } else if d == 5 {
        '5'
    } else if d == 6 {
        '6'
    } else if d == 7 {
        '7'
    } else if d == 8 {
        '8'
    } else if d == 9 {
        '9'
    } else if d == 10 {
        'a'
    } else if d == 11 {
        'b'
    } else if d == 12 {
        'c'
    } else if d == 13 {
        'd'
    } else if d == 14 {
        'e'
    } else {
        'f'
    }
}

/// The numeric value of a lowercase hex digit character, or 16 when `c` is none.
pub open spec fn spec_hex_val(c: char) -> nat {
    if c == '0' {
        0
    } else if c == '1' {
        1
    } else if c == '2' {
        2
    } else if c == '3' {
        3
    } else if c == '4' {
        4
    } else if c == '5' {
        5
    } else if c == '6' {
        6
    } else if c == '7' {
        7
    } else if c == '8' {
        8
    } else if c == '9' {
        9
    } else if c == 'a' {
        10
    } else if c == 'b' {
        11
    } else if c == 'c' {
        12
    } else if c == 'd' {
        13
    } else if c == 'e' {
        14
    } else if c == 'f' {
        15
    } else {
        16
    }
}

/// The escape sequence a character contributes to a quoted-string body.
pub open spec fn spec_esc_char(c: char) -> Seq<char> {
    if c == '"' {
        seq!['\\', '"']
    } else if c == '\\' {
        seq!['\\', '\\']
    } else if c == '\u{8}' {
        seq!['\\', 'b']
    } else if c == '\t' {
        seq!['\\', 't']
    } else if c == '\n' {
        seq!['\\', 'n']
    } else if c == '\u{c}' {
        seq!['\\', 'f']
    } else if c == '\r' {
        seq!['\\', 'r']
    } else if (c as u32) < 0x20 {
        seq!['\\', 'u', '0', '0', spec_hex_digit(((c as u32) / 16) as nat), spec_hex_digit(
            ((c as u32) % 16) as nat,
        )]
    } else {
        seq![c]
    }
}

/// The escaped body of a quoted string.
pub open spec fn spec_esc(s: Seq<char>) -> Seq<char>
    decreases s.len(),
{
    if s.len() == 0 {
        Seq::empty()
    } else {
        spec_esc_char(s[0]) + spec_esc(s.drop_first())
    }
}

/// The full quoted-string rendering of `s`: the escaped body in double quotes.
pub open spec fn spec_json_quote(s: Seq<char>) -> Seq<char> {
    seq!['"'] + spec_esc(s) + seq!['"']
}

/// Relies on `serde_json`: serializing a string value yields the double-quoted
/// token that escapes `"`, `\` and control characters as `spec_json_quote` states.
#[verifier::external_body]
pub fn json_quote_string(s: &str) -> (r: String)
    ensures
        r@ == spec_json_quote(s@),
{
    serde_json::Value::String(s.to_owned()).to_string()
}

/// Prepends `c` to the content of `rest`, propagating a parse failure.
pub open spec fn spec_cons(c: char, rest: Option<Seq<char>>) -> Option<Seq<char>> {
    match rest {
        Some(r) => Some(seq![c] + r),
        None => None,
    }
}

/// Parses an escaped quoted-string body back to the characters it encodes.
pub open spec fn spec_unesc(t: Seq<char>) -> Option<Seq<char>>
    decreases t.len(),
{
    if t.len() == 0 {
        Some(Seq::empty())
    } else if t[0] == '\\' {
        if t.len() < 2 {
            None
        } else if t[1] == '"' {
            spec_cons('"', spec_unesc(t.skip(2)))
        } else if t[1] == '\\' {
            spec_cons('\\', spec_unesc(t.skip(2)))
        } else if t[1] == 'b' {
            spec_cons('\u{8}', spec_unesc(t.skip(2)))
        } else if t[1] == 't' {
            spec_cons('\t', spec_unesc(t.skip(2)))
        } else if t[1] == 'n' {
            spec_cons('\n', spec_unesc(t.skip(2)))
        } else if t[1] == 'f' {
            spec_cons('\u{c}', spec_unesc(t.skip(2)))
        } else if t[1] == 'r' {
            spec_cons('\r', spec_unesc(t.skip(2)))
        } else if t[1] == 'u' {
            if t.len() < 6 {
                None
            } else if spec_hex_val(t[2]) < 16 && spec_hex_val(t[3]) < 16 && spec_hex_val(t[4]) < 16
                && spec_hex_val(t[5]) < 16 {
                let code = 4096 * spec_hex_val(t[2]) + 256 * spec_hex_val(t[3]) + 16 * spec_hex_val(
                    t[4],
                ) + spec_hex_val(t[5]);
                if code < 0xD800 {
                    spec_cons((code as u32) as char, spec_unesc(t.skip(6)))
                } else {
                    None
                }
            } else {
                None
            }
        } else {
            None
        }
    } else {
        spec_cons(t[0], spec_unesc(t.skip(1)))
    }
}

/// Parses a full quoted-string token: quotes stripped, body unescaped.
pub open spec fn spec_parse_quoted(q: Seq<char>) -> Option<Seq<char>> {
    if q.len() >= 2 && q[0] == '"' && q[q.len() - 1] == '"' {
        spec_unesc(q.subrange(1, q.len() - 1))
    } else {
        None
    }
}

/// Relies on std's `char::from_u32`: a value below the surrogate range is a
/// Unicode scalar value, and the returned character is that scalar.
#[verifier::external_body]
fn char_from_code(code: u32) -> (c: char)
    requires
        code < 0xD800,
    ensures
        c == code as char,
{
    char::from_u32(code).unwrap()
}

fn hex_val(c: char) -> (v: u32)
    ensures
        v == spec_hex_val(c),
{
    if c == '0' {
        0
    } else if c == '1' {
        1
    } else if c == '2' {
        2
    } else if c == '3' {
        3
    } else if c == '4' {
        4
    } else if c == '5' {
        5
    } else if c == '6' {
        6
    } else if c == '7' {
        7
    } else if c == '8' {
        8
    } else if c == '9' {
        9
    } else if c == 'a' {
        10
    } else if c == 'b' {
        11
    } else if c == 'c' {
        12
    } else if c == 'd' {
        13
    } else if c == 'e' {
        14
    } else if c == 'f' {
        15
    } else {
        16
    }
}

/// Parses a quoted-string token produced by [`json_quote_string`] back to the
/// characters it encodes; `None` when `s` is not a well-formed quoted string.
pub fn unescape_quoted(s: &str) -> (r: Option<String>)
    ensures
        match r {
            Some(out) => spec_parse_quoted(s@) == Some(out@),
            None => spec_parse_quoted(s@) is None,
        },
{
    let n = s.unicode_len();
    if n < 2 {
        return None;
    }
    if s.get_char(0) != '"' || s.get_char(n - 1) != '"' {
        return None;
    }
    let mut out = String::new();
    let mut i: usize = 1;
    while i < n - 1
        invariant
            2 <= n == s@.len(),
            1 <= i <= n - 1,
            s@[0] == '"',
            s@[n - 1] == '"',
            spec_unesc(s@.subrange(1, n - 1)) == (match spec_unesc(
                s@.subrange(i as int, n - 1),
            ) {
                Some(tail) => Some(out@ + tail),
                None => None::<Seq<char>>,
            }),
        decreases n - 1 - i,
    {
        let ghost rem = s@.subrange(i as int, n - 1);
        let c = s.get_char(i);
        assert(rem[0] == c);
        if c == '\\' {
            if n - 1 - i < 2 {
                return None;
            }
            let e = s.get_char(i + 1);
            assert(rem[1] == e);
            if e == '"' || e == '\\' || e == 'b' || e == 't' || e == 'n' || e == 'f' || e == 'r' {
                let decoded = if e == '"' {
                    '"'
                } else if e == '\\' {
                    '\\'
                } else if e == 'b' {
                    '\u{8}'
                } else if e == 't' {
                    '\t'
                } else if e == 'n' {
                    '\n'
                } else if e == 'f' {
                    '\u{c}'
                } else {
                    '\r'
                };
                proof {
                    assert(rem.skip(2) =~= s@.subrange(i + 2, n - 1));
                    assert(spec_unesc(rem) == spec_cons(decoded, spec_unesc(rem.skip(2))));
                    if spec_unesc(rem.skip(2)) is Some {
                        let tail = spec_unesc(rem.skip(2))->0;
                        assert(out@ + (seq![decoded] + tail) =~= (out@ + seq![decoded]) + tail);
                    }
                }
                push_char(&mut out, decoded);
                i = i + 2;
            } else if e == 'u' {
                if n - 1 - i < 6 {
                    return None;
                }
                let v2 = hex_val(s.get_char(i + 2));
                let v3 = hex_val(s.get_char(i + 3));
                let v4 = hex_val(s.get_char(i + 4));
                let v5 = hex_val(s.get_char(i + 5));
                assert(rem[2] == s@[i + 2] && rem[3] == s@[i + 3] && rem[4] == s@[i + 4] && rem[5]
                    == s@[i + 5]);
                if v2 >= 16 || v3 >= 16 || v4 >= 16 || v5 >= 16 {
                    return None;
                }
                let code: u32 = 4096 * v2 + 256 * v3 + 16 * v4 + v5;
                if code >= 0xD800 {
                    return None;
                }
                let decoded = char_from_code(code);
                proof {
                    assert(rem.skip(6) =~= s@.subrange(i + 6, n - 1));
                    assert(spec_unesc(rem) == spec_cons(decoded, spec_unesc(rem.skip(6))));
                    if spec_unesc(rem.skip(6)) is Some {
                        let tail = spec_unesc(rem.skip(6))->0;
                        assert(out@ + (seq![decoded] + tail) =~= (out@ + seq![decoded]) + tail);
                    }
                }
                push_char(&mut out, decoded);
                i = i + 6;
            } else {
                return None;
            }
        } else {
            proof {
                assert(rem.skip(1) =~= s@.subrange(i + 1, n - 1));
                assert(spec_unesc(rem) == spec_cons(c, spec_unesc(rem.skip(1))));
                if spec_unesc(rem.skip(1)) is Some {
                    let tail = spec_unesc(rem.skip(1))->0;
                    assert(out@ + (seq![c] + tail) =~= (out@ + seq![c]) + tail);
                }
            }
            push_char(&mut out, c);
            i = i + 1;
        }
    }
    proof {
        assert(s@.subrange(n - 1, n - 1) =~= Seq::<char>::empty());
        assert(out@ + Seq::<char>::empty() =~= out@);
    }
    Some(out)
}

proof fn lemma_hex_digit_val(d: nat)
    requires
        d < 16,
    ensures
        spec_hex_val(spec_hex_digit(d)) == d,
{
}

/// Parsing an escaped body followed by more text consumes exactly the escape
/// of the first character.
proof fn lemma_unesc_esc(s: Seq<char>)
    ensures
        spec_unesc(spec_esc(s)) == Some(s),
    decreases s.len(),
{
    if s.len() == 0 {
        assert(spec_esc(s) =~= Seq::<char>::empty());
    } else {
        let c = s[0];
        let rest = s.drop_first();
        lemma_unesc_esc(rest);
        let t = spec_esc(s);
        let e = spec_esc_char(c);
        assert(t == e + spec_esc(rest));
        if c == '"' || c == '\\' || c == '\u{8}' || c == '\t' || c == '\n' || c == '\u{c}' || c
            == '\r' {
            assert(t.skip(2) =~= spec_esc(rest));
            assert(spec_unesc(t) == spec_cons(c, spec_unesc(spec_esc(rest))));
            assert(seq![c] + rest =~= s);
        } else if (c as u32) < 0x20 {
            let cc = c as u32;
            assert(t.skip(6) =~= spec_esc(rest));
            lemma_hex_digit_val((cc / 16) as nat);
            lemma_hex_digit_val((cc % 16) as nat);
            assert(16 * ((cc as nat) / 16) + (cc as nat) % 16 == cc as nat) by (nonlinear_arith);
            assert(spec_unesc(t) == spec_cons((cc as u32) as char, spec_unesc(spec_esc(rest))));
            vstd::utf8::char_u32_cast(c, cc);
            assert((cc as u32) as char == c);
            assert(seq![c] + rest =~= s);
        } else {
            assert(t.skip(1) =~= spec_esc(rest));
            assert(spec_unesc(t) == spec_cons(c, spec_unesc(spec_esc(rest))));
            assert(seq![c] + rest =~= s);
        }
    }
}

/// Law: a quoted-string rendering parses back to exactly the original
/// characters, for every string, including those holding `"`, `\` or
/// control characters.
pub proof fn lemma_quote_round_trip(s: Seq<char>)
    ensures
        spec_parse_quoted(spec_json_quote(s)) == Some(s),
{
    let q = spec_json_quote(s);
    assert(q[0] == '"');
    assert(q[q.len() - 1] == '"');
    assert(q.subrange(1, q.len() - 1) =~= spec_esc(s));
    lemma_unesc_esc(s);
}

} // verus!
