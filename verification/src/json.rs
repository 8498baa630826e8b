//! JSON string escaping for the JSON output mode.
//!
//! A greeting is embedded in a JSON object as a string literal, so the
//! characters that JSON requires to be escaped (quote, backslash, and the
//! control characters below U+0020) are escaped here.

use vstd::prelude::*;

verus! {

/// The lower-case hex digit for a value below 16.
pub open spec fn hex_digit_spec(n: int) -> char {
    if n == 0 {
        '0'
    } else if n == 1 {
        '1'
    } else if n == 2 {
        '2'
    } else if n == 3 {
        '3'
    } else if n == 4 {
        '4'
    } else if n == 5 {
        '5'
    } else if n == 6 {
        '6'
    } else if n == 7 {
        '7'
    } else if n == 8 {
        '8'
    } else if n == 9 {
        '9'
    } else if n == 10 {
        'a'
    } else if n == 11 {
        'b'
    } else if n == 12 {
        'c'
    } else if n == 13 {
        'd'
    } else if n == 14 {
        'e'
    } else {
        'f'
    }
}

/// How a single character appears inside a JSON string literal.
///
/// Quote and backslash take a backslash escape; newline, carriage return and
/// tab take their short escapes; any other control character below U+0020
/// takes the `\u00XX` form; everything else stands for itself.
pub open spec fn escape_char_spec(c: char) -> Seq<char> {
    if c == '"' {
        seq!['\\', '"']
    } else if c == '\\' {
        seq!['\\', '\\']
    } else if c == '\n' {
        seq!['\\', 'n']
    } else if c == '\r' {
        seq!['\\', 'r']
    } else if c == '\t' {
        seq!['\\', 't']
    } else if (c as u32) < 0x20 {
        seq!['\\', 'u', '0', '0', hex_digit_spec(c as u32 as int / 16), hex_digit_spec(
            c as u32 as int % 16,
        )]
    } else {
        seq![c]
    }
}

/// A whole string as it appears inside a JSON string literal.
pub open spec fn escape_spec(s: Seq<char>) -> Seq<char>
    decreases s.len(),
{
    if s.len() == 0 {
        Seq::empty()
    } else {
        escape_char_spec(s[0]) + escape_spec(s.subrange(1, s.len() as int))
    }
}

/// Escaping a string and then one more character escapes the extended string.
proof fn lemma_escape_push(s: Seq<char>, c: char)
    ensures
        escape_spec(s.push(c)) == escape_spec(s) + escape_char_spec(c),
    decreases s.len(),
{
    if s.len() == 0 {
        assert(s.push(c).subrange(1, 1) =~= Seq::<char>::empty());
        assert(escape_spec(s.push(c).subrange(1, 1)) == Seq::<char>::empty());
        assert(escape_spec(s.push(c)) =~= escape_spec(s) + escape_char_spec(c));
    } else {
        assert(s.push(c).subrange(1, s.len() as int + 1) =~= s.subrange(1, s.len() as int).push(c));
        lemma_escape_push(s.subrange(1, s.len() as int), c);
        assert(escape_spec(s.push(c)) =~= escape_spec(s) + escape_char_spec(c));
    }
}

/// The value of a lower-case hex digit, if the character is one.
pub open spec fn hex_value_spec(c: char) -> Option<int> {
    if c == '0' {
        Some(0int)
    } else if c == '1' {
        Some(1int)
    } else if c == '2' {
        Some(2int)
    } else if c == '3' {
        Some(3int)
    } else if c == '4' {
        Some(4int)
    } else if c == '5' {
        Some(5int)
    } else if c == '6' {
        Some(6int)
    } else if c == '7' {
        Some(7int)
    } else if c == '8' {
        Some(8int)
    } else if c == '9' {
        Some(9int)
    } else if c == 'a' {
        Some(10int)
    } else if c == 'b' {
        Some(11int)
    } else if c == 'c' {
        Some(12int)
    } else if c == 'd' {
        Some(13int)
    } else if c == 'e' {
        Some(14int)
    } else if c == 'f' {
        Some(15int)
    } else {
        None
    }
}

/// The character with the given code, for codes below U+0020.
pub open spec fn control_char_spec(n: int) -> char {
    if n == 0x00 {
        '\u{00}'
    } else if n == 0x01 {
        '\u{01}'
    } else if n == 0x02 {
        '\u{02}'
    } else if n == 0x03 {
        '\u{03}'
    } else if n == 0x04 {
        '\u{04}'
    } else if n == 0x05 {
        '\u{05}'
    } else if n == 0x06 {
        '\u{06}'
    } else if n == 0x07 {
        '\u{07}'
    } else if n == 0x08 {
        '\u{08}'
    } else if n == 0x09 {
        '\u{09}'
    } else if n == 0x0a {
        '\u{0a}'
    } else if n == 0x0b {
        '\u{0b}'
    } else if n == 0x0c {
        '\u{0c}'
    } else if n == 0x0d {
        '\u{0d}'
    } else if n == 0x0e {
        '\u{0e}'
    } else if n == 0x0f {
        '\u{0f}'
    } else if n == 0x10 {
        '\u{10}'
    } else if n == 0x11 {
        '\u{11}'
    } else if n == 0x12 {
        '\u{12}'
    } else if n == 0x13 {
        '\u{13}'
    } else if n == 0x14 {
        '\u{14}'
    } else if n == 0x15 {
        '\u{15}'
    } else if n == 0x16 {
        '\u{16}'
    } else if n == 0x17 {
        '\u{17}'
    } else if n == 0x18 {
        '\u{18}'
    } else if n == 0x19 {
        '\u{19}'
    } else if n == 0x1a {
        '\u{1a}'
    } else if n == 0x1b {
        '\u{1b}'
    } else if n == 0x1c {
        '\u{1c}'
    } else if n == 0x1d {
        '\u{1d}'
    } else if n == 0x1e {
        '\u{1e}'
    } else {
        '\u{1f}'
    }
}

/// The character put in front of a decoded tail, when the tail decodes.
pub open spec fn prepend_char(c: char, o: Option<Seq<char>>) -> Option<Seq<char>> {
    match o {
        Some(v) => Some(seq![c] + v),
        None => None,
    }
}

/// Reads an escaped string back: the inverse of `escape_spec`.
///
/// Decodes exactly the forms `escape_spec` emits, the way a JSON reader
/// reads a string literal's payload: backslash escapes become the escaped
/// character, anything else stands for itself. A raw quote, a raw control
/// character, a truncated or unknown escape, or a `\u` form outside the
/// range this module emits it for (below U+0020) yields `None`.
pub open spec fn unescape_spec(s: Seq<char>) -> Option<Seq<char>>
    decreases s.len(),
{
    if s.len() == 0 {
        Some(Seq::empty())
    } else if s[0] == '\\' {
        if s.len() < 2 {
            None
        } else if s[1] == '"' {
            prepend_char('"', unescape_spec(s.subrange(2, s.len() as int)))
        } else if s[1] == '\\' {
            prepend_char('\\', unescape_spec(s.subrange(2, s.len() as int)))
        } else if s[1] == 'n' {
            prepend_char('\n', unescape_spec(s.subrange(2, s.len() as int)))
        } else if s[1] == 'r' {
            prepend_char('\r', unescape_spec(s.subrange(2, s.len() as int)))
        } else if s[1] == 't' {
            prepend_char('\t', unescape_spec(s.subrange(2, s.len() as int)))
        } else if s[1] == 'u' {
            if s.len() < 6 {
                None
            } else {
                match (hex_value_spec(s[2]), hex_value_spec(s[3]), hex_value_spec(s[4]), hex_value_spec(s[5])) {
                    (Some(a), Some(b), Some(c), Some(d)) => {
                        let n = a * 4096 + b * 256 + c * 16 + d;
                        if n < 0x20 {
                            prepend_char(
                                control_char_spec(n),
                                unescape_spec(s.subrange(6, s.len() as int)),
                            )
                        } else {
                            None
                        }
                    },
                    _ => None,
                }
            }
        } else {
            None
        }
    } else if s[0] == '"' || (s[0] as u32) < 0x20 {
        None
    } else {
        prepend_char(s[0], unescape_spec(s.subrange(1, s.len() as int)))
    }
}

/// Reading a hex digit back gives the value it was made from.
proof fn lemma_hex_roundtrip(n: int)
    requires
        0 <= n < 16,
    ensures
        hex_value_spec(hex_digit_spec(n)) == Some(n),
{
}

/// Unescaping one escaped character off the front of a decodable tail
/// prepends that character to the tail's reading.
proof fn lemma_unescape_step(c: char, t: Seq<char>, v: Seq<char>)
    requires
        unescape_spec(t) == Some(v),
    ensures
        unescape_spec(escape_char_spec(c) + t) == Some(seq![c] + v),
{
    let s = escape_char_spec(c) + t;
    if c == '"' || c == '\\' || c == '\n' || c == '\r' || c == '\t' {
        assert(s.subrange(2, s.len() as int) =~= t);
    } else if (c as u32) < 0x20 {
        let code = c as u32 as int;
        lemma_hex_roundtrip(code / 16);
        lemma_hex_roundtrip(code % 16);
        assert(s.subrange(6, s.len() as int) =~= t);
        assert(0 * 4096 + 0 * 256 + (code / 16) * 16 + code % 16 == code);
        assert(control_char_spec(code) == c);
    } else {
        assert(s.subrange(1, s.len() as int) =~= t);
    }
}

/// Reading an escaped string back gives exactly the string that was
/// escaped: escaping loses nothing.
pub proof fn lemma_unescape_escape(s: Seq<char>)
    ensures
        unescape_spec(escape_spec(s)) == Some(s),
    decreases s.len(),
{
    if s.len() == 0 {
        assert(unescape_spec(escape_spec(s)) == Some(s));
    } else {
        let c = s[0];
        let rest = s.subrange(1, s.len() as int);
        lemma_unescape_escape(rest);
        lemma_unescape_step(c, escape_spec(rest), rest);
        assert(seq![c] + rest =~= s);
    }
}

/// The lower-case hex digit for a value below 16, as a one-character slice.
fn hex_digit_str(n: u32) -> (r: &'static str)
    requires
        n < 16,
    ensures
        r@ == seq![hex_digit_spec(n as int)],
{
    proof {
        reveal_strlit("0");
        reveal_strlit("1");
        reveal_strlit("2");
        reveal_strlit("3");
        reveal_strlit("4");
        reveal_strlit("5");
        reveal_strlit("6");
        reveal_strlit("7");
        reveal_strlit("8");
        reveal_strlit("9");
        reveal_strlit("a");
        reveal_strlit("b");
        reveal_strlit("c");
        reveal_strlit("d");
        reveal_strlit("e");
        reveal_strlit("f");
    }
    let r: &'static str = if n == 0 {
        "0"
    } else if n == 1 {
        "1"
    } else if n == 2 {
        "2"
    } else if n == 3 {
        "3"
    } else if n == 4 {
        "4"
    } else if n == 5 {
        "5"
    } else if n == 6 {
        "6"
    } else if n == 7 {
        "7"
    } else if n == 8 {
        "8"
    } else if n == 9 {
        "9"
    } else if n == 10 {
        "a"
    } else if n == 11 {
        "b"
    } else if n == 12 {
        "c"
    } else if n == 13 {
        "d"
    } else if n == 14 {
        "e"
    } else {
        "f"
    };
    proof {
        assert(r@ =~= seq![hex_digit_spec(n as int)]);
    }
    r
}

/// Escapes a string for embedding in a JSON string literal.
pub fn json_escape(s: &str) -> (r: String)
    ensures
        r@ == escape_spec(s@),
{
    let n = s.unicode_len();
    let mut out = String::new();
    let mut i: usize = 0;
    while i < n
        invariant
            n == s@.len(),
            i <= n,
            out@ == escape_spec(s@.subrange(0, i as int)),
        decreases n - i,
    {
        let c = s.get_char(i);
        if c == '"' {
            out.append("\\\"");
            proof {
                reveal_strlit("\\\"");
                assert("\\\""@ =~= escape_char_spec(c));
            }
        } else if c == '\\' {
            out.append("\\\\");
            proof {
                reveal_strlit("\\\\");
                assert("\\\\"@ =~= escape_char_spec(c));
            }
        } else if c == '\n' {
            out.append("\\n");
            proof {
                reveal_strlit("\\n");
                assert("\\n"@ =~= escape_char_spec(c));
            }
        } else if c == '\r' {
            out.append("\\r");
            proof {
                reveal_strlit("\\r");
                assert("\\r"@ =~= escape_char_spec(c));
            }
        } else if c == '\t' {
            out.append("\\t");
            proof {
                reveal_strlit("\\t");
                assert("\\t"@ =~= escape_char_spec(c));
            }
        } else if (c as u32) < 0x20 {
            let code: u32 = c as u32;
            out.append("\\u00");
            out.append(hex_digit_str(code / 16));
            out.append(hex_digit_str(code % 16));
            proof {
                reveal_strlit("\\u00");
                assert("\\u00"@ + seq![hex_digit_spec(code as int / 16)] + seq![
                    hex_digit_spec(code as int % 16),
                ] =~= escape_char_spec(c));
            }
        } else {
            let piece = s.substring_char(i, i + 1);
            out.append(piece);
            proof {
                assert(piece@ =~= seq![s@[i as int]]);
                assert(piece@ =~= escape_char_spec(c));
            }
        }
        proof {
            lemma_escape_push(s@.subrange(0, i as int), s@[i as int]);
            assert(s@.subrange(0, i as int).push(s@[i as int]) =~= s@.subrange(0, i + 1 as int));
            assert(out@ =~= escape_spec(s@.subrange(0, i + 1 as int)));
        }
        i = i + 1;
    }
    proof {
        assert(s@.subrange(0, n as int) =~= s@);
    }
    out
}

} // verus!
