//! JSON string escaping, verified: the text placed between the quotes of a
//! JSON string literal so that arbitrary message text survives embedding in a
//! response envelope.

use vstd::prelude::*;
use vstd::string::*;

verus! {

/// The lowercase hexadecimal digit for `n`.
pub open spec fn hex_char(n: int) -> char {
    if n == 0 { '0' }
    else if n == 1 { '1' }
    else if n == 2 { '2' }
    else if n == 3 { '3' }
    else if n == 4 { '4' }
    else if n == 5 { '5' }
    else if n == 6 { '6' }
    else if n == 7 { '7' }
    else if n == 8 { '8' }
    else if n == 9 { '9' }
    else if n == 10 { 'a' }
    else if n == 11 { 'b' }
    else if n == 12 { 'c' }
    else if n == 13 { 'd' }
    else if n == 14 { 'e' }
    else { 'f' }
}

/// How a single character is written inside a JSON string literal: quotes and
/// backslashes escaped, the named control characters short-escaped, the other
/// control characters written as `\u00xx`, everything else as itself.
pub open spec fn escape_char(c: char) -> Seq<char> {
    if c == '"' { seq!['\\', '"'] }
    else if c == '\\' { seq!['\\', '\\'] }
    else if c == '\n' { seq!['\\', 'n'] }
    else if c == '\r' { seq!['\\', 'r'] }
    else if c == '\t' { seq!['\\', 't'] }
    else if c == '\u{8}' { seq!['\\', 'b'] }
    else if c == '\u{c}' { seq!['\\', 'f'] }
    else if (c as u32) < 0x20 {
        seq!['\\', 'u', '0', '0', hex_char((c as u32) as int / 16), hex_char((c as u32) as int % 16)]
    } else {
        seq![c]
    }
}

/// The body of a JSON string literal holding the text `s`.
pub open spec fn json_escape(s: Seq<char>) -> Seq<char>
    decreases s.len(),
{
    if s.len() == 0 {
        Seq::empty()
    } else {
        escape_char(s[0]) + json_escape(s.subrange(1, s.len() as int))
    }
}

/// Escaping distributes over appending one character at the end.
pub proof fn lemma_json_escape_snoc(t: Seq<char>, c: char)
    ensures
        json_escape(t.push(c)) == json_escape(t) + escape_char(c),
    decreases t.len(),
{
    if t.len() == 0 {
        reveal_with_fuel(json_escape, 3);
        assert(t.push(c)[0] == c);
        assert(t.push(c).subrange(1, 1) =~= Seq::<char>::empty());
        assert(json_escape(t.push(c)) =~= json_escape(t) + escape_char(c));
    } else {
        assert(t.push(c)[0] == t[0]);
        assert(t.push(c).subrange(1, t.len() as int + 1) =~= t.subrange(
            1,
            t.len() as int,
        ).push(c));
        lemma_json_escape_snoc(t.subrange(1, t.len() as int), c);
        assert(json_escape(t.push(c)) =~= json_escape(t) + escape_char(c));
    }
}

/// The lowercase hexadecimal digit for `n`, as a one-character string.
fn hex_digit_str(n: u32) -> (r: &'static str)
    requires
        n < 16,
    ensures
        r@ == seq![hex_char(n as int)],
{
    proof {
        reveal_strlit("0");
        reveal_strlit("1");
        reveal_strlit("2");
        reveal_strlit("3");
        reveal_strlit("4");
        reveal_strlit("5");
        reveal_strlit("6");
        reveal_strlit("7");
        reveal_strlit("8");
        reveal_strlit("9");
        reveal_strlit("a");
        reveal_strlit("b");
        reveal_strlit("c");
        reveal_strlit("d");
        reveal_strlit("e");
        reveal_strlit("f");
    }
    if n == 0 { "0" }
    else if n == 1 { "1" }
    else if n == 2 { "2" }
    else if n == 3 { "3" }
    else if n == 4 { "4" }
    else if n == 5 { "5" }
    else if n == 6 { "6" }
    else if n == 7 { "7" }
    else if n == 8 { "8" }
    else if n == 9 { "9" }
    else if n == 10 { "a" }
    else if n == 11 { "b" }
    else if n == 12 { "c" }
    else if n == 13 { "d" }
    else if n == 14 { "e" }
    else { "f" }
}

/// Escapes `s` for embedding inside a JSON string literal.
pub fn escape_json_text(s: &str) -> (r: String)
    ensures
        r@ == json_escape(s@),
{
    let n = s.unicode_len();
    let mut out = String::new();
    let mut i: usize = 0;
    proof {
        assert(s@.subrange(0, 0) =~= Seq::<char>::empty());
    }
    while i < n
        invariant
            0 <= i <= n,
            n == s@.len(),
            out@ == json_escape(s@.subrange(0, i as int)),
        decreases n - i,
    {
        let c = s.get_char(i);
        proof {
            reveal_strlit("\\\"");
            reveal_strlit("\\\\");
            reveal_strlit("\\n");
            reveal_strlit("\\r");
            reveal_strlit("\\t");
            reveal_strlit("\\b");
            reveal_strlit("\\f");
            reveal_strlit("\\u00");
            lemma_json_escape_snoc(s@.subrange(0, i as int), c);
            assert(s@.subrange(0, i + 1) =~= s@.subrange(0, i as int).push(s@[i as int]));
        }
        if c == '"' {
            out.append("\\\"");
            proof { assert("\\\""@ =~= escape_char(c)); }
        } else if c == '\\' {
            out.append("\\\\");
            proof { assert("\\\\"@ =~= escape_char(c)); }
        } else if c == '\n' {
            out.append("\\n");
            proof { assert("\\n"@ =~= escape_char(c)); }
        } else if c == '\r' {
            out.append("\\r");
            proof { assert("\\r"@ =~= escape_char(c)); }
        } else if c == '\t' {
            out.append("\\t");
            proof { assert("\\t"@ =~= escape_char(c)); }
        } else if c == '\u{8}' {
            out.append("\\b");
            proof { assert("\\b"@ =~= escape_char(c)); }
        } else if c == '\u{c}' {
            out.append("\\f");
            proof { assert("\\f"@ =~= escape_char(c)); }
        } else if (c as u32) < 0x20 {
            let v = c as u32;
            out.append("\\u00");
            out.append(hex_digit_str(v / 16));
            out.append(hex_digit_str(v % 16));
            proof {
                assert("\\u00"@ + seq![hex_char(v as int / 16)] + seq![hex_char(v as int % 16)]
                    =~= escape_char(c));
            }
        } else {
            let piece = s.substring_char(i, i + 1);
            out.append(piece);
            proof {
                assert(piece@ =~= seq![s@[i as int]]);
                assert(piece@ =~= escape_char(c));
            }
        }
        i = i + 1;
    }
    proof {
        assert(s@.subrange(0, n as int) =~= s@);
    }
    out
}

} // verus!
