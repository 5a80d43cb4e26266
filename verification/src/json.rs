//! Verified JSON rendering of the error envelope: string escaping and the
//! exact body `{"error":{"code":...,"status":...},"request_id":...}`.

use vstd::prelude::*;
use vstd::string::{StrSliceExecFns, StringExecFns};
use crate::envelope::ErrorResponse;
use crate::text::{dec_digit, dec_rep, u16_dec};

verus! {

/// The hexadecimal digit character for `d < 16`, upper case.
pub open spec fn hex_digit(d: nat) -> char {
    if d < 10 {
        dec_digit(d)
    } else if d == 10 {
        'A'
    } else if d == 11 {
        'B'
    } else if d == 12 {
        'C'
    } else if d == 13 {
        'D'
    } else if d == 14 {
        'E'
    } else {
        'F'
    }
}

/// The escape of one character inside a JSON string literal: quotes and
/// backslashes get a leading backslash, control characters the `\u00XX`
/// form, and every other character stands verbatim.
pub open spec fn json_escape_char(c: char) -> Seq<char> {
    if c == '"' {
        seq!['\\', '"']
    } else if c == '\\' {
        seq!['\\', '\\']
    } else if (c as u32) < 32 {
        seq!['\\', 'u', '0', '0', hex_digit(((c as u32) / 16) as nat), hex_digit(
            ((c as u32) % 16) as nat,
        )]
    } else {
        seq![c]
    }
}

/// The body of a JSON string literal holding the text `s`.
pub open spec fn json_escaped(s: Seq<char>) -> Seq<char>
    decreases s.len(),
{
    if s.len() == 0 {
        Seq::empty()
    } else {
        json_escape_char(s[0]) + json_escaped(s.drop_first())
    }
}

/// Escaping distributes over concatenation.
pub proof fn lemma_json_escaped_append(a: Seq<char>, b: Seq<char>)
    ensures
        json_escaped(a + b) == json_escaped(a) + json_escaped(b),
    decreases a.len(),
{
    if a.len() == 0 {
        assert(a + b =~= b);
        assert(json_escaped(a) + json_escaped(b) =~= json_escaped(b));
    } else {
        assert((a + b).drop_first() =~= a.drop_first() + b);
        lemma_json_escaped_append(a.drop_first(), b);
        assert(json_escaped(a + b) =~= json_escaped(a) + json_escaped(b));
    }
}

fn hex_digit_str(d: u32) -> (r: &'static str)
    requires
        d < 16,
    ensures
        r@ == seq![hex_digit(d as nat)],
{
    proof {
        reveal_strlit("0");
        reveal_strlit("1");
        reveal_strlit("2");
        reveal_strlit("3");
        reveal_strlit("4");
        reveal_strlit("5");
        reveal_strlit("6");
        reveal_strlit("7");
        reveal_strlit("8");
        reveal_strlit("9");
        reveal_strlit("A");
        reveal_strlit("B");
        reveal_strlit("C");
        reveal_strlit("D");
        reveal_strlit("E");
        reveal_strlit("F");
        assert("0"@ =~= seq![hex_digit(0)]);
        assert("1"@ =~= seq![hex_digit(1)]);
        assert("2"@ =~= seq![hex_digit(2)]);
        assert("3"@ =~= seq![hex_digit(3)]);
        assert("4"@ =~= seq![hex_digit(4)]);
        assert("5"@ =~= seq![hex_digit(5)]);
        assert("6"@ =~= seq![hex_digit(6)]);
        assert("7"@ =~= seq![hex_digit(7)]);
        assert("8"@ =~= seq![hex_digit(8)]);
        assert("9"@ =~= seq![hex_digit(9)]);
        assert("A"@ =~= seq![hex_digit(10)]);
        assert("B"@ =~= seq![hex_digit(11)]);
        assert("C"@ =~= seq![hex_digit(12)]);
        assert("D"@ =~= seq![hex_digit(13)]);
        assert("E"@ =~= seq![hex_digit(14)]);
        assert("F"@ =~= seq![hex_digit(15)]);
    }
    match d {
        0 => "0",
        1 => "1",
        2 => "2",
        3 => "3",
        4 => "4",
        5 => "5",
        6 => "6",
        7 => "7",
        8 => "8",
        9 => "9",
        10 => "A",
        11 => "B",
        12 => "C",
        13 => "D",
        14 => "E",
        _ => "F",
    }
}

/// Escape a string for inclusion inside a JSON string literal, exact
/// against `json_escaped`.
pub fn json_escape(s: &str) -> (r: String)
    ensures
        r@ == json_escaped(s@),
{
    let n = s.unicode_len();
    let mut r = String::new();
    let mut i: usize = 0;
    while i < n
        invariant
            i <= n,
            n == s@.len(),
            r@ == json_escaped(s@.take(i as int)),
        decreases n - i,
    {
        let c = s.get_char(i);
        proof {
            lemma_json_escaped_append(s@.take(i as int), seq![s@[i as int]]);
            assert(s@.take(i as int) + seq![s@[i as int]] =~= s@.take(i as int + 1));
            assert(seq![s@[i as int]].drop_first() =~= Seq::<char>::empty());
            assert(json_escaped(Seq::<char>::empty()) =~= Seq::<char>::empty());
            assert(json_escaped(seq![s@[i as int]]) =~= json_escape_char(s@[i as int]));
        }
        if c == '"' {
            r.append("\\\"");
            proof {
                reveal_strlit("\\\"");
                assert("\\\""@ =~= json_escape_char(s@[i as int]));
            }
        } else if c == '\\' {
            r.append("\\\\");
            proof {
                reveal_strlit("\\\\");
                assert("\\\\"@ =~= json_escape_char(s@[i as int]));
            }
        } else if (c as u32) < 32 {
            let v: u32 = c as u32;
            r.append("\\u00");
            r.append(hex_digit_str(v / 16));
            r.append(hex_digit_str(v % 16));
            proof {
                reveal_strlit("\\u00");
                assert("\\u00"@ + seq![hex_digit((v / 16) as nat)] + seq![hex_digit(
                    (v % 16) as nat,
                )] =~= json_escape_char(s@[i as int]));
            }
        } else {
            let piece = s.substring_char(i, i + 1);
            proof {
                assert(piece@ =~= seq![s@[i as int]]);
            }
            r.append(piece);
        }
        i += 1;
    }
    proof {
        assert(s@.take(n as int) =~= s@);
    }
    r
}

/// The exact JSON body of an error response:
/// `{"error":{"code":"<code>","status":<status>},"request_id":"<id>"}`.
pub open spec fn json_of(r: ErrorResponse) -> Seq<char> {
    "{\"error\":{\"code\":\""@ + json_escaped(r.error.code@) + "\",\"status\":"@ + dec_rep(
        r.error.status as nat,
    ) + "},\"request_id\":\""@ + json_escaped(r.request_id@) + "\"}"@
}

/// Render an error response as its JSON body, exact against `json_of`.
pub fn to_json(r: &ErrorResponse) -> (out: String)
    ensures
        out@ == json_of(*r),
{
    let mut out = String::from_str("{\"error\":{\"code\":\"");
    out.append(json_escape(r.error.code.as_str()).as_str());
    out.append("\",\"status\":");
    out.append(u16_dec(r.error.status).as_str());
    out.append("},\"request_id\":\"");
    out.append(json_escape(r.request_id.as_str()).as_str());
    out.append("\"}");
    proof {
        assert(out@ =~= json_of(*r));
    }
    out
}

} // verus!
