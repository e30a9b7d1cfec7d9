//! Building one request line of the wire protocol:
//! `{"id":N,"method":"M","params":P}` followed by a newline.
//!
//! The line is assembled from verified pieces: a decimal rendering of the
//! request id, a JSON string escape of the method name, and the caller's
//! already-rendered parameter text. The central guarantee is framing: the
//! finished line contains exactly one newline, at its end.

use vstd::prelude::*;
use vstd::string::*;

use crate::text::push_char;

verus! {

/// Whether a text is free of raw newlines, so that it fits inside one
/// newline-delimited frame.
pub open spec fn has_no_newline(s: Seq<char>) -> bool {
    forall|i: int| 0 <= i < s.len() ==> s[i] != '\n'
}

/// The character for one decimal digit value.
pub open spec fn digit_char(d: nat) -> char {
    ((d + 48) as u8) as char
}

/// Decimal digits of `n`, most significant first, without leading zeros.
pub open spec fn dec_digits(n: nat) -> Seq<char>
    decreases n,
{
    if n < 10 {
        seq![digit_char(n)]
    } else {
        dec_digits(n / 10).push(digit_char(n % 10))
    }
}

/// The character for one hexadecimal digit value, lower case.
pub open spec fn hex_char(d: nat) -> char {
    if d < 10 {
        ((d + 48) as u8) as char
    } else {
        ((d + 87) as u8) as char
    }
}

/// How one character appears inside a JSON string literal: quote and
/// backslash get a backslash escape, control characters a `\u00XX` escape,
/// and every other character stands as itself.
pub open spec fn escaped_char(c: char) -> Seq<char> {
    if c == '"' {
        seq!['\\', '"']
    } else if c == '\\' {
        seq!['\\', '\\']
    } else if (c as u32) < 32 {
        seq![
            '\\',
            'u',
            '0',
            '0',
            hex_char(((c as u32) / 16) as nat),
            hex_char(((c as u32) % 16) as nat),
        ]
    } else {
        seq![c]
    }
}

/// A whole text escaped for inclusion in a JSON string literal.
pub open spec fn json_escaped(s: Seq<char>) -> Seq<char>
    decreases s.len(),
{
    if s.len() == 0 {
        Seq::empty()
    } else {
        escaped_char(s[0]) + json_escaped(s.drop_first())
    }
}

/// The full request line for one call: a compact JSON object holding the
/// `id`, `method` and `params` members, terminated by a newline.
pub open spec fn request_line(id: nat, method: Seq<char>, params: Seq<char>) -> Seq<char> {
    "{\"id\":"@ + dec_digits(id) + ",\"method\":\""@ + json_escaped(method) + "\",\"params\":"@
        + params + "}\n"@
}

pub proof fn lemma_dec_digits_no_newline(n: nat)
    ensures
        has_no_newline(dec_digits(n)),
    decreases n,
{
    if n < 10 {
        assert((digit_char(n) as u32) == n + 48);
    } else {
        lemma_dec_digits_no_newline(n / 10);
        assert((digit_char(n % 10) as u32) == (n % 10) + 48);
    }
}

pub proof fn lemma_escaped_char_no_newline(c: char)
    ensures
        has_no_newline(escaped_char(c)),
{
    if c != '"' && c != '\\' && (c as u32) < 32 {
        let hi = ((c as u32) / 16) as nat;
        let lo = ((c as u32) % 16) as nat;
        assert((hex_char(hi) as u32) >= 48);
        assert((hex_char(lo) as u32) >= 48);
    } else if c != '"' && c != '\\' {
        assert((c as u32) >= 32);
        assert(('\n' as u32) == 10);
    }
}

pub proof fn lemma_json_escaped_no_newline(s: Seq<char>)
    ensures
        has_no_newline(json_escaped(s)),
    decreases s.len(),
{
    if s.len() > 0 {
        lemma_escaped_char_no_newline(s[0]);
        lemma_json_escaped_no_newline(s.drop_first());
    }
}

/// Escaping a concatenation escapes the parts in place.
pub proof fn lemma_json_escaped_append(s1: Seq<char>, s2: Seq<char>)
    ensures
        json_escaped(s1 + s2) == json_escaped(s1) + json_escaped(s2),
    decreases s1.len(),
{
    if s1.len() == 0 {
        assert(s1 + s2 =~= s2);
        assert(json_escaped(s1) + json_escaped(s2) =~= json_escaped(s2));
    } else {
        assert((s1 + s2).len() > 0);
        assert((s1 + s2)[0] == s1[0]);
        assert((s1 + s2).drop_first() =~= s1.drop_first() + s2);
        lemma_json_escaped_append(s1.drop_first(), s2);
        assert(escaped_char(s1[0]) + (json_escaped(s1.drop_first()) + json_escaped(s2)) =~= (
        escaped_char(s1[0]) + json_escaped(s1.drop_first())) + json_escaped(s2));
    }
}

/// Concatenation preserves freedom from newlines.
pub proof fn lemma_no_newline_concat(a: Seq<char>, b: Seq<char>)
    requires
        has_no_newline(a),
        has_no_newline(b),
    ensures
        has_no_newline(a + b),
{
    assert forall|i: int| 0 <= i < (a + b).len() implies (a + b)[i] != '\n' by {
        if i < a.len() {
            assert((a + b)[i] == a[i]);
        } else {
            assert((a + b)[i] == b[i - a.len()]);
        }
    }
}

fn hex_digit(d: u8) -> (c: char)
    requires
        d < 16,
    ensures
        c == hex_char(d as nat),
{
    if d < 10 {
        (d + 48) as char
    } else {
        (d + 87) as char
    }
}

/// Renders an id in decimal.
pub fn encode_u64(n: u64) -> (r: String)
    ensures
        r@ == dec_digits(n as nat),
    decreases n,
{
    if n < 10 {
        let mut r = String::new();
        let c = ((n as u8) + 48) as char;
        proof {
            assert(c == digit_char(n as nat));
        }
        push_char(&mut r, c);
        proof {
            assert(r@ =~= seq![digit_char(n as nat)]);
        }
        r
    } else {
        let mut r = encode_u64(n / 10);
        let c = ((n % 10) as u8 + 48) as char;
        proof {
            assert(c == digit_char((n % 10) as nat));
        }
        push_char(&mut r, c);
        r
    }
}

/// Escapes a text for inclusion in a JSON string literal.
pub fn json_escape(s: &str) -> (r: String)
    ensures
        r@ == json_escaped(s@),
{
    let n = s.unicode_len();
    let mut r = String::new();
    let mut i: usize = 0;
    while i < n
        invariant
            n == s@.len(),
            i <= n,
            r@ == json_escaped(s@.subrange(0, i as int)),
        decreases n - i,
    {
        let c = s.get_char(i);
        let ghost prev = r@;
        proof {
            lemma_json_escaped_append(s@.subrange(0, i as int), seq![c]);
            assert(s@.subrange(0, i as int + 1) =~= s@.subrange(0, i as int) + seq![c]);
            assert(seq![c].drop_first() =~= Seq::<char>::empty());
            assert(json_escaped(seq![c].drop_first()) == Seq::<char>::empty());
            assert(escaped_char(c) + Seq::<char>::empty() =~= escaped_char(c));
            assert(json_escaped(seq![c]) =~= escaped_char(c));
        }
        if c == '"' {
            r.append("\\\"");
            proof {
                reveal_strlit("\\\"");
                assert("\\\""@ =~= escaped_char(c));
            }
        } else if c == '\\' {
            r.append("\\\\");
            proof {
                reveal_strlit("\\\\");
                assert("\\\\"@ =~= escaped_char(c));
            }
        } else if (c as u32) < 32 {
            let code = c as u32;
            r.append("\\u00");
            push_char(&mut r, hex_digit((code / 16) as u8));
            push_char(&mut r, hex_digit((code % 16) as u8));
            proof {
                reveal_strlit("\\u00");
                assert("\\u00"@.push(hex_char(((c as u32) / 16) as nat)).push(
                    hex_char(((c as u32) % 16) as nat),
                ) =~= escaped_char(c));
            }
        } else {
            push_char(&mut r, c);
            proof {
                assert(prev.push(c) =~= prev + escaped_char(c));
            }
        }
        assert(r@ =~= json_escaped(s@.subrange(0, i as int + 1)));
        i = i + 1;
    }
    proof {
        assert(s@.subrange(0, n as int) =~= s@);
    }
    r
}

/// Builds the request line for one call.
///
/// The parameter text must already be newline-free, as the compact JSON
/// renderings produced by this library are. The result is exactly the
/// `request_line` of the arguments, and it is one whole frame: its final
/// character is the only newline in it.
pub fn encode_request(id: u64, method: &str, params: &str) -> (r: String)
    requires
        has_no_newline(params@),
    ensures
        r@ == request_line(id as nat, method@, params@),
        r@.len() > 0,
        r@[r@.len() - 1] == '\n',
        forall|i: int| 0 <= i < r@.len() - 1 ==> r@[i] != '\n',
{
    let mut r = String::from_str("{\"id\":");
    let digits = encode_u64(id);
    r.append(digits.as_str());
    r.append(",\"method\":\"");
    let escaped = json_escape(method);
    r.append(escaped.as_str());
    r.append("\",\"params\":");
    r.append(params);
    r.append("}\n");
    proof {
        assert(r@ =~= request_line(id as nat, method@, params@));
        lemma_request_line_framing(id as nat, method@, params@);
    }
    r
}

/// Framing of a finished request line: it ends in a newline, and that
/// newline is the only one in it.
pub proof fn lemma_request_line_framing(id: nat, method: Seq<char>, params: Seq<char>)
    requires
        has_no_newline(params),
    ensures
        request_line(id, method, params).len() > 0,
        request_line(id, method, params)[request_line(id, method, params).len() - 1] == '\n',
        forall|i: int|
            0 <= i < request_line(id, method, params).len() - 1 ==> request_line(
                id,
                method,
                params,
            )[i] != '\n',
{
    reveal_strlit("{\"id\":");
    reveal_strlit(",\"method\":\"");
    reveal_strlit("\",\"params\":");
    reveal_strlit("}\n");
    let a = "{\"id\":"@;
    let b = dec_digits(id);
    let c = ",\"method\":\""@;
    let d = json_escaped(method);
    let e = "\",\"params\":"@;
    let f = "}\n"@;
    assert(has_no_newline(a));
    lemma_dec_digits_no_newline(id);
    assert(has_no_newline(c));
    lemma_json_escaped_no_newline(method);
    assert(has_no_newline(e));
    lemma_no_newline_concat(a, b);
    lemma_no_newline_concat(a + b, c);
    lemma_no_newline_concat(a + b + c, d);
    lemma_no_newline_concat(a + b + c + d, e);
    lemma_no_newline_concat(a + b + c + d + e, params);
    let head = a + b + c + d + e + params;
    let line = request_line(id, method, params);
    assert(f.len() == 2 && f[0] == '}' && f[1] == '\n');
    assert(line =~= head + f);
    assert(line.len() == head.len() + 2);
    assert(line[line.len() - 1] == f[1]);
    assert forall|i: int| 0 <= i < line.len() - 1 implies line[i] != '\n' by {
        if i < head.len() {
            assert(line[i] == head[i]);
        } else {
            assert(line[i] == f[0]);
        }
    }
}

} // verus!
