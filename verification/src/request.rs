//! The body of a generation request: a one-field JSON object carrying the
//! query, with the query text escaped as a JSON string.

use vstd::prelude::*;

verus! {

/// The hexadecimal digit for a value below sixteen.
pub open spec fn hex_digit_spec(n: int) -> char
    recommends
        0 <= n < 16,
{
    seq!['0', '1', '2', '3', '4', '5', '6', '7', '8', '9', 'a', 'b', 'c', 'd', 'e', 'f'][n]
}

/// How one character of the query is written inside a JSON string: quote,
/// backslash and the named control characters get a two-character escape,
/// the remaining control characters a six-character `\u00..` escape, and
/// every other character stands for itself.
pub open spec fn json_escape_char(c: char) -> Seq<char> {
    if c == '"' {
        seq!['\\', '"']
    } else if c == '\\' {
        seq!['\\', '\\']
    } else if c == '\n' {
        seq!['\\', 'n']
    } else if c == '\r' {
        seq!['\\', 'r']
    } else if c == '\t' {
        seq!['\\', 't']
    } else if (c as u32) < 0x20 {
        seq![
            '\\',
            'u',
            '0',
            '0',
            hex_digit_spec((c as u32) as int / 16),
            hex_digit_spec((c as u32) as int % 16),
        ]
    } else {
        seq![c]
    }
}

/// The JSON escaping of a whole query.
pub open spec fn json_escape(s: Seq<char>) -> Seq<char>
    decreases s.len(),
{
    if s.len() == 0 {
        Seq::empty()
    } else {
        json_escape_char(s[0]) + json_escape(s.drop_first())
    }
}

/// The request body sent to the generation endpoint for a query.
pub open spec fn request_body_spec(query: Seq<char>) -> Seq<char> {
    "{\"query\":\""@ + json_escape(query) + "\"}"@
}

/// Escaping a query one character longer appends that character's escape.
proof fn lemma_json_escape_snoc(s: Seq<char>, i: int)
    requires
        0 <= i < s.len(),
    ensures
        json_escape(s.take(i + 1)) =~= json_escape(s.take(i)) + json_escape_char(s[i]),
    decreases i,
{
    if i == 0 {
        assert(s.take(0) =~= Seq::<char>::empty());
        assert(json_escape(s.take(0)) =~= Seq::<char>::empty());
        assert(s.take(1)[0] == s[0]);
        assert(s.take(1).drop_first() =~= Seq::<char>::empty());
        assert(json_escape(s.take(1)) == json_escape_char(s.take(1)[0]) + json_escape(
            s.take(1).drop_first(),
        ));
        assert(json_escape(s.take(1)) =~= json_escape_char(s[0]));
        assert(json_escape(s.take(0)) + json_escape_char(s[0]) =~= json_escape_char(s[0]));
    } else {
        let t = s.drop_first();
        lemma_json_escape_snoc(t, i - 1);
        assert(s.take(i + 1)[0] == s[0]);
        assert(s.take(i)[0] == s[0]);
        assert(s.take(i + 1).drop_first() =~= t.take(i));
        assert(s.take(i).drop_first() =~= t.take(i - 1));
        assert(json_escape(s.take(i + 1)) == json_escape_char(s[0]) + json_escape(t.take(i)));
        assert(json_escape(s.take(i)) == json_escape_char(s[0]) + json_escape(t.take(i - 1)));
        assert(t[i - 1] == s[i]);
        assert(json_escape(s.take(i + 1)) =~= json_escape(s.take(i)) + json_escape_char(s[i]));
    }
}

/// Relies on std's `String::push`: appends exactly the given character.
#[verifier::external_body]
fn push_char(s: &mut String, c: char)
    ensures
        final(s)@ == old(s)@ + seq![c],
{
    s.push(c);
}

/// The hexadecimal digit for a value below sixteen.
fn hex_digit(n: u32) -> (c: char)
    requires
        n < 16,
    ensures
        c == hex_digit_spec(n as int),
{
    if n == 0 {
        '0'
    } else if n == 1 {
        '1'
    } else if n == 2 {
        '2'
    } else if n == 3 {
        '3'
    } else if n == 4 {
        '4'
    } else if n == 5 {
        '5'
    } else if n == 6 {
        '6'
    } else if n == 7 {
        '7'
    } else if n == 8 {
        '8'
    } else if n == 9 {
        '9'
    } else if n == 10 {
        'a'
    } else if n == 11 {
        'b'
    } else if n == 12 {
        'c'
    } else if n == 13 {
        'd'
    } else if n == 14 {
        'e'
    } else {
        'f'
    }
}

/// Appends the JSON escaping of one character.
fn push_escaped(body: &mut String, c: char)
    ensures
        final(body)@ == old(body)@ + json_escape_char(c),
{
    if c == '"' {
        proof {
            reveal_strlit("\\\"");
        }
        body.append("\\\"");
        proof {
            assert("\\\""@ =~= json_escape_char(c));
        }
    } else if c == '\\' {
        proof {
            reveal_strlit("\\\\");
        }
        body.append("\\\\");
        proof {
            assert("\\\\"@ =~= json_escape_char(c));
        }
    } else if c == '\n' {
        proof {
            reveal_strlit("\\n");
        }
        body.append("\\n");
        proof {
            assert("\\n"@ =~= json_escape_char(c));
        }
    } else if c == '\r' {
        proof {
            reveal_strlit("\\r");
        }
        body.append("\\r");
        proof {
            assert("\\r"@ =~= json_escape_char(c));
        }
    } else if c == '\t' {
        proof {
            reveal_strlit("\\t");
        }
        body.append("\\t");
        proof {
            assert("\\t"@ =~= json_escape_char(c));
        }
    } else if (c as u32) < 0x20 {
        proof {
            reveal_strlit("\\u00");
        }
        body.append("\\u00");
        let code: u32 = c as u32;
        push_char(body, hex_digit(code / 16));
        push_char(body, hex_digit(code % 16));
        proof {
            assert(body@ =~= old(body)@ + json_escape_char(c));
        }
    } else {
        push_char(body, c);
        proof {
            assert(body@ =~= old(body)@ + json_escape_char(c));
        }
    }
}

/// Builds the JSON request body for a query.
pub fn request_body(query: &str) -> (body: String)
    ensures
        body@ == request_body_spec(query@),
{
    let mut body = String::from_str("{\"query\":\"");
    let n: usize = query.unicode_len();
    let mut i: usize = 0;
    proof {
        assert(query@.take(0) =~= Seq::<char>::empty());
    }
    while i < n
        invariant
            n == query@.len(),
            0 <= i <= n,
            body@ == "{\"query\":\""@ + json_escape(query@.take(i as int)),
        decreases n - i,
    {
        let c = query.get_char(i);
        push_escaped(&mut body, c);
        proof {
            lemma_json_escape_snoc(query@, i as int);
        }
        i = i + 1;
    }
    proof {
        assert(query@.take(n as int) =~= query@);
    }
    body.append("\"}");
    body
}

} // verus!
