//! JSON framing for the wire: string escaping, the `{"error": ...}`
//! envelope, and the single-key tagged payload the dispatcher sends.

use vstd::prelude::*;
use vstd::string::StrSliceExecFns;
use vstd::string::StringExecFns;

verus! {

/// The lowercase hex digit for a value below sixteen.
pub open spec fn hex_digit(n: int) -> char {
    "0123456789abcdef"@[n]
}

fn hex_digit_exec(n: u8) -> (c: char)
    requires
        n < 16,
    ensures
        c == hex_digit(n as int),
{
    proof {
        reveal_strlit("0123456789abcdef");
    }
    "0123456789abcdef".get_char(n as usize)
}

/// How one character appears inside a JSON string: the short escapes for
/// quote, backslash and the named control characters, `\u00..` for the
/// other control characters, and the character itself otherwise.
pub open spec fn escaped_char(c: char) -> Seq<char> {
    if c == '"' {
        "\\\""@
    } else if c == '\\' {
        "\\\\"@
    } else if c == '\u{8}' {
        "\\b"@
    } else if c == '\t' {
        "\\t"@
    } else if c == '\n' {
        "\\n"@
    } else if c == '\u{c}' {
        "\\f"@
    } else if c == '\r' {
        "\\r"@
    } else if (c as u32) < 0x20 {
        "\\u00"@ + seq![hex_digit(c as u32 as int / 16), hex_digit(c as u32 as int % 16)]
    } else {
        seq![c]
    }
}

/// A text as it appears inside a JSON string: each character escaped.
pub open spec fn json_escaped(s: Seq<char>) -> Seq<char>
    decreases s.len(),
{
    if s.len() == 0 {
        Seq::empty()
    } else {
        escaped_char(s[0]) + json_escaped(s.drop_first())
    }
}

/// Escaping a text one character longer appends that character's escape.
pub proof fn lemma_json_escaped_push(s: Seq<char>, c: char)
    ensures
        json_escaped(s.push(c)) == json_escaped(s) + escaped_char(c),
    decreases s.len(),
{
    reveal_with_fuel(json_escaped, 2);
    if s.len() == 0 {
        assert(s.push(c)[0] == c);
        assert(s.push(c).drop_first() =~= Seq::<char>::empty());
        assert(json_escaped(s.push(c)) == escaped_char(c) + json_escaped(
            Seq::<char>::empty(),
        ));
        assert(escaped_char(c) + Seq::<char>::empty() =~= escaped_char(c));
        assert(Seq::<char>::empty() + escaped_char(c) =~= escaped_char(c));
    } else {
        assert(s.push(c)[0] == s[0]);
        assert(s.push(c).drop_first() =~= s.drop_first().push(c));
        lemma_json_escaped_push(s.drop_first(), c);
        assert(escaped_char(s[0]) + (json_escaped(s.drop_first()) + escaped_char(c)) =~= (
        escaped_char(s[0]) + json_escaped(s.drop_first())) + escaped_char(c));
    }
}

/// Relies on `String::push`: appends the given character at the end.
#[verifier::external_body]
pub(crate) fn push_char(s: &mut String, c: char)
    ensures
        final(s)@ == old(s)@.push(c),
{
    s.push(c)
}

fn append_escaped_char(out: &mut String, c: char)
    ensures
        final(out)@ == old(out)@ + escaped_char(c),
{
    if c == '"' {
        out.append("\\\"");
    } else if c == '\\' {
        out.append("\\\\");
    } else if c == '\u{8}' {
        out.append("\\b");
    } else if c == '\t' {
        out.append("\\t");
    } else if c == '\n' {
        out.append("\\n");
    } else if c == '\u{c}' {
        out.append("\\f");
    } else if c == '\r' {
        out.append("\\r");
    } else {
        let u = c as u32;
        if u < 0x20 {
            out.append("\\u00");
            push_char(out, hex_digit_exec((u / 16) as u8));
            push_char(out, hex_digit_exec((u % 16) as u8));
            proof {
                assert(out@ =~= old(out)@ + escaped_char(c));
            }
        } else {
            push_char(out, c);
            proof {
                assert(out@ =~= old(out)@ + escaped_char(c));
            }
        }
    }
}

/// Appends `s` to `out` in its escaped form.
fn append_escaped(out: &mut String, s: &str)
    ensures
        final(out)@ == old(out)@ + json_escaped(s@),
{
    let n = s.unicode_len();
    proof {
        assert(old(out)@ + json_escaped(s@.subrange(0, 0)) =~= old(out)@);
    }
    let mut i: usize = 0;
    while i < n
        invariant
            0 <= i <= n,
            n == s@.len(),
            out@ == old(out)@ + json_escaped(s@.subrange(0, i as int)),
        decreases n - i,
    {
        let c = s.get_char(i);
        append_escaped_char(out, c);
        proof {
            let pre = s@.subrange(0, i as int);
            assert(pre.push(s@[i as int]) =~= s@.subrange(0, i as int + 1));
            lemma_json_escaped_push(pre, s@[i as int]);
            assert((old(out)@ + json_escaped(pre)) + escaped_char(c) =~= old(out)@ + (json_escaped(
                pre,
            ) + escaped_char(c)));
        }
        i = i + 1;
    }
    proof {
        assert(s@.subrange(0, n as int) =~= s@);
    }
}

/// The error envelope every failure is surfaced in.
pub open spec fn json_error_text(m: Seq<char>) -> Seq<char> {
    "{\"error\":\""@ + json_escaped(m) + "\"}"@
}

/// Frames an error message as the JSON value `{"error": <message>}`.
pub fn json_error(message: &str) -> (r: String)
    ensures
        r@ == json_error_text(message@),
{
    let mut out = String::from_str("{\"error\":\"");
    append_escaped(&mut out, message);
    out.append("\"}");
    proof {
        assert(out@ =~= json_error_text(message@));
    }
    out
}

/// The single-key tagged payload `{<tag>: <message>}` that carries a
/// dispatched ping; the key is how the inbound side picks its handler.
pub open spec fn json_tagged_text(tag: Seq<char>, message: Seq<char>) -> Seq<char> {
    "{\""@ + json_escaped(tag) + "\":\""@ + json_escaped(message) + "\"}"@
}

/// Frames a tag and a message as the JSON value `{<tag>: <message>}`.
pub fn json_tagged(tag: &str, message: &str) -> (r: String)
    ensures
        r@ == json_tagged_text(tag@, message@),
{
    let mut out = String::from_str("{\"");
    append_escaped(&mut out, tag);
    out.append("\":\"");
    append_escaped(&mut out, message);
    out.append("\"}");
    proof {
        assert(out@ =~= json_tagged_text(tag@, message@));
    }
    out
}

} // verus!
