//! Rendering of errors as structured text.
//!
//! Every error reaches the same rendering path as success, distinguished
//! by an error marker: a small JSON object with the message and the tag
//! of the operation that produced it. The string contents are escaped so
//! the output is always well-formed: quote, backslash, and the common
//! control characters get their short escapes, any other control
//! character a `\u00..` escape.

use vstd::prelude::*;
use vstd::string::StrSliceExecFns;
use vstd::string::StringExecFns;
use crate::resolver::ParseError;
use crate::session::HandlerFamily;

verus! {

/// The hexadecimal digit for a value below 16.
pub open spec fn hex_digit_char(n: nat) -> char {
    if n == 0 {
        '0'
    } else if n == 1 {
        '1'
    } else if n == 2 {
        '2'
    } else if n == 3 {
        '3'
    } else if n == 4 {
        '4'
    } else if n == 5 {
        '5'
    } else if n == 6 {
        '6'
    } else if n == 7 {
        '7'
    } else if n == 8 {
        '8'
    } else if n == 9 {
        '9'
    } else if n == 10 {
        'a'
    } else if n == 11 {
        'b'
    } else if n == 12 {
        'c'
    } else if n == 13 {
        'd'
    } else if n == 14 {
        'e'
    } else {
        'f'
    }
}

/// How one character appears inside a JSON string literal.
pub open spec fn esc_char(c: char) -> Seq<char> {
    if c == '"' {
        seq!['\\', '"']
    } else if c == '\\' {
        seq!['\\', '\\']
    } else if c == '\n' {
        seq!['\\', 'n']
    } else if c == '\r' {
        seq!['\\', 'r']
    } else if c == '\t' {
        seq!['\\', 't']
    } else if (c as u32) < 32 {
        let hi = hex_digit_char((c as u32 / 16) as nat);
        let lo = hex_digit_char((c as u32 % 16) as nat);
        seq!['\\', 'u', '0', '0', hi, lo]
    } else {
        seq![c]
    }
}

/// A character that appears in a JSON string literal as itself.
pub open spec fn is_plain(c: char) -> bool {
    !(c == '"' || c == '\\' || c == '\n' || c == '\r' || c == '\t' || (c as u32) < 32)
}

/// A string's contents escaped for use inside a JSON string literal.
pub open spec fn json_escaped(s: Seq<char>) -> Seq<char>
    decreases s.len(),
{
    if s.len() == 0 {
        Seq::empty()
    } else {
        esc_char(s[0]) + json_escaped(s.drop_first())
    }
}

/// A run of plain characters passes through the escaping unchanged.
proof fn lemma_json_escaped_plain_run(s: Seq<char>, m: int)
    requires
        0 <= m <= s.len(),
        forall|k: int| 0 <= k < m ==> is_plain(s[k]),
    ensures
        json_escaped(s) == s.take(m) + json_escaped(s.skip(m)),
    decreases m,
{
    if m == 0 {
        assert(s.skip(0) =~= s);
        assert(s.take(0) + json_escaped(s) =~= json_escaped(s));
    } else {
        assert(is_plain(s[0]));
        assert(esc_char(s[0]) == seq![s[0]]);
        assert forall|k: int| 0 <= k < m - 1 implies is_plain(s.drop_first()[k]) by {
            assert(s.drop_first()[k] == s[k + 1]);
        }
        lemma_json_escaped_plain_run(s.drop_first(), m - 1);
        assert(seq![s[0]] + s.drop_first().take(m - 1) =~= s.take(m));
        assert(s.drop_first().skip(m - 1) =~= s.skip(m));
        assert(seq![s[0]] + (s.drop_first().take(m - 1) + json_escaped(s.skip(m))) =~= s.take(m)
            + json_escaped(s.skip(m)));
    }
}

/// The canonical error object for a failed operation.
pub open spec fn json_error_of(op: Seq<char>, msg: Seq<char>) -> Seq<char> {
    "{\n  \"error\": \""@ + json_escaped(msg) + "\",\n  \"operation\": \""@ + json_escaped(op)
        + "\"\n}"@
}

fn hex_digit_str(n: u8) -> (r: &'static str)
    requires
        n < 16,
    ensures
        r@ == seq![hex_digit_char(n as nat)],
{
    proof {
        reveal_strlit("0");
        reveal_strlit("1");
        reveal_strlit("2");
        reveal_strlit("3");
        reveal_strlit("4");
        reveal_strlit("5");
        reveal_strlit("6");
        reveal_strlit("7");
        reveal_strlit("8");
        reveal_strlit("9");
        reveal_strlit("a");
        reveal_strlit("b");
        reveal_strlit("c");
        reveal_strlit("d");
        reveal_strlit("e");
        reveal_strlit("f");
    }
    if n == 0 {
        "0"
    } else if n == 1 {
        "1"
    } else if n == 2 {
        "2"
    } else if n == 3 {
        "3"
    } else if n == 4 {
        "4"
    } else if n == 5 {
        "5"
    } else if n == 6 {
        "6"
    } else if n == 7 {
        "7"
    } else if n == 8 {
        "8"
    } else if n == 9 {
        "9"
    } else if n == 10 {
        "a"
    } else if n == 11 {
        "b"
    } else if n == 12 {
        "c"
    } else if n == 13 {
        "d"
    } else if n == 14 {
        "e"
    } else {
        "f"
    }
}

fn plain_char(c: char) -> (r: bool)
    ensures
        r == is_plain(c),
{
    !(c == '"' || c == '\\' || c == '\n' || c == '\r' || c == '\t' || (c as u32) < 32)
}

/// Escape a string for use inside a JSON string literal.
pub fn json_escape(s: &str) -> (r: String)
    ensures
        r@ == json_escaped(s@),
{
    let n = s.unicode_len();
    let mut out = String::new();
    proof {
        assert(s@.skip(0) =~= s@);
        assert(out@ + json_escaped(s@) =~= json_escaped(s@));
    }
    let mut i: usize = 0;
    while i < n
        invariant
            n == s@.len(),
            i <= n,
            json_escaped(s@) == out@ + json_escaped(s@.skip(i as int)),
        decreases n - i,
    {
        let ghost prefix = out@;
        let ghost at = s@.skip(i as int);
        let c = s.get_char(i);
        proof {
            assert(at[0] == s@[i as int]);
            assert(at.drop_first() =~= s@.skip(i as int + 1));
            assert(json_escaped(at) == esc_char(s@[i as int]) + json_escaped(
                s@.skip(i as int + 1),
            ));
        }
        if c == '"' {
            out.append("\\\"");
            proof {
                reveal_strlit("\\\"");
                assert("\\\""@ =~= esc_char(c));
            }
        } else if c == '\\' {
            out.append("\\\\");
            proof {
                reveal_strlit("\\\\");
                assert("\\\\"@ =~= esc_char(c));
            }
        } else if c == '\n' {
            out.append("\\n");
            proof {
                reveal_strlit("\\n");
                assert("\\n"@ =~= esc_char(c));
            }
        } else if c == '\r' {
            out.append("\\r");
            proof {
                reveal_strlit("\\r");
                assert("\\r"@ =~= esc_char(c));
            }
        } else if c == '\t' {
            out.append("\\t");
            proof {
                reveal_strlit("\\t");
                assert("\\t"@ =~= esc_char(c));
            }
        } else if (c as u32) < 32 {
            let u = c as u32;
            let hi: u8 = (u / 16) as u8;
            let lo: u8 = (u % 16) as u8;
            out.append("\\u00");
            out.append(hex_digit_str(hi));
            out.append(hex_digit_str(lo));
            proof {
                reveal_strlit("\\u00");
                assert("\\u00"@ + seq![hex_digit_char(hi as nat)] + seq![
                    hex_digit_char(lo as nat),
                ] =~= esc_char(c));
            }
        } else {
            // a maximal run of plain characters is copied through whole
            let mut j = i + 1;
            while j < n && plain_char(s.get_char(j))
                invariant
                    n == s@.len(),
                    i < n,
                    i + 1 <= j <= n,
                    forall|k: int| i <= k < j ==> is_plain(s@[k]),
                decreases n - j,
            {
                j = j + 1;
            }
            let piece = s.substring_char(i, j);
            out.append(piece);
            proof {
                assert forall|k: int| 0 <= k < j - i implies is_plain(at[k]) by {
                    assert(at[k] == s@[k + i]);
                }
                lemma_json_escaped_plain_run(at, j - i);
                assert(at.take(j - i) =~= s@.subrange(i as int, j as int));
                assert(at.skip(j - i) =~= s@.skip(j as int));
                assert(out@ =~= prefix + at.take(j - i));
                assert(prefix + (at.take(j - i) + json_escaped(s@.skip(j as int))) =~= out@
                    + json_escaped(s@.skip(j as int)));
            }
            i = j;
            continue;
        }
        proof {
            assert(out@ =~= prefix + esc_char(s@[i as int]));
            assert(prefix + (esc_char(s@[i as int]) + json_escaped(s@.skip(i as int + 1)))
                =~= out@ + json_escaped(s@.skip(i as int + 1)));
        }
        i = i + 1;
    }
    proof {
        assert(s@.skip(n as int) =~= Seq::<char>::empty());
        assert(out@ + json_escaped(Seq::<char>::empty()) =~= out@);
    }
    out
}

/// Render the canonical error object for a failed operation: the same
/// rendering path as success, with the error marker and the tag of the
/// operation that produced it.
pub fn render_error(op: &str, msg: &str) -> (r: String)
    ensures
        r@ == json_error_of(op@, msg@),
{
    let mut out = String::from_str("{\n  \"error\": \"");
    let escaped_msg = json_escape(msg);
    out.append(escaped_msg.as_str());
    out.append("\",\n  \"operation\": \"");
    let escaped_op = json_escape(op);
    out.append(escaped_op.as_str());
    out.append("\"\n}");
    proof {
        assert(out@ =~= json_error_of(op@, msg@));
    }
    out
}

/// The error taxonomy: a malformed command line (recoverable, the loop
/// continues), an invalid backend or wallet construction (fatal at
/// session start), a failed collaborator operation (reported with its
/// operation tag, recoverable interactively), or an input or store
/// failure (fatal).
#[derive(Clone, Debug, PartialEq)]
pub enum CoreError {
    Parse(ParseError),
    Config(String),
    Collaborator { family: HandlerFamily, message: String },
    Io(String),
}

impl CoreError {
    /// Whether this error ends the session or one-shot run.
    pub fn is_fatal(&self) -> (r: bool)
        ensures
            r == (self is Config || self is Io),
    {
        match self {
            CoreError::Config(_) => true,
            CoreError::Io(_) => true,
            CoreError::Parse(_) => false,
            CoreError::Collaborator { .. } => false,
        }
    }
}

} // verus!
