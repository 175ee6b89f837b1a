//! Outbound protocol responses and their exact wire rendering: JSON tagged
//! arrays with the embedded strings escaped as a JSON encoder does.

use vstd::prelude::*;
use vstd::string::StrSliceExecFns;
use vstd::string::StringExecFns;

verus! {

/// The decimal digit character for a value below ten.
pub open spec fn digit_char(d: nat) -> char {
    if d == 0 {
        '0'
    } else if d == 1 {
        '1'
    } else if d == 2 {
        '2'
    } else if d == 3 {
        '3'
    } else if d == 4 {
        '4'
    } else if d == 5 {
        '5'
    } else if d == 6 {
        '6'
    } else if d == 7 {
        '7'
    } else if d == 8 {
        '8'
    } else {
        '9'
    }
}

/// The lower-case hexadecimal digit character for a value below sixteen.
pub open spec fn hex_digit(d: nat) -> char {
    if d < 10 {
        digit_char(d)
    } else if d == 10 {
        'a'
    } else if d == 11 {
        'b'
    } else if d == 12 {
        'c'
    } else if d == 13 {
        'd'
    } else if d == 14 {
        'e'
    } else {
        'f'
    }
}

/// The decimal numeral of `n`, most significant digit first, no sign and no
/// leading zero except for zero itself.
pub open spec fn dec_rep(n: nat) -> Seq<char>
    decreases n,
{
    if n < 10 {
        seq![digit_char(n)]
    } else {
        dec_rep(n / 10).push(digit_char(n % 10))
    }
}

/// How one character is written inside a JSON string literal: quote and
/// backslash get a backslash escape, the five control characters with short
/// escapes use them, every other control character is written `\u00XX`, and
/// everything else stands as itself.
pub open spec fn escaped_char(c: char) -> Seq<char> {
    if c == '"' {
        seq!['\\', '"']
    } else if c == '\\' {
        seq!['\\', '\\']
    } else if c == '\u{8}' {
        seq!['\\', 'b']
    } else if c == '\u{c}' {
        seq!['\\', 'f']
    } else if c == '\n' {
        seq!['\\', 'n']
    } else if c == '\r' {
        seq!['\\', 'r']
    } else if c == '\t' {
        seq!['\\', 't']
    } else if (c as nat) < 0x20 {
        seq!['\\', 'u', '0', '0', hex_digit(c as nat / 16), hex_digit(c as nat % 16)]
    } else {
        seq![c]
    }
}

/// The body of a JSON string literal for `s`: each character escaped.
pub open spec fn escaped(s: Seq<char>) -> Seq<char>
    decreases s.len(),
{
    if s.len() == 0 {
        Seq::<char>::empty()
    } else {
        escaped(s.drop_last()) + escaped_char(s.last())
    }
}

/// The complete JSON string literal for `s`, quotes included.
pub open spec fn json_quoted(s: Seq<char>) -> Seq<char> {
    seq!['"'] + escaped(s) + seq!['"']
}

/// A response frame sent back to the submitting client.
#[derive(Debug, Clone, PartialEq)]
pub enum Response {
    /// `["OK", id, true, ""]`: the event was accepted and stored.
    Accepted { id: String },
    /// `["NOTICE", msg]`: the submission was refused, with a human-readable
    /// reason.
    Notice { msg: String },
    /// `["EOSE", sub]`: no (further) stored events for the subscription.
    EndOfStream { sub: String },
}

/// The exact wire text of a response.
pub open spec fn rendered(r: Response) -> Seq<char> {
    match r {
        Response::Accepted { id } => "[\"OK\","@ + json_quoted(id@) + ",true,\"\"]"@,
        Response::Notice { msg } => "[\"NOTICE\","@ + json_quoted(msg@) + "]"@,
        Response::EndOfStream { sub } => "[\"EOSE\","@ + json_quoted(sub@) + "]"@,
    }
}

/// Relies on `String::push`: appends exactly the one character.
#[verifier::external_body]
pub(crate) fn push_char(s: &mut String, c: char)
    ensures
        final(s)@ == old(s)@.push(c),
{
    s.push(c);
}

fn hex_char(d: u32) -> (c: char)
    requires
        d < 16,
    ensures
        c == hex_digit(d as nat),
{
    if d == 0 {
        '0'
    } else if d == 1 {
        '1'
    } else if d == 2 {
        '2'
    } else if d == 3 {
        '3'
    } else if d == 4 {
        '4'
    } else if d == 5 {
        '5'
    } else if d == 6 {
        '6'
    } else if d == 7 {
        '7'
    } else if d == 8 {
        '8'
    } else if d == 9 {
        '9'
    } else if d == 10 {
        'a'
    } else if d == 11 {
        'b'
    } else if d == 12 {
        'c'
    } else if d == 13 {
        'd'
    } else if d == 14 {
        'e'
    } else {
        'f'
    }
}

/// The escaped body of the JSON string literal for `s`.
pub fn escape_json(s: &str) -> (r: String)
    ensures
        r@ == escaped(s@),
{
    let n: usize = s.unicode_len();
    let mut out = String::new();
    let mut i: usize = 0;
    while i < n
        invariant
            n == s@.len(),
            i <= n,
            out@ == escaped(s@.take(i as int)),
        decreases n - i,
    {
        let c = s.get_char(i);
        proof {
            assert(s@.take(i + 1).drop_last() =~= s@.take(i as int));
            assert(s@.take(i + 1).last() == s@[i as int]);
        }
        let ghost before = out@;
        if c == '"' {
            push_char(&mut out, '\\');
            push_char(&mut out, '"');
            proof {
                assert(out@ =~= before + escaped_char(c));
            }
        } else if c == '\\' {
            push_char(&mut out, '\\');
            push_char(&mut out, '\\');
            proof {
                assert(out@ =~= before + escaped_char(c));
            }
        } else if c == '\u{8}' {
            push_char(&mut out, '\\');
            push_char(&mut out, 'b');
            proof {
                assert(out@ =~= before + escaped_char(c));
            }
        } else if c == '\u{c}' {
            push_char(&mut out, '\\');
            push_char(&mut out, 'f');
            proof {
                assert(out@ =~= before + escaped_char(c));
            }
        } else if c == '\n' {
            push_char(&mut out, '\\');
            push_char(&mut out, 'n');
            proof {
                assert(out@ =~= before + escaped_char(c));
            }
        } else if c == '\r' {
            push_char(&mut out, '\\');
            push_char(&mut out, 'r');
            proof {
                assert(out@ =~= before + escaped_char(c));
            }
        } else if c == '\t' {
            push_char(&mut out, '\\');
            push_char(&mut out, 't');
            proof {
                assert(out@ =~= before + escaped_char(c));
            }
        } else if (c as u32) < 0x20 {
            let v: u32 = c as u32;
            push_char(&mut out, '\\');
            push_char(&mut out, 'u');
            push_char(&mut out, '0');
            push_char(&mut out, '0');
            push_char(&mut out, hex_char(v / 16));
            push_char(&mut out, hex_char(v % 16));
            proof {
                assert(out@ =~= before + escaped_char(c));
            }
        } else {
            push_char(&mut out, c);
            proof {
                assert(out@ =~= before + escaped_char(c));
            }
        }
        i = i + 1;
    }
    proof {
        assert(s@.take(n as int) =~= s@);
    }
    out
}

/// The complete JSON string literal for `s`.
pub fn quote_json(s: &str) -> (r: String)
    ensures
        r@ == json_quoted(s@),
{
    let mut out = String::new();
    push_char(&mut out, '"');
    let body = escape_json(s);
    out.append(body.as_str());
    push_char(&mut out, '"');
    proof {
        assert(out@ =~= json_quoted(s@));
    }
    out
}

fn digit_str(d: u64) -> (r: &'static str)
    requires
        d < 10,
    ensures
        r@ == seq![digit_char(d as nat)],
{
    if d == 0 {
        let s = "0";
        proof {
            reveal_strlit("0");
            assert(s@ =~= seq![digit_char(0)]);
        }
        s
    } else if d == 1 {
        let s = "1";
        proof {
            reveal_strlit("1");
            assert(s@ =~= seq![digit_char(1)]);
        }
        s
    } else if d == 2 {
        let s = "2";
        proof {
            reveal_strlit("2");
            assert(s@ =~= seq![digit_char(2)]);
        }
        s
    } else if d == 3 {
        let s = "3";
        proof {
            reveal_strlit("3");
            assert(s@ =~= seq![digit_char(3)]);
        }
        s
    } else if d == 4 {
        let s = "4";
        proof {
            reveal_strlit("4");
            assert(s@ =~= seq![digit_char(4)]);
        }
        s
    } else if d == 5 {
        let s = "5";
        proof {
            reveal_strlit("5");
            assert(s@ =~= seq![digit_char(5)]);
        }
        s
    } else if d == 6 {
        let s = "6";
        proof {
            reveal_strlit("6");
            assert(s@ =~= seq![digit_char(6)]);
        }
        s
    } else if d == 7 {
        let s = "7";
        proof {
            reveal_strlit("7");
            assert(s@ =~= seq![digit_char(7)]);
        }
        s
    } else if d == 8 {
        let s = "8";
        proof {
            reveal_strlit("8");
            assert(s@ =~= seq![digit_char(8)]);
        }
        s
    } else {
        let s = "9";
        proof {
            reveal_strlit("9");
            assert(s@ =~= seq![digit_char(9)]);
        }
        s
    }
}

/// The decimal numeral of `n` as text.
pub fn render_u64(n: u64) -> (r: String)
    ensures
        r@ == dec_rep(n as nat),
    decreases n,
{
    if n < 10 {
        let mut out = String::new();
        out.append(digit_str(n));
        proof {
            assert(out@ =~= dec_rep(n as nat));
        }
        out
    } else {
        let mut out = render_u64(n / 10);
        out.append(digit_str(n % 10));
        proof {
            assert(out@ =~= dec_rep(n as nat));
        }
        out
    }
}

/// The wire text of a response, exactly `rendered`.
pub fn render(r: &Response) -> (out: String)
    ensures
        out@ == rendered(*r),
{
    match r {
        Response::Accepted { id } => {
            let mut out: String = "[\"OK\",".to_owned();
            let q = quote_json(id.as_str());
            out.append(q.as_str());
            out.append(",true,\"\"]");
            proof {
                assert(out@ =~= rendered(*r));
            }
            out
        },
        Response::Notice { msg } => {
            let mut out: String = "[\"NOTICE\",".to_owned();
            let q = quote_json(msg.as_str());
            out.append(q.as_str());
            out.append("]");
            proof {
                assert(out@ =~= rendered(*r));
            }
            out
        },
        Response::EndOfStream { sub } => {
            let mut out: String = "[\"EOSE\",".to_owned();
            let q = quote_json(sub.as_str());
            out.append(q.as_str());
            out.append("]");
            proof {
                assert(out@ =~= rendered(*r));
            }
            out
        },
    }
}

} // verus!
