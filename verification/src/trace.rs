//! Rendering of structured trace lines.
//!
//! Every observable step of the session client is reported as one JSON
//! object per line: fields `at` (timestamp), optional `ua` (an
//! environment-supplied tag), `via` (fixed client identifier), `sys`,
//! `sig`, and `val` (free text with `"` escaped).

use crate::msg::TraceRecord;
use vstd::prelude::*;

verus! {

/// The character for one decimal digit.
pub open spec fn digit_char(d: int) -> char {
    if d == 0 {
        '0'
    } else if d == 1 {
        '1'
    } else if d == 2 {
        '2'
    } else if d == 3 {
        '3'
    } else if d == 4 {
        '4'
    } else if d == 5 {
        '5'
    } else if d == 6 {
        '6'
    } else if d == 7 {
        '7'
    } else if d == 8 {
        '8'
    } else {
        '9'
    }
}

/// The decimal representation of `n`, most significant digit first.
pub open spec fn dec_string(n: nat) -> Seq<char>
    decreases n,
{
    if n < 10 {
        seq![digit_char(n as int)]
    } else {
        dec_string(n / 10).push(digit_char((n % 10) as int))
    }
}

/// One decimal digit as a string slice.
fn digit_str(d: u64) -> (r: &'static str)
    requires
        d < 10,
    ensures
        r@ == seq![digit_char(d as int)],
{
    if d == 0 {
        proof {
            reveal_strlit("0");
        }
        let r = "0";
        assert(r@ =~= seq![digit_char(d as int)]);
        r
    } else if d == 1 {
        proof {
            reveal_strlit("1");
        }
        let r = "1";
        assert(r@ =~= seq![digit_char(d as int)]);
        r
    } else if d == 2 {
        proof {
            reveal_strlit("2");
        }
        let r = "2";
        assert(r@ =~= seq![digit_char(d as int)]);
        r
    } else if d == 3 {
        proof {
            reveal_strlit("3");
        }
        let r = "3";
        assert(r@ =~= seq![digit_char(d as int)]);
        r
    } else if d == 4 {
        proof {
            reveal_strlit("4");
        }
        let r = "4";
        assert(r@ =~= seq![digit_char(d as int)]);
        r
    } else if d == 5 {
        proof {
            reveal_strlit("5");
        }
        let r = "5";
        assert(r@ =~= seq![digit_char(d as int)]);
        r
    } else if d == 6 {
        proof {
            reveal_strlit("6");
        }
        let r = "6";
        assert(r@ =~= seq![digit_char(d as int)]);
        r
    } else if d == 7 {
        proof {
            reveal_strlit("7");
        }
        let r = "7";
        assert(r@ =~= seq![digit_char(d as int)]);
        r
    } else if d == 8 {
        proof {
            reveal_strlit("8");
        }
        let r = "8";
        assert(r@ =~= seq![digit_char(d as int)]);
        r
    } else {
        proof {
            reveal_strlit("9");
        }
        let r = "9";
        assert(r@ =~= seq![digit_char(d as int)]);
        r
    }
}

/// Renders `n` in decimal.
pub fn u64_to_dec(n: u64) -> (r: String)
    ensures
        r@ == dec_string(n as nat),
    decreases n,
{
    if n < 10 {
        digit_str(n).to_owned()
    } else {
        let mut s = u64_to_dec(n / 10);
        s.append(digit_str(n % 10));
        proof {
            assert(dec_string((n / 10) as nat).push(digit_char((n % 10) as int)) =~= dec_string(
                (n / 10) as nat,
            ) + seq![digit_char((n % 10) as int)]);
        }
        s
    }
}

/// The fractional-second digits of a duration: empty for a whole
/// number of seconds, else a point and the millisecond digits with
/// trailing zeros dropped.
pub open spec fn frac_seconds(frac: u64) -> Seq<char> {
    if frac % 1000 == 0 {
        Seq::empty()
    } else if frac % 10 != 0 {
        "."@ + seq![
            digit_char(((frac / 100) % 10) as int),
            digit_char(((frac / 10) % 10) as int),
            digit_char((frac % 10) as int),
        ]
    } else if frac % 100 != 0 {
        "."@ + seq![
            digit_char(((frac / 100) % 10) as int),
            digit_char(((frac / 10) % 10) as int),
        ]
    } else {
        "."@ + seq![digit_char(((frac / 100) % 10) as int)]
    }
}

/// The wake-up note for a sleep of `len_ms` milliseconds: the length in
/// seconds, with any fractional part shown without trailing zeros.
pub open spec fn sleep_note(len_ms: u64) -> Seq<char> {
    "Slept "@ + dec_string((len_ms / 1000) as nat) + frac_seconds(len_ms % 1000) + "s"@
}

/// Renders the wake-up note for a sleep of `len_ms` milliseconds.
pub fn render_sleep_note(len_ms: u64) -> (r: String)
    ensures
        r@ == sleep_note(len_ms),
{
    let whole = len_ms / 1000;
    let frac = len_ms % 1000;
    let mut s = String::new();
    s.append("Slept ");
    let dec = u64_to_dec(whole);
    s.append(dec.as_str());
    if frac != 0 {
        s.append(".");
        if frac % 10 != 0 {
            s.append(digit_str((frac / 100) % 10));
            s.append(digit_str((frac / 10) % 10));
            s.append(digit_str(frac % 10));
        } else if frac % 100 != 0 {
            s.append(digit_str((frac / 100) % 10));
            s.append(digit_str((frac / 10) % 10));
        } else {
            s.append(digit_str((frac / 100) % 10));
        }
    }
    s.append("s");
    proof {
        assert(s@ =~= sleep_note(len_ms));
    }
    s
}

/// The payload of a trace line, with `"` characters escaped as `\"`.
pub open spec fn escaped(s: Seq<char>) -> Seq<char>
    decreases s.len(),
{
    if s.len() == 0 {
        Seq::empty()
    } else {
        escaped(s.drop_last()) + (if s.last() == '"' {
            seq!['\\', '"']
        } else {
            seq![s.last()]
        })
    }
}

/// Escapes every `"` in `s` as `\"`, leaving all other characters as they are.
pub fn escape_quotes(s: &str) -> (r: String)
    ensures
        r@ == escaped(s@),
{
    let n = s.unicode_len();
    let mut out = String::new();
    let mut i: usize = 0;
    while i < n
        invariant
            n == s@.len(),
            i <= n,
            out@ == escaped(s@.subrange(0, i as int)),
        decreases n - i,
    {
        let c = s.get_char(i);
        if c == '"' {
            out.append("\\\"");
            proof {
                reveal_strlit("\\\"");
            }
        } else {
            out.append(s.substring_char(i, i + 1));
        }
        proof {
            assert(s@.subrange(0, i + 1 as int).drop_last() =~= s@.subrange(0, i as int));
            assert(s@.subrange(0, i + 1 as int).last() == s@[i as int]);
            assert(s@.subrange(i as int, i + 1 as int) =~= seq![s@[i as int]]);
        }
        i = i + 1;
    }
    proof {
        assert(s@.subrange(0, n as int) =~= s@);
    }
    out
}

/// The full trace line for a record: one JSON object with fields `at`,
/// optional `ua` (omitted when the tag is empty), the fixed `via`
/// identifier, `sys`, `sig`, and the `"`-escaped `val`.
pub open spec fn trace_line(
    at: Seq<char>,
    ua: Seq<char>,
    sys: Seq<char>,
    sig: Seq<char>,
    val: Seq<char>,
) -> Seq<char> {
    "{ \"at\": \""@ + at + "\", "@ + (if ua.len() > 0 {
        "\"ua\": \""@ + ua + "\", "@
    } else {
        Seq::<char>::empty()
    }) + "\"via\": \"Visitant\", \"sys\": \""@ + sys + "\", \"sig\": \""@ + sig + "\", \"val\": \""@
        + escaped(val) + "\" }"@
}

/// Renders one trace record as a JSON line, given the timestamp text and
/// the environment-supplied tag.
pub fn render_trace_line(at: &str, ua: &str, rec: &TraceRecord) -> (r: String)
    ensures
        r@ == trace_line(at@, ua@, rec.sys@, rec.sig@, rec.val@),
{
    let mut out = String::new();
    out.append("{ \"at\": \"");
    out.append(at);
    out.append("\", ");
    if ua.unicode_len() > 0 {
        out.append("\"ua\": \"");
        out.append(ua);
        out.append("\", ");
    }
    out.append("\"via\": \"Visitant\", \"sys\": \"");
    out.append(rec.sys.as_str());
    out.append("\", \"sig\": \"");
    out.append(rec.sig.as_str());
    out.append("\", \"val\": \"");
    let escaped_val = escape_quotes(rec.val.as_str());
    out.append(escaped_val.as_str());
    out.append("\" }");
    proof {
        assert(out@ =~= trace_line(at@, ua@, rec.sys@, rec.sig@, rec.val@));
    }
    out
}

} // verus!
