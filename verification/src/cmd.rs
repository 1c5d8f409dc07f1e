//! The operator command parser.
//!
//! One line of operator text (already trimmed) is turned into a typed
//! [`Command`], a notice back to the operator (for unknown commands and
//! malformed arguments), or nothing (for empty lines). Parsing is
//! prefix/keyword based: after a recognized keyword the remainder of
//! the line is taken verbatim, except for `LOGIN`, whose arguments are
//! whitespace-separated tokens, and `SLEEP`, whose argument is a
//! decimal number of seconds.

use crate::msg::{CmdView, Command};
use vstd::prelude::*;

verus! {

/// The whitespace characters recognized when trimming and tokenizing.
pub open spec fn is_space(c: char) -> bool {
    c == ' ' || c == '\t' || c == '\r' || c == '\n'
}

/// `p` is a prefix of `l`.
pub open spec fn has_prefix(l: Seq<char>, p: Seq<char>) -> bool {
    l.len() >= p.len() && l.subrange(0, p.len() as int) == p
}

/// `l` without its first `n` characters.
pub open spec fn rest(l: Seq<char>, n: int) -> Seq<char> {
    l.subrange(n, l.len() as int)
}

/// `s` without leading whitespace.
pub open spec fn trim_front(s: Seq<char>) -> Seq<char>
    decreases s.len(),
{
    if s.len() > 0 && is_space(s[0]) {
        trim_front(s.drop_first())
    } else {
        s
    }
}

/// `s` without trailing whitespace.
pub open spec fn trim_back(s: Seq<char>) -> Seq<char>
    decreases s.len(),
{
    if s.len() > 0 && is_space(s.last()) {
        trim_back(s.drop_last())
    } else {
        s
    }
}

/// `s` without leading and trailing whitespace.
pub open spec fn trimmed(s: Seq<char>) -> Seq<char> {
    trim_back(trim_front(s))
}

/// The longest whitespace-free prefix of `s`.
pub open spec fn take_until_space(s: Seq<char>) -> Seq<char>
    decreases s.len(),
{
    if s.len() == 0 || is_space(s[0]) {
        Seq::empty()
    } else {
        seq![s[0]] + take_until_space(s.drop_first())
    }
}

proof fn lemma_take_until_space_len(s: Seq<char>)
    ensures
        take_until_space(s).len() <= s.len(),
        s.len() > 0 && !is_space(s[0]) ==> take_until_space(s).len() >= 1,
    decreases s.len(),
{
    if s.len() > 0 && !is_space(s[0]) {
        lemma_take_until_space_len(s.drop_first());
    }
}

/// The whitespace-separated tokens of `s`, in order.
pub open spec fn tokens_of(s: Seq<char>) -> Seq<Seq<char>>
    decreases s.len(),
    when s.len() >= 0
    via tokens_of_decreases
{
    if s.len() == 0 {
        Seq::empty()
    } else if is_space(s[0]) {
        tokens_of(s.drop_first())
    } else {
        seq![take_until_space(s)] + tokens_of(s.skip(take_until_space(s).len() as int))
    }
}

#[via_fn]
proof fn tokens_of_decreases(s: Seq<char>) {
    if s.len() > 0 && !is_space(s[0]) {
        lemma_take_until_space_len(s);
    }
}

/// A decimal digit.
pub open spec fn is_digit(c: char) -> bool {
    48 <= c as u32 <= 57
}

/// The numeric value of a digit character.
pub open spec fn digit_val(c: char) -> int {
    c as u32 - 48
}

/// Every character of `s` is a decimal digit.
pub open spec fn all_digits(s: Seq<char>) -> bool {
    forall|i: int| 0 <= i < s.len() ==> is_digit(#[trigger] s[i])
}

/// The numeric value of a digit string, most significant digit first.
pub open spec fn digits_val(s: Seq<char>) -> int
    decreases s.len(),
{
    if s.len() == 0 {
        0
    } else {
        digits_val(s.drop_last()) * 10 + digit_val(s.last())
    }
}

/// The index of the first `.` in `s`, if any.
pub open spec fn dot_pos(s: Seq<char>) -> Option<int>
    decreases s.len(),
{
    if s.len() == 0 {
        None
    } else if s[0] == '.' {
        Some(0)
    } else {
        match dot_pos(s.drop_first()) {
            Some(i) => Some(i + 1),
            None => None,
        }
    }
}

/// `u`, without any sign, is an accepted decimal number: digits with at
/// most one point, and at least one digit. This is the command
/// language's whole numeric grammar, chosen deliberately: exponent
/// forms and the special float names are answered with the usage
/// notice, so that every accepted length has one exact value in
/// milliseconds.
pub open spec fn valid_decimal(u: Seq<char>) -> bool {
    match dot_pos(u) {
        None => u.len() > 0 && all_digits(u),
        Some(i) => all_digits(u.subrange(0, i)) && all_digits(rest(u, i + 1)) && (i > 0 || u.len()
            > i + 1),
    }
}

/// `f` padded with trailing zeros to exactly three digits, keeping only
/// the first three: the fractional part's contribution in milliseconds.
pub open spec fn pad3(f: Seq<char>) -> Seq<char> {
    if f.len() >= 3 {
        f.take(3)
    } else if f.len() == 2 {
        f + seq!['0']
    } else if f.len() == 1 {
        f + seq!['0', '0']
    } else {
        seq!['0', '0', '0']
    }
}

/// The whole-second digits of `u` (everything before the point).
pub open spec fn whole_part(u: Seq<char>) -> Seq<char> {
    match dot_pos(u) {
        None => u,
        Some(i) => u.subrange(0, i),
    }
}

/// The fractional digits of `u` (everything after the point).
pub open spec fn frac_part(u: Seq<char>) -> Seq<char> {
    match dot_pos(u) {
        None => Seq::empty(),
        Some(i) => rest(u, i + 1),
    }
}

/// The value of the unsigned decimal `u` in milliseconds, truncated
/// below one millisecond and capped at `u64::MAX`.
pub open spec fn decimal_millis(u: Seq<char>) -> u64 {
    let v = digits_val(whole_part(u)) * 1000 + digits_val(pad3(frac_part(u)));
    if v > u64::MAX {
        u64::MAX
    } else {
        v as u64
    }
}

/// The sleep length a `SLEEP` argument asks for, in milliseconds:
/// `None` when the argument is not an accepted decimal; zero when it is
/// negative (an immediate wake-up).
pub open spec fn parse_sleep_millis(t: Seq<char>) -> Option<u64> {
    let signed = t.len() > 0 && (t[0] == '+' || t[0] == '-');
    let u = if signed {
        t.drop_first()
    } else {
        t
    };
    if !valid_decimal(u) {
        None
    } else if t[0] == '-' {
        Some(0)
    } else {
        Some(decimal_millis(u))
    }
}

/// Whether `c` is recognized whitespace.
fn is_space_c(c: char) -> (b: bool)
    ensures
        b == is_space(c),
{
    c == ' ' || c == '\t' || c == '\r' || c == '\n'
}

/// Whether `p` is a prefix of `s`.
fn str_starts_with(s: &str, p: &str) -> (b: bool)
    ensures
        b == has_prefix(s@, p@),
{
    let n = s.unicode_len();
    let m = p.unicode_len();
    if m > n {
        return false;
    }
    let mut i: usize = 0;
    while i < m
        invariant
            i <= m,
            m <= n,
            n == s@.len(),
            m == p@.len(),
            forall|j: int| 0 <= j < i ==> s@[j] == p@[j],
        decreases m - i,
    {
        if s.get_char(i) != p.get_char(i) {
            proof {
                if has_prefix(s@, p@) {
                    assert(s@.subrange(0, m as int)[i as int] == s@[i as int]);
                }
            }
            return false;
        }
        i = i + 1;
    }
    proof {
        assert(s@.subrange(0, m as int) =~= p@);
    }
    true
}

/// Whether `s` and `p` hold the same characters.
pub(crate) fn str_equal(s: &str, p: &str) -> (b: bool)
    ensures
        b == (s@ == p@),
{
    let n = s.unicode_len();
    let m = p.unicode_len();
    if n != m {
        return false;
    }
    let mut i: usize = 0;
    while i < n
        invariant
            i <= n,
            n == s@.len(),
            n == p@.len(),
            forall|j: int| 0 <= j < i ==> s@[j] == p@[j],
        decreases n - i,
    {
        if s.get_char(i) != p.get_char(i) {
            return false;
        }
        i = i + 1;
    }
    proof {
        assert(s@ =~= p@);
    }
    true
}

/// `s` without leading whitespace.
fn trim_front_str(s: &str) -> (r: &str)
    ensures
        r@ == trim_front(s@),
    decreases s@.len(),
{
    let n = s.unicode_len();
    if n > 0 && is_space_c(s.get_char(0)) {
        let t = s.substring_char(1, n);
        proof {
            assert(t@ =~= s@.drop_first());
        }
        trim_front_str(t)
    } else {
        s
    }
}

/// `s` without trailing whitespace.
fn trim_back_str(s: &str) -> (r: &str)
    ensures
        r@ == trim_back(s@),
    decreases s@.len(),
{
    let n = s.unicode_len();
    if n > 0 && is_space_c(s.get_char(n - 1)) {
        let t = s.substring_char(0, n - 1);
        proof {
            assert(t@ =~= s@.drop_last());
        }
        trim_back_str(t)
    } else {
        s
    }
}

/// Strips leading and trailing whitespace, as the command source does
/// before classifying a line.
pub fn trim_spaces(s: &str) -> (r: &str)
    ensures
        r@ == trimmed(s@),
{
    let f = trim_front_str(s);
    trim_back_str(f)
}

/// The index where the first whitespace-free run of `s` ends.
fn token_end(s: &str) -> (k: usize)
    ensures
        k <= s@.len(),
        forall|j: int| 0 <= j < k ==> !is_space(#[trigger] s@[j]),
        k < s@.len() ==> is_space(s@[k as int]),
{
    let n = s.unicode_len();
    let mut i: usize = 0;
    while i < n
        invariant
            i <= n,
            n == s@.len(),
            forall|j: int| 0 <= j < i ==> !is_space(#[trigger] s@[j]),
        decreases n - i,
    {
        if is_space_c(s.get_char(i)) {
            return i;
        }
        i = i + 1;
    }
    n
}

proof fn lemma_take_until_space_prefix(s: Seq<char>, k: int)
    requires
        0 <= k <= s.len(),
        forall|j: int| 0 <= j < k ==> !is_space(#[trigger] s[j]),
        k < s.len() ==> is_space(s[k]),
    ensures
        take_until_space(s) == s.subrange(0, k),
    decreases s.len(),
{
    if s.len() == 0 || k == 0 {
        assert(s.subrange(0, 0) =~= Seq::<char>::empty());
    } else {
        lemma_take_until_space_prefix(s.drop_first(), k - 1);
        assert(take_until_space(s) =~= s.subrange(0, k));
    }
}

/// The whitespace-separated tokens of `s`, in order.
fn tokenize(s: &str) -> (r: Vec<String>)
    ensures
        r.deep_view() == tokens_of(s@),
    decreases s@.len(),
{
    let n = s.unicode_len();
    if n == 0 {
        let r = Vec::new();
        proof {
            assert(r.deep_view() =~= tokens_of(s@));
        }
        r
    } else if is_space_c(s.get_char(0)) {
        let t = s.substring_char(1, n);
        proof {
            assert(t@ =~= s@.drop_first());
        }
        tokenize(t)
    } else {
        let k = token_end(s);
        proof {
            lemma_take_until_space_prefix(s@, k as int);
            lemma_take_until_space_len(s@);
        }
        let tok = s.substring_char(0, k).to_owned();
        let tail = s.substring_char(k, n);
        proof {
            assert(tail@ =~= s@.skip(take_until_space(s@).len() as int));
        }
        let mut r = tokenize(tail);
        r.insert(0, tok);
        proof {
            assert(r.deep_view() =~= tokens_of(s@));
        }
        r
    }
}

/// Whether `c` is a decimal digit.
fn is_digit_c(c: char) -> (b: bool)
    ensures
        b == is_digit(c),
{
    let x = c as u32;
    48 <= x && x <= 57
}

/// Whether every character of `s` is a decimal digit.
fn all_digits_check(s: &str) -> (b: bool)
    ensures
        b == all_digits(s@),
{
    let n = s.unicode_len();
    let mut i: usize = 0;
    while i < n
        invariant
            i <= n,
            n == s@.len(),
            forall|j: int| 0 <= j < i ==> is_digit(#[trigger] s@[j]),
        decreases n - i,
    {
        if !is_digit_c(s.get_char(i)) {
            return false;
        }
        i = i + 1;
    }
    true
}

proof fn lemma_dot_pos_some(s: Seq<char>, k: int)
    requires
        0 <= k < s.len(),
        forall|j: int| 0 <= j < k ==> #[trigger] s[j] != '.',
        s[k] == '.',
    ensures
        dot_pos(s) == Some(k),
    decreases s.len(),
{
    if k > 0 {
        lemma_dot_pos_some(s.drop_first(), k - 1);
    }
}

proof fn lemma_dot_pos_none(s: Seq<char>)
    requires
        forall|j: int| 0 <= j < s.len() ==> #[trigger] s[j] != '.',
    ensures
        dot_pos(s) is None,
    decreases s.len(),
{
    if s.len() > 0 {
        lemma_dot_pos_none(s.drop_first());
    }
}

/// The index of the first `.` in `s`, if any.
fn find_dot(s: &str) -> (r: Option<usize>)
    ensures
        match r {
            Some(k) => dot_pos(s@) == Some(k as int) && k < s@.len(),
            None => dot_pos(s@) is None,
        },
{
    let n = s.unicode_len();
    let mut i: usize = 0;
    while i < n
        invariant
            i <= n,
            n == s@.len(),
            forall|j: int| 0 <= j < i ==> #[trigger] s@[j] != '.',
        decreases n - i,
    {
        if s.get_char(i) == '.' {
            proof {
                lemma_dot_pos_some(s@, i as int);
            }
            return Some(i);
        }
        i = i + 1;
    }
    proof {
        lemma_dot_pos_none(s@);
    }
    None
}

/// `digits_val(s)` capped at `u64::MAX`.
pub open spec fn capped_digits(s: Seq<char>) -> u64 {
    if digits_val(s) > u64::MAX {
        u64::MAX
    } else {
        digits_val(s) as u64
    }
}

proof fn lemma_digits_val_bounds(s: Seq<char>)
    requires
        all_digits(s),
    ensures
        digits_val(s) >= 0,
    decreases s.len(),
{
    if s.len() > 0 {
        assert(forall|j: int| 0 <= j < s.drop_last().len() ==> is_digit(
            #[trigger] s.drop_last()[j],
        ));
        lemma_digits_val_bounds(s.drop_last());
    }
}

/// Reads a digit string left to right, saturating at `u64::MAX`.
fn read_digits_capped(s: &str) -> (r: u64)
    requires
        all_digits(s@),
    ensures
        r == capped_digits(s@),
{
    let n = s.unicode_len();
    let mut acc: u64 = 0;
    let mut i: usize = 0;
    proof {
        assert(s@.take(0) =~= Seq::<char>::empty());
    }
    while i < n
        invariant
            i <= n,
            n == s@.len(),
            all_digits(s@),
            acc == capped_digits(s@.take(i as int)),
        decreases n - i,
    {
        let c = s.get_char(i);
        let d = (c as u32 - 48) as u64;
        proof {
            let pre = s@.take(i as int);
            let post = s@.take(i + 1);
            assert(post.drop_last() =~= pre);
            assert(post.last() == s@[i as int]);
            assert(forall|j: int| 0 <= j < pre.len() ==> is_digit(#[trigger] pre[j]));
            lemma_digits_val_bounds(pre);
        }
        acc = match acc.checked_mul(10) {
            Some(x) => match x.checked_add(d) {
                Some(y) => y,
                None => u64::MAX,
            },
            None => u64::MAX,
        };
        i = i + 1;
    }
    proof {
        assert(s@.take(n as int) =~= s@);
    }
    acc
}

proof fn lemma_digits3(a: char, b: char, c: char)
    ensures
        digits_val(seq![a, b, c]) == 100 * digit_val(a) + 10 * digit_val(b) + digit_val(c),
{
    assert(digits_val(Seq::<char>::empty()) == 0);
    assert(seq![a].drop_last() =~= Seq::<char>::empty());
    assert(digits_val(seq![a]) == digit_val(a));
    assert(seq![a, b].drop_last() =~= seq![a]);
    assert(digits_val(seq![a, b]) == 10 * digit_val(a) + digit_val(b));
    assert(seq![a, b, c].drop_last() =~= seq![a, b]);
}

/// The milliseconds contributed by the fractional digits `f`: the first
/// three digits, padded with zeros.
fn frac_millis(f: &str) -> (r: u64)
    requires
        all_digits(f@),
    ensures
        r == digits_val(pad3(f@)),
        r <= 999,
{
    let n = f.unicode_len();
    let d0: u64 = if n >= 1 {
        (f.get_char(0) as u32 - 48) as u64
    } else {
        0
    };
    let d1: u64 = if n >= 2 {
        (f.get_char(1) as u32 - 48) as u64
    } else {
        0
    };
    let d2: u64 = if n >= 3 {
        (f.get_char(2) as u32 - 48) as u64
    } else {
        0
    };
    proof {
        let p = pad3(f@);
        if f@.len() >= 3 {
            assert(p =~= seq![f@[0], f@[1], f@[2]]);
        } else if f@.len() == 2 {
            assert(p =~= seq![f@[0], f@[1], '0']);
        } else if f@.len() == 1 {
            assert(p =~= seq![f@[0], '0', '0']);
        } else {
            assert(p =~= seq!['0', '0', '0']);
        }
        lemma_digits3(p[0], p[1], p[2]);
    }
    d0 * 100 + d1 * 10 + d2
}

/// Reads a `SLEEP` argument: an optionally signed decimal number of
/// seconds, answered in milliseconds as [`parse_sleep_millis`] says.
fn parse_sleep(t: &str) -> (r: Option<u64>)
    ensures
        r == parse_sleep_millis(t@),
{
    let n = t.unicode_len();
    let signed = n > 0 && (t.get_char(0) == '+' || t.get_char(0) == '-');
    let neg = n > 0 && t.get_char(0) == '-';
    let u = if signed {
        let u0 = t.substring_char(1, n);
        proof {
            assert(u0@ =~= t@.drop_first());
        }
        u0
    } else {
        t
    };
    let m = u.unicode_len();
    let wend = match find_dot(u) {
        Some(k) => k,
        None => m,
    };
    let w = u.substring_char(0, wend);
    let f = u.substring_char(wend + if wend < m { 1 } else { 0 }, m);
    proof {
        match dot_pos(u@) {
            Some(k) => {
                assert(w@ =~= whole_part(u@));
                assert(f@ =~= frac_part(u@));
            },
            None => {
                assert(w@ =~= whole_part(u@));
                assert(f@ =~= frac_part(u@));
            },
        }
    }
    if !(all_digits_check(w) && all_digits_check(f) && (w.unicode_len() > 0 || f.unicode_len()
        > 0)) {
        proof {
            assert(!valid_decimal(u@));
        }
        return None;
    }
    proof {
        assert(valid_decimal(u@));
    }
    if neg {
        return Some(0);
    }
    let cw = read_digits_capped(w);
    let fm = frac_millis(f);
    proof {
        lemma_digits_val_bounds(w@);
        lemma_digits_val_bounds(pad3(f@));
    }
    let v = match cw.checked_mul(1000) {
        Some(x) => match x.checked_add(fm) {
            Some(y) => y,
            None => u64::MAX,
        },
        None => u64::MAX,
    };
    Some(v)
}

/// The parser's answer to one line of operator text.
pub enum LineResponse {
    /// A recognized, well-formed command, for the engine's queue.
    Dispatch(Command),
    /// A notice back to the operator; nothing reaches the engine.
    Notice(String),
    /// An empty line; nothing happens.
    Ignore,
}

/// The mathematical value of a [`LineResponse`].
pub enum LineView {
    Dispatch(CmdView),
    Notice(Seq<char>),
    Ignore,
}

impl View for LineResponse {
    type V = LineView;

    open spec fn view(&self) -> LineView {
        match self {
            LineResponse::Dispatch(c) => LineView::Dispatch(c@),
            LineResponse::Notice(s) => LineView::Notice(s@),
            LineResponse::Ignore => LineView::Ignore,
        }
    }
}

/// The default grid URL a `LOGIN` without a URI token logs in against.
pub open spec fn default_uri() -> Seq<char> {
    "http://127.0.0.1:9000/"@
}

/// How a `LOGIN` argument list is read: at least first name, last name
/// and password, with an optional URI token; anything less is answered
/// with a usage notice.
pub open spec fn login_line(args: Seq<char>) -> LineView {
    let ts = tokens_of(args);
    if ts.len() >= 3 {
        LineView::Dispatch(
            CmdView::Login {
                first: ts[0],
                last: ts[1],
                pass: ts[2],
                uri: if ts.len() > 3 {
                    ts[3]
                } else {
                    default_uri()
                },
            },
        )
    } else {
        LineView::Notice("Usage: LOGIN First Last Pass [URI]"@)
    }
}

/// How a `SLEEP` argument is read.
pub open spec fn sleep_line(arg: Seq<char>) -> LineView {
    match parse_sleep_millis(arg) {
        Some(ms) => LineView::Dispatch(CmdView::Sleep { millis: ms }),
        None => LineView::Notice("Usage: SLEEP float_seconds"@),
    }
}

/// How one (already trimmed) line of operator text is classified.
///
/// Empty lines are ignored; a recognized keyword yields its command or
/// a usage notice; everything else yields the unknown-command notice.
pub open spec fn parse_line_spec(l: Seq<char>) -> LineView {
    if l.len() == 0 {
        LineView::Ignore
    } else if has_prefix(l, "LOGIN "@) {
        login_line(rest(l, "LOGIN "@.len() as int))
    } else if has_prefix(l, "CHAT "@) {
        LineView::Dispatch(CmdView::Chat { text: rest(l, "CHAT "@.len() as int) })
    } else if has_prefix(l, "SLEEP "@) {
        sleep_line(rest(l, "SLEEP "@.len() as int))
    } else if l == "WHOAMI"@ {
        LineView::Dispatch(CmdView::WhoAmI)
    } else if l == "WHO"@ {
        LineView::Dispatch(CmdView::Who)
    } else if l == "WHERE"@ {
        LineView::Dispatch(CmdView::Where)
    } else if l == "WHEN"@ {
        LineView::Dispatch(CmdView::When)
    } else if l == "SUBJECTIVE_WHY"@ {
        LineView::Dispatch(CmdView::SubjectiveWhy)
    } else if has_prefix(l, "SUBJECTIVE_BECAUSE "@) {
        LineView::Dispatch(
            CmdView::SubjectiveBecause { text: rest(l, "SUBJECTIVE_BECAUSE "@.len() as int) },
        )
    } else if l == "SUBJECTIVE_LOOK"@ {
        LineView::Dispatch(CmdView::SubjectiveLook)
    } else if has_prefix(l, "SUBJECTIVE_GOTO "@) {
        LineView::Dispatch(
            CmdView::SubjectiveGoto { dest: rest(l, "SUBJECTIVE_GOTO "@.len() as int) },
        )
    } else if has_prefix(l, "POS "@) {
        LineView::Dispatch(CmdView::Pos { dest: rest(l, "POS "@.len() as int) })
    } else if l == "LOGOUT"@ {
        LineView::Dispatch(CmdView::Logout)
    } else if l == "EXIT"@ {
        LineView::Dispatch(CmdView::Exit)
    } else {
        LineView::Notice("Unknown command: "@ + l)
    }
}

/// Classifies one (already trimmed) line of operator text, as
/// [`parse_line_spec`] says.
pub fn parse_line(l: &str) -> (r: LineResponse)
    ensures
        r@ == parse_line_spec(l@),
{
    let n = l.unicode_len();
    if n == 0 {
        LineResponse::Ignore
    } else if str_starts_with(l, "LOGIN ") {
        let m = "LOGIN ".unicode_len();
        let args = l.substring_char(m, n);
        proof {
            assert(args@ =~= rest(l@, "LOGIN "@.len() as int));
        }
        let toks = tokenize(args);
        proof {
            assert(toks.deep_view().len() == toks@.len());
        }
        if toks.len() >= 3 {
            let first = toks[0].clone();
            let last = toks[1].clone();
            let pass = toks[2].clone();
            let uri = if toks.len() > 3 {
                toks[3].clone()
            } else {
                "http://127.0.0.1:9000/".to_owned()
            };
            let r = LineResponse::Dispatch(Command::Login { first, last, pass, uri });
            proof {
                let ts = tokens_of(args@);
                assert(ts[0] == toks@[0]@);
                assert(ts[1] == toks@[1]@);
                assert(ts[2] == toks@[2]@);
                if toks@.len() > 3 {
                    assert(ts[3] == toks@[3]@);
                }
            }
            r
        } else {
            LineResponse::Notice("Usage: LOGIN First Last Pass [URI]".to_owned())
        }
    } else if str_starts_with(l, "CHAT ") {
        let m = "CHAT ".unicode_len();
        let text = l.substring_char(m, n).to_owned();
        proof {
            assert(text@ =~= rest(l@, "CHAT "@.len() as int));
        }
        LineResponse::Dispatch(Command::Chat { text })
    } else if str_starts_with(l, "SLEEP ") {
        let m = "SLEEP ".unicode_len();
        let arg = l.substring_char(m, n);
        proof {
            assert(arg@ =~= rest(l@, "SLEEP "@.len() as int));
        }
        match parse_sleep(arg) {
            Some(ms) => LineResponse::Dispatch(Command::Sleep { millis: ms }),
            None => LineResponse::Notice("Usage: SLEEP float_seconds".to_owned()),
        }
    } else if str_equal(l, "WHOAMI") {
        LineResponse::Dispatch(Command::WhoAmI)
    } else if str_equal(l, "WHO") {
        LineResponse::Dispatch(Command::Who)
    } else if str_equal(l, "WHERE") {
        LineResponse::Dispatch(Command::Where)
    } else if str_equal(l, "WHEN") {
        LineResponse::Dispatch(Command::When)
    } else if str_equal(l, "SUBJECTIVE_WHY") {
        LineResponse::Dispatch(Command::SubjectiveWhy)
    } else if str_starts_with(l, "SUBJECTIVE_BECAUSE ") {
        let m = "SUBJECTIVE_BECAUSE ".unicode_len();
        let text = l.substring_char(m, n).to_owned();
        proof {
            assert(text@ =~= rest(l@, "SUBJECTIVE_BECAUSE "@.len() as int));
        }
        LineResponse::Dispatch(Command::SubjectiveBecause { text })
    } else if str_equal(l, "SUBJECTIVE_LOOK") {
        LineResponse::Dispatch(Command::SubjectiveLook)
    } else if str_starts_with(l, "SUBJECTIVE_GOTO ") {
        let m = "SUBJECTIVE_GOTO ".unicode_len();
        let dest = l.substring_char(m, n).to_owned();
        proof {
            assert(dest@ =~= rest(l@, "SUBJECTIVE_GOTO "@.len() as int));
        }
        LineResponse::Dispatch(Command::SubjectiveGoto { dest })
    } else if str_starts_with(l, "POS ") {
        let m = "POS ".unicode_len();
        let dest = l.substring_char(m, n).to_owned();
        proof {
            assert(dest@ =~= rest(l@, "POS "@.len() as int));
        }
        LineResponse::Dispatch(Command::Pos { dest })
    } else if str_equal(l, "LOGOUT") {
        LineResponse::Dispatch(Command::Logout)
    } else if str_equal(l, "EXIT") {
        LineResponse::Dispatch(Command::Exit)
    } else {
        let mut msg = String::new();
        msg.append("Unknown command: ");
        msg.append(l);
        LineResponse::Notice(msg)
    }
}

/// `l` begins with (or is) one of the recognized command keywords.
pub open spec fn recognized(l: Seq<char>) -> bool {
    ||| has_prefix(l, "LOGIN "@)
    ||| has_prefix(l, "CHAT "@)
    ||| has_prefix(l, "SLEEP "@)
    ||| l == "WHOAMI"@
    ||| l == "WHO"@
    ||| l == "WHERE"@
    ||| l == "WHEN"@
    ||| l == "SUBJECTIVE_WHY"@
    ||| has_prefix(l, "SUBJECTIVE_BECAUSE "@)
    ||| l == "SUBJECTIVE_LOOK"@
    ||| has_prefix(l, "SUBJECTIVE_GOTO "@)
    ||| has_prefix(l, "POS "@)
    ||| l == "LOGOUT"@
    ||| l == "EXIT"@
}

/// Law: every unrecognized, nonempty command line yields exactly the
/// unknown-command notice and dispatches no command — so such a line
/// can never reach the session engine, and the session state is
/// unchanged by it.
pub proof fn lemma_unrecognized_line_is_inert(l: Seq<char>)
    requires
        l.len() > 0,
        !recognized(l),
    ensures
        parse_line_spec(l) == LineView::Notice("Unknown command: "@ + l),
        !(parse_line_spec(l) is Dispatch),
{
}

} // verus!
