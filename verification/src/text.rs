//! Text utilities shared by the renderer: first-line summarization of
//! documentation strings, decimal formatting, and list joining.

use vstd::prelude::*;
use vstd::string::*;

verus! {

/// The characters that count as whitespace when a documentation line is
/// trimmed (the Unicode white-space set).
pub open spec fn is_ws_char(c: char) -> bool {
    ||| c == ' '
    ||| c == '\t'
    ||| c == '\n'
    ||| c == '\r'
    ||| c == '\u{000B}'
    ||| c == '\u{000C}'
    ||| c == '\u{0085}'
    ||| c == '\u{00A0}'
    ||| c == '\u{1680}'
    ||| c == '\u{2000}'
    ||| c == '\u{2001}'
    ||| c == '\u{2002}'
    ||| c == '\u{2003}'
    ||| c == '\u{2004}'
    ||| c == '\u{2005}'
    ||| c == '\u{2006}'
    ||| c == '\u{2007}'
    ||| c == '\u{2008}'
    ||| c == '\u{2009}'
    ||| c == '\u{200A}'
    ||| c == '\u{2028}'
    ||| c == '\u{2029}'
    ||| c == '\u{202F}'
    ||| c == '\u{205F}'
    ||| c == '\u{3000}'
}

fn is_ws(c: char) -> (r: bool)
    ensures
        r == is_ws_char(c),
{
    c == ' ' || c == '\t' || c == '\n' || c == '\r' || c == '\u{000B}' || c == '\u{000C}' || c
        == '\u{0085}' || c == '\u{00A0}' || c == '\u{1680}' || c == '\u{2000}' || c == '\u{2001}'
        || c == '\u{2002}' || c == '\u{2003}' || c == '\u{2004}' || c == '\u{2005}' || c
        == '\u{2006}' || c == '\u{2007}' || c == '\u{2008}' || c == '\u{2009}' || c == '\u{200A}'
        || c == '\u{2028}' || c == '\u{2029}' || c == '\u{202F}' || c == '\u{205F}' || c
        == '\u{3000}'
}

/// The prefix of `s` that precedes its first line break.
pub open spec fn first_line_of(s: Seq<char>) -> Seq<char>
    decreases s.len(),
{
    if s.len() == 0 {
        Seq::empty()
    } else if s[0] == '\n' {
        Seq::empty()
    } else {
        seq![s[0]] + first_line_of(s.drop_first())
    }
}

/// `s` with leading whitespace removed.
pub open spec fn trim_start_of(s: Seq<char>) -> Seq<char>
    decreases s.len(),
{
    if s.len() > 0 && is_ws_char(s[0]) {
        trim_start_of(s.drop_first())
    } else {
        s
    }
}

/// `s` with trailing whitespace removed.
pub open spec fn trim_end_of(s: Seq<char>) -> Seq<char>
    decreases s.len(),
{
    if s.len() > 0 && is_ws_char(s[s.len() - 1]) {
        trim_end_of(s.drop_last())
    } else {
        s
    }
}

/// `s` with surrounding whitespace removed.
pub open spec fn trimmed_of(s: Seq<char>) -> Seq<char> {
    trim_end_of(trim_start_of(s))
}

/// The one-line summary of a documentation string: its first line, trimmed,
/// and truncated to 97 characters plus an ellipsis marker when it exceeds
/// 100 characters.
pub open spec fn doc_line(docs: Seq<char>) -> Seq<char> {
    let t = trimmed_of(first_line_of(docs));
    if t.len() > 100 {
        t.subrange(0, 97) + "..."@
    } else {
        t
    }
}

proof fn lemma_first_line_determined(s: Seq<char>, e: int)
    requires
        0 <= e <= s.len(),
        forall|j: int| 0 <= j < e ==> s[j] != '\n',
        e < s.len() ==> s[e] == '\n',
    ensures
        first_line_of(s) == s.subrange(0, e),
    decreases s.len(),
{
    if e == 0 {
        if s.len() == 0 {
            assert(first_line_of(s) =~= s.subrange(0, 0));
        } else {
            assert(s[0] == '\n');
            assert(first_line_of(s) =~= s.subrange(0, 0));
        }
    } else {
        assert(s[0] != '\n');
        let r = s.drop_first();
        assert(forall|j: int| 0 <= j < e - 1 ==> r[j] != '\n');
        lemma_first_line_determined(r, e - 1);
        assert(seq![s[0]] + r.subrange(0, e - 1) =~= s.subrange(0, e));
    }
}

proof fn lemma_trim_start_determined(s: Seq<char>, a: int)
    requires
        0 <= a <= s.len(),
        forall|j: int| 0 <= j < a ==> is_ws_char(s[j]),
        a < s.len() ==> !is_ws_char(s[a]),
    ensures
        trim_start_of(s) == s.subrange(a, s.len() as int),
    decreases s.len(),
{
    if a == 0 {
        if s.len() > 0 && is_ws_char(s[0]) {
            assert(false);
        } else {
            assert(trim_start_of(s) =~= s.subrange(0, s.len() as int));
        }
    } else {
        assert(is_ws_char(s[0]));
        let r = s.drop_first();
        lemma_trim_start_determined(r, a - 1);
        assert(r.subrange(a - 1, r.len() as int) =~= s.subrange(a, s.len() as int));
    }
}

proof fn lemma_trim_end_determined(s: Seq<char>, b: int)
    requires
        0 <= b <= s.len(),
        forall|j: int| b <= j < s.len() ==> is_ws_char(s[j]),
        b > 0 ==> !is_ws_char(s[b - 1]),
    ensures
        trim_end_of(s) == s.subrange(0, b),
    decreases s.len(),
{
    if s.len() > 0 && is_ws_char(s[s.len() - 1]) {
        assert(b < s.len());
        let r = s.drop_last();
        lemma_trim_end_determined(r, b);
        assert(r.subrange(0, b) =~= s.subrange(0, b));
    } else {
        assert(b == s.len());
        assert(trim_end_of(s) =~= s.subrange(0, b));
    }
}

proof fn lemma_trimmed_determined(s: Seq<char>, a: int, b: int)
    requires
        0 <= a <= b <= s.len(),
        forall|j: int| 0 <= j < a ==> is_ws_char(s[j]),
        forall|j: int| b <= j < s.len() ==> is_ws_char(s[j]),
        a < b ==> !is_ws_char(s[a]),
        a < b ==> !is_ws_char(s[b - 1]),
        a == b ==> a == s.len(),
    ensures
        trimmed_of(s) == s.subrange(a, b),
{
    lemma_trim_start_determined(s, a);
    let t = trim_start_of(s);
    assert(t == s.subrange(a, s.len() as int));
    assert(forall|j: int| b - a <= j < t.len() ==> is_ws_char(#[trigger] t[j]));
    lemma_trim_end_determined(t, b - a);
    assert(t.subrange(0, b - a) =~= s.subrange(a, b));
}

/// A first line that runs past 100 characters is listed truncated: its
/// first 97 characters and a three-character ellipsis marker, 100
/// characters in all. A first line within the limit is listed whole.
pub proof fn lemma_doc_line_truncation(docs: Seq<char>)
    ensures
        trimmed_of(first_line_of(docs)).len() > 100 ==> doc_line(docs) == trimmed_of(
            first_line_of(docs),
        ).subrange(0, 97) + "..."@ && doc_line(docs).len() == 100,
        trimmed_of(first_line_of(docs)).len() <= 100 ==> doc_line(docs) == trimmed_of(
            first_line_of(docs),
        ),
{
    reveal_strlit("...");
}

/// The first line of a documentation string, trimmed, and truncated with an
/// ellipsis marker when it runs past 100 characters.
pub fn get_first_line(docs: &str) -> (r: String)
    ensures
        r@ == doc_line(docs@),
{
    let n = docs.unicode_len();
    let mut end: usize = n;
    let mut i: usize = 0;
    while i < n
        invariant
            n == docs@.len(),
            0 <= i <= n,
            end == n || (end < i && docs@[end as int] == '\n'),
            forall|j: int| 0 <= j < i && j < end ==> docs@[j] != '\n',
        decreases n - i,
    {
        if end == n && docs.get_char(i) == '\n' {
            end = i;
        }
        i += 1;
    }
    proof {
        lemma_first_line_determined(docs@, end as int);
    }
    // first_line_of(docs@) == docs@.subrange(0, end); now trim it
    let mut start: usize = end;
    let mut k: usize = 0;
    while k < end
        invariant
            n == docs@.len(),
            end <= n,
            0 <= k <= end,
            start == end || (start < end && start < k + 1 && !is_ws_char(docs@[start as int])),
            forall|j: int| 0 <= j < k && j < start ==> is_ws_char(docs@[j]),
        decreases end - k,
    {
        if start == end && !is_ws(docs.get_char(k)) {
            start = k;
        }
        k += 1;
    }
    let mut e2: usize = start;
    let mut m: usize = start;
    while m < end
        invariant
            n == docs@.len(),
            end <= n,
            start <= e2 <= end,
            start <= m <= end,
            e2 <= m,
            e2 > start ==> !is_ws_char(docs@[e2 - 1]),
            forall|j: int| e2 <= j < m ==> is_ws_char(docs@[j]),
        decreases end - m,
    {
        if !is_ws(docs.get_char(m)) {
            e2 = m + 1;
        }
        m += 1;
    }
    proof {
        let fl = first_line_of(docs@);
        assert(fl == docs@.subrange(0, end as int));
        // establish the trim characterization on the first line
        assert(forall|j: int| 0 <= j < start ==> is_ws_char(#[trigger] fl[j]));
        assert(forall|j: int| e2 <= j < end ==> is_ws_char(#[trigger] fl[j]));
        if start == e2 && start < end {
            // the scan found a non-whitespace character at `start`, but the
            // second scan saw only whitespace from `start` on: contradiction
            assert(!is_ws_char(docs@[start as int]));
            assert(is_ws_char(docs@[start as int]));
        }
        lemma_trimmed_determined(fl, start as int, e2 as int);
        assert(fl.subrange(start as int, e2 as int) =~= docs@.subrange(
            start as int,
            e2 as int,
        ));
    }
    if e2 - start > 100 {
        let head = docs.substring_char(start, start + 97);
        let mut r = head.to_owned();
        r.append("...");
        proof {
            let t = trimmed_of(first_line_of(docs@));
            assert(t.subrange(0, 97) =~= docs@.subrange(start as int, start as int + 97));
        }
        r
    } else {
        let body = docs.substring_char(start, e2);
        body.to_owned()
    }
}

/// The decimal digit character for `d`.
pub open spec fn dec_digit(d: int) -> char {
    if d == 0 {
        '0'
    } else if d == 1 {
        '1'
    } else if d == 2 {
        '2'
    } else if d == 3 {
        '3'
    } else if d == 4 {
        '4'
    } else if d == 5 {
        '5'
    } else if d == 6 {
        '6'
    } else if d == 7 {
        '7'
    } else if d == 8 {
        '8'
    } else {
        '9'
    }
}

/// The decimal representation of a non-negative integer, most significant
/// digit first, with no leading zeros (except for zero itself).
pub open spec fn dec_rep(n: int) -> Seq<char>
    decreases n,
{
    if n < 10 {
        seq![dec_digit(n)]
    } else {
        dec_rep(n / 10) + seq![dec_digit(n % 10)]
    }
}

spec fn digits_to_chars_rev(ds: Seq<u8>) -> Seq<char>
    decreases ds.len(),
{
    if ds.len() == 0 {
        Seq::empty()
    } else {
        seq![dec_digit(ds.last() as int)] + digits_to_chars_rev(ds.drop_last())
    }
}

fn digit_str(d: u8) -> (r: &'static str)
    requires
        d < 10,
    ensures
        r@ == seq![dec_digit(d as int)],
{
    proof {
        reveal_strlit("0");
        reveal_strlit("1");
        reveal_strlit("2");
        reveal_strlit("3");
        reveal_strlit("4");
        reveal_strlit("5");
        reveal_strlit("6");
        reveal_strlit("7");
        reveal_strlit("8");
        reveal_strlit("9");
    }
    let r = if d == 0 {
        "0"
    } else if d == 1 {
        "1"
    } else if d == 2 {
        "2"
    } else if d == 3 {
        "3"
    } else if d == 4 {
        "4"
    } else if d == 5 {
        "5"
    } else if d == 6 {
        "6"
    } else if d == 7 {
        "7"
    } else if d == 8 {
        "8"
    } else {
        "9"
    };
    proof {
        assert(r@ =~= seq![dec_digit(d as int)]);
    }
    r
}

/// Render an integer in decimal.
pub fn u64_to_dec(n: u64) -> (s: String)
    ensures
        s@ == dec_rep(n as int),
{
    let mut digits: Vec<u8> = Vec::new();
    let mut m: u64 = n;
    digits.push((m % 10) as u8);
    m = m / 10;
    proof {
        let ds = digits@;
        assert(ds =~= seq![(n % 10) as u8]);
        assert(ds.drop_last() =~= Seq::<u8>::empty());
        assert(digits_to_chars_rev(Seq::<u8>::empty()) =~= Seq::<char>::empty());
        assert(ds.last() == (n % 10) as u8);
        assert(digits_to_chars_rev(ds) == seq![dec_digit(ds.last() as int)] + digits_to_chars_rev(
            ds.drop_last(),
        ));
        assert(digits_to_chars_rev(ds) =~= seq![dec_digit((n % 10) as int)]);
        if n >= 10 {
            assert(dec_rep(n as int) == dec_rep(n as int / 10) + seq![dec_digit(n as int % 10)]);
        }
        assert(dec_rep(n as int) =~= (if m > 0 {
            dec_rep(m as int)
        } else {
            Seq::<char>::empty()
        }) + digits_to_chars_rev(ds));
    }
    while m > 0
        invariant
            forall|j: int| 0 <= j < digits@.len() ==> digits@[j] < 10,
            digits@.len() > 0,
            dec_rep(n as int) == (if m > 0 {
                dec_rep(m as int)
            } else {
                Seq::<char>::empty()
            }) + digits_to_chars_rev(digits@),
        decreases m,
    {
        let d = (m % 10) as u8;
        proof {
            let ds = digits@;
            assert(digits_to_chars_rev(ds.push(d)) == seq![dec_digit(d as int)]
                + digits_to_chars_rev(ds)) by {
                assert(ds.push(d).last() == d);
                assert(ds.push(d).drop_last() =~= ds);
            }
            if m >= 10 {
                assert(dec_rep(m as int) == dec_rep(m as int / 10) + seq![
                    dec_digit(m as int % 10),
                ]);
            }
            assert(dec_rep(m as int) == (if m / 10 > 0 {
                dec_rep((m / 10) as int)
            } else {
                Seq::<char>::empty()
            }) + seq![dec_digit((m % 10) as int)]);
            assert((if m / 10 > 0 {
                dec_rep((m / 10) as int)
            } else {
                Seq::<char>::empty()
            }) + seq![dec_digit((m % 10) as int)] + digits_to_chars_rev(digits@) =~= (if m / 10
                > 0 {
                dec_rep((m / 10) as int)
            } else {
                Seq::<char>::empty()
            }) + digits_to_chars_rev(digits@.push(d)));
        }
        digits.push(d);
        m = m / 10;
    }
    let mut s = String::new();
    let mut i: usize = digits.len();
    proof {
        assert(digits@.take(digits@.len() as int) =~= digits@);
        assert(Seq::<char>::empty() + digits_to_chars_rev(digits@) =~= digits_to_chars_rev(
            digits@,
        ));
    }
    while i > 0
        invariant
            i <= digits@.len(),
            forall|j: int| 0 <= j < digits@.len() ==> digits@[j] < 10,
            s@ + digits_to_chars_rev(digits@.take(i as int)) == digits_to_chars_rev(digits@),
        decreases i,
    {
        i = i - 1;
        let d = digits[i];
        s.append(digit_str(d));
        proof {
            let t = digits@.take(i as int + 1);
            assert(t.last() == digits@[i as int]);
            assert(t.drop_last() =~= digits@.take(i as int));
            assert(s@ + digits_to_chars_rev(digits@.take(i as int)) =~= digits_to_chars_rev(
                digits@,
            ));
        }
    }
    proof {
        assert(digits@.take(0) =~= Seq::<u8>::empty());
        assert(s@ =~= dec_rep(n as int));
    }
    s
}

/// The ten decimal digit characters.
pub open spec fn is_digit_char(c: char) -> bool {
    c == '0' || c == '1' || c == '2' || c == '3' || c == '4' || c == '5' || c == '6' || c == '7'
        || c == '8' || c == '9'
}

proof fn lemma_dec_rep_len(n: int)
    requires
        0 <= n,
    ensures
        dec_rep(n).len() >= 1,
    decreases n,
{
    if n >= 10 {
        lemma_dec_rep_len(n / 10);
    }
}

proof fn lemma_dec_rep_digits(n: int, j: int)
    requires
        0 <= n,
        0 <= j < dec_rep(n).len(),
    ensures
        is_digit_char(dec_rep(n)[j]),
    decreases n,
{
    if n >= 10 {
        let h = dec_rep(n / 10);
        if j < h.len() {
            lemma_dec_rep_digits(n / 10, j);
            assert(dec_rep(n)[j] == h[j]);
        } else {
            assert(dec_rep(n)[j] == dec_digit(n % 10));
        }
    }
}

proof fn lemma_dec_rep_first_nonzero(n: int)
    requires
        1 <= n,
    ensures
        dec_rep(n)[0] != '0',
    decreases n,
{
    if n >= 10 {
        lemma_dec_rep_first_nonzero(n / 10);
        lemma_dec_rep_len(n / 10);
        assert(dec_rep(n)[0] == dec_rep(n / 10)[0]);
    }
}

proof fn lemma_dec_digit_inj(x: int, y: int)
    requires
        0 <= x < 10,
        0 <= y < 10,
        dec_digit(x) == dec_digit(y),
    ensures
        x == y,
{
}

proof fn lemma_dec_rep_inj(a: int, b: int)
    requires
        0 <= a,
        0 <= b,
        dec_rep(a) == dec_rep(b),
    ensures
        a == b,
    decreases a + b,
{
    lemma_dec_rep_len(a);
    lemma_dec_rep_len(b);
    if a < 10 && b < 10 {
        assert(dec_rep(a)[0] == dec_digit(a));
        assert(dec_rep(b)[0] == dec_digit(b));
        lemma_dec_digit_inj(a, b);
    } else if a >= 10 && b >= 10 {
        assert(dec_rep(a).last() == dec_digit(a % 10));
        assert(dec_rep(b).last() == dec_digit(b % 10));
        lemma_dec_digit_inj(a % 10, b % 10);
        assert(dec_rep(a).drop_last() =~= dec_rep(a / 10));
        assert(dec_rep(b).drop_last() =~= dec_rep(b / 10));
        lemma_dec_rep_inj(a / 10, b / 10);
    } else if a < 10 {
        lemma_dec_rep_len(b / 10);
        assert(dec_rep(b).len() >= 2);
        assert(false);
    } else {
        lemma_dec_rep_len(a / 10);
        assert(dec_rep(a).len() >= 2);
        assert(false);
    }
}

/// When one more digit of `m`'s decimal form extends the decimal form of
/// `q`, the number `m` is at least that extension's value.
proof fn lemma_dec_prefix_bound(m: int, q: int, d: int)
    requires
        0 <= m,
        0 <= q,
        0 <= d < 10,
        dec_rep(q).len() + 1 <= dec_rep(m).len(),
        dec_rep(m).take(dec_rep(q).len() as int + 1) == dec_rep(q) + seq![dec_digit(d)],
    ensures
        m >= 10 * q + d,
    decreases m,
{
    let lq = dec_rep(q).len() as int;
    lemma_dec_rep_len(q);
    if lq + 1 == dec_rep(m).len() {
        assert(dec_rep(m).take(lq + 1) =~= dec_rep(m));
        if m < 10 {
            assert(dec_rep(m).len() == 1);
            assert(false);
        }
        assert(dec_rep(m) == dec_rep(m / 10) + seq![dec_digit(m % 10)]);
        assert(dec_rep(m).last() == dec_digit(m % 10));
        assert((dec_rep(q) + seq![dec_digit(d)]).last() == dec_digit(d));
        lemma_dec_digit_inj(d, m % 10);
        assert(dec_rep(m).drop_last() =~= dec_rep(m / 10));
        assert((dec_rep(q) + seq![dec_digit(d)]).drop_last() =~= dec_rep(q));
        lemma_dec_rep_inj(q, m / 10);
        assert(m == 10 * (m / 10) + m % 10);
    } else {
        if m < 10 {
            assert(dec_rep(m).len() == 1);
            assert(false);
        }
        assert(dec_rep(m) == dec_rep(m / 10) + seq![dec_digit(m % 10)]);
        assert(dec_rep(m / 10).len() == dec_rep(m).len() - 1);
        assert(dec_rep(m / 10).take(lq + 1) =~= dec_rep(m).take(lq + 1));
        lemma_dec_prefix_bound(m / 10, q, d);
        assert(m >= 10 * (m / 10));
        assert(m / 10 >= 10 * q + d);
    }
}

/// Compare two string slices by content.
pub fn str_eq(a: &str, b: &str) -> (r: bool)
    ensures
        r == (a@ == b@),
{
    let sa = String::from_str(a);
    let sb = String::from_str(b);
    sa == sb
}

fn digit_val(c: char) -> (r: Option<u64>)
    ensures
        r matches Some(d) ==> d < 10 && c == dec_digit(d as int),
        r is None ==> !is_digit_char(c),
{
    match c {
        '0' => Some(0),
        '1' => Some(1),
        '2' => Some(2),
        '3' => Some(3),
        '4' => Some(4),
        '5' => Some(5),
        '6' => Some(6),
        '7' => Some(7),
        '8' => Some(8),
        '9' => Some(9),
        _ => None,
    }
}

/// Parse a canonical decimal string (digits only, no leading zero unless
/// the string is "0") back into an integer. A successful parse inverts
/// `dec_rep` exactly, and a failed one means the string is the decimal
/// form of no integer in range.
pub fn parse_u64_dec(s: &str) -> (r: Option<u64>)
    ensures
        r matches Some(n) ==> s@ == dec_rep(n as int),
        r is None ==> forall|m: u64| s@ != dec_rep(m as int),
{
    let len = s.unicode_len();
    if len == 0 {
        proof {
            assert forall|m: u64| s@ != dec_rep(m as int) by {
                lemma_dec_rep_len(m as int);
            }
        }
        return None;
    }
    if len > 1 && s.get_char(0) == '0' {
        proof {
            assert forall|m: u64| s@ != dec_rep(m as int) by {
                if s@ == dec_rep(m as int) {
                    if m == 0 {
                        assert(dec_rep(0) == seq![dec_digit(0)]);
                        assert(s@.len() == 1);
                    } else {
                        lemma_dec_rep_first_nonzero(m as int);
                    }
                }
            }
        }
        return None;
    }
    let mut n: u64 = 0;
    let mut i: usize = 0;
    while i < len
        invariant
            len == s@.len(),
            0 < len,
            len > 1 ==> s@[0] != '0',
            0 <= i <= len,
            i == 0 ==> n == 0,
            i > 0 ==> s@.take(i as int) == dec_rep(n as int),
        decreases len - i,
    {
        let c = s.get_char(i);
        let d = match digit_val(c) {
            Some(d) => d,
            None => {
                proof {
                    assert forall|m: u64| s@ != dec_rep(m as int) by {
                        if s@ == dec_rep(m as int) {
                            lemma_dec_rep_digits(m as int, i as int);
                        }
                    }
                }
                return None;
            },
        };
        if n > u64::MAX / 10 || (n == u64::MAX / 10 && d > u64::MAX % 10) {
            proof {
                assert(10 * (n as int) + (d as int) > u64::MAX as int);
                assert forall|m: u64| s@ != dec_rep(m as int) by {
                    if s@ == dec_rep(m as int) {
                        if i == 0 {
                            assert(n == 0);
                            assert(false);
                        } else {
                            assert(dec_rep(n as int).len() == i as int);
                            assert(s@[i as int] == dec_digit(d as int));
                            assert(dec_rep(m as int).take(i as int + 1) =~= dec_rep(n as int)
                                + seq![dec_digit(d as int)]);
                            lemma_dec_prefix_bound(m as int, n as int, d as int);
                        }
                    }
                }
            }
            return None;
        }
        let n2 = n * 10 + d;
        proof {
            if i == 0 {
                assert(s@.take(1) =~= seq![s@[0]]);
                assert(n2 == d);
                assert(dec_rep(n2 as int) == seq![dec_digit(n2 as int)]);
            } else {
                if n == 0 {
                    assert(s@.take(i as int) == dec_rep(0));
                    assert(dec_rep(0) == seq![dec_digit(0)]);
                    assert(s@.take(i as int)[0] == s@[0]);
                    assert(s@[0] == '0');
                    assert(false);
                }
                assert(n2 >= 10);
                assert(n2 as int / 10 == n as int);
                assert(n2 as int % 10 == d as int);
                assert(dec_rep(n2 as int) == dec_rep(n as int) + seq![dec_digit(d as int)]);
                assert(s@.take(i as int + 1) =~= s@.take(i as int) + seq![s@[i as int]]);
            }
        }
        n = n2;
        i += 1;
    }
    proof {
        assert(s@.take(len as int) =~= s@);
    }
    Some(n)
}

/// The digit string `s` with a comma inserted before every group of three
/// digits, counted from the right.
pub open spec fn grouped(s: Seq<char>) -> Seq<char>
    decreases s.len(),
{
    if s.len() <= 3 {
        s
    } else {
        grouped(s.take(s.len() - 3)) + seq![','] + s.skip(s.len() - 3)
    }
}

fn append_grouped(s: &str, out: &mut String)
    ensures
        final(out)@ == old(out)@ + grouped(s@),
    decreases s@.len(),
{
    let n = s.unicode_len();
    if n <= 3 {
        out.append(s);
    } else {
        let head = s.substring_char(0, n - 3);
        proof {
            assert(head@ =~= s@.take(s@.len() - 3));
        }
        append_grouped(head, out);
        out.append(",");
        let tail = s.substring_char(n - 3, n);
        out.append(tail);
        proof {
            reveal_strlit(",");
            assert(","@ =~= seq![',']);
            assert(tail@ =~= s@.skip(s@.len() - 3));
            assert(final(out)@ =~= old(out)@ + grouped(s@));
        }
    }
}

/// Render an integer in decimal with thousand separators.
pub fn format_number(n: u64) -> (r: String)
    ensures
        r@ == grouped(dec_rep(n as int)),
{
    let s = u64_to_dec(n);
    let mut out = String::new();
    append_grouped(s.as_str(), &mut out);
    out
}

/// The parts joined with the separator between consecutive parts.
pub open spec fn join_with(parts: Seq<Seq<char>>, sep: Seq<char>) -> Seq<char>
    decreases parts.len(),
{
    if parts.len() == 0 {
        Seq::empty()
    } else if parts.len() == 1 {
        parts[0]
    } else {
        parts[0] + sep + join_with(parts.drop_first(), sep)
    }
}

#[verifier::rlimit(50)]
pub proof fn lemma_join_push(parts: Seq<Seq<char>>, sep: Seq<char>, p: Seq<char>)
    ensures
        join_with(parts.push(p), sep) == if parts.len() == 0 {
            p
        } else {
            join_with(parts, sep) + sep + p
        },
    decreases parts.len(),
{
    let w = parts.push(p);
    if parts.len() == 0 {
        assert(w.len() == 1);
        assert(w[0] == p);
    } else if parts.len() == 1 {
        assert(w.len() == 2);
        assert(join_with(w, sep) == w[0] + sep + join_with(w.drop_first(), sep));
        assert(w.drop_first() =~= seq![p]);
        assert(join_with(seq![p], sep) == p);
        assert(w[0] == parts[0]);
        assert(join_with(parts, sep) == parts[0]);
    } else {
        assert(w.drop_first() =~= parts.drop_first().push(p));
        lemma_join_push(parts.drop_first(), sep, p);
        assert(w[0] == parts[0]);
        assert(join_with(w, sep) == parts[0] + sep + (join_with(parts.drop_first(), sep) + sep
            + p));
        assert(parts[0] + sep + (join_with(parts.drop_first(), sep) + sep + p) =~= (parts[0] + sep
            + join_with(parts.drop_first(), sep)) + sep + p);
    }
}

/// Join the parts with the separator between consecutive parts.
pub fn join_strings(parts: &Vec<String>, sep: &str) -> (r: String)
    ensures
        r@ == join_with(parts.deep_view(), sep@),
{
    let mut r = String::new();
    let mut i: usize = 0;
    while i < parts.len()
        invariant
            0 <= i <= parts@.len(),
            parts.deep_view().len() == parts@.len(),
            forall|j: int| 0 <= j < parts@.len() ==> parts.deep_view()[j] == parts@[j]@,
            r@ == join_with(parts.deep_view().take(i as int), sep@),
        decreases parts@.len() - i,
    {
        if i > 0 {
            r.append(sep);
        }
        r.append(parts[i].as_str());
        proof {
            let pv = parts.deep_view();
            assert(pv.take(i as int + 1).drop_last() =~= pv.take(i as int));
            lemma_join_push(pv.take(i as int), sep@, pv[i as int]);
            assert(pv.take(i as int + 1) =~= pv.take(i as int).push(pv[i as int]));
        }
        i += 1;
    }
    proof {
        assert(parts.deep_view().take(parts@.len() as int) =~= parts.deep_view());
    }
    r
}

} // verus!
