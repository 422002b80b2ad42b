//! Splitting and trimming text the way `str`'s methods do.

use vstd::prelude::*;
use vstd::string::*;
use crate::text::push_char;

verus! {

/// Unicode `White_Space`, the property `char::is_whitespace` tests.
pub open spec fn is_ws(c: char) -> bool {
    ||| ('\u{9}' <= c && c <= '\u{d}')
    ||| c == ' '
    ||| c == '\u{85}'
    ||| c == '\u{a0}'
    ||| c == '\u{1680}'
    ||| ('\u{2000}' <= c && c <= '\u{200a}')
    ||| c == '\u{2028}'
    ||| c == '\u{2029}'
    ||| c == '\u{202f}'
    ||| c == '\u{205f}'
    ||| c == '\u{3000}'
}

pub fn is_whitespace(c: char) -> (r: bool)
    ensures
        r == is_ws(c),
{
    ('\u{9}' <= c && c <= '\u{d}') || c == ' ' || c == '\u{85}' || c == '\u{a0}' || c == '\u{1680}'
        || ('\u{2000}' <= c && c <= '\u{200a}') || c == '\u{2028}' || c == '\u{2029}' || c == '\u{202f}'
        || c == '\u{205f}' || c == '\u{3000}'
}

/// Index of the first non-space character at or after `i`.
pub open spec fn lead_end(s: Seq<char>, i: int) -> int
    decreases s.len() - i,
{
    if 0 <= i < s.len() && is_ws(s[i]) {
        lead_end(s, i + 1)
    } else {
        i
    }
}

/// End of `s[..j]` without its trailing spaces.
pub open spec fn trail_end(s: Seq<char>, lo: int, j: int) -> int
    decreases j - lo,
{
    if lo < j && j <= s.len() && is_ws(s[j - 1]) {
        trail_end(s, lo, j - 1)
    } else {
        j
    }
}

/// `str::trim`: without leading and trailing white space.
pub open spec fn trim_spec(s: Seq<char>) -> Seq<char> {
    let a = lead_end(s, 0);
    s.subrange(a, trail_end(s, a, s.len() as int))
}

proof fn lemma_lead_end_bounds(s: Seq<char>, i: int)
    requires
        0 <= i <= s.len(),
    ensures
        i <= lead_end(s, i) <= s.len(),
    decreases s.len() - i,
{
    if i < s.len() && is_ws(s[i]) {
        lemma_lead_end_bounds(s, i + 1);
    }
}

proof fn lemma_trail_end_bounds(s: Seq<char>, lo: int, j: int)
    requires
        0 <= lo <= j <= s.len(),
    ensures
        lo <= trail_end(s, lo, j) <= j,
    decreases j - lo,
{
    if lo < j && is_ws(s[j - 1]) {
        lemma_trail_end_bounds(s, lo, j - 1);
    }
}

/// `str::trim`.
pub fn trim(s: &str) -> (r: String)
    ensures
        r@ == trim_spec(s@),
{
    let n = s.unicode_len();
    let mut a: usize = 0;
    while a < n && is_whitespace(s.get_char(a))
        invariant
            n == s@.len(),
            a <= n,
            lead_end(s@, a as int) == lead_end(s@, 0),
        decreases n - a,
    {
        a = a + 1;
    }
    let mut b: usize = n;
    proof { lemma_lead_end_bounds(s@, 0); }
    while b > a && is_whitespace(s.get_char(b - 1))
        invariant
            n == s@.len(),
            a <= b <= n,
            a as int == lead_end(s@, 0),
            trail_end(s@, a as int, b as int) == trail_end(s@, a as int, n as int),
        decreases b - a,
    {
        b = b - 1;
    }
    String::from_str(s.substring_char(a, b))
}

/// First index of `c` in `s` at or after `i`.
pub open spec fn find_from(s: Seq<char>, c: char, i: int) -> Option<int>
    decreases s.len() - i,
{
    if i < 0 || i >= s.len() {
        None
    } else if s[i] == c {
        Some(i)
    } else {
        find_from(s, c, i + 1)
    }
}

pub proof fn lemma_find_from(s: Seq<char>, c: char, i: int)
    requires
        0 <= i,
    ensures
        match find_from(s, c, i) {
            Some(k) => i <= k < s.len() && s[k] == c && forall|j: int| i <= j < k ==> s[j] != c,
            None => forall|j: int| i <= j < s.len() ==> s[j] != c,
        },
    decreases s.len() - i,
{
    if i < s.len() && s[i] != c {
        lemma_find_from(s, c, i + 1);
    }
}

/// `str::find` of a character.
pub fn find_char(s: &str, c: char) -> (r: Option<usize>)
    ensures
        match r {
            Some(k) => find_from(s@, c, 0) == Some(k as int),
            None => find_from(s@, c, 0) is None,
        },
{
    let n = s.unicode_len();
    let mut i: usize = 0;
    while i < n
        invariant
            n == s@.len(),
            i <= n,
            find_from(s@, c, i as int) == find_from(s@, c, 0),
        decreases n - i,
    {
        if s.get_char(i) == c {
            return Some(i);
        }
        i = i + 1;
    }
    None
}

/// `str::split_once` at a character.
pub open spec fn split_once_spec(s: Seq<char>, c: char) -> Option<(Seq<char>, Seq<char>)> {
    match find_from(s, c, 0) {
        Some(k) => Some((s.subrange(0, k), s.subrange(k + 1, s.len() as int))),
        None => None,
    }
}

pub fn split_once_char(s: &str, c: char) -> (r: Option<(String, String)>)
    ensures
        match (r, split_once_spec(s@, c)) {
            (Some(p), Some(q)) => p.0@ == q.0 && p.1@ == q.1,
            (None, None) => true,
            _ => false,
        },
{
    match find_char(s, c) {
        Some(k) => {
            proof { lemma_find_from(s@, c, 0); }
            let n = s.unicode_len();
            Some((String::from_str(s.substring_char(0, k)), String::from_str(s.substring_char(k + 1, n))))
        },
        None => None,
    }
}

/// First index at or after `i` where `..` starts.
pub open spec fn find_dots_from(s: Seq<char>, i: int) -> Option<int>
    decreases s.len() - i,
{
    if i < 0 || i + 1 >= s.len() {
        None
    } else if s[i] == '.' && s[i + 1] == '.' {
        Some(i)
    } else {
        find_dots_from(s, i + 1)
    }
}

proof fn lemma_find_dots_from(s: Seq<char>, i: int)
    requires
        0 <= i,
    ensures
        find_dots_from(s, i) matches Some(k) ==> i <= k && k + 1 < s.len(),
    decreases s.len() - i,
{
    if i + 1 < s.len() && !(s[i] == '.' && s[i + 1] == '.') {
        lemma_find_dots_from(s, i + 1);
    }
}

/// `str::split_once("..")`.
pub open spec fn split_dots_spec(s: Seq<char>) -> Option<(Seq<char>, Seq<char>)> {
    match find_dots_from(s, 0) {
        Some(k) => Some((s.subrange(0, k), s.subrange(k + 2, s.len() as int))),
        None => None,
    }
}

pub fn split_once_dots(s: &str) -> (r: Option<(String, String)>)
    ensures
        match (r, split_dots_spec(s@)) {
            (Some(p), Some(q)) => p.0@ == q.0 && p.1@ == q.1,
            (None, None) => true,
            _ => false,
        },
{
    let n = s.unicode_len();
    let mut i: usize = 0;
    while n > 0 && i < n - 1
        invariant
            n == s@.len(),
            i <= n,
            find_dots_from(s@, i as int) == find_dots_from(s@, 0),
        decreases n - i,
    {
        if s.get_char(i) == '.' && s.get_char(i + 1) == '.' {
            return Some((String::from_str(s.substring_char(0, i)), String::from_str(s.substring_char(i + 2, n))));
        }
        i = i + 1;
    }
    None
}

/// `str::split` at a character: the pieces between separators, empty ones
/// included.
pub open spec fn split_from(s: Seq<char>, c: char, start: int, i: int) -> Seq<Seq<char>>
    decreases s.len() - i,
{
    if i < 0 || i >= s.len() {
        seq![s.subrange(start, s.len() as int)]
    } else if s[i] == c {
        seq![s.subrange(start, i)] + split_from(s, c, i + 1, i + 1)
    } else {
        split_from(s, c, start, i + 1)
    }
}

pub open spec fn split_spec(s: Seq<char>, c: char) -> Seq<Seq<char>> {
    split_from(s, c, 0, 0)
}

pub fn split_char(s: &str, c: char) -> (r: Vec<String>)
    ensures
        r@.map_values(|p: String| p@) == split_spec(s@, c),
{
    let n = s.unicode_len();
    let mut out: Vec<String> = Vec::new();
    let mut start: usize = 0;
    let mut i: usize = 0;
    while i < n
        invariant
            n == s@.len(),
            start <= i <= n,
            out@.map_values(|p: String| p@) + split_from(s@, c, start as int, i as int) == split_spec(s@, c),
        decreases n - i,
    {
        if s.get_char(i) == c {
            let piece = String::from_str(s.substring_char(start, i));
            let ghost before = out@.map_values(|p: String| p@);
            out.push(piece);
            proof {
                assert(out@.map_values(|p: String| p@) =~= before.push(piece@));
                assert(split_from(s@, c, start as int, i as int)
                    == seq![s@.subrange(start as int, i as int)] + split_from(s@, c, i + 1, i + 1));
                assert(before + split_from(s@, c, start as int, i as int)
                    =~= before.push(piece@) + split_from(s@, c, i + 1, i + 1));
            }
            start = i + 1;
        }
        i = i + 1;
    }
    let piece = String::from_str(s.substring_char(start, n));
    let ghost before = out@.map_values(|p: String| p@);
    out.push(piece);
    proof {
        assert(out@.map_values(|p: String| p@) =~= before.push(piece@));
        assert(before + split_from(s@, c, start as int, n as int) =~= before.push(piece@));
    }
    out
}

/// `str::split_whitespace`: the maximal runs of non-space characters.
pub open spec fn words_from(s: Seq<char>, i: int, start: int, in_word: bool) -> Seq<Seq<char>>
    decreases s.len() - i,
{
    if i < 0 || i >= s.len() {
        if in_word {
            seq![s.subrange(start, s.len() as int)]
        } else {
            Seq::empty()
        }
    } else if is_ws(s[i]) {
        if in_word {
            seq![s.subrange(start, i)] + words_from(s, i + 1, i + 1, false)
        } else {
            words_from(s, i + 1, start, false)
        }
    } else if in_word {
        words_from(s, i + 1, start, true)
    } else {
        words_from(s, i + 1, i, true)
    }
}

pub open spec fn words_spec(s: Seq<char>) -> Seq<Seq<char>> {
    words_from(s, 0, 0, false)
}

pub fn split_whitespace(s: &str) -> (r: Vec<String>)
    ensures
        r@.map_values(|p: String| p@) == words_spec(s@),
{
    let n = s.unicode_len();
    let mut out: Vec<String> = Vec::new();
    let mut start: usize = 0;
    let mut in_word = false;
    let mut i: usize = 0;
    while i < n
        invariant
            n == s@.len(),
            start <= i <= n,
            out@.map_values(|p: String| p@) + words_from(s@, i as int, start as int, in_word) == words_spec(s@),
        decreases n - i,
    {
        let c = s.get_char(i);
        let ghost before = out@.map_values(|p: String| p@);
        if is_whitespace(c) {
            if in_word {
                let piece = String::from_str(s.substring_char(start, i));
                out.push(piece);
                proof {
                    assert(out@.map_values(|p: String| p@) =~= before.push(piece@));
                    assert(before + words_from(s@, i as int, start as int, true)
                        =~= before.push(piece@) + words_from(s@, i + 1, i + 1, false));
                }
                start = i + 1;
                in_word = false;
            }
        } else if !in_word {
            start = i;
            in_word = true;
        }
        i = i + 1;
    }
    if in_word {
        let piece = String::from_str(s.substring_char(start, n));
        let ghost before = out@.map_values(|p: String| p@);
        out.push(piece);
        proof {
            assert(out@.map_values(|p: String| p@) =~= before.push(piece@));
            assert(before + words_from(s@, n as int, start as int, true) =~= before.push(piece@));
        }
    } else {
        proof {
            assert(out@.map_values(|p: String| p@) + words_from(s@, n as int, start as int, false)
                =~= out@.map_values(|p: String| p@));
        }
    }
    out
}

/// ASCII upper-case letters mapped to lower case, everything else kept.
pub open spec fn ascii_lower(c: char) -> char {
    if 'A' <= c && c <= 'Z' {
        ((c as u32) + 32) as char
    } else {
        c
    }
}

fn ascii_lower_char(c: char) -> (r: char)
    ensures
        r == ascii_lower(c),
{
    if 'A' <= c && c <= 'Z' {
        let v: u32 = (c as u32) + 32;
        assert(0x61 <= v <= 0x7a);
        char_of_ascii(v)
    } else {
        c
    }
}

fn char_of_ascii(v: u32) -> (r: char)
    requires
        v < 0x80,
    ensures
        r == v as char,
{
    (v as u8) as char
}

/// `str::eq_ignore_ascii_case`.
pub open spec fn eq_ignore_ascii_case_spec(a: Seq<char>, b: Seq<char>) -> bool {
    a.len() == b.len() && forall|i: int| 0 <= i < a.len() ==> ascii_lower(a[i]) == ascii_lower(b[i])
}

pub fn eq_ignore_ascii_case(a: &str, b: &str) -> (r: bool)
    ensures
        r == eq_ignore_ascii_case_spec(a@, b@),
{
    let n = a.unicode_len();
    if n != b.unicode_len() {
        return false;
    }
    let mut i: usize = 0;
    while i < n
        invariant
            n == a@.len(),
            n == b@.len(),
            i <= n,
            forall|j: int| 0 <= j < i ==> ascii_lower(a@[j]) == ascii_lower(b@[j]),
        decreases n - i,
    {
        if ascii_lower_char(a.get_char(i)) != ascii_lower_char(b.get_char(i)) {
            return false;
        }
        i = i + 1;
    }
    true
}

/// A text with every ASCII letter lower-cased.
pub open spec fn ascii_lower_seq(s: Seq<char>) -> Seq<char> {
    s.map_values(|c: char| ascii_lower(c))
}

pub open spec fn is_digit_char(c: char) -> bool {
    '0' <= c && c <= '9'
}

pub open spec fn all_digits(s: Seq<char>) -> bool {
    forall|i: int| 0 <= i < s.len() ==> is_digit_char(#[trigger] s[i])
}

/// Without one leading `+` or `-`.
pub open spec fn unsigned_part(s: Seq<char>) -> Seq<char> {
    if s.len() > 0 && (s[0] == '+' || s[0] == '-') {
        s.subrange(1, s.len() as int)
    } else {
        s
    }
}

/// First index of `e` or `E`.
pub open spec fn exp_mark(s: Seq<char>) -> Option<int> {
    match (find_from(s, 'e', 0), find_from(s, 'E', 0)) {
        (Some(a), Some(b)) => Some(if a < b { a } else { b }),
        (Some(a), None) => Some(a),
        (None, Some(b)) => Some(b),
        (None, None) => None,
    }
}

/// `Digit+ | Digit+ '.' Digit* | Digit* '.' Digit+`
pub open spec fn mantissa_ok(m: Seq<char>) -> bool {
    match find_from(m, '.', 0) {
        Some(d) => {
            let before = m.subrange(0, d);
            let after = m.subrange(d + 1, m.len() as int);
            all_digits(before) && all_digits(after) && before.len() + after.len() > 0
        },
        None => m.len() > 0 && all_digits(m),
    }
}

/// `Sign? Digit+`
pub open spec fn exponent_ok(x: Seq<char>) -> bool {
    unsigned_part(x).len() > 0 && all_digits(unsigned_part(x))
}

/// The syntax `f64::from_str` accepts:
/// `Sign? ('inf' | 'infinity' | 'nan' | Number)`, with
/// `Number ::= (Digit+ | Digit+ '.' Digit* | Digit* '.' Digit+) Exp?` and
/// `Exp ::= 'e' Sign? Digit+`; letters in any case.
pub open spec fn is_float_text(s: Seq<char>) -> bool {
    let body = unsigned_part(s);
    ||| ascii_lower_seq(body) == "inf"@
    ||| ascii_lower_seq(body) == "infinity"@
    ||| ascii_lower_seq(body) == "nan"@
    ||| match exp_mark(body) {
        Some(e) => mantissa_ok(body.subrange(0, e)) && exponent_ok(body.subrange(e + 1, body.len() as int)),
        None => mantissa_ok(body),
    }
}

fn digits_only(s: &str) -> (r: bool)
    ensures
        r == all_digits(s@),
{
    let n = s.unicode_len();
    let mut i: usize = 0;
    while i < n
        invariant
            n == s@.len(),
            i <= n,
            forall|j: int| 0 <= j < i ==> is_digit_char(s@[j]),
        decreases n - i,
    {
        let c = s.get_char(i);
        if !('0' <= c && c <= '9') {
            return false;
        }
        i = i + 1;
    }
    true
}

fn strip_sign(s: &str) -> (r: String)
    ensures
        r@ == unsigned_part(s@),
{
    let n = s.unicode_len();
    if n > 0 && (s.get_char(0) == '+' || s.get_char(0) == '-') {
        String::from_str(s.substring_char(1, n))
    } else {
        String::from_str(s)
    }
}

fn lower_ascii(s: &str) -> (r: String)
    ensures
        r@ == ascii_lower_seq(s@),
{
    let n = s.unicode_len();
    let mut out = String::new();
    let mut i: usize = 0;
    while i < n
        invariant
            n == s@.len(),
            i <= n,
            out@ == ascii_lower_seq(s@.subrange(0, i as int)),
        decreases n - i,
    {
        let c = ascii_lower_char(s.get_char(i));
        push_char(&mut out, c);
        i = i + 1;
        assert(out@ =~= ascii_lower_seq(s@.subrange(0, i as int)));
    }
    assert(s@.subrange(0, n as int) =~= s@);
    out
}

fn mantissa_check(m: &str) -> (r: bool)
    ensures
        r == mantissa_ok(m@),
{
    proof { lemma_find_from(m@, '.', 0); }
    match find_char(m, '.') {
        Some(d) => {
            let n = m.unicode_len();
            let before = m.substring_char(0, d);
            let after = m.substring_char(d + 1, n);
            digits_only(before) && digits_only(after) && before.unicode_len() + after.unicode_len() > 0
        },
        None => m.unicode_len() > 0 && digits_only(m),
    }
}

/// Whether `f64::from_str` accepts `s`.
pub fn float_text(s: &str) -> (r: bool)
    ensures
        r == is_float_text(s@),
{
    let body = strip_sign(s);
    let b = body.as_str();
    let low = lower_ascii(b);
    let l = low.as_str();
    if crate::text::str_eq(l, "inf") || crate::text::str_eq(l, "infinity") || crate::text::str_eq(l, "nan") {
        return true;
    }
    let e1 = find_char(b, 'e');
    let e2 = find_char(b, 'E');
    proof {
        lemma_find_from(b@, 'e', 0);
        lemma_find_from(b@, 'E', 0);
    }
    let mark: Option<usize> = match (e1, e2) {
        (Some(x), Some(y)) => Some(if x < y { x } else { y }),
        (Some(x), None) => Some(x),
        (None, Some(y)) => Some(y),
        (None, None) => None,
    };
    match mark {
        Some(e) => {
            let n = b.unicode_len();
            let m = b.substring_char(0, e);
            let x = strip_sign(b.substring_char(e + 1, n));
            mantissa_check(m) && x.unicode_len() > 0 && digits_only(x.as_str())
        },
        None => mantissa_check(b),
    }
}

} // verus!
