//! Text helpers shared by the command layer: comparison, case folding,
//! decimal formatting and Rust-compatible integer parsing.

use vstd::prelude::*;
use vstd::string::*;

verus! {

// ───────────────────────── comparison and slicing ─────────────────────────

/// Copy of a string slice's characters.
pub fn chars_of(s: &str) -> (v: Vec<char>)
    ensures
        v@ == s@,
{
    let n = s.unicode_len();
    let mut v: Vec<char> = Vec::new();
    let mut i: usize = 0;
    while i < n
        invariant
            n == s@.len(),
            i <= n,
            v@ == s@.subrange(0, i as int),
        decreases n - i,
    {
        let c = s.get_char(i);
        v.push(c);
        i = i + 1;
        assert(v@ =~= s@.subrange(0, i as int));
    }
    assert(v@ =~= s@);
    v
}

/// Whether two string slices hold the same characters.
pub fn str_eq(a: &str, b: &str) -> (r: bool)
    ensures
        r == (a@ == b@),
{
    let x = String::from_str(a);
    let y = String::from_str(b);
    x == y
}

/// A new owned string with the characters of `s`.
pub fn owned(s: &str) -> (r: String)
    ensures
        r@ == s@,
{
    String::from_str(s)
}

/// Whether `s` starts with `p`.
pub open spec fn has_prefix(s: Seq<char>, p: Seq<char>) -> bool {
    p.len() <= s.len() && s.subrange(0, p.len() as int) == p
}

/// A string starts with each of its prefixes.
pub proof fn lemma_prefix_of_concat(p: Seq<char>, q: Seq<char>)
    ensures
        has_prefix(p + q, p),
{
    assert((p + q).subrange(0, p.len() as int) =~= p);
}

/// Whether `s` starts with `p`.
pub fn starts_with(s: &str, p: &str) -> (r: bool)
    ensures
        r == has_prefix(s@, p@),
{
    let n = s.unicode_len();
    let m = p.unicode_len();
    if m > n {
        return false;
    }
    let mut i: usize = 0;
    while i < m
        invariant
            n == s@.len(),
            m == p@.len(),
            m <= n,
            i <= m,
            s@.subrange(0, i as int) == p@.subrange(0, i as int),
        decreases m - i,
    {
        if s.get_char(i) != p.get_char(i) {
            assert(s@.subrange(0, m as int)[i as int] != p@[i as int]);
            return false;
        }
        i = i + 1;
        assert(s@.subrange(0, i as int) =~= p@.subrange(0, i as int));
    }
    assert(p@.subrange(0, m as int) =~= p@);
    true
}

/// `s` without its first `k` characters.
pub fn skip_chars(s: &str, k: usize) -> (r: String)
    requires
        k <= s@.len(),
    ensures
        r@ == s@.subrange(k as int, s@.len() as int),
{
    let n = s.unicode_len();
    let t = s.substring_char(k, n);
    String::from_str(t)
}

// ──────────────────────────── ordering ────────────────────────────

/// Lexicographic order by code point, as `str`'s `Ord` orders strings.
pub open spec fn lex_lt(a: Seq<char>, b: Seq<char>) -> bool
    decreases a.len(),
{
    if a.len() == 0 {
        b.len() > 0
    } else if b.len() == 0 {
        false
    } else if a[0] != b[0] {
        (a[0] as int) < (b[0] as int)
    } else {
        lex_lt(a.drop_first(), b.drop_first())
    }
}

/// The order is irreflexive.
pub proof fn lemma_lex_irreflexive(a: Seq<char>)
    ensures
        !lex_lt(a, a),
    decreases a.len(),
{
    if a.len() > 0 {
        lemma_lex_irreflexive(a.drop_first());
    }
}

/// Two different strings are ordered one way or the other, never both.
pub proof fn lemma_lex_total(a: Seq<char>, b: Seq<char>)
    ensures
        a != b ==> (lex_lt(a, b) || lex_lt(b, a)),
        !(lex_lt(a, b) && lex_lt(b, a)),
    decreases a.len(),
{
    if a.len() > 0 && b.len() > 0 && a[0] == b[0] {
        lemma_lex_total(a.drop_first(), b.drop_first());
        if a != b {
            assert(a.drop_first() != b.drop_first()) by {
                if a.drop_first() == b.drop_first() {
                    assert(a =~= seq![a[0]] + a.drop_first());
                    assert(b =~= seq![b[0]] + b.drop_first());
                }
            }
        }
    }
    if a.len() == 0 && b.len() == 0 {
        assert(a =~= b);
    }
    if a.len() > 0 && b.len() > 0 && a[0] != b[0] {
        assert((a[0] as int) != (b[0] as int));
    }
}

/// The order is transitive.
pub proof fn lemma_lex_transitive(a: Seq<char>, b: Seq<char>, c: Seq<char>)
    requires
        lex_lt(a, b),
        lex_lt(b, c),
    ensures
        lex_lt(a, c),
    decreases a.len(),
{
    if a.len() > 0 && b.len() > 0 && c.len() > 0 && a[0] == b[0] && b[0] == c[0] {
        lemma_lex_transitive(a.drop_first(), b.drop_first(), c.drop_first());
    }
}

/// Whether `a` orders before `b`.
pub fn str_lt(a: &str, b: &str) -> (r: bool)
    ensures
        r == lex_lt(a@, b@),
{
    let x = chars_of(a);
    let y = chars_of(b);
    let mut i: usize = 0;
    assert(x@.subrange(0, x@.len() as int) =~= x@);
    assert(y@.subrange(0, y@.len() as int) =~= y@);
    while i < x.len() && i < y.len() && x[i] == y[i]
        invariant
            i <= x@.len(),
            i <= y@.len(),
            lex_lt(a@, b@) == lex_lt(x@.subrange(i as int, x@.len() as int), y@.subrange(i as int, y@.len() as int)),
        decreases x@.len() - i,
    {
        let ghost xs = x@.subrange(i as int, x@.len() as int);
        let ghost ys = y@.subrange(i as int, y@.len() as int);
        assert(xs.drop_first() =~= x@.subrange(i + 1, x@.len() as int));
        assert(ys.drop_first() =~= y@.subrange(i + 1, y@.len() as int));
        i = i + 1;
    }
    if i == x.len() {
        i < y.len()
    } else if i == y.len() {
        false
    } else {
        x[i] < y[i]
    }
}

// ─────────────────────────────── case folding ───────────────────────────────

/// Unicode lower-case mapping of a string, as `str::to_lowercase` computes it.
pub uninterp spec fn lowercase(s: Seq<char>) -> Seq<char>;

/// Every character is ASCII.
pub open spec fn is_ascii_text(s: Seq<char>) -> bool {
    forall|i: int| 0 <= i < s.len() ==> (#[trigger] s[i] as u32) < 128
}

/// Lower-cases `s` with `str::to_lowercase` (full Unicode case mapping).
/// The result is named; of ASCII text it is the text with `A`..`Z`
/// mapped to `a`..`z`, which is what the Unicode mapping does there.
#[verifier::external_body]
pub(crate) fn to_lowercase(s: &str) -> (r: String)
    ensures
        r@ == lowercase(s@),
        is_ascii_text(s@) ==> r@ == s@.map_values(|c: char| crate::words::ascii_lower(c)),
{
    s.to_lowercase()
}

// ──────────────────────────────── building ────────────────────────────────

/// Appends one character with `String::push`.
#[verifier::external_body]
pub(crate) fn push_char(s: &mut String, c: char)
    ensures
        final(s)@ == old(s)@.push(c),
{
    s.push(c)
}

/// Appends a string slice.
pub fn push_str(s: &mut String, t: &str)
    ensures
        final(s)@ == old(s)@ + t@,
{
    s.append(t);
}

/// The ASCII digit for a value below ten.
pub open spec fn digit_char(d: nat) -> char {
    if d == 0 { '0' }
    else if d == 1 { '1' }
    else if d == 2 { '2' }
    else if d == 3 { '3' }
    else if d == 4 { '4' }
    else if d == 5 { '5' }
    else if d == 6 { '6' }
    else if d == 7 { '7' }
    else if d == 8 { '8' }
    else { '9' }
}

/// Decimal notation of a natural number, most significant digit first,
/// without leading zeros.
pub open spec fn decimal(n: nat) -> Seq<char>
    decreases n,
{
    if n < 10 {
        seq![digit_char(n)]
    } else {
        decimal(n / 10).push(digit_char(n % 10))
    }
}

/// Decimal notation of an integer with a leading `-` when negative.
pub open spec fn signed_decimal(i: int) -> Seq<char> {
    if i < 0 {
        seq!['-'] + decimal((-i) as nat)
    } else {
        decimal(i as nat)
    }
}

fn digit(d: u64) -> (c: char)
    requires
        d < 10,
    ensures
        c == digit_char(d as nat),
{
    if d == 0 { '0' }
    else if d == 1 { '1' }
    else if d == 2 { '2' }
    else if d == 3 { '3' }
    else if d == 4 { '4' }
    else if d == 5 { '5' }
    else if d == 6 { '6' }
    else if d == 7 { '7' }
    else if d == 8 { '8' }
    else { '9' }
}

/// Appends the decimal notation of `n`.
pub fn push_u64(s: &mut String, n: u64)
    ensures
        final(s)@ == old(s)@ + decimal(n as nat),
    decreases n,
{
    if n >= 10 {
        push_u64(s, n / 10);
    }
    push_char(s, digit(n % 10));
    assert(final(s)@ =~= old(s)@ + decimal(n as nat)) by {
        if n >= 10 {
            assert(decimal(n as nat) == decimal((n / 10) as nat).push(digit_char((n % 10) as nat)));
        }
    }
}

/// Appends the decimal notation of `n`, with a `-` when negative.
pub fn push_i64(s: &mut String, n: i64)
    ensures
        final(s)@ == old(s)@ + signed_decimal(n as int),
{
    if n < 0 {
        push_char(s, '-');
        let mag: u64 = ((-(n + 1)) as u64) + 1;
        push_u64(s, mag);
        assert(final(s)@ =~= old(s)@ + signed_decimal(n as int));
    } else {
        push_u64(s, n as u64);
    }
}

/// `a` followed by `b`.
pub fn concat2(a: &str, b: &str) -> (r: String)
    ensures
        r@ == a@ + b@,
        has_prefix(r@, a@),
{
    proof { lemma_prefix_of_concat(a@, b@); }
    let mut s = String::from_str(a);
    s.append(b);
    s
}

/// The elements of `parts` separated by `sep`.
pub open spec fn joined(parts: Seq<Seq<char>>, sep: Seq<char>) -> Seq<char>
    decreases parts.len(),
{
    if parts.len() == 0 {
        Seq::empty()
    } else if parts.len() == 1 {
        parts[0]
    } else {
        joined(parts.drop_last(), sep) + sep + parts.last()
    }
}

/// Views of a vector of strings.
pub open spec fn views(v: Seq<String>) -> Seq<Seq<char>> {
    v.map_values(|s: String| s@)
}

/// Joins `parts` with `sep` between consecutive elements.
pub fn join(parts: &Vec<String>, sep: &str) -> (r: String)
    ensures
        r@ == joined(views(parts@), sep@),
{
    let mut s = String::new();
    let mut i: usize = 0;
    while i < parts.len()
        invariant
            i <= parts.len(),
            s@ == joined(views(parts@.subrange(0, i as int)), sep@),
        decreases parts.len() - i,
    {
        let ghost prev = s@;
        if i > 0 {
            s.append(sep);
        }
        s.append(parts[i].as_str());
        proof {
            let a = views(parts@.subrange(0, i + 1));
            assert(a.drop_last() =~= views(parts@.subrange(0, i as int)));
            assert(a.last() == parts@[i as int]@);
            if i == 0 {
                assert(a.len() == 1);
                assert(s@ =~= joined(a, sep@));
            } else {
                assert(s@ =~= joined(a, sep@));
            }
        }
        i = i + 1;
    }
    assert(parts@.subrange(0, parts.len() as int) =~= parts@);
    s
}

// ──────────────────────────── integer parsing ────────────────────────────

/// Why an integer could not be parsed, as `core::num::IntErrorKind` reports it.
#[derive(Debug, Clone, Copy, PartialEq, Eq, Structural)]
pub enum IntErrorKind {
    Empty,
    InvalidDigit,
    PosOverflow,
    NegOverflow,
}

/// The message that `ParseIntError` displays for each kind.
pub open spec fn int_error_text(k: IntErrorKind) -> Seq<char> {
    match k {
        IntErrorKind::Empty => "cannot parse integer from empty string"@,
        IntErrorKind::InvalidDigit => "invalid digit found in string"@,
        IntErrorKind::PosOverflow => "number too large to fit in target type"@,
        IntErrorKind::NegOverflow => "number too small to fit in target type"@,
    }
}

/// The message that `ParseIntError` displays for `k`.
pub fn int_error_message(k: IntErrorKind) -> (r: String)
    ensures
        r@ == int_error_text(k),
{
    match k {
        IntErrorKind::Empty => String::from_str("cannot parse integer from empty string"),
        IntErrorKind::InvalidDigit => String::from_str("invalid digit found in string"),
        IntErrorKind::PosOverflow => String::from_str("number too large to fit in target type"),
        IntErrorKind::NegOverflow => String::from_str("number too small to fit in target type"),
    }
}

pub open spec fn is_digit(c: char) -> bool {
    '0' <= c && c <= '9'
}

pub open spec fn digit_value(c: char) -> nat {
    (c as u32 - '0' as u32) as nat
}

/// Left-to-right accumulation of the digits `s[i..]` onto `acc`, failing on the
/// first non-digit or as soon as the magnitude passes `bound`.
pub open spec fn scan_digits(s: Seq<char>, i: nat, acc: nat, bound: nat, neg: bool) -> Result<nat, IntErrorKind>
    decreases s.len() - i,
{
    if i >= s.len() {
        Ok(acc)
    } else if !is_digit(s[i as int]) {
        Err(IntErrorKind::InvalidDigit)
    } else if acc * 10 + digit_value(s[i as int]) > bound {
        Err(if neg { IntErrorKind::NegOverflow } else { IntErrorKind::PosOverflow })
    } else {
        scan_digits(s, i + 1, acc * 10 + digit_value(s[i as int]), bound, neg)
    }
}

/// What `str::parse` gives for an integer type whose values run from
/// `-max_neg` to `max_pos` (`signed` says whether a `-` sign is accepted).
pub open spec fn parse_int_spec(s: Seq<char>, signed: bool, max_pos: nat, max_neg: nat) -> Result<int, IntErrorKind> {
    if s.len() == 0 {
        Err(IntErrorKind::Empty)
    } else if (s[0] == '+' || s[0] == '-') && s.len() == 1 {
        Err(IntErrorKind::InvalidDigit)
    } else if s[0] == '+' {
        match scan_digits(s, 1, 0, max_pos, false) {
            Ok(v) => Ok(v as int),
            Err(e) => Err(e),
        }
    } else if s[0] == '-' && signed {
        match scan_digits(s, 1, 0, max_neg, true) {
            Ok(v) => Ok(-(v as int)),
            Err(e) => Err(e),
        }
    } else {
        match scan_digits(s, 0, 0, max_pos, false) {
            Ok(v) => Ok(v as int),
            Err(e) => Err(e),
        }
    }
}

fn char_digit(c: char) -> (r: Option<u64>)
    ensures
        r is Some <==> is_digit(c),
        r matches Some(d) ==> d == digit_value(c) && d < 10,
{
    if c >= '0' && c <= '9' {
        Some((c as u32 - '0' as u32) as u64)
    } else {
        None
    }
}

proof fn lemma_scan_bound(s: Seq<char>, i: nat, acc: nat, bound: nat, neg: bool)
    requires
        acc <= bound,
    ensures
        scan_digits(s, i, acc, bound, neg) matches Ok(v) ==> v <= bound,
    decreases s.len() - i,
{
    if i < s.len() && is_digit(s[i as int]) && acc * 10 + digit_value(s[i as int]) <= bound {
        lemma_scan_bound(s, i + 1, acc * 10 + digit_value(s[i as int]), bound, neg);
    }
}

fn scan_digits_exec(s: &Vec<char>, start: usize, bound: u64, neg: bool) -> (r: Result<u64, IntErrorKind>)
    requires
        start <= s@.len(),
    ensures
        match (r, scan_digits(s@, start as nat, 0, bound as nat, neg)) {
            (Ok(a), Ok(b)) => a as nat == b,
            (Err(a), Err(b)) => a == b,
            _ => false,
        },
        r matches Ok(a) ==> a <= bound,
{
    let mut acc: u64 = 0;
    let mut i: usize = start;
    while i < s.len()
        invariant
            start <= i <= s@.len(),
            acc <= bound,
            scan_digits(s@, start as nat, 0, bound as nat, neg)
                == scan_digits(s@, i as nat, acc as nat, bound as nat, neg),
        decreases s@.len() - i,
    {
        match char_digit(s[i]) {
            None => {
                return Err(IntErrorKind::InvalidDigit);
            },
            Some(d) => {
                let next: u128 = (acc as u128) * 10 + (d as u128);
                if next > bound as u128 {
                    return Err(if neg { IntErrorKind::NegOverflow } else { IntErrorKind::PosOverflow });
                }
                acc = next as u64;
                i = i + 1;
            },
        }
    }
    Ok(acc)
}

/// Parses `s` the way `str::parse` does for an integer type ranging over
/// `-max_neg ..= max_pos`.
pub fn parse_int(s: &str, signed: bool, max_pos: u64, max_neg: u64) -> (r: Result<(bool, u64), IntErrorKind>)
    ensures
        match (r, parse_int_spec(s@, signed, max_pos as nat, max_neg as nat)) {
            (Ok((neg, m)), Ok(v)) => v == (if neg { -(m as int) } else { m as int }),
            (Err(a), Err(b)) => a == b,
            _ => false,
        },
        r matches Ok((neg, m)) ==> (neg ==> signed && m <= max_neg) && (!neg ==> m <= max_pos),
{
    let v = chars_of(s);
    let n = v.len();
    if n == 0 {
        return Err(IntErrorKind::Empty);
    }
    let c0 = v[0];
    if (c0 == '+' || c0 == '-') && n == 1 {
        return Err(IntErrorKind::InvalidDigit);
    }
    if c0 == '+' {
        match scan_digits_exec(&v, 1, max_pos, false) {
            Ok(m) => Ok((false, m)),
            Err(e) => Err(e),
        }
    } else if c0 == '-' && signed {
        match scan_digits_exec(&v, 1, max_neg, true) {
            Ok(m) => Ok((true, m)),
            Err(e) => Err(e),
        }
    } else {
        match scan_digits_exec(&v, 0, max_pos, false) {
            Ok(m) => Ok((false, m)),
            Err(e) => Err(e),
        }
    }
}

/// `str::parse::<u64>`.
pub fn parse_u64(s: &str) -> (r: Result<u64, IntErrorKind>)
    ensures
        match (r, parse_int_spec(s@, false, u64::MAX as nat, 0)) {
            (Ok(a), Ok(b)) => a as int == b,
            (Err(a), Err(b)) => a == b,
            _ => false,
        },
{
    match parse_int(s, false, u64::MAX, 0) {
        Ok((neg, m)) => {
            if neg {
                proof { assert(false); }
                return Err(IntErrorKind::InvalidDigit);
            }
            Ok(m)
        },
        Err(e) => Err(e),
    }
}

/// `str::parse::<u32>`.
pub fn parse_u32(s: &str) -> (r: Result<u32, IntErrorKind>)
    ensures
        match (r, parse_int_spec(s@, false, u32::MAX as nat, 0)) {
            (Ok(a), Ok(b)) => a as int == b,
            (Err(a), Err(b)) => a == b,
            _ => false,
        },
{
    match parse_int(s, false, u32::MAX as u64, 0) {
        Ok((neg, m)) => {
            if neg {
                proof { assert(false); }
                return Err(IntErrorKind::InvalidDigit);
            }
            Ok(m as u32)
        },
        Err(e) => Err(e),
    }
}

/// `str::parse::<u16>`.
pub fn parse_u16(s: &str) -> (r: Result<u16, IntErrorKind>)
    ensures
        match (r, parse_int_spec(s@, false, u16::MAX as nat, 0)) {
            (Ok(a), Ok(b)) => a as int == b,
            (Err(a), Err(b)) => a == b,
            _ => false,
        },
{
    match parse_int(s, false, u16::MAX as u64, 0) {
        Ok((neg, m)) => {
            if neg {
                proof { assert(false); }
                return Err(IntErrorKind::InvalidDigit);
            }
            Ok(m as u16)
        },
        Err(e) => Err(e),
    }
}

/// `str::parse::<i32>`.
pub fn parse_i32_value(s: &str) -> (r: Result<i32, IntErrorKind>)
    ensures
        match (r, parse_int_spec(s@, true, i32::MAX as nat, 0x8000_0000)) {
            (Ok(a), Ok(b)) => a as int == b,
            (Err(a), Err(b)) => a == b,
            _ => false,
        },
{
    match parse_int(s, true, i32::MAX as u64, 0x8000_0000) {
        Ok((neg, m)) => {
            if neg {
                if m == 0x8000_0000 {
                    Ok(i32::MIN)
                } else {
                    Ok(-(m as i32))
                }
            } else {
                Ok(m as i32)
            }
        },
        Err(e) => Err(e),
    }
}

} // verus!

verus! {

/// The `i32` a text parses to, if any.
pub open spec fn i32_of(s: Seq<char>) -> Option<i32> {
    match parse_int_spec(s, true, i32::MAX as nat, 0x8000_0000) {
        Ok(v) => Some(v as i32),
        Err(_) => None,
    }
}

/// The `u32` a text parses to, if any.
pub open spec fn u32_of(s: Seq<char>) -> Option<u32> {
    match parse_int_spec(s, false, u32::MAX as nat, 0) {
        Ok(v) => Some(v as u32),
        Err(_) => None,
    }
}

/// The `u16` a text parses to, if any.
pub open spec fn u16_of(s: Seq<char>) -> Option<u16> {
    match parse_int_spec(s, false, u16::MAX as nat, 0) {
        Ok(v) => Some(v as u16),
        Err(_) => None,
    }
}

/// `str::parse::<i32>().ok()`.
pub fn i32_opt(s: &str) -> (r: Option<i32>)
    ensures
        r == i32_of(s@),
{
    match parse_i32_value(s) {
        Ok(v) => Some(v),
        Err(_) => None,
    }
}

/// `str::parse::<u32>().ok()`.
pub fn u32_opt(s: &str) -> (r: Option<u32>)
    ensures
        r == u32_of(s@),
{
    match parse_u32(s) {
        Ok(v) => Some(v),
        Err(_) => None,
    }
}

/// `str::parse::<u16>().ok()`.
pub fn u16_opt(s: &str) -> (r: Option<u16>)
    ensures
        r == u16_of(s@),
{
    match parse_u16(s) {
        Ok(v) => Some(v),
        Err(_) => None,
    }
}

} // verus!

verus! {

/// The `usize` a text parses to, if any.
pub open spec fn usize_of(s: Seq<char>) -> Option<usize> {
    match parse_int_spec(s, false, usize::MAX as nat, 0) {
        Ok(v) => Some(v as usize),
        Err(_) => None,
    }
}

/// The `u8` a text parses to, if any.
pub open spec fn u8_of(s: Seq<char>) -> Option<u8> {
    match parse_int_spec(s, false, u8::MAX as nat, 0) {
        Ok(v) => Some(v as u8),
        Err(_) => None,
    }
}

/// `str::parse::<u8>().ok()`.
pub fn u8_opt(s: &str) -> (r: Option<u8>)
    ensures
        r == u8_of(s@),
{
    match parse_int(s, false, u8::MAX as u64, 0) {
        Ok((neg, m)) => {
            if neg {
                proof { assert(false); }
                return None;
            }
            Some(m as u8)
        },
        Err(_) => None,
    }
}

/// `str::parse::<usize>().ok()`.
pub fn usize_opt(s: &str) -> (r: Option<usize>)
    ensures
        r == usize_of(s@),
{
    match parse_int(s, false, usize::MAX as u64, 0) {
        Ok((neg, m)) => {
            if neg {
                proof { assert(false); }
                return None;
            }
            Some(m as usize)
        },
        Err(_) => None,
    }
}

} // verus!
