//! Character-level text operations with exact specifications over `Seq<char>`.

use vstd::prelude::*;

verus! {

/// `pat` occurs in `s` starting at character index `i`.
pub open spec fn matches_at(s: Seq<char>, pat: Seq<char>, i: int) -> bool {
    &&& 0 <= i
    &&& i + pat.len() <= s.len()
    &&& s.subrange(i, i + pat.len()) == pat
}

/// The largest index `i < n` at which `pat` occurs in `s`, or `-1` when there is none.
pub open spec fn last_match_before(s: Seq<char>, pat: Seq<char>, n: int) -> int
    decreases n,
{
    if n <= 0 {
        -1
    } else if matches_at(s, pat, n - 1) {
        n - 1
    } else {
        last_match_before(s, pat, n - 1)
    }
}

/// The index of the last occurrence of `pat` in `s`, or `-1` when `pat` does not occur.
pub open spec fn last_match(s: Seq<char>, pat: Seq<char>) -> int {
    last_match_before(s, pat, s.len() + 1int)
}

/// Splitting `s` around the last occurrence of `pat`, as `str::rsplit_once` does.
pub open spec fn rsplit_once_spec(s: Seq<char>, pat: Seq<char>) -> Option<(Seq<char>, Seq<char>)> {
    let i = last_match(s, pat);
    if i < 0 {
        None
    } else {
        Some((s.take(i), s.skip(i + pat.len())))
    }
}

/// What `last_match_before` returns: an occurrence with no later one below `n`,
/// or `-1` when no occurrence starts below `n`.
pub proof fn lemma_last_match_before(s: Seq<char>, pat: Seq<char>, n: int)
    requires
        0 <= n,
    ensures
        ({
            let i = last_match_before(s, pat, n);
            &&& i < n
            &&& i >= 0 ==> matches_at(s, pat, i)
            &&& i >= -1
            &&& forall|j: int| i < j < n ==> !matches_at(s, pat, j)
        }),
    decreases n,
{
    if n > 0 {
        lemma_last_match_before(s, pat, n - 1);
    }
}

/// What `last_match` returns: the last occurrence of `pat` in `s`, or `-1` when there is none.
pub proof fn lemma_last_match(s: Seq<char>, pat: Seq<char>)
    ensures
        ({
            let i = last_match(s, pat);
            &&& -1 <= i <= s.len()
            &&& i >= 0 ==> matches_at(s, pat, i)
            &&& forall|j: int| i < j ==> !matches_at(s, pat, j)
        }),
{
    lemma_last_match_before(s, pat, s.len() + 1int);
}

/// Decides whether `pat` occurs in `s` at character index `i`.
pub fn match_at(s: &str, s_len: usize, pat: &str, pat_len: usize, i: usize) -> (r: bool)
    requires
        s_len == s@.len(),
        pat_len == pat@.len(),
    ensures
        r == matches_at(s@, pat@, i as int),
{
    if pat_len > s_len || i > s_len - pat_len {
        return false;
    }
    let mut k: usize = 0;
    while k < pat_len
        invariant
            k <= pat_len,
            pat_len == pat@.len(),
            s_len == s@.len(),
            i + pat_len <= s_len,
            forall|m: int| 0 <= m < k ==> s@[i + m] == pat@[m],
        decreases pat_len - k,
    {
        if s.get_char(i + k) != pat.get_char(k) {
            assert(s@.subrange(i as int, i + pat_len)[k as int] != pat@[k as int]);
            return false;
        }
        k = k + 1;
    }
    assert(s@.subrange(i as int, i + pat_len) =~= pat@);
    true
}

/// Finds the character index of the last occurrence of `pat` in `s`.
pub fn rfind(s: &str, pat: &str) -> (r: Option<usize>)
    ensures
        match r {
            Some(i) => i as int == last_match(s@, pat@),
            None => last_match(s@, pat@) == -1,
        },
{
    let s_len = s.unicode_len();
    let pat_len = pat.unicode_len();
    let mut n: usize = s_len;
    loop
        invariant
            s_len == s@.len(),
            pat_len == pat@.len(),
            n <= s_len,
            last_match(s@, pat@) == last_match_before(s@, pat@, n + 1),
        decreases n,
    {
        if match_at(s, s_len, pat, pat_len, n) {
            return Some(n);
        }
        if n == 0 {
            assert(last_match_before(s@, pat@, 0) == -1);
            return None;
        }
        n = n - 1;
    }
}

/// Splits `s` around the last occurrence of `pat`, as `str::rsplit_once` does.
pub fn rsplit_once(s: &str, pat: &str) -> (r: Option<(String, String)>)
    ensures
        match r {
            Some((before, after)) => rsplit_once_spec(s@, pat@) == Some((before@, after@)),
            None => rsplit_once_spec(s@, pat@) is None,
        },
{
    proof {
        lemma_last_match(s@, pat@);
    }
    match rfind(s, pat) {
        Some(i) => {
            let s_len = s.unicode_len();
            let pat_len = pat.unicode_len();
            let before = s.substring_char(0, i).to_owned();
            let after = s.substring_char(i + pat_len, s_len).to_owned();
            assert(before@ =~= s@.take(i as int));
            assert(after@ =~= s@.skip(i + pat@.len()));
            Some((before, after))
        },
        None => None,
    }
}

/// The character that writes the decimal digit `d`.
pub open spec fn digit_char(d: int) -> char {
    seq!['0', '1', '2', '3', '4', '5', '6', '7', '8', '9'][d]
}

/// The decimal notation of `n`, without sign or leading zeros.
pub open spec fn decimal(n: nat) -> Seq<char>
    decreases n,
{
    if n < 10 {
        seq![digit_char(n as int)]
    } else {
        decimal(n / 10).push(digit_char((n % 10) as int))
    }
}

/// The one-character text of the decimal digit `d`.
fn digit_str(d: u32) -> (r: &'static str)
    requires
        d < 10,
    ensures
        r@ == seq![digit_char(d as int)],
{
    proof {
        reveal_strlit("0");
        reveal_strlit("1");
        reveal_strlit("2");
        reveal_strlit("3");
        reveal_strlit("4");
        reveal_strlit("5");
        reveal_strlit("6");
        reveal_strlit("7");
        reveal_strlit("8");
        reveal_strlit("9");
    }
    match d {
        0 => "0",
        1 => "1",
        2 => "2",
        3 => "3",
        4 => "4",
        5 => "5",
        6 => "6",
        7 => "7",
        8 => "8",
        _ => "9",
    }
}

/// Appends the decimal notation of `n` to `out`.
pub fn push_decimal(out: &mut String, n: u32)
    ensures
        final(out)@ == old(out)@ + decimal(n as nat),
    decreases n,
{
    if n >= 10 {
        push_decimal(out, n / 10);
    }
    out.append(digit_str(n % 10));
    assert(decimal(n as nat) =~= if n < 10 { seq![digit_char(n as int)] } else {
        decimal((n / 10) as nat).push(digit_char((n % 10) as int))
    });
}

/// Why a text is not the decimal notation of a `u32`, in the terms of `core::num::IntErrorKind`.
#[derive(Debug, Clone, Copy, PartialEq, Eq, Structural)]
pub enum IntErrorKind {
    /// The text is empty.
    Empty,
    /// The text holds a character that is not a decimal digit.
    InvalidDigit,
    /// The number does not fit in a `u32`.
    PosOverflow,
}

impl IntErrorKind {
    /// The message that `core::num::ParseIntError` displays for this kind.
    pub fn message(&self) -> (r: String)
        ensures
            r@ == int_error_message(*self),
    {
        match self {
            IntErrorKind::Empty => String::from_str("cannot parse integer from empty string"),
            IntErrorKind::InvalidDigit => String::from_str("invalid digit found in string"),
            IntErrorKind::PosOverflow => String::from_str("number too large to fit in target type"),
        }
    }
}

/// The message that `core::num::ParseIntError` displays for each kind.
pub open spec fn int_error_message(k: IntErrorKind) -> Seq<char> {
    match k {
        IntErrorKind::Empty => "cannot parse integer from empty string"@,
        IntErrorKind::InvalidDigit => "invalid digit found in string"@,
        IntErrorKind::PosOverflow => "number too large to fit in target type"@,
    }
}

/// `c` is one of the ASCII decimal digits.
pub open spec fn is_digit(c: char) -> bool {
    '0' <= c <= '9'
}

/// The value of the decimal digit `c`.
pub open spec fn digit_value(c: char) -> int {
    c as int - '0' as int
}

/// Reads `s` from left to right as decimal digits, stopping at the first character
/// that is not a digit or at the first digit that makes the value exceed `u32::MAX`.
pub open spec fn scan_digits(s: Seq<char>) -> Result<nat, IntErrorKind>
    decreases s.len(),
{
    if s.len() == 0 {
        Ok(0)
    } else {
        match scan_digits(s.drop_last()) {
            Err(e) => Err(e),
            Ok(v) => if !is_digit(s.last()) {
                Err(IntErrorKind::InvalidDigit)
            } else if v * 10 + digit_value(s.last()) > u32::MAX {
                Err(IntErrorKind::PosOverflow)
            } else {
                Ok((v * 10 + digit_value(s.last())) as nat)
            },
        }
    }
}

/// What `str::parse::<u32>` returns for the text `s`: an optional leading `+`,
/// then decimal digits.
pub open spec fn parse_u32_spec(s: Seq<char>) -> Result<u32, IntErrorKind> {
    if s.len() == 0 {
        Err(IntErrorKind::Empty)
    } else if (s[0] == '+' || s[0] == '-') && s.len() == 1 {
        Err(IntErrorKind::InvalidDigit)
    } else {
        let digits = if s[0] == '+' { s.skip(1) } else { s };
        match scan_digits(digits) {
            Ok(v) => Ok(v as u32),
            Err(e) => Err(e),
        }
    }
}

/// The value read by `scan_digits` never exceeds `u32::MAX`, and an error in a prefix
/// is the error of the whole text.
proof fn lemma_scan_digits_prefix(s: Seq<char>, k: int)
    requires
        0 <= k <= s.len(),
    ensures
        scan_digits(s) is Ok ==> scan_digits(s)->Ok_0 <= u32::MAX,
        scan_digits(s.take(k)) is Err ==> scan_digits(s) == scan_digits(s.take(k)),
    decreases s.len(),
{
    if s.len() > 0 {
        if k == s.len() {
            assert(s.take(k) =~= s);
            lemma_scan_digits_prefix(s.drop_last(), 0);
        } else {
            assert(s.drop_last().take(k) =~= s.take(k));
            lemma_scan_digits_prefix(s.drop_last(), k);
        }
    }
}

/// Reads the decimal digits of `s` from character index `start` on.
fn scan_digits_from(s: &str, s_len: usize, start: usize) -> (r: Result<u32, IntErrorKind>)
    requires
        s_len == s@.len(),
        start <= s_len,
    ensures
        match r {
            Ok(v) => scan_digits(s@.skip(start as int)) == Ok::<nat, IntErrorKind>(v as nat),
            Err(e) => scan_digits(s@.skip(start as int)) == Err::<nat, IntErrorKind>(e),
        },
{
    let ghost digits = s@.skip(start as int);
    let mut acc: u32 = 0;
    let mut i: usize = start;
    assert(digits.take(0) =~= Seq::<char>::empty());
    while i < s_len
        invariant
            start <= i <= s_len,
            s_len == s@.len(),
            digits == s@.skip(start as int),
            scan_digits(digits.take(i - start)) == Ok::<nat, IntErrorKind>(acc as nat),
        decreases s_len - i,
    {
        let c = s.get_char(i);
        let ghost pre = digits.take(i - start);
        let ghost next = digits.take(i - start + 1);
        assert(next.drop_last() =~= pre);
        assert(next.last() == c);
        if c < '0' || c > '9' {
            proof {
                lemma_scan_digits_prefix(digits, i - start + 1);
            }
            return Err(IntErrorKind::InvalidDigit);
        }
        let d: u32 = (c as u32) - ('0' as u32);
        let wide: u64 = (acc as u64) * 10 + (d as u64);
        if wide > u32::MAX as u64 {
            proof {
                lemma_scan_digits_prefix(digits, i - start + 1);
            }
            return Err(IntErrorKind::PosOverflow);
        }
        acc = wide as u32;
        i = i + 1;
    }
    assert(digits.take(i - start) =~= digits);
    Ok(acc)
}

/// Reads `s` as the decimal notation of a `u32`, as `str::parse::<u32>` does.
pub fn parse_u32(s: &str) -> (r: Result<u32, IntErrorKind>)
    ensures
        r == parse_u32_spec(s@),
{
    let s_len = s.unicode_len();
    if s_len == 0 {
        return Err(IntErrorKind::Empty);
    }
    let first = s.get_char(0);
    if (first == '+' || first == '-') && s_len == 1 {
        return Err(IntErrorKind::InvalidDigit);
    }
    let start: usize = if first == '+' { 1 } else { 0 };
    assert(s@.skip(0) =~= s@);
    scan_digits_from(s, s_len, start)
}

/// `digit_char` writes each decimal digit as the character whose value it is.
proof fn lemma_digit_char(d: int)
    requires
        0 <= d < 10,
    ensures
        is_digit(digit_char(d)),
        digit_value(digit_char(d)) == d,
{
    let t = seq!['0', '1', '2', '3', '4', '5', '6', '7', '8', '9'];
    assert(t[0] == '0' && t[1] == '1' && t[2] == '2' && t[3] == '3' && t[4] == '4');
    assert(t[5] == '5' && t[6] == '6' && t[7] == '7' && t[8] == '8' && t[9] == '9');
}

/// Every character of a decimal notation is a digit, and the notation is not empty.
pub proof fn lemma_decimal_digits(n: nat)
    ensures
        decimal(n).len() >= 1,
        forall|i: int| 0 <= i < decimal(n).len() ==> is_digit(#[trigger] decimal(n)[i]),
    decreases n,
{
    lemma_digit_char((n % 10) as int);
    if n >= 10 {
        lemma_decimal_digits(n / 10);
    }
}

/// Reading back the decimal notation of `n` gives `n`.
proof fn lemma_scan_decimal(n: nat)
    requires
        n <= u32::MAX,
    ensures
        scan_digits(decimal(n)) == Ok::<nat, IntErrorKind>(n),
    decreases n,
{
    lemma_digit_char((n % 10) as int);
    if n < 10 {
        assert(decimal(n).drop_last() =~= Seq::<char>::empty());
        assert(decimal(n).last() == digit_char(n as int));
        assert(n % 10 == n);
        assert(scan_digits(decimal(n).drop_last()) == Ok::<nat, IntErrorKind>(0));
        assert(digit_value(decimal(n).last()) == n);
    } else {
        lemma_scan_decimal(n / 10);
        assert(decimal(n).drop_last() =~= decimal(n / 10));
        assert(decimal(n).last() == digit_char((n % 10) as int));
        assert((n / 10) * 10 + n % 10 == n);
        assert(scan_digits(decimal(n).drop_last()) == Ok::<nat, IntErrorKind>(n / 10));
        assert(digit_value(decimal(n).last()) == n % 10);
    }
}

/// Law: `str::parse::<u32>` reads back what the decimal notation of a `u32` writes.
pub proof fn lemma_parse_decimal(n: u32)
    ensures
        parse_u32_spec(decimal(n as nat)) == Ok::<u32, IntErrorKind>(n),
{
    lemma_decimal_digits(n as nat);
    lemma_scan_decimal(n as nat);
    assert(is_digit(decimal(n as nat)[0]));
}

/// `s` with every occurrence of the non-empty `pat` replaced by `with`, the
/// occurrences taken from left to right without overlap, as `str::replace` does.
pub open spec fn replace_all(s: Seq<char>, pat: Seq<char>, with: Seq<char>) -> Seq<char>
    decreases s.len(),
{
    if s.len() == 0 {
        s
    } else if pat.len() > 0 && pat.len() <= s.len() && s.take(pat.len() as int) == pat {
        with + replace_all(s.skip(pat.len() as int), pat, with)
    } else {
        seq![s[0]] + replace_all(s.skip(1), pat, with)
    }
}

/// Replaces every occurrence of the non-empty `pat` in `s` by `with`, as `str::replace` does.
pub(crate) fn replace(s: &str, pat: &str, with: &str) -> (r: String)
    requires
        pat@.len() > 0,
    ensures
        r@ == replace_all(s@, pat@, with@),
{
    let s_len = s.unicode_len();
    let pat_len = pat.unicode_len();
    let mut out = String::new();
    let mut i: usize = 0;
    assert(s@.skip(0) =~= s@);
    while i < s_len
        invariant
            i <= s_len,
            s_len == s@.len(),
            pat_len == pat@.len(),
            pat_len > 0,
            out@ + replace_all(s@.skip(i as int), pat@, with@) == replace_all(s@, pat@, with@),
        decreases s_len - i,
    {
        let ghost rest = s@.skip(i as int);
        if match_at(s, s_len, pat, pat_len, i) {
            assert(rest.take(pat_len as int) =~= s@.subrange(i as int, i + pat_len));
            assert(rest.skip(pat_len as int) =~= s@.skip(i + pat_len));
            out.append(with);
            i = i + pat_len;
            assert(out@ + replace_all(s@.skip(i as int), pat@, with@) =~= replace_all(s@, pat@, with@));
        } else {
            assert(pat_len <= rest.len() ==> rest.take(pat_len as int) =~= s@.subrange(i as int, i + pat_len));
            assert(rest.skip(1) =~= s@.skip(i + 1));
            let c = s.substring_char(i, i + 1);
            assert(c@ =~= seq![rest[0]]);
            out.append(c);
            i = i + 1;
            assert(out@ + replace_all(s@.skip(i as int), pat@, with@) =~= replace_all(s@, pat@, with@));
        }
    }
    assert(s@.skip(i as int) =~= Seq::<char>::empty());
    assert(out@ + Seq::<char>::empty() =~= out@);
    out
}

/// A decimal notation of more than one digit does not start with `0`.
pub proof fn lemma_decimal_no_leading_zero(n: nat)
    ensures
        decimal(n).len() > 1 ==> decimal(n)[0] != '0',
        decimal(n).len() > 1 ==> n >= 10,
    decreases n,
{
    if n >= 10 {
        lemma_decimal_digits(n / 10);
        assert(decimal(n)[0] == decimal(n / 10)[0]);
        if n / 10 < 10 {
            lemma_digit_char((n / 10) as int);
            assert(decimal(n / 10)[0] == digit_char((n / 10) as int));
            assert(digit_value('0') == 0);
        } else {
            lemma_decimal_digits(n / 10 / 10);
            assert(decimal(n / 10).len() > 1);
            lemma_decimal_no_leading_zero(n / 10);
        }
    }
}

} // verus!
