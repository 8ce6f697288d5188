//! Character-level string helpers with exact specifications.
use vstd::prelude::*;

verus! {

/// `pre` is a prefix of `s`.
pub open spec fn is_prefix(s: Seq<char>, pre: Seq<char>) -> bool {
    pre.len() <= s.len() && s.subrange(0, pre.len() as int) == pre
}

/// `suf` is a suffix of `s`.
pub open spec fn is_suffix(s: Seq<char>, suf: Seq<char>) -> bool {
    suf.len() <= s.len() && s.subrange(s.len() - suf.len(), s.len() as int) == suf
}

/// `pat` occurs in `s` starting at position `i`.
pub open spec fn occurs_at(s: Seq<char>, pat: Seq<char>, i: int) -> bool {
    0 <= i && i + pat.len() <= s.len() && s.subrange(i, i + pat.len()) == pat
}

/// `pat` occurs somewhere in `s`.
pub open spec fn has_infix(s: Seq<char>, pat: Seq<char>) -> bool {
    exists|i: int| occurs_at(s, pat, i)
}

/// Whether two strings hold the same characters.
pub fn str_eq(a: &str, b: &str) -> (r: bool)
    ensures
        r == (a@ == b@),
{
    let n = a.unicode_len();
    if n != b.unicode_len() {
        return false;
    }
    let mut i: usize = 0;
    while i < n
        invariant
            n == a@.len(),
            n == b@.len(),
            i <= n,
            forall|j: int| 0 <= j < i ==> a@[j] == b@[j],
        decreases n - i,
    {
        if a.get_char(i) != b.get_char(i) {
            return false;
        }
        i = i + 1;
    }
    assert(a@ =~= b@);
    true
}

/// Whether `pat` occurs in `s` at character position `i`.
pub fn occurs_at_exec(s: &str, pat: &str, i: usize) -> (r: bool)
    ensures
        r == occurs_at(s@, pat@, i as int),
{
    let n = s.unicode_len();
    let m = pat.unicode_len();
    if i > n || m > n - i {
        return false;
    }
    let mut j: usize = 0;
    while j < m
        invariant
            n == s@.len(),
            m == pat@.len(),
            i + m <= n,
            j <= m,
            forall|k: int| 0 <= k < j ==> s@[i + k] == pat@[k],
        decreases m - j,
    {
        if s.get_char(i + j) != pat.get_char(j) {
            assert(s@.subrange(i as int, i + m)[j as int] != pat@[j as int]);
            return false;
        }
        j = j + 1;
    }
    assert(s@.subrange(i as int, i + m) =~= pat@);
    true
}

/// Whether `s` begins with `pre`.
pub fn starts_with(s: &str, pre: &str) -> (r: bool)
    ensures
        r == is_prefix(s@, pre@),
{
    occurs_at_exec(s, pre, 0)
}

/// Whether `s` ends with `suf`.
pub fn ends_with(s: &str, suf: &str) -> (r: bool)
    ensures
        r == is_suffix(s@, suf@),
{
    let n = s.unicode_len();
    let m = suf.unicode_len();
    if m > n {
        return false;
    }
    occurs_at_exec(s, suf, n - m)
}

/// Whether `pat` occurs anywhere in `s`.
pub fn contains(s: &str, pat: &str) -> (r: bool)
    ensures
        r == has_infix(s@, pat@),
{
    let n = s.unicode_len();
    let m = pat.unicode_len();
    if m > n {
        return false;
    }
    let last = n - m;
    let mut i: usize = 0;
    while i < last
        invariant
            n == s@.len(),
            m == pat@.len(),
            last == n - m,
            i <= last,
            forall|k: int| 0 <= k < i ==> !occurs_at(s@, pat@, k),
        decreases last - i,
    {
        if occurs_at_exec(s, pat, i) {
            return true;
        }
        i = i + 1;
    }
    if occurs_at_exec(s, pat, last) {
        return true;
    }
    assert forall|k: int| !occurs_at(s@, pat@, k) by {
        if 0 <= k && k + m <= n {
            assert(k < i || k == last);
        }
    }
    false
}

/// The decimal digit character for a value below ten.
pub open spec fn digit_char(d: int) -> char {
    if d == 0 {
        '0'
    } else if d == 1 {
        '1'
    } else if d == 2 {
        '2'
    } else if d == 3 {
        '3'
    } else if d == 4 {
        '4'
    } else if d == 5 {
        '5'
    } else if d == 6 {
        '6'
    } else if d == 7 {
        '7'
    } else if d == 8 {
        '8'
    } else {
        '9'
    }
}

/// The value of a decimal digit character, if it is one.
pub open spec fn digit_value(c: char) -> Option<int> {
    if c == '0' {
        Some(0)
    } else if c == '1' {
        Some(1)
    } else if c == '2' {
        Some(2)
    } else if c == '3' {
        Some(3)
    } else if c == '4' {
        Some(4)
    } else if c == '5' {
        Some(5)
    } else if c == '6' {
        Some(6)
    } else if c == '7' {
        Some(7)
    } else if c == '8' {
        Some(8)
    } else if c == '9' {
        Some(9)
    } else {
        None
    }
}

/// The hexadecimal digits, in lower case.
pub open spec fn hex_digits() -> Seq<char> {
    seq!['0', '1', '2', '3', '4', '5', '6', '7', '8', '9', 'a', 'b', 'c', 'd', 'e', 'f']
}

/// The last `n` hexadecimal digits of `v`, in lower case and most
/// significant first, with leading zeros.
pub open spec fn hex_field(v: nat, n: nat) -> Seq<char>
    decreases n,
{
    if n == 0 {
        Seq::empty()
    } else {
        hex_field(v / 16, (n - 1) as nat).push(hex_digits()[(v % 16) as int])
    }
}

/// The shortest decimal rendering of a natural number, as `to_string` prints it.
pub open spec fn decimal(n: nat) -> Seq<char>
    decreases n,
{
    if n < 10 {
        seq![digit_char(n as int)]
    } else {
        decimal(n / 10).push(digit_char((n % 10) as int))
    }
}

fn digit_str(d: u64) -> (r: &'static str)
    requires
        d < 10,
    ensures
        r@ == seq![digit_char(d as int)],
{
    let digits = "0123456789";
    proof {
        reveal_strlit("0123456789");
    }
    digits.substring_char(d as usize, d as usize + 1)
}

/// Renders a number in decimal.
pub fn decimal_string(n: u64) -> (r: String)
    ensures
        r@ == decimal(n as nat),
    decreases n,
{
    if n < 10 {
        String::from_str(digit_str(n))
    } else {
        let mut s = decimal_string(n / 10);
        s.append(digit_str(n % 10));
        s
    }
}

/// Why a number could not be read, as the standard library reports it.
#[derive(Debug, Clone, Copy, PartialEq, Eq, Structural)]
pub enum IntErrorKind {
    Empty,
    InvalidDigit,
    PosOverflow,
}

/// Reading the digits `ds` onto an accumulated value `acc`, the way
/// `from_str` of an unsigned type with largest value `max` scans them: a
/// non-digit is reported before an overflow that the same character would
/// cause.
pub open spec fn scan_digits(acc: int, ds: Seq<char>, max: int) -> Result<int, IntErrorKind>
    decreases ds.len(),
{
    if ds.len() == 0 {
        Ok(acc)
    } else {
        match digit_value(ds[0]) {
            None => Err(IntErrorKind::InvalidDigit),
            Some(d) => if acc * 10 + d > max {
                Err(IntErrorKind::PosOverflow)
            } else {
                scan_digits(acc * 10 + d, ds.drop_first(), max)
            },
        }
    }
}

/// The outcome of `from_str` on `s` for an unsigned type with largest value
/// `max`: an optional leading `+` and then decimal digits only.
pub open spec fn parse_unsigned_spec(s: Seq<char>, max: int) -> Result<int, IntErrorKind> {
    if s.len() == 0 {
        Err(IntErrorKind::Empty)
    } else if (s[0] == '+' || s[0] == '-') && s.len() == 1 {
        Err(IntErrorKind::InvalidDigit)
    } else if s[0] == '+' {
        scan_digits(0, s.drop_first(), max)
    } else {
        scan_digits(0, s, max)
    }
}

/// The outcome of `u32::from_str` on `s`.
pub open spec fn parse_u32_spec(s: Seq<char>) -> Result<int, IntErrorKind> {
    parse_unsigned_spec(s, u32::MAX as int)
}

/// The outcome of `usize::from_str` on `s`.
pub open spec fn parse_usize_spec(s: Seq<char>) -> Result<int, IntErrorKind> {
    parse_unsigned_spec(s, usize::MAX as int)
}

/// Reads a `u32` written in decimal, with the rules of `u32::from_str`.
pub fn parse_u32(s: &str) -> (r: Result<u32, IntErrorKind>)
    ensures
        match r {
            Ok(n) => parse_u32_spec(s@) == Ok::<int, IntErrorKind>(n as int),
            Err(k) => parse_u32_spec(s@) == Err::<int, IntErrorKind>(k),
        },
{
    let n = s.unicode_len();
    if n == 0 {
        return Err(IntErrorKind::Empty);
    }
    let c0 = s.get_char(0);
    if (c0 == '+' || c0 == '-') && n == 1 {
        return Err(IntErrorKind::InvalidDigit);
    }
    let start: usize = if c0 == '+' {
        1
    } else {
        0
    };
    let ghost ds = s@.subrange(start as int, n as int);
    assert(start == 1 ==> ds =~= s@.drop_first());
    assert(start == 0 ==> ds =~= s@);
    assert(parse_u32_spec(s@) == scan_digits(0, ds, u32::MAX as int));
    let mut acc: u32 = 0;
    let mut i: usize = start;
    while i < n
        invariant
            n == s@.len(),
            start <= i <= n,
            ds == s@.subrange(start as int, n as int),
            parse_u32_spec(s@) == scan_digits(0, ds, u32::MAX as int),
            scan_digits(0, ds, u32::MAX as int) == scan_digits(
                acc as int,
                s@.subrange(i as int, n as int),
                u32::MAX as int,
            ),
        decreases n - i,
    {
        let c = s.get_char(i);
        let ghost rest = s@.subrange(i as int, n as int);
        assert(rest[0] == c);
        assert(rest.drop_first() =~= s@.subrange(i + 1, n as int));
        let d: u32 = if c == '0' {
            0
        } else if c == '1' {
            1
        } else if c == '2' {
            2
        } else if c == '3' {
            3
        } else if c == '4' {
            4
        } else if c == '5' {
            5
        } else if c == '6' {
            6
        } else if c == '7' {
            7
        } else if c == '8' {
            8
        } else if c == '9' {
            9
        } else {
            assert(digit_value(c) is None);
            assert(scan_digits(acc as int, rest, u32::MAX as int) == Err::<int, IntErrorKind>(IntErrorKind::InvalidDigit));
            return Err(IntErrorKind::InvalidDigit);
        };
        assert(digit_value(c) == Some(d as int));
        if acc > 429496729 || (acc == 429496729 && d > 5) {
            assert(acc * 10 + d > u32::MAX) by (nonlinear_arith)
                requires
                    acc > 429496729 || (acc == 429496729 && d > 5),
            ;
            assert(scan_digits(acc as int, rest, u32::MAX as int) == Err::<int, IntErrorKind>(IntErrorKind::PosOverflow));
            return Err(IntErrorKind::PosOverflow);
        }
        assert(acc * 10 + d <= u32::MAX) by (nonlinear_arith)
            requires
                !(acc > 429496729 || (acc == 429496729 && d > 5)),
                d <= 9,
        ;
        acc = acc * 10 + d;
        i = i + 1;
    }
    assert(s@.subrange(n as int, n as int) =~= Seq::<char>::empty());
    Ok(acc)
}

/// The value of a decimal digit character.
fn digit_of(c: char) -> (r: Option<usize>)
    ensures
        match digit_value(c) {
            Some(d) => r == Some(d as usize),
            None => r is None,
        },
{
    if c == '0' {
        Some(0)
    } else if c == '1' {
        Some(1)
    } else if c == '2' {
        Some(2)
    } else if c == '3' {
        Some(3)
    } else if c == '4' {
        Some(4)
    } else if c == '5' {
        Some(5)
    } else if c == '6' {
        Some(6)
    } else if c == '7' {
        Some(7)
    } else if c == '8' {
        Some(8)
    } else if c == '9' {
        Some(9)
    } else {
        None
    }
}

/// Reads a `usize` written in decimal, with the rules of `usize::from_str`.
pub fn parse_usize(s: &str) -> (r: Result<usize, IntErrorKind>)
    ensures
        match r {
            Ok(n) => parse_usize_spec(s@) == Ok::<int, IntErrorKind>(n as int),
            Err(k) => parse_usize_spec(s@) == Err::<int, IntErrorKind>(k),
        },
{
    let n = s.unicode_len();
    if n == 0 {
        return Err(IntErrorKind::Empty);
    }
    let c0 = s.get_char(0);
    if (c0 == '+' || c0 == '-') && n == 1 {
        return Err(IntErrorKind::InvalidDigit);
    }
    let start: usize = if c0 == '+' {
        1
    } else {
        0
    };
    let ghost max = usize::MAX as int;
    let ghost ds = s@.subrange(start as int, n as int);
    assert(start == 1 ==> ds =~= s@.drop_first());
    assert(start == 0 ==> ds =~= s@);
    assert(parse_usize_spec(s@) == scan_digits(0, ds, max));
    let mut acc: usize = 0;
    let mut i: usize = start;
    while i < n
        invariant
            n == s@.len(),
            max == usize::MAX as int,
            start <= i <= n,
            ds == s@.subrange(start as int, n as int),
            parse_usize_spec(s@) == scan_digits(0, ds, max),
            scan_digits(0, ds, max) == scan_digits(acc as int, s@.subrange(i as int, n as int), max),
        decreases n - i,
    {
        let c = s.get_char(i);
        let ghost rest = s@.subrange(i as int, n as int);
        assert(rest[0] == c);
        assert(rest.drop_first() =~= s@.subrange(i + 1, n as int));
        let d = match digit_of(c) {
            Some(d) => d,
            None => {
                return Err(IntErrorKind::InvalidDigit);
            },
        };
        let next = match acc.checked_mul(10) {
            Some(m) => m.checked_add(d),
            None => None,
        };
        match next {
            Some(v) => {
                acc = v;
            },
            None => {
                assert(acc * 10 + d > max);
                return Err(IntErrorKind::PosOverflow);
            },
        }
        i = i + 1;
    }
    assert(s@.subrange(n as int, n as int) =~= Seq::<char>::empty());
    Ok(acc)
}

/// Decimal renderings read back to the number they render.
pub proof fn lemma_decimal_all_digits(n: nat)
    ensures
        decimal(n).len() >= 1,
        forall|i: int| 0 <= i < decimal(n).len() ==> digit_value(#[trigger] decimal(n)[i]) is Some,
        decimal(n)[0] != '+' && decimal(n)[0] != '-',
    decreases n,
{
    if n >= 10 {
        lemma_decimal_all_digits(n / 10);
        let d = decimal(n / 10);
        assert forall|i: int| 0 <= i < decimal(n).len() implies digit_value(
            #[trigger] decimal(n)[i],
        ) is Some by {
            if i < d.len() {
                assert(decimal(n)[i] == d[i]);
            }
        }
    }
}

proof fn lemma_scan_append(acc: int, ds: Seq<char>, c: char, max: int)
    requires
        scan_digits(acc, ds, max) is Ok,
        digit_value(c) is Some,
    ensures
        scan_digits(acc, ds.push(c), max) == (if scan_digits(acc, ds, max)->Ok_0 * 10 + digit_value(
            c,
        )->Some_0 > max {
            Err::<int, IntErrorKind>(IntErrorKind::PosOverflow)
        } else {
            Ok::<int, IntErrorKind>(scan_digits(acc, ds, max)->Ok_0 * 10 + digit_value(c)->Some_0)
        }),
    decreases ds.len(),
{
    if ds.len() == 0 {
        assert(ds.push(c)[0] == c);
        assert(ds.push(c).drop_first() =~= Seq::<char>::empty());
        assert(scan_digits(acc, ds, max) == Ok::<int, IntErrorKind>(acc));
        let dc = digit_value(c)->Some_0;
        assert(scan_digits(acc * 10 + dc, Seq::<char>::empty(), max) == Ok::<int, IntErrorKind>(
            acc * 10 + dc,
        ));
    } else {
        let d = digit_value(ds[0])->Some_0;
        assert(ds.push(c)[0] == ds[0]);
        assert(ds.push(c).drop_first() =~= ds.drop_first().push(c));
        assert(acc * 10 + d <= max);
        assert(scan_digits(acc, ds, max) == scan_digits(acc * 10 + d, ds.drop_first(), max));
        lemma_scan_append(acc * 10 + d, ds.drop_first(), c, max);
        assert(scan_digits(acc, ds.push(c), max) == scan_digits(
            acc * 10 + d,
            ds.drop_first().push(c),
            max,
        ));
    }
}

proof fn lemma_digit_roundtrip(k: int)
    requires
        0 <= k < 10,
    ensures
        digit_value(digit_char(k)) == Some(k),
{
}

proof fn lemma_scan_decimal(n: nat)
    requires
        n <= u32::MAX,
    ensures
        scan_digits(0, decimal(n), u32::MAX as int) == Ok::<int, IntErrorKind>(n as int),
    decreases n,
{
    if n < 10 {
        lemma_digit_roundtrip(n as int);
        assert(decimal(n)[0] == digit_char(n as int));
        assert(decimal(n).drop_first() =~= Seq::<char>::empty());
        assert(scan_digits(0, decimal(n), u32::MAX as int) == scan_digits(
            n as int,
            decimal(n).drop_first(),
            u32::MAX as int,
        ));
    } else {
        lemma_scan_decimal(n / 10);
        lemma_digit_roundtrip((n % 10) as int);
        lemma_scan_append(0, decimal(n / 10), digit_char((n % 10) as int), u32::MAX as int);
    }
}

/// Reading the decimal rendering of a `u32` gives the number back.
pub proof fn lemma_parse_decimal(n: u32)
    ensures
        parse_u32_spec(decimal(n as nat)) == Ok::<int, IntErrorKind>(n as int),
{
    lemma_decimal_all_digits(n as nat);
    lemma_scan_decimal(n as nat);
}

/// The text of `s` after the last occurrence of `sep` (all of `s` when `sep`
/// does not occur), which is what `s.split(sep).last()` yields.
pub open spec fn after_last(s: Seq<char>, sep: char) -> Seq<char>
    decreases s.len(),
{
    if s.len() == 0 {
        s
    } else if s.last() == sep {
        Seq::empty()
    } else {
        after_last(s.drop_last(), sep).push(s.last())
    }
}

/// The text after the last `sep` in `s`.
pub fn split_last(s: &str, sep: char) -> (r: String)
    ensures
        r@ == after_last(s@, sep),
{
    let n = s.unicode_len();
    let mut i: usize = n;
    assert(s@.subrange(0, n as int) =~= s@);
    assert(s@.subrange(n as int, n as int) =~= Seq::<char>::empty());
    while i > 0
        invariant
            n == s@.len(),
            i <= n,
            forall|k: int| i <= k < n ==> s@[k] != sep,
            after_last(s@, sep) == after_last(s@.subrange(0, i as int), sep) + s@.subrange(
                i as int,
                n as int,
            ),
        decreases i,
    {
        let c = s.get_char(i - 1);
        let ghost pre = s@.subrange(0, i as int);
        assert(pre.drop_last() =~= s@.subrange(0, i - 1));
        assert(pre.last() == c);
        if c == sep {
            assert(after_last(pre, sep) == Seq::<char>::empty());
            assert(after_last(s@, sep) =~= s@.subrange(i as int, n as int));
            return String::from_str(s.substring_char(i, n));
        }
        assert(s@.subrange(i - 1, n as int) =~= seq![c] + s@.subrange(i as int, n as int));
        assert(after_last(pre, sep) == after_last(pre.drop_last(), sep).push(c));
        assert(after_last(pre.drop_last(), sep).push(c) + s@.subrange(i as int, n as int)
            =~= after_last(pre.drop_last(), sep) + s@.subrange(i - 1, n as int));
        i = i - 1;
    }
    assert(s@.subrange(0, 0) =~= Seq::<char>::empty());
    assert(s@.subrange(0, n as int) =~= s@);
    String::from_str(s)
}

/// What `s.trim_end_matches(pat)` leaves: every trailing repetition of
/// `pat` removed; an empty `pat` leaves `s` as it is.
pub open spec fn trim_end_all(s: Seq<char>, pat: Seq<char>) -> Seq<char>
    decreases s.len(),
{
    if pat.len() > 0 && is_suffix(s, pat) {
        trim_end_all(s.subrange(0, s.len() - pat.len()), pat)
    } else {
        s
    }
}

/// Removes every trailing repetition of `pat` from `s`.
pub fn trim_end_matches(s: &str, pat: &str) -> (r: String)
    ensures
        r@ == trim_end_all(s@, pat@),
{
    let m = pat.unicode_len();
    if m == 0 {
        return String::from_str(s);
    }
    let mut cur = String::from_str(s);
    let mut end: usize = s.unicode_len();
    assert(s@.subrange(0, end as int) =~= s@);
    while end >= m && occurs_at_exec(s, pat, end - m)
        invariant
            m == pat@.len(),
            m > 0,
            end <= s@.len(),
            trim_end_all(s@, pat@) == trim_end_all(s@.subrange(0, end as int), pat@),
        decreases end,
    {
        let ghost pre = s@.subrange(0, end as int);
        assert(pre.subrange(pre.len() - m, pre.len() as int) =~= s@.subrange(end - m, end as int));
        assert(pre.subrange(0, pre.len() - m) =~= s@.subrange(0, end - m));
        end = end - m;
    }
    let ghost pre = s@.subrange(0, end as int);
    if end >= m {
        assert(pre.subrange(pre.len() - m, pre.len() as int) =~= s@.subrange(end - m, end as int));
    }
    assert(!is_suffix(pre, pat@));
    cur = String::from_str(s.substring_char(0, end));
    cur
}

/// The strings of `parts` joined, with `sep` between each two.
pub open spec fn join_spec(parts: Seq<Seq<char>>, sep: Seq<char>) -> Seq<char>
    decreases parts.len(),
{
    if parts.len() == 0 {
        Seq::empty()
    } else if parts.len() == 1 {
        parts[0]
    } else {
        join_spec(parts.drop_last(), sep) + sep + parts.last()
    }
}

/// Joins strings with a separator, as `Vec::join` does.
pub fn join(parts: &Vec<String>, sep: &str) -> (r: String)
    ensures
        r@ == join_spec(parts@.map_values(|p: String| p@), sep@),
{
    let ghost views = parts@.map_values(|p: String| p@);
    let mut r = String::new();
    let mut i: usize = 0;
    while i < parts.len()
        invariant
            views == parts@.map_values(|p: String| p@),
            i <= parts.len(),
            r@ == join_spec(views.take(i as int), sep@),
        decreases parts.len() - i,
    {
        assert(views.take(i + 1).drop_last() =~= views.take(i as int));
        if i > 0 {
            r.append(sep);
        } else {
            assert(r@ =~= Seq::<char>::empty());
        }
        r.append(parts[i].as_str());
        i = i + 1;
    }
    assert(views.take(parts.len() as int) =~= views);
    r
}

} // verus!
