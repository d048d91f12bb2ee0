//! Character-level text helpers: decimal rendering, whitespace trimming,
//! prefix tests and the integer and boolean parsers used by configuration.
use vstd::prelude::*;
use vstd::string::*;

verus! {

broadcast use vstd::string::group_string_axioms;

/// The digit character of a number below ten.
pub open spec fn digit_char(d: nat) -> char {
    ((d + 48) as u8) as char
}

/// Whether a character is an ASCII decimal digit.
pub open spec fn is_digit(c: char) -> bool {
    '0' <= c && c <= '9'
}

/// The value of a decimal digit character.
pub open spec fn digit_value(c: char) -> nat {
    ((c as u32) - 48) as nat
}

/// Decimal notation of a natural number, without leading zeros.
pub open spec fn decimal(n: nat) -> Seq<char>
    decreases n,
{
    if n < 10 {
        seq![digit_char(n)]
    } else {
        decimal(n / 10).push(digit_char(n % 10))
    }
}

/// Decimal notation of an integer: a minus sign before negative values.
pub open spec fn signed_decimal(n: int) -> Seq<char> {
    if n < 0 {
        seq!['-'] + decimal((-n) as nat)
    } else {
        decimal(n as nat)
    }
}

/// Rendering of a boolean, as `bool`'s `Display` writes it.
pub open spec fn bool_text(b: bool) -> Seq<char> {
    if b {
        "true"@
    } else {
        "false"@
    }
}

/// The Unicode `White_Space` characters.
pub open spec fn is_whitespace(c: char) -> bool {
    let u = c as u32;
    ||| 9 <= u <= 13
    ||| u == 32
    ||| u == 0x85
    ||| u == 0xa0
    ||| u == 0x1680
    ||| 0x2000 <= u <= 0x200a
    ||| u == 0x2028
    ||| u == 0x2029
    ||| u == 0x202f
    ||| u == 0x205f
    ||| u == 0x3000
}

/// A text with its leading whitespace removed.
pub open spec fn trim_start(s: Seq<char>) -> Seq<char>
    decreases s.len(),
{
    if s.len() > 0 && is_whitespace(s[0]) {
        trim_start(s.drop_first())
    } else {
        s
    }
}

/// A text with its trailing whitespace removed.
pub open spec fn trim_end(s: Seq<char>) -> Seq<char>
    decreases s.len(),
{
    if s.len() > 0 && is_whitespace(s.last()) {
        trim_end(s.drop_last())
    } else {
        s
    }
}

/// A text with whitespace removed at both ends.
pub open spec fn trim(s: Seq<char>) -> Seq<char> {
    trim_end(trim_start(s))
}

/// Whether `s` begins with `p`.
pub open spec fn has_prefix(s: Seq<char>, p: Seq<char>) -> bool {
    p.len() <= s.len() && s.subrange(0, p.len() as int) == p
}

/// The rendering of a digit below ten as a one-character literal.
fn digit_str(d: u64) -> (s: &'static str)
    requires
        d < 10,
    ensures
        s@ == seq![digit_char(d as nat)],
{
    proof {
        reveal_strlit("0");
        reveal_strlit("1");
        reveal_strlit("2");
        reveal_strlit("3");
        reveal_strlit("4");
        reveal_strlit("5");
        reveal_strlit("6");
        reveal_strlit("7");
        reveal_strlit("8");
        reveal_strlit("9");
    }
    let s = if d == 0 {
        "0"
    } else if d == 1 {
        "1"
    } else if d == 2 {
        "2"
    } else if d == 3 {
        "3"
    } else if d == 4 {
        "4"
    } else if d == 5 {
        "5"
    } else if d == 6 {
        "6"
    } else if d == 7 {
        "7"
    } else if d == 8 {
        "8"
    } else {
        "9"
    };
    assert(s@ =~= seq![digit_char(d as nat)]);
    s
}

/// Appends the decimal notation of `n` to `out`.
pub fn push_decimal(out: &mut String, n: u64)
    ensures
        final(out)@ == old(out)@ + decimal(n as nat),
    decreases n,
{
    if n >= 10 {
        push_decimal(out, n / 10);
    }
    let d = digit_str(n % 10);
    out.append(d);
    assert(decimal(n as nat) =~= if n < 10 {
        seq![digit_char(n as nat)]
    } else {
        decimal((n / 10) as nat).push(digit_char((n % 10) as nat))
    });
}

/// Decimal rendering of an unsigned number, as `to_string` writes it.
pub fn u64_text(n: u64) -> (s: String)
    ensures
        s@ == decimal(n as nat),
{
    let mut s = String::new();
    push_decimal(&mut s, n);
    assert(s@ =~= decimal(n as nat));
    s
}

/// Decimal rendering of a signed number, as `to_string` writes it.
pub fn i64_text(n: i64) -> (s: String)
    ensures
        s@ == signed_decimal(n as int),
{
    let mut s = String::new();
    if n < 0 {
        proof {
            reveal_strlit("-");
        }
        s.append("-");
        let m: u64 = (-(n as i128)) as u64;
        push_decimal(&mut s, m);
    } else {
        push_decimal(&mut s, n as u64);
    }
    assert(s@ =~= signed_decimal(n as int));
    s
}

/// Rendering of a boolean, as `to_string` writes it.
pub fn bool_to_text(b: bool) -> (s: String)
    ensures
        s@ == bool_text(b),
{
    if b {
        String::from_str("true")
    } else {
        String::from_str("false")
    }
}

/// The characters of a string slice, in order.
pub fn chars_of(s: &str) -> (v: Vec<char>)
    ensures
        v@ == s@,
{
    let n = s.unicode_len();
    let mut v: Vec<char> = Vec::new();
    let mut i: usize = 0;
    while i < n
        invariant
            i <= n,
            n == s@.len(),
            v@ == s@.subrange(0, i as int),
        decreases n - i,
    {
        v.push(s.get_char(i));
        i = i + 1;
        assert(v@ =~= s@.subrange(0, i as int));
    }
    assert(v@ =~= s@);
    v
}

/// Whether a character is Unicode whitespace.
pub fn char_is_whitespace(c: char) -> (b: bool)
    ensures
        b == is_whitespace(c),
{
    let u = c as u32;
    (9 <= u && u <= 13) || u == 32 || u == 0x85 || u == 0xa0 || u == 0x1680 || (0x2000 <= u
        && u <= 0x200a) || u == 0x2028 || u == 0x2029 || u == 0x202f || u == 0x205f || u
        == 0x3000
}

/// Whether the characters of `v` in `[from, to)` begin with `p`.
pub fn range_has_prefix(v: &Vec<char>, from: usize, to: usize, p: &Vec<char>) -> (b: bool)
    requires
        from <= to <= v.len(),
    ensures
        b == has_prefix(v@.subrange(from as int, to as int), p@),
{
    let plen = p.len();
    if plen > to - from {
        return false;
    }
    let mut k: usize = 0;
    while k < plen
        invariant
            k <= plen,
            plen == p.len(),
            plen <= to - from,
            from <= to <= v.len(),
            forall|i: int| 0 <= i < k ==> v@[from + i] == p@[i],
        decreases plen - k,
    {
        if v[from + k] != p[k] {
            assert(v@.subrange(from as int, to as int).subrange(0, plen as int)[k as int]
                != p@[k as int]);
            return false;
        }
        k = k + 1;
    }
    assert(v@.subrange(from as int, to as int).subrange(0, plen as int) =~= p@);
    true
}

/// Equality of two texts, character by character.
pub fn text_eq(a: &str, b: &str) -> (r: bool)
    ensures
        r == (a@ == b@),
{
    let x = chars_of(a);
    let y = chars_of(b);
    if x.len() != y.len() {
        return false;
    }
    let n = x.len();
    let mut k: usize = 0;
    while k < n
        invariant
            k <= n,
            n == x.len(),
            n == y.len(),
            x@ == a@,
            y@ == b@,
            forall|i: int| 0 <= i < k ==> x@[i] == y@[i],
        decreases n - k,
    {
        if x[k] != y[k] {
            assert(x@[k as int] != y@[k as int]);
            return false;
        }
        k = k + 1;
    }
    assert(x@ =~= y@);
    true
}

/// The bounds `[lo, hi)` of `v[from..to]` with whitespace removed at both ends.
pub fn trim_bounds(v: &Vec<char>, from: usize, to: usize) -> (r: (usize, usize))
    requires
        from <= to <= v.len(),
    ensures
        from <= r.0 <= r.1 <= to,
        v@.subrange(r.0 as int, r.1 as int) == trim(v@.subrange(from as int, to as int)),
{
    let ghost s = v@.subrange(from as int, to as int);
    let mut lo = from;
    while lo < to && char_is_whitespace(v[lo])
        invariant
            from <= lo <= to <= v.len(),
            s == v@.subrange(from as int, to as int),
            trim_start(s) == trim_start(v@.subrange(lo as int, to as int)),
        decreases to - lo,
    {
        proof {
            let t = v@.subrange(lo as int, to as int);
            assert(t.drop_first() =~= v@.subrange(lo + 1, to as int));
        }
        lo = lo + 1;
    }
    assert(trim_start(v@.subrange(lo as int, to as int)) == v@.subrange(lo as int, to as int));
    let mut hi = to;
    while hi > lo && char_is_whitespace(v[hi - 1])
        invariant
            from <= lo <= hi <= to <= v.len(),
            trim_start(s) == v@.subrange(lo as int, to as int),
            trim_end(v@.subrange(lo as int, to as int)) == trim_end(v@.subrange(lo as int, hi as int)),
        decreases hi - lo,
    {
        proof {
            let t = v@.subrange(lo as int, hi as int);
            assert(t.drop_last() =~= v@.subrange(lo as int, hi - 1));
        }
        hi = hi - 1;
    }
    (lo, hi)
}

/// The outcome of reading an unsigned integer from text, as `str::parse` reports it.
#[derive(PartialEq, Eq, Structural, Clone, Copy, Debug)]
pub enum IntParseError {
    Empty,
    InvalidDigit,
    PosOverflow,
}

/// Reading the digits `d` onto the accumulated value `acc`, left to right:
/// the first non-digit, or the first step past `u16::MAX`, stops the scan.
pub open spec fn scan_u16(d: Seq<char>, acc: nat) -> Result<u16, IntParseError>
    decreases d.len(),
{
    if d.len() == 0 {
        Ok(acc as u16)
    } else if !is_digit(d[0]) {
        Err(IntParseError::InvalidDigit)
    } else if acc * 10 > 0xffff {
        Err(IntParseError::PosOverflow)
    } else if acc * 10 + digit_value(d[0]) > 0xffff {
        Err(IntParseError::PosOverflow)
    } else {
        scan_u16(d.drop_first(), acc * 10 + digit_value(d[0]))
    }
}

/// `u16`'s `from_str`: an optional `+` sign, then decimal digits.
pub open spec fn parse_u16_spec(s: Seq<char>) -> Result<u16, IntParseError> {
    if s.len() == 0 {
        Err(IntParseError::Empty)
    } else if s.len() == 1 && (s[0] == '+' || s[0] == '-') {
        Err(IntParseError::InvalidDigit)
    } else if s[0] == '+' {
        scan_u16(s.drop_first(), 0)
    } else {
        scan_u16(s, 0)
    }
}

/// Reads a `u16` from text, as `str::parse::<u16>` does.
pub fn parse_u16(text: &str) -> (r: Result<u16, IntParseError>)
    ensures
        r == parse_u16_spec(text@),
{
    let v = chars_of(text);
    let n = v.len();
    if n == 0 {
        return Err(IntParseError::Empty);
    }
    if n == 1 && (v[0] == '+' || v[0] == '-') {
        return Err(IntParseError::InvalidDigit);
    }
    let mut i: usize = if v[0] == '+' {
        1
    } else {
        0
    };
    let ghost start = i;
    let ghost body = v@.subrange(start as int, n as int);
    assert(parse_u16_spec(text@) == scan_u16(body, 0)) by {
        if v@[0] == '+' {
            assert(v@.drop_first() =~= body);
        } else {
            assert(v@ =~= body);
        }
    }
    let mut acc: u32 = 0;
    while i < n
        invariant
            start <= i <= n,
            n == v.len(),
            acc <= 0xffff,
            body == v@.subrange(start as int, n as int),
            parse_u16_spec(text@) == scan_u16(body, 0),
            scan_u16(body, 0) == scan_u16(v@.subrange(i as int, n as int), acc as nat),
        decreases n - i,
    {
        let c = v[i];
        let ghost rest = v@.subrange(i as int, n as int);
        assert(rest[0] == c);
        assert(rest.drop_first() =~= v@.subrange(i + 1, n as int));
        assert(rest.len() > 0);
        if !('0' <= c && c <= '9') {
            assert(scan_u16(rest, acc as nat) == Err::<u16, IntParseError>(IntParseError::InvalidDigit));
            return Err(IntParseError::InvalidDigit);
        }
        let d = (c as u32) - 48;
        assert(d == digit_value(rest[0]));
        if acc * 10 > 0xffff {
            assert(scan_u16(rest, acc as nat) == Err::<u16, IntParseError>(IntParseError::PosOverflow));
            return Err(IntParseError::PosOverflow);
        }
        if acc * 10 + d > 0xffff {
            assert(scan_u16(rest, acc as nat) == Err::<u16, IntParseError>(IntParseError::PosOverflow));
            return Err(IntParseError::PosOverflow);
        }
        acc = acc * 10 + d;
        i = i + 1;
    }
    assert(v@.subrange(n as int, n as int).len() == 0);
    Ok(acc as u16)
}

/// `bool`'s `from_str`: exactly `true` or `false`.
pub open spec fn parse_bool_spec(s: Seq<char>) -> Option<bool> {
    if s == "true"@ {
        Some(true)
    } else if s == "false"@ {
        Some(false)
    } else {
        None
    }
}

/// Reads a boolean from text, as `str::parse::<bool>` does; `None` stands for its error.
pub fn parse_bool(text: &str) -> (r: Option<bool>)
    ensures
        r == parse_bool_spec(text@),
{
    if text_eq(text, "true") {
        Some(true)
    } else if text_eq(text, "false") {
        Some(false)
    } else {
        None
    }
}


/// A digit character is a digit, and reads back as its value.
pub proof fn lemma_digit_char(d: nat)
    requires
        d < 10,
    ensures
        is_digit(digit_char(d)),
        digit_value(digit_char(d)) == d,
{
    let b: u8 = (d + 48) as u8;
    assert(b as int == d + 48);
    assert((b as char) as u32 == b as u32);
}

/// Every character of a decimal notation is a digit, and there is at least one.
pub proof fn lemma_decimal_digits(n: nat)
    ensures
        decimal(n).len() >= 1,
        forall|i: int| 0 <= i < decimal(n).len() ==> is_digit(#[trigger] decimal(n)[i]),
    decreases n,
{
    if n < 10 {
        lemma_digit_char(n);
    } else {
        lemma_decimal_digits(n / 10);
        lemma_digit_char(n % 10);
    }
}

/// Scanning one more digit multiplies what was read by ten and adds it.
proof fn lemma_scan_push(s: Seq<char>, c: char, acc: nat, v: u16)
    requires
        acc <= 0xffff,
        scan_u16(s, acc) == Ok::<u16, IntParseError>(v),
        is_digit(c),
        v * 10 + digit_value(c) <= 0xffff,
    ensures
        scan_u16(s.push(c), acc) == Ok::<u16, IntParseError>((v * 10 + digit_value(c)) as u16),
    decreases s.len(),
{
    let t = s.push(c);
    if s.len() == 0 {
        assert(v == acc);
        let next = acc * 10 + digit_value(c);
        assert(t.drop_first() =~= Seq::<char>::empty());
        assert(t[0] == c);
        assert(scan_u16(t.drop_first(), next) == Ok::<u16, IntParseError>(next as u16));
        assert(scan_u16(t, acc) == scan_u16(t.drop_first(), next));
    } else {
        let next = acc * 10 + digit_value(s[0]);
        assert(is_digit(s[0]));
        assert(acc * 10 <= 0xffff);
        assert(next <= 0xffff);
        assert(scan_u16(s, acc) == scan_u16(s.drop_first(), next));
        assert(t[0] == s[0]);
        assert(t.drop_first() =~= s.drop_first().push(c));
        lemma_scan_push(s.drop_first(), c, next, v);
        assert(scan_u16(t, acc) == scan_u16(t.drop_first(), next));
    }
}

/// Scanning the decimal notation of a number that fits gives the number.
proof fn lemma_scan_decimal(n: nat)
    requires
        n <= 0xffff,
    ensures
        scan_u16(decimal(n), 0) == Ok::<u16, IntParseError>(n as u16),
    decreases n,
{
    if n < 10 {
        lemma_digit_char(n);
        let t = decimal(n);
        assert(t[0] == digit_char(n));
        assert(t.drop_first() =~= Seq::<char>::empty());
        assert(scan_u16(t.drop_first(), n) == Ok::<u16, IntParseError>(n as u16));
        assert(scan_u16(t, 0) == scan_u16(t.drop_first(), 0 * 10 + digit_value(t[0])));
    } else {
        lemma_scan_decimal(n / 10);
        lemma_digit_char(n % 10);
        lemma_scan_push(decimal(n / 10), digit_char(n % 10), 0, (n / 10) as u16);
        assert((n / 10) * 10 + n % 10 == n);
    }
}

/// Reading back the decimal notation of a `u16` gives the same number.
pub proof fn law_parse_u16_reads_decimal(n: u16)
    ensures
        parse_u16_spec(decimal(n as nat)) == Ok::<u16, IntParseError>(n),
{
    lemma_decimal_digits(n as nat);
    assert(is_digit(decimal(n as nat)[0]));
    lemma_scan_decimal(n as nat);
}

/// Decimal notations of different numbers differ.
pub proof fn lemma_decimal_injective(m: nat, n: nat)
    requires
        decimal(m) == decimal(n),
    ensures
        m == n,
    decreases m + n,
{
    if m < 10 && n < 10 {
        lemma_digit_char(m);
        lemma_digit_char(n);
        assert(decimal(m)[0] == digit_char(m));
        assert(decimal(n)[0] == digit_char(n));
    } else if m < 10 {
        lemma_decimal_digits(n / 10);
        assert(decimal(n).len() == decimal(n / 10).len() + 1);
        assert(decimal(m).len() == 1);
    } else if n < 10 {
        lemma_decimal_digits(m / 10);
        assert(decimal(m).len() == decimal(m / 10).len() + 1);
        assert(decimal(n).len() == 1);
    } else {
        assert(decimal(m / 10) =~= decimal(m).drop_last());
        assert(decimal(n / 10) =~= decimal(n).drop_last());
        lemma_decimal_injective(m / 10, n / 10);
        lemma_digit_char(m % 10);
        lemma_digit_char(n % 10);
        assert(decimal(m).last() == digit_char(m % 10));
        assert(decimal(n).last() == digit_char(n % 10));
        assert(m == (m / 10) * 10 + m % 10);
        assert(n == (n / 10) * 10 + n % 10);
    }
}

/// Signed decimal notations of different integers differ.
pub proof fn lemma_signed_decimal_injective(a: int, b: int)
    requires
        signed_decimal(a) == signed_decimal(b),
    ensures
        a == b,
{
    if a < 0 && b < 0 {
        assert(signed_decimal(a).drop_first() =~= decimal((-a) as nat));
        assert(signed_decimal(b).drop_first() =~= decimal((-b) as nat));
        lemma_decimal_injective((-a) as nat, (-b) as nat);
    } else if a < 0 {
        lemma_decimal_digits(b as nat);
        assert(signed_decimal(a)[0] == '-');
        assert(is_digit(signed_decimal(b)[0]));
    } else if b < 0 {
        lemma_decimal_digits(a as nat);
        assert(signed_decimal(b)[0] == '-');
        assert(is_digit(signed_decimal(a)[0]));
    } else {
        lemma_decimal_injective(a as nat, b as nat);
    }
}

} // verus!
