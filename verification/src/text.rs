use vstd::prelude::*;

verus! {

/// The lower-case hexadecimal digit for a value below sixteen.
pub open spec fn hex_digit(n: int) -> char {
    if n < 10 {
        (48 + n) as char
    } else {
        (87 + n) as char
    }
}

/// Two lower-case hexadecimal digits per byte, most significant first.
pub open spec fn hex_lower(bytes: Seq<u8>) -> Seq<char>
    decreases bytes.len(),
{
    if bytes.len() == 0 {
        Seq::empty()
    } else {
        hex_lower(bytes.drop_last()).push(hex_digit(bytes.last() as int / 16)).push(
            hex_digit(bytes.last() as int % 16),
        )
    }
}

/// Appends one character to a string.
#[verifier::external_body]
pub(crate) fn push_char(s: &mut String, c: char)
    ensures
        final(s)@ == old(s)@.push(c),
{
    s.push(c);
}

fn hex_digit_char(n: u8) -> (c: char)
    requires
        n < 16,
    ensures
        c == hex_digit(n as int),
{
    if n < 10 {
        (48u8 + n) as char
    } else {
        (87u8 + n) as char
    }
}

/// Appends the lower-case hexadecimal form of `bytes` to `out`.
pub fn push_hex(out: &mut String, bytes: &[u8])
    ensures
        final(out)@ == old(out)@ + hex_lower(bytes@),
{
    let mut i: usize = 0;
    while i < bytes.len()
        invariant
            i <= bytes@.len(),
            out@ == old(out)@ + hex_lower(bytes@.subrange(0, i as int)),
        decreases bytes@.len() - i,
    {
        let b: u8 = bytes[i];
        proof {
            assert(bytes@.subrange(0, i + 1).drop_last() == bytes@.subrange(0, i as int));
        }
        push_char(out, hex_digit_char(b / 16));
        push_char(out, hex_digit_char(b % 16));
        i = i + 1;
    }
    proof {
        assert(bytes@.subrange(0, bytes@.len() as int) == bytes@);
    }
}

} // verus!

verus! {

// ----------------------------------------------------------------------
// Decimal integers
// ----------------------------------------------------------------------

/// A bound above every magnitude that a 64-bit integer can hold.
pub const DECIMAL_CAP: u128 = 0x1_0000_0000_0000_0000;

/// An ASCII decimal digit.
pub open spec fn is_digit(c: char) -> bool {
    '0' <= c && c <= '9'
}

/// Every character of `s` is an ASCII decimal digit.
pub open spec fn all_digits(s: Seq<char>) -> bool {
    forall|i: int| 0 <= i < s.len() ==> is_digit(#[trigger] s[i])
}

/// The value of a run of decimal digits, most significant first.
pub open spec fn digits_value(s: Seq<char>) -> int
    decreases s.len(),
{
    if s.len() == 0 {
        0
    } else {
        digits_value(s.drop_last()) * 10 + (s.last() as int - 48)
    }
}

/// A value, or the cap where it reaches the cap.
pub open spec fn capped(v: int) -> int {
    if v < DECIMAL_CAP {
        v
    } else {
        DECIMAL_CAP as int
    }
}

/// The value of a text that Rust's `parse` accepts for a signed integer type,
/// before the check against the type's range: an optional `+` or `-`, then
/// one or more ASCII digits, and nothing else.
pub open spec fn signed_decimal(s: Seq<char>) -> Option<int> {
    if s.len() > 0 && (s[0] == '+' || s[0] == '-') {
        let rest = s.drop_first();
        if rest.len() > 0 && all_digits(rest) {
            Some(
                if s[0] == '-' {
                    -digits_value(rest)
                } else {
                    digits_value(rest)
                },
            )
        } else {
            None
        }
    } else if s.len() > 0 && all_digits(s) {
        Some(digits_value(s))
    } else {
        None
    }
}

/// The value of a text that Rust's `parse` accepts for an unsigned integer
/// type, before the range check: an optional `+`, then one or more ASCII
/// digits, and nothing else.
pub open spec fn unsigned_decimal(s: Seq<char>) -> Option<int> {
    if s.len() > 0 && s[0] == '+' {
        let rest = s.drop_first();
        if rest.len() > 0 && all_digits(rest) {
            Some(digits_value(rest))
        } else {
            None
        }
    } else if s.len() > 0 && all_digits(s) {
        Some(digits_value(s))
    } else {
        None
    }
}

/// A parsed value kept only when it lies in `lo..=hi`.
pub open spec fn within(p: Option<int>, lo: int, hi: int) -> Option<int> {
    match p {
        Some(v) => if lo <= v && v <= hi {
            Some(v)
        } else {
            None
        },
        None => None,
    }
}

/// What `s.parse::<i64>()` gives.
pub open spec fn i64_text(s: Seq<char>) -> Option<int> {
    within(signed_decimal(s), i64::MIN as int, i64::MAX as int)
}

/// What `s.parse::<i32>()` gives.
pub open spec fn i32_text(s: Seq<char>) -> Option<int> {
    within(signed_decimal(s), i32::MIN as int, i32::MAX as int)
}

/// What `s.parse::<u64>()` gives.
pub open spec fn u64_text(s: Seq<char>) -> Option<int> {
    within(unsigned_decimal(s), 0, u64::MAX as int)
}

proof fn lemma_capped_step(v: int, d: int)
    requires
        0 <= d <= 9,
    ensures
        capped(capped(v) * 10 + d) == capped(v * 10 + d),
{
}

proof fn lemma_digits_nonneg(s: Seq<char>)
    requires
        all_digits(s),
    ensures
        digits_value(s) >= 0,
    decreases s.len(),
{
    if s.len() > 0 {
        assert(is_digit(s[s.len() - 1]));
        assert(all_digits(s.drop_last())) by {
            assert forall|i: int| 0 <= i < s.drop_last().len() implies is_digit(
                #[trigger] s.drop_last()[i],
            ) by {
                assert(s.drop_last()[i] == s[i]);
            }
        }
        lemma_digits_nonneg(s.drop_last());
    }
}

/// Reads the digits of `s` from char position `start` to the end.
fn scan_digits(s: &str, start: usize) -> (res: Option<u128>)
    requires
        start <= s@.len(),
    ensures
        ({
            let d = s@.skip(start as int);
            res == if d.len() > 0 && all_digits(d) {
                Some(capped(digits_value(d)) as u128)
            } else {
                None::<u128>
            }
        }),
{
    let n = s.unicode_len();
    if start >= n {
        return None;
    }
    let mut acc: u128 = 0;
    let mut i: usize = start;
    while i < n
        invariant
            start <= i <= n,
            n == s@.len(),
            all_digits(s@.subrange(start as int, i as int)),
            acc as int == capped(digits_value(s@.subrange(start as int, i as int))),
            acc <= DECIMAL_CAP,
        decreases n - i,
    {
        let c = s.get_char(i);
        if !(c >= '0' && c <= '9') {
            proof {
                assert(s@.skip(start as int)[i - start] == c);
            }
            return None;
        }
        let d: u32 = (c as u32) - 48;
        let next: u128 = acc * 10 + (d as u128);
        let ghost prev = s@.subrange(start as int, i as int);
        let ghost cur = s@.subrange(start as int, i + 1);
        proof {
            assert(cur.drop_last() == prev);
            assert(cur.last() == c);
            lemma_capped_step(digits_value(prev), d as int);
            assert forall|k: int| 0 <= k < cur.len() implies is_digit(#[trigger] cur[k]) by {
                if k < prev.len() {
                    assert(cur[k] == prev[k]);
                }
            }
        }
        acc = if next > DECIMAL_CAP {
            DECIMAL_CAP
        } else {
            next
        };
        i = i + 1;
    }
    proof {
        assert(s@.subrange(start as int, n as int) == s@.skip(start as int));
    }
    Some(acc)
}

/// Reads a sign, if any, and the magnitude after it.
fn scan_signed(s: &str, allow_minus: bool) -> (res: Option<(bool, u128)>)
    ensures
        ({
            let p = if allow_minus {
                signed_decimal(s@)
            } else {
                unsigned_decimal(s@)
            };
            &&& (res is Some <==> p is Some)
            &&& res matches Some(r) ==> {
                let v = p->0;
                &&& r.1 as int == capped(if r.0 { -v } else { v })
                &&& (r.0 ==> v <= 0)
                &&& (!r.0 ==> v >= 0)
                &&& (!allow_minus ==> !r.0)
            }
        }),
{
    let n = s.unicode_len();
    if n == 0 {
        return None;
    }
    let c0 = s.get_char(0);
    if c0 == '+' || (allow_minus && c0 == '-') {
        proof {
            assert(s@.skip(1) == s@.drop_first());
        }
        match scan_digits(s, 1) {
            Some(m) => {
                proof {
                    lemma_digits_nonneg(s@.drop_first());
                }
                Some((c0 == '-', m))
            },
            None => None,
        }
    } else {
        proof {
            assert(s@.skip(0) == s@);
        }
        if !allow_minus && c0 == '-' {
            proof {
                assert(!is_digit(s@[0]));
            }
            return None;
        }
        match scan_digits(s, 0) {
            Some(m) => {
                proof {
                    lemma_digits_nonneg(s@);
                }
                Some((false, m))
            },
            None => None,
        }
    }
}

/// Parses a decimal `i64` exactly as `str::parse::<i64>` does.
pub fn parse_i64(s: &str) -> (res: Option<i64>)
    ensures
        res is Some <==> i64_text(s@) is Some,
        res matches Some(v) ==> v as int == i64_text(s@)->0,
{
    match scan_signed(s, true) {
        None => None,
        Some((neg, m)) => {
            if neg {
                if m <= 0x8000_0000_0000_0000u128 {
                    Some((0i128 - (m as i128)) as i64)
                } else {
                    None
                }
            } else {
                if m <= 0x7fff_ffff_ffff_ffffu128 {
                    Some(m as i64)
                } else {
                    None
                }
            }
        },
    }
}

/// Parses a decimal `i32` exactly as `str::parse::<i32>` does.
pub fn parse_i32(s: &str) -> (res: Option<i32>)
    ensures
        res is Some <==> i32_text(s@) is Some,
        res matches Some(v) ==> v as int == i32_text(s@)->0,
{
    match scan_signed(s, true) {
        None => None,
        Some((neg, m)) => {
            if neg {
                if m <= 0x8000_0000u128 {
                    Some((0i128 - (m as i128)) as i32)
                } else {
                    None
                }
            } else {
                if m <= 0x7fff_ffffu128 {
                    Some(m as i32)
                } else {
                    None
                }
            }
        },
    }
}

/// Parses a decimal `u64` exactly as `str::parse::<u64>` does.
pub fn parse_u64(s: &str) -> (res: Option<u64>)
    ensures
        res is Some <==> u64_text(s@) is Some,
        res matches Some(v) ==> v as int == u64_text(s@)->0,
{
    match scan_signed(s, false) {
        None => None,
        Some((_, m)) => {
            if m <= 0xffff_ffff_ffff_ffffu128 {
                Some(m as u64)
            } else {
                None
            }
        },
    }
}

} // verus!

verus! {

/// The decimal digit for a value below ten.
pub open spec fn digit_char(d: int) -> char {
    (48 + d) as char
}

/// The shortest decimal form of a natural number, as `to_string` writes it.
pub open spec fn decimal_text(n: nat) -> Seq<char>
    decreases n,
{
    if n < 10 {
        seq![digit_char(n as int)]
    } else {
        decimal_text(n / 10).push(digit_char((n % 10) as int))
    }
}

/// The decimal form of an integer, with a leading `-` when it is negative.
pub open spec fn signed_decimal_text(v: int) -> Seq<char> {
    if v < 0 {
        seq!['-'] + decimal_text((-v) as nat)
    } else {
        decimal_text(v as nat)
    }
}

/// Appends the decimal form of `n` to `out`.
pub fn push_u64_decimal(out: &mut String, n: u64)
    ensures
        final(out)@ == old(out)@ + decimal_text(n as nat),
    decreases n,
{
    if n >= 10 {
        push_u64_decimal(out, n / 10);
    }
    let d: u8 = (n % 10) as u8;
    push_char(out, (48u8 + d) as char);
    assert(old(out)@ + decimal_text(n as nat) == if n < 10 {
        old(out)@.push(digit_char(d as int))
    } else {
        (old(out)@ + decimal_text((n / 10) as nat)).push(digit_char(d as int))
    });
}

/// The decimal form of `n`, as `n.to_string()` writes it.
pub fn u64_to_decimal(n: u64) -> (res: String)
    ensures
        res@ == decimal_text(n as nat),
{
    let mut out = String::new();
    push_u64_decimal(&mut out, n);
    out
}

/// The decimal form of `v`, as `v.to_string()` writes it.
pub fn i64_to_decimal(v: i64) -> (res: String)
    ensures
        res@ == signed_decimal_text(v as int),
{
    let mut out = String::new();
    if v < 0 {
        push_char(&mut out, '-');
        let m: u64 = (0i128 - (v as i128)) as u64;
        push_u64_decimal(&mut out, m);
    } else {
        push_u64_decimal(&mut out, v as u64);
    }
    out
}

/// The decimal form of a natural number is a non-empty run of digits whose
/// value is that number.
pub proof fn lemma_decimal_text_digits(n: nat)
    ensures
        decimal_text(n).len() > 0,
        all_digits(decimal_text(n)),
        digits_value(decimal_text(n)) == n,
    decreases n,
{
    if n >= 10 {
        lemma_decimal_text_digits(n / 10);
        let t = decimal_text(n);
        let p = decimal_text(n / 10);
        assert(t.drop_last() == p);
        assert forall|i: int| 0 <= i < t.len() implies is_digit(#[trigger] t[i]) by {
            if i < p.len() {
                assert(t[i] == p[i]);
            }
        }
        let d = (n % 10) as int;
        assert(digit_char(d) as int == 48 + d);
        assert(n == (n / 10) * 10 + n % 10);
        assert(t.last() == digit_char(d));
        assert(digits_value(t) == digits_value(p) * 10 + (t.last() as int - 48));
    } else {
        let t = decimal_text(n);
        assert(t[0] == digit_char(n as int));
        assert(digit_char(n as int) as int == 48 + n);
        assert(t.drop_last().len() == 0);
        assert(digits_value(t.drop_last()) == 0);
        assert(t.last() == t[0]);
    }
}

/// Writing a `u64` in decimal and parsing it back as a `u64` gives the same
/// number.
pub proof fn lemma_u64_decimal_round_trip(n: u64)
    ensures
        u64_text(decimal_text(n as nat)) == Some(n as int),
{
    lemma_decimal_text_digits(n as nat);
    let t = decimal_text(n as nat);
    assert(t[0] != '+');
}

/// Writing an `i64` in decimal and parsing it back as an `i64` gives the
/// same number.
pub proof fn lemma_i64_decimal_round_trip(v: i64)
    ensures
        i64_text(signed_decimal_text(v as int)) == Some(v as int),
{
    if v < 0 {
        lemma_decimal_text_digits((-v) as nat);
        let t = signed_decimal_text(v as int);
        assert(t.drop_first() == decimal_text((-v) as nat));
    } else {
        lemma_decimal_text_digits(v as nat);
        let t = decimal_text(v as nat);
        assert(t[0] != '+' && t[0] != '-');
    }
}

} // verus!

verus! {

// ----------------------------------------------------------------------
// Prefixes, replacement and trimming
// ----------------------------------------------------------------------

/// `s` begins with `p`.
pub open spec fn has_prefix(s: Seq<char>, p: Seq<char>) -> bool {
    p.len() <= s.len() && s.subrange(0, p.len() as int) == p
}

/// `s` with every occurrence of the non-empty `pat` replaced by `rep`,
/// matching from left to right without overlaps, as `str::replace` does.
pub open spec fn replace_all(s: Seq<char>, pat: Seq<char>, rep: Seq<char>) -> Seq<char>
    decreases s.len(),
{
    if pat.len() == 0 || s.len() == 0 {
        s
    } else if has_prefix(s, pat) {
        rep + replace_all(s.skip(pat.len() as int), pat, rep)
    } else {
        seq![s[0]] + replace_all(s.drop_first(), pat, rep)
    }
}

/// Whether the characters of `pat` stand in `s` from position `i` on.
fn matches_at(s: &str, n: usize, i: usize, pat: &str, m: usize) -> (res: bool)
    requires
        n == s@.len(),
        m == pat@.len(),
        i <= n,
    ensures
        res == has_prefix(s@.skip(i as int), pat@),
{
    if n - i < m {
        return false;
    }
    let mut j: usize = 0;
    while j < m
        invariant
            j <= m,
            i + m <= n,
            n == s@.len(),
            m == pat@.len(),
            forall|k: int| 0 <= k < j ==> s@[i + k] == pat@[k],
        decreases m - j,
    {
        if s.get_char(i + j) != pat.get_char(j) {
            proof {
                assert(s@.skip(i as int).subrange(0, m as int)[j as int] == s@[i + j]);
            }
            return false;
        }
        j = j + 1;
    }
    proof {
        assert(s@.skip(i as int).subrange(0, m as int) =~= pat@);
    }
    true
}

/// `s.replace(pat, rep)` for a non-empty pattern.
pub fn replace_all_str(s: &str, pat: &str, rep: &str) -> (res: String)
    requires
        pat@.len() > 0,
    ensures
        res@ == replace_all(s@, pat@, rep@),
{
    let n = s.unicode_len();
    let m = pat.unicode_len();
    let mut out = String::new();
    let mut i: usize = 0;
    proof {
        assert(s@.skip(0) == s@);
    }
    while i < n
        invariant
            i <= n,
            n == s@.len(),
            m == pat@.len(),
            m > 0,
            out@ + replace_all(s@.skip(i as int), pat@, rep@) == replace_all(s@, pat@, rep@),
        decreases n - i,
    {
        let ghost rest = s@.skip(i as int);
        if matches_at(s, n, i, pat, m) {
            out.append(rep);
            proof {
                assert(rest.skip(m as int) == s@.skip(i + m));
            }
            i = i + m;
        } else {
            let c = s.get_char(i);
            push_char(&mut out, c);
            proof {
                assert(rest.drop_first() == s@.skip(i + 1));
                assert(rest[0] == c);
            }
            i = i + 1;
        }
    }
    proof {
        assert(s@.skip(n as int).len() == 0);
    }
    out
}

} // verus!

verus! {

/// A character with the Unicode `White_Space` property, as
/// `char::is_whitespace` reads it.
pub open spec fn is_white_space(c: char) -> bool {
    let u = c as u32;
    ||| 0x09 <= u && u <= 0x0d
    ||| u == 0x20
    ||| u == 0x85
    ||| u == 0xa0
    ||| u == 0x1680
    ||| 0x2000 <= u && u <= 0x200a
    ||| u == 0x2028
    ||| u == 0x2029
    ||| u == 0x202f
    ||| u == 0x205f
    ||| u == 0x3000
}

/// `s` without its leading white space.
pub open spec fn trim_start(s: Seq<char>) -> Seq<char>
    decreases s.len(),
{
    if s.len() > 0 && is_white_space(s[0]) {
        trim_start(s.drop_first())
    } else {
        s
    }
}

/// `s` without its trailing white space.
pub open spec fn trim_end(s: Seq<char>) -> Seq<char>
    decreases s.len(),
{
    if s.len() > 0 && is_white_space(s.last()) {
        trim_end(s.drop_last())
    } else {
        s
    }
}

/// `s` without leading and trailing white space, as `str::trim` gives it.
pub open spec fn trimmed(s: Seq<char>) -> Seq<char> {
    trim_end(trim_start(s))
}

fn white_space(c: char) -> (res: bool)
    ensures
        res == is_white_space(c),
{
    let u = c as u32;
    (0x09 <= u && u <= 0x0d) || u == 0x20 || u == 0x85 || u == 0xa0 || u == 0x1680 || (0x2000 <= u
        && u <= 0x200a) || u == 0x2028 || u == 0x2029 || u == 0x202f || u == 0x205f || u == 0x3000
}

/// `s.trim()`.
pub fn trim_str(s: &str) -> (res: &str)
    ensures
        res@ == trimmed(s@),
{
    let n = s.unicode_len();
    let mut a: usize = 0;
    proof {
        assert(s@.skip(0) == s@);
    }
    while a < n && white_space(s.get_char(a))
        invariant
            a <= n,
            n == s@.len(),
            trim_start(s@.skip(a as int)) == trim_start(s@),
        decreases n - a,
    {
        proof {
            assert(s@.skip(a as int).drop_first() == s@.skip(a + 1));
        }
        a = a + 1;
    }
    let ghost front = s@.skip(a as int);
    proof {
        assert(trim_start(front) == front);
    }
    let mut b: usize = n;
    proof {
        assert(front.subrange(0, (b - a) as int) == front);
    }
    while b > a && white_space(s.get_char(b - 1))
        invariant
            a <= b <= n,
            n == s@.len(),
            front == s@.skip(a as int),
            trim_end(front.subrange(0, (b - a) as int)) == trim_end(front),
        decreases b,
    {
        proof {
            let t = front.subrange(0, (b - a) as int);
            assert(t.last() == s@[b - 1]);
            assert(t.drop_last() == front.subrange(0, (b - 1 - a) as int));
        }
        b = b - 1;
    }
    proof {
        let t = front.subrange(0, (b - a) as int);
        assert(trim_end(t) == t);
        assert(t == s@.subrange(a as int, b as int));
    }
    s.substring_char(a, b)
}

} // verus!

verus! {

/// Hexadecimal text has two characters per byte.
pub proof fn lemma_hex_lower_len(bytes: Seq<u8>)
    ensures
        hex_lower(bytes).len() == 2 * bytes.len(),
    decreases bytes.len(),
{
    if bytes.len() > 0 {
        lemma_hex_lower_len(bytes.drop_last());
    }
}

/// Distinct values below sixteen have distinct hexadecimal digits.
pub proof fn lemma_hex_digit_injective(x: int, y: int)
    requires
        0 <= x < 16,
        0 <= y < 16,
        hex_digit(x) == hex_digit(y),
    ensures
        x == y,
{
    assert(hex_digit(x) as int == if x < 10 { 48 + x } else { 87 + x });
    assert(hex_digit(y) as int == if y < 10 { 48 + y } else { 87 + y });
}

/// Two byte strings with the same hexadecimal text are the same: the text
/// loses nothing.
pub proof fn lemma_hex_lower_injective(a: Seq<u8>, b: Seq<u8>)
    requires
        hex_lower(a) == hex_lower(b),
    ensures
        a == b,
    decreases a.len(),
{
    lemma_hex_lower_len(a);
    lemma_hex_lower_len(b);
    if a.len() > 0 {
        let ha = hex_lower(a);
        let hb = hex_lower(b);
        let n = ha.len();
        assert(ha[n - 1] == hex_digit(a.last() as int % 16));
        assert(hb[n - 1] == hex_digit(b.last() as int % 16));
        assert(ha[n - 2] == hex_digit(a.last() as int / 16));
        assert(hb[n - 2] == hex_digit(b.last() as int / 16));
        lemma_hex_digit_injective(a.last() as int % 16, b.last() as int % 16);
        lemma_hex_digit_injective(a.last() as int / 16, b.last() as int / 16);
        assert(ha.subrange(0, n - 2) == hex_lower(a.drop_last()));
        assert(hb.subrange(0, n - 2) == hex_lower(b.drop_last()));
        lemma_hex_lower_injective(a.drop_last(), b.drop_last());
        assert(a == a.drop_last().push(a.last()));
        assert(b == b.drop_last().push(b.last()));
    }
}

} // verus!

verus! {

/// `a == b` for two texts.
pub fn str_equals(a: &str, b: &str) -> (res: bool)
    ensures
        res == (a@ == b@),
{
    let n = a.unicode_len();
    let m = b.unicode_len();
    if n != m {
        return false;
    }
    let mut i: usize = 0;
    while i < n
        invariant
            i <= n,
            n == a@.len(),
            m == b@.len(),
            n == m,
            forall|k: int| 0 <= k < i ==> a@[k] == b@[k],
        decreases n - i,
    {
        if a.get_char(i) != b.get_char(i) {
            return false;
        }
        i = i + 1;
    }
    proof {
        assert(a@ =~= b@);
    }
    true
}

/// `pat` stands somewhere in `s`.
pub open spec fn occurs_in(pat: Seq<char>, s: Seq<char>) -> bool {
    exists|i: int| 0 <= i <= s.len() && #[trigger] has_prefix(s.skip(i), pat)
}

/// Replacing a pattern that does not occur leaves the text as it is.
pub proof fn lemma_replace_absent(s: Seq<char>, pat: Seq<char>, rep: Seq<char>)
    requires
        pat.len() > 0,
        !occurs_in(pat, s),
    ensures
        replace_all(s, pat, rep) == s,
    decreases s.len(),
{
    if s.len() > 0 {
        assert(s.skip(0) == s);
        assert(!has_prefix(s.skip(0), pat));
        let t = s.drop_first();
        assert forall|i: int| 0 <= i <= t.len() implies !#[trigger] has_prefix(t.skip(i), pat) by {
            assert(t.skip(i) == s.skip(i + 1));
            if has_prefix(t.skip(i), pat) {
                assert(has_prefix(s.skip(i + 1), pat));
            }
        }
        lemma_replace_absent(t, pat, rep);
        assert(seq![s[0]] + t == s);
    }
}

} // verus!
