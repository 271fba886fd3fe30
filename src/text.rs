//! Decimal rendering of numbers and small text utilities, each stated over
//! `Seq<char>`.
use vstd::prelude::*;
use vstd::string::*;

verus! {

/// The ASCII digit for `d` (0 to 9).
pub open spec fn digit_char(d: int) -> char {
    if d == 0 { '0' }
    else if d == 1 { '1' }
    else if d == 2 { '2' }
    else if d == 3 { '3' }
    else if d == 4 { '4' }
    else if d == 5 { '5' }
    else if d == 6 { '6' }
    else if d == 7 { '7' }
    else if d == 8 { '8' }
    else { '9' }
}

/// Decimal notation of a natural number, without leading zeros.
pub open spec fn decimal(n: nat) -> Seq<char>
    decreases n,
{
    if n < 10 {
        seq![digit_char(n as int)]
    } else {
        decimal(n / 10).push(digit_char((n % 10) as int))
    }
}

/// One digit as a one-character string.
pub fn digit_text(d: u64) -> (r: &'static str)
    requires
        d < 10,
    ensures
        r@ == seq![digit_char(d as int)],
{
    proof {
        reveal_strlit("0");
        reveal_strlit("1");
        reveal_strlit("2");
        reveal_strlit("3");
        reveal_strlit("4");
        reveal_strlit("5");
        reveal_strlit("6");
        reveal_strlit("7");
        reveal_strlit("8");
        reveal_strlit("9");
    }
    if d == 0 { "0" }
    else if d == 1 { "1" }
    else if d == 2 { "2" }
    else if d == 3 { "3" }
    else if d == 4 { "4" }
    else if d == 5 { "5" }
    else if d == 6 { "6" }
    else if d == 7 { "7" }
    else if d == 8 { "8" }
    else { "9" }
}

/// Decimal notation of `n`.
pub fn decimal_text(n: u64) -> (r: String)
    ensures
        r@ == decimal(n as nat),
    decreases n,
{
    if n < 10 {
        String::from_str(digit_text(n))
    } else {
        let mut s = decimal_text(n / 10);
        s.append(digit_text(n % 10));
        s
    }
}


/// Four digits, zero-padded, of `f` (below 10000).
pub open spec fn four_digits(f: int) -> Seq<char> {
    seq![digit_char(f / 1000), digit_char((f / 100) % 10), digit_char((f / 10) % 10), digit_char(f % 10)]
}

/// Absolute value of an integer.
pub open spec fn abs(v: int) -> int {
    if v < 0 { -v } else { v }
}

/// Text of `q` ten-thousandths with exactly four decimal places, e.g. `0.2500`.
pub open spec fn fixed4(q: int) -> Seq<char> {
    let sign = if q < 0 { seq!['-'] } else { Seq::<char>::empty() };
    sign + decimal((abs(q) / 10000) as nat) + seq!['.'] + four_digits(abs(q) % 10000)
}

/// Text of the fraction `f` thousandths (1 to 999) without trailing zeros.
pub open spec fn fraction_digits(f: int) -> Seq<char> {
    if f % 100 == 0 {
        seq![digit_char(f / 100)]
    } else if f % 10 == 0 {
        seq![digit_char(f / 100), digit_char((f / 10) % 10)]
    } else {
        seq![digit_char(f / 100), digit_char((f / 10) % 10), digit_char(f % 10)]
    }
}

/// Shortest decimal text of `m` thousandths: `700` is `0.7`, `1000` is `1`.
pub open spec fn thousandths(m: nat) -> Seq<char> {
    if m % 1000 == 0 {
        decimal(m / 1000)
    } else {
        decimal(m / 1000) + seq!['.'] + fraction_digits((m % 1000) as int)
    }
}

fn append_digit(s: &mut String, d: u64)
    requires
        d < 10,
    ensures
        final(s)@ == old(s)@.push(digit_char(d as int)),
{
    s.append(digit_text(d));
}

/// Renders `q` ten-thousandths with four decimal places.
pub fn fixed4_text(q: i64) -> (r: String)
    ensures
        r@ == fixed4(q as int),
{
    proof {
        reveal_strlit("-");
        reveal_strlit(".");
    }
    let a: u64 = if q < 0 { (0i128 - q as i128) as u64 } else { q as u64 };
    let mut s = if q < 0 { String::from_str("-") } else { String::new() };
    let whole = decimal_text(a / 10000);
    s.append(whole.as_str());
    s.append(".");
    let f = a % 10000;
    append_digit(&mut s, f / 1000);
    append_digit(&mut s, (f / 100) % 10);
    append_digit(&mut s, (f / 10) % 10);
    append_digit(&mut s, f % 10);
    proof {
        let sign = if q < 0 { seq!['-'] } else { Seq::<char>::empty() };
        assert(s@ =~= sign + decimal((abs(q as int) / 10000) as nat) + seq!['.'] + four_digits(abs(q as int) % 10000));
    }
    s
}

/// Renders `m` thousandths in its shortest decimal form.
pub fn thousandths_text(m: u64) -> (r: String)
    ensures
        r@ == thousandths(m as nat),
{
    proof {
        reveal_strlit(".");
    }
    let mut s = decimal_text(m / 1000);
    let f = m % 1000;
    if f != 0 {
        let ghost head = s@;
        s.append(".");
        append_digit(&mut s, f / 100);
        if f % 100 != 0 {
            append_digit(&mut s, (f / 10) % 10);
            if f % 10 != 0 {
                append_digit(&mut s, f % 10);
            }
        }
        assert(s@ =~= head + seq!['.'] + fraction_digits(f as int));
    }
    s
}

/// Decimal notation of an integer, with a leading `-` when negative.
pub open spec fn signed_decimal(v: int) -> Seq<char> {
    if v < 0 { seq!['-'] + decimal((-v) as nat) } else { decimal(v as nat) }
}

/// Renders `v` in decimal.
pub fn signed_text(v: i64) -> (r: String)
    ensures
        r@ == signed_decimal(v as int),
{
    proof {
        reveal_strlit("-");
    }
    if v < 0 {
        let a: u64 = (0i128 - v as i128) as u64;
        let mut s = String::from_str("-");
        let d = decimal_text(a);
        s.append(d.as_str());
        s
    } else {
        decimal_text(v as u64)
    }
}

/// `name` under the directory `base`, with one separating `/`.
pub open spec fn joined_path(base: Seq<char>, name: Seq<char>) -> Seq<char> {
    if base.len() == 0 {
        name
    } else if base.last() == '/' {
        base + name
    } else {
        base + seq!['/'] + name
    }
}

/// The path of `name` under the directory `base`.
pub fn join_path(base: &str, name: &str) -> (r: String)
    ensures
        r@ == joined_path(base@, name@),
{
    proof {
        reveal_strlit("/");
    }
    let n = base.unicode_len();
    let mut s = String::from_str(base);
    if n == 0 {
        String::from_str(name)
    } else if base.get_char(n - 1) == '/' {
        s.append(name);
        s
    } else {
        s.append("/");
        s.append(name);
        s
    }
}

/// Whether two texts are equal.
pub fn same_text(a: &str, b: &str) -> (r: bool)
    ensures
        r == (a@ == b@),
{
    let x = String::from_str(a);
    let y = String::from_str(b);
    x == y
}

/// Whether `s` begins with `p`.
pub open spec fn has_prefix(s: Seq<char>, p: Seq<char>) -> bool {
    p.len() <= s.len() && s.subrange(0, p.len() as int) == p
}

/// Whether `s` begins with `p`.
pub fn starts_with(s: &str, p: &str) -> (r: bool)
    ensures
        r == has_prefix(s@, p@),
{
    let n = s.unicode_len();
    let k = p.unicode_len();
    if k <= n {
        same_text(s.substring_char(0, k), p)
    } else {
        false
    }
}

/// Whether `s` ends with `p`.
pub open spec fn has_suffix(s: Seq<char>, p: Seq<char>) -> bool {
    p.len() <= s.len() && s.subrange(s.len() - p.len(), s.len() as int) == p
}

/// Whether `s` ends with `p`.
pub fn ends_with(s: &str, p: &str) -> (r: bool)
    ensures
        r == has_suffix(s@, p@),
{
    let n = s.unicode_len();
    let k = p.unicode_len();
    if k <= n {
        same_text(s.substring_char(n - k, n), p)
    } else {
        false
    }
}

/// Whether `p` occurs in `s`.
pub open spec fn has_infix(s: Seq<char>, p: Seq<char>) -> bool {
    exists|i: int| 0 <= i && i + p.len() <= s.len() && #[trigger] s.subrange(i, i + p.len()) == p
}

/// Whether `p` occurs in `s`.
pub fn contains_text(s: &str, p: &str) -> (r: bool)
    ensures
        r == has_infix(s@, p@),
{
    let n = s.unicode_len();
    let k = p.unicode_len();
    if k > n {
        return false;
    }
    let last = n - k;
    let mut i: usize = 0;
    loop
        invariant
            n == s@.len(),
            k == p@.len(),
            last == n - k,
            i <= last,
            forall|j: int| 0 <= j < i ==> #[trigger] s@.subrange(j, j + k) != p@,
        decreases last - i,
    {
        if same_text(s.substring_char(i, i + k), p) {
            return true;
        }
        if i == last {
            return false;
        }
        i = i + 1;
    }
}

/// Characters with the Unicode `White_Space` property.
pub open spec fn is_space(c: char) -> bool {
    let v = c as u32;
    (9 <= v && v <= 13) || v == 32 || v == 0x85 || v == 0xA0 || v == 0x1680
        || (0x2000 <= v && v <= 0x200A) || v == 0x2028 || v == 0x2029 || v == 0x202F
        || v == 0x205F || v == 0x3000
}

/// Whether `c` is white space.
pub fn space_char(c: char) -> (r: bool)
    ensures
        r == is_space(c),
{
    let v = c as u32;
    (9 <= v && v <= 13) || v == 32 || v == 0x85 || v == 0xA0 || v == 0x1680
        || (0x2000 <= v && v <= 0x200A) || v == 0x2028 || v == 0x2029 || v == 0x202F
        || v == 0x205F || v == 0x3000
}

/// First position at or after `i` that is not white space.
pub open spec fn lead_end(s: Seq<char>, i: int) -> int
    decreases s.len() - i,
{
    if 0 <= i < s.len() && is_space(s[i]) {
        lead_end(s, i + 1)
    } else {
        i
    }
}

/// Position after the last character in `lo..j` that is not white space.
pub open spec fn trail_start(s: Seq<char>, lo: int, j: int) -> int
    decreases j - lo,
{
    if lo < j && j <= s.len() && is_space(s[j - 1]) {
        trail_start(s, lo, j - 1)
    } else {
        j
    }
}

/// `s` without leading and trailing white space.
pub open spec fn trimmed(s: Seq<char>) -> Seq<char> {
    let a = lead_end(s, 0);
    s.subrange(a, trail_start(s, a, s.len() as int))
}

/// Removes leading and trailing white space.
pub fn trim(s: &str) -> (r: &str)
    ensures
        r@ == trimmed(s@),
{
    let n = s.unicode_len();
    let mut i: usize = 0;
    while i < n && space_char(s.get_char(i))
        invariant
            n == s@.len(),
            i <= n,
            lead_end(s@, i as int) == lead_end(s@, 0),
        decreases n - i,
    {
        i = i + 1;
    }
    let mut j: usize = n;
    while j > i && space_char(s.get_char(j - 1))
        invariant
            n == s@.len(),
            i <= j <= n,
            lead_end(s@, 0) == i,
            trail_start(s@, i as int, j as int) == trail_start(s@, i as int, n as int),
        decreases j,
    {
        j = j - 1;
    }
    s.substring_char(i, j)
}

} // verus!
