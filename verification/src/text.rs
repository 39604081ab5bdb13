use vstd::prelude::*;
use vstd::string::*;

verus! {

/// The decimal digit for `d` (taken modulo 10).
pub open spec fn digit_char(d: nat) -> char {
    let d = d % 10;
    if d == 0 {
        '0'
    } else if d == 1 {
        '1'
    } else if d == 2 {
        '2'
    } else if d == 3 {
        '3'
    } else if d == 4 {
        '4'
    } else if d == 5 {
        '5'
    } else if d == 6 {
        '6'
    } else if d == 7 {
        '7'
    } else if d == 8 {
        '8'
    } else {
        '9'
    }
}

/// `n` written in decimal, without sign or leading zeros.
pub open spec fn decimal(n: nat) -> Seq<char>
    decreases n,
{
    if n < 10 {
        seq![digit_char(n)]
    } else {
        decimal(n / 10).push(digit_char(n % 10))
    }
}

/// Whether `c` is a decimal digit.
pub open spec fn is_digit(c: char) -> bool {
    '0' <= c <= '9'
}

/// The value of the digit `c`.
pub open spec fn digit_value(c: char) -> nat {
    (c as int - '0' as int) as nat
}

/// The value of a string of decimal digits.
pub open spec fn digits_value(s: Seq<char>) -> nat
    decreases s.len(),
{
    if s.len() == 0 {
        0
    } else {
        digits_value(s.drop_last()) * 10 + digit_value(s.last())
    }
}

/// Whether every character of `s` is a decimal digit.
pub open spec fn all_digits(s: Seq<char>) -> bool {
    forall|i: int| 0 <= i < s.len() ==> is_digit(#[trigger] s[i])
}

/// `s` read as an unsigned 64-bit integer: an optional `+`, then one or more
/// decimal digits whose value fits.
pub open spec fn parse_u64_spec(s: Seq<char>) -> Option<u64> {
    let d = if s.len() > 0 && s[0] == '+' {
        s.drop_first()
    } else {
        s
    };
    if d.len() > 0 && all_digits(d) && digits_value(d) <= u64::MAX {
        Some(digits_value(d) as u64)
    } else {
        None
    }
}

/// The index of the first `sep` in `s` at or after `i`, or the length of
/// `s` when there is none.
pub open spec fn field_end(s: Seq<char>, i: int, sep: char) -> int
    decreases s.len() - i,
{
    if i >= s.len() || i < 0 {
        s.len() as int
    } else if s[i] == sep {
        i
    } else {
        field_end(s, i + 1, sep)
    }
}

/// The second of the pieces that `sep` splits `s` into, as `str::split`
/// gives them; there is none when `s` holds no `sep`.
pub open spec fn second_field(s: Seq<char>, sep: char) -> Option<Seq<char>> {
    let e1 = field_end(s, 0, sep);
    if e1 >= s.len() {
        None
    } else {
        Some(s.subrange(e1 + 1, field_end(s, e1 + 1, sep)))
    }
}

/// The second line of `s`, as `str::lines` gives it: lines end at `\n`, a
/// `\r` just before it is not part of the line, and an empty text after
/// the last newline is no line.
pub open spec fn second_line(s: Seq<char>) -> Option<Seq<char>> {
    let e1 = field_end(s, 0, '\n');
    if e1 + 1 >= s.len() {
        None
    } else {
        let e2 = field_end(s, e1 + 1, '\n');
        let raw = s.subrange(e1 + 1, e2);
        if e2 < s.len() && raw.len() > 0 && raw.last() == '\r' {
            Some(raw.drop_last())
        } else {
            Some(raw)
        }
    }
}

/// `field_end` is the first `sep` from `i` on.
pub proof fn lemma_field_end_at(s: Seq<char>, i: int, k: int, sep: char)
    requires
        0 <= i <= k <= s.len(),
        forall|j: int| i <= j < k ==> #[trigger] s[j] != sep,
        k < s.len() ==> s[k] == sep,
    ensures
        field_end(s, i, sep) == k,
    decreases k - i,
{
    if i < k {
        lemma_field_end_at(s, i + 1, k, sep);
    }
}

/// The decimal digit for `d`, as text.
fn digit_str(d: u64) -> (s: &'static str)
    requires
        d < 10,
    ensures
        s@ == seq![digit_char(d as nat)],
{
    proof {
        reveal_strlit("0");
        reveal_strlit("1");
        reveal_strlit("2");
        reveal_strlit("3");
        reveal_strlit("4");
        reveal_strlit("5");
        reveal_strlit("6");
        reveal_strlit("7");
        reveal_strlit("8");
        reveal_strlit("9");
    }
    if d == 0 {
        "0"
    } else if d == 1 {
        "1"
    } else if d == 2 {
        "2"
    } else if d == 3 {
        "3"
    } else if d == 4 {
        "4"
    } else if d == 5 {
        "5"
    } else if d == 6 {
        "6"
    } else if d == 7 {
        "7"
    } else if d == 8 {
        "8"
    } else {
        "9"
    }
}

/// Appends `n` in decimal to `s`.
pub fn push_decimal(s: &mut String, n: u64)
    ensures
        final(s)@ == old(s)@ + decimal(n as nat),
    decreases n,
{
    if n >= 10 {
        push_decimal(s, n / 10);
    }
    s.append(digit_str(n % 10));
    proof {
        assert(n % 10 == (n as nat) % 10);
    }
}

/// A decimal digit's character stands for its value.
proof fn lemma_digit_char(d: nat)
    ensures
        is_digit(digit_char(d)),
        digit_value(digit_char(d)) == d % 10,
        digit_char(d) != '+',
        digit_char(d) != '\n',
        digit_char(d) != '\r',
{
}

/// Decimal text is read back as the number it was written from.
pub proof fn lemma_decimal_digits(n: nat)
    ensures
        decimal(n).len() > 0,
        all_digits(decimal(n)),
        digits_value(decimal(n)) == n,
        decimal(n)[0] != '+',
        forall|i: int| 0 <= i < decimal(n).len() ==> #[trigger] decimal(n)[i] != '\n',
        decimal(n).last() != '\r',
    decreases n,
{
    lemma_digit_char(n);
    if n < 10 {
        assert(decimal(n).drop_last() =~= Seq::<char>::empty());
        assert(n % 10 == n);
        assert(digits_value(decimal(n)) == digits_value(Seq::<char>::empty()) * 10 + digit_value(
            digit_char(n),
        ));
    } else {
        lemma_decimal_digits(n / 10);
        lemma_digit_char(n % 10);
        assert((n / 10) * 10 + n % 10 == n) by (nonlinear_arith);
        assert((n % 10) % 10 == n % 10) by (nonlinear_arith);
        let d = decimal(n);
        assert(d.drop_last() =~= decimal(n / 10));
        assert(d.last() == digit_char(n % 10));
        assert(digits_value(d) == digits_value(decimal(n / 10)) * 10 + digit_value(
            digit_char(n % 10),
        ));
        assert forall|i: int| 0 <= i < d.len() implies is_digit(#[trigger] d[i]) && d[i] != '\n' by {
            if i < d.len() - 1 {
                assert(d[i] == decimal(n / 10)[i]);
            }
        }
    }
}

/// `n` written in decimal.
pub proof fn lemma_parse_decimal(n: u64)
    ensures
        parse_u64_spec(decimal(n as nat)) == Some(n),
{
    lemma_decimal_digits(n as nat);
}

proof fn lemma_digits_value_prefix(s: Seq<char>, i: int, j: int)
    requires
        0 <= i <= j <= s.len(),
    ensures
        digits_value(s.take(i)) <= digits_value(s.take(j)),
    decreases j - i,
{
    if i < j {
        lemma_digits_value_prefix(s, i, j - 1);
        assert(s.take(j).drop_last() =~= s.take(j - 1));
    }
}

/// Reads `s` as an unsigned 64-bit integer, as `str::parse::<u64>` does.
pub fn parse_u64(s: &str) -> (r: Option<u64>)
    ensures
        r == parse_u64_spec(s@),
{
    let n = s.unicode_len();
    let mut i: usize = 0;
    if n > 0 && s.get_char(0) == '+' {
        i = 1;
    }
    let start = i;
    let ghost d = if s@.len() > 0 && s@[0] == '+' {
        s@.drop_first()
    } else {
        s@
    };
    proof {
        assert(d =~= s@.skip(start as int));
    }
    if start == n {
        return None;
    }
    let mut acc: u64 = 0;
    proof {
        assert(d.take(0) =~= Seq::<char>::empty());
    }
    while i < n
        invariant
            n == s@.len(),
            d == s@.skip(start as int),
            d == (if s@.len() > 0 && s@[0] == '+' {
                s@.drop_first()
            } else {
                s@
            }),
            start <= i <= n,
            start < n,
            all_digits(d.take(i - start)),
            acc as nat == digits_value(d.take(i - start)),
        decreases n - i,
    {
        let c = s.get_char(i);
        let ghost k = i - start;
        proof {
            assert(d[k] == c);
            assert(d.take(k + 1).drop_last() =~= d.take(k));
            assert(d.take(k + 1).last() == c);
        }
        if !('0' <= c && c <= '9') {
            proof {
                assert(!all_digits(d));
            }
            return None;
        }
        let v: u64 = (c as u32 - '0' as u32) as u64;
        match acc.checked_mul(10) {
            Some(a) => match a.checked_add(v) {
                Some(b) => {
                    acc = b;
                },
                None => {
                    proof {
                        if all_digits(d) {
                            lemma_digits_value_prefix(d, k + 1, d.len() as int);
                            assert(d.take(d.len() as int) =~= d);
                        }
                    }
                    return None;
                },
            },
            None => {
                proof {
                    if all_digits(d) {
                        lemma_digits_value_prefix(d, k + 1, d.len() as int);
                        assert(d.take(d.len() as int) =~= d);
                    }
                }
                return None;
            },
        }
        proof {
            assert forall|j: int| 0 <= j < k + 1 implies is_digit(#[trigger] d.take(k + 1)[j]) by {
                if j < k {
                    assert(d.take(k + 1)[j] == d.take(k)[j]);
                }
            }
        }
        i = i + 1;
    }
    proof {
        assert(d.take(n - start) =~= d);
    }
    Some(acc)
}

/// The second line of `s`, as `str::lines` gives it.
pub fn second_line_of(s: &str) -> (r: Option<&str>)
    ensures
        match second_line(s@) {
            Some(l) => r matches Some(x) && x@ == l,
            None => r is None,
        },
{
    let n = s.unicode_len();
    let mut i: usize = 0;
    while i < n && s.get_char(i) != '\n'
        invariant
            n == s@.len(),
            i <= n,
            forall|j: int| 0 <= j < i ==> #[trigger] s@[j] != '\n',
        decreases n - i,
    {
        i = i + 1;
    }
    proof {
        lemma_field_end_at(s@, 0, i as int, '\n');
    }
    if i == n || i + 1 == n {
        return None;
    }
    let start = i + 1;
    let mut e: usize = start;
    while e < n && s.get_char(e) != '\n'
        invariant
            n == s@.len(),
            start <= e <= n,
            forall|j: int| start <= j < e ==> #[trigger] s@[j] != '\n',
        decreases n - e,
    {
        e = e + 1;
    }
    proof {
        lemma_field_end_at(s@, start as int, e as int, '\n');
    }
    let mut end = e;
    if e < n && e > start && s.get_char(e - 1) == '\r' {
        end = e - 1;
    }
    let l = s.substring_char(start, end);
    proof {
        let raw = s@.subrange(start as int, e as int);
        if e < n && e > start && s@[e - 1] == '\r' {
            assert(raw.drop_last() =~= s@.subrange(start as int, end as int));
        } else {
            assert(raw =~= s@.subrange(start as int, end as int));
        }
    }
    Some(l)
}

/// The second piece that `sep` splits `s` into.
pub fn second_field_of(s: &str, sep: char) -> (r: Option<&str>)
    ensures
        match second_field(s@, sep) {
            Some(f) => r matches Some(x) && x@ == f,
            None => r is None,
        },
{
    let n = s.unicode_len();
    let mut i: usize = 0;
    while i < n && s.get_char(i) != sep
        invariant
            n == s@.len(),
            i <= n,
            forall|j: int| 0 <= j < i ==> #[trigger] s@[j] != sep,
        decreases n - i,
    {
        i = i + 1;
    }
    proof {
        lemma_field_end_at(s@, 0, i as int, sep);
    }
    if i == n {
        return None;
    }
    let start = i + 1;
    let mut e: usize = start;
    while e < n && s.get_char(e) != sep
        invariant
            n == s@.len(),
            start <= e <= n,
            forall|j: int| start <= j < e ==> #[trigger] s@[j] != sep,
        decreases n - e,
    {
        e = e + 1;
    }
    proof {
        lemma_field_end_at(s@, start as int, e as int, sep);
    }
    Some(s.substring_char(start, e))
}

} // verus!
