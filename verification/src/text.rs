//! Decimal numerals and splitting on a separator, over sequences of
//! characters or bytes.

use vstd::prelude::*;

verus! {

/// The fields of `s` between occurrences of `sep`. An empty `s` has one empty
/// field, and `n` separators always give `n + 1` fields.
pub open spec fn split<T>(s: Seq<T>, sep: T) -> Seq<Seq<T>>
    decreases s.len(),
{
    if s.len() == 0 {
        seq![Seq::empty()]
    } else {
        let init = split(s.drop_last(), sep);
        if s.last() == sep {
            init.push(Seq::empty())
        } else {
            init.drop_last().push(init.last().push(s.last()))
        }
    }
}

/// `s` holds no `sep`.
pub open spec fn free_of<T>(s: Seq<T>, sep: T) -> bool {
    forall|i: int| 0 <= i < s.len() ==> s[i] != sep
}

/// A sequence without the separator is its own single field.
pub proof fn lemma_split_single<T>(s: Seq<T>, sep: T)
    requires
        free_of(s, sep),
    ensures
        split(s, sep) == seq![s],
    decreases s.len(),
{
    if s.len() == 0 {
        assert(s =~= Seq::empty());
    } else {
        lemma_split_single(s.drop_last(), sep);
        assert(s.drop_last().push(s.last()) =~= s);
    }
}

/// Appending a separator and a field without separators adds that field.
pub proof fn lemma_split_append<T>(s: Seq<T>, t: Seq<T>, sep: T)
    requires
        free_of(t, sep),
    ensures
        split(s + seq![sep] + t, sep) == split(s, sep).push(t),
    decreases t.len(),
{
    let whole = s + seq![sep] + t;
    if t.len() == 0 {
        assert(whole.drop_last() =~= s);
        assert(t =~= Seq::empty());
    } else {
        let shorter = t.drop_last();
        lemma_split_append(s, shorter, sep);
        assert(whole.drop_last() =~= s + seq![sep] + shorter);
        assert(shorter.push(t.last()) =~= t);
    }
}

/// `c` is one of `0` to `9`.
pub open spec fn is_digit(c: char) -> bool {
    '0' <= c <= '9'
}

/// The number that the digit `c` stands for.
pub open spec fn digit_value(c: char) -> int {
    c as int - '0' as int
}

/// The digit that stands for `d`, for `d` from 0 to 9.
pub open spec fn digit_char(d: int) -> char {
    seq!['0', '1', '2', '3', '4', '5', '6', '7', '8', '9'][d]
}

/// Every element of `s` is a digit.
pub open spec fn all_digits(s: Seq<char>) -> bool {
    forall|i: int| 0 <= i < s.len() ==> is_digit(#[trigger] s[i])
}

/// The number written by the digits `s`, most significant first. Leading
/// zeros do not change it.
pub open spec fn decimal_value(s: Seq<char>) -> nat
    decreases s.len(),
{
    if s.len() == 0 {
        0
    } else {
        (decimal_value(s.drop_last()) * 10 + digit_value(s.last())) as nat
    }
}

/// The digits of `n`, most significant first, with no padding.
pub open spec fn decimal_digits(n: nat) -> Seq<char>
    decreases n,
{
    if n < 10 {
        seq![digit_char(n as int)]
    } else {
        decimal_digits(n / 10).push(digit_char((n % 10) as int))
    }
}

/// The number that a run of digits writes, if `s` is a non-empty run of
/// digits whose value is at most `max`.
pub open spec fn bounded_decimal(s: Seq<char>, max: nat) -> Option<nat> {
    if s.len() > 0 && all_digits(s) && decimal_value(s) <= max {
        Some(decimal_value(s))
    } else {
        None
    }
}

/// The integer that `s` writes: an optional `+` or `-`, then one or more
/// digits. Nothing else is a numeral, neither blanks nor an empty text.
pub open spec fn numeral(s: Seq<char>) -> Option<int> {
    if s.len() > 0 && s[0] == '-' {
        let digits = s.subrange(1, s.len() as int);
        if digits.len() > 0 && all_digits(digits) {
            Some(-(decimal_value(digits) as int))
        } else {
            None
        }
    } else if s.len() > 0 && s[0] == '+' {
        let digits = s.subrange(1, s.len() as int);
        if digits.len() > 0 && all_digits(digits) {
            Some(decimal_value(digits) as int)
        } else {
            None
        }
    } else if s.len() > 0 && all_digits(s) {
        Some(decimal_value(s) as int)
    } else {
        None
    }
}

/// The digit for each value from 0 to 9 is a digit with that value.
pub proof fn lemma_digit_char(d: int)
    requires
        0 <= d <= 9,
    ensures
        is_digit(digit_char(d)),
        digit_value(digit_char(d)) == d,
{
}

/// A longer run of digits writes a number at least as large as any of its
/// prefixes.
pub proof fn lemma_decimal_value_prefix(s: Seq<char>, k: int)
    requires
        all_digits(s),
        0 <= k <= s.len(),
    ensures
        decimal_value(s.take(k)) <= decimal_value(s),
    decreases s.len() - k,
{
    if k == s.len() {
        assert(s.take(k) =~= s);
    } else {
        lemma_decimal_value_prefix(s, k + 1);
        let longer = s.take(k + 1);
        assert(longer.drop_last() =~= s.take(k));
    }
}

/// The digits of a number are a non-empty run of digits that writes it.
pub proof fn lemma_decimal_digits(n: nat)
    ensures
        decimal_digits(n).len() >= 1,
        all_digits(decimal_digits(n)),
        decimal_value(decimal_digits(n)) == n,
    decreases n,
{
    if n < 10 {
        lemma_digit_char(n as int);
        let s = decimal_digits(n);
        assert(decimal_value(s.drop_last()) == 0);
    } else {
        lemma_decimal_digits(n / 10);
        lemma_digit_char((n % 10) as int);
        let s = decimal_digits(n);
        assert(s.drop_last() =~= decimal_digits(n / 10));
    }
}

/// A run of digits holds no character that is not a digit.
pub proof fn lemma_digits_free_of(s: Seq<char>, c: char)
    requires
        all_digits(s),
        !is_digit(c),
    ensures
        free_of(s, c),
{
}

/// The digits of a number, read back as a numeral, give the number.
pub proof fn lemma_numeral_of_digits(n: nat)
    ensures
        numeral(decimal_digits(n)) == Some(n as int),
{
    lemma_decimal_digits(n);
}

/// The integer in the range of `i32` that `s` writes.
pub open spec fn numeral_i32(s: Seq<char>) -> Option<int> {
    match numeral(s) {
        Some(n) => if i32::MIN <= n <= i32::MAX {
            Some(n)
        } else {
            None
        },
        None => None,
    }
}

/// The number in the range of `u64` that `s` writes. An unsigned numeral
/// takes no `-`, not even before zero.
pub open spec fn numeral_u64(s: Seq<char>) -> Option<int> {
    match numeral(s) {
        Some(n) => if s[0] != '-' && n <= u64::MAX {
            Some(n)
        } else {
            None
        },
        None => None,
    }
}

/// The characters of `s`, in order.
pub fn chars_of(s: &str) -> (chars: Vec<char>)
    ensures
        chars@ == s@,
{
    let mut chars: Vec<char> = Vec::new();
    for c in it: s.chars()
        invariant
            chars@ == it.seq().take(it.index() as int),
    {
        chars.push(c);
    }
    chars
}

/// Splits `chars` at every `sep`.
pub fn split_on(chars: &Vec<char>, sep: char) -> (fields: Vec<Vec<char>>)
    ensures
        fields@.len() == split(chars@, sep).len(),
        forall|k: int| 0 <= k < fields@.len() ==> (#[trigger] fields@[k])@ == split(chars@, sep)[k],
{
    let n = chars.len();
    let mut done: Vec<Vec<char>> = Vec::new();
    let mut current: Vec<char> = Vec::new();
    let mut i: usize = 0;
    while i < n
        invariant
            n == chars@.len(),
            i <= n,
            split(chars@.take(i as int), sep).len() == done@.len() + 1,
            forall|k: int|
                0 <= k < done@.len() ==> (#[trigger] done@[k])@ == split(
                    chars@.take(i as int),
                    sep,
                )[k],
            current@ == split(chars@.take(i as int), sep).last(),
        decreases n - i,
    {
        let c = chars[i];
        proof {
            assert(chars@.take(i + 1).drop_last() =~= chars@.take(i as int));
        }
        if c == sep {
            done.push(current);
            current = Vec::new();
        } else {
            current.push(c);
        }
        i += 1;
    }
    proof {
        assert(chars@.take(n as int) =~= chars@);
    }
    done.push(current);
    done
}

/// Reads `chars` from index `from` to the end as a run of digits that writes
/// a number of at most `max`.
fn parse_digits(chars: &Vec<char>, from: usize, max: u64) -> (r: Option<u64>)
    requires
        from <= chars@.len(),
    ensures
        match bounded_decimal(chars@.subrange(from as int, chars@.len() as int), max as nat) {
            Some(n) => r == Some(n as u64),
            None => r is None,
        },
{
    let n = chars.len();
    let ghost run = chars@.subrange(from as int, n as int);
    if from == n {
        return None;
    }
    let mut value: u64 = 0;
    let mut i: usize = from;
    while i < n
        invariant
            n == chars@.len(),
            from <= i <= n,
            run == chars@.subrange(from as int, n as int),
            all_digits(run.take(i - from)),
            value == decimal_value(run.take(i - from)),
            value <= max,
        decreases n - i,
    {
        let c = chars[i];
        if !(c >= '0' && c <= '9') {
            proof {
                assert(!is_digit(run[i - from]));
            }
            return None;
        }
        let digit: u64 = (c as u32 - '0' as u32) as u64;
        proof {
            let longer = run.take(i + 1 - from);
            assert(longer.drop_last() =~= run.take(i - from));
            assert(all_digits(longer));
            if all_digits(run) {
                lemma_decimal_value_prefix(run, i + 1 - from);
            }
        }
        if digit > max || value > (max - digit) / 10 {
            return None;
        }
        value = value * 10 + digit;
        i += 1;
    }
    proof {
        assert(run.take(n - from) =~= run);
    }
    Some(value)
}

/// Reads `field` as a numeral in the range of `i32`.
pub fn parse_i32(field: &Vec<char>) -> (r: Option<i32>)
    ensures
        match numeral_i32(field@) {
            Some(n) => r == Some(n as i32),
            None => r is None,
        },
{
    if field.len() == 0 {
        return None;
    }
    let first = field[0];
    if first == '-' {
        match parse_digits(field, 1, 2147483648) {
            Some(n) => if n == 2147483648 {
                Some(i32::MIN)
            } else {
                Some(-(n as i32))
            },
            None => None,
        }
    } else if first == '+' {
        match parse_digits(field, 1, 2147483647) {
            Some(n) => Some(n as i32),
            None => None,
        }
    } else {
        proof {
            assert(field@.subrange(0, field@.len() as int) =~= field@);
        }
        match parse_digits(field, 0, 2147483647) {
            Some(n) => Some(n as i32),
            None => None,
        }
    }
}

/// Reads `field` as a numeral in the range of `u64`.
pub fn parse_u64(field: &Vec<char>) -> (r: Option<u64>)
    ensures
        match numeral_u64(field@) {
            Some(n) => r == Some(n as u64),
            None => r is None,
        },
{
    if field.len() == 0 {
        return None;
    }
    let first = field[0];
    if first == '-' {
        None
    } else if first == '+' {
        parse_digits(field, 1, u64::MAX)
    } else {
        proof {
            assert(field@.subrange(0, field@.len() as int) =~= field@);
        }
        parse_digits(field, 0, u64::MAX)
    }
}

/// One digit as text.
fn digit_text(d: u64) -> (text: &'static str)
    requires
        d <= 9,
    ensures
        text@ == seq![digit_char(d as int)],
{
    proof {
        reveal_strlit("0");
        reveal_strlit("1");
        reveal_strlit("2");
        reveal_strlit("3");
        reveal_strlit("4");
        reveal_strlit("5");
        reveal_strlit("6");
        reveal_strlit("7");
        reveal_strlit("8");
        reveal_strlit("9");
    }
    if d == 0 {
        "0"
    } else if d == 1 {
        "1"
    } else if d == 2 {
        "2"
    } else if d == 3 {
        "3"
    } else if d == 4 {
        "4"
    } else if d == 5 {
        "5"
    } else if d == 6 {
        "6"
    } else if d == 7 {
        "7"
    } else if d == 8 {
        "8"
    } else {
        "9"
    }
}

/// Appends the digits of `n` to `out`.
pub fn push_decimal(out: &mut String, n: u64)
    ensures
        final(out)@ == old(out)@ + decimal_digits(n as nat),
    decreases n,
{
    if n >= 10 {
        push_decimal(out, n / 10);
    }
    out.append(digit_text(n % 10));
}

/// `text` with every occurrence of `token` replaced by `value`, reading from
/// the left, each occurrence starting after the end of the one before it.
/// An empty token occurs nowhere.
pub open spec fn replaced(text: Seq<char>, token: Seq<char>, value: Seq<char>) -> Seq<char>
    decreases text.len(),
{
    if token.len() == 0 || text.len() < token.len() {
        text
    } else if text.take(token.len() as int) =~= token {
        value + replaced(text.skip(token.len() as int), token, value)
    } else {
        seq![text[0]] + replaced(text.skip(1), token, value)
    }
}

/// Whether `token` stands in `text` at index `at`.
fn occurs_at(text: &Vec<char>, at: usize, token: &Vec<char>) -> (b: bool)
    requires
        at + token@.len() <= text@.len(),
    ensures
        b == (text@.skip(at as int).take(token@.len() as int) =~= token@),
{
    let n = text.len();
    let m = token.len();
    let ghost window = text@.skip(at as int).take(m as int);
    let mut j: usize = 0;
    while j < m
        invariant
            n == text@.len(),
            m == token@.len(),
            at + m <= n,
            j <= m,
            window == text@.skip(at as int).take(m as int),
            forall|k: int| 0 <= k < j ==> window[k] == token@[k],
        decreases m - j,
    {
        if text[at + j] != token[j] {
            return false;
        }
        j += 1;
    }
    true
}

/// Replaces every occurrence of `token` in `text` by `value`.
pub fn replace_all(text: &str, token: &str, value: &str) -> (out: String)
    ensures
        out@ == replaced(text@, token@, value@),
{
    let chars = chars_of(text);
    let pattern = chars_of(token);
    let n = chars.len();
    let m = pattern.len();
    let mut out = String::new();
    if m == 0 || n < m {
        out.append(text);
        return out;
    }
    let ghost whole = replaced(text@, token@, value@);
    let mut run: usize = 0;
    let mut i: usize = 0;
    proof {
        assert(chars@.skip(0) =~= chars@);
    }
    while i <= n - m
        invariant
            chars@ == text@,
            pattern@ == token@,
            n == chars@.len(),
            m == pattern@.len(),
            0 < m <= n,
            run <= i <= n,
            whole == replaced(text@, token@, value@),
            out@ + chars@.subrange(run as int, i as int) + replaced(
                chars@.skip(i as int),
                token@,
                value@,
            ) == whole,
        decreases n - i,
    {
        let ghost rest = chars@.skip(i as int);
        if occurs_at(&chars, i, &pattern) {
            out.append(text.substring_char(run, i));
            out.append(value);
            proof {
                assert(rest.skip(m as int) =~= chars@.skip(i + m));
            }
            i += m;
            run = i;
        } else {
            proof {
                assert(rest.skip(1) =~= chars@.skip(i + 1));
            }
            i += 1;
        }
    }
    out.append(text.substring_char(run, n));
    out
}

} // verus!
