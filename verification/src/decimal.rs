//! Decimal text of integers: how `Display` writes an `i64` and how
//! `i64::from_str` reads one back.
use vstd::prelude::*;

verus! {

/// The character of the decimal digit `d` (for `0 <= d < 10`).
pub open spec fn digit_char(d: int) -> char {
    if d == 0 {
        '0'
    } else if d == 1 {
        '1'
    } else if d == 2 {
        '2'
    } else if d == 3 {
        '3'
    } else if d == 4 {
        '4'
    } else if d == 5 {
        '5'
    } else if d == 6 {
        '6'
    } else if d == 7 {
        '7'
    } else if d == 8 {
        '8'
    } else {
        '9'
    }
}

pub open spec fn is_digit(c: char) -> bool {
    '0' <= c && c <= '9'
}

/// The value of a digit character.
pub open spec fn digit_value(c: char) -> int {
    c as int - '0' as int
}

pub open spec fn all_digits(s: Seq<char>) -> bool {
    forall|k: int| 0 <= k < s.len() ==> is_digit(#[trigger] s[k])
}

/// The decimal digits of `n`, most significant first, with no leading zero.
pub open spec fn nat_digits(n: nat) -> Seq<char>
    decreases n,
{
    if n < 10 {
        seq![digit_char(n as int)]
    } else {
        nat_digits(n / 10).push(digit_char((n % 10) as int))
    }
}

/// How `Display` writes the integer `i`: a `-` for a negative number, then its digits.
pub open spec fn int_text(i: int) -> Seq<char> {
    if i < 0 {
        seq!['-'] + nat_digits((-i) as nat)
    } else {
        nat_digits(i as nat)
    }
}

/// The number that a string of digits denotes.
pub open spec fn digits_value(s: Seq<char>) -> int
    decreases s.len(),
{
    if s.len() == 0 {
        0
    } else {
        digits_value(s.drop_last()) * 10 + digit_value(s.last())
    }
}

/// The text after an optional leading sign.
pub open spec fn unsigned_part(s: Seq<char>) -> Seq<char> {
    if s.len() > 0 && (s[0] == '-' || s[0] == '+') {
        s.drop_first()
    } else {
        s
    }
}

/// What `i64::from_str` reads from `s`: an optional `+` or `-`, then at least
/// one digit and nothing else, denoting a number in the range of `i64`.
pub open spec fn parse_i64_text(s: Seq<char>) -> Option<i64> {
    let body = unsigned_part(s);
    if body.len() == 0 || !all_digits(body) {
        None
    } else {
        let v = if s[0] == '-' {
            -digits_value(body)
        } else {
            digits_value(body)
        };
        if i64::MIN <= v && v <= i64::MAX {
            Some(v as i64)
        } else {
            None
        }
    }
}

pub proof fn lemma_digit_char(d: int)
    requires
        0 <= d < 10,
    ensures
        is_digit(digit_char(d)),
        digit_value(digit_char(d)) == d,
{
}

/// The digits of `n` are digits, at least one of them, and denote `n`.
pub proof fn lemma_nat_digits(n: nat)
    ensures
        nat_digits(n).len() >= 1,
        all_digits(nat_digits(n)),
        digits_value(nat_digits(n)) == n,
    decreases n,
{
    if n < 10 {
        lemma_digit_char(n as int);
        let s = nat_digits(n);
        assert(s.drop_last() =~= Seq::<char>::empty());
        assert(digits_value(s.drop_last()) == 0);
    } else {
        lemma_nat_digits(n / 10);
        lemma_digit_char((n % 10) as int);
        let s = nat_digits(n);
        assert(s.drop_last() =~= nat_digits(n / 10));
        assert(s.last() == digit_char((n % 10) as int));
        assert(digits_value(s) == digits_value(nat_digits(n / 10)) * 10 + (n % 10));
        assert forall|k: int| 0 <= k < s.len() implies is_digit(#[trigger] s[k]) by {
            if k < s.len() - 1 {
                assert(s[k] == nat_digits(n / 10)[k]);
            }
        }
    }
}

/// A longer string of digits denotes at least as much as any of its prefixes.
pub proof fn lemma_digits_value_prefix(s: Seq<char>, k: int)
    requires
        all_digits(s),
        0 <= k <= s.len(),
    ensures
        digits_value(s.take(k)) <= digits_value(s),
        0 <= digits_value(s.take(k)),
    decreases s.len(),
{
    if s.len() == 0 {
        assert(s.take(k) =~= s);
    } else if k == s.len() {
        assert(s.take(k) =~= s);
        lemma_digits_value_prefix(s.drop_last(), k - 1);
        assert(s.drop_last().take(k - 1) =~= s.take(k - 1));
    } else {
        let t = s.drop_last();
        assert(all_digits(t)) by {
            assert forall|j: int| 0 <= j < t.len() implies is_digit(#[trigger] t[j]) by {
                assert(t[j] == s[j]);
            }
        }
        lemma_digits_value_prefix(t, k);
        assert(t.take(k) =~= s.take(k));
        lemma_digits_value_prefix(t, t.len() as int);
        assert(t.take(t.len() as int) =~= t);
        assert(is_digit(s[s.len() - 1]));
    }
}

/// Reading back what `int_text` writes gives the number again.
pub proof fn lemma_parse_int_text(i: i64)
    ensures
        parse_i64_text(int_text(i as int)) == Some(i),
{
    let t = int_text(i as int);
    if i < 0 {
        let m = (-(i as int)) as nat;
        lemma_nat_digits(m);
        assert(t[0] == '-');
        assert(unsigned_part(t) =~= nat_digits(m));
    } else {
        lemma_nat_digits(i as nat);
        let s = nat_digits(i as nat);
        assert(is_digit(s[0]));
        assert(unsigned_part(t) =~= s);
    }
}

/// Appends the digit `d` to `s`.
fn push_digit(s: &mut String, d: u64)
    requires
        d < 10,
    ensures
        final(s)@ == old(s)@.push(digit_char(d as int)),
{
    let lit = if d == 0 {
        "0"
    } else if d == 1 {
        "1"
    } else if d == 2 {
        "2"
    } else if d == 3 {
        "3"
    } else if d == 4 {
        "4"
    } else if d == 5 {
        "5"
    } else if d == 6 {
        "6"
    } else if d == 7 {
        "7"
    } else if d == 8 {
        "8"
    } else {
        "9"
    };
    proof {
        reveal_strlit("0");
        reveal_strlit("1");
        reveal_strlit("2");
        reveal_strlit("3");
        reveal_strlit("4");
        reveal_strlit("5");
        reveal_strlit("6");
        reveal_strlit("7");
        reveal_strlit("8");
        reveal_strlit("9");
    }
    assert(lit@ =~= seq![digit_char(d as int)]);
    s.append(lit);
}

/// Appends the decimal digits of `n` to `s`.
fn append_digits(s: &mut String, n: u64)
    ensures
        final(s)@ == old(s)@ + nat_digits(n as nat),
    decreases n,
{
    if n < 10 {
        push_digit(s, n);
        assert(old(s)@.push(digit_char(n as int)) =~= old(s)@ + nat_digits(n as nat));
    } else {
        append_digits(s, n / 10);
        push_digit(s, n % 10);
        assert((old(s)@ + nat_digits((n / 10) as nat)).push(digit_char((n % 10) as int)) =~= old(
            s,
        )@ + nat_digits(n as nat));
    }
}

/// Writes `n` in decimal, as `Display` does.
pub fn i64_text(n: i64) -> (r: String)
    ensures
        r@ == int_text(n as int),
{
    let mut s = String::new();
    if n < 0 {
        proof {
            reveal_strlit("-");
        }
        s.append("-");
        let m: u64 = (0i128 - n as i128) as u64;
        append_digits(&mut s, m);
        assert(s@ =~= int_text(n as int));
    } else {
        append_digits(&mut s, n as u64);
        assert(s@ =~= int_text(n as int));
    }
    s
}

/// Reads a decimal integer as `i64::from_str` does; `None` where it fails.
pub fn parse_i64(s: &str) -> (r: Option<i64>)
    ensures
        r == parse_i64_text(s@),
{
    let len = s.unicode_len();
    if len == 0 {
        return None;
    }
    let first = s.get_char(0);
    let start: usize = if first == '-' || first == '+' {
        1
    } else {
        0
    };
    let ghost body = unsigned_part(s@);
    assert(body =~= s@.skip(start as int));
    if start == len {
        return None;
    }
    let mut acc: u64 = 0;
    let mut i: usize = start;
    while i < len
        invariant
            start <= i <= len,
            len == s@.len(),
            body == s@.skip(start as int),
            body == unsigned_part(s@),
            first == s@[0],
            all_digits(body.take(i - start)),
            acc == digits_value(body.take(i - start)),
            acc <= 9223372036854775808u64,
        decreases len - i,
    {
        let c = s.get_char(i);
        assert(c == body[i - start]);
        if !('0' <= c && c <= '9') {
            assert(!is_digit(body[i - start]));
            return None;
        }
        let d: u64 = (c as u32 - '0' as u32) as u64;
        let ghost k = i - start;
        assert(body.take(k + 1).drop_last() =~= body.take(k));
        assert(digits_value(body.take(k + 1)) == acc * 10 + d);
        assert(all_digits(body.take(k + 1))) by {
            assert forall|j: int| 0 <= j < k + 1 implies is_digit(#[trigger] body.take(k + 1)[j]) by {
                if j < k {
                    assert(body.take(k + 1)[j] == body.take(k)[j]);
                }
            }
        }
        if acc > 922337203685477580u64 || (acc == 922337203685477580u64 && d > 8) {
            proof {
                if all_digits(body) {
                    lemma_digits_value_prefix(body, k + 1);
                    assert(digits_value(body) > 9223372036854775808);
                }
            }
            return None;
        }
        acc = acc * 10 + d;
        i = i + 1;
    }
    assert(body.take(body.len() as int) =~= body);
    if first == '-' {
        if acc == 9223372036854775808u64 {
            Some(i64::MIN)
        } else {
            Some(-(acc as i64))
        }
    } else if acc > 9223372036854775807u64 {
        None
    } else {
        Some(acc as i64)
    }
}

} // verus!
