//! The checks the server's configuration goes through.

use vstd::prelude::*;

use crate::text::{chars_of, concat2, decimal, digit};

verus! {

/// Whether `c` is a decimal digit.
pub open spec fn is_digit(c: char) -> bool {
    '0' <= c && c <= '9'
}

/// The value of a string of decimal digits.
pub open spec fn digits_value(s: Seq<char>) -> nat
    decreases s.len(),
{
    if s.len() == 0 {
        0
    } else {
        digits_value(s.drop_last()) * 10 + ((s.last() as u32) - ('0' as u32)) as nat
    }
}

/// The digits of a number as `u16`'s `from_str` reads it: one leading `+`
/// is allowed.
pub open spec fn unsigned_digits(s: Seq<char>) -> Seq<char> {
    if s.len() > 0 && s[0] == '+' {
        s.drop_first()
    } else {
        s
    }
}

/// `s` read as a `u16` the way `str::parse::<u16>` reads it: an optional
/// `+`, then at least one decimal digit, of value at most 65535.
pub open spec fn parse_u16(s: Seq<char>) -> Option<u16> {
    let d = unsigned_digits(s);
    if d.len() > 0 && (forall|i: int| 0 <= i < d.len() ==> is_digit(#[trigger] d[i]))
        && digits_value(d) <= u16::MAX {
        Some(digits_value(d) as u16)
    } else {
        None
    }
}

proof fn lemma_digits_value_grows(s: Seq<char>, j: int)
    requires
        0 <= j <= s.len(),
        forall|i: int| 0 <= i < s.len() ==> is_digit(#[trigger] s[i]),
    ensures
        digits_value(s.take(j)) <= digits_value(s),
    decreases s.len() - j,
{
    if j < s.len() {
        lemma_digits_value_grows(s, j + 1);
        assert(s.take(j + 1).drop_last() =~= s.take(j));
        assert(s.take(j + 1).last() == s[j]);
    } else {
        assert(s.take(j) =~= s);
    }
}

/// `s` read as a TCP port number, as `str::parse::<u16>` reads it.
pub fn parse_port(s: &str) -> (r: Option<u16>)
    ensures
        r == parse_u16(s@),
{
    let all = chars_of(s);
    let start: usize = if all.len() > 0 && all[0] == '+' { 1 } else { 0 };
    let ghost d = unsigned_digits(s@);
    assert(d =~= all@.subrange(start as int, all@.len() as int));
    if start == all.len() {
        return None;
    }
    let mut value: u32 = 0;
    let mut i: usize = start;
    while i < all.len()
        invariant
            all@ == s@,
            d == all@.subrange(start as int, all@.len() as int),
            d == unsigned_digits(s@),
            start <= i <= all.len(),
            forall|k: int| 0 <= k < i - start ==> is_digit(#[trigger] d[k]),
            value == digits_value(d.take(i - start)),
            value <= u16::MAX,
        decreases all.len() - i,
    {
        let c = all[i];
        assert(d[i - start] == c);
        if !('0' <= c && c <= '9') {
            assert(!is_digit(d[i - start]));
            assert(!(forall|k: int| 0 <= k < d.len() ==> is_digit(#[trigger] d[k])));
            return None;
        }
        let digit: u32 = (c as u32) - ('0' as u32);
        assert(d.take(i - start + 1).drop_last() =~= d.take(i - start));
        assert(d.take(i - start + 1).last() == c);
        let next: u32 = value * 10 + digit;
        assert(next == digits_value(d.take(i - start + 1)));
        if next > 65535 {
            proof {
                if forall|k: int| 0 <= k < d.len() ==> is_digit(#[trigger] d[k]) {
                    lemma_digits_value_grows(d, i - start + 1);
                }
            }
            return None;
        }
        value = next;
        i = i + 1;
    }
    assert(d.take(d.len() as int) =~= d);
    Some(value as u16)
}

/// Whether `path` is absolute on Unix: it starts at the root.
pub open spec fn is_absolute(path: Seq<char>) -> bool {
    path.len() > 0 && path[0] == '/'
}

/// The complaint about a master key path that is not absolute.
pub open spec fn relative_key_path_message(path: Seq<char>) -> Seq<char> {
    "VULPECULA_MASTER_KEY_PATH must be an absolute path got "@ + path
}

/// Checks the path of the master key: it must be absolute.
pub fn check_master_key_path(path: &str) -> (r: Result<(), String>)
    ensures
        r is Ok <==> is_absolute(path@),
        r matches Err(m) ==> m@ == relative_key_path_message(path@),
{
    let c = chars_of(path);
    if c.len() > 0 && c[0] == '/' {
        Ok(())
    } else {
        Err(concat2("VULPECULA_MASTER_KEY_PATH must be an absolute path got ", path))
    }
}

} // verus!

verus! {

proof fn lemma_digit(d: nat)
    requires
        d < 10,
    ensures
        is_digit(digit(d)),
        (digit(d) as u32) - ('0' as u32) == d,
{
    if d == 0 {
        assert(digit(0) == '0');
    } else if d == 1 {
        assert(digit(1) == '1');
    } else if d == 2 {
        assert(digit(2) == '2');
    } else if d == 3 {
        assert(digit(3) == '3');
    } else if d == 4 {
        assert(digit(4) == '4');
    } else if d == 5 {
        assert(digit(5) == '5');
    } else if d == 6 {
        assert(digit(6) == '6');
    } else if d == 7 {
        assert(digit(7) == '7');
    } else if d == 8 {
        assert(digit(8) == '8');
    } else {
        assert(digit(9) == '9');
    }
}

proof fn lemma_decimal_digits(n: nat)
    ensures
        decimal(n).len() > 0,
        forall|i: int| 0 <= i < decimal(n).len() ==> is_digit(#[trigger] decimal(n)[i]),
        digits_value(decimal(n)) == n,
    decreases n,
{
    if n < 10 {
        lemma_digit(n);
        assert(decimal(n).drop_last() =~= Seq::<char>::empty());
        assert(digits_value(Seq::<char>::empty()) == 0);
        assert(decimal(n).last() == digit(n));
        assert(digits_value(decimal(n)) == ((digit(n) as u32) - ('0' as u32)) as nat);
    } else {
        lemma_decimal_digits(n / 10);
        lemma_digit(n % 10);
        let s = decimal(n);
        assert(s.drop_last() =~= decimal(n / 10));
        assert(s.last() == digit(n % 10));
        assert forall|i: int| 0 <= i < s.len() implies is_digit(#[trigger] s[i]) by {
            if i < s.len() - 1 {
                assert(s[i] == decimal(n / 10)[i]);
            }
        }
        assert(digits_value(s) == digits_value(decimal(n / 10)) * 10 + ((digit(n % 10) as u32) - ('0' as u32)) as nat);
        assert(digits_value(s) == (n / 10) * 10 + n % 10);
    }
}

/// A port written in decimal, as `u16`'s `Display` writes it, with or
/// without a leading `+`, reads back as that port; a larger number is
/// refused.
pub proof fn law_port_reads_back(n: nat)
    ensures
        n <= u16::MAX ==> parse_u16(decimal(n)) == Some(n as u16),
        n <= u16::MAX ==> parse_u16(seq!['+'] + decimal(n)) == Some(n as u16),
        n > u16::MAX ==> parse_u16(decimal(n)) is None,
{
    lemma_decimal_digits(n);
    let d = decimal(n);
    assert(is_digit(d[0]));
    assert(unsigned_digits(d) == d);
    assert((seq!['+'] + d).drop_first() =~= d);
    assert(unsigned_digits(seq!['+'] + d) == d);
}

} // verus!
