//! Small text routines: digit values, numerals in a radix, decimal rendering
//! and removal of `0x` prefixes.

use vstd::prelude::*;

verus! {

/// The value of `c` as a digit, for radices up to 36: `0`-`9`, then `a`-`z`
/// or `A`-`Z` for ten onwards. `None` for any other character.
pub open spec fn digit_value(c: char) -> Option<nat> {
    if '0' <= c && c <= '9' {
        Some((c as nat - '0' as nat) as nat)
    } else if 'a' <= c && c <= 'z' {
        Some((c as nat - 'a' as nat + 10) as nat)
    } else if 'A' <= c && c <= 'Z' {
        Some((c as nat - 'A' as nat + 10) as nat)
    } else {
        None
    }
}

/// `c` is a digit of `radix`.
pub open spec fn is_digit_in(c: char, radix: nat) -> bool {
    digit_value(c) is Some && digit_value(c)->0 < radix
}

/// Every character of `s` is a digit of `radix`.
pub open spec fn all_digits_in(s: Seq<char>, radix: nat) -> bool {
    forall|i: int| 0 <= i < s.len() ==> is_digit_in(#[trigger] s[i], radix)
}

/// The value of the numeral `s` in `radix`, most significant digit first.
pub open spec fn numeral_value(s: Seq<char>, radix: nat) -> nat
    decreases s.len(),
{
    if s.len() == 0 {
        0
    } else {
        numeral_value(s.drop_last(), radix) * radix + digit_value(s.last())->0
    }
}

/// The digits of an unsigned numeral: one leading `+` is allowed.
pub open spec fn unsigned_digits(s: Seq<char>) -> Seq<char> {
    if s.len() > 0 && s[0] == '+' {
        s.drop_first()
    } else {
        s
    }
}

/// What reading `s` as an unsigned 32-bit numeral in `radix` gives: an
/// optional `+`, then at least one digit, with a value that fits in `u32`.
pub open spec fn parse_u32_spec(s: Seq<char>, radix: nat) -> Option<u32> {
    let d = unsigned_digits(s);
    if d.len() > 0 && all_digits_in(d, radix) && numeral_value(d, radix) <= u32::MAX {
        Some(numeral_value(d, radix) as u32)
    } else {
        None
    }
}

fn digit_of(c: char, radix: u32) -> (r: Option<u32>)
    requires
        2 <= radix <= 36,
    ensures
        r is Some <==> is_digit_in(c, radix as nat),
        r is Some ==> r->0 as nat == digit_value(c)->0,
{
    let v: u32 = if '0' <= c && c <= '9' {
        (c as u32) - ('0' as u32)
    } else if 'a' <= c && c <= 'z' {
        (c as u32) - ('a' as u32) + 10
    } else if 'A' <= c && c <= 'Z' {
        (c as u32) - ('A' as u32) + 10
    } else {
        return None;
    };
    if v < radix {
        Some(v)
    } else {
        None
    }
}

proof fn lemma_numeral_grows(s: Seq<char>, radix: nat)
    requires
        s.len() > 0,
        radix >= 1,
    ensures
        numeral_value(s, radix) >= numeral_value(s.drop_last(), radix),
{
    let p = numeral_value(s.drop_last(), radix);
    assert(p * radix >= p) by (nonlinear_arith)
        requires
            radix >= 1,
    ;
}

/// Reads `s` as an unsigned 32-bit numeral in `radix`, as `u32::from_str_radix`
/// does.
pub fn parse_u32_radix(s: &str, radix: u32) -> (r: Option<u32>)
    requires
        2 <= radix <= 36,
    ensures
        r == parse_u32_spec(s@, radix as nat),
{
    let n = s.unicode_len();
    let mut start: usize = 0;
    if n > 0 && s.get_char(0) == '+' {
        start = 1;
    }
    let ghost d = unsigned_digits(s@);
    assert(d =~= s@.subrange(start as int, n as int));
    if start == n {
        return None;
    }
    let mut acc: u64 = 0;
    let mut overflow = false;
    let mut i: usize = start;
    while i < n
        invariant
            start <= i <= n,
            n == s@.len(),
            d == s@.subrange(start as int, n as int),
            d == unsigned_digits(s@),
            2 <= radix <= 36,
            all_digits_in(d.subrange(0, i - start), radix as nat),
            !overflow ==> acc as nat == numeral_value(d.subrange(0, i - start), radix as nat)
                && acc <= u32::MAX,
            overflow ==> numeral_value(d.subrange(0, i - start), radix as nat) > u32::MAX,
        decreases n - i,
    {
        let c = s.get_char(i);
        let ghost prev = d.subrange(0, i - start);
        let ghost next = d.subrange(0, i + 1 - start);
        assert(next.drop_last() =~= prev);
        assert(next.last() == c);
        match digit_of(c, radix) {
            None => {
                assert(d[i - start] == c);
                assert(!is_digit_in(d[i - start], radix as nat));
                assert(!all_digits_in(d, radix as nat));
                return None;
            },
            Some(v) => {
                if !overflow {
                    assert(acc * (radix as u64) <= 36 * (u32::MAX as u64)) by (nonlinear_arith)
                        requires
                            acc <= u32::MAX,
                            radix <= 36,
                    ;
                    let t: u64 = acc * (radix as u64) + (v as u64);
                    if t > u32::MAX as u64 {
                        overflow = true;
                    } else {
                        acc = t;
                    }
                } else {
                    proof {
                        lemma_numeral_grows(next, radix as nat);
                    }
                }
            },
        }
        assert(all_digits_in(next, radix as nat)) by {
            assert forall|j: int| 0 <= j < next.len() implies is_digit_in(#[trigger] next[j], radix as nat) by {
                if j < prev.len() {
                    assert(next[j] == prev[j]);
                }
            }
        }
        i = i + 1;
    }
    assert(d.subrange(0, n - start) =~= d);
    if overflow {
        None
    } else {
        Some(acc as u32)
    }
}

/// `s` with every leading `0x` removed, as `str::trim_start_matches("0x")`
/// leaves it.
pub open spec fn strip_hex_prefixes(s: Seq<char>) -> Seq<char>
    decreases s.len(),
{
    if s.len() >= 2 && s[0] == '0' && s[1] == 'x' {
        strip_hex_prefixes(s.subrange(2, s.len() as int))
    } else {
        s
    }
}

/// Removes every leading `0x` from `s`.
pub fn trim_hex_prefixes(s: &str) -> (r: &str)
    ensures
        r@ == strip_hex_prefixes(s@),
{
    let n = s.unicode_len();
    let mut i: usize = 0;
    assert(s@.subrange(0, n as int) =~= s@);
    while n - i >= 2 && s.get_char(i) == '0' && s.get_char(i + 1) == 'x'
        invariant
            i <= n,
            n == s@.len(),
            strip_hex_prefixes(s@.subrange(i as int, n as int)) == strip_hex_prefixes(s@),
        decreases n - i,
    {
        let ghost rest = s@.subrange(i as int, n as int);
        assert(rest.subrange(2, rest.len() as int) =~= s@.subrange(i + 2, n as int));
        i = i + 2;
    }
    let r = s.substring_char(i, n);
    r
}

/// The decimal character of a digit below ten.
pub open spec fn decimal_char(d: nat) -> char {
    if d < 10 {
        (d + '0' as nat) as char
    } else {
        '0'
    }
}

/// The decimal numeral of `n`, without leading zeros.
pub open spec fn decimal_of(n: nat) -> Seq<char>
    decreases n,
{
    if n < 10 {
        seq![decimal_char(n)]
    } else {
        decimal_of(n / 10) + seq![decimal_char(n % 10)]
    }
}

fn decimal_digit(d: u32) -> (r: &'static str)
    requires
        d < 10,
    ensures
        r@ == seq![decimal_char(d as nat)],
{
    proof {
        reveal_strlit("0");
        reveal_strlit("1");
        reveal_strlit("2");
        reveal_strlit("3");
        reveal_strlit("4");
        reveal_strlit("5");
        reveal_strlit("6");
        reveal_strlit("7");
        reveal_strlit("8");
        reveal_strlit("9");
    }
    let r = match d {
        0 => "0",
        1 => "1",
        2 => "2",
        3 => "3",
        4 => "4",
        5 => "5",
        6 => "6",
        7 => "7",
        8 => "8",
        _ => "9",
    };
    assert(r@ =~= seq![decimal_char(d as nat)]);
    r
}

/// Appends the decimal numeral of `n` to `out`.
pub fn push_decimal(out: &mut String, n: u32)
    ensures
        final(out)@ == old(out)@ + decimal_of(n as nat),
    decreases n,
{
    if n >= 10 {
        push_decimal(out, n / 10);
    }
    out.append(decimal_digit(n % 10));
    assert(final(out)@ =~= old(out)@ + decimal_of(n as nat));
}

/// Whether `a` and `b` hold the same characters.
pub fn same_text(a: &str, b: &str) -> (r: bool)
    ensures
        r == (a@ == b@),
{
    String::from_str(a) == String::from_str(b)
}

/// The text of an optional string.
pub open spec fn opt_text(o: Option<String>) -> Option<Seq<char>> {
    match o {
        Some(s) => Some(s@),
        None => None,
    }
}

} // verus!
