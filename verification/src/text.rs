//! Whole numbers in decimal: writing them into a line of text and reading them back.
use vstd::prelude::*;

verus! {

/// The digit that stands for `d`.
pub open spec fn digit_char(d: int) -> char {
    (('0' as int) + d) as char
}

pub open spec fn is_digit(c: char) -> bool {
    '0' <= c <= '9'
}

/// `n` in decimal, without leading zeros.
pub open spec fn decimal(n: nat) -> Seq<char>
    decreases n,
{
    if n < 10 {
        seq![digit_char(n as int)]
    } else {
        decimal(n / 10).push(digit_char((n % 10) as int))
    }
}

/// The number that a run of digits stands for.
pub open spec fn digits_value(digits: Seq<char>) -> int
    decreases digits.len(),
{
    if digits.len() == 0 {
        0
    } else {
        digits_value(digits.drop_last()) * 10 + (digits.last() as int - '0' as int)
    }
}

pub open spec fn all_digits(s: Seq<char>) -> bool {
    forall|i: int| 0 <= i < s.len() ==> is_digit(#[trigger] s[i])
}

/// The number that an optional sign and at least one digit stand for; nothing for any other
/// text.
pub open spec fn signed_value(s: Seq<char>) -> Option<int> {
    let signed = s.len() > 0 && (s[0] == '-' || s[0] == '+');
    let digits = if signed {
        s.skip(1)
    } else {
        s
    };
    if digits.len() > 0 && all_digits(digits) {
        Some(
            if signed && s[0] == '-' {
                -digits_value(digits)
            } else {
                digits_value(digits)
            },
        )
    } else {
        None
    }
}

/// Calls `str::parse::<i32>`. An optional sign followed by digits only is read as the number
/// that it stands for, where that is an `i32`; any other text is not read.
#[verifier::external_body]
pub(crate) fn parse_i32(s: &str) -> (r: Option<i32>)
    ensures
        match signed_value(s@) {
            Some(v) => if i32::MIN <= v <= i32::MAX {
                r == Some(v as i32)
            } else {
                r is None
            },
            None => r is None,
        },
{
    match s.parse::<i32>() {
        Ok(v) => Some(v),
        Err(_) => None,
    }
}

/// Writes `n` at the end of `out`.
pub fn append_decimal(out: &mut String, n: u64)
    ensures
        final(out)@ == old(out)@ + decimal(n as nat),
    decreases n,
{
    let ghost before = out@;
    if n >= 10 {
        append_decimal(out, n / 10);
    }
    append_digit(out, n % 10);
    assert(out@ =~= before + decimal(n as nat));
}

/// Writes one digit at the end of `out`.
fn append_digit(out: &mut String, d: u64)
    requires
        d < 10,
    ensures
        final(out)@ == old(out)@.push(digit_char(d as int)),
{
    let digit: &str = if d == 0 {
        "0"
    } else if d == 1 {
        "1"
    } else if d == 2 {
        "2"
    } else if d == 3 {
        "3"
    } else if d == 4 {
        "4"
    } else if d == 5 {
        "5"
    } else if d == 6 {
        "6"
    } else if d == 7 {
        "7"
    } else if d == 8 {
        "8"
    } else {
        "9"
    };
    proof {
        reveal_strlit("0");
        reveal_strlit("1");
        reveal_strlit("2");
        reveal_strlit("3");
        reveal_strlit("4");
        reveal_strlit("5");
        reveal_strlit("6");
        reveal_strlit("7");
        reveal_strlit("8");
        reveal_strlit("9");
    }
    let ghost before = out@;
    out.append(digit);
    assert(out@ =~= before.push(digit_char(d as int)));
}

proof fn lemma_decimal_digits(n: nat)
    ensures
        decimal(n).len() > 0,
        all_digits(decimal(n)),
        digits_value(decimal(n)) == n,
    decreases n,
{
    if n < 10 {
        let s = decimal(n);
        assert(s.drop_last() =~= Seq::<char>::empty());
        assert(digits_value(s.drop_last()) == 0);
    } else {
        lemma_decimal_digits(n / 10);
        let s = decimal(n);
        assert(s.drop_last() =~= decimal(n / 10));
    }
}

/// A number that was written in decimal is read back as itself.
pub proof fn law_decimal_round_trip(n: nat)
    ensures
        signed_value(decimal(n)) == Some(n as int),
{
    lemma_decimal_digits(n);
    assert(is_digit(decimal(n)[0]));
}

/// What is written for a number is digits only, with no zero in front unless it is all, and
/// read digit by digit, each shifting the ones before it up, it is the number.
pub proof fn law_decimal_is_positional(n: nat)
    ensures
        decimal(n).len() > 0,
        forall|i: int| 0 <= i < decimal(n).len() ==> '0' <= #[trigger] decimal(n)[i] <= '9',
        decimal(n).len() > 1 ==> decimal(n)[0] != '0',
        decimal(n).fold_left(0int, |v: int, c: char| v * 10 + (c as int - 48)) == n,
    decreases n,
{
    let f = |v: int, c: char| v * 10 + (c as int - 48);
    let s = decimal(n);
    if n < 10 {
        assert(s.drop_last() =~= Seq::<char>::empty());
        assert(s.drop_last().fold_left(0int, f) == 0);
    } else {
        law_decimal_is_positional(n / 10);
        assert(s.drop_last() =~= decimal(n / 10));
        if decimal(n / 10).len() == 1 {
            let d = decimal(n / 10);
            assert(d.drop_last() =~= Seq::<char>::empty());
            assert(d.drop_last().fold_left(0int, f) == 0);
            assert(d.fold_left(0int, f) == d.last() as int - 48);
        }
        assert(s[0] == decimal(n / 10)[0]);
    }
}

/// A run of digits with no zero in front, unless it is all, is what is written for the number
/// that it stands for: there is one way to write a number.
pub proof fn law_decimal_is_unique(s: Seq<char>, n: nat)
    requires
        s.len() > 0,
        forall|i: int| 0 <= i < s.len() ==> '0' <= #[trigger] s[i] <= '9',
        s.len() > 1 ==> s[0] != '0',
        s.fold_left(0int, |v: int, c: char| v * 10 + (c as int - 48)) == n,
    ensures
        s == decimal(n),
    decreases s.len(),
{
    let f = |v: int, c: char| v * 10 + (c as int - 48);
    let rest = s.drop_last();
    if s.len() == 1 {
        assert(rest =~= Seq::<char>::empty());
        assert(rest.fold_left(0int, f) == 0);
        assert(s =~= decimal(n));
    } else {
        let m = rest.fold_left(0int, f);
        assert(rest[0] == s[0]);
        lemma_positional_is_natural(rest);
        law_decimal_is_unique(rest, m as nat);
        if m == 0 {
            assert(rest[0] == '0');
        }
        assert(s =~= decimal(n));
    }
}

proof fn lemma_positional_is_natural(s: Seq<char>)
    requires
        forall|i: int| 0 <= i < s.len() ==> '0' <= #[trigger] s[i] <= '9',
    ensures
        s.fold_left(0int, |v: int, c: char| v * 10 + (c as int - 48)) >= 0,
    decreases s.len(),
{
    if s.len() > 0 {
        assert(s.last() == s[s.len() - 1]);
        lemma_positional_is_natural(s.drop_last());
    }
}

/// Writing a number leaves what stood there and adds the one way to write the number.
pub proof fn law_append_decimal_adds_the_number(out: &mut String, n: u64, digits: Seq<char>)
    requires
        call_ensures(append_decimal, (out, n), ()),
        digits.len() > 0,
        forall|i: int| 0 <= i < digits.len() ==> '0' <= #[trigger] digits[i] <= '9',
        digits.len() > 1 ==> digits[0] != '0',
        digits.fold_left(0int, |v: int, c: char| v * 10 + (c as int - 48)) == n,
    ensures
        final(out)@ == old(out)@ + digits,
{
    law_decimal_is_unique(digits, n as nat);
}

pub proof fn lemma_digits_value_is_positional(s: Seq<char>)
    requires
        forall|i: int| 0 <= i < s.len() ==> '0' <= #[trigger] s[i] <= '9',
    ensures
        digits_value(s) == s.fold_left(0int, |v: int, c: char| v * 10 + (c as int - 48)),
        digits_value(s) >= 0,
        all_digits(s),
    decreases s.len(),
{
    if s.len() > 0 {
        assert(s.last() == s[s.len() - 1]);
        lemma_digits_value_is_positional(s.drop_last());
    }
}

} // verus!
