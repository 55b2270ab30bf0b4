use vstd::prelude::*;

verus! {

/// Relies on `<str as PartialEq>::eq`: two string slices compare equal
/// exactly when their characters do.
#[verifier::external_body]
pub(crate) fn str_eq(a: &str, b: &str) -> (r: bool)
    ensures
        r == (a@ == b@),
{
    a == b
}

/// The decimal digit character for `d`.
pub open spec fn decimal_digit(d: int) -> char
    recommends
        0 <= d < 10,
{
    if d == 0 {
        '0'
    } else if d == 1 {
        '1'
    } else if d == 2 {
        '2'
    } else if d == 3 {
        '3'
    } else if d == 4 {
        '4'
    } else if d == 5 {
        '5'
    } else if d == 6 {
        '6'
    } else if d == 7 {
        '7'
    } else if d == 8 {
        '8'
    } else {
        '9'
    }
}

/// The usual decimal rendering of `n`: most significant digit first, no
/// leading zeros except for zero itself.
pub open spec fn decimal_chars(n: nat) -> Seq<char>
    decreases n,
{
    if n < 10 {
        seq![decimal_digit(n as int)]
    } else {
        decimal_chars(n / 10) + seq![decimal_digit((n % 10) as int)]
    }
}

/// Decimal rendering of a signed value: a leading minus sign for negative
/// values, nothing more for the rest.
pub open spec fn signed_decimal_chars(n: int) -> Seq<char> {
    if n < 0 {
        seq!['-'] + decimal_chars((-n) as nat)
    } else {
        decimal_chars(n as nat)
    }
}

fn digit_str(d: u64) -> (r: &'static str)
    requires
        d < 10,
    ensures
        r@ == seq![decimal_digit(d as int)],
{
    let r: &'static str = match d {
        0 => "0",
        1 => "1",
        2 => "2",
        3 => "3",
        4 => "4",
        5 => "5",
        6 => "6",
        7 => "7",
        8 => "8",
        _ => "9",
    };
    proof {
        reveal_strlit("0");
        reveal_strlit("1");
        reveal_strlit("2");
        reveal_strlit("3");
        reveal_strlit("4");
        reveal_strlit("5");
        reveal_strlit("6");
        reveal_strlit("7");
        reveal_strlit("8");
        reveal_strlit("9");
        assert(r@ =~= seq![decimal_digit(d as int)]);
    }
    r
}

fn push_decimal(n: u64, out: &mut String)
    ensures
        final(out)@ == old(out)@ + decimal_chars(n as nat),
    decreases n,
{
    if n >= 10 {
        proof {
            assert(n / 10 < n) by (nonlinear_arith)
                requires
                    n >= 10,
            ;
        }
        push_decimal(n / 10, out);
    }
    let d: u64 = n % 10;
    out.append(digit_str(d));
    proof {
        assert(out@ =~= old(out)@ + decimal_chars(n as nat));
    }
}

/// Renders `n` as decimal text, exactly as `signed_decimal_chars` states it.
pub fn i64_to_decimal(n: i64) -> (s: String)
    ensures
        s@ == signed_decimal_chars(n as int),
{
    let mut out = String::new();
    if n < 0 {
        out.append("-");
        let m: u64 = ((-(n + 1)) as u64) + 1;
        assert(m as nat == (-(n as int)) as nat);
        push_decimal(m, &mut out);
        proof {
            reveal_strlit("-");
            assert(out@ =~= signed_decimal_chars(n as int));
        }
    } else {
        push_decimal(n as u64, &mut out);
    }
    out
}

} // verus!
