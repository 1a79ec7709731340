//! Decimal text of integers.
use vstd::prelude::*;

verus! {

/// The character of a decimal digit.
pub open spec fn digit_char(d: nat) -> char
    recommends
        d < 10,
{
    seq!['0', '1', '2', '3', '4', '5', '6', '7', '8', '9'][d as int]
}

/// Whether `c` is one of `0` to `9`.
pub open spec fn is_digit(c: char) -> bool {
    '0' <= c && c <= '9'
}

/// The value of a decimal digit character.
pub open spec fn digit_value(c: char) -> int {
    (c as u32) as int - ('0' as u32) as int
}

/// The value of a string of decimal digits, most significant first.
pub open spec fn digits_value(s: Seq<char>) -> int
    decreases s.len(),
{
    if s.len() == 0 {
        0
    } else {
        digits_value(s.drop_last()) * 10 + digit_value(s.last())
    }
}

/// Decimal digits of a natural number, most significant first, without
/// leading zeros.
pub open spec fn nat_text(m: nat) -> Seq<char>
    decreases m,
{
    if m < 10 {
        seq![digit_char(m)]
    } else {
        nat_text(m / 10).push(digit_char(m % 10))
    }
}

/// Decimal text of an integer: a `-` before the digits of its magnitude when
/// it is negative.
pub open spec fn int_text(n: int) -> Seq<char> {
    if n < 0 {
        seq!['-'] + nat_text((-n) as nat)
    } else {
        nat_text(n as nat)
    }
}

proof fn lemma_digit_char(d: nat)
    requires
        d < 10,
    ensures
        is_digit(digit_char(d)),
        digit_value(digit_char(d)) == d,
        digit_char(d) == '0' <==> d == 0,
{
    if d == 0 {} else if d == 1 {} else if d == 2 {} else if d == 3 {} else if d == 4 {
    } else if d == 5 {} else if d == 6 {} else if d == 7 {} else if d == 8 {} else {}
}

/// The digits of `m` are decimal digits that read back as `m`, and the first
/// is a zero only for zero itself.
pub proof fn lemma_nat_text(m: nat)
    ensures
        nat_text(m).len() >= 1,
        forall|i: int| 0 <= i < nat_text(m).len() ==> is_digit(#[trigger] nat_text(m)[i]),
        digits_value(nat_text(m)) == m,
        nat_text(m)[0] == '0' <==> m == 0,
    decreases m,
{
    if m < 10 {
        lemma_digit_char(m);
        assert(nat_text(m).drop_last() =~= Seq::<char>::empty());
        assert(digits_value(Seq::<char>::empty()) == 0);
        assert(nat_text(m).last() == digit_char(m));
    } else {
        lemma_nat_text(m / 10);
        lemma_digit_char(m % 10);
        assert(nat_text(m).drop_last() =~= nat_text(m / 10));
        assert(digits_value(nat_text(m)) == (m / 10) as int * 10 + (m % 10) as int);
    }
}

fn digit_str(d: u32) -> (r: &'static str)
    requires
        d < 10,
    ensures
        r@ == seq![digit_char(d as nat)],
{
    proof {
        reveal_strlit("0");
        reveal_strlit("1");
        reveal_strlit("2");
        reveal_strlit("3");
        reveal_strlit("4");
        reveal_strlit("5");
        reveal_strlit("6");
        reveal_strlit("7");
        reveal_strlit("8");
        reveal_strlit("9");
    }
    let r = if d == 0 {
        "0"
    } else if d == 1 {
        "1"
    } else if d == 2 {
        "2"
    } else if d == 3 {
        "3"
    } else if d == 4 {
        "4"
    } else if d == 5 {
        "5"
    } else if d == 6 {
        "6"
    } else if d == 7 {
        "7"
    } else if d == 8 {
        "8"
    } else {
        "9"
    };
    assert(r@ =~= seq![digit_char(d as nat)]);
    r
}

fn append_nat_text(out: &mut String, m: u32)
    ensures
        final(out)@ == old(out)@ + nat_text(m as nat),
    decreases m,
{
    let ghost before = out@;
    if m >= 10 {
        append_nat_text(out, m / 10);
    }
    out.append(digit_str(m % 10));
    proof {
        if m >= 10 {
            assert(out@ =~= before + nat_text(m as nat));
        } else {
            assert(out@ =~= before + nat_text(m as nat));
        }
    }
}

/// The decimal text of `n`.
pub fn integer_text(n: i32) -> (r: String)
    ensures
        r@ == int_text(n as int),
{
    let mut out = String::new();
    let m: u32;
    if n < 0 {
        proof {
            reveal_strlit("-");
        }
        out.append("-");
        m = (0i64 - n as i64) as u32;
    } else {
        m = n as u32;
    }
    append_nat_text(&mut out, m);
    assert(out@ =~= int_text(n as int));
    out
}

} // verus!
