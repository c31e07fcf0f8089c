//! Decimal rendering of integers, used for the conversation component of the
//! composite sort key.

use vstd::prelude::*;
use vstd::string::StringExecFns;

verus! {

/// The character for a single decimal digit.
pub open spec fn digit_char(d: int) -> char {
    if d == 0 {
        '0'
    } else if d == 1 {
        '1'
    } else if d == 2 {
        '2'
    } else if d == 3 {
        '3'
    } else if d == 4 {
        '4'
    } else if d == 5 {
        '5'
    } else if d == 6 {
        '6'
    } else if d == 7 {
        '7'
    } else if d == 8 {
        '8'
    } else {
        '9'
    }
}

/// The usual decimal rendering of a natural number, most significant digit first,
/// with no leading zeros (a lone `0` for zero).
pub open spec fn dec_str(n: nat) -> Seq<char>
    decreases n,
{
    if n < 10 {
        seq![digit_char(n as int)]
    } else {
        dec_str(n / 10) + seq![digit_char((n % 10) as int)]
    }
}

/// Decimal rendering of a signed value: a leading `-` for negatives.
pub open spec fn int_dec_str(n: int) -> Seq<char> {
    if n < 0 {
        seq!['-'] + dec_str((-n) as nat)
    } else {
        dec_str(n as nat)
    }
}

/// Low-order-first digit accumulator read back most significant digit first.
pub open spec fn rev_digits(ds: Seq<u64>) -> Seq<char>
    decreases ds.len(),
{
    if ds.len() == 0 {
        Seq::empty()
    } else {
        rev_digits(ds.drop_first()) + seq![digit_char(ds.first() as int)]
    }
}

proof fn lemma_rev_digits_push(ds: Seq<u64>, d: u64)
    ensures
        rev_digits(ds.push(d)) == seq![digit_char(d as int)] + rev_digits(ds),
    decreases ds.len(),
{
    let p = ds.push(d);
    if ds.len() == 0 {
        assert(p.drop_first() =~= Seq::<u64>::empty());
        assert(rev_digits(p.drop_first()) =~= Seq::<char>::empty());
        assert(p.first() == d);
        assert(rev_digits(p) == rev_digits(p.drop_first()) + seq![digit_char(p.first() as int)]);
        assert(rev_digits(ds) =~= Seq::<char>::empty());
        assert(rev_digits(p) =~= seq![digit_char(d as int)] + rev_digits(ds));
    } else {
        assert(p.drop_first() =~= ds.drop_first().push(d));
        lemma_rev_digits_push(ds.drop_first(), d);
        assert(p.first() == ds.first());
        assert(rev_digits(p) == rev_digits(p.drop_first()) + seq![digit_char(p.first() as int)]);
        assert(rev_digits(p.drop_first()) == seq![digit_char(d as int)] + rev_digits(
            ds.drop_first(),
        ));
        assert(rev_digits(ds) == rev_digits(ds.drop_first()) + seq![digit_char(ds.first() as int)]);
        assert(rev_digits(p) =~= seq![digit_char(d as int)] + rev_digits(ds));
    }
}

fn digit_str(d: u64) -> (r: &'static str)
    requires
        d < 10,
    ensures
        r@ == seq![digit_char(d as int)],
{
    proof {
        reveal_strlit("0");
        reveal_strlit("1");
        reveal_strlit("2");
        reveal_strlit("3");
        reveal_strlit("4");
        reveal_strlit("5");
        reveal_strlit("6");
        reveal_strlit("7");
        reveal_strlit("8");
        reveal_strlit("9");
    }
    let r: &'static str = if d == 0 {
        "0"
    } else if d == 1 {
        "1"
    } else if d == 2 {
        "2"
    } else if d == 3 {
        "3"
    } else if d == 4 {
        "4"
    } else if d == 5 {
        "5"
    } else if d == 6 {
        "6"
    } else if d == 7 {
        "7"
    } else if d == 8 {
        "8"
    } else {
        "9"
    };
    proof {
        assert(r@ =~= seq![digit_char(d as int)]);
    }
    r
}

/// Renders an unsigned value in decimal.
pub fn u64_to_string(n: u64) -> (r: String)
    ensures
        r@ == dec_str(n as nat),
{
    let mut digits: Vec<u64> = Vec::new();
    let mut m: u64 = n;
    while m >= 10
        invariant
            forall|j: int| 0 <= j < digits@.len() ==> digits@[j] < 10,
            dec_str(n as nat) == dec_str(m as nat) + rev_digits(digits@),
        decreases m,
    {
        let d: u64 = m % 10;
        proof {
            lemma_rev_digits_push(digits@, d);
            assert(dec_str(m as nat) == dec_str((m / 10) as nat) + seq![
                digit_char((m % 10) as int),
            ]);
            assert(dec_str((m / 10) as nat) + seq![digit_char(d as int)] + rev_digits(digits@)
                =~= dec_str((m / 10) as nat) + rev_digits(digits@.push(d)));
        }
        digits.push(d);
        m = m / 10;
    }
    let d: u64 = m;
    proof {
        lemma_rev_digits_push(digits@, d);
        assert(dec_str(m as nat) + rev_digits(digits@) =~= rev_digits(digits@.push(d)));
    }
    digits.push(d);
    assert(dec_str(n as nat) == rev_digits(digits@));

    let mut s = String::new();
    let mut i: usize = digits.len();
    while i > 0
        invariant
            i <= digits.len(),
            forall|j: int| 0 <= j < digits@.len() ==> digits@[j] < 10,
            dec_str(n as nat) == rev_digits(digits@),
            s@ == rev_digits(digits@.subrange(i as int, digits@.len() as int)),
        decreases i,
    {
        proof {
            assert(digits@.subrange(i - 1, digits@.len() as int).drop_first() =~= digits@.subrange(
                i as int,
                digits@.len() as int,
            ));
        }
        let piece = digit_str(digits[i - 1]);
        s.append(piece);
        i = i - 1;
    }
    proof {
        assert(digits@.subrange(0, digits@.len() as int) =~= digits@);
    }
    s
}

/// Renders a signed value in decimal, as the conversation identifier is rendered
/// into the sort key.
pub fn i64_to_string(n: i64) -> (r: String)
    ensures
        r@ == int_dec_str(n as int),
{
    if n >= 0 {
        u64_to_string(n as u64)
    } else {
        let mag: u64 = if n == i64::MIN {
            9223372036854775808u64
        } else {
            (-n) as u64
        };
        proof {
            assert(mag as nat == (-(n as int)) as nat);
            reveal_strlit("-");
        }
        let mut s = String::from_str("-");
        let rest = u64_to_string(mag);
        s.append(rest.as_str());
        proof {
            assert(s@ =~= seq!['-'] + dec_str((-(n as int)) as nat));
        }
        s
    }
}

} // verus!
