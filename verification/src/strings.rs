//! Decimal rendering of counters for menu texts, verified against a
//! character-sequence model.

use vstd::prelude::*;

verus! {

/// The character for one decimal digit.
pub open spec fn digit_char(d: int) -> char {
    if d == 0 {
        '0'
    } else if d == 1 {
        '1'
    } else if d == 2 {
        '2'
    } else if d == 3 {
        '3'
    } else if d == 4 {
        '4'
    } else if d == 5 {
        '5'
    } else if d == 6 {
        '6'
    } else if d == 7 {
        '7'
    } else if d == 8 {
        '8'
    } else {
        '9'
    }
}

/// The usual decimal notation of `v`: no leading zeroes, most significant
/// digit first.
pub open spec fn decimal_chars(v: nat) -> Seq<char>
    decreases v,
{
    if v < 10 {
        seq![digit_char(v as int)]
    } else {
        decimal_chars(v / 10).push(digit_char((v % 10) as int))
    }
}

/// Digits stored least-significant-first, read back into display order.
spec fn rev_digit_chars(ds: Seq<u8>) -> Seq<char>
    decreases ds.len(),
{
    if ds.len() == 0 {
        Seq::empty()
    } else {
        rev_digit_chars(ds.drop_first()) + seq![digit_char(ds.first() as int)]
    }
}

proof fn lemma_rev_digit_chars_push(ds: Seq<u8>, d: u8)
    ensures
        rev_digit_chars(ds.push(d)) == seq![digit_char(d as int)] + rev_digit_chars(ds),
    decreases ds.len(),
{
    if ds.len() == 0 {
        assert(ds.push(d).drop_first() =~= Seq::<u8>::empty());
        assert(ds.push(d).first() == d);
        assert(rev_digit_chars(ds.push(d)) == rev_digit_chars(Seq::<u8>::empty()) + seq![
            digit_char(d as int),
        ]);
        assert(rev_digit_chars(ds.push(d)) =~= seq![digit_char(d as int)] + rev_digit_chars(ds));
    } else {
        assert(ds.push(d).drop_first() =~= ds.drop_first().push(d));
        lemma_rev_digit_chars_push(ds.drop_first(), d);
        assert(rev_digit_chars(ds.push(d)) =~= seq![digit_char(d as int)] + rev_digit_chars(ds));
    }
}

/// The one-character string for one decimal digit.
fn digit_str(d: u8) -> (r: &'static str)
    requires
        d < 10,
    ensures
        r@ == seq![digit_char(d as int)],
{
    proof {
        reveal_strlit("0");
        reveal_strlit("1");
        reveal_strlit("2");
        reveal_strlit("3");
        reveal_strlit("4");
        reveal_strlit("5");
        reveal_strlit("6");
        reveal_strlit("7");
        reveal_strlit("8");
        reveal_strlit("9");
    }
    match d {
        0 => "0",
        1 => "1",
        2 => "2",
        3 => "3",
        4 => "4",
        5 => "5",
        6 => "6",
        7 => "7",
        8 => "8",
        _ => "9",
    }
}

/// Render a counter in decimal.
pub fn u32_to_string(v: u32) -> (s: String)
    ensures
        s@ == decimal_chars(v as nat),
{
    let mut digits: Vec<u8> = Vec::new();
    let mut n: u32 = v;
    digits.push((n % 10) as u8);
    proof {
        lemma_rev_digit_chars_push(Seq::<u8>::empty(), (v % 10) as u8);
        assert(seq![digit_char((v % 10) as u8 as int)] + rev_digit_chars(Seq::<u8>::empty())
            =~= seq![digit_char((v as nat % 10) as int)]);
    }
    n = n / 10;
    while n > 0
        invariant
            forall|i: int| 0 <= i < digits@.len() ==> digits@[i] < 10,
            decimal_chars(v as nat) == if n > 0 {
                decimal_chars(n as nat) + rev_digit_chars(digits@)
            } else {
                rev_digit_chars(digits@)
            },
        decreases n,
    {
        let d: u8 = (n % 10) as u8;
        proof {
            lemma_rev_digit_chars_push(digits@, d);
            if n >= 10 {
                assert(decimal_chars(n as nat) == decimal_chars(n as nat / 10).push(
                    digit_char((n as nat % 10) as int),
                ));
                assert(decimal_chars(n as nat / 10).push(digit_char((n as nat % 10) as int))
                    =~= decimal_chars(n as nat / 10) + seq![digit_char(d as int)]);
                assert(decimal_chars(n as nat / 10) + (seq![digit_char(d as int)]
                    + rev_digit_chars(digits@)) =~= (decimal_chars(n as nat / 10) + seq![
                    digit_char(d as int),
                ]) + rev_digit_chars(digits@));
                assert(n as nat / 10 == (n / 10) as nat);
            } else {
                assert(decimal_chars(n as nat) =~= seq![digit_char(d as int)]);
            }
        }
        digits.push(d);
        n = n / 10;
    }
    let mut s = String::new();
    let mut i: usize = digits.len();
    while i > 0
        invariant
            i <= digits@.len(),
            forall|k: int| 0 <= k < digits@.len() ==> digits@[k] < 10,
            s@ == rev_digit_chars(digits@.subrange(i as int, digits@.len() as int)),
        decreases i,
    {
        i = i - 1;
        let d = digits[i];
        s.append(digit_str(d));
        proof {
            let full = digits@.subrange(i as int, digits@.len() as int);
            assert(full.drop_first() =~= digits@.subrange(i as int + 1, digits@.len() as int));
            assert(full.first() == digits@[i as int]);
            assert(s@ =~= rev_digit_chars(full));
        }
    }
    proof {
        assert(digits@.subrange(0, digits@.len() as int) =~= digits@);
    }
    s
}

} // verus!
