//! The overlay's one text label: "FPS: " followed by the measured rate
//! with one decimal place, rounded to the nearest tenth.

use vstd::prelude::*;
use vstd::string::StringExecFns;

verus! {

/// The decimal digit character for `d`.
pub open spec fn spec_digit_char(d: int) -> char
    recommends
        0 <= d < 10,
{
    if d == 0 {
        '0'
    } else if d == 1 {
        '1'
    } else if d == 2 {
        '2'
    } else if d == 3 {
        '3'
    } else if d == 4 {
        '4'
    } else if d == 5 {
        '5'
    } else if d == 6 {
        '6'
    } else if d == 7 {
        '7'
    } else if d == 8 {
        '8'
    } else {
        '9'
    }
}

/// The decimal notation of `n`: most significant digit first, no sign,
/// no leading zero except for zero itself.
pub open spec fn spec_decimal(n: int) -> Seq<char>
    recommends
        n >= 0,
    decreases n,
{
    if n < 10 {
        seq![spec_digit_char(n)]
    } else {
        spec_decimal(n / 10).push(spec_digit_char(n % 10))
    }
}

/// The digits of `ds`, least significant first, read back as characters
/// in display order (most significant first).
spec fn spec_chars_rev(ds: Seq<u64>) -> Seq<char>
    decreases ds.len(),
{
    if ds.len() == 0 {
        Seq::empty()
    } else {
        spec_chars_rev(ds.drop_first()) + seq![spec_digit_char(ds.first() as int)]
    }
}

proof fn lemma_chars_rev_push(ds: Seq<u64>, d: u64)
    ensures
        spec_chars_rev(ds.push(d)) == seq![spec_digit_char(d as int)] + spec_chars_rev(ds),
    decreases ds.len(),
{
    let p = ds.push(d);
    if ds.len() == 0 {
        assert(p.len() == 1);
        assert(p.first() == d);
        assert(p.drop_first() =~= Seq::<u64>::empty());
        assert(spec_chars_rev(p.drop_first()) == Seq::<char>::empty());
        assert(spec_chars_rev(p) == spec_chars_rev(p.drop_first()) + seq![
            spec_digit_char(p.first() as int),
        ]);
        assert(spec_chars_rev(ds) == Seq::<char>::empty());
        assert(spec_chars_rev(p) =~= seq![spec_digit_char(d as int)] + spec_chars_rev(ds));
    } else {
        assert(p.drop_first() =~= ds.drop_first().push(d));
        assert(p.first() == ds.first());
        lemma_chars_rev_push(ds.drop_first(), d);
        assert(spec_chars_rev(p) == spec_chars_rev(p.drop_first()) + seq![
            spec_digit_char(ds.first() as int),
        ]);
        assert(spec_chars_rev(ds) == spec_chars_rev(ds.drop_first()) + seq![
            spec_digit_char(ds.first() as int),
        ]);
        assert(spec_chars_rev(p) =~= seq![spec_digit_char(d as int)] + spec_chars_rev(ds));
    }
}

/// The one-character string for a decimal digit.
fn digit_str(d: u64) -> (s: &'static str)
    requires
        d < 10,
    ensures
        s@ == seq![spec_digit_char(d as int)],
{
    if d == 0 {
        proof {
            reveal_strlit("0");
        }
        assert("0"@ =~= seq![spec_digit_char(0)]);
        "0"
    } else if d == 1 {
        proof {
            reveal_strlit("1");
        }
        assert("1"@ =~= seq![spec_digit_char(1)]);
        "1"
    } else if d == 2 {
        proof {
            reveal_strlit("2");
        }
        assert("2"@ =~= seq![spec_digit_char(2)]);
        "2"
    } else if d == 3 {
        proof {
            reveal_strlit("3");
        }
        assert("3"@ =~= seq![spec_digit_char(3)]);
        "3"
    } else if d == 4 {
        proof {
            reveal_strlit("4");
        }
        assert("4"@ =~= seq![spec_digit_char(4)]);
        "4"
    } else if d == 5 {
        proof {
            reveal_strlit("5");
        }
        assert("5"@ =~= seq![spec_digit_char(5)]);
        "5"
    } else if d == 6 {
        proof {
            reveal_strlit("6");
        }
        assert("6"@ =~= seq![spec_digit_char(6)]);
        "6"
    } else if d == 7 {
        proof {
            reveal_strlit("7");
        }
        assert("7"@ =~= seq![spec_digit_char(7)]);
        "7"
    } else if d == 8 {
        proof {
            reveal_strlit("8");
        }
        assert("8"@ =~= seq![spec_digit_char(8)]);
        "8"
    } else {
        proof {
            reveal_strlit("9");
        }
        assert("9"@ =~= seq![spec_digit_char(9)]);
        "9"
    }
}

/// Writes `n` in decimal notation.
pub fn u64_to_decimal(n: u64) -> (s: String)
    ensures
        s@ == spec_decimal(n as int),
{
    let mut digits: Vec<u64> = Vec::new();
    let mut m: u64 = n;
    while m >= 10
        invariant
            spec_decimal(n as int) == spec_decimal(m as int) + spec_chars_rev(digits@),
            forall|i: int| 0 <= i < digits@.len() ==> #[trigger] digits@[i] < 10,
        decreases m,
    {
        let d: u64 = m % 10;
        proof {
            lemma_chars_rev_push(digits@, d);
            assert(spec_decimal(m as int) + spec_chars_rev(digits@) =~= spec_decimal(
                m as int / 10,
            ) + spec_chars_rev(digits@.push(d)));
        }
        digits.push(d);
        m = m / 10;
    }
    proof {
        lemma_chars_rev_push(digits@, m);
        assert(spec_decimal(n as int) =~= spec_chars_rev(digits@.push(m)));
    }
    digits.push(m);
    let ghost all = digits@;
    let mut s = String::new();
    let mut i: usize = digits.len();
    while i > 0
        invariant
            i <= digits@.len(),
            digits@ == all,
            forall|k: int| 0 <= k < digits@.len() ==> #[trigger] digits@[k] < 10,
            s@ == spec_chars_rev(all.skip(i as int)),
        decreases i,
    {
        i = i - 1;
        proof {
            assert(all.skip(i as int).drop_first() =~= all.skip(i as int + 1));
        }
        s.append(digit_str(digits[i]));
    }
    proof {
        assert(all.skip(0) =~= all);
    }
    s
}

/// The label text for a rate given in thousandths of a frame per second:
/// "FPS: " then the rate with one decimal place, rounded to the nearest
/// tenth.
pub open spec fn spec_fps_label(fps_milli: u64) -> Seq<char> {
    let tenths = (fps_milli + 50) / 100;
    "FPS: "@ + spec_decimal(tenths / 10) + "."@ + seq![spec_digit_char(tenths % 10)]
}

/// Formats the overlay's label from the timer's measured rate.
pub fn format_fps_label(fps_milli: u64) -> (s: String)
    ensures
        s@ == spec_fps_label(fps_milli),
{
    let tenths: u128 = ((fps_milli as u128) + 50) / 100;
    let whole: u64 = (tenths / 10) as u64;
    let tenth: u64 = (tenths % 10) as u64;
    let mut s = String::new();
    s.append("FPS: ");
    let dec = u64_to_decimal(whole);
    s.append(dec.as_str());
    s.append(".");
    s.append(digit_str(tenth));
    proof {
        assert(s@ =~= spec_fps_label(fps_milli));
    }
    s
}

} // verus!
