//! Decimal rendering of the hardware quantities that are handed to the
//! hypervisor tool on its command line.

use vstd::prelude::*;
use vstd::string::StringExecFns;

verus! {

/// The character for one decimal digit.
pub open spec fn digit_char(d: int) -> char {
    ((d + 48) as u8) as char
}

/// The usual decimal numeral of `n`: no sign, no leading zero except for the
/// numeral of zero itself.
pub open spec fn decimal_spec(n: nat) -> Seq<char>
    decreases n,
{
    if n < 10 {
        seq![digit_char(n as int)]
    } else {
        decimal_spec(n / 10) + seq![digit_char((n % 10) as int)]
    }
}

/// The characters of a numeral whose digits were collected least-significant
/// first: the last collected digit comes out first.
spec fn digits_chars(ds: Seq<u32>) -> Seq<char>
    decreases ds.len(),
{
    if ds.len() == 0 {
        Seq::empty()
    } else {
        seq![digit_char(ds.last() as int)] + digits_chars(ds.drop_last())
    }
}

proof fn lemma_digits_chars_push(ds: Seq<u32>, d: u32)
    ensures
        digits_chars(ds.push(d)) == seq![digit_char(d as int)] + digits_chars(ds),
{
    assert(ds.push(d).drop_last() =~= ds);
}

proof fn lemma_digits_chars_len(ds: Seq<u32>)
    ensures
        digits_chars(ds).len() == ds.len(),
    decreases ds.len(),
{
    if ds.len() > 0 {
        lemma_digits_chars_len(ds.drop_last());
    }
}

proof fn lemma_digits_chars_index(ds: Seq<u32>, j: int)
    requires
        0 <= j < ds.len(),
    ensures
        digits_chars(ds).len() == ds.len(),
        digits_chars(ds)[j] == digit_char(ds[ds.len() - 1 - j] as int),
    decreases ds.len(),
{
    lemma_digits_chars_len(ds);
    if j > 0 {
        lemma_digits_chars_index(ds.drop_last(), j - 1);
    }
}

/// The single-character string for one decimal digit.
fn digit_str(d: u32) -> (r: &'static str)
    requires
        d < 10,
    ensures
        r@ == seq![digit_char(d as int)],
{
    let r: &'static str = if d == 0 {
        "0"
    } else if d == 1 {
        "1"
    } else if d == 2 {
        "2"
    } else if d == 3 {
        "3"
    } else if d == 4 {
        "4"
    } else if d == 5 {
        "5"
    } else if d == 6 {
        "6"
    } else if d == 7 {
        "7"
    } else if d == 8 {
        "8"
    } else {
        "9"
    };
    proof {
        reveal_strlit("0");
        reveal_strlit("1");
        reveal_strlit("2");
        reveal_strlit("3");
        reveal_strlit("4");
        reveal_strlit("5");
        reveal_strlit("6");
        reveal_strlit("7");
        reveal_strlit("8");
        reveal_strlit("9");
        assert(r@ =~= seq![digit_char(d as int)]);
    }
    r
}

/// Renders `n` as its decimal numeral.
pub fn u32_decimal(n: u32) -> (r: String)
    ensures
        r@ == decimal_spec(n as nat),
{
    let mut digits: Vec<u32> = Vec::new();
    let mut m: u32 = n;
    loop
        invariant_except_break
            (digits@.len() == 0 && m == n) || (digits@.len() > 0 && m > 0 && decimal_spec(n as nat)
                == decimal_spec(m as nat) + digits_chars(digits@)),
            forall|k: int| 0 <= k < digits@.len() ==> digits@[k] < 10,
        ensures
            digits@.len() > 0,
            forall|k: int| 0 <= k < digits@.len() ==> digits@[k] < 10,
            decimal_spec(n as nat) == digits_chars(digits@),
        decreases m,
    {
        let d: u32 = m % 10;
        let ghost pre = digits@;
        digits.push(d);
        proof {
            lemma_digits_chars_push(pre, d);
        }
        m = m / 10;
        if m == 0 {
            proof {
                if pre.len() == 0 {
                    assert(digits_chars(digits@) =~= decimal_spec(n as nat));
                } else {
                    assert(digits_chars(digits@) =~= decimal_spec(n as nat));
                }
            }
            break ;
        }
        proof {
            assert(decimal_spec(m as nat) + digits_chars(digits@) =~= decimal_spec(n as nat));
        }
    }
    proof {
        lemma_digits_chars_len(digits@);
    }
    let mut out = String::new();
    let mut i: usize = digits.len();
    while i > 0
        invariant
            i <= digits@.len(),
            forall|k: int| 0 <= k < digits@.len() ==> digits@[k] < 10,
            decimal_spec(n as nat) == digits_chars(digits@),
            digits_chars(digits@).len() == digits@.len(),
            out@ == digits_chars(digits@).subrange(0, digits@.len() - i),
        decreases i,
    {
        i = i - 1;
        let ghost pre_out = out@;
        let ds = digit_str(digits[i]);
        out.append(ds);
        proof {
            lemma_digits_chars_index(digits@, digits@.len() - 1 - i);
            assert(out@ =~= digits_chars(digits@).subrange(0, digits@.len() - i));
        }
    }
    proof {
        assert(out@ =~= digits_chars(digits@));
    }
    out
}

} // verus!
