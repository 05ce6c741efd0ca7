//! Decimal rendering of counts, for messages.
use vstd::prelude::*;

verus! {

/// The character of the decimal digit `d`.
pub open spec fn digit_char(d: nat) -> char {
    if d == 0 {
        '0'
    } else if d == 1 {
        '1'
    } else if d == 2 {
        '2'
    } else if d == 3 {
        '3'
    } else if d == 4 {
        '4'
    } else if d == 5 {
        '5'
    } else if d == 6 {
        '6'
    } else if d == 7 {
        '7'
    } else if d == 8 {
        '8'
    } else {
        '9'
    }
}

/// The decimal digits of `n`, most significant first, without leading
/// zeros (`0` is written `0`).
pub open spec fn decimal(n: nat) -> Seq<char>
    decreases n,
{
    if n < 10 {
        seq![digit_char(n)]
    } else {
        decimal(n / 10).push(digit_char(n % 10))
    }
}

fn digit_str(d: u64) -> (c: &'static str)
    requires
        d < 10,
    ensures
        c@ == seq![digit_char(d as nat)],
{
    proof {
        reveal_strlit("0");
        reveal_strlit("1");
        reveal_strlit("2");
        reveal_strlit("3");
        reveal_strlit("4");
        reveal_strlit("5");
        reveal_strlit("6");
        reveal_strlit("7");
        reveal_strlit("8");
        reveal_strlit("9");
    }
    if d == 0 {
        "0"
    } else if d == 1 {
        "1"
    } else if d == 2 {
        "2"
    } else if d == 3 {
        "3"
    } else if d == 4 {
        "4"
    } else if d == 5 {
        "5"
    } else if d == 6 {
        "6"
    } else if d == 7 {
        "7"
    } else if d == 8 {
        "8"
    } else {
        "9"
    }
}

/// The characters of the digits `ds`, each below ten.
pub open spec fn digit_chars(ds: Seq<u64>) -> Seq<char> {
    ds.map_values(|d: u64| digit_char(d as nat))
}

/// `n` written in decimal.
pub fn decimal_string(n: u64) -> (r: String)
    ensures
        r@ == decimal(n as nat),
{
    // digits least significant first
    let mut digits: Vec<u64> = Vec::new();
    let mut m: u64 = n;
    digits.push(m % 10);
    proof {
        if m < 10 {
            assert(decimal(n as nat) =~= digit_chars(digits@).reverse());
        } else {
            assert(decimal(n as nat) =~= decimal((m / 10) as nat) + digit_chars(digits@).reverse());
        }
    }
    m = m / 10;
    while m > 0
        invariant
            digits@.len() >= 1,
            forall|j: int| 0 <= j < digits@.len() ==> digits@[j] < 10,
            m > 0 ==> decimal(n as nat) == decimal(m as nat) + digit_chars(digits@).reverse(),
            m == 0 ==> decimal(n as nat) == digit_chars(digits@).reverse(),
        decreases m,
    {
        let ghost before = digits@;
        digits.push(m % 10);
        proof {
            assert(digit_chars(digits@).reverse() =~= seq![digit_char((m % 10) as nat)] + digit_chars(before).reverse());
            if m < 10 {
                assert(decimal(m as nat) =~= seq![digit_char((m % 10) as nat)]);
                assert(decimal(n as nat) =~= digit_chars(digits@).reverse());
            } else {
                assert(decimal(m as nat) =~= decimal((m / 10) as nat) + seq![digit_char((m % 10) as nat)]);
                assert(decimal(n as nat) =~= decimal((m / 10) as nat) + digit_chars(digits@).reverse());
            }
        }
        m = m / 10;
    }
    let mut r = String::new();
    let k = digits.len();
    let ghost all = digit_chars(digits@).reverse();
    let mut i: usize = k;
    while i > 0
        invariant
            k == digits@.len(),
            forall|j: int| 0 <= j < digits@.len() ==> digits@[j] < 10,
            all == digit_chars(digits@).reverse(),
            i <= k,
            r@ == all.subrange(0, (k - i) as int),
        decreases i,
    {
        i = i - 1;
        let d = digits[i];
        proof {
            assert(all[(k - 1 - i) as int] == digit_char(d as nat));
            assert(all.subrange(0, (k - i) as int) =~= all.subrange(0, (k - 1 - i) as int) + seq![digit_char(d as nat)]);
        }
        r.append(digit_str(d));
    }
    proof {
        assert(all.subrange(0, k as int) =~= all);
    }
    r
}

/// The number that the decimal digits `s` (most significant first) stand
/// for.
pub open spec fn decimal_value(s: Seq<char>) -> int
    decreases s.len(),
{
    if s.len() == 0 {
        0
    } else {
        decimal_value(s.drop_last()) * 10 + (s.last() as int - '0' as int)
    }
}

proof fn lemma_digit_char_value(d: nat)
    requires
        d < 10,
    ensures
        digit_char(d) as int - '0' as int == d,
        '0' <= digit_char(d) <= '9',
        d > 0 ==> digit_char(d) != '0',
{
}

/// Law of decimal rendering: the text of `n` is made of the digits `0` to
/// `9` only, has no leading zero, and reads back as `n`.
pub proof fn lemma_decimal_reads_back(n: nat)
    ensures
        decimal(n).len() >= 1,
        forall|i: int| 0 <= i < decimal(n).len() ==> '0' <= #[trigger] decimal(n)[i] <= '9',
        n > 0 ==> decimal(n)[0] != '0',
        decimal_value(decimal(n)) == n,
    decreases n,
{
    if n < 10 {
        lemma_digit_char_value(n);
        let s = decimal(n);
        assert(s.drop_last() =~= Seq::<char>::empty());
        assert(decimal_value(s.drop_last()) == 0);
        assert(decimal_value(s) == decimal_value(s.drop_last()) * 10 + (s.last() as int - '0' as int));
    } else {
        let q = n / 10;
        let r = n % 10;
        lemma_digit_char_value(r);
        lemma_decimal_reads_back(q);
        let s = decimal(n);
        assert(s.drop_last() =~= decimal(q));
        assert(s.last() == digit_char(r));
        assert(s[0] == decimal(q)[0]);
        assert forall|i: int| 0 <= i < s.len() implies '0' <= #[trigger] s[i] <= '9' by {
            if i < s.len() - 1 {
                assert(s[i] == decimal(q)[i]);
            }
        }
        assert(n == q * 10 + r);
        assert(q > 0);
        assert(decimal_value(s.drop_last()) == q);
        assert(decimal_value(s) == decimal_value(s.drop_last()) * 10 + (s.last() as int - '0' as int));
    }
}

} // verus!
