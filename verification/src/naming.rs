//! Physical file names: an underscore, the suffix in decimal, an underscore,
//! and the logical name.

use vstd::prelude::*;
use vstd::string::*;

verus! {

/// The character that writes the digit `d`, for `0 <= d <= 9`.
pub open spec fn digit_char(d: int) -> char {
    if d == 0 {
        '0'
    } else if d == 1 {
        '1'
    } else if d == 2 {
        '2'
    } else if d == 3 {
        '3'
    } else if d == 4 {
        '4'
    } else if d == 5 {
        '5'
    } else if d == 6 {
        '6'
    } else if d == 7 {
        '7'
    } else if d == 8 {
        '8'
    } else {
        '9'
    }
}

/// The digit that `c` writes; 10 where `c` is no decimal digit.
pub open spec fn digit_value(c: char) -> nat {
    if c == '0' {
        0
    } else if c == '1' {
        1
    } else if c == '2' {
        2
    } else if c == '3' {
        3
    } else if c == '4' {
        4
    } else if c == '5' {
        5
    } else if c == '6' {
        6
    } else if c == '7' {
        7
    } else if c == '8' {
        8
    } else if c == '9' {
        9
    } else {
        10
    }
}

/// Whether `c` is one of the ten decimal digits.
pub open spec fn is_digit(c: char) -> bool {
    digit_value(c) < 10
}

/// `n` in decimal, most significant digit first, without leading zeros.
pub open spec fn decimal_digits(n: nat) -> Seq<char>
    decreases n,
{
    if n < 10 {
        seq![digit_char(n as int)]
    } else {
        decimal_digits(n / 10).push(digit_char((n % 10) as int))
    }
}

/// The number that a sequence of decimal digits writes.
pub open spec fn decimal_value(s: Seq<char>) -> nat
    decreases s.len(),
{
    if s.len() == 0 {
        0
    } else {
        decimal_value(s.drop_last()) * 10 + digit_value(s.last())
    }
}

/// The name under which a file with logical name `logical` and suffix
/// `suffix` lives on disk.
pub open spec fn physical_name_of(suffix: nat, logical: Seq<char>) -> Seq<char> {
    seq!['_'] + decimal_digits(suffix) + seq!['_'] + logical
}

/// The decimal form of a number is a non-empty run of digits.
pub proof fn lemma_decimal_digits_shape(n: nat)
    ensures
        decimal_digits(n).len() >= 1,
        forall|i: int| 0 <= i < decimal_digits(n).len() ==> is_digit(#[trigger] decimal_digits(n)[i]),
    decreases n,
{
    if n >= 10 {
        lemma_decimal_digits_shape(n / 10);
    }
}

/// Reading the decimal form of a number gives the number back.
pub proof fn lemma_decimal_round_trip(n: nat)
    ensures
        decimal_value(decimal_digits(n)) == n,
    decreases n,
{
    if n < 10 {
        let s = decimal_digits(n);
        assert(s.drop_last().len() == 0);
        assert(decimal_value(s.drop_last()) == 0);
    } else {
        let s = decimal_digits(n);
        lemma_decimal_round_trip(n / 10);
        assert(s.drop_last() =~= decimal_digits(n / 10));
        assert(s.last() == digit_char((n % 10) as int));
    }
}

/// Two numbers with the same decimal form are the same number.
pub proof fn lemma_decimal_injective(a: nat, b: nat)
    requires
        decimal_digits(a) == decimal_digits(b),
    ensures
        a == b,
{
    lemma_decimal_round_trip(a);
    lemma_decimal_round_trip(b);
}

/// A physical name determines both the suffix and the logical name it was
/// made from: two physical names are equal exactly when both parts are.
pub proof fn lemma_physical_name_injective(
    suffix1: nat,
    logical1: Seq<char>,
    suffix2: nat,
    logical2: Seq<char>,
)
    ensures
        physical_name_of(suffix1, logical1) == physical_name_of(suffix2, logical2) <==> (suffix1
            == suffix2 && logical1 == logical2),
{
    let name1 = physical_name_of(suffix1, logical1);
    let name2 = physical_name_of(suffix2, logical2);
    let digits1 = decimal_digits(suffix1);
    let digits2 = decimal_digits(suffix2);
    if name1 == name2 {
        lemma_decimal_digits_shape(suffix1);
        lemma_decimal_digits_shape(suffix2);
        let k1 = digits1.len() as int;
        let k2 = digits2.len() as int;
        assert(name1[1 + k1] == '_');
        assert(name2[1 + k2] == '_');
        if k1 < k2 {
            assert(name2[1 + k1] == digits2[k1]);
            assert(is_digit(digits2[k1]));
        }
        if k2 < k1 {
            assert(name1[1 + k2] == digits1[k2]);
            assert(is_digit(digits1[k2]));
        }
        assert(k1 == k2);
        assert(digits1 =~= digits2) by {
            assert forall|i: int| 0 <= i < k1 implies digits1[i] == digits2[i] by {
                assert(name1[1 + i] == digits1[i]);
                assert(name2[1 + i] == digits2[i]);
            }
        }
        lemma_decimal_injective(suffix1, suffix2);
        assert(logical1 =~= logical2) by {
            assert(logical1.len() == name1.len() - k1 - 2);
            assert(logical2.len() == name2.len() - k2 - 2);
            assert forall|i: int| 0 <= i < logical1.len() implies logical1[i] == logical2[i] by {
                assert(name1[2 + k1 + i] == logical1[i]);
                assert(name2[2 + k2 + i] == logical2[i]);
            }
        }
    }
}

/// Under one logical name, different suffixes give different physical names.
pub proof fn lemma_distinct_suffixes_distinct_names(suffix1: nat, suffix2: nat, logical: Seq<char>)
    requires
        suffix1 != suffix2,
    ensures
        physical_name_of(suffix1, logical) != physical_name_of(suffix2, logical),
{
    lemma_physical_name_injective(suffix1, logical, suffix2, logical);
}

/// The one-character string that writes the digit `d`.
fn digit_str(d: u32) -> (s: &'static str)
    requires
        d < 10,
    ensures
        s@ == seq![digit_char(d as int)],
{
    proof {
        reveal_strlit("0");
        reveal_strlit("1");
        reveal_strlit("2");
        reveal_strlit("3");
        reveal_strlit("4");
        reveal_strlit("5");
        reveal_strlit("6");
        reveal_strlit("7");
        reveal_strlit("8");
        reveal_strlit("9");
    }
    let s = match d {
        0 => "0",
        1 => "1",
        2 => "2",
        3 => "3",
        4 => "4",
        5 => "5",
        6 => "6",
        7 => "7",
        8 => "8",
        _ => "9",
    };
    assert(s@ =~= seq![digit_char(d as int)]);
    s
}

/// Writes `n` in decimal.
pub fn render_decimal(n: u32) -> (text: String)
    ensures
        text@ == decimal_digits(n as nat),
    decreases n,
{
    if n < 10 {
        String::from_str(digit_str(n))
    } else {
        let mut text = render_decimal(n / 10);
        let ghost before = text@;
        text.append(digit_str(n % 10));
        assert(text@ =~= before.push(digit_char((n % 10) as int)));
        text
    }
}

/// Builds the physical name for `logical` with the suffix `suffix`.
pub fn physical_name(suffix: u32, logical: &str) -> (name: String)
    ensures
        name@ == physical_name_of(suffix as nat, logical@),
{
    proof {
        reveal_strlit("_");
    }
    let mut name = String::from_str("_");
    assert(name@ =~= seq!['_']);
    let digits = render_decimal(suffix);
    name.append(digits.as_str());
    name.append("_");
    name.append(logical);
    assert(name@ =~= physical_name_of(suffix as nat, logical@));
    name
}

} // verus!
