use vstd::prelude::*;

verus! {

/// The decimal digit character for `d < 10`.
pub open spec fn spec_digit(d: nat) -> char {
    if d == 0 {
        '0'
    } else if d == 1 {
        '1'
    } else if d == 2 {
        '2'
    } else if d == 3 {
        '3'
    } else if d == 4 {
        '4'
    } else if d == 5 {
        '5'
    } else if d == 6 {
        '6'
    } else if d == 7 {
        '7'
    } else if d == 8 {
        '8'
    } else {
        '9'
    }
}

/// The decimal representation of `n`, without leading zeros.
pub open spec fn spec_decimal(n: nat) -> Seq<char>
    decreases n,
{
    if n < 10 {
        seq![spec_digit(n)]
    } else {
        spec_decimal(n / 10).push(spec_digit(n % 10))
    }
}

/// The name made of `prefix` followed by the decimal representation of `i`.
pub open spec fn spec_indexed_name(prefix: Seq<char>, i: nat) -> Seq<char> {
    prefix + spec_decimal(i)
}

fn digit_str(d: usize) -> (s: &'static str)
    requires
        d < 10,
    ensures
        s@ == seq![spec_digit(d as nat)],
{
    proof {
        reveal_strlit("0");
        reveal_strlit("1");
        reveal_strlit("2");
        reveal_strlit("3");
        reveal_strlit("4");
        reveal_strlit("5");
        reveal_strlit("6");
        reveal_strlit("7");
        reveal_strlit("8");
        reveal_strlit("9");
    }
    if d == 0 {
        "0"
    } else if d == 1 {
        "1"
    } else if d == 2 {
        "2"
    } else if d == 3 {
        "3"
    } else if d == 4 {
        "4"
    } else if d == 5 {
        "5"
    } else if d == 6 {
        "6"
    } else if d == 7 {
        "7"
    } else if d == 8 {
        "8"
    } else {
        "9"
    }
}

/// Appends the decimal representation of `n` to `s`.
pub fn append_decimal(s: &mut String, n: usize)
    ensures
        final(s)@ == old(s)@ + spec_decimal(n as nat),
    decreases n,
{
    if n >= 10 {
        append_decimal(s, n / 10);
    }
    s.append(digit_str(n % 10));
    proof {
        if n < 10 {
            assert(n % 10 == n);
        }
    }
}

/// The name made of `prefix` followed by the decimal representation of `i`,
/// such as `w_3` for the prefix `w_` and the index 3.
pub fn indexed_name(prefix: &str, i: usize) -> (s: String)
    ensures
        s@ == spec_indexed_name(prefix@, i as nat),
{
    let mut s = String::from_str(prefix);
    append_decimal(&mut s, i);
    s
}

/// A decimal representation has at least one digit, and more than one from 10 on.
pub proof fn lemma_decimal_len(n: nat)
    ensures
        spec_decimal(n).len() >= 1,
        n >= 10 ==> spec_decimal(n).len() >= 2,
    decreases n,
{
    if n >= 10 {
        lemma_decimal_len(n / 10);
    }
}

/// Distinct numbers have distinct decimal representations.
pub proof fn lemma_decimal_injective(a: nat, b: nat)
    requires
        spec_decimal(a) == spec_decimal(b),
    ensures
        a == b,
    decreases a,
{
    lemma_decimal_len(a);
    lemma_decimal_len(b);
    if a < 10 && b < 10 {
        assert(spec_decimal(a)[0] == spec_digit(a));
        assert(spec_decimal(b)[0] == spec_digit(b));
    } else if a >= 10 && b >= 10 {
        let sa = spec_decimal(a);
        let sb = spec_decimal(b);
        assert(sa.last() == spec_digit(a % 10));
        assert(sb.last() == spec_digit(b % 10));
        assert(spec_decimal(a / 10) =~= sa.drop_last());
        assert(spec_decimal(b / 10) =~= sb.drop_last());
        lemma_decimal_injective(a / 10, b / 10);
    }
}

/// Names with a common prefix are equal only for equal indices.
pub proof fn lemma_indexed_name_injective(prefix: Seq<char>, a: nat, b: nat)
    requires
        spec_indexed_name(prefix, a) == spec_indexed_name(prefix, b),
    ensures
        a == b,
{
    let na = spec_indexed_name(prefix, a);
    let nb = spec_indexed_name(prefix, b);
    assert(spec_decimal(a) =~= na.subrange(prefix.len() as int, na.len() as int));
    assert(spec_decimal(b) =~= nb.subrange(prefix.len() as int, nb.len() as int));
    lemma_decimal_injective(a, b);
}

} // verus!
