//! Exact string comparison and decimal rendering of integers, the two
//! text operations every other module builds its names from.

use vstd::prelude::*;

verus! {

/// Exact string comparison: true exactly when the two views agree.
pub fn str_eq(a: &str, b: &str) -> (r: bool)
    ensures
        r == (a@ == b@),
{
    let alen = a.unicode_len();
    let blen = b.unicode_len();
    if alen != blen {
        return false;
    }
    let mut i: usize = 0;
    while i < alen
        invariant
            alen == a@.len(),
            blen == b@.len(),
            alen == blen,
            i <= alen,
            forall|k: int| 0 <= k < i ==> a@[k] == b@[k],
        decreases alen - i,
    {
        if a.get_char(i) != b.get_char(i) {
            return false;
        }
        i = i + 1;
    }
    proof {
        assert(a@ =~= b@);
    }
    true
}

/// The character for one decimal digit.
pub open spec fn spec_digit(d: nat) -> char {
    if d == 0 {
        '0'
    } else if d == 1 {
        '1'
    } else if d == 2 {
        '2'
    } else if d == 3 {
        '3'
    } else if d == 4 {
        '4'
    } else if d == 5 {
        '5'
    } else if d == 6 {
        '6'
    } else if d == 7 {
        '7'
    } else if d == 8 {
        '8'
    } else {
        '9'
    }
}

/// The usual decimal rendering of `n`, without leading zeros.
pub open spec fn spec_decimal(n: nat) -> Seq<char>
    decreases n,
{
    if n < 10 {
        seq![spec_digit(n)]
    } else {
        spec_decimal(n / 10).push(spec_digit(n % 10))
    }
}

pub proof fn lemma_spec_decimal_nonempty(n: nat)
    ensures
        spec_decimal(n).len() >= 1,
    decreases n,
{
    if n >= 10 {
        lemma_spec_decimal_nonempty(n / 10);
    }
}

proof fn lemma_spec_digit_injective(a: nat, b: nat)
    requires
        a < 10,
        b < 10,
        spec_digit(a) == spec_digit(b),
    ensures
        a == b,
{
}

/// Distinct numbers render as distinct digit strings.
pub proof fn lemma_spec_decimal_injective(a: nat, b: nat)
    requires
        spec_decimal(a) == spec_decimal(b),
    ensures
        a == b,
    decreases a,
{
    let sa = spec_decimal(a);
    let sb = spec_decimal(b);
    if a < 10 && b < 10 {
        assert(sa[0] == spec_digit(a));
        assert(sb[0] == spec_digit(b));
        lemma_spec_digit_injective(a, b);
    } else if a < 10 {
        lemma_spec_decimal_nonempty(b / 10);
        assert(sb.len() >= 2);
    } else if b < 10 {
        lemma_spec_decimal_nonempty(a / 10);
        assert(sa.len() >= 2);
    } else {
        lemma_spec_decimal_nonempty(a / 10);
        lemma_spec_decimal_nonempty(b / 10);
        assert(spec_decimal(a / 10) =~= sa.drop_last());
        assert(spec_decimal(b / 10) =~= sb.drop_last());
        lemma_spec_decimal_injective(a / 10, b / 10);
        assert(sa.last() == spec_digit(a % 10));
        assert(sb.last() == spec_digit(b % 10));
        lemma_spec_digit_injective(a % 10, b % 10);
        vstd::arithmetic::div_mod::lemma_fundamental_div_mod(a as int, 10);
        vstd::arithmetic::div_mod::lemma_fundamental_div_mod(b as int, 10);
    }
}

/// Appending distinct digit strings to one prefix gives distinct strings.
pub proof fn lemma_decimal_name_injective(p: Seq<char>, a: nat, b: nat)
    requires
        p + spec_decimal(a) == p + spec_decimal(b),
    ensures
        a == b,
{
    let sa = p + spec_decimal(a);
    let sb = p + spec_decimal(b);
    assert(spec_decimal(a) =~= sa.subrange(p.len() as int, sa.len() as int));
    assert(spec_decimal(b) =~= sb.subrange(p.len() as int, sb.len() as int));
    lemma_spec_decimal_injective(a, b);
}

fn digit_str(d: u64) -> (r: &'static str)
    requires
        d < 10,
    ensures
        r@ == seq![spec_digit(d as nat)],
{
    proof {
        reveal_strlit("0");
        reveal_strlit("1");
        reveal_strlit("2");
        reveal_strlit("3");
        reveal_strlit("4");
        reveal_strlit("5");
        reveal_strlit("6");
        reveal_strlit("7");
        reveal_strlit("8");
        reveal_strlit("9");
    }
    let r = if d == 0 {
        "0"
    } else if d == 1 {
        "1"
    } else if d == 2 {
        "2"
    } else if d == 3 {
        "3"
    } else if d == 4 {
        "4"
    } else if d == 5 {
        "5"
    } else if d == 6 {
        "6"
    } else if d == 7 {
        "7"
    } else if d == 8 {
        "8"
    } else {
        "9"
    };
    proof {
        assert(r@ =~= seq![spec_digit(d as nat)]);
    }
    r
}

/// Renders `n` in decimal, matching `spec_decimal` exactly.
pub fn u64_to_decimal(n: u64) -> (s: String)
    ensures
        s@ == spec_decimal(n as nat),
    decreases n,
{
    if n < 10 {
        let s = digit_str(n).to_owned();
        s
    } else {
        let mut s = u64_to_decimal(n / 10);
        s.append(digit_str(n % 10));
        proof {
            assert(s@ =~= spec_decimal((n / 10) as nat).push(spec_digit((n % 10) as nat)));
        }
        s
    }
}

} // verus!
