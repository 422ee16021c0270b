//! Handle tokens: the decimal spelling of a handle number.

use vstd::prelude::*;

verus! {

/// The character that spells the decimal digit `d`.
pub open spec fn digit_char(d: nat) -> char {
    ((48 + d) as u8) as char
}

/// Whether `c` is one of `0` to `9`.
pub open spec fn is_digit(c: char) -> bool {
    '0' <= c && c <= '9'
}

/// The value of a decimal digit character.
pub open spec fn digit_value(c: char) -> nat {
    (c as u32 - 48) as nat
}

/// The shortest decimal spelling of `n`, most significant digit first.
pub open spec fn decimal(n: nat) -> Seq<char>
    decreases n,
{
    if n < 10 {
        seq![digit_char(n)]
    } else {
        decimal(n / 10).push(digit_char(n % 10))
    }
}

/// The number that a sequence of digit characters spells.
pub open spec fn decimal_value(s: Seq<char>) -> nat
    decreases s.len(),
{
    if s.len() == 0 {
        0
    } else {
        decimal_value(s.drop_last()) * 10 + digit_value(s.last())
    }
}

proof fn lemma_digit_char(d: nat)
    requires
        d < 10,
    ensures
        is_digit(digit_char(d)),
        digit_value(digit_char(d)) == d,
        digit_char(d) == '0' <==> d == 0,
{
}

fn digit_str(d: u32) -> (r: &'static str)
    requires
        d < 10,
    ensures
        r@ == seq![digit_char(d as nat)],
{
    proof {
        lemma_digit_char(d as nat);
    }
    let r = match d {
        0 => "0",
        1 => "1",
        2 => "2",
        3 => "3",
        4 => "4",
        5 => "5",
        6 => "6",
        7 => "7",
        8 => "8",
        _ => "9",
    };
    proof {
        reveal_strlit("0");
        reveal_strlit("1");
        reveal_strlit("2");
        reveal_strlit("3");
        reveal_strlit("4");
        reveal_strlit("5");
        reveal_strlit("6");
        reveal_strlit("7");
        reveal_strlit("8");
        reveal_strlit("9");
    }
    assert(r@ =~= seq![digit_char(d as nat)]);
    r
}

/// The token that names handle number `n`.
pub fn handle_token(n: u32) -> (r: String)
    ensures
        r@ == decimal(n as nat),
    decreases n,
{
    if n < 10 {
        String::from_str(digit_str(n))
    } else {
        let mut s = handle_token(n / 10);
        s.append(digit_str(n % 10));
        s
    }
}

proof fn lemma_decimal_shape(n: nat)
    ensures
        decimal(n).len() >= 1,
        forall|i: int| 0 <= i < decimal(n).len() ==> is_digit(#[trigger] decimal(n)[i]),
        decimal(n)[0] == '0' ==> n == 0,
        decimal_value(decimal(n)) == n,
    decreases n,
{
    if n < 10 {
        lemma_digit_char(n);
        assert(decimal(n).drop_last() =~= Seq::<char>::empty());
        assert(decimal_value(Seq::<char>::empty()) == 0);
    } else {
        lemma_decimal_shape(n / 10);
        lemma_digit_char(n % 10);
        let s = decimal(n);
        assert(s.drop_last() =~= decimal(n / 10));
        assert forall|i: int| 0 <= i < s.len() implies is_digit(#[trigger] s[i]) by {
            if i < s.len() - 1 {
                assert(s[i] == decimal(n / 10)[i]);
            }
        }
        assert(s[0] == decimal(n / 10)[0]);
        assert(s.last() == digit_char(n % 10));
        assert(n / 10 * 10 + n % 10 == n);
    }
}

proof fn lemma_value_prefix_grows(s: Seq<char>, i: int)
    requires
        0 <= i <= s.len(),
    ensures
        decimal_value(s.take(i)) <= decimal_value(s),
    decreases s.len() - i,
{
    if i < s.len() {
        lemma_value_prefix_grows(s, i + 1);
        assert(s.take(i + 1).drop_last() =~= s.take(i));
    } else {
        assert(s.take(i) =~= s);
    }
}

/// The handle number that a token names, if it names one.
pub open spec fn handle_of(s: Seq<char>) -> Option<u32> {
    if exists|n: u32| s == decimal(n as nat) {
        Some(choose|n: u32| s == decimal(n as nat))
    } else {
        None
    }
}

/// Two different numbers never share a spelling.
pub proof fn lemma_decimal_injective(a: nat, b: nat)
    ensures
        decimal(a) == decimal(b) ==> a == b,
{
    lemma_decimal_shape(a);
    lemma_decimal_shape(b);
}

/// A token read back gives the number it was made from.
pub proof fn lemma_handle_of_token(n: u32)
    ensures
        handle_of(decimal(n as nat)) == Some(n),
{
    let s = decimal(n as nat);
    assert(exists|m: u32| s == decimal(m as nat));
    let m = choose|m: u32| s == decimal(m as nat);
    lemma_decimal_injective(m as nat, n as nat);
}

/// Reads a token back into the handle number it names. Only the shortest
/// decimal spelling of a number in range is accepted, so two different
/// tokens never name the same handle.
pub fn parse_handle(s: &str) -> (r: Option<u32>)
    ensures
        match r {
            Some(n) => s@ == decimal(n as nat),
            None => forall|n: u32| s@ != #[trigger] decimal(n as nat),
        },
        r == handle_of(s@),
{
    let len = s.unicode_len();
    if len == 0 {
        return None;
    }
    if len > 1 && s.get_char(0) == '0' {
        proof {
            assert forall|n: u32| s@ != #[trigger] decimal(n as nat) by {
                lemma_decimal_shape(n as nat);
                if s@ == decimal(n as nat) && n > 0 {
                    assert(decimal(n as nat)[0] != '0');
                }
                if n == 0 {
                    assert(decimal(0).len() == 1);
                }
            }
        }
        return None;
    }
    let mut v: u64 = 0;
    let mut i: usize = 0;
    while i < len
        invariant
            len == s@.len(),
            0 <= i <= len,
            v <= u32::MAX,
            v == decimal_value(s@.take(i as int)),
            forall|j: int| 0 <= j < i ==> is_digit(#[trigger] s@[j]),
        decreases len - i,
    {
        let c = s.get_char(i);
        if c < '0' || c > '9' {
            proof {
                assert forall|n: u32| s@ != #[trigger] decimal(n as nat) by {
                    lemma_decimal_shape(n as nat);
                }
            }
            return None;
        }
        let nv: u64 = v * 10 + (c as u64 - 48);
        assert(s@.take(i + 1).drop_last() =~= s@.take(i as int));
        if nv > u32::MAX as u64 {
            proof {
                assert forall|n: u32| s@ != #[trigger] decimal(n as nat) by {
                    lemma_decimal_shape(n as nat);
                    lemma_value_prefix_grows(s@, i + 1);
                }
            }
            return None;
        }
        v = nv;
        i = i + 1;
    }
    assert(s@.take(len as int) =~= s@);
    let n = v as u32;
    let t = handle_token(n);
    let owned = s.to_owned();
    if t == owned {
        proof {
            lemma_handle_of_token(n);
        }
        Some(n)
    } else {
        proof {
            assert forall|m: u32| s@ != #[trigger] decimal(m as nat) by {
                lemma_decimal_shape(m as nat);
            }
        }
        None
    }
}

} // verus!
