//! Record identifiers.
//!
//! A record is named by a UUID. The library carries it as the 128-bit number
//! that the UUID is and writes it out in the usual hyphenated form.

use vstd::prelude::*;

verus! {

/// A UUID as a number, most significant byte first.
pub type RecordId = u128;

/// The lower-case hexadecimal digit for `d`.
pub open spec fn hex_digit(d: nat) -> char
    recommends
        d < 16,
{
    if d < 10 {
        (48 + d) as char
    } else {
        (87 + d) as char
    }
}

/// The last `count` hexadecimal digits of `n`, most significant first.
pub open spec fn hex_digits(n: nat, count: nat) -> Seq<char>
    decreases count,
{
    if count == 0 {
        Seq::empty()
    } else {
        hex_digits(n / 16, (count - 1) as nat).push(hex_digit(n % 16))
    }
}

/// The hyphenated form: thirty-two digits in groups of 8, 4, 4, 4 and 12.
pub open spec fn hyphenated(id: u128) -> Seq<char> {
    let d = hex_digits(id as nat, 32);
    d.subrange(0, 8) + "-"@ + d.subrange(8, 12) + "-"@ + d.subrange(12, 16) + "-"@ + d.subrange(
        16,
        20,
    ) + "-"@ + d.subrange(20, 32)
}

/// `uuid::Uuid::from_u128` followed by `to_string`: the number's thirty-two
/// lower-case hexadecimal digits, most significant first, with hyphens behind
/// the digits 8, 12, 16 and 20.
#[verifier::external_body]
pub(crate) fn id_text(id: RecordId) -> (r: String)
    ensures
        r@ == hyphenated(id),
{
    uuid::Uuid::from_u128(id).to_string()
}

proof fn lemma_hex_digits_len(n: nat, count: nat)
    ensures
        hex_digits(n, count).len() == count,
    decreases count,
{
    if count > 0 {
        lemma_hex_digits_len(n / 16, (count - 1) as nat);
    }
}

proof fn lemma_hex_digits_injective(a: nat, b: nat, count: nat)
    requires
        hex_digits(a, count) == hex_digits(b, count),
        a < vstd::arithmetic::power::pow(16, count),
        b < vstd::arithmetic::power::pow(16, count),
    ensures
        a == b,
    decreases count,
{
    reveal(vstd::arithmetic::power::pow);
    if count > 0 {
        let k = (count - 1) as nat;
        let x = hex_digits(a / 16, k);
        let y = hex_digits(b / 16, k);
        assert(x =~= x.push(hex_digit(a % 16)).drop_last());
        assert(y =~= y.push(hex_digit(b % 16)).drop_last());
        assert(x.push(hex_digit(a % 16)).last() == y.push(hex_digit(b % 16)).last());
        assert(vstd::arithmetic::power::pow(16, count) == 16 * vstd::arithmetic::power::pow(
            16,
            k,
        ));
        lemma_hex_digits_injective(a / 16, b / 16, k);
    }
}

/// Different records never read the same.
pub proof fn law_ids_read_differently(a: RecordId, b: RecordId)
    requires
        hyphenated(a) == hyphenated(b),
    ensures
        a == b,
{
    let d = hex_digits(a as nat, 32);
    let e = hex_digits(b as nat, 32);
    lemma_hex_digits_len(a as nat, 32);
    lemma_hex_digits_len(b as nat, 32);
    reveal_strlit("-");
    let s = hyphenated(a);
    let t = hyphenated(b);
    assert forall|i: int| 0 <= i < 32 implies d[i] == e[i] by {
        if i < 8 {
            assert(s[i] == d[i] && t[i] == e[i]);
        } else if i < 12 {
            assert(s[i + 1] == d[i] && t[i + 1] == e[i]);
        } else if i < 16 {
            assert(s[i + 2] == d[i] && t[i + 2] == e[i]);
        } else if i < 20 {
            assert(s[i + 3] == d[i] && t[i + 3] == e[i]);
        } else {
            assert(s[i + 4] == d[i] && t[i + 4] == e[i]);
        }
    }
    assert(d =~= e);
    assert(vstd::arithmetic::power::pow(16, 32) == 0x1_0000_0000_0000_0000_0000_0000_0000_0000int)
        by {
        reveal_with_fuel(vstd::arithmetic::power::pow, 33);
    }
    lemma_hex_digits_injective(a as nat, b as nat, 32);
}

} // verus!
