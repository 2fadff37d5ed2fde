//! The order of thread identifiers: their texts stand in the order of their values.

use crate::error::ThreadId;
use crate::outside::hex_char;
use crate::outside::pow16;
use vstd::prelude::*;

verus! {

/// Whether a text stands before another in the order of texts.
pub open spec fn text_before(a: Seq<char>, b: Seq<char>) -> bool {
    exists|k: int| #[trigger] parts_at(a, b, k)
}

/// Whether two texts agree before a position at which the first comes before the second.
pub open spec fn parts_at(a: Seq<char>, b: Seq<char>, k: int) -> bool {
    &&& 0 <= k <= a.len()
    &&& k < b.len()
    &&& a.take(k) == b.take(k)
    &&& k < a.len() ==> (a[k] as u32) < (b[k] as u32)
}

/// The number that the leading digits spell, up to and with the digit at a position.
spec fn leading(value: u128, j: nat) -> nat {
    (value as nat) / pow16((31 - j) as nat)
}

/// Where a digit stands in the hyphenated form.
spec fn position(j: int) -> int {
    if j < 8 {
        j
    } else if j < 12 {
        j + 1
    } else if j < 16 {
        j + 2
    } else if j < 20 {
        j + 3
    } else {
        j + 4
    }
}

proof fn lemma_pow16_positive(n: nat)
    ensures
        pow16(n) > 0,
    decreases n,
{
    if n > 0 {
        lemma_pow16_positive((n - 1) as nat);
    }
}

proof fn lemma_leading_step(value: u128, j: nat)
    requires
        1 <= j <= 31,
    ensures
        leading(value, (j - 1) as nat) == leading(value, j) / 16,
{
    let power = pow16((31 - j) as nat);
    lemma_pow16_positive((31 - j) as nat);
    assert(pow16((32 - j) as nat) == 16 * power);
    vstd::arithmetic::div_mod::lemma_div_denominator(value as int, power as int, 16);
    assert(power * 16 == 16 * power);
}

proof fn lemma_first_digit(value: u128)
    ensures
        leading(value, 0) < 16,
{
    reveal_with_fuel(pow16, 32);
    let power = pow16(31);
    let v = value as nat;
    assert(v < 16 * power);
    assert(v / power < 16) by (nonlinear_arith)
        requires
            v < 16 * power,
            power > 0,
    ;
}

proof fn lemma_last_digit(value: u128)
    ensures
        leading(value, 31) == value as nat,
{
    assert(pow16(0) == 1);
    vstd::arithmetic::div_mod::lemma_div_basics(value as int);
}

proof fn lemma_leading_agrees(a: u128, b: u128, k: nat, i: nat)
    requires
        i <= k <= 31,
        leading(a, k) == leading(b, k),
    ensures
        leading(a, i) == leading(b, i),
    decreases k - i,
{
    if i < k {
        lemma_leading_step(a, k);
        lemma_leading_step(b, k);
        lemma_leading_agrees(a, b, (k - 1) as nat, i);
    }
}

/// The first digit at which two numbers part.
proof fn lemma_parting_digit(a: u128, b: u128, j: nat) -> (k: nat)
    requires
        j <= 31,
        leading(a, j) < leading(b, j),
    ensures
        k <= j,
        leading(a, k) < leading(b, k),
        forall|i: nat| i < k ==> leading(a, i) == leading(b, i),
    decreases j,
{
    if j == 0 {
        0
    } else {
        let before = (j - 1) as nat;
        lemma_leading_step(a, j);
        lemma_leading_step(b, j);
        if leading(a, before) == leading(b, before) {
            assert forall|i: nat| i < j implies leading(a, i) == leading(b, i) by {
                lemma_leading_agrees(a, b, before, i);
            }
            j
        } else {
            lemma_parting_digit(a, b, before)
        }
    }
}

/// Of two identifiers, the one with the smaller value has the text that stands first.
pub proof fn texts_stand_in_the_order_of_values(a: ThreadId, b: ThreadId)
    requires
        a.value < b.value,
    ensures
        text_before(a.text(), b.text()),
{
    lemma_last_digit(a.value);
    lemma_last_digit(b.value);
    let k = lemma_parting_digit(a.value, b.value, 31);
    let at = position(k as int);
    let x = a.text();
    let y = b.text();
    let p = leading(a.value, k);
    let q = leading(b.value, k);
    if k == 0 {
        lemma_first_digit(a.value);
        lemma_first_digit(b.value);
    } else {
        lemma_leading_step(a.value, k);
        lemma_leading_step(b.value, k);
        assert(p / 16 == q / 16);
    }
    assert(p % 16 < q % 16);
    assert(x[at] == hex_char(p % 16));
    assert(y[at] == hex_char(q % 16));
    assert((x[at] as u32) < (y[at] as u32));
    assert(x.take(at) =~= y.take(at)) by {
        assert forall|i: int| 0 <= i < at implies x[i] == y[i] by {
            if i != 8 && i != 13 && i != 18 && i != 23 {
                let before = if i < 8 {
                    0int
                } else if i < 13 {
                    1
                } else if i < 18 {
                    2
                } else if i < 23 {
                    3
                } else {
                    4
                };
                let j = (i - before) as nat;
                assert(j < k);
                assert(leading(a.value, j) == leading(b.value, j));
            }
        }
    }
    assert(parts_at(x, y, at));
}

} // verus!
