//! Small helpers on integers and vectors.

use vstd::prelude::*;

verus! {

/// The empty sequence holds no element.
pub proof fn lemma_empty_to_multiset<A>(s: Seq<A>)
    requires
        s.len() == 0,
    ensures
        s.to_multiset() == vstd::multiset::Multiset::<A>::empty(),
{
    broadcast use vstd::seq_lib::group_to_multiset_ensures;
    broadcast use vstd::multiset::group_multiset_axioms;

    assert forall|a: A| s.to_multiset().count(a) == 0 by {
        assert(!s.contains(a));
    }
    assert(s.to_multiset() =~= vstd::multiset::Multiset::<A>::empty());
}

/// Index of the first of the last `len` elements of `slice`, or 0 when the slice is shorter.
pub fn index_of_last_n<T>(len: usize, slice: &[T]) -> (index: usize)
    ensures
        index == if len <= slice@.len() { slice@.len() - len } else { 0 },
{
    let slice_len = slice.len();

    if len <= slice_len {
        slice_len - len
    } else {
        0
    }
}

/// Subtraction that stops at zero.
pub open spec fn spec_bounded_sub(a: usize, b: usize) -> usize {
    if b <= a { (a - b) as usize } else { 0 }
}

/// Subtraction that stops at zero.
pub fn bounded_sub(a: usize, b: usize) -> (r: usize)
    ensures
        r == spec_bounded_sub(a, b),
{
    if b <= a {
        a - b
    } else {
        0
    }
}

/// Splits off the last `len` elements of `vec` (all of them when it is shorter) and returns them.
pub fn split_off_bounded<T>(vec: &mut Vec<T>, len: usize) -> (tail: Vec<T>)
    ensures
        final(vec)@ == old(vec)@.take(spec_bounded_sub(old(vec)@.len() as usize, len) as int),
        tail@ == old(vec)@.skip(spec_bounded_sub(old(vec)@.len() as usize, len) as int),
        old(vec)@ == final(vec)@ + tail@,
{
    let at = bounded_sub(vec.len(), len);
    let tail = vec.split_off(at);
    assert(old(vec)@ =~= vec@ + tail@);
    tail
}

/// Removes the element at `index` together with all elements after it. Returns the element and
/// the elements that followed it; `vec` keeps the elements before `index`.
pub fn split_off_around<T>(vec: &mut Vec<T>, index: usize) -> (res: (Option<T>, Vec<T>))
    ensures
        index < old(vec)@.len() ==> {
            &&& final(vec)@ == old(vec)@.take(index as int)
            &&& res.0 == Some(old(vec)@[index as int])
            &&& res.1@ == old(vec)@.skip(index + 1)
        },
        index >= old(vec)@.len() ==> final(vec)@ == old(vec)@ && res.0 is None && res.1@.len() == 0,
{
    if index < vec.len() {
        let rest = vec.split_off(index + 1);
        let item = vec.pop();
        assert(vec@ =~= old(vec)@.take(index as int));
        assert(rest@ =~= old(vec)@.skip(index + 1));
        (item, rest)
    } else {
        (None, Vec::new())
    }
}

/// The character of the decimal digit `d`.
pub open spec fn spec_digit(d: nat) -> char {
    if d == 0 {
        '0'
    } else if d == 1 {
        '1'
    } else if d == 2 {
        '2'
    } else if d == 3 {
        '3'
    } else if d == 4 {
        '4'
    } else if d == 5 {
        '5'
    } else if d == 6 {
        '6'
    } else if d == 7 {
        '7'
    } else if d == 8 {
        '8'
    } else {
        '9'
    }
}

/// The decimal notation of `n`, without leading zeros.
pub open spec fn spec_decimal(n: nat) -> Seq<char>
    decreases n,
{
    if n < 10 {
        seq![spec_digit(n)]
    } else {
        spec_decimal(n / 10).push(spec_digit(n % 10))
    }
}

/// The text of the decimal digit `d`.
fn digit_text(d: u64) -> (s: &'static str)
    requires
        d < 10,
    ensures
        s@ == seq![spec_digit(d as nat)],
{
    proof {
        reveal_strlit("0");
        reveal_strlit("1");
        reveal_strlit("2");
        reveal_strlit("3");
        reveal_strlit("4");
        reveal_strlit("5");
        reveal_strlit("6");
        reveal_strlit("7");
        reveal_strlit("8");
        reveal_strlit("9");
    }
    if d == 0 {
        "0"
    } else if d == 1 {
        "1"
    } else if d == 2 {
        "2"
    } else if d == 3 {
        "3"
    } else if d == 4 {
        "4"
    } else if d == 5 {
        "5"
    } else if d == 6 {
        "6"
    } else if d == 7 {
        "7"
    } else if d == 8 {
        "8"
    } else {
        "9"
    }
}

/// The decimal notation of `n`, as `format!("{}", n)` writes it.
pub fn decimal(n: u64) -> (s: String)
    ensures
        s@ == spec_decimal(n as nat),
    decreases n,
{
    if n < 10 {
        String::from_str(digit_text(n))
    } else {
        let mut s = decimal(n / 10);
        s.append(digit_text(n % 10));
        s
    }
}

/// Ten to the power `k`.
pub open spec fn spec_pow10(k: nat) -> nat
    decreases k,
{
    if k == 0 {
        1
    } else {
        10 * spec_pow10((k - 1) as nat)
    }
}

/// A number below `10^k` has at most `k` digits.
pub proof fn lemma_decimal_len(n: nat, k: nat)
    requires
        1 <= k,
        n < spec_pow10(k),
    ensures
        spec_decimal(n).len() <= k,
    decreases k,
{
    if n >= 10 {
        let p = spec_pow10((k - 1) as nat);
        assert(k >= 2) by {
            if k == 1 {
                assert(spec_pow10(0) == 1);
            }
        }
        assert(n / 10 < p) by (nonlinear_arith)
            requires
                n < 10 * p,
        ;
        lemma_decimal_len(n / 10, (k - 1) as nat);
    }
}

/// A `u64` has at most 20 digits.
pub proof fn lemma_decimal_len_u64(n: u64)
    ensures
        spec_decimal(n as nat).len() <= 20,
{
    reveal_with_fuel(spec_pow10, 21);
    assert(spec_pow10(20) == 100000000000000000000);
    lemma_decimal_len(n as nat, 20);
}

} // verus!
