//! Object paths: the fixed base of the namespace and the paths made under it.

use vstd::prelude::*;

verus! {

/// The path of the manager object, under which every other object lives.
pub const STRATIS_BASE_PATH: &'static str = "/org/storage/stratis1";

/// The well-known name that the daemon claims on the bus.
pub const STRATIS_BASE_SERVICE: &'static str = "org.storage.stratis1";

/// The number of values of a `u64`.
pub open spec fn index_range() -> int {
    0x1_0000_0000_0000_0000
}

/// The value of an index counter after `k` steps from `n`, wrapping around.
pub open spec fn index_after(n: u64, k: int) -> u64 {
    ((n + k) % index_range()) as u64
}

/// The character of a decimal digit.
pub open spec fn digit_char(d: nat) -> char {
    seq!['0', '1', '2', '3', '4', '5', '6', '7', '8', '9'][d as int]
}

/// The decimal numeral of `n`, without leading zeros.
pub open spec fn decimal(n: nat) -> Seq<char>
    decreases n,
{
    if n < 10 {
        seq![digit_char(n)]
    } else {
        decimal(n / 10).push(digit_char(n % 10))
    }
}

/// The path of the object with index `i`.
pub open spec fn object_path_for(i: u64) -> Seq<char> {
    STRATIS_BASE_PATH@ + seq!['/'] + decimal(i as nat)
}

/// Counting on from `n` by `a` steps and then by `b` is counting by `a + b`.
pub proof fn lemma_index_after_add(n: u64, a: int, b: int)
    requires
        0 <= a,
        0 <= b,
    ensures
        index_after(index_after(n, a), b) == index_after(n, a + b),
{
    let m = index_range();
    vstd::arithmetic::div_mod::lemma_add_mod_noop(n + a, b, m);
    vstd::arithmetic::div_mod::lemma_mod_twice(b, m);
    vstd::arithmetic::div_mod::lemma_add_mod_noop((n + a) % m, b, m);
    vstd::arithmetic::div_mod::lemma_mod_twice(n + a, m);
}

/// The counter after one more step.
pub proof fn lemma_index_after_step(n: u64, k: int)
    requires
        0 <= k,
    ensures
        index_after(n, k).wrapping_add(1) == index_after(n, k + 1),
{
    lemma_index_after_add(n, k, 1);
}

/// The text of one decimal digit.
fn digit_str(d: u64) -> (r: &'static str)
    requires
        d < 10,
    ensures
        r@ == seq![digit_char(d as nat)],
{
    proof {
        reveal_strlit("0123456789");
    }
    let r = "0123456789".substring_char(d as usize, d as usize + 1);
    assert(r@ =~= seq![digit_char(d as nat)]);
    r
}

/// The decimal numeral of `n`.
pub fn decimal_string(n: u64) -> (r: String)
    ensures
        r@ == decimal(n as nat),
    decreases n,
{
    let d = digit_str(n % 10);
    if n < 10 {
        String::from_str(d)
    } else {
        let mut s = decimal_string(n / 10);
        s.append(d);
        s
    }
}

/// The path of the object with index `i`: the base path, a slash and the
/// index in decimal.
pub fn object_path(i: u64) -> (r: String)
    ensures
        r@ == object_path_for(i),
{
    let mut s = String::from_str(STRATIS_BASE_PATH);
    proof {
        reveal_strlit("/");
    }
    s.append("/");
    let d = decimal_string(i);
    s.append(d.as_str());
    s
}

} // verus!
