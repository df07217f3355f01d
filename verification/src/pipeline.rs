//! A zip/map/filter/sum pipeline over two integer vectors: pair the vectors
//! up to the shorter length, multiply each pair, keep the even products,
//! add ten to each kept product, and sum what is left.

use vstd::prelude::*;

verus! {

/// How many pairs the zip of the two sequences yields: the shorter length.
pub open spec fn zip_len(s1: Seq<i32>, s2: Seq<i32>) -> int {
    if s1.len() <= s2.len() {
        s1.len() as int
    } else {
        s2.len() as int
    }
}

/// What one pair contributes to the sum: its product plus ten if the
/// product is even, nothing otherwise.
pub open spec fn pair_term(a: i32, b: i32) -> int {
    if (a * b) % 2 == 0 {
        a * b + 10
    } else {
        0
    }
}

/// The sum of the contributions of the first `n` pairs.
pub open spec fn sum_take(s1: Seq<i32>, s2: Seq<i32>, n: int) -> int
    decreases n,
{
    if n <= 0 {
        0
    } else {
        sum_take(s1, s2, n - 1) + pair_term(s1[n - 1], s2[n - 1])
    }
}

/// The value of the whole pipeline over the two sequences.
pub open spec fn pipeline_sum(s1: Seq<i32>, s2: Seq<i32>) -> int {
    sum_take(s1, s2, zip_len(s1, s2))
}

/// Runs the pipeline: zip, multiply, keep even products, add ten, sum.
/// The bounds ask only that no product, bumped product or partial sum
/// leaves the `i32` range, as the machine arithmetic demands.
pub fn product_filter_sum(v1: &Vec<i32>, v2: &Vec<i32>) -> (r: i32)
    requires
        forall|k: int| #![trigger v1@[k], v2@[k]]
            0 <= k < zip_len(v1@, v2@) ==> i32::MIN <= v1@[k] * v2@[k] <= i32::MAX && ((v1@[k]
                * v2@[k]) % 2 == 0 ==> v1@[k] * v2@[k] + 10 <= i32::MAX),
        forall|k: int| 0 <= k <= zip_len(v1@, v2@) ==> i32::MIN <= #[trigger] sum_take(
            v1@,
            v2@,
            k,
        ) <= i32::MAX,
    ensures
        r == pipeline_sum(v1@, v2@),
{
    let n: usize = if v1.len() <= v2.len() {
        v1.len()
    } else {
        v2.len()
    };
    let mut acc: i32 = 0;
    let mut i: usize = 0;
    while i < n
        invariant
            n == zip_len(v1@, v2@),
            i <= n,
            acc == sum_take(v1@, v2@, i as int),
            forall|k: int| #![trigger v1@[k], v2@[k]]
                0 <= k < zip_len(v1@, v2@) ==> i32::MIN <= v1@[k] * v2@[k] <= i32::MAX && ((v1@[k]
                    * v2@[k]) % 2 == 0 ==> v1@[k] * v2@[k] + 10 <= i32::MAX),
            forall|k: int| 0 <= k <= zip_len(v1@, v2@) ==> i32::MIN <= #[trigger] sum_take(
                v1@,
                v2@,
                k,
            ) <= i32::MAX,
        decreases n - i,
    {
        let p = v1[i] * v2[i];
        proof {
            assert(i32::MIN <= sum_take(v1@, v2@, i as int + 1) <= i32::MAX);
        }
        if p % 2 == 0 {
            acc = acc + (p + 10);
        }
        i = i + 1;
    }
    acc
}

} // verus!
