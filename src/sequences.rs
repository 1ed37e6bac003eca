use vstd::prelude::*;

verus! {

/// The arithmetic sum of a sequence of integers.
pub open spec fn seq_sum(s: Seq<i32>) -> int
    decreases s.len(),
{
    if s.len() == 0 {
        0
    } else {
        seq_sum(s.drop_last()) + s.last() as int
    }
}

/// Every running total of the sequence, from the left, fits in an `i32`.
pub open spec fn running_sums_fit(s: Seq<i32>) -> bool {
    forall|k: int|
        0 <= k <= s.len() ==> i32::MIN <= #[trigger] seq_sum(s.take(k)) <= i32::MAX
}

/// Returns the sum of the elements; zero for an empty slice.
pub fn sum_slice(slice: &[i32]) -> (r: i32)
    requires
        running_sums_fit(slice@),
    ensures
        r as int == seq_sum(slice@),
{
    let mut total: i32 = 0;
    let mut i: usize = 0;
    while i < slice.len()
        invariant
            0 <= i <= slice@.len(),
            running_sums_fit(slice@),
            total as int == seq_sum(slice@.take(i as int)),
        decreases slice@.len() - i,
    {
        proof {
            let next = slice@.take(i as int + 1);
            assert(next.drop_last() =~= slice@.take(i as int));
            assert(seq_sum(next) == seq_sum(slice@.take(i as int + 1)));
        }
        total = total + slice[i];
        i = i + 1;
    }
    proof {
        assert(slice@.take(i as int) =~= slice@);
    }
    total
}

/// The integers from zero up to, not including, five, as a lazy range.
pub fn create_range_iter() -> (r: core::ops::Range<i32>)
    ensures
        r.start == 0,
        r.end == 5,
{
    0..5
}

/// Doubles each element, then keeps the doubled values greater than five, in order.
pub open spec fn doubled_over_five(s: Seq<i32>) -> Seq<int>
    decreases s.len(),
{
    if s.len() == 0 {
        Seq::empty()
    } else {
        let d = 2 * s.last();
        if d > 5 {
            doubled_over_five(s.drop_last()).push(d)
        } else {
            doubled_over_five(s.drop_last())
        }
    }
}

/// Doubles each element and keeps the results greater than five, in their order.
pub fn double_and_filter(nums: &[i32]) -> (r: Vec<i32>)
    requires
        forall|k: int| 0 <= k < nums@.len() ==> i32::MIN <= 2 * #[trigger] nums@[k] <= i32::MAX,
    ensures
        r@.map_values(|x: i32| x as int) == doubled_over_five(nums@),
{
    let mut out: Vec<i32> = Vec::new();
    let mut i: usize = 0;
    while i < nums.len()
        invariant
            0 <= i <= nums@.len(),
            forall|k: int| 0 <= k < nums@.len() ==> i32::MIN <= 2 * #[trigger] nums@[k] <= i32::MAX,
            out@.map_values(|x: i32| x as int) == doubled_over_five(nums@.take(i as int)),
        decreases nums@.len() - i,
    {
        let d: i32 = 2 * nums[i];
        proof {
            let next = nums@.take(i as int + 1);
            assert(next.drop_last() =~= nums@.take(i as int));
            assert(next.last() == nums@[i as int]);
        }
        if d > 5 {
            out.push(d);
        }
        proof {
            assert(out@.map_values(|x: i32| x as int) =~= doubled_over_five(nums@.take(i as int + 1)));
        }
        i = i + 1;
    }
    proof {
        assert(nums@.take(i as int) =~= nums@);
    }
    out
}

} // verus!
