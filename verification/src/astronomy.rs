//! Integer rules of the coordinate tools: the row of a lunar mansion (宿) in
//! its tables and the number of samples along a proper-motion trajectory.

use vstd::prelude::*;

verus! {

/// Number of lunar mansions; they are numbered `1..=28`.
pub const MANSION_COUNT: usize = 28;

/// `order` numbers a lunar mansion.
pub open spec fn is_mansion_order(order: int) -> bool {
    1 <= order <= MANSION_COUNT
}

/// The table row of mansion number `order`: mansion `k` sits in row `k - 1`;
/// numbers below 1 fall to the first row, numbers above 28 to the last.
pub open spec fn mansion_row(order: int) -> int {
    if order < 1 {
        0
    } else if order > MANSION_COUNT {
        MANSION_COUNT - 1
    } else {
        order - 1
    }
}

/// The table row of mansion number `order`.
pub fn mansion_index(order: usize) -> (i: usize)
    ensures
        i == mansion_row(order as int),
        i < MANSION_COUNT,
{
    let below = order.saturating_sub(1);
    if below < MANSION_COUNT - 1 { below } else { MANSION_COUNT - 1 }
}

/// Every lunar mansion has a row of its own in the tables, and the row gives
/// back the mansion number.
pub proof fn lemma_each_mansion_has_its_own_row(a: int, b: int)
    requires
        is_mansion_order(a),
        is_mansion_order(b),
    ensures
        0 <= mansion_row(a) < MANSION_COUNT,
        mansion_row(a) + 1 == a,
        a != b ==> mansion_row(a) != mansion_row(b),
{
}

/// Number of points sampled along a proper-motion trajectory for `n_points`
/// requested: at least two, so that both ends of the interval are sampled.
pub fn trajectory_point_count(n_points: usize) -> (n: usize)
    ensures
        n == if n_points < 2 { 2 } else { n_points },
{
    if n_points < 2 { 2 } else { n_points }
}

} // verus!
