use vstd::prelude::*;

verus! {

/// Milliseconds from monotonic time `b` to monotonic time `a`, or 0 when
/// `b` is later.
pub open spec fn since(a: u64, b: u64) -> int {
    if a >= b {
        a - b
    } else {
        0
    }
}

} // verus!
