//! Number helpers: parity, echo and a check against fifty.

use vstd::prelude::*;

verus! {

/// A number paired with whether it is even.
pub fn is_even(num: u32) -> (r: (u32, bool))
    ensures
        r.0 == num,
        r.1 == (num % 2 == 0),
{
    let num_even = num % 2 == 0;
    (num, num_even)
}

/// Each number of `start..end` in order, paired with whether it is even.
pub fn parity_table(start: u32, end: u32) -> (r: Vec<(u32, bool)>)
    ensures
        r@.len() == if start < end { end - start } else { 0 },
        forall|i: int|
            0 <= i < r@.len() ==> #[trigger] r@[i] == ((start + i) as u32, (start + i) % 2 == 0),
{
    let mut out: Vec<(u32, bool)> = Vec::new();
    let mut i: u32 = start;
    while i < end
        invariant
            start <= end ==> start <= i <= end,
            start > end ==> i == start,
            out@.len() == i - start,
            forall|k: int|
                0 <= k < out@.len() ==> #[trigger] out@[k] == ((start + k) as u32, (start + k) % 2
                    == 0),
        decreases end - i,
    {
        out.push(is_even(i));
        i = i + 1;
    }
    out
}

/// Hands back its argument unchanged.
pub fn get_data_for_testing(d: u32) -> (r: u32)
    ensures
        r == d,
{
    d
}

/// `Ok(50)` for fifty, an error message for any other number.
pub fn is_it_fifty(num: i32) -> (r: Result<u32, &'static str>)
    ensures
        r is Ok <==> num == 50,
        r matches Ok(v) ==> v == 50,
        r matches Err(e) ==> e@ == "oops it did not work !"@,
{
    let error = "oops it did not work !";
    if num == 50 {
        Ok(num as u32)
    } else {
        Err(error)
    }
}

} // verus!
