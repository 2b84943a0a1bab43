use vstd::prelude::*;

verus! {

/// Mix the two entropy sources (the cycle counter and the interrupt
/// counter, both read by the caller that owns the hardware) into one
/// number.
pub fn generate_rnd(cycles: u64, index: u64) -> (r: u64)
    ensures
        r == cycles ^ index,
{
    cycles ^ index
}

/// A number drawn into the half-open range from `min` to `max`.  With the
/// bounds reversed nothing is drawn and zero comes back; equal bounds are
/// ruled out, since there is no room between them.
pub fn generate_rnd_rng(min: u64, max: u64, cycles: u64, index: u64) -> (r: u64)
    requires
        min != max,
    ensures
        min > max ==> r == 0,
        min < max ==> r == min + ((cycles ^ index) as int % (max - min)),
{
    if min > max {
        return 0;
    }
    let result = cycles ^ index;
    min + (result % (max - min))
}

} // verus!
