use vstd::prelude::*;

verus! {

/// Relies on rand::random: a value drawn from the thread-local generator.
/// Nothing is promised of the result beyond its type.
pub assume_specification<T>[ rand::random::<T> ]() -> (r: T)
    where
        rand::distributions::Standard: rand::distributions::Distribution<T>,
;

/// A random coordinate in `[lo, hi]`, reduced from one raw draw.
/// Whatever the generator returned, the result lies in the range.
pub fn draw_in_range(lo: i64, hi: i64) -> (r: i64)
    requires
        0 <= lo <= hi,
    ensures
        lo <= r <= hi,
{
    let raw: u64 = rand::random::<u64>();
    let span: u64 = ((hi - lo) as u64) + 1;
    let off: u64 = raw % span;
    lo + (off as i64)
}

} // verus!
