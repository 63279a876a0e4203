use vstd::prelude::*;

verus! {

/// Blink half-period in milliseconds for an object `d` centimetres away.
pub open spec fn blink_delay_of(d: int) -> int {
    if d <= 2 {
        50
    } else if d <= 4 {
        100
    } else if d <= 8 {
        200
    } else if d <= 16 {
        400
    } else if d <= 32 {
        700
    } else {
        1000
    }
}

/// Blink half-period for a distance: the closer the object, the faster.
pub fn calculate_blink_delay(distance_cm: u16) -> (r: u16)
    ensures
        r == blink_delay_of(distance_cm as int),
{
    if distance_cm <= 2 {
        50
    } else if distance_cm <= 4 {
        100
    } else if distance_cm <= 8 {
        200
    } else if distance_cm <= 16 {
        400
    } else if distance_cm <= 32 {
        700
    } else {
        1000
    }
}

/// A closer object never blinks slower.
pub proof fn lemma_blink_delay_monotonic(a: int, b: int)
    requires
        0 <= a <= b,
    ensures
        blink_delay_of(a) <= blink_delay_of(b),
{
}

} // verus!
