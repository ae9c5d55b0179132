//! Daily light window.
use vstd::prelude::*;

verus! {

/// Hours in one day.
pub const HOURS_PER_DAY: u64 = 24;

/// The hour of day that lies `offset` hours after `start`.
pub open spec fn hour_after(start: int, offset: int) -> int {
    (start + offset) % 24
}

/// True when `current_hour` is one of the `24 - on_hours` consecutive hours
/// that start at `lights_out` and wrap past midnight.
pub open spec fn in_light_window(on_hours: int, lights_out: int, current_hour: int) -> bool {
    exists|i: int| 0 <= i < 24 - on_hours && #[trigger] hour_after(lights_out, i) == current_hour
}

/// Decides the light relay for the hour `current_hour`: true exactly when the
/// hour falls in the window of `24 - on_hours` hours counted from `lights_out`,
/// taken modulo 24.
pub fn should_turn_on_light(on_hours: u64, lights_out: u64, current_hour: u64) -> (r: bool)
    requires
        on_hours <= HOURS_PER_DAY,
        lights_out + (HOURS_PER_DAY - on_hours) <= u64::MAX,
    ensures
        r == in_light_window(on_hours as int, lights_out as int, current_hour as int),
{
    let off_hours: u64 = HOURS_PER_DAY - on_hours;
    let mut i: u64 = 0;
    while i < off_hours
        invariant
            off_hours == 24 - on_hours,
            i <= off_hours,
            lights_out + off_hours <= u64::MAX,
            forall|j: int| 0 <= j < i ==> #[trigger] hour_after(lights_out as int, j) != current_hour,
        decreases off_hours - i,
    {
        if (lights_out + i) % HOURS_PER_DAY == current_hour {
            assert(hour_after(lights_out as int, i as int) == current_hour);
            return true;
        }
        i = i + 1;
    }
    false
}

} // verus!
