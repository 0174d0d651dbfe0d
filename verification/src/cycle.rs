use vstd::prelude::*;

use crate::classify::classify;
use crate::classify::sector_spec;
use crate::direction::Direction;
use crate::display::led_target;
use crate::display::show;
use crate::fault::Fault;
use crate::resources::SharedResources;
use crate::sensor::RawField;

verus! {

/// One full sampling cycle, run once per timer firing, strictly serialized:
/// clear the pending flag, then take the sensor's answer for this tick and
/// either display the heading it gives or skip the rest of the cycle.
///
/// The sensor read itself is a bus transaction and happens outside; the
/// cycle receives its outcome as a plain `Result`. On a fresh field vector
/// the heading is classified and the display driven to exactly that sector.
/// On a sensor fault the cycle is skipped: the fault is handed back
/// unchanged, no stale display update happens, and the previously shown
/// sector stays lit — the fault does not propagate beyond this firing, and
/// the next firing starts over.
pub fn on_trigger(res: &mut SharedResources, reading: Result<RawField, Fault>) -> (r: Result<
    Direction,
    Fault,
>)
    requires
        old(res).wf(),
    ensures
        final(res).wf(),
        !final(res).timer_pending,
        match reading {
            Ok(f) => r == Ok::<Direction, Fault>(sector_spec(f.x as int, f.y as int))
                && final(res).leds@ == led_target(sector_spec(f.x as int, f.y as int)),
            Err(e) => r == Err::<Direction, Fault>(e) && final(res).leds == old(res).leds,
        },
{
    res.timer_pending = false;
    match reading {
        Ok(f) => {
            let d = classify(f.x, f.y);
            show(d, &mut res.leds);
            Ok(d)
        },
        Err(e) => Err(e),
    }
}

} // verus!
