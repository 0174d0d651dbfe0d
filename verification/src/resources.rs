use vstd::prelude::*;

use crate::cycle::on_trigger;
use crate::direction::Direction;
use crate::display::led_target;
use crate::display::LedStates;
use crate::fault::Fault;
use crate::sensor::RawField;

verus! {

/// The aggregate of everything the periodic trigger touches: the indicator
/// display and the timer's pending flag. The hardware handles behind them —
/// the magnetometer, the GPIO pins, the timer, the diagnostic sink — stay
/// outside this crate; what the cycle logic reads and writes of them is held
/// here as plain state.
pub struct SharedResources {
    /// The on/off state of the eight indicator LEDs.
    pub leds: LedStates,
    /// Whether the periodic timer's update interrupt is pending. The trigger
    /// handler clears it first on every firing, so a firing can never
    /// re-enter while it is being handled.
    pub timer_pending: bool,
}

impl SharedResources {
    pub open spec fn wf(&self) -> bool {
        self.leds.wf()
    }

    /// Fresh resources: every LED off, no firing pending.
    pub fn new() -> (r: SharedResources)
        ensures
            r.wf(),
            r.leds@ == crate::display::led_all_off(),
            !r.timer_pending,
    {
        SharedResources { leds: LedStates::new(), timer_pending: false }
    }
}

/// The single-slot cell that carries the shared resources from the
/// initialization context to the trigger context. It is created empty,
/// populated exactly once, and thereafter exclusively borrowed for the
/// duration of one cycle per trigger firing; a second attempt to populate it
/// is refused with `InitFault`, matching the double-take of a singleton
/// hardware resource.
pub struct ResourceCell {
    slot: Option<SharedResources>,
}

impl ResourceCell {
    /// Whether the cell has been populated.
    pub closed spec fn installed(&self) -> bool {
        self.slot is Some
    }

    /// The resources the cell holds, once populated.
    pub closed spec fn res(&self) -> SharedResources {
        self.slot.unwrap()
    }

    pub open spec fn wf(&self) -> bool {
        self.installed() ==> self.res().wf()
    }

    /// The empty cell that exists from program start.
    pub fn new() -> (c: ResourceCell)
        ensures
            !c.installed(),
    {
        ResourceCell { slot: None }
    }

    pub fn is_installed(&self) -> (b: bool)
        ensures
            b == self.installed(),
    {
        self.slot.is_some()
    }

    /// Populate the cell. Succeeds exactly when the cell is still empty;
    /// populating it twice is the double-take of the singleton resources and
    /// fails with `InitFault`, leaving the first contents untouched.
    pub fn install(&mut self, r: SharedResources) -> (result: Result<(), Fault>)
        requires
            r.wf(),
        ensures
            final(self).wf() == (old(self).wf() || result is Ok),
            match result {
                Ok(()) => !old(self).installed() && final(self).installed() && final(self).res()
                    == r,
                Err(f) => f == Fault::InitFault && old(self).installed() && *final(self) == *old(
                    self,
                ),
            },
    {
        if self.slot.is_some() {
            Err(Fault::InitFault)
        } else {
            self.slot = Some(r);
            Ok(())
        }
    }

    /// The level of one LED of the installed display.
    pub fn led_is_on(&self, i: usize) -> (b: bool)
        requires
            self.installed(),
            self.wf(),
            i < 8,
        ensures
            b == self.res().leds@[i as int],
    {
        match &self.slot {
            Some(res) => res.leds.is_on(i),
            None => {
                proof {
                    assert(false);
                }
                false
            },
        }
    }

    /// Whether the installed timer still has a firing pending.
    pub fn timer_pending(&self) -> (b: bool)
        requires
            self.installed(),
        ensures
            b == self.res().timer_pending,
    {
        match &self.slot {
            Some(res) => res.timer_pending,
            None => {
                proof {
                    assert(false);
                }
                false
            },
        }
    }

    /// One trigger firing against the installed resources: clear the pending
    /// flag, then read, classify and display — see `on_trigger` for the
    /// cycle's contract.
    pub fn trigger(&mut self, reading: Result<RawField, Fault>) -> (r: Result<Direction, Fault>)
        requires
            old(self).installed(),
            old(self).wf(),
        ensures
            final(self).installed(),
            final(self).wf(),
            !final(self).res().timer_pending,
            match reading {
                Ok(f) => r == Ok::<Direction, Fault>(
                    crate::classify::sector_spec(f.x as int, f.y as int),
                ) && final(self).res().leds@ == led_target(
                    crate::classify::sector_spec(f.x as int, f.y as int),
                ),
                Err(e) => r == Err::<Direction, Fault>(e) && final(self).res().leds == old(
                    self,
                ).res().leds,
            },
    {
        match &mut self.slot {
            Some(res) => on_trigger(res, reading),
            None => {
                proof {
                    assert(false);
                }
                Err(Fault::SensorFault)
            },
        }
    }
}

} // verus!
