//! The event sources: what each leaves in the slot when its trigger comes.

use vstd::prelude::*;

use crate::slot::written;
use crate::slot::NotificationSlot;
use crate::slot::SlotTag;

verus! {

/// The period of the interval source, in seconds.
pub const TIMER_PERIOD_SECS: u64 = 5;

/// The button showed a rising edge.
pub fn button_press(slot: &mut NotificationSlot)
    ensures
        final(slot)@ == written(old(slot)@, SlotTag::ButtonPressed),
{
    slot.write(SlotTag::ButtonPressed);
}

/// The period of the interval source is over.
pub fn timer_trigger(slot: &mut NotificationSlot)
    ensures
        final(slot)@ == written(old(slot)@, SlotTag::TimerFired),
{
    slot.write(SlotTag::TimerFired);
}

} // verus!
