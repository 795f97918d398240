//! The capability contract every hardware core variant must satisfy.

use vstd::prelude::*;

use crate::input::CoreInput;

verus! {

/// Input-forwarding boundary of the core contract.
///
/// The execution loop forwards every raw platform event to the bound core
/// through these operations — no debouncing, no repeat suppression. The
/// model of what a core has received is its `forwarded` sequence, in arrival
/// order; each operation appends exactly one event. Controller operations
/// take the 0-based index.
pub trait Core {
    /// The raw input events this core has received, in order.
    spec fn forwarded(&self) -> Seq<CoreInput>;

    /// Forward one raw key-down event.
    fn key_down(&mut self, scancode: u32)
        ensures
            final(self).forwarded() == old(self).forwarded().push(
                CoreInput::KeyDown { scancode },
            ),
    ;

    /// Forward one raw key-up event.
    fn key_up(&mut self, scancode: u32)
        ensures
            final(self).forwarded() == old(self).forwarded().push(CoreInput::KeyUp { scancode }),
    ;

    /// Forward one raw controller button-down event.
    fn sdl_button_down(&mut self, index: u8, button: u8)
        ensures
            final(self).forwarded() == old(self).forwarded().push(
                CoreInput::ButtonDown { index, button },
            ),
    ;

    /// Forward one raw controller button-up event.
    fn sdl_button_up(&mut self, index: u8, button: u8)
        ensures
            final(self).forwarded() == old(self).forwarded().push(
                CoreInput::ButtonUp { index, button },
            ),
    ;

    /// Forward one raw controller axis sample.
    fn sdl_axis_motion(&mut self, index: u8, axis: u8, value: i16)
        ensures
            final(self).forwarded() == old(self).forwarded().push(
                CoreInput::AxisMotion { index, axis, value },
            ),
    ;
}

} // verus!
