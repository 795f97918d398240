//! The no-hardware stand-ins.
//!
//! On platforms without an FPGA attached, these inert implementations
//! satisfy the engine's interfaces. None of their operations is reached in
//! normal operation; each one either reports failure or yields an inert
//! default, so that reaching one cannot panic or touch any device state.

use vstd::prelude::*;

use crate::buffer::{DrawBuffer, Size};
use crate::core_loop::EventLoopState;
use crate::errors::{CoreError, LoadError, SaveStateError};
use crate::input::CoreInput;
use crate::platform::Core;
use crate::savestate::SaveState;

verus! {

/// A save-state stand-in with a zero-size region.
#[derive(Debug)]
pub struct NullSaveState;

impl NullSaveState {
    /// A zero-size region never diverges from its backing bytes.
    pub fn is_dirty(&self) -> (r: bool)
        ensures
            !r,
    {
        false
    }

    /// The image of a zero-size region is empty.
    pub fn write_to(&self) -> (r: Vec<u8>)
        ensures
            r@ == Seq::<u8>::empty(),
    {
        Vec::new()
    }

    /// Only an empty source matches a zero-size region exactly.
    pub fn read_from(&mut self, source: &[u8]) -> (r: Result<(), SaveStateError>)
        ensures
            r is Ok <==> source@.len() == 0,
            r is Err ==> r == Err::<(), SaveStateError>(SaveStateError::SizeMismatch),
    {
        if source.len() == 0 {
            Ok(())
        } else {
            Err(SaveStateError::SizeMismatch)
        }
    }
}

/// A core stand-in bound to no hardware. It records what is forwarded to
/// it and nothing more; every fallible operation reports failure.
#[derive(Debug)]
pub struct NullCore {
    received: Vec<CoreInput>,
}

impl NullCore {
    /// The raw input events recorded by the stand-in, in order.
    pub closed spec fn received_view(&self) -> Seq<CoreInput> {
        self.received@
    }
}

impl NullCore {
    /// A fresh stand-in that has received nothing.
    pub fn new() -> (r: NullCore)
        ensures
            r.forwarded() == Seq::<CoreInput>::empty(),
    {
        NullCore { received: Vec::new() }
    }

    /// The stand-in is nameless.
    pub fn name(&self) -> (r: Vec<u8>)
        ensures
            r@ == Seq::<u8>::empty(),
    {
        Vec::new()
    }

    /// The stand-in reports its version as unknown.
    pub fn version(&self) -> (r: Option<Vec<u8>>)
        ensures
            r is None,
    {
        None
    }

    /// No slot is supported by hardware that does not exist.
    pub fn load_file(&mut self, _data: &[u8], _slot: usize) -> (r: Result<(), CoreError>)
        ensures
            r == Err::<(), CoreError>(CoreError::UnsupportedSlot),
            *final(self) == *old(self),
    {
        Err(CoreError::UnsupportedSlot)
    }

    /// There is no persistent storage window to bind to.
    pub fn mount_sav(&mut self) -> (r: Result<(), CoreError>)
        ensures
            r == Err::<(), CoreError>(CoreError::IoError),
            *final(self) == *old(self),
    {
        Err(CoreError::IoError)
    }

    /// There is no persistent storage window to validate.
    pub fn check_sav(&mut self) -> (r: Result<(), CoreError>)
        ensures
            r == Err::<(), CoreError>(CoreError::IoError),
            *final(self) == *old(self),
    {
        Err(CoreError::IoError)
    }

    /// The stand-in describes no menu entries.
    pub fn menu_options(&self) -> (r: Vec<Vec<u8>>)
        ensures
            r@.len() == 0,
    {
        Vec::new()
    }

    /// No menu entry exists to act on.
    pub fn trigger_menu(&mut self, _entry: usize) -> (r: Result<bool, CoreError>)
        ensures
            r == Err::<bool, CoreError>(CoreError::ActionFailed),
            *final(self) == *old(self),
    {
        Err(CoreError::ActionFailed)
    }

    /// No status bit is meaningful.
    pub fn status_mask(&self) -> (r: u64)
        ensures
            r == 0u64,
    {
        0
    }

    /// The register file reads as empty.
    pub fn status_bits(&self) -> (r: u64)
        ensures
            r == 0u64,
    {
        0
    }

    /// Writes to the register file go nowhere.
    pub fn set_status_bits(&mut self, _bits: u64)
        ensures
            *final(self) == *old(self),
    {
    }

    /// No video output exists to capture.
    pub fn take_screenshot(&mut self) -> (r: Result<Vec<u8>, CoreError>)
        ensures
            r == Err::<Vec<u8>, CoreError>(CoreError::CaptureFailed),
            *final(self) == *old(self),
    {
        Err(CoreError::CaptureFailed)
    }

    /// Save states are unsupported.
    pub fn save_states(&self) -> (r: Option<&Vec<SaveState>>)
        ensures
            r is None,
    {
        None
    }
}

impl Core for NullCore {
    /// What was forwarded is recorded and discarded.
    open spec fn forwarded(&self) -> Seq<CoreInput> {
        self.received_view()
    }

    fn key_down(&mut self, scancode: u32) {
        self.received.push(CoreInput::KeyDown { scancode });
    }

    fn key_up(&mut self, scancode: u32) {
        self.received.push(CoreInput::KeyUp { scancode });
    }

    fn sdl_button_down(&mut self, index: u8, button: u8) {
        self.received.push(CoreInput::ButtonDown { index, button });
    }

    fn sdl_button_up(&mut self, index: u8, button: u8) {
        self.received.push(CoreInput::ButtonUp { index, button });
    }

    fn sdl_axis_motion(&mut self, index: u8, axis: u8, value: i16) {
        self.received.push(CoreInput::AxisMotion { index, axis, value });
    }
}

/// A core-manager stand-in: with no hardware attached, no core can ever be
/// instantiated.
#[derive(Debug)]
pub struct NullCoreManager;

impl NullCoreManager {
    /// No device exists to program.
    pub fn load_core(&mut self, _program: &[u8]) -> (r: Result<NullCore, LoadError>)
        ensures
            r is Err && r->Err_0 == LoadError::InstantiationFailed,
            *final(self) == *old(self),
    {
        Err(LoadError::InstantiationFailed)
    }

    /// No core is ever current.
    pub fn get_current_core(&mut self) -> (r: Result<NullCore, LoadError>)
        ensures
            r is Err && r->Err_0 == LoadError::InstantiationFailed,
            *final(self) == *old(self),
    {
        Err(LoadError::InstantiationFailed)
    }

    /// No device exists to program the menu core onto.
    pub fn load_menu(&mut self) -> (r: Result<NullCore, LoadError>)
        ensures
            r is Err && r->Err_0 == LoadError::InstantiationFailed,
            *final(self) == *old(self),
    {
        Err(LoadError::InstantiationFailed)
    }

    /// There is no overlay to show.
    pub fn show_menu(&mut self)
        ensures
            *final(self) == *old(self),
    {
    }

    /// There is no overlay to hide.
    pub fn hide_menu(&mut self)
        ensures
            *final(self) == *old(self),
    {
    }
}

/// A platform stand-in: no window, no events, no device.
#[derive(Debug)]
pub struct NullPlatform {
    pub core_manager: NullCoreManager,
}

impl NullPlatform {
    /// A fresh stand-in platform.
    pub fn new() -> (r: NullPlatform)
    {
        NullPlatform { core_manager: NullCoreManager }
    }

    /// Nothing to initialize.
    pub fn init(&mut self)
        ensures
            *final(self) == *old(self),
    {
    }

    /// There is no toolbar to update.
    pub fn update_toolbar(&mut self, _buffer: &DrawBuffer)
        ensures
            *final(self) == *old(self),
    {
    }

    /// There is no main display to update.
    pub fn update_main(&mut self, _buffer: &DrawBuffer)
        ensures
            *final(self) == *old(self),
    {
    }

    /// The absent toolbar has no extent.
    pub fn toolbar_dimensions(&self) -> (r: Size)
        ensures
            r == (Size { width: 0u32, height: 0u32 }),
    {
        Size { width: 0, height: 0 }
    }

    /// The absent main display has no extent.
    pub fn main_dimensions(&self) -> (r: Size)
        ensures
            r == (Size { width: 0u32, height: 0u32 }),
    {
        Size { width: 0, height: 0 }
    }

    /// No platform events ever arrive.
    pub fn events(&mut self) -> (r: EventLoopState)
        ensures
            r@ == Seq::<crate::input::Event>::empty(),
            *final(self) == *old(self),
    {
        EventLoopState::new(Vec::new())
    }

    /// One loop iteration begins: nothing to do.
    pub fn start_loop(&mut self)
        ensures
            *final(self) == *old(self),
    {
    }

    /// One loop iteration ends: nothing to do.
    pub fn end_loop(&mut self)
        ensures
            *final(self) == *old(self),
    {
    }

    /// The stand-in core manager.
    pub fn core_manager_mut(&mut self) -> (r: &mut NullCoreManager)
        ensures
            *r == old(self).core_manager,
            final(self).core_manager == *final(r),
    {
        &mut self.core_manager
    }
}

impl Default for NullPlatform {
    /// A fresh stand-in platform.
    fn default() -> (r: NullPlatform)
    {
        NullPlatform::new()
    }
}

} // verus!
