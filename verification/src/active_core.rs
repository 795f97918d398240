//! The active hardware core bound to the device handle.
//!
//! A [`FpgaCore`] is created by the core manager after a successful
//! bitstream load and device reset. It carries the identity and menu entries
//! the programmed hardware describes, the status-bit register file, the
//! core's save-state slots, and the log of raw input events forwarded to it.
//! A core is current exactly while its generation equals the device's
//! programming counter: programming anything else implicitly invalidates it.

use vstd::prelude::*;

use crate::errors::{CoreError, LoadError};
use crate::fpga::{Fpga, FpgaState};
use crate::input::CoreInput;
use crate::platform::Core;
use crate::savestate::SaveState;

verus! {

/// Copy a byte string.
fn clone_bytes(v: &Vec<u8>) -> (r: Vec<u8>)
    ensures
        r@ == v@,
{
    let mut r: Vec<u8> = Vec::new();
    let mut i: usize = 0;
    while i < v.len()
        invariant
            i <= v@.len(),
            r@ == v@.subrange(0, i as int),
        decreases v@.len() - i,
    {
        r.push(v[i]);
        proof {
            assert(r@ =~= v@.subrange(0, i + 1));
        }
        i = i + 1;
    }
    proof {
        assert(r@ =~= v@);
    }
    r
}

/// The view of an optional byte string.
pub open spec fn opt_bytes_view(v: Option<Vec<u8>>) -> Option<Seq<u8>> {
    match v {
        Option::None => Option::None,
        Option::Some(b) => Option::Some(b@),
    }
}

/// The currently active hardware core.
#[derive(Debug)]
pub struct FpgaCore {
    /// The core's name, as the hardware describes it.
    pub name: Vec<u8>,
    /// The core's version; reported as unknown when absent.
    pub version: Option<Vec<u8>>,
    /// Labels of the core's configuration-menu entries, in order.
    pub options: Vec<Vec<u8>>,
    /// Mask of the meaningful status bits.
    pub status_mask: u64,
    /// Current values of the status-bit register file.
    pub status: u64,
    /// The device programming count this core was instantiated at; the core
    /// is current while it equals the device's counter.
    pub generation: u64,
    /// Raw input events forwarded to this core, in arrival order.
    pub received: Vec<CoreInput>,
    /// The core's save-state slots.
    pub save_slots: Vec<SaveState>,
    /// The core-specific memory region loaded from a ROM/data file.
    pub rom: Vec<u8>,
    /// Whether an external save-data file is bound to the core's persistent
    /// storage window.
    pub sav_mounted: bool,
    /// The latest presented video frame; empty until one is presented.
    pub framebuffer: Vec<u8>,
}

impl FpgaCore {
    /// Instantiate the core the freshly programmed device describes.
    /// Succeeds exactly when the device is running a core and describes a
    /// nonempty name; everything else is core-specific post-reset setup
    /// failing.
    pub fn new(fpga: &Fpga) -> (r: Result<FpgaCore, LoadError>)
        ensures
            r is Ok <==> (fpga.state == FpgaState::Running && fpga.config.name@.len() > 0),
            r is Err ==> r == Err::<FpgaCore, LoadError>(LoadError::InstantiationFailed),
            r is Ok ==> ({
                let c = r->Ok_0;
                &&& c.name@ == fpga.config.name@
                &&& opt_bytes_view(c.version) == opt_bytes_view(fpga.config.version)
                &&& c.options@.len() == fpga.config.options@.len()
                &&& (forall|i: int|
                    0 <= i < c.options@.len() ==> (#[trigger] c.options@[i])@
                        == fpga.config.options@[i]@)
                &&& c.status_mask == fpga.config.status_mask
                &&& c.status == 0
                &&& c.generation == fpga.program_count
                &&& c.received@ == Seq::<CoreInput>::empty()
                &&& c.save_slots@.len() == fpga.config.save_sizes@.len()
                &&& (forall|i: int|
                    0 <= i < c.save_slots@.len() ==> (#[trigger] c.save_slots@[i]).region@
                        == Seq::new(fpga.config.save_sizes@[i] as nat, |j: int| 0u8)
                        && !c.save_slots@[i].dirty)
                &&& c.rom@ == Seq::<u8>::empty()
                &&& !c.sav_mounted
                &&& c.framebuffer@ == Seq::<u8>::empty()
            }),
    {
        if !matches!(fpga.state, FpgaState::Running) || fpga.config.name.len() == 0 {
            return Err(LoadError::InstantiationFailed);
        }
        let name = clone_bytes(&fpga.config.name);
        let version = match &fpga.config.version {
            Option::None => Option::None,
            Option::Some(v) => Option::Some(clone_bytes(v)),
        };
        let mut options: Vec<Vec<u8>> = Vec::new();
        let mut i: usize = 0;
        while i < fpga.config.options.len()
            invariant
                i <= fpga.config.options@.len(),
                options@.len() == i,
                forall|j: int|
                    0 <= j < i ==> (#[trigger] options@[j])@ == fpga.config.options@[j]@,
            decreases fpga.config.options@.len() - i,
        {
            options.push(clone_bytes(&fpga.config.options[i]));
            i = i + 1;
        }
        let mut save_slots: Vec<SaveState> = Vec::new();
        let mut i: usize = 0;
        while i < fpga.config.save_sizes.len()
            invariant
                i <= fpga.config.save_sizes@.len(),
                save_slots@.len() == i,
                forall|j: int|
                    0 <= j < i ==> (#[trigger] save_slots@[j]).region@ == Seq::new(
                        fpga.config.save_sizes@[j] as nat,
                        |b: int| 0u8,
                    ) && !save_slots@[j].dirty,
            decreases fpga.config.save_sizes@.len() - i,
        {
            save_slots.push(SaveState::new(fpga.config.save_sizes[i]));
            i = i + 1;
        }
        Ok(
            FpgaCore {
                name,
                version,
                options,
                status_mask: fpga.config.status_mask,
                status: 0,
                generation: fpga.program_count,
                received: Vec::new(),
                save_slots,
                rom: Vec::new(),
                sav_mounted: false,
                framebuffer: Vec::new(),
            },
        )
    }

    /// Identity query: the core's name.
    pub fn name(&self) -> (r: &Vec<u8>)
        ensures
            r@ == self.name@,
    {
        &self.name
    }

    /// Identity query: the core's version, or none when the core reports
    /// its version as unknown.
    pub fn version(&self) -> (r: Option<&Vec<u8>>)
        ensures
            match r {
                Option::Some(v) => self.version is Some && v@ == self.version->0@,
                Option::None => self.version is None,
            },
    {
        self.version.as_ref()
    }

    /// The parsed configuration-menu entries; read-only, side-effect-free.
    pub fn menu_options(&self) -> (r: &Vec<Vec<u8>>)
        ensures
            r@ == self.options@,
    {
        &self.options
    }

    /// Execute one menu entry's action: the entry toggles its status bit
    /// within the mask, and the menu stays open. Fails when no such entry
    /// exists.
    pub fn trigger_menu(&mut self, entry: usize) -> (r: Result<bool, CoreError>)
        ensures
            r is Ok <==> entry < old(self).options@.len(),
            r is Ok ==> r == Ok::<bool, CoreError>(false) && *final(self) == (FpgaCore {
                status: old(self).status ^ ((1u64 << ((entry as u64) % 64))
                    & old(self).status_mask),
                ..*old(self)
            }),
            r is Err ==> r == Err::<bool, CoreError>(CoreError::ActionFailed) && *final(self)
                == *old(self),
    {
        if entry >= self.options.len() {
            return Err(CoreError::ActionFailed);
        }
        let bit: u64 = (1u64 << ((entry as u64) % 64)) & self.status_mask;
        self.status = self.status ^ bit;
        Ok(false)
    }

    /// The mask of meaningful status bits.
    pub fn status_mask(&self) -> (r: u64)
        ensures
            r == self.status_mask,
    {
        self.status_mask
    }

    /// Current values of the status-bit register file.
    pub fn status_bits(&self) -> (r: u64)
        ensures
            r == self.status,
    {
        self.status
    }

    /// Write the status-bit register file; only bits within the mask are
    /// meaningful and retained.
    pub fn set_status_bits(&mut self, bits: u64)
        ensures
            *final(self) == (FpgaCore { status: bits & old(self).status_mask, ..*old(self) }),
    {
        self.status = bits & self.status_mask;
    }

    /// Load ROM/data bytes into the core-specific memory region. The file
    /// itself is read at the I/O boundary; only slot 0 is supported by this
    /// core.
    pub fn load_file(&mut self, data: &[u8], slot: usize) -> (r: Result<(), CoreError>)
        ensures
            r is Ok <==> slot == 0,
            r is Ok ==> final(self).rom@ == data@ && *final(self) == (FpgaCore {
                rom: final(self).rom,
                ..*old(self)
            }),
            r is Err ==> r == Err::<(), CoreError>(CoreError::UnsupportedSlot) && *final(self)
                == *old(self),
    {
        if slot != 0 {
            return Err(CoreError::UnsupportedSlot);
        }
        self.rom = vstd::slice::slice_to_vec(data);
        Ok(())
    }

    /// Bind an external save-data file to the core's persistent storage
    /// window; the file itself lives at the I/O boundary.
    pub fn mount_sav(&mut self) -> (r: Result<(), CoreError>)
        ensures
            r is Ok,
            *final(self) == (FpgaCore { sav_mounted: true, ..*old(self) }),
    {
        self.sav_mounted = true;
        Ok(())
    }

    /// Validate the bound save-data file against the core's persistent
    /// storage window; fails when none is bound.
    pub fn check_sav(&mut self) -> (r: Result<(), CoreError>)
        ensures
            *final(self) == *old(self),
            r is Ok <==> old(self).sav_mounted,
            r is Err ==> r == Err::<(), CoreError>(CoreError::IoError),
    {
        if self.sav_mounted {
            Ok(())
        } else {
            Err(CoreError::IoError)
        }
    }

    /// Capture the current video output: the latest presented frame. Fails
    /// when no frame has been presented yet.
    pub fn take_screenshot(&mut self) -> (r: Result<Vec<u8>, CoreError>)
        ensures
            *final(self) == *old(self),
            r is Ok <==> old(self).framebuffer@.len() > 0,
            r is Ok ==> r->Ok_0@ == old(self).framebuffer@,
            r is Err ==> r == Err::<Vec<u8>, CoreError>(CoreError::CaptureFailed),
    {
        if self.framebuffer.len() == 0 {
            return Err(CoreError::CaptureFailed);
        }
        Ok(clone_bytes(&self.framebuffer))
    }

    /// The video path presents its latest frame to the engine.
    pub fn present_frame(&mut self, frame: &[u8])
        ensures
            final(self).framebuffer@ == frame@,
            *final(self) == (FpgaCore { framebuffer: final(self).framebuffer, ..*old(self) }),
    {
        self.framebuffer = vstd::slice::slice_to_vec(frame);
    }

    /// The core's save-state handles, or none if it supports none.
    pub fn save_states(&self) -> (r: Option<&Vec<SaveState>>)
        ensures
            match r {
                Option::Some(v) => v@ == self.save_slots@ && self.save_slots@.len() > 0,
                Option::None => self.save_slots@.len() == 0,
            },
    {
        if self.save_slots.len() == 0 {
            None
        } else {
            Some(&self.save_slots)
        }
    }
}

impl Core for FpgaCore {
    /// The raw input events this core has received, in order.
    open spec fn forwarded(&self) -> Seq<CoreInput> {
        self.received@
    }

    fn key_down(&mut self, scancode: u32) {
        self.received.push(CoreInput::KeyDown { scancode });
    }

    fn key_up(&mut self, scancode: u32) {
        self.received.push(CoreInput::KeyUp { scancode });
    }

    fn sdl_button_down(&mut self, index: u8, button: u8) {
        self.received.push(CoreInput::ButtonDown { index, button });
    }

    fn sdl_button_up(&mut self, index: u8, button: u8) {
        self.received.push(CoreInput::ButtonUp { index, button });
    }

    fn sdl_axis_motion(&mut self, index: u8, axis: u8, value: i16) {
        self.received.push(CoreInput::AxisMotion { index, axis, value });
    }
}

} // verus!
