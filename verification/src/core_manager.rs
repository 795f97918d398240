//! Core manager: bitstream loading and FPGA lifecycle control.
//!
//! The manager exclusively owns the device handle and orchestrates the load
//! pipeline: detect and strip the bitstream container, wait for the device
//! to reach its ready state, program the bitstream, issue the hardware
//! reset, and instantiate the core bound to the handle. Any successful load
//! implicitly invalidates the previously active core — at most one core is
//! current at a time; a failed load leaves the handle in whatever state the
//! failing step left it. The overlay toggles never touch the programming
//! path.

use vstd::prelude::*;

use crate::active_core::FpgaCore;
use crate::container::{parse_container, spec_parse, magic_tag};
use crate::errors::LoadError;
use crate::fpga::{Fpga, FpgaState};

verus! {

/// The bundled bitstream of the always-available menu core: a wrapped
/// container whose payload is the four bytes `MENU`.
pub open spec fn spec_menu_bitstream() -> Seq<u8> {
    magic_tag() + seq![0u8, 0u8, 0u8, 0u8, 0u8, 0u8] + seq![4u8, 0u8, 0u8, 0u8] + seq![
        0x4du8,
        0x45u8,
        0x4eu8,
        0x55u8,
    ]
}

/// Build the bundled menu bitstream.
fn menu_bitstream() -> (r: Vec<u8>)
    ensures
        r@ == spec_menu_bitstream(),
{
    let mut v: Vec<u8> = Vec::new();
    v.push(0x4d);
    v.push(0x69);
    v.push(0x53);
    v.push(0x54);
    v.push(0x65);
    v.push(0x72);
    v.push(0);
    v.push(0);
    v.push(0);
    v.push(0);
    v.push(0);
    v.push(0);
    v.push(4);
    v.push(0);
    v.push(0);
    v.push(0);
    v.push(0x4d);
    v.push(0x45);
    v.push(0x4e);
    v.push(0x55);
    proof {
        assert(v@ =~= spec_menu_bitstream());
    }
    v
}

/// What one run of the load pipeline guarantees, step by step. `pre` is the
/// handle before, `post` after; `osd_on` says whether a successful load
/// leaves the overlay enabled (the menu core) or disabled (any other).
/// Each failure names the step that failed, exactly when that step fails;
/// success is owed whenever every step succeeds.
pub open spec fn load_spec(
    pre: Fpga,
    program: Seq<u8>,
    r: Result<FpgaCore, LoadError>,
    post: Fpga,
    osd_on: bool,
) -> bool {
    &&& (spec_parse(program) is Err ==> r == Err::<FpgaCore, LoadError>(
        LoadError::MalformedContainer,
    ) && post == pre)
    &&& (spec_parse(program) is Ok && !pre.link_ready ==> r == Err::<FpgaCore, LoadError>(
        LoadError::DeviceTimeout,
    ) && post == (Fpga { state: FpgaState::NotReady, ..pre }))
    &&& (spec_parse(program) is Ok && pre.link_ready && !pre.accepts_program ==> r == Err::<
        FpgaCore,
        LoadError,
    >(LoadError::ProgramRejected) && post == (Fpga {
        state: FpgaState::Ready,
        program_count: (pre.program_count + 1) as u64,
        ..pre
    }))
    &&& (spec_parse(program) is Ok && pre.link_ready && pre.accepts_program && !pre.reset_ok
        ==> r == Err::<FpgaCore, LoadError>(LoadError::ResetFailed) && post == (Fpga {
        state: FpgaState::Programming,
        program_count: (pre.program_count + 1) as u64,
        ..pre
    }))
    &&& (spec_parse(program) is Ok && pre.link_ready && pre.accepts_program && pre.reset_ok
        && pre.config.name@.len() == 0 ==> r == Err::<FpgaCore, LoadError>(
        LoadError::InstantiationFailed,
    ) && post == (Fpga {
        state: FpgaState::Running,
        program_count: (pre.program_count + 1) as u64,
        ..pre
    }))
    &&& (spec_parse(program) is Ok && pre.link_ready && pre.accepts_program && pre.reset_ok
        && pre.config.name@.len() > 0 ==> r is Ok && post == (Fpga {
        state: FpgaState::Running,
        program_count: (pre.program_count + 1) as u64,
        osd_enabled: osd_on,
        ..pre
    }) && ({
        let c = r->Ok_0;
        &&& c.generation == post.program_count
        &&& c.name@ == pre.config.name@
        &&& crate::active_core::opt_bytes_view(c.version) == crate::active_core::opt_bytes_view(
            pre.config.version,
        )
        &&& c.options@.len() == pre.config.options@.len()
        &&& (forall|i: int|
            0 <= i < c.options@.len() ==> (#[trigger] c.options@[i])@ == pre.config.options@[i]@)
        &&& c.status == 0
        &&& c.status_mask == pre.config.status_mask
        &&& c.received@ == Seq::<crate::input::CoreInput>::empty()
        &&& c.save_slots@.len() == pre.config.save_sizes@.len()
        &&& (forall|i: int|
            0 <= i < c.save_slots@.len() ==> (#[trigger] c.save_slots@[i]).region@ == Seq::new(
                pre.config.save_sizes@[i] as nat,
                |j: int| 0u8,
            ) && !c.save_slots@[i].dirty)
        &&& c.rom@ == Seq::<u8>::empty()
        &&& !c.sav_mounted
        &&& c.framebuffer@ == Seq::<u8>::empty()
    }))
}

/// The bundled menu bitstream is a well-formed container: stripping it can
/// never fail, so a responsive device always has a menu core to fall back
/// to.
pub proof fn lemma_menu_bitstream_parses()
    ensures
        spec_parse(spec_menu_bitstream()) == Ok::<Seq<u8>, LoadError>(
            seq![0x4du8, 0x45u8, 0x4eu8, 0x55u8],
        ),
{
    crate::container::lemma_wrap_round_trip(
        seq![0u8, 0u8, 0u8, 0u8, 0u8, 0u8],
        seq![4u8, 0u8, 0u8, 0u8],
        seq![0x4du8, 0x45u8, 0x4eu8, 0x55u8],
    );
}

/// Exactly one core is current at a time: any successful load moves the
/// programming counter past the generation of every core instantiated
/// before it, and the new core alone carries the new generation.
pub proof fn lemma_load_invalidates_previous(
    pre: Fpga,
    program: Seq<u8>,
    r: Result<FpgaCore, LoadError>,
    post: Fpga,
    osd_on: bool,
    prev: FpgaCore,
)
    requires
        pre.program_count < u64::MAX,
        load_spec(pre, program, r, post, osd_on),
        r is Ok,
        prev.generation == pre.program_count,
    ensures
        prev.generation != post.program_count,
        r->Ok_0.generation == post.program_count,
{
}

/// Orchestrates load, reset and instantiation over the exclusively owned
/// device handle.
pub struct CoreManager {
    fpga: Fpga,
}

impl CoreManager {
    /// The device handle as the contracts see it.
    pub closed spec fn fpga_view(&self) -> Fpga {
        self.fpga
    }


    /// Take exclusive ownership of the device handle.
    pub fn new(fpga: Fpga) -> (r: CoreManager)
        ensures
            r.fpga_view() == fpga,
    {
        CoreManager { fpga }
    }

    /// The device handle.
    pub fn fpga(&self) -> (r: &Fpga)
        ensures
            *r == self.fpga_view(),
    {
        &self.fpga
    }

    /// The device handle, for mutation.
    pub fn fpga_mut(&mut self) -> (r: &mut Fpga)
        ensures
            *r == old(self).fpga_view(),
            final(self).fpga_view() == *final(r),
    {
        &mut self.fpga
    }

    /// Whether a core is the one currently bound to the device: nothing was
    /// programmed since it was instantiated.
    pub fn is_current(&self, core: &FpgaCore) -> (r: bool)
        ensures
            r == (core.generation == self.fpga_view().program_count),
    {
        core.generation == self.fpga.program_count
    }

    /// Run the load pipeline on a program buffer: strip the container, wait
    /// for the device, program the bitstream, reset, and instantiate the
    /// core. On success the overlay is disabled.
    pub fn load(&mut self, program: &[u8]) -> (r: Result<FpgaCore, LoadError>)
        requires
            old(self).fpga_view().program_count < u64::MAX,
        ensures
            load_spec(old(self).fpga_view(), program@, r, final(self).fpga_view(), false),
    {
        let payload = match parse_container(program) {
            Ok(p) => p,
            Err(_) => {
                return Err(LoadError::MalformedContainer);
            },
        };
        if !self.fpga.wait_for_ready() {
            return Err(LoadError::DeviceTimeout);
        }
        if !self.fpga.load_rbf(payload) {
            return Err(LoadError::ProgramRejected);
        }
        if !self.fpga.core_reset() {
            return Err(LoadError::ResetFailed);
        }
        let core = match FpgaCore::new(&self.fpga) {
            Ok(c) => c,
            Err(e) => {
                return Err(e);
            },
        };
        self.fpga.osd_disable();
        Ok(core)
    }

    /// Load a program whose bytes were read from a file at the I/O
    /// boundary. On success the overlay is disabled.
    pub fn load_program(&mut self, program: &[u8]) -> (r: Result<FpgaCore, LoadError>)
        requires
            old(self).fpga_view().program_count < u64::MAX,
        ensures
            load_spec(old(self).fpga_view(), program@, r, final(self).fpga_view(), false),
    {
        self.load(program)
    }

    /// Load the bundled menu core through the identical pipeline; on
    /// success the overlay is enabled instead, because the menu core is the
    /// one context in which the overlay must be visible.
    pub fn load_menu(&mut self) -> (r: Result<FpgaCore, LoadError>)
        requires
            old(self).fpga_view().program_count < u64::MAX,
        ensures
            load_spec(old(self).fpga_view(), spec_menu_bitstream(), r, final(self).fpga_view(), true),
    {
        let program = menu_bitstream();
        let core = match self.load(program.as_slice()) {
            Ok(c) => c,
            Err(e) => {
                return Err(e);
            },
        };
        self.fpga.osd_enable();
        Ok(core)
    }

    /// Enable only the overlay bit; the bitstream-programming path is never
    /// invoked and the programming counter stays unchanged.
    pub fn show_menu(&mut self)
        ensures
            final(self).fpga_view() == (Fpga { osd_enabled: true, ..old(self).fpga_view() }),
    {
        self.fpga.osd_enable();
    }

    /// Disable only the overlay bit; the bitstream-programming path is
    /// never invoked and the programming counter stays unchanged.
    pub fn hide_menu(&mut self)
        ensures
            final(self).fpga_view() == (Fpga { osd_enabled: false, ..old(self).fpga_view() }),
    {
        self.fpga.osd_disable();
    }
}

} // verus!
