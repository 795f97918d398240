//! Device handle: the software-side model of the physical FPGA link.
//!
//! The handle tracks the link's lifecycle state, the on-screen-display
//! overlay bit, and a counter of bitstream-programming invocations. How the
//! physical device responds is part of the handle's profile: whether the link
//! reaches its ready state within the driver's own bound, whether it accepts
//! bitstreams, and whether the reset line works. The surrounding application
//! constructs the profile from the real hardware; every operation here is a
//! total, verified transition on the model.

use vstd::prelude::*;

verus! {

/// Lifecycle states of the physical FPGA link.
#[derive(Clone, Copy, Debug, PartialEq, Eq, Structural)]
pub enum FpgaState {
    NotReady,
    Ready,
    Programming,
    Running,
}

/// The configuration a programmed core describes to its software side:
/// identity, menu entries, status-bit mask and save-state region sizes.
pub struct CoreConfig {
    /// The core's name; instantiation fails when it is empty.
    pub name: Vec<u8>,
    /// The core's version; absent when the core reports none.
    pub version: Option<Vec<u8>>,
    /// Labels of the configuration-menu entries, in order.
    pub options: Vec<Vec<u8>>,
    /// Mask of the meaningful status bits.
    pub status_mask: u64,
    /// Sizes of the core's save-state regions, one per slot.
    pub save_sizes: Vec<usize>,
}

/// The physical FPGA link.
pub struct Fpga {
    /// Current lifecycle state.
    pub state: FpgaState,
    /// Whether the on-screen-display overlay is enabled.
    pub osd_enabled: bool,
    /// How many times the bitstream-programming path has been invoked.
    pub program_count: u64,
    /// Profile: the link reaches `Ready` within the driver's bound.
    pub link_ready: bool,
    /// Profile: the device accepts bitstreams.
    pub accepts_program: bool,
    /// Profile: the hardware reset line works.
    pub reset_ok: bool,
    /// Profile: the configuration the device describes once programmed.
    pub config: CoreConfig,
}

impl Fpga {
    /// A fresh handle in `NotReady`, overlay off, no programming done yet.
    pub fn new(link_ready: bool, accepts_program: bool, reset_ok: bool, config: CoreConfig) -> (r:
        Fpga)
        ensures
            r.state == FpgaState::NotReady,
            !r.osd_enabled,
            r.program_count == 0,
            r.link_ready == link_ready,
            r.accepts_program == accepts_program,
            r.reset_ok == reset_ok,
            r.config == config,
    {
        Fpga {
            state: FpgaState::NotReady,
            osd_enabled: false,
            program_count: 0,
            link_ready,
            accepts_program,
            reset_ok,
            config,
        }
    }

    /// Busy-wait, bounded by the driver's own timeout, for the device to
    /// reach `Ready`. Returns whether it did; on failure the link is left
    /// in `NotReady`.
    pub fn wait_for_ready(&mut self) -> (r: bool)
        ensures
            r == old(self).link_ready,
            *final(self) == (Fpga {
                state: if old(self).link_ready {
                    FpgaState::Ready
                } else {
                    FpgaState::NotReady
                },
                ..*old(self)
            }),
    {
        if self.link_ready {
            self.state = FpgaState::Ready;
            true
        } else {
            self.state = FpgaState::NotReady;
            false
        }
    }

    /// Program a bitstream onto the device. Every invocation counts against
    /// the programming counter, accepted or not; the device accepts exactly
    /// when the link is `Ready` and its profile accepts bitstreams.
    pub fn load_rbf(&mut self, _program: &[u8]) -> (r: bool)
        requires
            old(self).program_count < u64::MAX,
        ensures
            r == (old(self).state == FpgaState::Ready && old(self).accepts_program),
            *final(self) == (Fpga {
                state: if r {
                    FpgaState::Programming
                } else {
                    old(self).state
                },
                program_count: (old(self).program_count + 1) as u64,
                ..*old(self)
            }),
    {
        self.program_count = self.program_count + 1;
        if matches!(self.state, FpgaState::Ready) && self.accepts_program {
            self.state = FpgaState::Programming;
            true
        } else {
            false
        }
    }

    /// Issue the hardware reset that brings a freshly programmed core up.
    /// Succeeds exactly when a bitstream was just programmed and the reset
    /// line works; the link is then `Running`.
    pub fn core_reset(&mut self) -> (r: bool)
        ensures
            r == (old(self).state == FpgaState::Programming && old(self).reset_ok),
            *final(self) == (Fpga {
                state: if r {
                    FpgaState::Running
                } else {
                    old(self).state
                },
                ..*old(self)
            }),
    {
        if matches!(self.state, FpgaState::Programming) && self.reset_ok {
            self.state = FpgaState::Running;
            true
        } else {
            false
        }
    }

    /// Enable the on-screen-display overlay. Never touches the
    /// bitstream-programming path.
    pub fn osd_enable(&mut self)
        ensures
            *final(self) == (Fpga { osd_enabled: true, ..*old(self) }),
    {
        self.osd_enabled = true;
    }

    /// Disable the on-screen-display overlay. Never touches the
    /// bitstream-programming path.
    pub fn osd_disable(&mut self)
        ensures
            *final(self) == (Fpga { osd_enabled: false, ..*old(self) }),
    {
        self.osd_enabled = false;
    }
}

} // verus!
