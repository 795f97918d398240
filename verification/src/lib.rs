//! Run-time core of a retro-computing platform frontend.
//!
//! The library models and verifies the engine that reconfigures an FPGA with
//! hardware cores: the bitstream container parser, the device handle and its
//! lifecycle, the core manager that loads programs and toggles the on-screen
//! overlay, the capability contract of a core, the save-state persistence
//! contract, and the per-frame execution loop that routes raw input to the
//! active core and matches accumulated input against command shortcuts.

pub mod active_core;
pub mod boot;
pub mod buffer;
pub mod container;
pub mod core_loop;
pub mod core_manager;
pub mod errors;
pub mod fpga;
pub mod input;
pub mod menu;
pub mod null;
pub mod platform;
pub mod savestate;
pub mod shortcut;
