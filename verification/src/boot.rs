//! Boot-core configuration handed to the legacy firmware caller.
//!
//! Instead of process-wide mutable globals, the boot settings live in an
//! explicit configuration struct, built once at startup and passed by
//! reference across the boundary. The firmware side consumes the scaled
//! timeout and, when the last used core is to be booted, a NUL-free label
//! naming which last-core mode is in effect.

use vstd::prelude::*;

verus! {

/// Which core boots by default.
#[derive(Clone, Debug, PartialEq, Eq)]
pub enum BootCoreConfig {
    /// Boot no core.
    NoBootCore,
    /// Boot whatever core ran last.
    LastCore,
    /// Boot the exact last core, including its selected file.
    ExactLastCore,
    /// Boot a named core.
    CoreName(Vec<u8>),
}

impl BootCoreConfig {
    /// Whether this setting boots some form of the last used core.
    pub open spec fn spec_is_last_core(&self) -> bool {
        self is LastCore || self is ExactLastCore
    }

    /// Whether this setting boots some form of the last used core.
    pub fn is_last_core(&self) -> (r: bool)
        ensures
            r == self.spec_is_last_core(),
    {
        match self {
            BootCoreConfig::LastCore => true,
            BootCoreConfig::ExactLastCore => true,
            _ => false,
        }
    }
}

/// The label the firmware expects for a last-core mode.
pub open spec fn spec_boot_label(b: BootCoreConfig) -> Option<Seq<u8>> {
    match b {
        BootCoreConfig::LastCore => Some(
            seq![0x6cu8, 0x61u8, 0x73u8, 0x74u8, 0x63u8, 0x6fu8, 0x72u8, 0x65u8],
        ),
        BootCoreConfig::ExactLastCore => Some(
            seq![
                0x6cu8,
                0x61u8,
                0x73u8,
                0x74u8,
                0x65u8,
                0x78u8,
                0x61u8,
                0x63u8,
                0x74u8,
                0x63u8,
                0x6fu8,
                0x72u8,
                0x65u8,
            ],
        ),
        _ => None,
    }
}

/// The boot configuration consumed across the firmware boundary.
#[derive(Debug)]
pub struct BootConfig {
    /// The boot timeout, already scaled to the firmware's unit.
    pub timeout: u16,
    /// The last-core mode label, when a last-core mode is configured.
    pub core_type: Option<Vec<u8>>,
}

/// Build the boot configuration: the configured timeout is scaled tenfold
/// for the firmware, and a last-core mode yields its label.
pub fn bootcore_init(bootcore: &BootCoreConfig, timeout_cfg: u16) -> (r: BootConfig)
    requires
        timeout_cfg <= 6553,
    ensures
        r.timeout == timeout_cfg * 10,
        match r.core_type {
            Some(label) => spec_boot_label(*bootcore) == Some(label@),
            None => spec_boot_label(*bootcore) is None,
        },
{
    let timeout = timeout_cfg * 10;
    let core_type = match bootcore {
        BootCoreConfig::LastCore => {
            let mut label: Vec<u8> = Vec::new();
            label.push(0x6c);
            label.push(0x61);
            label.push(0x73);
            label.push(0x74);
            label.push(0x63);
            label.push(0x6f);
            label.push(0x72);
            label.push(0x65);
            proof {
                assert(label@ =~= spec_boot_label(BootCoreConfig::LastCore)->Some_0);
            }
            Some(label)
        },
        BootCoreConfig::ExactLastCore => {
            let mut label: Vec<u8> = Vec::new();
            label.push(0x6c);
            label.push(0x61);
            label.push(0x73);
            label.push(0x74);
            label.push(0x65);
            label.push(0x78);
            label.push(0x61);
            label.push(0x63);
            label.push(0x74);
            label.push(0x63);
            label.push(0x6f);
            label.push(0x72);
            label.push(0x65);
            proof {
                assert(label@ =~= spec_boot_label(BootCoreConfig::ExactLastCore)->Some_0);
            }
            Some(label)
        },
        _ => None,
    };
    BootConfig { timeout, core_type }
}

} // verus!
