//! Machine configuration: paging-port decoding style, RAM size, and the
//! overlay-ROM transition mode of the I/O router.

use vstd::prelude::*;

verus! {

/// How writes to the paging port are matched on the 16-bit port number.
#[derive(Debug, Clone, Copy, PartialEq, Eq, Structural)]
pub enum PortDecoding {
    /// Strict decoding: the port must equal 0x7FFD exactly.
    Full,
    /// Pentagon partial decoding: address bits 15 and 1 must be zero.
    Partial,
}

/// Installed RAM: eight or thirty-two 16 KiB banks.
#[derive(Debug, Clone, Copy, PartialEq, Eq, Structural)]
pub enum MemorySize {
    K128,
    K512,
}

/// Whether accesses to the floppy-controller port group also drive the
/// overlay-ROM transitions, or those are left to the fetch trap alone.
#[derive(Debug, Clone, Copy, PartialEq, Eq, Structural)]
pub enum OverlayIoMode {
    /// Activate the overlay on any FDC port access.
    Strict,
    /// Leave overlay transitions solely to the PC-based fetch trap.
    Passive,
}

/// Machine configuration, fixed at construction.
#[derive(Debug, Clone, Copy, PartialEq, Eq, Structural)]
pub struct Config {
    pub port_decoding: PortDecoding,
    pub memory_size: MemorySize,
    pub overlay_io: OverlayIoMode,
}

impl Default for Config {
    /// Pentagon-style partial decoding, 128 KiB, passive overlay transitions.
    fn default() -> (c: Config)
        ensures
            c == (Config {
                port_decoding: PortDecoding::Partial,
                memory_size: MemorySize::K128,
                overlay_io: OverlayIoMode::Passive,
            }),
    {
        Config {
            port_decoding: PortDecoding::Partial,
            memory_size: MemorySize::K128,
            overlay_io: OverlayIoMode::Passive,
        }
    }
}

} // verus!
