//! I/O port router.  Partial address decoding: the low byte selects the
//! keyboard/border port (0xFE) and the floppy-controller group (0x1F, 0x3F,
//! 0x5F, 0x7F, 0xFF); the paging port is matched on the full 16 bits or the
//! Pentagon partial pattern, per configuration.

use vstd::prelude::*;

use crate::config::{Config, OverlayIoMode, PortDecoding};
use crate::fdc::{FdcState, FDC};
use crate::keyboard::{spec_kb_read, Keyboard};
use crate::memory::Memory;

verus! {

/// Routes port reads and writes to the keyboard, the floppy controller, the
/// paging port and the border latch.
pub struct IoController {
    /// Border colour, bits 0-2 of the last port-0xFE write.
    pub border_color: u8,
    /// Last value accepted by the paging port.
    pub last_7ffd: u8,
    /// The keyboard matrix.
    pub keyboard: Keyboard,
    /// The floppy controller.
    pub fdc: FDC,
    /// Machine configuration.
    pub config: Config,
}

/// Whether the low port byte selects the floppy-controller register group.
pub open spec fn is_fdc_port(port: u16) -> bool {
    port & 0xFF == 0x1F || port & 0xFF == 0x3F || port & 0xFF == 0x5F || port & 0xFF == 0x7F
        || port & 0xFF == 0xFF
}

/// Whether a port write addresses the paging port under the configured
/// decoding.
pub open spec fn is_paging_port(port: u16, c: Config) -> bool {
    if c.port_decoding == PortDecoding::Full {
        port == 0x7FFD
    } else {
        port & 0x8002 == 0
    }
}

impl IoController {
    /// Components well-formed.
    pub open spec fn wf(self) -> bool {
        &&& self.keyboard.wf()
        &&& self.fdc.wf()
    }

    /// New router around a keyboard and floppy controller.
    pub fn new(keyboard: Keyboard, fdc: FDC, config: Config) -> (io: IoController)
        requires
            keyboard.wf(),
            fdc.wf(),
        ensures
            io.wf(),
            io.border_color == 0,
            io.last_7ffd == 0,
            io.keyboard == keyboard,
            io.fdc == fdc,
            io.config == config,
    {
        IoController { border_color: 0, last_7ffd: 0, keyboard, fdc, config }
    }

    /// Read a port.  0xFE reads the keyboard matrix; the FDC group reads the
    /// controller registers (activating the overlay ROM in strict mode);
    /// anything else returns the floating-bus value 0xFF (deactivating the
    /// overlay in strict mode).
    pub fn read(&mut self, port: u16, mem: &mut Memory) -> (r: u8)
        requires
            old(self).wf(),
            old(mem).wf(),
        ensures
            final(self).wf(),
            final(mem).wf(),
            final(self).border_color == old(self).border_color,
            final(self).last_7ffd == old(self).last_7ffd,
            final(self).keyboard == old(self).keyboard,
            final(self).config == old(self).config,
            final(mem).ram@ == old(mem).ram@,
            final(mem).rom@ == old(mem).rom@,
            final(mem).current_rom == old(mem).current_rom,
            final(mem).trdos_rom_loaded == old(mem).trdos_rom_loaded,
            final(mem).bank3 == old(mem).bank3,
            final(mem).screen_bank == old(mem).screen_bank,
            final(mem).paging_disabled == old(mem).paging_disabled,
            final(mem).is_128k == old(mem).is_128k,
            final(mem).config == old(mem).config,
            old(self).config.overlay_io == OverlayIoMode::Passive ==> final(mem).trdos_rom_active
                == old(mem).trdos_rom_active,
            old(self).config.overlay_io == OverlayIoMode::Strict && port & 0xFF != 0xFE ==> final(mem).trdos_rom_active == (if is_fdc_port(port) {
                old(mem).trdos_rom_loaded || old(mem).trdos_rom_active
            } else {
                false
            }),
            port & 0xFF == 0xFE ==> r == spec_kb_read(old(self).keyboard.matrix@, port) && final(self).fdc == old(self).fdc,
            port & 0xFF == 0x1F ==> r == old(self).fdc.spec_status() && final(self).fdc == (FDC {
                intrq: false,
                ..old(self).fdc
            }),
            port & 0xFF == 0x3F ==> r == old(self).fdc.track && final(self).fdc == old(self).fdc,
            port & 0xFF == 0x5F ==> r == old(self).fdc.sector && final(self).fdc == old(self).fdc,
            port & 0xFF == 0x7F ==> {
                let f = old(self).fdc;
                &&& r == (if f.buffer_pos < f.sector_buffer@.len() {
                    f.sector_buffer@[f.buffer_pos as int]
                } else {
                    0xFFu8
                })
                &&& f.same_selection(final(self).fdc)
                &&& f.same_disks(final(self).fdc)
                &&& final(self).fdc.sector_buffer@ == f.sector_buffer@
                &&& (f.buffer_pos < f.sector_buffer@.len() ==> final(self).fdc.buffer_pos
                    == f.buffer_pos + 1)
                &&& (f.buffer_pos + 1 == f.sector_buffer@.len() ==> !final(self).fdc.drq && final(self).fdc.intrq && final(self).fdc.status == (f.status & 0xFE) && final(self).fdc.state
                    == FdcState::Idle)
                &&& (f.buffer_pos + 1 < f.sector_buffer@.len() ==> final(self).fdc.drq)
            },
            port & 0xFF == 0xFF ==> r == (0x3Fu8 | (if old(self).fdc.intrq {
                0x40u8
            } else {
                0u8
            }) | (if old(self).fdc.drq {
                0x80u8
            } else {
                0u8
            })) && final(self).fdc == old(self).fdc,
            port & 0xFF != 0xFE && !is_fdc_port(port) ==> r == 0xFF && final(self).fdc == old(
                self,
            ).fdc,
    {
        if port & 0xFF == 0xFE {
            return self.keyboard.read(port);
        }
        let port_low = port & 0xFF;
        if port_low == 0x1F || port_low == 0x3F || port_low == 0x5F || port_low == 0x7F || port_low
            == 0xFF {
            if matches!(self.config.overlay_io, OverlayIoMode::Strict) {
                mem.enable_trdos_rom();
            }
            let value = if port_low == 0x1F {
                self.fdc.read_status()
            } else if port_low == 0x3F {
                self.fdc.read_track()
            } else if port_low == 0x5F {
                self.fdc.read_sector()
            } else if port_low == 0x7F {
                self.fdc.read_data()
            } else {
                self.fdc.read_system()
            };
            return value;
        }
        if matches!(self.config.overlay_io, OverlayIoMode::Strict) {
            mem.disable_trdos_rom();
        }
        0xFF
    }

    /// Write a port.  0xFE latches the border colour; the FDC group writes
    /// the controller registers (activating the overlay ROM in strict mode);
    /// the paging port, unless locked, records the value and repages memory;
    /// anything else is ignored (deactivating the overlay in strict mode).
    pub fn write(&mut self, port: u16, value: u8, mem: &mut Memory)
        requires
            old(self).wf(),
            old(mem).wf(),
        ensures
            final(self).wf(),
            final(mem).wf(),
            final(self).keyboard == old(self).keyboard,
            final(self).config == old(self).config,
            final(mem).ram@ == old(mem).ram@,
            final(mem).rom@ == old(mem).rom@,
            final(mem).trdos_rom_loaded == old(mem).trdos_rom_loaded,
            final(mem).is_128k == old(mem).is_128k,
            final(mem).config == old(mem).config,
            port & 0xFF == 0xFE ==> final(self).border_color == (value & 0x07) && final(self).fdc
                == old(self).fdc && final(self).last_7ffd == old(self).last_7ffd && *final(mem)
                == *old(mem),
            port & 0xFF != 0xFE ==> final(self).border_color == old(self).border_color,
            is_fdc_port(port) && port & 0xFF != 0xFE ==> {
                &&& final(self).last_7ffd == old(self).last_7ffd
                &&& final(mem).current_rom == old(mem).current_rom
                &&& final(mem).bank3 == old(mem).bank3
                &&& final(mem).screen_bank == old(mem).screen_bank
                &&& final(mem).paging_disabled == old(mem).paging_disabled
                &&& (old(self).config.overlay_io == OverlayIoMode::Strict ==> final(mem).trdos_rom_active == (old(mem).trdos_rom_loaded || old(mem).trdos_rom_active))
                &&& (old(self).config.overlay_io == OverlayIoMode::Passive ==> final(mem).trdos_rom_active == old(mem).trdos_rom_active)
                &&& (port & 0xFF == 0x1F ==> FDC::write_command_rel(
                    old(self).fdc,
                    value,
                    final(self).fdc,
                ))
                &&& (port & 0xFF == 0x3F ==> final(self).fdc == (FDC {
                    track: value,
                    ..old(self).fdc
                }))
                &&& (port & 0xFF == 0x5F ==> final(self).fdc == (FDC {
                    sector: value,
                    ..old(self).fdc
                }))
                &&& (port & 0xFF == 0x7F ==> FDC::write_data_rel(
                    old(self).fdc,
                    value,
                    final(self).fdc,
                ))
                &&& (port & 0xFF == 0xFF ==> FDC::write_system_rel(
                    old(self).fdc,
                    value,
                    final(self).fdc,
                ))
            },
            !is_fdc_port(port) && port & 0xFF != 0xFE ==> {
                &&& final(self).fdc == old(self).fdc
                &&& (old(self).config.overlay_io == OverlayIoMode::Strict ==> !final(mem).trdos_rom_active)
                &&& (old(self).config.overlay_io == OverlayIoMode::Passive ==> final(mem).trdos_rom_active == old(mem).trdos_rom_active)
                &&& (is_paging_port(port, old(self).config) && old(self).last_7ffd & 0x20 == 0
                    ==> final(self).last_7ffd == value && final(mem).current_rom == Memory::spec_write_7ffd(
                    *old(mem),
                    value,
                ).current_rom && final(mem).bank3 == Memory::spec_write_7ffd(
                    *old(mem),
                    value,
                ).bank3 && final(mem).screen_bank == Memory::spec_write_7ffd(
                    *old(mem),
                    value,
                ).screen_bank && final(mem).paging_disabled == Memory::spec_write_7ffd(
                    *old(mem),
                    value,
                ).paging_disabled)
                &&& (!(is_paging_port(port, old(self).config) && old(self).last_7ffd & 0x20 == 0)
                    ==> final(self).last_7ffd == old(self).last_7ffd && final(mem).current_rom
                    == old(mem).current_rom && final(mem).bank3 == old(mem).bank3 && final(mem).screen_bank == old(mem).screen_bank && final(mem).paging_disabled == old(
                    mem,
                ).paging_disabled)
            },
    {
        if port & 0xFF == 0xFE {
            self.border_color = value & 0x07;
            return ;
        }
        let port_low = port & 0xFF;
        if port_low == 0x1F || port_low == 0x3F || port_low == 0x5F || port_low == 0x7F || port_low
            == 0xFF {
            if matches!(self.config.overlay_io, OverlayIoMode::Strict) {
                mem.enable_trdos_rom();
            }
            if port_low == 0x1F {
                self.fdc.write_command(value);
            } else if port_low == 0x3F {
                self.fdc.write_track(value);
            } else if port_low == 0x5F {
                self.fdc.write_sector(value);
            } else if port_low == 0x7F {
                self.fdc.write_data(value);
            } else {
                self.fdc.write_system(value);
            }
            return ;
        }
        if matches!(self.config.overlay_io, OverlayIoMode::Strict) {
            mem.disable_trdos_rom();
        }
        let is_7ffd = match self.config.port_decoding {
            PortDecoding::Full => port == 0x7FFD,
            PortDecoding::Partial => (port & 0x8002) == 0,
        };
        if is_7ffd {
            if self.last_7ffd & 0x20 == 0 {
                self.last_7ffd = value;
                mem.write_7ffd(value);
            }
        }
    }

    /// Current border colour.
    pub fn get_border_color(&self) -> (r: u8)
        ensures
            r == self.border_color,
    {
        self.border_color
    }

    /// Reset the border latch and the paging-port latch.
    pub fn reset(&mut self)
        requires
            old(self).wf(),
        ensures
            final(self).wf(),
            final(self).border_color == 0,
            final(self).last_7ffd == 0,
            final(self).keyboard == old(self).keyboard,
            final(self).fdc == old(self).fdc,
            final(self).config == old(self).config,
    {
        self.border_color = 0;
        self.last_7ffd = 0;
    }
}

} // verus!
