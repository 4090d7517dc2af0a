//! Bank-switched memory: eight or thirty-two 16 KiB RAM banks, two main ROMs
//! and one overlay ROM, the 0x7FFD paging port, and the overlay activation
//! used by the disk firmware.
//!
//! Slot layout: slot 0 (0x0000-0x3FFF) reads ROM and ignores writes; slot 1
//! is always RAM bank 5; slot 2 is always bank 2; slot 3 is the switchable
//! bank.

use vstd::prelude::*;

use crate::config::{Config, MemorySize};

verus! {

/// Size of one RAM or ROM bank in bytes.
pub const BANK_SIZE: usize = 16384;

/// Bank-switched memory with three ROM banks (0, 1 main; 2 overlay).
pub struct Memory {
    /// RAM, 131072 or 524288 bytes, addressed as 16 KiB banks.
    pub ram: Vec<u8>,
    /// Three contiguous 16 KiB ROM banks: main 0, main 1, overlay.
    pub rom: Vec<u8>,
    /// Currently selected main ROM (0 or 1).
    pub current_rom: usize,
    /// Overlay ROM currently mapped over slot 0.
    pub trdos_rom_active: bool,
    /// Overlay ROM image has been loaded into ROM bank 2.
    pub trdos_rom_loaded: bool,
    /// RAM bank mapped at slot 3 (0xC000-0xFFFF).
    pub bank3: usize,
    /// Screen bank selected by the paging port (5 or 7).
    pub screen_bank: usize,
    /// Once set, paging-port writes are ignored until reset.
    pub paging_disabled: bool,
    /// A 32 KiB main ROM pair has been loaded.
    pub is_128k: bool,
    /// Machine configuration.
    pub config: Config,
}

impl Memory {
    /// Number of 16 KiB RAM banks installed.
    pub open spec fn num_banks(self) -> int {
        self.ram@.len() as int / 16384
    }

    /// Structural well-formedness: sizes fixed by the configuration, bank
    /// selectors in range, and the overlay active only when loaded.
    pub open spec fn wf(self) -> bool {
        &&& self.rom@.len() == 3 * 16384
        &&& self.ram@.len() == (if self.config.memory_size == MemorySize::K512 {
            524288int
        } else {
            131072int
        })
        &&& self.current_rom < 2
        &&& 0 <= self.bank3 < self.num_banks()
        &&& (self.screen_bank == 5 || self.screen_bank == 7)
        &&& (self.trdos_rom_active ==> self.trdos_rom_loaded)
    }

    /// Index into `ram` that an address of slots 1-3 resolves to.
    pub open spec fn ram_index(self, addr: u16) -> int
        recommends
            addr >= 0x4000,
    {
        if addr < 0x8000 {
            5 * 16384 + (addr - 0x4000)
        } else if addr < 0xC000 {
            2 * 16384 + (addr - 0x8000)
        } else {
            self.bank3 * 16384 + (addr - 0xC000)
        }
    }

    /// The byte a read of `addr` returns.
    pub open spec fn spec_read(self, addr: u16) -> u8 {
        if addr < 0x4000 {
            let bank: int = if self.trdos_rom_active {
                2
            } else {
                self.current_rom as int
            };
            self.rom@[bank * 16384 + addr]
        } else {
            self.ram@[self.ram_index(addr)]
        }
    }

    /// All state except the RAM contents is equal.
    pub open spec fn same_mapping(self, other: Memory) -> bool {
        &&& other.rom@ == self.rom@
        &&& other.current_rom == self.current_rom
        &&& other.trdos_rom_active == self.trdos_rom_active
        &&& other.trdos_rom_loaded == self.trdos_rom_loaded
        &&& other.bank3 == self.bank3
        &&& other.screen_bank == self.screen_bank
        &&& other.paging_disabled == self.paging_disabled
        &&& other.is_128k == self.is_128k
        &&& other.config == self.config
    }

    proof fn lemma_ram_index_bounds(self, addr: u16)
        requires
            self.wf(),
            addr >= 0x4000,
        ensures
            0 <= self.ram_index(addr) < self.ram@.len(),
    {
        if addr >= 0xC000 {
            if self.config.memory_size == MemorySize::K512 {
                assert(self.num_banks() == 32);
            } else {
                assert(self.num_banks() == 8);
            }
        }
    }

    /// Create memory for the given configuration: zeroed RAM, zeroed ROMs,
    /// main ROM 0 selected, bank 0 at slot 3, screen bank 5, paging enabled.
    pub fn new(config: Config) -> (m: Memory)
        ensures
            m.wf(),
            m.config == config,
            m.current_rom == 0,
            !m.trdos_rom_active,
            !m.trdos_rom_loaded,
            m.bank3 == 0,
            m.screen_bank == 5,
            !m.paging_disabled,
            !m.is_128k,
            forall|a: u16| m.spec_read(a) == 0,
    {
        let ram_size: usize = match config.memory_size {
            MemorySize::K128 => 131072,
            MemorySize::K512 => 524288,
        };
        let m = Memory {
            ram: vec![0u8; ram_size],
            rom: vec![0u8; 3 * 16384],
            current_rom: 0,
            trdos_rom_active: false,
            trdos_rom_loaded: false,
            bank3: 0,
            screen_bank: 5,
            paging_disabled: false,
            is_128k: false,
            config,
        };
        proof {
            assert forall|a: u16| m.spec_read(a) == 0 by {
                if a >= 0x4000 {
                    m.lemma_ram_index_bounds(a);
                }
            }
        }
        m
    }

    /// Reset: clear RAM, back to main ROM 0, bank 0, screen 5, paging
    /// enabled, overlay inactive.  A loaded overlay image stays loaded.
    pub fn reset(&mut self)
        requires
            old(self).wf(),
        ensures
            final(self).wf(),
            final(self).rom@ == old(self).rom@,
            final(self).trdos_rom_loaded == old(self).trdos_rom_loaded,
            !final(self).trdos_rom_active,
            final(self).current_rom == 0,
            final(self).bank3 == 0,
            final(self).screen_bank == 5,
            !final(self).paging_disabled,
            final(self).is_128k == old(self).is_128k,
            final(self).config == old(self).config,
            final(self).ram@.len() == old(self).ram@.len(),
            forall|i: int| 0 <= i < final(self).ram@.len() ==> final(self).ram@[i] == 0,
            forall|a: u16| a >= 0x4000 ==> final(self).spec_read(a) == 0,
    {
        let n = self.ram.len();
        self.ram = vec![0u8; n];
        self.current_rom = 0;
        self.trdos_rom_active = false;
        self.bank3 = 0;
        self.screen_bank = 5;
        self.paging_disabled = false;
        proof {
            assert forall|a: u16| a >= 0x4000 implies self.spec_read(a) == 0 by {
                self.lemma_ram_index_bounds(a);
            }
        }
    }

    /// Read one byte.  Slot 0 serves the overlay ROM when active, else the
    /// selected main ROM; slots 1-3 serve RAM.
    pub fn read(&self, address: u16) -> (r: u8)
        requires
            self.wf(),
        ensures
            r == self.spec_read(address),
    {
        proof {
            if address >= 0x4000 {
                self.lemma_ram_index_bounds(address);
            }
        }
        if address < 0x4000 {
            let bank: usize = if self.trdos_rom_active {
                2
            } else {
                self.current_rom
            };
            self.rom[bank * 16384 + address as usize]
        } else if address < 0x8000 {
            self.ram[5 * 16384 + (address as usize - 0x4000)]
        } else if address < 0xC000 {
            self.ram[2 * 16384 + (address as usize - 0x8000)]
        } else {
            self.ram[self.bank3 * 16384 + (address as usize - 0xC000)]
        }
    }

    /// Write one byte.  Writes below 0x4000 (the ROM slot) are ignored.
    pub fn write(&mut self, address: u16, value: u8)
        requires
            old(self).wf(),
        ensures
            final(self).wf(),
            old(self).same_mapping(*final(self)),
            address < 0x4000 ==> final(self).ram@ == old(self).ram@,
            address >= 0x4000 ==> final(self).ram@ == old(self).ram@.update(
                old(self).ram_index(address),
                value,
            ),
            address >= 0x4000 ==> final(self).spec_read(address) == value,
            forall|a: u16|
                a != address ==> #[trigger] final(self).spec_read(a) == (if a >= 0x4000 && address
                    >= 0x4000 && old(self).ram_index(a) == old(self).ram_index(address) {
                    value
                } else {
                    old(self).spec_read(a)
                }),
    {
        proof {
            if address >= 0x4000 {
                self.lemma_ram_index_bounds(address);
            }
            assert forall|a: u16| a >= 0x4000 implies 0 <= #[trigger] self.ram_index(a)
                < self.ram@.len() by {
                self.lemma_ram_index_bounds(a);
            }
        }
        if address < 0x4000 {
            // slot 0 is ROM: the write is dropped
        } else if address < 0x8000 {
            self.ram.set(5 * 16384 + (address as usize - 0x4000), value);
        } else if address < 0xC000 {
            self.ram.set(2 * 16384 + (address as usize - 0x8000), value);
        } else {
            self.ram.set(self.bank3 * 16384 + (address as usize - 0xC000), value);
        }
    }

    /// Read a 16-bit little-endian word as two byte reads; the second
    /// address wraps modulo 0x10000.
    pub fn read_word(&self, address: u16) -> (r: u16)
        requires
            self.wf(),
        ensures
            r == self.spec_read(address) as u16 + (self.spec_read(
                ((address + 1) % 0x10000) as u16,
            ) as u16) * 256,
    {
        let lo = self.read(address) as u16;
        let hi = self.read(address.wrapping_add(1)) as u16;
        proof {
            assert(address.wrapping_add(1) == ((address + 1) % 0x10000) as u16);
            let h = self.spec_read(((address + 1) % 0x10000) as u16);
            assert((h as u16) << 8 == h as u16 * 256) by (bit_vector);
            assert(((h as u16) << 8) | (lo & 0xFF) == (h as u16) * 256 + (lo & 0xFF))
                by (bit_vector);
            assert(lo & 0xFF == lo) by (bit_vector)
                requires
                    lo < 256,
            ;
        }
        (hi << 8) | lo
    }

    /// Write a 16-bit little-endian word as two byte writes; the second
    /// address wraps modulo 0x10000.
    pub fn write_word(&mut self, address: u16, value: u16)
        requires
            old(self).wf(),
        ensures
            final(self).wf(),
            old(self).same_mapping(*final(self)),
            final(self).ram@.len() == old(self).ram@.len(),
            address >= 0x4000 && address != 0xFFFF ==> final(self).spec_read(address) == (value
                & 0xFF) as u8 && final(self).spec_read((address + 1) as u16) == (value >> 8) as u8,
            forall|a: u16|
                a >= 0x4000 && old(self).ram_index(a) != old(self).ram_index(address) && old(
                    self,
                ).ram_index(a) != old(self).ram_index(((address + 1) % 0x10000) as u16)
                    ==> #[trigger] final(self).spec_read(a) == old(self).spec_read(a),
            forall|a: u16| a < 0x4000 ==> #[trigger] final(self).spec_read(a) == old(self).spec_read(a),
    {
        self.write(address, (value & 0xFF) as u8);
        self.write(address.wrapping_add(1), ((value >> 8) & 0xFF) as u8);
        proof {
            assert(address.wrapping_add(1) == ((address + 1) % 0x10000) as u16);
            assert((value >> 8) & 0xFF == value >> 8 && value >> 8 < 256 && (value & 0xFF) < 256)
                by (bit_vector);
            if address >= 0x4000 && address != 0xFFFF {
                assert(old(self).ram_index(address) != old(self).ram_index((address + 1) as u16));
            }
        }
    }

    /// Effect of a paging-port write on the slot-3 bank selector: bits 0-2,
    /// widened by bits 6 and 7 on 512 KiB machines.
    pub open spec fn spec_bank_bits(v: u8, size: MemorySize) -> int {
        if size == MemorySize::K512 {
            (v & 0x07) + (if v & 0x40 != 0 {
                8int
            } else {
                0int
            }) + (if v & 0x80 != 0 {
                16int
            } else {
                0int
            })
        } else {
            (v & 0x07) as int
        }
    }

    /// State after a paging-port write: bank select for slot 3, screen bank,
    /// main ROM select, and the paging lock.  Unchanged once locked.
    pub open spec fn spec_write_7ffd(m: Memory, value: u8) -> Memory {
        if m.paging_disabled {
            m
        } else {
            Memory {
                bank3: Self::spec_bank_bits(value, m.config.memory_size) as usize,
                screen_bank: if value & 0x08 != 0 {
                    7usize
                } else {
                    5usize
                },
                current_rom: ((value >> 4) & 0x01) as usize,
                paging_disabled: value & 0x20 != 0,
                ..m
            }
        }
    }

    /// Paging-port write: bank select for slot 3, screen bank, main ROM
    /// select, and the paging lock.  Ignored entirely once locked.
    pub fn write_7ffd(&mut self, value: u8)
        requires
            old(self).wf(),
        ensures
            final(self).wf(),
            *final(self) == Self::spec_write_7ffd(*old(self), value),
    {
        if self.paging_disabled {
            return ;
        }
        let mut bank: usize = (value & 0x07) as usize;
        proof {
            assert(value & 0x07 < 8 && (value >> 4) & 0x01 < 2) by (bit_vector);
        }
        if self.config.memory_size == MemorySize::K512 {
            if value & 0x40 != 0 {
                bank = bank + 8;
            }
            if value & 0x80 != 0 {
                bank = bank + 16;
            }
        }
        self.bank3 = bank;
        self.screen_bank = if value & 0x08 != 0 {
            7
        } else {
            5
        };
        self.current_rom = ((value >> 4) & 0x01) as usize;
        self.paging_disabled = value & 0x20 != 0;
    }

    /// Base offset of the selected screen bank within RAM.
    pub fn get_screen_base(&self) -> (r: usize)
        requires
            self.wf(),
        ensures
            r == self.screen_bank * 16384,
    {
        self.screen_bank * 16384
    }

    /// Copy of the 6912 screen bytes (6144 pixels + 768 attributes) from
    /// bank 5.
    pub fn get_screen_data(&self) -> (r: Vec<u8>)
        requires
            self.wf(),
        ensures
            r@.len() == 6912,
            forall|i: int| 0 <= i < 6912 ==> r@[i] == self.ram@[5 * 16384 + i],
    {
        let mut out: Vec<u8> = Vec::new();
        let mut i: usize = 0;
        while i < 6912
            invariant
                self.wf(),
                i <= 6912,
                out@.len() == i,
                forall|j: int| 0 <= j < i ==> out@[j] == self.ram@[5 * 16384 + j],
            decreases 6912 - i,
        {
            out.push(self.ram[5 * 16384 + i]);
            i = i + 1;
        }
        out
    }

    /// Whether a 32 KiB main ROM pair is loaded.
    pub fn is_128k_mode(&self) -> (r: bool)
        ensures
            r == self.is_128k,
    {
        self.is_128k
    }

    /// Currently selected main ROM (0 or 1).
    pub fn get_current_rom(&self) -> (r: usize)
        ensures
            r == self.current_rom,
    {
        self.current_rom
    }

    /// Currently selected screen bank (5 or 7).
    pub fn get_screen_bank(&self) -> (r: usize)
        ensures
            r == self.screen_bank,
    {
        self.screen_bank
    }

    /// Whether the paging lock is engaged.
    pub fn is_paging_disabled(&self) -> (r: bool)
        ensures
            r == self.paging_disabled,
    {
        self.paging_disabled
    }

    /// RAM bank currently mapped at slot 3.
    pub fn get_bank_at_slot_3(&self) -> (r: usize)
        ensures
            r == self.bank3,
    {
        self.bank3
    }

    /// Load a ROM image (at most 16 KiB) into one of the three ROM banks.
    /// Oversized data or a bank index above 2 is ignored.
    pub fn load_rom(&mut self, data: &Vec<u8>, rom_number: usize)
        requires
            old(self).wf(),
        ensures
            final(self).wf(),
            final(self).ram@ == old(self).ram@,
            final(self).current_rom == old(self).current_rom,
            final(self).trdos_rom_active == old(self).trdos_rom_active,
            final(self).trdos_rom_loaded == old(self).trdos_rom_loaded,
            final(self).bank3 == old(self).bank3,
            final(self).screen_bank == old(self).screen_bank,
            final(self).paging_disabled == old(self).paging_disabled,
            final(self).is_128k == old(self).is_128k,
            final(self).config == old(self).config,
            rom_number < 3 && data@.len() <= 16384 ==> forall|i: int|
                0 <= i < 3 * 16384 ==> final(self).rom@[i] == (if rom_number * 16384 <= i
                    < rom_number * 16384 + data@.len() {
                    data@[i - rom_number * 16384]
                } else {
                    old(self).rom@[i]
                }),
            !(rom_number < 3 && data@.len() <= 16384) ==> final(self).rom@ == old(self).rom@,
    {
        if rom_number < 3 && data.len() <= 16384 {
            let base = rom_number * 16384;
            let mut i: usize = 0;
            while i < data.len()
                invariant
                    self.ram@ == old(self).ram@,
                    self.current_rom == old(self).current_rom,
                    self.trdos_rom_active == old(self).trdos_rom_active,
                    self.trdos_rom_loaded == old(self).trdos_rom_loaded,
                    self.bank3 == old(self).bank3,
                    self.screen_bank == old(self).screen_bank,
                    self.paging_disabled == old(self).paging_disabled,
                    self.is_128k == old(self).is_128k,
                    self.config == old(self).config,
                    old(self).wf(),
                    self.rom@.len() == old(self).rom@.len(),
                    rom_number < 3,
                    base == rom_number * 16384,
                    data@.len() <= 16384,
                    i <= data@.len(),
                    forall|j: int|
                        0 <= j < 3 * 16384 ==> self.rom@[j] == (if base <= j < base + i {
                            data@[j - base]
                        } else {
                            old(self).rom@[j]
                        }),
                decreases data@.len() - i,
            {
                self.rom.set(base + i, data[i]);
                i = i + 1;
            }
        }
    }

    /// Load a main ROM image: 32 KiB or more fills both main banks and marks
    /// 128K mode; at most 16 KiB fills bank 0 only.
    pub fn load_rom_128k(&mut self, data: &Vec<u8>)
        requires
            old(self).wf(),
        ensures
            final(self).wf(),
            final(self).ram@ == old(self).ram@,
            final(self).trdos_rom_loaded == old(self).trdos_rom_loaded,
            final(self).trdos_rom_active == old(self).trdos_rom_active,
            final(self).config == old(self).config,
            data@.len() >= 2 * 16384 ==> final(self).is_128k && forall|i: int|
                0 <= i < 3 * 16384 ==> final(self).rom@[i] == (if i < 2 * 16384 {
                    data@[i]
                } else {
                    old(self).rom@[i]
                }),
            data@.len() <= 16384 ==> !final(self).is_128k && forall|i: int|
                0 <= i < 3 * 16384 ==> final(self).rom@[i] == (if i < data@.len() {
                    data@[i]
                } else {
                    old(self).rom@[i]
                }),
            16384 < data@.len() < 2 * 16384 ==> *final(self) == *old(self),
    {
        if data.len() >= 2 * 16384 {
            let mut i: usize = 0;
            while i < 2 * 16384
                invariant
                    old(self).wf(),
                    self.ram@ == old(self).ram@,
                    self.trdos_rom_loaded == old(self).trdos_rom_loaded,
                    self.trdos_rom_active == old(self).trdos_rom_active,
                    self.config == old(self).config,
                    self.current_rom == old(self).current_rom,
                    self.bank3 == old(self).bank3,
                    self.screen_bank == old(self).screen_bank,
                    self.paging_disabled == old(self).paging_disabled,
                    self.is_128k == old(self).is_128k,
                    self.rom@.len() == old(self).rom@.len(),
                    data@.len() >= 2 * 16384,
                    i <= 2 * 16384,
                    forall|j: int|
                        0 <= j < 3 * 16384 ==> self.rom@[j] == (if j < i {
                            data@[j]
                        } else {
                            old(self).rom@[j]
                        }),
                decreases 2 * 16384 - i,
            {
                self.rom.set(i, data[i]);
                i = i + 1;
            }
            self.is_128k = true;
        } else if data.len() <= 16384 {
            let mut i: usize = 0;
            while i < data.len()
                invariant
                    old(self).wf(),
                    self.ram@ == old(self).ram@,
                    self.trdos_rom_loaded == old(self).trdos_rom_loaded,
                    self.trdos_rom_active == old(self).trdos_rom_active,
                    self.config == old(self).config,
                    self.current_rom == old(self).current_rom,
                    self.bank3 == old(self).bank3,
                    self.screen_bank == old(self).screen_bank,
                    self.paging_disabled == old(self).paging_disabled,
                    self.is_128k == old(self).is_128k,
                    self.rom@.len() == old(self).rom@.len(),
                    data@.len() <= 16384,
                    i <= data@.len(),
                    forall|j: int|
                        0 <= j < 3 * 16384 ==> self.rom@[j] == (if j < i {
                            data@[j]
                        } else {
                            old(self).rom@[j]
                        }),
                decreases data@.len() - i,
            {
                self.rom.set(i, data[i]);
                i = i + 1;
            }
            self.is_128k = false;
        }
    }

    /// Load the overlay ROM image (at most 16 KiB) into ROM bank 2 and mark
    /// it loaded.  Oversized data is ignored.
    pub fn load_trdos_rom(&mut self, data: &Vec<u8>)
        requires
            old(self).wf(),
        ensures
            final(self).wf(),
            final(self).ram@ == old(self).ram@,
            final(self).current_rom == old(self).current_rom,
            final(self).trdos_rom_active == old(self).trdos_rom_active,
            final(self).bank3 == old(self).bank3,
            final(self).screen_bank == old(self).screen_bank,
            final(self).paging_disabled == old(self).paging_disabled,
            final(self).is_128k == old(self).is_128k,
            final(self).config == old(self).config,
            data@.len() <= 16384 ==> final(self).trdos_rom_loaded && forall|i: int|
                0 <= i < 3 * 16384 ==> final(self).rom@[i] == (if 2 * 16384 <= i < 2 * 16384
                    + data@.len() {
                    data@[i - 2 * 16384]
                } else {
                    old(self).rom@[i]
                }),
            data@.len() > 16384 ==> *final(self) == *old(self),
    {
        if data.len() <= 16384 {
            self.load_rom(data, 2);
            self.trdos_rom_loaded = true;
        }
    }

    /// Map the overlay ROM over slot 0.  Takes effect only when an overlay
    /// image is loaded.
    pub fn enable_trdos_rom(&mut self)
        requires
            old(self).wf(),
        ensures
            final(self).wf(),
            final(self).trdos_rom_active == (old(self).trdos_rom_loaded || old(
                self,
            ).trdos_rom_active),
            final(self).ram@ == old(self).ram@,
            final(self).rom@ == old(self).rom@,
            final(self).current_rom == old(self).current_rom,
            final(self).trdos_rom_loaded == old(self).trdos_rom_loaded,
            final(self).bank3 == old(self).bank3,
            final(self).screen_bank == old(self).screen_bank,
            final(self).paging_disabled == old(self).paging_disabled,
            final(self).is_128k == old(self).is_128k,
            final(self).config == old(self).config,
    {
        if self.trdos_rom_loaded {
            self.trdos_rom_active = true;
        }
    }

    /// Return slot 0 to normal ROM banking.
    pub fn disable_trdos_rom(&mut self)
        requires
            old(self).wf(),
        ensures
            final(self).wf(),
            !final(self).trdos_rom_active,
            final(self).ram@ == old(self).ram@,
            final(self).rom@ == old(self).rom@,
            final(self).current_rom == old(self).current_rom,
            final(self).trdos_rom_loaded == old(self).trdos_rom_loaded,
            final(self).bank3 == old(self).bank3,
            final(self).screen_bank == old(self).screen_bank,
            final(self).paging_disabled == old(self).paging_disabled,
            final(self).is_128k == old(self).is_128k,
            final(self).config == old(self).config,
    {
        self.trdos_rom_active = false;
    }

    /// Whether the overlay ROM is mapped at slot 0.
    pub fn is_trdos_rom_active(&self) -> (r: bool)
        ensures
            r == self.trdos_rom_active,
    {
        self.trdos_rom_active
    }

    /// Whether an overlay ROM image is loaded.
    pub fn is_trdos_rom_loaded(&self) -> (r: bool)
        ensures
            r == self.trdos_rom_loaded,
    {
        self.trdos_rom_loaded
    }
}

/// Law: a byte written to RAM reads back, and a write below 0x4000 changes
/// nothing.  Holds for every address in [0x4000, 0xFFFF] and every value, as
/// long as the mapping is not changed in between.
pub proof fn lemma_write_read_back(pre: Memory, post: Memory, addr: u16, v: u8)
    requires
        pre.wf(),
        addr >= 0x4000 ==> post.ram@ == pre.ram@.update(pre.ram_index(addr), v),
        addr < 0x4000 ==> post.ram@ == pre.ram@,
        pre.same_mapping(post),
    ensures
        addr >= 0x4000 ==> post.spec_read(addr) == v,
        addr < 0x4000 ==> forall|a: u16| post.spec_read(a) == pre.spec_read(a),
{
    if addr >= 0x4000 {
        pre.lemma_ram_index_bounds_pub(addr);
    }
}

/// Law: a paging-port write whose value has bit 5 set locks paging; every
/// later paging-port write, whatever its value, leaves the whole memory
/// state unchanged.
pub proof fn lemma_paging_lock(m: Memory, v1: u8, v2: u8)
    requires
        v1 & 0x20 != 0,
    ensures
        Memory::spec_write_7ffd(Memory::spec_write_7ffd(m, v1), v2) == Memory::spec_write_7ffd(
            m,
            v1,
        ),
{
}

impl Memory {
    /// Bounds of the RAM index of any address in [0x4000, 0xFFFF].
    pub proof fn lemma_ram_index_bounds_pub(self, addr: u16)
        requires
            self.wf(),
            addr >= 0x4000,
        ensures
            0 <= self.ram_index(addr) < self.ram@.len(),
    {
        self.lemma_ram_index_bounds(addr);
    }
}

} // verus!
