//! WD1793-compatible floppy disk controller: four data registers, one
//! status/command register, and a byte-at-a-time DRQ handshake carrying
//! sector data between the guest and a TRD disk image.

use vstd::prelude::*;

use crate::trd::{valid_geometry, TrdDisk};

verus! {

/// Command or data transfer in progress.
pub const STATUS_BUSY: u8 = 0x01;
/// Data register ready for transfer.
pub const STATUS_DRQ: u8 = 0x02;
/// Head is at track 0.
pub const STATUS_TRACK_0: u8 = 0x04;
/// The addressed sector was not found.
pub const STATUS_RECORD_NOT_FOUND: u8 = 0x10;
/// No disk in the selected drive, or motor off.
pub const STATUS_NOT_READY: u8 = 0x80;

/// Controller state machine.
#[derive(Debug, Clone, Copy, PartialEq, Eq, Structural)]
pub enum FdcState {
    Idle,
    Seeking,
    ReadingSector,
    WritingSector,
    ReadingAddress,
}

/// WD1793-compatible floppy disk controller.
pub struct FDC {
    /// Status register (read side of the command port).
    pub status: u8,
    /// Track register.
    pub track: u8,
    /// Sector register (guest-visible, one-based).
    pub sector: u8,
    /// Data register.
    pub data: u8,
    /// Last value written to the system register.
    pub system: u8,
    /// State machine position.
    pub state: FdcState,
    /// Physical head position.
    pub head_track: u8,
    /// Selected side (0 or 1).
    pub side: u8,
    /// Selected drive (0-3).
    pub drive: u8,
    /// Mounted disks, one slot per drive.
    pub disks: Vec<Option<TrdDisk>>,
    /// Transfer buffer for the DRQ handshake.
    pub sector_buffer: Vec<u8>,
    /// Position of the next byte within the buffer.
    pub buffer_pos: usize,
    /// Motor running.
    pub motor_on: bool,
    /// Data request flag.
    pub drq: bool,
    /// Interrupt request flag.
    pub intrq: bool,
}

impl FDC {
    /// Well-formed: four drive slots, selectors in range, mounted disks
    /// well-formed.
    pub open spec fn wf(self) -> bool {
        &&& self.disks@.len() == 4
        &&& self.drive < 4
        &&& self.side < 2
        &&& forall|i: int|
            0 <= i < 4 ==> (#[trigger] self.disks@[i] is Some ==> self.disks@[i]->0.wf())
    }

    /// The zero-based sector number addressed by the sector register.
    pub open spec fn spec_sec0(self) -> u8 {
        if self.sector > 0 {
            (self.sector - 1) as u8
        } else {
            0
        }
    }

    /// Whether a read-sector command finds its sector: a disk is mounted and
    /// the head/side/sector triple is on the disk.
    pub open spec fn read_hit(self) -> bool {
        &&& self.disks@[self.drive as int] is Some
        &&& valid_geometry(self.head_track, self.side, self.spec_sec0())
    }

    /// Whether committing the write buffer succeeds: a disk is mounted, the
    /// buffer holds one full sector, and the geometry is on the disk.
    pub open spec fn write_hit(self) -> bool {
        &&& self.disks@[self.drive as int] is Some
        &&& self.sector_buffer@.len() == 256
        &&& valid_geometry(self.head_track, self.side, self.spec_sec0())
    }

    /// The registers (track, sector, data, system) and selectors are equal.
    pub open spec fn same_selection(self, other: FDC) -> bool {
        &&& other.track == self.track
        &&& other.sector == self.sector
        &&& other.data == self.data
        &&& other.system == self.system
        &&& other.head_track == self.head_track
        &&& other.side == self.side
        &&& other.drive == self.drive
        &&& other.motor_on == self.motor_on
    }

    /// The mounted disks are equal.
    pub open spec fn same_disks(self, other: FDC) -> bool {
        other.disks@ == self.disks@
    }

    /// Effect of a command-register write, decoded by the high nibble of
    /// the command byte (restore, seek, step family, read/write sector,
    /// read address, force interrupt; nibbles 0x9, 0xB, 0xE, 0xF ignored).
    pub open spec fn write_command_rel(pre: FDC, cmd: u8, post: FDC) -> bool {
        &&& (cmd & 0xF0 == 0x00 ==> post == (FDC {
            status: STATUS_TRACK_0,
            track: 0,
            head_track: 0,
            intrq: true,
            state: FdcState::Idle,
            ..pre
        }))
        &&& (cmd & 0xF0 == 0x10 ==> post == (FDC {
            status: if pre.track == 0 {
                STATUS_TRACK_0
            } else {
                0u8
            },
            head_track: pre.track,
            intrq: true,
            state: FdcState::Idle,
            ..pre
        }))
        &&& (0x20 <= cmd & 0xF0 < 0x80 ==> post == (FDC {
            status: if pre.head_track == 0 {
                STATUS_TRACK_0
            } else {
                0u8
            },
            track: if cmd & 0x10 != 0 {
                pre.head_track
            } else {
                pre.track
            },
            intrq: true,
            state: FdcState::Idle,
            ..pre
        }))
        &&& (cmd & 0xF0 == 0x80 ==> {
            &&& pre.same_selection(post)
            &&& pre.same_disks(post)
            &&& (pre.read_hit() ==> post.sector_buffer@ == pre.disks@[pre.drive as int]->0.spec_sector(
                pre.head_track,
                pre.side,
                pre.spec_sec0(),
            ) && post.buffer_pos == 0 && post.drq && post.status == STATUS_BUSY && post.state
                == FdcState::ReadingSector)
            &&& (!pre.read_hit() ==> post.status == STATUS_RECORD_NOT_FOUND && post.state
                == FdcState::Idle && post.intrq)
        })
        &&& (cmd & 0xF0 == 0xA0 ==> pre.same_selection(post) && pre.same_disks(post)
            && post.sector_buffer@ == Seq::new(256, |i: int| 0u8) && post.buffer_pos == 0
            && post.drq && post.status == STATUS_BUSY && post.state == FdcState::WritingSector)
        &&& (cmd & 0xF0 == 0xC0 ==> pre.same_selection(post) && pre.same_disks(post)
            && post.sector_buffer@ == seq![pre.head_track, pre.side, 1u8, 1u8, 0u8, 0u8]
            && post.buffer_pos == 0 && post.drq && post.status == STATUS_BUSY && post.state
            == FdcState::ReadingAddress)
        &&& (cmd & 0xF0 == 0xD0 ==> post == (FDC {
            status: (pre.status & 0xFE),
            state: FdcState::Idle,
            drq: false,
            intrq: false,
            ..pre
        }))
        &&& (cmd & 0xF0 == 0x90 || cmd & 0xF0 == 0xB0 || cmd & 0xF0 >= 0xE0 ==> post == pre)
    }

    /// Effect of a data-register write: the next buffer byte is stored; the
    /// final byte commits the buffer to the addressed sector (or raises
    /// RECORD_NOT_FOUND on a miss).
    pub open spec fn write_data_rel(pre: FDC, value: u8, post: FDC) -> bool {
        &&& pre.same_selection(post)
        &&& (pre.buffer_pos >= pre.sector_buffer@.len() ==> post.disks@ == pre.disks@
            && post.sector_buffer@ == pre.sector_buffer@ && post.buffer_pos == pre.buffer_pos
            && !post.drq && post.status == pre.status && post.intrq == pre.intrq)
        &&& (pre.buffer_pos < pre.sector_buffer@.len() ==> post.sector_buffer@
            == pre.sector_buffer@.update(pre.buffer_pos as int, value) && post.buffer_pos
            == pre.buffer_pos + 1)
        &&& (pre.buffer_pos + 1 < pre.sector_buffer@.len() ==> post.drq && post.disks@
            == pre.disks@ && post.status == pre.status && post.intrq == pre.intrq)
        &&& (pre.buffer_pos + 1 == pre.sector_buffer@.len() ==> {
            let hit = pre.write_hit();
            &&& !post.drq
            &&& post.intrq
            &&& post.state == FdcState::Idle
            &&& (hit ==> {
                &&& post.status == (pre.status & 0xFE)
                &&& post.disks@[pre.drive as int] is Some
                &&& post.disks@[pre.drive as int]->0.spec_sector(
                    pre.head_track,
                    pre.side,
                    pre.spec_sec0(),
                ) == post.sector_buffer@
                &&& forall|t: u8, s: u8, n: u8|
                    valid_geometry(t, s, n) && !(t == pre.head_track && s == pre.side && n
                        == pre.spec_sec0()) ==> #[trigger] post.disks@[pre.drive as int]->0.spec_sector(
                        t,
                        s,
                        n,
                    ) == pre.disks@[pre.drive as int]->0.spec_sector(t, s, n)
                &&& forall|i: int|
                    0 <= i < 4 && i != pre.drive ==> post.disks@[i] == pre.disks@[i]
            })
            &&& (!hit ==> post.disks@ == pre.disks@ && post.status == ((pre.status
                | STATUS_RECORD_NOT_FOUND) & 0xFE))
        })
    }

    /// Effect of a system-register write: drive, side and motor selects,
    /// and the full controller reset when bit 3 is low.
    pub open spec fn write_system_rel(pre: FDC, value: u8, post: FDC) -> bool {
        &&& post.system == value
        &&& post.drive == value & 0x03
        &&& post.side == (value >> 2) & 0x01
        &&& post.motor_on == (value & 0x10 != 0)
        &&& post.disks@ == pre.disks@
        &&& (value & 0x08 == 0 ==> post.status == STATUS_TRACK_0 && post.track == 0 && post.sector
            == 1 && post.data == 0 && post.state == FdcState::Idle && post.head_track == 0
            && !post.drq && !post.intrq && post.buffer_pos == 0 && post.sector_buffer@.len() == 0)
        &&& (value & 0x08 != 0 ==> post.status == pre.status && post.track == pre.track
            && post.sector == pre.sector && post.data == pre.data && post.state == pre.state
            && post.head_track == pre.head_track && post.drq == pre.drq && post.intrq == pre.intrq
            && post.buffer_pos == pre.buffer_pos && post.sector_buffer@ == pre.sector_buffer@)
    }

    /// New controller: head at track 0, sector register 1, no disks, idle.
    pub fn new() -> (f: FDC)
        ensures
            f.wf(),
            f.status == STATUS_TRACK_0,
            f.track == 0,
            f.sector == 1,
            f.data == 0,
            f.system == 0,
            f.state == FdcState::Idle,
            f.head_track == 0,
            f.side == 0,
            f.drive == 0,
            forall|i: int| 0 <= i < 4 ==> f.disks@[i] is None,
            f.sector_buffer@.len() == 0,
            f.buffer_pos == 0,
            !f.motor_on,
            !f.drq,
            !f.intrq,
    {
        let mut disks: Vec<Option<TrdDisk>> = Vec::new();
        disks.push(None);
        disks.push(None);
        disks.push(None);
        disks.push(None);
        FDC {
            status: STATUS_TRACK_0,
            track: 0,
            sector: 1,
            data: 0,
            system: 0,
            state: FdcState::Idle,
            head_track: 0,
            side: 0,
            drive: 0,
            disks,
            sector_buffer: Vec::new(),
            buffer_pos: 0,
            motor_on: false,
            drq: false,
            intrq: false,
        }
    }

    /// Mount a disk in a drive (0-3); other drive numbers are ignored.
    pub fn load_disk(&mut self, drive: usize, disk: TrdDisk)
        requires
            old(self).wf(),
            disk.wf(),
        ensures
            final(self).wf(),
            drive < 4 ==> final(self).disks@ == old(self).disks@.update(
                drive as int,
                Some(disk),
            ),
            drive >= 4 ==> *final(self) == *old(self),
            old(self).same_selection(*final(self)),
            final(self).status == old(self).status,
            final(self).state == old(self).state,
            final(self).sector_buffer@ == old(self).sector_buffer@,
            final(self).buffer_pos == old(self).buffer_pos,
            final(self).drq == old(self).drq,
            final(self).intrq == old(self).intrq,
    {
        if drive < 4 {
            self.disks.set(drive, Some(disk));
        }
    }

    /// Remove the disk from a drive (0-3); other drive numbers are ignored.
    pub fn unload_disk(&mut self, drive: usize)
        requires
            old(self).wf(),
        ensures
            final(self).wf(),
            drive < 4 ==> final(self).disks@ == old(self).disks@.update(drive as int, None),
            drive >= 4 ==> *final(self) == *old(self),
            old(self).same_selection(*final(self)),
            final(self).status == old(self).status,
            final(self).state == old(self).state,
            final(self).sector_buffer@ == old(self).sector_buffer@,
            final(self).buffer_pos == old(self).buffer_pos,
            final(self).drq == old(self).drq,
            final(self).intrq == old(self).intrq,
    {
        if drive < 4 {
            self.disks.set(drive, None);
        }
    }

    /// The status byte a read of the command port returns: the stored status
    /// with DRQ, TRACK0 and NOT_READY merged in.
    pub open spec fn spec_status(self) -> u8 {
        let s1 = if self.drq {
            self.status | STATUS_DRQ
        } else {
            self.status
        };
        let s2 = if self.head_track == 0 {
            s1 | STATUS_TRACK_0
        } else {
            s1
        };
        if self.disks@[self.drive as int] is None || !self.motor_on {
            s2 | STATUS_NOT_READY
        } else {
            s2
        }
    }

    /// Read the status register; this clears INTRQ.
    pub fn read_status(&mut self) -> (r: u8)
        requires
            old(self).wf(),
        ensures
            final(self).wf(),
            r == old(self).spec_status(),
            *final(self) == (FDC { intrq: false, ..*old(self) }),
    {
        self.intrq = false;
        let s1 = if self.drq {
            self.status | STATUS_DRQ
        } else {
            self.status
        };
        let s2 = if self.head_track == 0 {
            s1 | STATUS_TRACK_0
        } else {
            s1
        };
        let has_disk = self.disks[self.drive as usize].is_some();
        if !has_disk || !self.motor_on {
            s2 | STATUS_NOT_READY
        } else {
            s2
        }
    }

    /// Read the track register.
    pub fn read_track(&self) -> (r: u8)
        ensures
            r == self.track,
    {
        self.track
    }

    /// Write the track register.
    pub fn write_track(&mut self, value: u8)
        requires
            old(self).wf(),
        ensures
            final(self).wf(),
            *final(self) == (FDC { track: value, ..*old(self) }),
    {
        self.track = value;
    }

    /// Read the sector register.
    pub fn read_sector(&self) -> (r: u8)
        ensures
            r == self.sector,
    {
        self.sector
    }

    /// Write the sector register.
    pub fn write_sector(&mut self, value: u8)
        requires
            old(self).wf(),
        ensures
            final(self).wf(),
            *final(self) == (FDC { sector: value, ..*old(self) }),
    {
        self.sector = value;
    }

    /// Read the data register: hands out the next buffered byte.  On the
    /// last byte BUSY clears, INTRQ rises and the controller goes idle;
    /// before that DRQ stays up.  With nothing buffered, returns 0xFF.
    pub fn read_data(&mut self) -> (r: u8)
        requires
            old(self).wf(),
        ensures
            final(self).wf(),
            old(self).same_selection(*final(self)),
            old(self).same_disks(*final(self)),
            final(self).sector_buffer@ == old(self).sector_buffer@,
            r == (if old(self).buffer_pos < old(self).sector_buffer@.len() {
                old(self).sector_buffer@[old(self).buffer_pos as int]
            } else {
                0xFFu8
            }),
            old(self).buffer_pos >= old(self).sector_buffer@.len() ==> final(self).buffer_pos
                == old(self).buffer_pos && !final(self).drq && final(self).status == old(
                self,
            ).status && final(self).state == old(self).state && final(self).intrq == old(
                self,
            ).intrq,
            old(self).buffer_pos < old(self).sector_buffer@.len() ==> final(self).buffer_pos
                == old(self).buffer_pos + 1,
            old(self).buffer_pos + 1 == old(self).sector_buffer@.len() ==> !final(self).drq
                && final(self).intrq && final(self).status == (old(self).status & 0xFE) && final(self).state == FdcState::Idle,
            old(self).buffer_pos + 1 < old(self).sector_buffer@.len() ==> final(self).drq && final(self).status == old(self).status && final(self).state == old(self).state && final(self).intrq == old(self).intrq,
    {
        self.drq = false;
        if self.buffer_pos < self.sector_buffer.len() {
            let b = self.sector_buffer[self.buffer_pos];
            self.buffer_pos = self.buffer_pos + 1;
            if self.buffer_pos >= self.sector_buffer.len() {
                self.status = self.status & 0xFE;
                self.state = FdcState::Idle;
                self.intrq = true;
            } else {
                self.drq = true;
            }
            b
        } else {
            0xFF
        }
    }

    /// Write the data register: stores the next byte of the write buffer.
    /// The final byte commits the buffer to the addressed sector of the
    /// selected disk; a miss (no disk, bad geometry) sets RECORD_NOT_FOUND.
    pub fn write_data(&mut self, value: u8)
        requires
            old(self).wf(),
        ensures
            final(self).wf(),
            Self::write_data_rel(*old(self), value, *final(self)),
    {
        self.drq = false;
        if self.buffer_pos < self.sector_buffer.len() {
            self.sector_buffer.set(self.buffer_pos, value);
            self.buffer_pos = self.buffer_pos + 1;
            if self.buffer_pos >= self.sector_buffer.len() {
                self.execute_write_sector();
                self.status = self.status & 0xFE;
                self.state = FdcState::Idle;
                self.intrq = true;
            } else {
                self.drq = true;
            }
        }
    }

    /// Commit the write buffer to the addressed sector; a miss sets
    /// RECORD_NOT_FOUND.
    fn execute_write_sector(&mut self)
        requires
            old(self).wf(),
        ensures
            final(self).wf(),
            old(self).same_selection(*final(self)),
            final(self).sector_buffer@ == old(self).sector_buffer@,
            final(self).buffer_pos == old(self).buffer_pos,
            final(self).drq == old(self).drq,
            final(self).intrq == old(self).intrq,
            final(self).state == old(self).state,
            old(self).write_hit() ==> {
                &&& final(self).status == old(self).status
                &&& final(self).disks@[old(self).drive as int] is Some
                &&& final(self).disks@[old(self).drive as int]->0.spec_sector(
                    old(self).head_track,
                    old(self).side,
                    old(self).spec_sec0(),
                ) == old(self).sector_buffer@
                &&& forall|t: u8, s: u8, n: u8|
                    valid_geometry(t, s, n) && !(t == old(self).head_track && s == old(self).side
                        && n == old(self).spec_sec0()) ==> #[trigger] final(self).disks@[old(
                        self,
                    ).drive as int]->0.spec_sector(t, s, n) == old(self).disks@[old(
                        self,
                    ).drive as int]->0.spec_sector(t, s, n)
                &&& forall|i: int|
                    0 <= i < 4 && i != old(self).drive ==> final(self).disks@[i] == old(
                        self,
                    ).disks@[i]
            },
            !old(self).write_hit() ==> final(self).disks@ == old(self).disks@ && final(self).status
                == (old(self).status | STATUS_RECORD_NOT_FOUND),
    {
        let drive = self.drive as usize;
        let sector_num = if self.sector > 0 {
            self.sector - 1
        } else {
            0
        };
        let slot = self.disks.remove(drive);
        match slot {
            Some(mut disk) => {
                let ok = disk.write_sector(self.head_track, self.side, sector_num, &self.sector_buffer);
                if !ok {
                    self.status = self.status | STATUS_RECORD_NOT_FOUND;
                }
                self.disks.insert(drive, Some(disk));
                proof {
                    assert(self.disks@ =~= (if ok {
                        old(self).disks@.update(drive as int, self.disks@[drive as int])
                    } else {
                        old(self).disks@
                    }));
                }
            },
            None => {
                self.status = self.status | STATUS_RECORD_NOT_FOUND;
                self.disks.insert(drive, None);
                proof {
                    assert(self.disks@ =~= old(self).disks@);
                }
            },
        }
    }

    /// Read the system register: bits 0-5 high, bit 6 INTRQ, bit 7 DRQ.
    /// Does not clear INTRQ.
    pub fn read_system(&self) -> (r: u8)
        ensures
            r == (0x3Fu8 | (if self.intrq {
                0x40u8
            } else {
                0u8
            }) | (if self.drq {
                0x80u8
            } else {
                0u8
            })),
    {
        let r1 = if self.intrq {
            0x3F | 0x40u8
        } else {
            0x3F | 0u8
        };
        if self.drq {
            r1 | 0x80
        } else {
            r1 | 0
        }
    }

    /// Write the system register: drive select (bits 0-1), side select
    /// (bit 2), motor (bit 4); bit 3 low resets the controller.
    pub fn write_system(&mut self, value: u8)
        requires
            old(self).wf(),
        ensures
            final(self).wf(),
            Self::write_system_rel(*old(self), value, *final(self)),
    {
        self.system = value;
        self.drive = value & 0x03;
        self.side = (value >> 2) & 0x01;
        self.motor_on = (value & 0x10) != 0;
        proof {
            assert(value & 0x03 < 4 && (value >> 2) & 0x01 < 2) by (bit_vector);
        }
        if (value & 0x08) == 0 {
            self.reset();
        }
    }

    /// Reset the controller: registers cleared, head at track 0, sector
    /// register 1, idle, flags down.  Mounted disks stay mounted.
    pub fn reset(&mut self)
        requires
            old(self).wf(),
        ensures
            final(self).wf(),
            final(self).status == STATUS_TRACK_0,
            final(self).track == 0,
            final(self).sector == 1,
            final(self).data == 0,
            final(self).state == FdcState::Idle,
            final(self).head_track == 0,
            !final(self).drq,
            !final(self).intrq,
            final(self).buffer_pos == 0,
            final(self).sector_buffer@.len() == 0,
            final(self).disks@ == old(self).disks@,
            final(self).system == old(self).system,
            final(self).side == old(self).side,
            final(self).drive == old(self).drive,
            final(self).motor_on == old(self).motor_on,
    {
        self.status = STATUS_TRACK_0;
        self.track = 0;
        self.sector = 1;
        self.data = 0;
        self.state = FdcState::Idle;
        self.head_track = 0;
        self.drq = false;
        self.intrq = false;
        self.buffer_pos = 0;
        self.sector_buffer.clear();
    }

    /// Restore: head and track register to 0, TRACK0 status, INTRQ, idle.
    fn cmd_restore(&mut self)
        requires
            old(self).wf(),
        ensures
            final(self).wf(),
            *final(self) == (FDC {
                status: STATUS_TRACK_0,
                track: 0,
                head_track: 0,
                intrq: true,
                state: FdcState::Idle,
                ..*old(self)
            }),
    {
        self.status = STATUS_TRACK_0;
        self.head_track = 0;
        self.track = 0;
        self.intrq = true;
        self.state = FdcState::Idle;
    }

    /// Seek: move the head to the track register, INTRQ, idle.
    fn cmd_seek(&mut self)
        requires
            old(self).wf(),
        ensures
            final(self).wf(),
            *final(self) == (FDC {
                status: if old(self).track == 0 {
                    STATUS_TRACK_0
                } else {
                    0u8
                },
                head_track: old(self).track,
                intrq: true,
                state: FdcState::Idle,
                ..*old(self)
            }),
    {
        self.head_track = self.track;
        self.status = if self.head_track == 0 {
            STATUS_TRACK_0
        } else {
            0
        };
        self.intrq = true;
        self.state = FdcState::Idle;
    }

    /// Step family: the head holds its position; bit 4 of the command copies
    /// the head position into the track register.
    fn cmd_step(&mut self, cmd: u8)
        requires
            old(self).wf(),
        ensures
            final(self).wf(),
            *final(self) == (FDC {
                status: if old(self).head_track == 0 {
                    STATUS_TRACK_0
                } else {
                    0u8
                },
                track: if cmd & 0x10 != 0 {
                    old(self).head_track
                } else {
                    old(self).track
                },
                intrq: true,
                state: FdcState::Idle,
                ..*old(self)
            }),
    {
        if cmd & 0x10 != 0 {
            self.track = self.head_track;
        }
        self.status = if self.head_track == 0 {
            STATUS_TRACK_0
        } else {
            0
        };
        self.intrq = true;
        self.state = FdcState::Idle;
    }

    /// Read Sector: on a hit, buffer the addressed sector and raise DRQ with
    /// BUSY held; on a miss, RECORD_NOT_FOUND, INTRQ and idle.
    fn cmd_read_sector(&mut self)
        requires
            old(self).wf(),
        ensures
            final(self).wf(),
            old(self).same_selection(*final(self)),
            old(self).same_disks(*final(self)),
            old(self).read_hit() ==> final(self).sector_buffer@ == old(self).disks@[old(
                self,
            ).drive as int]->0.spec_sector(old(self).head_track, old(self).side, old(self).spec_sec0())
                && final(self).buffer_pos == 0 && final(self).drq && final(self).status
                == STATUS_BUSY && final(self).state == FdcState::ReadingSector && final(self).intrq
                == old(self).intrq,
            !old(self).read_hit() ==> final(self).status == STATUS_RECORD_NOT_FOUND && final(self).state == FdcState::Idle && final(self).intrq && final(self).sector_buffer@ == old(
                self,
            ).sector_buffer@ && final(self).buffer_pos == old(self).buffer_pos && final(self).drq
                == old(self).drq,
    {
        self.state = FdcState::ReadingSector;
        let drive = self.drive as usize;
        let sector_num = if self.sector > 0 {
            self.sector - 1
        } else {
            0
        };
        let got: Option<Vec<u8>> = match &self.disks[drive] {
            Some(disk) => disk.read_sector(self.head_track, self.side, sector_num),
            None => None,
        };
        match got {
            Some(bytes) => {
                self.sector_buffer = bytes;
                self.buffer_pos = 0;
                self.drq = true;
                self.status = STATUS_BUSY;
            },
            None => {
                self.status = STATUS_RECORD_NOT_FOUND;
                self.state = FdcState::Idle;
                self.intrq = true;
            },
        }
    }

    /// Write Sector: a zeroed 256-byte buffer is readied and DRQ raised; the
    /// data-port writes fill it and the last byte commits it.
    fn cmd_write_sector(&mut self)
        requires
            old(self).wf(),
        ensures
            final(self).wf(),
            old(self).same_selection(*final(self)),
            old(self).same_disks(*final(self)),
            final(self).sector_buffer@ == Seq::new(256, |i: int| 0u8),
            final(self).buffer_pos == 0,
            final(self).drq,
            final(self).status == STATUS_BUSY,
            final(self).state == FdcState::WritingSector,
            final(self).intrq == old(self).intrq,
    {
        self.status = STATUS_BUSY;
        self.state = FdcState::WritingSector;
        self.sector_buffer = vec![0u8; 256];
        self.buffer_pos = 0;
        self.drq = true;
        proof {
            assert(self.sector_buffer@ =~= Seq::new(256, |i: int| 0u8));
        }
    }

    /// Read Address: buffer six identification bytes (track, side, sector 1,
    /// length code 1 for 256 bytes, two zero CRC bytes) and raise DRQ.
    fn cmd_read_address(&mut self)
        requires
            old(self).wf(),
        ensures
            final(self).wf(),
            old(self).same_selection(*final(self)),
            old(self).same_disks(*final(self)),
            final(self).sector_buffer@ == seq![
                old(self).head_track,
                old(self).side,
                1u8,
                1u8,
                0u8,
                0u8,
            ],
            final(self).buffer_pos == 0,
            final(self).drq,
            final(self).status == STATUS_BUSY,
            final(self).state == FdcState::ReadingAddress,
            final(self).intrq == old(self).intrq,
    {
        self.status = STATUS_BUSY;
        self.state = FdcState::ReadingAddress;
        let mut buf: Vec<u8> = Vec::new();
        buf.push(self.head_track);
        buf.push(self.side);
        buf.push(1);
        buf.push(1);
        buf.push(0);
        buf.push(0);
        proof {
            assert(buf@ =~= seq![old(self).head_track, old(self).side, 1u8, 1u8, 0u8, 0u8]);
        }
        self.sector_buffer = buf;
        self.buffer_pos = 0;
        self.drq = true;
    }

    /// Force Interrupt, no-condition form: BUSY and DRQ drop, idle, INTRQ
    /// cleared.
    fn cmd_force_interrupt(&mut self)
        requires
            old(self).wf(),
        ensures
            final(self).wf(),
            *final(self) == (FDC {
                status: (old(self).status & 0xFE),
                state: FdcState::Idle,
                drq: false,
                intrq: false,
                ..*old(self)
            }),
    {
        self.status = self.status & 0xFE;
        self.state = FdcState::Idle;
        self.drq = false;
        self.intrq = false;
    }

    /// Execute a command byte, decoded by its high nibble: restore, seek,
    /// the step family, read/write sector, read address or force interrupt.
    /// Nibbles 0x9, 0xB, 0xE and 0xF are ignored.
    pub fn write_command(&mut self, cmd: u8)
        requires
            old(self).wf(),
        ensures
            final(self).wf(),
            Self::write_command_rel(*old(self), cmd, *final(self)),
    {
        let cmd_type = cmd & 0xF0;
        proof {
            assert(cmd & 0xF0 == (cmd & 0xF0) / 16 * 16 && cmd & 0xF0 <= 0xF0) by (bit_vector);
        }
        if cmd_type == 0x00 {
            self.cmd_restore();
        } else if cmd_type == 0x10 {
            self.cmd_seek();
        } else if cmd_type >= 0x20 && cmd_type < 0x80 {
            self.cmd_step(cmd);
        } else if cmd_type == 0x80 {
            self.cmd_read_sector();
        } else if cmd_type == 0xA0 {
            self.cmd_write_sector();
        } else if cmd_type == 0xC0 {
            self.cmd_read_address();
        } else if cmd_type == 0xD0 {
            self.cmd_force_interrupt();
        }
    }

    /// Whether DRQ is raised.
    pub fn is_drq(&self) -> (r: bool)
        ensures
            r == self.drq,
    {
        self.drq
    }

    /// Whether INTRQ is raised.
    pub fn is_intrq(&self) -> (r: bool)
        ensures
            r == self.intrq,
    {
        self.intrq
    }
}

} // verus!
