//! TRD disk images: a flat byte array of 80 tracks x 2 sides x 16 sectors
//! x 256 bytes, addressed by geometry.  Sector numbers are zero-based here;
//! callers that use the one-based convention translate before calling.

use vstd::prelude::*;

verus! {

/// Size of a standard TRD image in bytes.
pub const TRD_SIZE: usize = 655360;

/// Tracks per disk.
pub const TRACKS: u8 = 80;

/// Sides per disk.
pub const SIDES: u8 = 2;

/// Sectors per track.
pub const SECTORS_PER_TRACK: u8 = 16;

/// Bytes per sector.
pub const SECTOR_SIZE: usize = 256;

/// A TRD disk image.
pub struct TrdDisk {
    /// Raw disk data, exactly `TRD_SIZE` bytes.
    pub data: Vec<u8>,
    /// Number of tracks (80).
    pub tracks: u8,
    /// Number of sides (2).
    pub sides: u8,
    /// Sectors per track (16).
    pub sectors_per_track: u8,
}

/// Whether a geometry triple addresses a sector that exists on a standard
/// disk.
pub open spec fn valid_geometry(track: u8, side: u8, sector: u8) -> bool {
    track < 80 && side < 2 && sector < 16
}

/// Physical byte offset of a sector: sides are interleaved within a track,
/// sectors within a side.
pub open spec fn spec_offset(track: u8, side: u8, sector: u8) -> int {
    ((track * 2 + side) * 16 + sector) * 256
}

impl TrdDisk {
    /// Well-formed: standard geometry and a full-size data array.
    pub open spec fn wf(self) -> bool {
        &&& self.data@.len() == 655360
        &&& self.tracks == 80
        &&& self.sides == 2
        &&& self.sectors_per_track == 16
    }

    /// The sector at a valid geometry triple, as a byte sequence.
    pub open spec fn spec_sector(self, track: u8, side: u8, sector: u8) -> Seq<u8> {
        self.data@.subrange(
            spec_offset(track, side, sector),
            spec_offset(track, side, sector) + 256,
        )
    }

    /// A blank disk: all zero bytes.
    pub fn new() -> (d: TrdDisk)
        ensures
            d.wf(),
            forall|i: int| 0 <= i < 655360 ==> d.data@[i] == 0,
    {
        TrdDisk {
            data: vec![0u8; TRD_SIZE],
            tracks: TRACKS,
            sides: SIDES,
            sectors_per_track: SECTORS_PER_TRACK,
        }
    }

    /// Build a disk from raw bytes; any length other than `TRD_SIZE` is
    /// rejected.
    pub fn from_bytes(data: Vec<u8>) -> (r: Result<TrdDisk, TrdError>)
        ensures
            data@.len() == 655360 <==> r is Ok,
            r is Ok ==> r->Ok_0.wf() && r->Ok_0.data@ == data@,
            r is Err ==> r->Err_0 == TrdError::WrongSize,
    {
        if data.len() != TRD_SIZE {
            return Err(TrdError::WrongSize);
        }
        Ok(
            TrdDisk {
                data,
                tracks: TRACKS,
                sides: SIDES,
                sectors_per_track: SECTORS_PER_TRACK,
            },
        )
    }

    /// Physical offset of a sector, or `None` for a geometry triple off the
    /// disk.
    pub fn calculate_offset(&self, track: u8, side: u8, sector: u8) -> (r: Option<usize>)
        requires
            self.wf(),
        ensures
            valid_geometry(track, side, sector) ==> r == Some(
                spec_offset(track, side, sector) as usize,
            ),
            !valid_geometry(track, side, sector) ==> r is None,
    {
        if track >= self.tracks || side >= self.sides || sector >= self.sectors_per_track {
            return None;
        }
        let off: usize = ((track as usize * 2 + side as usize) * 16 + sector as usize) * 256;
        Some(off)
    }

    /// Read one 256-byte sector; `None` if any coordinate is out of range.
    pub fn read_sector(&self, track: u8, side: u8, sector: u8) -> (r: Option<Vec<u8>>)
        requires
            self.wf(),
        ensures
            valid_geometry(track, side, sector) ==> r is Some && r->0@ == self.spec_sector(
                track,
                side,
                sector,
            ),
            !valid_geometry(track, side, sector) ==> r is None,
    {
        let off = match self.calculate_offset(track, side, sector) {
            Some(o) => o,
            None => {
                return None;
            },
        };
        let mut out: Vec<u8> = Vec::new();
        let mut i: usize = 0;
        while i < 256
            invariant
                self.wf(),
                valid_geometry(track, side, sector),
                off == spec_offset(track, side, sector),
                off + 256 <= 655360,
                i <= 256,
                out@.len() == i,
                forall|j: int| 0 <= j < i ==> out@[j] == self.data@[off + j],
            decreases 256 - i,
        {
            out.push(self.data[off + i]);
            i = i + 1;
        }
        proof {
            assert(out@ =~= self.spec_sector(track, side, sector));
        }
        Some(out)
    }

    /// Write one 256-byte sector; returns false (and changes nothing) if the
    /// buffer is not 256 bytes or the geometry is out of range.
    pub fn write_sector(&mut self, track: u8, side: u8, sector: u8, buf: &Vec<u8>) -> (r: bool)
        requires
            old(self).wf(),
        ensures
            final(self).wf(),
            r == (buf@.len() == 256 && valid_geometry(track, side, sector)),
            !r ==> *final(self) == *old(self),
            r ==> final(self).spec_sector(track, side, sector) == buf@,
            r ==> forall|i: int|
                0 <= i < 655360 ==> final(self).data@[i] == (if spec_offset(track, side, sector)
                    <= i < spec_offset(track, side, sector) + 256 {
                    buf@[i - spec_offset(track, side, sector)]
                } else {
                    old(self).data@[i]
                }),
            r ==> forall|t: u8, s: u8, n: u8|
                valid_geometry(t, s, n) && !(t == track && s == side && n == sector)
                    ==> #[trigger] final(self).spec_sector(t, s, n) == old(self).spec_sector(
                    t,
                    s,
                    n,
                ),
    {
        if buf.len() != SECTOR_SIZE {
            return false;
        }
        let off = match self.calculate_offset(track, side, sector) {
            Some(o) => o,
            None => {
                return false;
            },
        };
        let mut i: usize = 0;
        while i < 256
            invariant
                old(self).wf(),
                self.wf(),
                self.tracks == old(self).tracks,
                self.sides == old(self).sides,
                self.sectors_per_track == old(self).sectors_per_track,
                buf@.len() == 256,
                valid_geometry(track, side, sector),
                off == spec_offset(track, side, sector),
                off + 256 <= 655360,
                i <= 256,
                forall|j: int|
                    0 <= j < 655360 ==> self.data@[j] == (if off <= j < off + i {
                        buf@[j - off]
                    } else {
                        old(self).data@[j]
                    }),
            decreases 256 - i,
        {
            self.data.set(off + i, buf[i]);
            i = i + 1;
        }
        proof {
            assert(self.spec_sector(track, side, sector) =~= buf@);
            assert forall|t: u8, s: u8, n: u8|
                valid_geometry(t, s, n) && !(t == track && s == side && n == sector)
                    implies #[trigger] self.spec_sector(t, s, n) == old(self).spec_sector(
                t,
                s,
                n,
            ) by {
                lemma_offset_injective(t, s, n, track, side, sector);
                assert(self.spec_sector(t, s, n) =~= old(self).spec_sector(t, s, n));
            }
        }
        true
    }

    /// Raw image bytes.
    pub fn get_data(&self) -> (r: &Vec<u8>)
        ensures
            r@ == self.data@,
    {
        &self.data
    }

    /// Disk information block, taken from track 0, side 0, sector 9:
    /// first free position, disk type, file count, free sector count, id and
    /// the raw name bytes.
    pub fn get_disk_info(&self) -> (r: Option<TrdDiskInfo>)
        requires
            self.wf(),
        ensures
            r is Some,
            ({
                let base = spec_offset(0, 0, 9);
                let info = r->0;
                &&& info.first_free_sector == self.data@[base + 0xe1]
                &&& info.first_free_track == self.data@[base + 0xe2]
                &&& info.disk_type == self.data@[base + 0xe3]
                &&& info.num_files == self.data@[base + 0xe4]
                &&& info.free_sectors == self.data@[base + 0xe5] + self.data@[base + 0xe6] * 256
                &&& info.disk_id == self.data@[base + 0xe7]
                &&& info.disk_name@ == self.data@.subrange(base + 0xf5, base + 0xfd)
            }),
    {
        let sec = match self.read_sector(0, 0, 9) {
            Some(s) => s,
            None => {
                return None;
            },
        };
        let mut name: Vec<u8> = Vec::new();
        let mut i: usize = 0xf5;
        while i < 0xfd
            invariant
                sec@.len() == 256,
                0xf5 <= i <= 0xfd,
                name@.len() == i - 0xf5,
                forall|j: int| 0 <= j < i - 0xf5 ==> name@[j] == sec@[0xf5 + j],
            decreases 0xfd - i,
        {
            name.push(sec[i]);
            i = i + 1;
        }
        let lo = sec[0xe5] as u16;
        let hi = sec[0xe6] as u16;
        proof {
            let base = spec_offset(0, 0, 9);
            assert(name@ =~= self.data@.subrange(base + 0xf5, base + 0xfd));
        }
        Some(
            TrdDiskInfo {
                first_free_sector: sec[0xe1],
                first_free_track: sec[0xe2],
                disk_type: sec[0xe3],
                num_files: sec[0xe4],
                free_sectors: lo + hi * 256,
                disk_id: sec[0xe7],
                disk_name: name,
            },
        )
    }

    /// Catalog entries: the 128 sixteen-byte slots of track 0, sectors 0-7,
    /// in order, keeping those whose first filename byte is nonzero.
    pub fn get_catalog(&self) -> (r: Vec<TrdCatalogEntry>)
        requires
            self.wf(),
        ensures
            r.deep_view() == spec_catalog(self.data@, 128),
    {
        let mut entries: Vec<TrdCatalogEntry> = Vec::new();
        let mut k: usize = 0;
        while k < 128
            invariant
                self.wf(),
                k <= 128,
                entries.deep_view() =~= spec_catalog(self.data@, k as nat),
            decreases 128 - k,
        {
            let base = k * 16;
            if self.data[base] != 0 {
                let mut filename: Vec<u8> = Vec::new();
                let mut i: usize = 0;
                while i < 8
                    invariant
                        self.wf(),
                        base + 16 <= 2048,
                        i <= 8,
                        filename@.len() == i,
                        forall|j: int| 0 <= j < i ==> filename@[j] == self.data@[base + j],
                    decreases 8 - i,
                {
                    filename.push(self.data[base + i]);
                    i = i + 1;
                }
                let entry = TrdCatalogEntry {
                    filename,
                    extension: self.data[base + 8],
                    start_track: self.data[base + 0x0f],
                    start_sector: self.data[base + 0x0e],
                    length_sectors: self.data[base + 0x0d],
                };
                proof {
                    assert(entry.deep_view().filename =~= self.data@.subrange(
                        base as int,
                        base + 8,
                    ));
                }
                entries.push(entry);
            }
            k = k + 1;
        }
        entries
    }
}

/// Ghost image of one catalog entry, used to state what `get_catalog`
/// returns.
pub struct CatalogEntryView {
    pub filename: Seq<u8>,
    pub extension: u8,
    pub start_track: u8,
    pub start_sector: u8,
    pub length_sectors: u8,
}

/// The catalog entries among the first `n` slots whose first byte is
/// nonzero, in slot order.
pub open spec fn spec_catalog(data: Seq<u8>, n: nat) -> Seq<CatalogEntryView>
    decreases n,
{
    if n == 0 {
        Seq::empty()
    } else {
        let prev = spec_catalog(data, (n - 1) as nat);
        let base = (n - 1) * 16;
        if data[base] != 0 {
            prev.push(
                CatalogEntryView {
                    filename: data.subrange(base, base + 8),
                    extension: data[base + 8],
                    start_track: data[base + 0x0f],
                    start_sector: data[base + 0x0e],
                    length_sectors: data[base + 0x0d],
                },
            )
        } else {
            prev
        }
    }
}

/// Errors building a disk image.
#[derive(Debug, Clone, Copy, PartialEq, Eq, Structural)]
pub enum TrdError {
    /// The byte array was not exactly `TRD_SIZE` long.
    WrongSize,
}

impl TrdError {
    /// A human-readable reason.
    pub fn message(&self) -> (r: &'static str)
        ensures
            *self == TrdError::WrongSize ==> r@ == "disk image is not the standard size"@,
    {
        match self {
            TrdError::WrongSize => "disk image is not the standard size",
        }
    }
}

/// Disk information block of a TRD image.
#[derive(Debug, Clone)]
pub struct TrdDiskInfo {
    pub first_free_sector: u8,
    pub first_free_track: u8,
    pub disk_type: u8,
    pub num_files: u8,
    pub free_sectors: u16,
    pub disk_id: u8,
    /// Raw name bytes (8), unconverted and untrimmed.
    pub disk_name: Vec<u8>,
}

/// One file entry of the TRD catalog.
#[derive(Debug, Clone)]
pub struct TrdCatalogEntry {
    /// Raw filename bytes (8), unconverted and untrimmed.
    pub filename: Vec<u8>,
    /// Type byte, e.g. `B` for Basic, `C` for code.
    pub extension: u8,
    pub start_track: u8,
    pub start_sector: u8,
    pub length_sectors: u8,
}

impl DeepView for TrdCatalogEntry {
    type V = CatalogEntryView;

    open spec fn deep_view(&self) -> CatalogEntryView {
        CatalogEntryView {
            filename: self.filename@,
            extension: self.extension,
            start_track: self.start_track,
            start_sector: self.start_sector,
            length_sectors: self.length_sectors,
        }
    }
}

/// Law: the offset map is injective on valid geometry; two distinct valid
/// triples never address overlapping bytes.
pub proof fn lemma_offset_injective(t1: u8, s1: u8, n1: u8, t2: u8, s2: u8, n2: u8)
    requires
        valid_geometry(t1, s1, n1),
        valid_geometry(t2, s2, n2),
        !(t1 == t2 && s1 == s2 && n1 == n2),
    ensures
        spec_offset(t1, s1, n1) != spec_offset(t2, s2, n2),
        spec_offset(t1, s1, n1) + 256 <= spec_offset(t2, s2, n2) || spec_offset(t2, s2, n2) + 256
            <= spec_offset(t1, s1, n1),
{
    let i1 = (t1 * 2 + s1) * 16 + n1;
    let i2 = (t2 * 2 + s2) * 16 + n2;
    assert(i1 != i2);
}

/// Law: every valid geometry triple maps into [0, 655360) at a multiple of
/// 256, and every multiple of 256 in that range is hit by exactly the triple
/// recovered by division: the offset map is a bijection onto the sector
/// grid.
pub proof fn lemma_offset_surjective(off: int)
    requires
        0 <= off < 655360,
        off % 256 == 0,
    ensures
        ({
            let idx = off / 256;
            let track = idx / 32;
            let side = (idx % 32) / 16;
            let sector = idx % 16;
            &&& valid_geometry(track as u8, side as u8, sector as u8)
            &&& spec_offset(track as u8, side as u8, sector as u8) == off
        }),
{
    let idx = off / 256;
    assert(0 <= idx < 2560);
    let track = idx / 32;
    let side = (idx % 32) / 16;
    let sector = idx % 16;
    assert(track < 80 && side < 2 && sector < 16);
    assert((track * 2 + side) * 16 + sector == idx) by (nonlinear_arith)
        requires
            track == idx / 32 && side == (idx % 32) / 16 && sector == idx % 16 && 0 <= idx < 2560,
    ;
    assert(idx * 256 == off);
}

/// Law: after a write of `buf` at a valid geometry triple (the pointwise
/// data update that `write_sector` performs), reading the same triple
/// returns exactly `buf`, and every other sector is unchanged.
pub proof fn lemma_sector_round_trip(
    pre: TrdDisk,
    post: TrdDisk,
    track: u8,
    side: u8,
    sector: u8,
    buf: Seq<u8>,
)
    requires
        pre.wf(),
        post.wf(),
        buf.len() == 256,
        valid_geometry(track, side, sector),
        forall|i: int|
            0 <= i < 655360 ==> post.data@[i] == (if spec_offset(track, side, sector) <= i
                < spec_offset(track, side, sector) + 256 {
                buf[i - spec_offset(track, side, sector)]
            } else {
                pre.data@[i]
            }),
    ensures
        post.spec_sector(track, side, sector) == buf,
        forall|t: u8, s: u8, n: u8|
            valid_geometry(t, s, n) && !(t == track && s == side && n == sector)
                ==> #[trigger] post.spec_sector(t, s, n) == pre.spec_sector(t, s, n),
{
    assert(post.spec_sector(track, side, sector) =~= buf);
    assert forall|t: u8, s: u8, n: u8|
        valid_geometry(t, s, n) && !(t == track && s == side && n == sector)
            implies #[trigger] post.spec_sector(t, s, n) == pre.spec_sector(t, s, n) by {
        lemma_offset_injective(t, s, n, track, side, sector);
        assert(post.spec_sector(t, s, n) =~= pre.spec_sector(t, s, n));
    }
}

} // verus!
