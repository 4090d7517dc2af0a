use zx_core::fdc::{FdcState, FDC};
use zx_core::trd::{TrdDisk, SECTOR_SIZE, TRD_SIZE};

#[test]
fn test_fdc_creation() {
    let fdc = FDC::new();
    assert_eq!(fdc.track, 0);
    assert_eq!(fdc.sector, 1);
    assert_eq!(fdc.head_track, 0);
}

#[test]
fn test_restore_command() {
    let mut fdc = FDC::new();
    fdc.head_track = 10;
    fdc.write_command(0x00);
    assert_eq!(fdc.head_track, 0);
    assert_eq!(fdc.track, 0);
}

#[test]
fn test_seek_and_step() {
    let mut fdc = FDC::new();
    fdc.write_track(12);
    fdc.write_command(0x10); // seek
    assert_eq!(fdc.head_track, 12);
    assert!(fdc.is_intrq());
    assert_eq!(fdc.state, FdcState::Idle);
    // step with the update-track bit copies the head position
    fdc.write_track(0);
    fdc.write_command(0x30);
    assert_eq!(fdc.track, 12);
    assert_eq!(fdc.head_track, 12);
}

#[test]
fn test_fdc_sector_read() {
    // a known byte at (track 2, side 0, zero-based sector 2)
    let mut data = vec![0u8; TRD_SIZE];
    let offset = ((2 * 2 + 0) * 16 + 2) * 256;
    data[offset] = 0x5A;
    let disk = TrdDisk::from_bytes(data).unwrap();

    let mut fdc = FDC::new();
    fdc.load_disk(0, disk);
    fdc.write_system(0x18); // drive 0, side 0, motor on, no reset
    fdc.write_track(2);
    fdc.write_command(0x10); // seek: head to track 2
    fdc.write_sector(3); // one-based sector 3
    fdc.write_command(0x80); // read sector
    assert!(fdc.is_drq());

    let first = fdc.read_data();
    assert_eq!(first, 0x5A);
    for _ in 0..255 {
        fdc.read_data();
    }
    assert!(fdc.is_intrq());
    let status = fdc.read_status();
    assert_eq!(status & 0x01, 0); // BUSY down after the 256th byte
    assert!(!fdc.is_drq());
}

#[test]
fn test_fdc_sector_read_miss() {
    let mut fdc = FDC::new();
    fdc.write_system(0x18);
    fdc.write_sector(1);
    fdc.write_command(0x80); // no disk in the drive
    assert!(fdc.is_intrq());
    let status = fdc.read_status();
    assert_ne!(status & 0x10, 0); // RECORD_NOT_FOUND
    assert_ne!(status & 0x80, 0); // NOT_READY: empty drive
}

#[test]
fn test_fdc_sector_write() {
    let disk = TrdDisk::new();
    let mut fdc = FDC::new();
    fdc.load_disk(0, disk);
    fdc.write_system(0x18);
    fdc.write_track(1);
    fdc.write_command(0x10); // head to track 1
    fdc.write_sector(2); // one-based: zero-based sector 1
    fdc.write_command(0xA0); // write sector
    assert!(fdc.is_drq());
    for k in 0..256 {
        fdc.write_data((k & 0xFF) as u8);
    }
    assert!(fdc.is_intrq());
    let status = fdc.read_status();
    assert_eq!(status & 0x01, 0);
    // the data landed on the disk at (1, 0, 1)
    let sector = fdc.disks[0].as_ref().unwrap().read_sector(1, 0, 1).unwrap();
    for k in 0..256 {
        assert_eq!(sector[k], (k & 0xFF) as u8);
    }
}

#[test]
fn test_read_address() {
    let mut fdc = FDC::new();
    fdc.write_track(7);
    fdc.write_command(0x10);
    fdc.write_command(0xC0);
    let bytes: Vec<u8> = (0..6).map(|_| fdc.read_data()).collect();
    assert_eq!(bytes, vec![7, 0, 1, 1, 0, 0]);
}

#[test]
fn test_system_register() {
    let mut fdc = FDC::new();
    fdc.write_system(0x1B); // drive 3, motor on, no reset
    assert_eq!(fdc.drive, 3);
    assert!(fdc.motor_on);
    // reading the system register reports INTRQ in bit 6 and DRQ in bit 7
    assert_eq!(fdc.read_system(), 0x3F);
    fdc.write_track(1);
    fdc.write_command(0x10); // raises INTRQ
    assert_eq!(fdc.read_system(), 0x7F);
    // reading the system register does not clear INTRQ
    assert_eq!(fdc.read_system(), 0x7F);
    // reading status does
    fdc.read_status();
    assert_eq!(fdc.read_system(), 0x3F);
}

#[test]
fn test_force_interrupt() {
    let mut fdc = FDC::new();
    let disk = TrdDisk::new();
    fdc.load_disk(0, disk);
    fdc.write_system(0x18);
    fdc.write_command(0x80);
    assert!(fdc.is_drq());
    fdc.write_command(0xD0);
    assert!(!fdc.is_drq());
    assert!(!fdc.is_intrq());
    assert_eq!(fdc.state, FdcState::Idle);
}

#[test]
fn test_unload_disk() {
    let mut fdc = FDC::new();
    fdc.load_disk(0, TrdDisk::new());
    assert!(fdc.disks[0].is_some());
    fdc.unload_disk(0);
    assert!(fdc.disks[0].is_none());
}

#[test]
fn test_system_reset_bit() {
    let mut fdc = FDC::new();
    fdc.write_track(9);
    fdc.write_command(0x10);
    assert_eq!(fdc.head_track, 9);
    // bit 3 low resets the controller
    fdc.write_system(0x10);
    assert_eq!(fdc.head_track, 0);
    assert_eq!(fdc.track, 0);
    assert_eq!(fdc.sector, 1);
    assert!(!fdc.is_drq());
    assert!(!fdc.is_intrq());
}

#[test]
fn test_write_sector_wrong_drive_ignored() {
    let mut fdc = FDC::new();
    fdc.load_disk(9, TrdDisk::new());
    assert!(fdc.disks.iter().all(|d| d.is_none()));
}

#[test]
fn test_empty_data_register_reads_ff() {
    let mut fdc = FDC::new();
    assert_eq!(fdc.read_data(), 0xFF);
}

#[test]
fn test_fdc_write_commits_256th_byte() {
    let disk = TrdDisk::new();
    let mut fdc = FDC::new();
    fdc.load_disk(0, disk);
    fdc.write_system(0x18);
    fdc.write_sector(1);
    fdc.write_command(0xA0);
    let buf = vec![0x77u8; SECTOR_SIZE];
    for b in &buf {
        fdc.write_data(*b);
    }
    let sector = fdc.disks[0].as_ref().unwrap().read_sector(0, 0, 0).unwrap();
    assert_eq!(sector, buf);
}
