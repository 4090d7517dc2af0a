use zx_core::trd::{TrdDisk, TrdError, SECTOR_SIZE, TRD_SIZE};

#[test]
fn test_offset_calculation() {
    let disk = TrdDisk::new();

    // Track 0, Side 0, Sector 0 should be at offset 0
    assert_eq!(disk.calculate_offset(0, 0, 0), Some(0));

    // Track 0, Side 0, Sector 1 should be at offset 256
    assert_eq!(disk.calculate_offset(0, 0, 1), Some(256));

    // Track 0, Side 1, Sector 0 should be at offset 16*256 = 4096
    assert_eq!(disk.calculate_offset(0, 1, 0), Some(4096));

    // Track 1, Side 0, Sector 0 should be at offset 32*256 = 8192
    assert_eq!(disk.calculate_offset(1, 0, 0), Some(8192));
}

#[test]
fn test_sector_read_write() {
    let mut disk = TrdDisk::new();
    let test_data = vec![0xAAu8; SECTOR_SIZE];

    // Write and read back
    assert!(disk.write_sector(0, 0, 0, &test_data));
    let read_data = disk.read_sector(0, 0, 0).unwrap();
    assert_eq!(read_data, test_data);
}

#[test]
fn test_offset_rejects_bad_geometry() {
    let mut disk = TrdDisk::new();
    assert_eq!(disk.calculate_offset(80, 0, 0), None);
    assert_eq!(disk.calculate_offset(0, 2, 0), None);
    assert_eq!(disk.calculate_offset(0, 0, 16), None);
    assert!(disk.read_sector(80, 0, 0).is_none());
    assert!(!disk.write_sector(0, 0, 16, &vec![0u8; SECTOR_SIZE]));
    // wrong buffer length is refused too
    assert!(!disk.write_sector(0, 0, 0, &vec![0u8; 255]));
}

#[test]
fn test_offset_covers_whole_image() {
    // last sector of the disk ends exactly at the image size
    let disk = TrdDisk::new();
    let last = disk.calculate_offset(79, 1, 15).unwrap();
    assert_eq!(last + SECTOR_SIZE, TRD_SIZE);
}

#[test]
fn test_from_bytes_rejects_wrong_size() {
    assert_eq!(
        TrdDisk::from_bytes(vec![0u8; 1000]).err(),
        Some(TrdError::WrongSize)
    );
    assert!(TrdDisk::from_bytes(vec![0u8; TRD_SIZE]).is_ok());
}

#[test]
fn test_disk_info_and_catalog() {
    let mut data = vec![0u8; TRD_SIZE];
    // one catalog entry in the first slot
    data[0] = b'H';
    data[1] = b'E';
    data[2] = b'L';
    data[3] = b'L';
    data[4] = b'O';
    data[5] = b' ';
    data[6] = b' ';
    data[7] = b' ';
    data[8] = b'B';
    data[0x0d] = 5; // length in sectors
    data[0x0e] = 1; // start sector
    data[0x0f] = 2; // start track
    // info sector (track 0, sector index 9) at offset 9*256
    let info = 9 * 256;
    data[info + 0xe1] = 6;
    data[info + 0xe2] = 1;
    data[info + 0xe3] = 0x16;
    data[info + 0xe4] = 1;
    data[info + 0xe5] = 0x10;
    data[info + 0xe6] = 0x02;
    data[info + 0xe7] = 0x10;
    for (k, b) in b"testdisk".iter().enumerate() {
        data[info + 0xf5 + k] = *b;
    }
    let disk = TrdDisk::from_bytes(data).unwrap();

    let di = disk.get_disk_info().unwrap();
    assert_eq!(di.first_free_sector, 6);
    assert_eq!(di.first_free_track, 1);
    assert_eq!(di.disk_type, 0x16);
    assert_eq!(di.num_files, 1);
    assert_eq!(di.free_sectors, 0x0210);
    assert_eq!(di.disk_id, 0x10);
    assert_eq!(di.disk_name, b"testdisk".to_vec());

    let catalog = disk.get_catalog();
    assert_eq!(catalog.len(), 1);
    assert_eq!(catalog[0].filename, b"HELLO   ".to_vec());
    assert_eq!(catalog[0].extension, b'B');
    assert_eq!(catalog[0].length_sectors, 5);
    assert_eq!(catalog[0].start_sector, 1);
    assert_eq!(catalog[0].start_track, 2);
}

#[test]
fn test_write_does_not_disturb_neighbours() {
    let mut disk = TrdDisk::new();
    let ones = vec![0x11u8; SECTOR_SIZE];
    let twos = vec![0x22u8; SECTOR_SIZE];
    assert!(disk.write_sector(3, 0, 4, &ones));
    assert!(disk.write_sector(3, 0, 5, &twos));
    assert_eq!(disk.read_sector(3, 0, 4).unwrap(), ones);
    assert_eq!(disk.read_sector(3, 0, 5).unwrap(), twos);
    assert_eq!(disk.read_sector(3, 1, 4).unwrap(), vec![0u8; SECTOR_SIZE]);
}
