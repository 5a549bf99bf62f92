use import_converter::resolve::{
    mp4_to_unix, parse_creation_text, resolve_creation, DateSource, MP4_EPOCH_OFFSET,
};
use import_converter::timestamp::Timestamp;

/// A minimal little-endian TIFF whose Exif IFD carries one
/// DateTimeOriginal field with the given 19-character ascii value.
fn tiff_with_datetime_original(datetime: &str) -> Vec<u8> {
    assert_eq!(datetime.len(), 19);
    let mut b: Vec<u8> = Vec::new();
    // header: byte order, magic, offset of IFD0
    b.extend_from_slice(b"II");
    b.extend_from_slice(&42u16.to_le_bytes());
    b.extend_from_slice(&8u32.to_le_bytes());
    // IFD0: one entry, the Exif IFD pointer (tag 0x8769, LONG, count 1)
    b.extend_from_slice(&1u16.to_le_bytes());
    b.extend_from_slice(&0x8769u16.to_le_bytes());
    b.extend_from_slice(&4u16.to_le_bytes());
    b.extend_from_slice(&1u32.to_le_bytes());
    b.extend_from_slice(&26u32.to_le_bytes());
    b.extend_from_slice(&0u32.to_le_bytes());
    // Exif IFD at 26: one entry, DateTimeOriginal (tag 0x9003, ASCII, 20)
    b.extend_from_slice(&1u16.to_le_bytes());
    b.extend_from_slice(&0x9003u16.to_le_bytes());
    b.extend_from_slice(&2u16.to_le_bytes());
    b.extend_from_slice(&20u32.to_le_bytes());
    b.extend_from_slice(&44u32.to_le_bytes());
    b.extend_from_slice(&0u32.to_le_bytes());
    // the value at 44
    b.extend_from_slice(datetime.as_bytes());
    b.push(0);
    b
}

/// A minimal MP4: an ftyp box and a moov box holding one version-0 mvhd
/// with the given raw creation time.
fn mp4_with_creation_time(creation: u32) -> Vec<u8> {
    let mut b: Vec<u8> = Vec::new();
    // ftyp
    b.extend_from_slice(&16u32.to_be_bytes());
    b.extend_from_slice(b"ftyp");
    b.extend_from_slice(b"isom");
    b.extend_from_slice(&0u32.to_be_bytes());
    // moov holding mvhd
    b.extend_from_slice(&116u32.to_be_bytes());
    b.extend_from_slice(b"moov");
    b.extend_from_slice(&108u32.to_be_bytes());
    b.extend_from_slice(b"mvhd");
    b.extend_from_slice(&0u32.to_be_bytes()); // version 0, flags 0
    b.extend_from_slice(&creation.to_be_bytes());
    b.extend_from_slice(&0u32.to_be_bytes()); // modification
    b.extend_from_slice(&1000u32.to_be_bytes()); // timescale
    b.extend_from_slice(&0u32.to_be_bytes()); // duration
    b.extend_from_slice(&0x00010000u32.to_be_bytes()); // rate 1.0
    b.extend_from_slice(&0x0100u16.to_be_bytes()); // volume 1.0
    b.extend_from_slice(&0u16.to_be_bytes()); // reserved
    b.extend_from_slice(&0u64.to_be_bytes()); // reserved
    for v in [0x00010000u32, 0, 0, 0, 0x00010000, 0, 0, 0, 0x40000000] {
        b.extend_from_slice(&v.to_be_bytes()); // unity matrix
    }
    b.extend_from_slice(&[0u8; 24]); // pre_defined
    b.extend_from_slice(&1u32.to_be_bytes()); // next track id
    b
}

#[test]
fn exif_datetime_original_resolves() {
    let bytes = tiff_with_datetime_original("2023:07:04 10:15:00");
    let (ts, source) = resolve_creation(&bytes, None, None);
    assert_eq!(source, DateSource::Exif);
    assert_eq!(ts, Timestamp { year: 2023, month: 7, day: 4, hour: 10, minute: 15, second: 0 });
}

#[test]
fn malformed_exif_datetime_falls_through() {
    let bytes = tiff_with_datetime_original("not a datetime at a");
    let (_, source) = resolve_creation(&bytes, None, Some(86400));
    assert_eq!(source, DateSource::FilesystemAttribute);
}

#[test]
fn parse_creation_text_exact() {
    let ts = parse_creation_text("2023-07-04 10:15:00");
    assert_eq!(
        ts,
        Some(Timestamp { year: 2023, month: 7, day: 4, hour: 10, minute: 15, second: 0 })
    );
    assert_eq!(parse_creation_text("2023-13-01 00:00:00"), None);
    assert_eq!(parse_creation_text("2023-02-29 00:00:00"), None);
    assert_eq!(parse_creation_text("garbage"), None);
    assert_eq!(
        parse_creation_text("2024-02-29 23:59:59"),
        Some(Timestamp { year: 2024, month: 2, day: 29, hour: 23, minute: 59, second: 59 })
    );
}

#[test]
fn mp4_epoch_offset_subtracted() {
    assert_eq!(mp4_to_unix(MP4_EPOCH_OFFSET + 100), 100);
    assert_eq!(mp4_to_unix(MP4_EPOCH_OFFSET), 0);
    // values below the gap are taken as already Unix based
    assert_eq!(mp4_to_unix(50), 50);
}

#[test]
fn mp4_container_time_used() {
    // extract the movie-header time as the program does, then resolve
    let bytes = mp4_with_creation_time(2082844800u32 + 100);
    let cursor = std::io::Cursor::new(bytes.as_slice());
    let reader = mp4::Mp4Reader::read_header(cursor, bytes.len() as u64).unwrap();
    let raw = reader.moov.mvhd.creation_time;
    assert_eq!(raw, 2082844900);
    let (ts, source) = resolve_creation(&Vec::new(), Some(raw), None);
    assert_eq!(source, DateSource::ContainerMetadata);
    // 100 s past the Unix epoch, in local time: within half a day of it
    assert!(ts.year == 1969 || ts.year == 1970);
}

#[test]
fn resolution_falls_back_to_filesystem_then_clock() {
    let garbage: Vec<u8> = vec![0x13, 0x37, 0x00, 0xff, 0x42];
    let (ts, source) = resolve_creation(&garbage, None, Some(86400));
    assert_eq!(source, DateSource::FilesystemAttribute);
    assert!(ts.year == 1970);
    let (ts, source) = resolve_creation(&garbage, None, None);
    assert_eq!(source, DateSource::LocalClockFallback);
    assert!((1..=12).contains(&ts.month));
    assert!((1..=31).contains(&ts.day));
}

#[test]
fn out_of_range_times_fall_through() {
    let garbage: Vec<u8> = vec![0x13, 0x37];
    // a container time whose Unix conversion leaves the calendar model
    let (_, source) = resolve_creation(&garbage, Some(u64::MAX), Some(86400));
    assert_eq!(source, DateSource::FilesystemAttribute);
    // an mtime outside the model falls to the clock
    let (_, source) = resolve_creation(&garbage, None, Some(i64::MAX - 100));
    assert_eq!(source, DateSource::LocalClockFallback);
    let (_, source) = resolve_creation(&garbage, None, Some(i64::MIN + 100));
    assert_eq!(source, DateSource::LocalClockFallback);
}

#[test]
fn source_labels() {
    assert_eq!(DateSource::Exif.label(), "EXIF");
    assert_eq!(DateSource::ContainerMetadata.label(), "MP4 Metadata");
    assert_eq!(DateSource::FilesystemAttribute.label(), "File Attribute");
    assert_eq!(DateSource::LocalClockFallback.label(), "Local Time");
}
