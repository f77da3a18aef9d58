use vdb_csv_export::vdb::stream_header_ok;

/// A minimal valid VDB archive naming no grids: magic, file version 224,
/// library version, the grid-offsets flag, a fixed-length UUID string, an
/// empty metadata table and a zero grid count.
fn empty_archive() -> Vec<u8> {
    let mut bytes: Vec<u8> = Vec::new();
    bytes.extend_from_slice(&0x56444220u64.to_le_bytes());
    bytes.extend_from_slice(&224u32.to_le_bytes());
    bytes.extend_from_slice(&10u32.to_le_bytes());
    bytes.extend_from_slice(&0u32.to_le_bytes());
    bytes.push(1);
    bytes.extend_from_slice(b"00000000-0000-0000-0000-000000000000");
    bytes.extend_from_slice(&0u32.to_le_bytes());
    bytes.extend_from_slice(&0u32.to_le_bytes());
    bytes
}

fn stream_grid_names(bytes: &[u8]) -> Option<Vec<String>> {
    let reader = vdb_rs::VdbReader::new(std::io::Cursor::new(bytes)).ok()?;
    Some(reader.available_grids())
}

#[test]
fn empty_bytes_fail_the_pre_screen() {
    assert!(!stream_header_ok(&Vec::new()));
}

#[test]
fn truncated_bytes_fail_the_pre_screen() {
    assert!(!stream_header_ok(&b"notavdb".to_vec()));
}

#[test]
fn old_file_versions_fail_the_pre_screen() {
    // versions below 218 reach an unimplemented branch of the decoder's
    // reader, so the pre-screen must reject them before it runs
    for version in [213u32, 215, 217] {
        let mut bytes = empty_archive();
        bytes[8..12].copy_from_slice(&version.to_le_bytes());
        assert!(!stream_header_ok(&bytes));
    }
    let mut bytes = empty_archive();
    bytes[8..12].copy_from_slice(&218u32.to_le_bytes());
    assert!(stream_header_ok(&bytes));
}

#[test]
fn cleared_grid_offsets_flag_fails_the_pre_screen() {
    // the decoder asserts this flag instead of returning an error
    let mut bytes = empty_archive();
    bytes[20] = 0;
    assert!(!stream_header_ok(&bytes));
}

#[test]
fn valid_archive_passes_the_pre_screen_and_lists_nothing() {
    let bytes = empty_archive();
    assert!(stream_header_ok(&bytes));
    let names = stream_grid_names(&bytes).unwrap();
    assert!(names.is_empty());
}

#[test]
fn truncated_archive_fails_cleanly_after_the_pre_screen() {
    let mut bytes = empty_archive();
    bytes.truncate(30);
    assert!(stream_header_ok(&bytes));
    assert!(stream_grid_names(&bytes).is_none());
}
