use vdb_csv_export::entry::row_fields;
use vdb_csv_export::entry::row_line;
use vdb_csv_export::entry::VoxelEntry;
use vdb_csv_export::textfmt::i32_text;
use vdb_csv_export::textfmt::is_csv_plain;
use vdb_csv_export::textfmt::nat_text;

#[test]
fn nat_text_renders_decimal() {
    assert_eq!(nat_text(0), "0");
    assert_eq!(nat_text(7), "7");
    assert_eq!(nat_text(10), "10");
    assert_eq!(nat_text(128), "128");
    assert_eq!(nat_text(4294967295), "4294967295");
    assert_eq!(nat_text(18446744073709551615), "18446744073709551615");
}

#[test]
fn i32_text_renders_decimal() {
    assert_eq!(i32_text(0), "0");
    assert_eq!(i32_text(42), "42");
    assert_eq!(i32_text(-13), "-13");
    assert_eq!(i32_text(i32::MAX), "2147483647");
    assert_eq!(i32_text(i32::MIN), "-2147483648");
}

#[test]
fn plain_text_check() {
    assert!(is_csv_plain("1.5"));
    assert!(is_csv_plain("-0.25"));
    assert!(is_csv_plain(""));
    assert!(!is_csv_plain("a,b"));
    assert!(!is_csv_plain("a\nb"));
    assert!(!is_csv_plain("a\rb"));
    assert!(!is_csv_plain("a\"b"));
}

#[test]
fn entry_rejects_bad_value_text() {
    assert!(VoxelEntry::new(0, 0, 0, 1, String::from("1,5")).is_none());
    assert!(VoxelEntry::new(0, 0, 0, 1, String::from("1\n5")).is_none());
    assert!(VoxelEntry::new(0, 0, 0, 1, String::new()).is_none());
    assert!(VoxelEntry::new(0, 0, 0, 1, String::from("1.5")).is_some());
}

#[test]
fn row_line_renders_all_columns() {
    let e = VoxelEntry::new(1, 2, 3, 1, String::from("1.5")).unwrap();
    assert_eq!(row_line(&e), "1,2,3,1,1.5\n");
    let e = VoxelEntry::new(-4, 0, 77, 128, String::from("-0.5")).unwrap();
    assert_eq!(row_line(&e), "-4,0,77,128,-0.5\n");
}

#[test]
fn row_fields_in_column_order() {
    let e = VoxelEntry::new(-1, 9, -33, 8, String::from("0.125")).unwrap();
    let fields = row_fields(&e);
    assert_eq!(fields, vec!["-1", "9", "-33", "8", "0.125"]);
}

#[test]
fn row_value_text_matches_half_rendering() {
    let bits = half::f16::from_f32(1.5).to_bits();
    let text = half::f16::from_bits(bits).to_string();
    let e = VoxelEntry::new(0, 0, 0, 1, text).unwrap();
    assert_eq!(row_line(&e), "0,0,0,1,1.5\n");
}
