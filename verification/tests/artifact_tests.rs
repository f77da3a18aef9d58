use vdb_csv_export::artifact::render_artifact;
use vdb_csv_export::entry::VoxelEntry;

fn entry(x: i32, y: i32, z: i32, span: u32, value: &str) -> VoxelEntry {
    VoxelEntry::new(x, y, z, span, String::from(value)).unwrap()
}

#[test]
fn empty_grid_yields_header_only() {
    let rendered = render_artifact(&vec![]);
    assert_eq!(rendered, "x,y,z,span,value\n");
}

#[test]
fn rows_follow_header_in_given_order() {
    let entries = vec![
        entry(1, 2, 3, 1, "0.5"),
        entry(-1, -2, -3, 8, "2"),
        entry(0, 0, 0, 128, "-0.25"),
    ];
    let rendered = render_artifact(&entries);
    assert_eq!(
        rendered,
        "x,y,z,span,value\n1,2,3,1,0.5\n-1,-2,-3,8,2\n0,0,0,128,-0.25\n"
    );
}

#[test]
fn n_entries_yield_n_plus_one_lines() {
    let entries = vec![
        entry(5, 6, 7, 1, "1"),
        entry(8, 9, 10, 1, "2"),
        entry(11, 12, 13, 1, "3"),
        entry(14, 15, 16, 1, "4"),
    ];
    let rendered = render_artifact(&entries);
    assert_eq!(rendered.lines().count(), entries.len() + 1);
    assert_eq!(rendered.matches('\n').count(), entries.len() + 1);
    assert_eq!(rendered.lines().next(), Some("x,y,z,span,value"));
}

#[test]
fn rendering_twice_is_byte_identical() {
    let entries = vec![entry(1, 1, 1, 1, "0.099975586"), entry(2, 2, 2, 8, "65504")];
    let first = render_artifact(&entries);
    let second = render_artifact(&entries);
    assert_eq!(first, second);
    assert_eq!(first.into_bytes(), second.into_bytes());
}
