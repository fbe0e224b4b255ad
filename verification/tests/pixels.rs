use luminance_surfman::pixels::{report_extent, to_signed, to_unsigned};

#[test]
fn small_counts_are_unchanged() {
    assert_eq!(to_signed(0), 0);
    assert_eq!(to_signed(800), 800);
    assert_eq!(to_signed(0x7fff_ffff), i32::MAX);
    assert_eq!(to_unsigned(0), 0);
    assert_eq!(to_unsigned(600), 600);
    assert_eq!(to_unsigned(i32::MAX), 0x7fff_ffff);
}

#[test]
fn large_counts_wrap() {
    assert_eq!(to_signed(0x8000_0000), i32::MIN);
    assert_eq!(to_signed(u32::MAX), -1);
    assert_eq!(to_signed(0xffff_fff0), -16);
    assert_eq!(to_unsigned(-1), u32::MAX);
    assert_eq!(to_unsigned(i32::MIN), 0x8000_0000);
    assert_eq!(to_unsigned(-16), 0xffff_fff0);
}

#[test]
fn counts_survive_round_trip() {
    for value in [0u32, 1, 1024, 0x7fff_ffff, 0x8000_0000, 0xdead_beef, u32::MAX] {
        assert_eq!(to_unsigned(to_signed(value)), value);
    }
    for value in [0i32, 1, -1, 768, i32::MAX, i32::MIN] {
        assert_eq!(to_signed(to_unsigned(value)), value);
    }
}

#[test]
fn extents_are_width_first() {
    assert_eq!(report_extent(800, 600), [800, 600]);
    assert_eq!(report_extent(1, 2), [1, 2]);
    assert_eq!(report_extent(3, -2), [3, 0xffff_fffe]);
}

#[test]
fn requested_size_is_reported_back() {
    for size in [[0u32, 0], [1024, 768], [u32::MAX, 0x8000_0000]] {
        assert_eq!(report_extent(to_signed(size[0]), to_signed(size[1])), size);
    }
}
