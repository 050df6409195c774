use heks::cursor::Cursor;
use heks::source::{clamp, fetch_window, fraction_terms, DataSource, DebugSource, Slice};

fn ten_bytes() -> Vec<u8> {
    vec![0, 1, 2, 3, 4, 5, 6, 7, 8, 9]
}

#[test]
fn align_up_skips_to_the_next_multiple() {
    let data = ten_bytes();
    let slice = Slice { data: &data, location_start: 5, location_end: 15 };
    let aligned = slice.align_up(4);
    assert_eq!(aligned.location_start, 8);
    assert_eq!(aligned.location_end, 15);
    assert_eq!(aligned.data, &[3, 4, 5, 6, 7, 8, 9]);
}

#[test]
fn align_up_leaves_an_aligned_slice() {
    let data = ten_bytes();
    let slice = Slice { data: &data, location_start: 32, location_end: 42 };
    let aligned = slice.align_up(16);
    assert_eq!(aligned.location_start, 32);
    assert_eq!(aligned.location_end, 42);
    assert_eq!(aligned.data, &data[..]);
}

#[test]
fn align_up_past_the_end_is_empty_at_the_end() {
    let data = ten_bytes();
    let slice = Slice { data: &data, location_start: 5, location_end: 15 };
    let aligned = slice.align_up(16);
    assert_eq!(aligned.location_start, 15);
    assert_eq!(aligned.location_end, 15);
    assert!(aligned.data.is_empty());
}

#[test]
fn align_up_near_the_ceiling_does_not_overflow() {
    let data = vec![7u8];
    let slice = Slice { data: &data, location_start: u64::MAX - 1, location_end: u64::MAX };
    let aligned = slice.align_up(16);
    assert_eq!(aligned.location_start, u64::MAX);
    assert_eq!(aligned.location_end, u64::MAX);
    assert!(aligned.data.is_empty());
}

#[test]
fn align_up_by_one_changes_nothing() {
    let data = ten_bytes();
    let slice = Slice { data: &data, location_start: 5, location_end: 15 };
    let aligned = slice.align_up(1);
    assert_eq!(aligned.location_start, 5);
    assert_eq!(aligned.data.len(), 10);
}

#[test]
fn slice_fetch_gives_the_selected_bytes() {
    let data = ten_bytes();
    let slice = Slice { data: &data, location_start: 100, location_end: 110 };
    assert_eq!(slice.fetch(Cursor::new(103, 105)), vec![3, 4]);
    assert_eq!(slice.fetch(Cursor::new(100, 110)), data);
    assert_eq!(slice.fetch(Cursor::new(104, 104)), Vec::<u8>::new());
}

#[test]
fn slice_fetch_clamps_first() {
    let data = ten_bytes();
    let slice = Slice { data: &data, location_start: 100, location_end: 110 };
    assert_eq!(slice.fetch(Cursor::new(0, 1)), vec![0]);
    assert_eq!(slice.fetch(Cursor::new(u64::MAX - 4, u64::MAX)), vec![6, 7, 8, 9]);
    assert_eq!(slice.fetch(Cursor::new(90, 200)), data);
}

#[test]
fn slice_fetch_from_an_empty_slice() {
    let slice = Slice { data: &[], location_start: 7, location_end: 7 };
    assert_eq!(slice.fetch(Cursor::new(0, 1)), Vec::<u8>::new());
}

#[test]
fn request_inside_the_source_is_kept() {
    assert_eq!(clamp(0, 16, 100), 0..16);
    assert_eq!(clamp(10, 20, 21), 10..20);
}

#[test]
fn request_past_the_end_is_moved_down() {
    assert_eq!(clamp(90, 110, 100), 80..100);
    assert_eq!(clamp(200, 260, 100), 40..100);
    assert_eq!(clamp(10, 20, 20), 10..20);
}

#[test]
fn request_wider_than_the_source_is_cut() {
    assert_eq!(clamp(0, 500, 100), 0..100);
    assert_eq!(clamp(300, 900, 100), 0..100);
    assert_eq!(clamp(5, 5, 0), 0..0);
    assert_eq!(clamp(0, u64::MAX, 0), 0..0);
}

#[test]
fn window_of_a_buffer() {
    let data = ten_bytes();
    let slice = fetch_window(&data, 2, 5);
    assert_eq!(slice.location_start, 2);
    assert_eq!(slice.location_end, 5);
    assert_eq!(slice.data, &[2, 3, 4]);

    let slice = fetch_window(&data, 8, 12);
    assert_eq!(slice.location_start, 6);
    assert_eq!(slice.location_end, 10);
    assert_eq!(slice.data, &[6, 7, 8, 9]);

    let slice = fetch_window(&data, 0, 160);
    assert_eq!(slice.location_start, 0);
    assert_eq!(slice.location_end, 10);
    assert_eq!(slice.data, &data[..]);
}

#[test]
fn window_of_an_empty_buffer() {
    let slice = fetch_window(&[], 0, 160);
    assert_eq!(slice.location_start, 0);
    assert_eq!(slice.location_end, 0);
    assert!(slice.data.is_empty());
}

#[test]
fn fraction_of_an_empty_source_is_undefined() {
    assert_eq!(fraction_terms(0, 0), None);
    assert_eq!(fraction_terms(u64::MAX, 0), None);
}

#[test]
fn fraction_of_a_single_byte_is_undefined() {
    assert_eq!(fraction_terms(0, 1), None);
    assert_eq!(fraction_terms(5, 1), None);
    assert_eq!(fraction_terms(u64::MAX, 1), None);
}

#[test]
fn fraction_of_two_bytes() {
    assert_eq!(fraction_terms(0, 2), Some((0, 1)));
    assert_eq!(fraction_terms(1, 2), Some((1, 1)));
    assert_eq!(fraction_terms(2, 2), Some((1, 1)));
}

#[test]
fn fraction_terms_give_a_ratio_between_zero_and_one() {
    for len in [2u64, 3, 16, 100, u64::MAX] {
        for index in [0u64, 1, 2, 15, 99, 100, u64::MAX - 1, u64::MAX] {
            let (position, last) = fraction_terms(index, len).unwrap();
            assert!(last > 0);
            assert!(position <= last);
            let ratio = position as f64 / last as f64;
            assert!((0.0..=1.0).contains(&ratio));
        }
    }
}

#[test]
fn fraction_holds_the_index_to_the_last_offset() {
    assert_eq!(fraction_terms(5, 100), Some((5, 99)));
    assert_eq!(fraction_terms(99, 100), Some((99, 99)));
    assert_eq!(fraction_terms(500, 100), Some((99, 99)));
    assert_eq!(fraction_terms(u64::MAX, u64::MAX), Some((u64::MAX - 1, u64::MAX - 1)));
}

#[test]
fn debug_source_serves_its_buffer() {
    let mut source = DebugSource::new();
    assert_eq!(source.name(), "debug");
    assert_eq!(source.len(), 81);
    let slice = source.fetch(1000, 2000);
    assert_eq!(slice.location_start, 0);
    assert_eq!(slice.location_end, 81);
    assert_eq!(slice.data.len(), 81);
    assert_eq!(&slice.data[..9], &[9, 0, 6, 0, 104, 101, 108, 108, 111]);
    assert_eq!(slice.data[9], 0);
    assert_eq!(slice.data[40], 0x1f);
    assert_eq!(slice.data[41], 0x7f);
    assert_eq!(slice.data[64], 0xff);
    assert_eq!(&slice.data[65..], "world01234567890".as_bytes());
}
