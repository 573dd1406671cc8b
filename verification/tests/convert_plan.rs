use scrcpy_panel::convert_plan::{
    geometry, probe_step, reach, split_verdict, splice_tail, unpad_rows, unwritten, unwritten_in_rows,
    verdict, Write, CANARIES, ROW_SLACK, SLACK,
};

#[test]
fn the_tail_begins_on_a_chroma_row() {
    // 4:2:0 halves the chroma rows: the tail is the last one or two rows.
    let g = geometry(1080, 2400, 1).unwrap();
    assert_eq!(g.row_bytes, 4320);
    assert_eq!(g.needed, 4320 * 2400);
    assert_eq!((g.tail_start, g.tail_rows), (2398, 2));
    assert_eq!(g.tail_bytes, 2 * 4320);
    let odd = geometry(1081, 2399, 1).unwrap();
    assert_eq!((odd.tail_start, odd.tail_rows), (2398, 1));
    // A format that does not subsample down the picture: the last row alone.
    let full = geometry(64, 48, 0).unwrap();
    assert_eq!((full.tail_start, full.tail_rows), (47, 1));
    // A picture shorter than a chroma row is all tail.
    let short = geometry(16, 1, 1).unwrap();
    assert_eq!((short.tail_start, short.tail_rows), (0, 1));
}

#[test]
fn a_frame_of_no_size_is_refused() {
    assert_eq!(geometry(0, 10, 1).unwrap_err(), "Decoded frame has zero size");
    assert_eq!(geometry(10, 0, 1).unwrap_err(), "Decoded frame has zero size");
}

#[test]
fn what_a_run_wrote_past_the_picture_is_measured() {
    let canary = CANARIES[0];
    let mut buf = vec![1u8; 8];
    buf.extend(vec![canary; 8]);
    assert_eq!(reach(&buf, 8, canary), 0, "nothing written past the picture");
    buf[10] = 7;
    assert_eq!(reach(&buf, 8, canary), 3, "up to and including the third byte past");
    assert_eq!(reach(&buf, 16, canary), 0);
}

#[test]
fn a_byte_is_unwritten_only_if_both_runs_left_it() {
    let [a, b] = CANARIES;
    // Byte 1 happens to be drawn as 0xAA, byte 3 is never written.
    let first = vec![9, a, 9, a, 9, a, a];
    let second = vec![9, a, 9, b, 9, b, b];
    let after_first = unwritten(None, &first, 5, a);
    assert_eq!(after_first, vec![1, 3]);
    let after_second = unwritten(Some(after_first), &second, 5, b);
    assert_eq!(after_second, vec![3]);

    let (past, left) = probe_step(0, None, &first, 5, a);
    assert_eq!((past, left.clone()), (0, vec![1, 3]));
    let (past, left) = probe_step(past, Some(left), &second, 5, b);
    assert_eq!((past, left), (0, vec![3]));
}

#[test]
fn only_the_picture_part_of_a_padded_row_counts() {
    let a = CANARIES[0];
    // Two rows of three bytes of picture, five apart.
    let buf = vec![1, a, 1, a, a, 1, 1, a, a, a];
    assert_eq!(unwritten_in_rows(None, &buf, 2, 3, 5, a), vec![1, 7]);
    assert_eq!(unwritten_in_rows(Some(vec![7]), &buf, 2, 3, 5, a), vec![7]);
}

#[test]
fn the_verdict_goes_short_first_then_overrun() {
    assert_eq!(verdict(&vec![12], 40), Some(Write::Padded));
    assert_eq!(verdict(&vec![], 0), Some(Write::Direct));
    assert_eq!(verdict(&vec![], 32), None);
    assert_eq!(split_verdict(&[1, 2, 3], &[1, 2, 3, 9, 9], 3), Write::Tail);
    assert_eq!(split_verdict(&[1, 2, 4], &[1, 2, 3, 9, 9], 3), Write::Scratch);
    assert_eq!(split_verdict(&[1, 2], &[1, 2, 3, 9, 9], 3), Write::Scratch);
}

#[test]
fn the_tail_is_spliced_under_the_rows_above_it() {
    let g = geometry(1, 3, 1).unwrap();
    assert_eq!((g.tail_start, g.tail_rows, g.tail_bytes), (2, 1, 4));
    let mut picture = vec![1u8; 12];
    let tail = vec![5u8, 6, 7, 8, 0, 0];
    splice_tail(&mut picture, &tail, &g);
    assert_eq!(picture, vec![1, 1, 1, 1, 1, 1, 1, 1, 5, 6, 7, 8]);
}

#[test]
fn a_padded_picture_is_copied_a_row_at_a_time() {
    let buf = vec![1, 2, 0, 0, 3, 4, 0, 0, 5, 6, 0, 0];
    assert_eq!(unpad_rows(&buf, 3, 2, 4), vec![1, 2, 3, 4, 5, 6]);
    assert_eq!(unpad_rows(&buf, 2, 4, 4), buf[..8].to_vec());
    assert!(ROW_SLACK < SLACK);
}
