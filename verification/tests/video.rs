use minimap_renderer::video::{
    advance_frames, annexb_to_avcc, dump_frame, find_parameter_sets, is_dump_frame,
    parse_annexb_nals, plan_samples, DumpMode, MuxError, SAMPLE_DURATION_MS, TOTAL_FRAMES,
};

fn frame(nals: &[&[u8]]) -> Vec<u8> {
    let mut out = Vec::new();
    for (i, n) in nals.iter().enumerate() {
        if i % 2 == 0 {
            out.extend_from_slice(&[0, 0, 0, 1]);
        } else {
            out.extend_from_slice(&[0, 0, 1]);
        }
        out.extend_from_slice(n);
    }
    out
}

#[test]
fn nal_units_are_split_at_start_codes() {
    let data = frame(&[&[0x67, 1, 2], &[0x68, 3], &[0x65, 4, 5, 6]]);
    let nals = parse_annexb_nals(&data);
    assert_eq!(nals, vec![&[0x67u8, 1, 2][..], &[0x68, 3][..], &[0x65, 4, 5, 6][..]]);
    // Bytes before the first start code and empty units are dropped.
    let data = [9, 9, 0, 0, 1, 0, 0, 1, 0x41, 7];
    assert_eq!(parse_annexb_nals(&data), vec![&[0x41u8, 7][..]]);
    assert!(parse_annexb_nals(&[]).is_empty());
}

#[test]
fn parameter_sets_come_from_the_first_frame() {
    let first = frame(&[&[0x67, 1], &[0x68, 2], &[0x65, 3]]);
    let (sps, pps) = find_parameter_sets(&vec![first.clone()]).unwrap();
    assert_eq!(sps, vec![0x67, 1]);
    assert_eq!(pps, vec![0x68, 2]);
    assert_eq!(find_parameter_sets(&vec![]).err(), Some(MuxError::NoFrames));
    assert_eq!(find_parameter_sets(&vec![frame(&[&[0x68, 2]])]).err(), Some(MuxError::NoSps));
    assert_eq!(find_parameter_sets(&vec![frame(&[&[0x67, 2]])]).err(), Some(MuxError::NoPps));
}

#[test]
fn avcc_drops_parameter_sets_and_prefixes_lengths() {
    let f = frame(&[&[0x67, 1], &[0x68, 2], &[0x65, 3, 4]]);
    let (avcc, sync) = annexb_to_avcc(&f);
    assert_eq!(avcc, vec![0, 0, 0, 3, 0x65, 3, 4]);
    assert!(sync);
    let (avcc, sync) = annexb_to_avcc(&frame(&[&[0x41, 9]]));
    assert_eq!(avcc, vec![0, 0, 0, 2, 0x41, 9]);
    assert!(!sync);
}

#[test]
fn samples_skip_empty_frames_and_keep_their_time() {
    let frames = vec![
        frame(&[&[0x67, 1], &[0x68, 2], &[0x65, 3]]),
        vec![],
        frame(&[&[0x67, 1]]),
        frame(&[&[0x41, 5]]),
    ];
    let samples = plan_samples(&frames);
    assert_eq!(samples.len(), 2);
    assert_eq!(samples[0].start_time, 0);
    assert!(samples[0].is_sync);
    assert_eq!(samples[1].start_time, 3 * SAMPLE_DURATION_MS as u64);
    assert_eq!(samples[1].duration, SAMPLE_DURATION_MS);
    assert!(!samples[1].is_sync);
    assert_eq!(samples[1].bytes, vec![0, 0, 0, 2, 0x41, 5]);
}

#[test]
fn clock_advances_render_each_frame_once() {
    assert_eq!(advance_frames(-1, 2), (2, vec![0, 1, 2]));
    assert_eq!(advance_frames(2, 2), (2, vec![]));
    assert_eq!(advance_frames(5, 3), (5, vec![]));
    let total = TOTAL_FRAMES as i64;
    let (last, frames) = advance_frames(total - 3, total + 50);
    assert_eq!(last, total);
    assert_eq!(frames, vec![total - 2, total - 1]);
    assert_eq!(advance_frames(total, total + 5), (total + 1, vec![]));
}

#[test]
fn dump_modes() {
    assert_eq!(dump_frame(&DumpMode::Frame(12)), 12);
    assert_eq!(dump_frame(&DumpMode::Midpoint), (TOTAL_FRAMES / 2) as u64);
    assert!(is_dump_frame(&DumpMode::Midpoint, 900));
    assert!(is_dump_frame(&DumpMode::Frame(3), 3));
    assert!(!is_dump_frame(&DumpMode::Frame(3), 4));
}

#[test]
fn many_advances_render_each_frame_once_and_no_more_than_the_video_holds() {
    let mut last: i64 = -1;
    let mut all: Vec<i64> = Vec::new();
    for target in [0i64, 10, 10, 500, 499, 1799, 2500, 4000, 4001] {
        let (next, frames) = advance_frames(last, target);
        all.extend(frames);
        last = next;
    }
    assert_eq!(all.len(), TOTAL_FRAMES);
    assert!(all.windows(2).all(|w| w[0] < w[1]));
    assert_eq!(all[0], 0);
    assert_eq!(*all.last().unwrap(), TOTAL_FRAMES as i64 - 1);
}

#[test]
fn nal_units_are_separate_pieces_of_the_stream() {
    let data = [0u8, 0, 0, 1, 0x67, 1, 0, 0, 1, 0x68, 2, 0, 0, 1, 0, 0, 0, 1, 0x65, 3];
    let nals = parse_annexb_nals(&data);
    assert_eq!(nals, vec![&[0x67u8, 1][..], &[0x68u8, 2][..], &[0x65u8, 3][..]]);
}
