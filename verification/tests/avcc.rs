use recorder_core::avcc::fallback_bytes;
use recorder_core::avcc::parse_avcc;
use recorder_core::avcc::read_avcc;

const DUMMY: [u8; 4] = [0, 0, 0, 1];

fn record(sps: &[u8], pps: &[u8]) -> Vec<u8> {
    let mut blob: Vec<u8> = vec![1, 0x64, 0x00, 0x1f, 0xff, 0xe1];
    blob.push((sps.len() >> 8) as u8);
    blob.push((sps.len() & 0xff) as u8);
    blob.extend_from_slice(sps);
    blob.push(1);
    blob.push((pps.len() >> 8) as u8);
    blob.push((pps.len() & 0xff) as u8);
    blob.extend_from_slice(pps);
    blob
}

fn assert_fallback(blob: &[u8]) {
    let (sps, pps) = parse_avcc(blob);
    assert_eq!(sps, DUMMY.to_vec());
    assert_eq!(pps, DUMMY.to_vec());
    assert!(read_avcc(blob).is_none());
}

#[test]
fn parses_a_well_formed_record() {
    let blob: Vec<u8> = vec![1, 0x64, 0, 0x1f, 0xff, 0xe1, 0, 3, 1, 2, 3, 1, 0, 2, 4, 5];
    let (sps, pps) = parse_avcc(&blob);
    assert_eq!(sps, vec![1u8, 2, 3]);
    assert_eq!(pps, vec![4u8, 5]);
}

#[test]
fn built_record_round_trips() {
    let blob = record(&[1, 2, 3], &[4, 5]);
    assert_eq!(blob.len(), 16);
    assert_eq!(parse_avcc(&blob), (vec![1u8, 2, 3], vec![4u8, 5]));
    assert_eq!(read_avcc(&blob), Some((vec![1u8, 2, 3], vec![4u8, 5])));
}

#[test]
fn shortest_readable_record() {
    let blob = record(&[9], &[8]);
    assert_eq!(blob.len(), 13);
    assert_eq!(parse_avcc(&blob), (vec![9u8], vec![8u8]));
    assert_fallback(&blob[..12]);
}

#[test]
fn truncated_record_falls_back() {
    assert_fallback(&[1, 0x64, 0]);
}

#[test]
fn empty_buffer_falls_back() {
    assert_fallback(&[]);
}

#[test]
fn header_alone_falls_back() {
    assert_fallback(&[1, 0x64, 0, 0x1f, 0xff, 0xe1]);
    assert_fallback(&[1, 0x64, 0, 0x1f, 0xff, 0xe1, 0]);
    assert_fallback(&[1, 0x64, 0, 0x1f, 0xff, 0xe1, 0, 1]);
}

#[test]
fn zero_sps_count_falls_back() {
    let mut blob = record(&[1, 2, 3], &[4, 5]);
    blob[5] = 0xe0;
    assert_fallback(&blob);
}

#[test]
fn sps_count_is_the_low_five_bits() {
    let mut blob = record(&[1, 2, 3], &[4, 5]);
    blob[5] = 0x01;
    assert_eq!(parse_avcc(&blob), (vec![1u8, 2, 3], vec![4u8, 5]));
    blob[5] = 0x20;
    assert_fallback(&blob);
}

#[test]
fn zero_pps_count_falls_back() {
    let mut blob = record(&[1, 2, 3], &[4, 5]);
    blob[11] = 0;
    assert_fallback(&blob);
}

#[test]
fn empty_sps_falls_back() {
    assert_fallback(&record(&[], &[4, 5]));
}

#[test]
fn empty_pps_falls_back() {
    assert_fallback(&record(&[1, 2, 3], &[]));
}

#[test]
fn sps_running_past_the_end_falls_back() {
    let mut blob = record(&[1, 2, 3], &[4, 5]);
    blob[7] = 200;
    assert_fallback(&blob);
}

#[test]
fn pps_running_past_the_end_falls_back() {
    let mut blob = record(&[1, 2, 3], &[4, 5]);
    blob[13] = 3;
    assert_fallback(&blob);
}

#[test]
fn record_cut_inside_the_pps_falls_back() {
    let blob = record(&[1, 2, 3], &[4, 5]);
    assert_fallback(&blob[..15]);
    assert_fallback(&blob[..14]);
    assert_fallback(&blob[..12]);
    assert_fallback(&blob[..11]);
}

#[test]
fn only_the_first_sets_are_read() {
    let mut blob: Vec<u8> = vec![1, 0x64, 0, 0x1f, 0xff, 0xe2];
    blob.extend_from_slice(&[0, 2, 9, 8]);
    blob.extend_from_slice(&[2, 0, 1, 7]);
    blob.extend_from_slice(&[0, 1, 6, 0xaa, 0xbb]);
    assert_eq!(parse_avcc(&blob), (vec![9u8, 8], vec![7u8]));
}

#[test]
fn lengths_are_big_endian() {
    let sps: Vec<u8> = (0..300).map(|i| (i % 251) as u8).collect();
    let pps: Vec<u8> = (0..258).map(|i| (i % 7) as u8 + 1).collect();
    let blob = record(&sps, &pps);
    assert_eq!(blob[6], 1);
    assert_eq!(blob[7], 44);
    assert_eq!(parse_avcc(&blob), (sps, pps));
}

#[test]
fn length_size_byte_is_ignored() {
    let mut blob = record(&[1, 2, 3], &[4, 5]);
    blob[4] = 0;
    assert_eq!(parse_avcc(&blob), (vec![1u8, 2, 3], vec![4u8, 5]));
}

#[test]
fn fallback_is_four_bytes() {
    assert_eq!(fallback_bytes(), vec![0u8, 0, 0, 1]);
}
