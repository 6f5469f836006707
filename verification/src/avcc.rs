//! Reading the parameter sets out of an AVCDecoderConfigurationRecord.
//!
//! The record starts with six header bytes: configuration version, profile,
//! profile compatibility, level, the NAL length size, and a byte whose low five
//! bits count the sequence parameter sets. The first sequence parameter set
//! follows as a two-byte big-endian length and that many bytes. After it come
//! one byte counting the picture parameter sets and the first of them, laid out
//! in the same way. Only the first set of each kind is read; whatever follows
//! the first picture parameter set is ignored.

use vstd::prelude::*;
use vstd::slice::slice_subrange;
use vstd::slice::slice_to_vec;

verus! {

/// Offset of the first sequence parameter set's bytes.
pub const SPS_OFFSET: usize = 8;

/// The parameter set that stands in for both sets of a record that cannot be
/// read. A track described by it is well-formed but will not decode.
pub open spec fn fallback_set() -> Seq<u8> {
    seq![0u8, 0u8, 0u8, 1u8]
}

/// The number that two bytes hold in big-endian order.
pub open spec fn be16(hi: u8, lo: u8) -> int {
    hi as int * 256 + lo as int
}

/// Length that the record declares for its first sequence parameter set.
pub open spec fn sps_len(d: Seq<u8>) -> int
    recommends
        d.len() >= 8,
{
    be16(d[6], d[7])
}

/// Offset of the byte that counts the picture parameter sets.
pub open spec fn pps_count_offset(d: Seq<u8>) -> int
    recommends
        d.len() >= 8,
{
    8 + sps_len(d)
}

/// Offset of the first picture parameter set's bytes.
pub open spec fn pps_offset(d: Seq<u8>) -> int
    recommends
        d.len() >= 8,
{
    11 + sps_len(d)
}

/// Length that the record declares for its first picture parameter set.
pub open spec fn pps_len(d: Seq<u8>) -> int
    recommends
        d.len() >= 11 + sps_len(d),
{
    be16(d[9 + sps_len(d)], d[10 + sps_len(d)])
}

/// Whether both parameter sets can be read from `d`: the record declares at
/// least one set of each kind, the first of each is non-empty, and every byte
/// that has to be read lies inside the buffer.
pub open spec fn avcc_readable(d: Seq<u8>) -> bool {
    &&& d.len() >= 8
    &&& d[5] & 0x1f != 0
    &&& sps_len(d) > 0
    &&& d.len() >= 11 + sps_len(d)
    &&& d[pps_count_offset(d)] != 0
    &&& pps_len(d) > 0
    &&& d.len() >= 11 + sps_len(d) + pps_len(d)
}

/// The first sequence parameter set of a readable record.
pub open spec fn record_sps(d: Seq<u8>) -> Seq<u8>
    recommends
        avcc_readable(d),
{
    d.subrange(8, 8 + sps_len(d))
}

/// The first picture parameter set of a readable record.
pub open spec fn record_pps(d: Seq<u8>) -> Seq<u8>
    recommends
        avcc_readable(d),
{
    d.subrange(pps_offset(d), pps_offset(d) + pps_len(d))
}

/// The sequence parameter set used for `d`: its own where the record is
/// readable, the fallback otherwise.
pub open spec fn avcc_sps(d: Seq<u8>) -> Seq<u8> {
    if avcc_readable(d) {
        record_sps(d)
    } else {
        fallback_set()
    }
}

/// The picture parameter set used for `d`: its own where the record is
/// readable, the fallback otherwise.
pub open spec fn avcc_pps(d: Seq<u8>) -> Seq<u8> {
    if avcc_readable(d) {
        record_pps(d)
    } else {
        fallback_set()
    }
}

/// Reads two bytes at `at` as a big-endian number.
fn read_be16(d: &[u8], at: usize) -> (n: usize)
    requires
        at + 2 <= d@.len(),
    ensures
        n == be16(d@[at as int], d@[at + 1]),
        n <= 0xffff,
{
    let hi: usize = d[at] as usize;
    let lo: usize = d[at + 1] as usize;
    hi * 256 + lo
}

/// Reads the first sequence and picture parameter sets of a configuration
/// record, or `None` where the record is not readable.
pub fn read_avcc(description: &[u8]) -> (sets: Option<(Vec<u8>, Vec<u8>)>)
    ensures
        sets is Some <==> avcc_readable(description@),
        sets matches Some(s) ==> s.0@ == record_sps(description@) && s.1@ == record_pps(
            description@,
        ),
{
    let n: usize = description.len();
    if n < SPS_OFFSET {
        return None;
    }
    if description[5] & 0x1f == 0 {
        return None;
    }
    let sps_len: usize = read_be16(description, 6);
    if sps_len == 0 || n - SPS_OFFSET < sps_len + 3 {
        return None;
    }
    let sps_end: usize = SPS_OFFSET + sps_len;
    if description[sps_end] == 0 {
        return None;
    }
    let pps_len: usize = read_be16(description, sps_end + 1);
    let pps_start: usize = sps_end + 3;
    if pps_len == 0 || n - pps_start < pps_len {
        return None;
    }
    let sps = slice_to_vec(slice_subrange(description, SPS_OFFSET, sps_end));
    let pps = slice_to_vec(slice_subrange(description, pps_start, pps_start + pps_len));
    Some((sps, pps))
}

/// Fills a vector with the fallback parameter set.
pub fn fallback_bytes() -> (v: Vec<u8>)
    ensures
        v@ == fallback_set(),
{
    let mut v: Vec<u8> = Vec::new();
    v.push(0);
    v.push(0);
    v.push(0);
    v.push(1);
    v
}

/// Extracts the sequence and picture parameter sets of a configuration record.
///
/// A record that is not readable (truncated, a length that runs past the end,
/// no set declared, or an empty set) is not an error: both results are then the
/// fallback set.
pub fn parse_avcc(description: &[u8]) -> (sets: (Vec<u8>, Vec<u8>))
    ensures
        sets.0@ == avcc_sps(description@),
        sets.1@ == avcc_pps(description@),
{
    match read_avcc(description) {
        Some(sets) => sets,
        None => (fallback_bytes(), fallback_bytes()),
    }
}

/// The two bytes that hold `n` in big-endian order.
pub open spec fn be16_bytes(n: int) -> Seq<u8>
    recommends
        0 <= n <= 0xffff,
{
    seq![(n / 256) as u8, (n % 256) as u8]
}

/// A configuration record laid out from its parts: the six header bytes, the
/// first sequence parameter set behind its length, the count of picture
/// parameter sets, the first of them behind its length, and whatever follows.
pub open spec fn avcc_record(
    header: Seq<u8>,
    sps: Seq<u8>,
    pps_count: u8,
    pps: Seq<u8>,
    rest: Seq<u8>,
) -> Seq<u8> {
    header + be16_bytes(sps.len() as int) + sps + seq![pps_count] + be16_bytes(pps.len() as int)
        + pps + rest
}

/// Reading gives back what a record was laid out from: where the header
/// declares a sequence parameter set, a picture parameter set is declared,
/// and both sets are non-empty and short enough for a two-byte length, the
/// record is readable and its sets are exactly `sps` and `pps`, whatever
/// follows them.
pub proof fn lemma_record_gives_back_its_sets(
    header: Seq<u8>,
    sps: Seq<u8>,
    pps_count: u8,
    pps: Seq<u8>,
    rest: Seq<u8>,
)
    requires
        header.len() == 6,
        header[5] & 0x1f != 0,
        0 < sps.len() <= 0xffff,
        pps_count != 0,
        0 < pps.len() <= 0xffff,
    ensures
        avcc_readable(avcc_record(header, sps, pps_count, pps, rest)),
        avcc_sps(avcc_record(header, sps, pps_count, pps, rest)) == sps,
        avcc_pps(avcc_record(header, sps, pps_count, pps, rest)) == pps,
{
    let d = avcc_record(header, sps, pps_count, pps, rest);
    let m = sps.len() as int;
    let n = pps.len() as int;
    assert(d.len() == 11 + m + n + rest.len());
    assert(d[5] == header[5]);
    assert(d[6] == (m / 256) as u8 && d[7] == (m % 256) as u8);
    assert(sps_len(d) == m);
    assert(d[8 + m] == pps_count);
    assert(d[9 + m] == (n / 256) as u8 && d[10 + m] == (n % 256) as u8);
    assert(pps_len(d) == n);
    assert(record_sps(d) =~= sps);
    assert(record_pps(d) =~= pps);
}

/// A buffer of fewer than thirteen bytes has no room for a header, two
/// lengths, a count and one byte of each set: both sets are the fallback.
pub proof fn lemma_short_buffer_falls_back(d: Seq<u8>)
    requires
        d.len() < 13,
    ensures
        !avcc_readable(d),
        avcc_sps(d) == fallback_set(),
        avcc_pps(d) == fallback_set(),
{
}

/// Whatever the buffer, neither set comes out empty.
pub proof fn lemma_sets_are_never_empty(d: Seq<u8>)
    ensures
        avcc_sps(d).len() > 0,
        avcc_pps(d).len() > 0,
{
}

} // verus!
