//! H.264 stream handling for the video output: splitting Annex B byte streams
//! into NAL units, converting them to length-prefixed (AVCC) samples, and
//! choosing the frames that are rendered.
use vstd::prelude::*;
use vstd::slice::slice_subrange;

verus! {

/// Frames rendered over a whole match.
pub const TOTAL_FRAMES: usize = 1800;

/// Duration of one video sample in milliseconds (1000 / 30 fps, rounded down).
pub const SAMPLE_DURATION_MS: u32 = 33;

/// NAL unit type of a sequence parameter set.
pub const NAL_SPS: u8 = 7;

/// NAL unit type of a picture parameter set.
pub const NAL_PPS: u8 = 8;

/// NAL unit type of an IDR (key frame) slice.
pub const NAL_IDR: u8 = 5;

/// Which single frame to save as an image instead of producing a video.
#[derive(Clone, Copy, Debug, PartialEq, Eq)]
pub enum DumpMode {
    Frame(usize),
    Midpoint,
}

/// The frame index that a dump mode saves.
pub open spec fn dump_frame_spec(mode: DumpMode) -> int {
    match mode {
        DumpMode::Frame(n) => n as int,
        DumpMode::Midpoint => (TOTAL_FRAMES / 2) as int,
    }
}

/// The frame index that a dump mode saves.
pub fn dump_frame(mode: &DumpMode) -> (r: u64)
    ensures
        r == dump_frame_spec(*mode),
{
    match mode {
        DumpMode::Frame(n) => *n as u64,
        DumpMode::Midpoint => (TOTAL_FRAMES / 2) as u64,
    }
}

/// Length of the start code at `i`: 4 for `00 00 00 01`, 3 for `00 00 01`,
/// 0 when no start code begins there.
pub open spec fn start_code_len(d: Seq<u8>, i: int) -> int {
    if 0 <= i && i + 2 < d.len() && d[i] == 0 && d[i + 1] == 0 {
        if i + 3 < d.len() && d[i + 2] == 0 && d[i + 3] == 1 {
            4
        } else if d[i + 2] == 1 {
            3
        } else {
            0
        }
    } else {
        0
    }
}

/// End of the NAL unit that runs from `e`: the next start code or the end of
/// the data.
pub open spec fn nal_end(d: Seq<u8>, e: int) -> int
    decreases d.len() - e,
{
    if e >= d.len() {
        d.len() as int
    } else if e >= 0 && start_code_len(d, e) > 0 {
        e
    } else {
        nal_end(d, e + 1)
    }
}

/// Byte ranges `[start, end)` of the non-empty NAL units found from offset `i`:
/// each follows a start code and runs to the next start code or the end.
pub open spec fn nal_ranges_from(d: Seq<u8>, i: int) -> Seq<(int, int)>
    decreases d.len() - i,
{
    if i < 0 || i >= d.len() {
        seq![]
    } else if start_code_len(d, i) > 0 {
        let s = i + start_code_len(d, i);
        let e = nal_end(d, s);
        proof {
            lemma_nal_end_bounds(d, s);
        }
        if e > s {
            seq![(s, e)] + nal_ranges_from(d, e)
        } else {
            nal_ranges_from(d, e)
        }
    } else {
        nal_ranges_from(d, i + 1)
    }
}

pub proof fn lemma_nal_end_bounds(d: Seq<u8>, e: int)
    requires
        0 <= e,
    ensures
        e <= nal_end(d, e) || e > d.len(),
        nal_end(d, e) <= d.len(),
        nal_end(d, e) >= e || e >= d.len(),
    decreases d.len() - e,
{
    if e < d.len() && !(start_code_len(d, e) > 0) {
        lemma_nal_end_bounds(d, e + 1);
    }
}

/// The NAL units of an Annex B byte stream, without their start codes.
pub open spec fn nal_units(d: Seq<u8>) -> Seq<Seq<u8>> {
    nal_ranges_from(d, 0).map_values(|r: (int, int)| d.subrange(r.0, r.1))
}

/// No start code begins between `e` and the end of the unit that runs from it.
proof fn lemma_no_start_code_before_end(d: Seq<u8>, e: int, j: int)
    requires
        0 <= e <= j < nal_end(d, e),
    ensures
        start_code_len(d, j) == 0,
    decreases d.len() - e,
{
    if j > e {
        lemma_no_start_code_before_end(d, e + 1, j);
    }
}

/// The ranges found from `i` lie after `i`, in order, apart, and free of
/// start codes.
proof fn lemma_nal_ranges_separate(d: Seq<u8>, i: int)
    requires
        0 <= i,
    ensures
        forall|k: int|
            0 <= k < nal_ranges_from(d, i).len() ==> i < (#[trigger] nal_ranges_from(d, i)[k]).0
                < nal_ranges_from(d, i)[k].1 <= d.len(),
        forall|k: int, l: int|
            0 <= k < l < nal_ranges_from(d, i).len() ==> (#[trigger] nal_ranges_from(d, i)[k]).1
                < (#[trigger] nal_ranges_from(d, i)[l]).0,
        forall|k: int, j: int|
            0 <= k < nal_ranges_from(d, i).len() && (#[trigger] nal_ranges_from(d, i)[k]).0 <= j
                < nal_ranges_from(d, i)[k].1 ==> #[trigger] start_code_len(d, j) == 0,
    decreases d.len() - i,
{
    if i < d.len() {
        if start_code_len(d, i) > 0 {
            let s = i + start_code_len(d, i);
            let e = nal_end(d, s);
            lemma_nal_end_bounds(d, s);
            lemma_nal_ranges_separate(d, e);
            let rest = nal_ranges_from(d, e);
            if e > s {
                let all = nal_ranges_from(d, i);
                assert(all == seq![(s, e)] + rest);
                assert forall|k: int| 0 <= k < all.len() implies i < (#[trigger] all[k]).0 < all[k].1 <= d.len() by {
                    if k > 0 {
                        assert(all[k] == rest[k - 1]);
                    }
                }
                assert forall|k: int, j: int|
                    0 <= k < all.len() && (#[trigger] all[k]).0 <= j < all[k].1 implies #[trigger] start_code_len(
                    d,
                    j,
                ) == 0 by {
                    if k == 0 {
                        lemma_no_start_code_before_end(d, s, j);
                    } else {
                        assert(all[k] == rest[k - 1]);
                    }
                }
                assert forall|k: int, l: int|
                    0 <= k < l < all.len() implies (#[trigger] all[k]).1 < (#[trigger] all[l]).0 by {
                    assert(all[l] == rest[l - 1]);
                    if k > 0 {
                        assert(all[k] == rest[k - 1]);
                    }
                }
            } else {
                assert(nal_ranges_from(d, i) == rest);
            }
        } else {
            lemma_nal_ranges_separate(d, i + 1);
            assert(nal_ranges_from(d, i) == nal_ranges_from(d, i + 1));
        }
    }
}

/// A unit runs no further than the next start code.
proof fn lemma_nal_end_at_most(d: Seq<u8>, e: int, q: int)
    requires
        0 <= e <= q,
        start_code_len(d, q) > 0,
    ensures
        nal_end(d, e) <= q,
    decreases q - e,
{
    if e < q && e < d.len() && !(start_code_len(d, e) > 0) {
        lemma_nal_end_at_most(d, e + 1, q);
    }
}

/// Where a three-byte start code ends and no start code begins, the scan
/// from any earlier start up to that code finds a unit beginning there.
proof fn lemma_start_code_opens_a_unit(d: Seq<u8>, i: int, p: int)
    requires
        0 <= i <= p - 3,
        p < d.len(),
        d[p - 3] == 0 && d[p - 2] == 0 && d[p - 1] == 1,
        start_code_len(d, p) == 0,
    ensures
        exists|k: int| 0 <= k < nal_ranges_from(d, i).len() && (#[trigger] nal_ranges_from(d, i)[k]).0 == p,
    decreases d.len() - i,
{
    assert(start_code_len(d, p - 3) == 3);
    if start_code_len(d, i) > 0 {
        let s = i + start_code_len(d, i);
        let e = nal_end(d, s);
        lemma_nal_end_bounds(d, s);
        let rest = nal_ranges_from(d, e);
        assert(s <= p);
        if s == p {
            assert(e > s) by {
                lemma_nal_end_bounds(d, s + 1);
            }
            assert(nal_ranges_from(d, i) == seq![(s, e)] + rest);
            assert(nal_ranges_from(d, i)[0].0 == p);
        } else {
            assert(s <= p - 3);
            lemma_nal_end_at_most(d, s, p - 3);
            lemma_start_code_opens_a_unit(d, e, p);
            let k = choose|k: int| 0 <= k < rest.len() && (#[trigger] rest[k]).0 == p;
            if e > s {
                assert(nal_ranges_from(d, i) == seq![(s, e)] + rest);
                assert(nal_ranges_from(d, i)[k + 1] == rest[k]);
            } else {
                assert(nal_ranges_from(d, i) == rest);
            }
        }
    } else {
        assert(i < p - 3);
        lemma_start_code_opens_a_unit(d, i + 1, p);
        assert(nal_ranges_from(d, i) == nal_ranges_from(d, i + 1));
    }
}

/// Every three-byte start code `00 00 01` that ends before the end of the
/// data, where no start code begins, opens one of the units.
pub proof fn lemma_every_start_code_opens_a_unit(d: Seq<u8>, p: int)
    requires
        3 <= p < d.len(),
        d[p - 3] == 0 && d[p - 2] == 0 && d[p - 1] == 1,
        start_code_len(d, p) == 0,
    ensures
        exists|k: int| 0 <= k < nal_ranges_from(d, 0).len() && (#[trigger] nal_ranges_from(d, 0)[k]).0 == p,
{
    lemma_start_code_opens_a_unit(d, 0, p);
}

/// Data in which no start code begins holds no unit.
pub proof fn lemma_no_start_code_no_unit(d: Seq<u8>, i: int)
    requires
        0 <= i,
        forall|q: int| 0 <= q < d.len() ==> #[trigger] start_code_len(d, q) == 0,
    ensures
        nal_ranges_from(d, i).len() == 0,
    decreases d.len() - i,
{
    if i < d.len() {
        assert(start_code_len(d, i) == 0);
        lemma_no_start_code_no_unit(d, i + 1);
    }
}

/// The NAL units of a stream are separate pieces of it: each is a
/// non-empty range of the data, the ranges come in order without
/// overlapping, and no start code begins inside a unit.
pub proof fn lemma_nal_units_separate(d: Seq<u8>)
    ensures
        nal_units(d).len() == nal_ranges_from(d, 0).len(),
        forall|k: int|
            0 <= k < nal_units(d).len() ==> #[trigger] nal_units(d)[k] == d.subrange(
                nal_ranges_from(d, 0)[k].0,
                nal_ranges_from(d, 0)[k].1,
            ) && nal_units(d)[k].len() > 0,
        forall|k: int|
            0 <= k < nal_ranges_from(d, 0).len() ==> 0 <= (#[trigger] nal_ranges_from(d, 0)[k]).0
                < nal_ranges_from(d, 0)[k].1 <= d.len(),
        forall|k: int, l: int|
            0 <= k < l < nal_ranges_from(d, 0).len() ==> (#[trigger] nal_ranges_from(d, 0)[k]).1
                < (#[trigger] nal_ranges_from(d, 0)[l]).0,
        forall|k: int, j: int|
            0 <= k < nal_ranges_from(d, 0).len() && (#[trigger] nal_ranges_from(d, 0)[k]).0 <= j
                < nal_ranges_from(d, 0)[k].1 ==> #[trigger] start_code_len(d, j) == 0,
{
    lemma_nal_ranges_separate(d, 0);
}

/// Length of the start code at `i` (0 when there is none).
fn start_code_at(data: &[u8], i: usize) -> (r: usize)
    requires
        i <= data@.len(),
    ensures
        r == start_code_len(data@, i as int),
{
    let len = data.len();
    if len - i > 2 && data[i] == 0 && data[i + 1] == 0 {
        if len - i > 3 && data[i + 2] == 0 && data[i + 3] == 1 {
            4
        } else if data[i + 2] == 1 {
            3
        } else {
            0
        }
    } else {
        0
    }
}

fn find_nal_end(data: &[u8], start: usize) -> (e: usize)
    requires
        start <= data@.len(),
    ensures
        e == nal_end(data@, start as int),
        start <= e <= data@.len(),
{
    let mut end = start;
    while end < data.len() && start_code_at(data, end) == 0
        invariant
            start <= end <= data@.len(),
            nal_end(data@, start as int) == nal_end(data@, end as int),
        decreases data@.len() - end,
    {
        end += 1;
    }
    end
}

/// Parse Annex B byte stream into individual NAL units (without start codes).
pub fn parse_annexb_nals(data: &[u8]) -> (nals: Vec<&[u8]>)
    ensures
        nals@.len() == nal_units(data@).len(),
        forall|k: int| 0 <= k < nals@.len() ==> #[trigger] nals@[k]@ == nal_units(data@)[k],
        forall|k: int| 0 <= k < nals@.len() ==> #[trigger] nals@[k]@.len() > 0,
{
    let mut nals: Vec<&[u8]> = Vec::new();
    let mut i: usize = 0;
    let ghost d = data@;
    let ghost mut ranges: Seq<(int, int)> = seq![];
    while i < data.len()
        invariant
            i <= d.len(),
            d == data@,
            nal_ranges_from(d, 0) == ranges + nal_ranges_from(d, i as int),
            nals@.len() == ranges.len(),
            forall|k: int| 0 <= k < ranges.len() ==> 0 <= #[trigger] ranges[k].0 < ranges[k].1 <= d.len(),
            forall|k: int|
                0 <= k < nals@.len() ==> #[trigger] nals@[k]@ == d.subrange(
                    ranges[k].0,
                    ranges[k].1,
                ),
            forall|k: int| 0 <= k < nals@.len() ==> #[trigger] nals@[k]@.len() > 0,
        decreases d.len() - i,
    {
        let sc = start_code_at(data, i);
        if sc > 0 {
            let start = i + sc;
            let end = find_nal_end(data, start);
            proof {
                let old_ranges = ranges;
                if end > start {
                    ranges = ranges.push((start as int, end as int));
                    assert(old_ranges + (seq![(start as int, end as int)] + nal_ranges_from(
                        d,
                        end as int,
                    )) =~= ranges + nal_ranges_from(d, end as int));
                }
            }
            if end > start {
                nals.push(slice_subrange(data, start, end));
            }
            i = end;
        } else {
            i += 1;
        }
    }
    proof {
        assert(ranges =~= nal_ranges_from(d, 0));
    }
    nals
}

/// The type of a NAL unit: the low five bits of its first byte.
pub open spec fn nal_type_of(nal: Seq<u8>) -> u8 {
    (nal[0] % 32) as u8
}

fn nal_type(nal: &[u8]) -> (t: u8)
    requires
        nal@.len() > 0,
    ensures
        t == nal_type_of(nal@),
{
    let b = nal[0];
    assert(b & 0x1f == b % 32) by (bit_vector);
    b & 0x1f
}

/// Position of the first NAL unit of type `t`.
pub open spec fn first_of_type(nals: Seq<Seq<u8>>, t: u8) -> Option<int>
    decreases nals.len(),
{
    if nals.len() == 0 {
        None
    } else if nals[0].len() > 0 && nal_type_of(nals[0]) == t {
        Some(0)
    } else {
        match first_of_type(nals.drop_first(), t) {
            Some(i) => Some(i + 1),
            None => None,
        }
    }
}

proof fn lemma_first_of_type(nals: Seq<Seq<u8>>, t: u8)
    ensures
        first_of_type(nals, t) matches Some(i) ==> 0 <= i < nals.len() && nals[i].len() > 0
            && nal_type_of(nals[i]) == t && forall|j: int|
            0 <= j < i ==> !(nals[j].len() > 0 && nal_type_of(nals[j]) == t),
        first_of_type(nals, t) is None ==> forall|j: int|
            0 <= j < nals.len() ==> !(nals[j].len() > 0 && nal_type_of(nals[j]) == t),
    decreases nals.len(),
{
    if nals.len() > 0 && !(nals[0].len() > 0 && nal_type_of(nals[0]) == t) {
        lemma_first_of_type(nals.drop_first(), t);
        assert forall|j: int| 1 <= j < nals.len() implies nals[j] == nals.drop_first()[j - 1] by {}
    }
}

fn copy_slice(b: &[u8]) -> (r: Vec<u8>)
    ensures
        r@ == b@,
{
    let mut out: Vec<u8> = Vec::new();
    let mut k: usize = 0;
    while k < b.len()
        invariant
            k <= b@.len(),
            out@ == b@.subrange(0, k as int),
        decreases b@.len() - k,
    {
        out.push(b[k]);
        k += 1;
    }
    assert(b@.subrange(0, b@.len() as int) =~= b@);
    out
}

fn find_nal_of_type(nals: &Vec<&[u8]>, t: u8) -> (r: Option<Vec<u8>>)
    requires
        forall|k: int| 0 <= k < nals@.len() ==> #[trigger] nals@[k]@.len() > 0,
    ensures
        match first_of_type(nals@.map_values(|n: &[u8]| n@), t) {
            Some(i) => r matches Some(v) && v@ == nals@.map_values(|n: &[u8]| n@)[i],
            None => r is None,
        },
{
    let ghost views = nals@.map_values(|n: &[u8]| n@);
    proof {
        lemma_first_of_type(views, t);
    }
    let mut i: usize = 0;
    while i < nals.len()
        invariant
            i <= nals@.len(),
            views == nals@.map_values(|n: &[u8]| n@),
            forall|k: int| 0 <= k < nals@.len() ==> #[trigger] nals@[k]@.len() > 0,
            forall|j: int| 0 <= j < i ==> !(views[j].len() > 0 && nal_type_of(views[j]) == t),
            first_of_type(views, t) matches Some(m) ==> 0 <= m < views.len() && views[m].len() > 0
                && nal_type_of(views[m]) == t && forall|j: int|
                0 <= j < m ==> !(views[j].len() > 0 && nal_type_of(views[j]) == t),
            first_of_type(views, t) is None ==> forall|j: int|
                0 <= j < views.len() ==> !(views[j].len() > 0 && nal_type_of(views[j]) == t),
        decreases nals@.len() - i,
    {
        if nal_type(nals[i]) == t {
            proof {
                assert(views[i as int] == nals@[i as int]@);
                if let Some(m) = first_of_type(views, t) {
                    assert(m == i);
                }
            }
            return Some(copy_slice(nals[i]));
        }
        assert(views[i as int] == nals@[i as int]@);
        i += 1;
    }
    None
}

/// Why encoded frames could not be packed into an MP4 file.
#[derive(Debug, Clone, Copy, PartialEq, Eq, Structural)]
pub enum MuxError {
    NoFrames,
    NoSps,
    NoPps,
}

/// The sequence and picture parameter sets of a stream: the first NAL units
/// of types 7 and 8 in its first frame.
pub fn find_parameter_sets(frames: &Vec<Vec<u8>>) -> (r: Result<(Vec<u8>, Vec<u8>), MuxError>)
    ensures
        frames@.len() == 0 ==> r == Err::<(Vec<u8>, Vec<u8>), MuxError>(MuxError::NoFrames),
        frames@.len() > 0 ==> {
            let nals = nal_units(frames@[0]@);
            match (first_of_type(nals, NAL_SPS), first_of_type(nals, NAL_PPS)) {
                (Some(s), Some(p)) => r matches Ok((sps, pps)) && sps@ == nals[s] && pps@ == nals[p],
                (None, _) => r == Err::<(Vec<u8>, Vec<u8>), MuxError>(MuxError::NoSps),
                (Some(_), None) => r == Err::<(Vec<u8>, Vec<u8>), MuxError>(MuxError::NoPps),
            }
        },
{
    if frames.len() == 0 {
        return Err(MuxError::NoFrames);
    }
    let nals = parse_annexb_nals(frames[0].as_slice());
    proof {
        assert(nals@.map_values(|n: &[u8]| n@) =~= nal_units(frames@[0]@));
    }
    let sps = match find_nal_of_type(&nals, NAL_SPS) {
        Some(s) => s,
        None => {
            return Err(MuxError::NoSps);
        },
    };
    let pps = match find_nal_of_type(&nals, NAL_PPS) {
        Some(p) => p,
        None => {
            return Err(MuxError::NoPps);
        },
    };
    Ok((sps, pps))
}

/// The four big-endian bytes of a length, taken modulo 2^32.
pub open spec fn be_len(n: int) -> Seq<u8> {
    let v = n % 0x1_0000_0000;
    seq![(v / 0x100_0000) as u8, ((v / 0x1_0000) % 0x100) as u8, ((v / 0x100) % 0x100) as u8, (v % 0x100) as u8]
}

/// A frame in length-prefixed form: every NAL unit but the parameter sets,
/// each after its length as four big-endian bytes.
pub open spec fn avcc_of(nals: Seq<Seq<u8>>) -> Seq<u8>
    decreases nals.len(),
{
    if nals.len() == 0 {
        seq![]
    } else {
        let rest = avcc_of(nals.drop_last());
        let n = nals.last();
        let t = nal_type_of(n);
        if t == NAL_SPS || t == NAL_PPS {
            rest
        } else {
            rest + be_len(n.len() as int) + n
        }
    }
}

/// Whether some NAL unit is a key frame slice (type 5).
pub open spec fn has_idr(nals: Seq<Seq<u8>>) -> bool {
    exists|k: int| 0 <= k < nals.len() && nal_type_of(#[trigger] nals[k]) == NAL_IDR
}

fn push_be_len(out: &mut Vec<u8>, n: usize)
    ensures
        final(out)@ == old(out)@ + be_len(n as int),
{
    let v = (n as u64 % 0x1_0000_0000) as u32;
    assert(v == (n as int) % 0x1_0000_0000);
    let b0 = (v >> 24) as u8;
    let b1 = ((v >> 16) & 0xff) as u8;
    let b2 = ((v >> 8) & 0xff) as u8;
    let b3 = (v & 0xff) as u8;
    assert(v >> 24 == v / 0x100_0000) by (bit_vector);
    assert((v >> 16) & 0xff == (v / 0x1_0000) % 0x100) by (bit_vector);
    assert((v >> 8) & 0xff == (v / 0x100) % 0x100) by (bit_vector);
    assert(v & 0xff == v % 0x100) by (bit_vector);
    out.push(b0);
    out.push(b1);
    out.push(b2);
    out.push(b3);
    assert(out@ =~= old(out)@ + be_len(n as int));
}

/// Converts one Annex B frame to length-prefixed form, and tells whether it
/// holds a key frame.
pub fn annexb_to_avcc(frame: &[u8]) -> (r: (Vec<u8>, bool))
    ensures
        r.0@ == avcc_of(nal_units(frame@)),
        r.1 == has_idr(nal_units(frame@)),
{
    let nals = parse_annexb_nals(frame);
    let ghost views = nal_units(frame@);
    proof {
        assert(nals@.map_values(|n: &[u8]| n@) =~= views);
    }
    let mut out: Vec<u8> = Vec::new();
    let mut sync = false;
    let mut k: usize = 0;
    while k < nals.len()
        invariant
            k <= nals@.len(),
            views.len() == nals@.len(),
            forall|j: int| 0 <= j < nals@.len() ==> #[trigger] nals@[j]@ == views[j],
            forall|j: int| 0 <= j < nals@.len() ==> #[trigger] nals@[j]@.len() > 0,
            out@ == avcc_of(views.subrange(0, k as int)),
            sync == exists|j: int| 0 <= j < k && nal_type_of(#[trigger] views[j]) == NAL_IDR,
        decreases nals@.len() - k,
    {
        proof {
            assert(views.subrange(0, k as int + 1).drop_last() =~= views.subrange(0, k as int));
        }
        let nal = nals[k];
        let t = nal_type(nal);
        if t == NAL_IDR {
            sync = true;
        }
        if t != NAL_SPS && t != NAL_PPS {
            push_be_len(&mut out, nal.len());
            let mut i: usize = 0;
            let ghost start = out@;
            while i < nal.len()
                invariant
                    i <= nal@.len(),
                    out@ == start + nal@.subrange(0, i as int),
                decreases nal@.len() - i,
            {
                out.push(nal[i]);
                i += 1;
            }
            assert(nal@.subrange(0, nal@.len() as int) =~= nal@);
        }
        k += 1;
    }
    assert(views.subrange(0, views.len() as int) =~= views);
    (out, sync)
}

/// One sample of the MP4 video track.
pub struct SamplePlan {
    /// Start time in milliseconds: the frame's index times the sample duration.
    pub start_time: u64,
    pub duration: u32,
    pub is_sync: bool,
    pub bytes: Vec<u8>,
}

/// Whether an encoded frame gives a sample: it is not empty and holds some
/// NAL unit other than the parameter sets.
pub open spec fn frame_gives_sample(f: Seq<u8>) -> bool {
    f.len() > 0 && avcc_of(nal_units(f)).len() > 0
}

/// The frames that give samples, by index, in order.
pub open spec fn sample_frames(frames: Seq<Seq<u8>>) -> Seq<int>
    decreases frames.len(),
{
    if frames.len() == 0 {
        seq![]
    } else {
        let rest = sample_frames(frames.drop_last());
        if frame_gives_sample(frames.last()) {
            rest.push(frames.len() - 1)
        } else {
            rest
        }
    }
}

/// Sample `s` is the one of frame `i`.
pub open spec fn sample_of_frame(s: SamplePlan, f: Seq<u8>, i: int) -> bool {
    &&& s.start_time == i * SAMPLE_DURATION_MS
    &&& s.duration == SAMPLE_DURATION_MS
    &&& s.is_sync == has_idr(nal_units(f))
    &&& s.bytes@ == avcc_of(nal_units(f))
}

/// The samples of the video track: one per frame that gives one, starting at
/// the frame's time, lasting one sample duration, marked as a key frame when
/// the frame holds one.
pub fn plan_samples(frames: &Vec<Vec<u8>>) -> (r: Vec<SamplePlan>)
    requires
        frames@.len() * 33 <= u64::MAX,
    ensures
        ({
            let views = frames@.map_values(|f: Vec<u8>| f@);
            let idx = sample_frames(views);
            &&& r@.len() == idx.len()
            &&& forall|k: int|
                0 <= k < r@.len() ==> 0 <= idx[k] < views.len() && sample_of_frame(
                    #[trigger] r@[k],
                    views[idx[k]],
                    idx[k],
                )
        }),
{
    let ghost views = frames@.map_values(|f: Vec<u8>| f@);
    let ghost mut idx: Seq<int> = seq![];
    let mut out: Vec<SamplePlan> = Vec::new();
    let mut k: usize = 0;
    while k < frames.len()
        invariant
            k <= frames@.len(),
            frames@.len() * 33 <= u64::MAX,
            views == frames@.map_values(|f: Vec<u8>| f@),
            idx == sample_frames(views.subrange(0, k as int)),
            out@.len() == idx.len(),
            forall|j: int| 0 <= j < idx.len() ==> 0 <= #[trigger] idx[j] < k,
            forall|j: int|
                0 <= j < out@.len() ==> sample_of_frame(#[trigger] out@[j], views[idx[j]], idx[j]),
        decreases frames@.len() - k,
    {
        proof {
            assert(views.subrange(0, k as int + 1).drop_last() =~= views.subrange(0, k as int));
            assert(views.subrange(0, k as int + 1).last() == views[k as int]);
            assert(views[k as int] == frames@[k as int]@);
        }
        let ghost old_out = out@;
        let ghost old_idx = idx;
        let mut pushed = false;
        if frames[k].len() > 0 {
            let (avcc, sync) = annexb_to_avcc(frames[k].as_slice());
            if avcc.len() > 0 {
                let start_time = (k as u64) * (SAMPLE_DURATION_MS as u64);
                let sample = SamplePlan {
                    start_time,
                    duration: SAMPLE_DURATION_MS,
                    is_sync: sync,
                    bytes: avcc,
                };
                assert(sample_of_frame(sample, views[k as int], k as int));
                out.push(sample);
                pushed = true;
                proof {
                    idx = old_idx.push(k as int);
                }
                assert(frame_gives_sample(views[k as int]));
            } else {
                assert(!frame_gives_sample(views[k as int]));
            }
        } else {
            assert(!frame_gives_sample(views[k as int]));
        }
        assert(idx == sample_frames(views.subrange(0, k as int + 1)));
        assert forall|j: int| 0 <= j < out@.len() implies 0 <= idx[j] < k + 1 && sample_of_frame(
            #[trigger] out@[j],
            views[idx[j]],
            idx[j],
        ) by {
            if j < old_out.len() {
                assert(out@[j] == old_out[j]);
                assert(idx[j] == old_idx[j]);
            }
        }
        k += 1;
    }
    proof {
        assert(views.subrange(0, frames@.len() as int) =~= views);
    }
    out
}

/// Which frames a clock advance renders, and the last frame index after it:
/// the frames after `last` up to `target` that are part of the video; when
/// the target lies past the video, the index stops one past the last frame,
/// or moves on by one once it is already there.
pub open spec fn advance_spec(last: int, target: int) -> (int, Seq<int>) {
    if last >= target {
        (last, seq![])
    } else {
        let end = if target < TOTAL_FRAMES { target } else { TOTAL_FRAMES - 1 };
        let frames = if last + 1 <= end {
            Seq::new((end - last) as nat, |k: int| last + 1 + k)
        } else {
            seq![]
        };
        let next = if target < TOTAL_FRAMES {
            target
        } else if last + 1 >= TOTAL_FRAMES {
            last + 1
        } else {
            TOTAL_FRAMES as int
        };
        (next, frames)
    }
}

/// Steps the last rendered frame towards the frame that the clock has
/// reached, and lists the frames to render on the way.
pub fn advance_frames(last: i64, target: i64) -> (r: (i64, Vec<i64>))
    ensures
        r.0 == advance_spec(last as int, target as int).0,
        r.1@.map_values(|f: i64| f as int) == advance_spec(last as int, target as int).1,
{
    let mut frames: Vec<i64> = Vec::new();
    if last >= target {
        assert(frames@.map_values(|f: i64| f as int) =~= Seq::<int>::empty());
        return (last, frames);
    }
    if last + 1 >= TOTAL_FRAMES as i64 {
        assert(frames@.map_values(|f: i64| f as int) =~= Seq::<int>::empty());
        return (last + 1, frames);
    }
    let end: i64 = if target < TOTAL_FRAMES as i64 {
        target
    } else {
        TOTAL_FRAMES as i64 - 1
    };
    let next: i64 = if target < TOTAL_FRAMES as i64 {
        target
    } else {
        TOTAL_FRAMES as i64
    };
    let mut f: i64 = last + 1;
    while f <= end
        invariant
            last + 1 <= f <= end + 1,
            end < TOTAL_FRAMES,
            frames@.map_values(|x: i64| x as int) =~= Seq::new(
                (f - last - 1) as nat,
                |k: int| last + 1 + k,
            ),
        decreases end + 1 - f,
    {
        let ghost before = frames@;
        frames.push(f);
        assert(frames@.map_values(|x: i64| x as int) =~= before.map_values(|x: i64| x as int).push(
            f as int,
        ));
        f += 1;
    }
    (next, frames)
}

/// The frames rendered over a run of clock advances, each starting from the
/// last frame index that the one before left, and the index after them.
pub open spec fn advance_all(last: int, targets: Seq<int>) -> (int, Seq<int>)
    decreases targets.len(),
{
    if targets.len() == 0 {
        (last, seq![])
    } else {
        let step = advance_spec(last, targets[0]);
        let rest = advance_all(step.0, targets.drop_first());
        (rest.0, step.1 + rest.1)
    }
}

/// Strictly rising integers between two bounds are no more than the gap.
proof fn lemma_rising_within_bounds(s: Seq<int>, lo: int, hi: int)
    requires
        forall|a: int, b: int| 0 <= a < b < s.len() ==> s[a] < s[b],
        forall|k: int| 0 <= k < s.len() ==> lo < #[trigger] s[k] < hi,
    ensures
        s.len() <= if hi - lo - 1 < 0 { 0 } else { hi - lo - 1 },
    decreases s.len(),
{
    if s.len() > 0 {
        let t = s.drop_last();
        assert forall|k: int| 0 <= k < t.len() implies lo < #[trigger] t[k] < s.last() by {
            assert(t[k] == s[k]);
        }
        lemma_rising_within_bounds(t, lo, s.last());
    }
}

/// A video never gets more frames than it holds: over any run of clock
/// advances from the start, the rendered frames rise strictly, each is a
/// frame of the video, and there are at most `TOTAL_FRAMES` of them.
pub proof fn lemma_frames_stay_within_video(last: int, targets: Seq<int>)
    requires
        last >= -1,
    ensures
        advance_all(last, targets).0 >= last,
        forall|a: int, b: int|
            0 <= a < b < advance_all(last, targets).1.len() ==> advance_all(last, targets).1[a]
                < advance_all(last, targets).1[b],
        forall|k: int|
            0 <= k < advance_all(last, targets).1.len() ==> last < #[trigger] advance_all(last, targets).1[k]
                < TOTAL_FRAMES && advance_all(last, targets).1[k] <= advance_all(last, targets).0,
        advance_all(last, targets).1.len() <= TOTAL_FRAMES,
    decreases targets.len(),
{
    let all = advance_all(last, targets);
    if targets.len() > 0 {
        let step = advance_spec(last, targets[0]);
        lemma_frames_stay_within_video(step.0, targets.drop_first());
        let rest = advance_all(step.0, targets.drop_first());
        assert(all.1 == step.1 + rest.1);
        assert forall|k: int| 0 <= k < step.1.len() implies last < #[trigger] step.1[k] < TOTAL_FRAMES
            && step.1[k] <= step.0 by {}
        assert forall|a: int, b: int| 0 <= a < b < all.1.len() implies all.1[a] < all.1[b] by {
            if b < step.1.len() {
            } else if a >= step.1.len() {
                assert(all.1[a] == rest.1[a - step.1.len()]);
                assert(all.1[b] == rest.1[b - step.1.len()]);
            } else {
                assert(all.1[b] == rest.1[b - step.1.len()]);
            }
        }
        assert forall|k: int| 0 <= k < all.1.len() implies last < #[trigger] all.1[k] < TOTAL_FRAMES
            && all.1[k] <= all.0 by {
            if k >= step.1.len() {
                assert(all.1[k] == rest.1[k - step.1.len()]);
            }
        }
    }
    lemma_rising_within_bounds(all.1, last, TOTAL_FRAMES as int);
}

/// Whether a rendered frame is the one that a dump mode saves.
pub fn is_dump_frame(mode: &DumpMode, frame: i64) -> (r: bool)
    ensures
        r == (frame as int == match *mode {
            DumpMode::Frame(n) => (n as i64) as int,
            DumpMode::Midpoint => (TOTAL_FRAMES / 2) as int,
        }),
{
    match mode {
        DumpMode::Frame(n) => frame == *n as i64,
        DumpMode::Midpoint => frame == (TOTAL_FRAMES / 2) as i64,
    }
}

} // verus!
