//! Raw audio as it arrives from the music daemon: the WAV header of its HTTP
//! stream, headers repeated inside the stream, whole frames out of arbitrary
//! reads, and the integer sample values of 16, 24 and 32-bit little-endian
//! audio.

use vstd::prelude::*;

verus! {

pub open spec fn riff_tag() -> Seq<u8> {
    seq![0x52u8, 0x49u8, 0x46u8, 0x46u8]
}

pub open spec fn wave_tag() -> Seq<u8> {
    seq![0x57u8, 0x41u8, 0x56u8, 0x45u8]
}

pub open spec fn fmt_tag() -> Seq<u8> {
    seq![0x66u8, 0x6du8, 0x74u8, 0x20u8]
}

pub open spec fn data_tag() -> Seq<u8> {
    seq![0x64u8, 0x61u8, 0x74u8, 0x61u8]
}

/// The four bytes at `pos` are the tag `t`.
pub open spec fn tag_at(b: Seq<u8>, pos: int, t: Seq<u8>) -> bool {
    0 <= pos && pos + 4 <= b.len() && b.subrange(pos, pos + 4) == t
}

/// A little-endian 16-bit unsigned number at `pos`.
pub open spec fn le16(b: Seq<u8>, pos: int) -> int {
    b[pos] as int + b[pos + 1] as int * 256
}

/// A little-endian 32-bit unsigned number at `pos`.
pub open spec fn le32(b: Seq<u8>, pos: int) -> int {
    b[pos] as int + b[pos + 1] as int * 256 + b[pos + 2] as int * 65536 + b[pos + 3] as int * 16777216
}

/// What the first 44 bytes of the stream say: sample rate, channels, and
/// whether more header follows (the `data` chunk is not where a plain header
/// has it). Bytes that are no WAV header keep the current format; a channel
/// count of 0 or over 8 is taken as 2, a rate outside 8 to 192 kHz as
/// 44.1 kHz.
pub open spec fn wav_header(h: Seq<u8>, rate: u32, channels: u16) -> (u32, u16, bool) {
    if tag_at(h, 0, riff_tag()) && tag_at(h, 8, wave_tag()) && tag_at(h, 12, fmt_tag()) {
        let c = le16(h, 22);
        let r = le32(h, 24);
        (
            if 8000 <= r <= 192000 { r as u32 } else { 44100u32 },
            if c == 0 || c > 8 { 2u16 } else { c as u16 },
            !tag_at(h, 36, data_tag()),
        )
    } else {
        (rate, channels, false)
    }
}

fn tag_matches(b: &Vec<u8>, pos: usize, t0: u8, t1: u8, t2: u8, t3: u8) -> (r: bool)
    requires
        pos + 4 <= b.len(),
    ensures
        r == (b@.subrange(pos as int, pos + 4) == seq![t0, t1, t2, t3]),
{
    let r = b[pos] == t0 && b[pos + 1] == t1 && b[pos + 2] == t2 && b[pos + 3] == t3;
    if r {
        assert(b@.subrange(pos as int, pos + 4) =~= seq![t0, t1, t2, t3]);
    } else {
        assert(b@.subrange(pos as int, pos + 4)[0] == b@[pos as int]);
        assert(b@.subrange(pos as int, pos + 4)[1] == b@[pos + 1]);
        assert(b@.subrange(pos as int, pos + 4)[2] == b@[pos + 2]);
        assert(b@.subrange(pos as int, pos + 4)[3] == b@[pos + 3]);
    }
    r
}

/// The format that a stream's first 44 bytes give (see `wav_header`).
pub fn parse_wav_header(header: &Vec<u8>, rate: u32, channels: u16) -> (r: (u32, u16, bool))
    requires
        header.len() == 44,
    ensures
        r == wav_header(header@, rate, channels),
{
    if tag_matches(header, 0, 0x52, 0x49, 0x46, 0x46) && tag_matches(header, 8, 0x57, 0x41, 0x56, 0x45)
        && tag_matches(header, 12, 0x66, 0x6d, 0x74, 0x20) {
        let c: u16 = header[22] as u16 + header[23] as u16 * 256;
        let r: u32 = header[24] as u32 + header[25] as u32 * 256 + header[26] as u32 * 65536
            + header[27] as u32 * 16777216;
        let new_rate: u32 = if 8000 <= r && r <= 192000 { r } else { 44100 };
        let new_channels: u16 = if c == 0 || c > 8 { 2 } else { c };
        let more = !tag_matches(header, 36, 0x64, 0x61, 0x74, 0x61);
        (new_rate, new_channels, more)
    } else {
        (rate, channels, false)
    }
}

/// The first position in `i..end` where the tag `t` starts.
pub open spec fn find_tag(b: Seq<u8>, t: Seq<u8>, i: int, end: int) -> Option<int>
    decreases end - i,
{
    if i >= end {
        None
    } else if tag_at(b, i, t) {
        Some(i)
    } else {
        find_tag(b, t, i + 1, end)
    }
}

/// `n - k`, or 0 where that is negative.
pub open spec fn sat_sub(n: int, k: int) -> int {
    if n >= k { n - k } else { 0 }
}

/// Where the audio starts in a block of stream bytes, and whether the next
/// block is still header: a `RIFF` tag (a new track's header; looked for at
/// positions before the last four) starts a header; inside a header the
/// audio starts eight bytes after the `data` tag (looked for before the last
/// eight positions); a block without it is all header (`None`).
pub open spec fn audio_start(b: Seq<u8>, skipping: bool) -> (Option<int>, bool) {
    let (start, skip) = match find_tag(b, riff_tag(), 0, sat_sub(b.len() as int, 4)) {
        Some(p) => (p, true),
        None => (0int, skipping),
    };
    if skip {
        match find_tag(b, data_tag(), start, sat_sub(b.len() as int, 8)) {
            Some(p) => (Some(p + 8), false),
            None => (None, true),
        }
    } else {
        (Some(start), false)
    }
}

fn find_tag_exec(b: &Vec<u8>, t0: u8, t1: u8, t2: u8, t3: u8, from: usize, end: usize) -> (r: Option<usize>)
    requires
        end + 4 <= b.len() || end == 0,
    ensures
        r matches Some(x) ==> find_tag(b@, seq![t0, t1, t2, t3], from as int, end as int) == Some(x as int),
        r is None ==> find_tag(b@, seq![t0, t1, t2, t3], from as int, end as int) is None,
        r matches Some(p) ==> from <= p && p < end,
    decreases end - from,
{
    if from >= end {
        return None;
    }
    if tag_matches(b, from, t0, t1, t2, t3) {
        Some(from)
    } else {
        find_tag_exec(b, t0, t1, t2, t3, from + 1, end)
    }
}

/// Where the audio starts in a block of stream bytes (see `audio_start`).
pub fn find_audio_start(b: &Vec<u8>, skipping: bool) -> (r: (Option<usize>, bool))
    ensures
        ({
            let (s, k) = audio_start(b@, skipping);
            &&& r.1 == k
            &&& match s {
                Some(p) => r.0 == Some(p as usize) && p <= b.len(),
                None => r.0 is None,
            }
        }),
{
    let end4: usize = if b.len() >= 4 { b.len() - 4 } else { 0 };
    assert(end4 == sat_sub(b.len() as int, 4));
    assert(riff_tag() =~= seq![0x52u8, 0x49u8, 0x46u8, 0x46u8]);
    assert(data_tag() =~= seq![0x64u8, 0x61u8, 0x74u8, 0x61u8]);
    let riff = find_tag_exec(b, 0x52, 0x49, 0x46, 0x46, 0, end4);
    let ghost sr = find_tag(b@, riff_tag(), 0, sat_sub(b.len() as int, 4));
    assert(riff is Some <==> sr is Some);
    assert(riff matches Some(p) ==> sr == Some(p as int));
    let (start, skip) = match riff {
        Some(p) => (p, true),
        None => (0, skipping),
    };
    if skip {
        let end8: usize = if b.len() >= 8 { b.len() - 8 } else { 0 };
        assert(end8 == sat_sub(b.len() as int, 8));
        let data = find_tag_exec(b, 0x64, 0x61, 0x74, 0x61, start, end8);
        let ghost sd = find_tag(b@, data_tag(), start as int, sat_sub(b.len() as int, 8));
        assert(data is Some <==> sd is Some);
        match data {
            Some(p) => {
                assert(sd == Some(p as int));
                (Some(p + 8), false)
            },
            None => (None, true),
        }
    } else {
        (Some(start), false)
    }
}

/// The bytes left over from the last block, then the new ones, split into
/// whole frames and the bytes of an incomplete last frame.
pub fn frame_align(leftover: &Vec<u8>, block: &Vec<u8>, from: usize, frame_size: usize) -> (r: (Vec<u8>, Vec<u8>))
    requires
        frame_size > 0,
        from <= block.len(),
    ensures
        ({
            let w = leftover@ + block@.skip(from as int);
            let aligned = w.len() / (frame_size as nat) * (frame_size as nat);
            &&& r.0@ == w.take(aligned as int)
            &&& r.1@ == w.skip(aligned as int)
            &&& r.0@.len() % (frame_size as nat) == 0
            &&& r.1@.len() < frame_size
        }),
{
    let ghost w = leftover@ + block@.skip(from as int);
    let mut work: Vec<u8> = Vec::new();
    let mut i: usize = 0;
    while i < leftover.len()
        invariant
            i <= leftover.len(),
            work@ == leftover@.take(i as int),
        decreases leftover.len() - i,
    {
        work.push(leftover[i]);
        i = i + 1;
        assert(work@ =~= leftover@.take(i as int));
    }
    assert(leftover@.take(leftover.len() as int) =~= leftover@);
    let mut j: usize = from;
    while j < block.len()
        invariant
            from <= j <= block.len(),
            work@ == leftover@ + block@.subrange(from as int, j as int),
        decreases block.len() - j,
    {
        work.push(block[j]);
        j = j + 1;
        assert(work@ =~= leftover@ + block@.subrange(from as int, j as int));
    }
    assert(work@ =~= w);
    let total = work.len();
    let q = total / frame_size;
    assert(q * frame_size <= total) by (nonlinear_arith)
        requires
            frame_size > 0,
            q == total / frame_size,
    ;
    let aligned = q * frame_size;
    assert(aligned % frame_size == 0) by (nonlinear_arith)
        requires
            frame_size > 0,
            aligned == total / frame_size * frame_size,
    ;
    assert(total - aligned < frame_size) by (nonlinear_arith)
        requires
            frame_size > 0,
            aligned == total / frame_size * frame_size,
    ;
    let mut whole: Vec<u8> = Vec::new();
    let mut rest: Vec<u8> = Vec::new();
    let mut k: usize = 0;
    while k < total
        invariant
            total == work.len(),
            aligned <= total,
            k <= total,
            k <= aligned ==> whole@ == work@.take(k as int) && rest@.len() == 0,
            k > aligned ==> whole@ == work@.take(aligned as int) && rest@ == work@.subrange(aligned as int, k as int),
        decreases total - k,
    {
        if k < aligned {
            whole.push(work[k]);
        } else {
            rest.push(work[k]);
        }
        k = k + 1;
        assert(whole@ =~= work@.take(if k <= aligned { k as int } else { aligned as int }));
        assert(k > aligned ==> rest@ =~= work@.subrange(aligned as int, k as int));
    }
    assert(rest@ =~= work@.skip(aligned as int));
    (whole, rest)
}

/// The signed value of a sample of `bits` bits (16, 24 or 32) stored little
/// endian at `pos`; 0 for other sizes.
pub open spec fn sample_value(b: Seq<u8>, pos: int, bits: u16) -> int {
    if bits == 16 {
        let v = le16(b, pos);
        if v >= 32768 { v - 65536 } else { v }
    } else if bits == 24 {
        let v = b[pos] as int + b[pos + 1] as int * 256 + b[pos + 2] as int * 65536;
        if v >= 8388608 { v - 16777216 } else { v }
    } else if bits == 32 {
        let v = le32(b, pos);
        if v >= 2147483648 { v - 4294967296 } else { v }
    } else {
        0
    }
}

/// Bytes per sample: the bit depth divided by 8.
pub open spec fn sample_bytes(bits: u16) -> int {
    bits as int / 8
}

/// The sample values of whole frames of interleaved audio, frame after
/// frame, channel after channel; `full_scale` divides them into the range of
/// -1 to 1.
pub fn decode_frames(work: &Vec<u8>, bits: u16, channels: u16) -> (r: Vec<i32>)
    requires
        bits == 16 || bits == 24 || bits == 32,
        channels > 0,
        (work.len() as int) % (sample_bytes(bits) * channels) == 0,
    ensures
        r.len() == (work.len() as int) / sample_bytes(bits),
        forall|k: int| 0 <= k < r.len() ==> #[trigger] r@[k] as int == sample_value(work@, k * sample_bytes(bits), bits),
{
    let bps: usize = (bits / 8) as usize;
    let n = work.len() / bps;
    let mut out: Vec<i32> = Vec::new();
    let mut k: usize = 0;
    while k < n
        invariant
            bps == sample_bytes(bits),
            bps == 2 || bps == 3 || bps == 4,
            bits == 16 || bits == 24 || bits == 32,
            n == work.len() / bps,
            k <= n,
            out.len() == k,
            forall|q: int| 0 <= q < k ==> #[trigger] out@[q] as int == sample_value(work@, q * bps, bits),
        decreases n - k,
    {
        assert(k * bps + bps <= work.len()) by (nonlinear_arith)
            requires
                k < n,
                n == work.len() / bps,
                bps > 0,
        ;
        let off = k * bps;
        let v: i32 = if bits == 16 {
            let u: i32 = work[off] as i32 + work[off + 1] as i32 * 256;
            if u >= 32768 { u - 65536 } else { u }
        } else if bits == 24 {
            let u: i32 = work[off] as i32 + work[off + 1] as i32 * 256 + work[off + 2] as i32 * 65536;
            if u >= 8388608 { u - 16777216 } else { u }
        } else {
            let u: i64 = work[off] as i64 + work[off + 1] as i64 * 256 + work[off + 2] as i64 * 65536
                + work[off + 3] as i64 * 16777216;
            let s: i64 = if u >= 2147483648 { u - 4294967296 } else { u };
            s as i32
        };
        out.push(v);
        k = k + 1;
    }
    out
}

/// The value that a sample of `bits` bits is divided by to lie in -1 to 1:
/// 2 to the power `bits - 1`.
pub fn full_scale(bits: u16) -> (r: u64)
    requires
        bits == 16 || bits == 24 || bits == 32,
    ensures
        bits == 16 ==> r == 32768,
        bits == 24 ==> r == 8388608,
        bits == 32 ==> r == 2147483648,
{
    if bits == 16 {
        32768
    } else if bits == 24 {
        8388608
    } else {
        2147483648
    }
}

} // verus!
