//! The frame codec: the wire image of a frame, its checksum, and the
//! streaming decoder that finds frames in a byte stream.

use crate::connection::MavPacket;
use crate::mavlink::DkMessage;
use crate::wire::{le16, lemma_le16, u16_at, u16_of};
use vstd::prelude::*;
use vstd::slice::slice_subrange;

verus! {

/// The byte that opens every frame.
pub const STX: u8 = 0xFE;

/// The bytes of a frame besides its payload: six of header, two of checksum.
pub const OVERHEAD: usize = 8;

/// CRC-16/MCRF4XX of `data`, as the `crc16` crate computes it.
pub uninterp spec fn crc16_mcrf4xx(data: Seq<u8>) -> u16;

/// `crc16::State::<MCRF4XX>::calculate`: the checksum of `data`, which
/// depends on the bytes alone.
#[verifier::external_body]
pub(crate) fn mcrf4xx(data: &[u8]) -> (crc: u16)
    ensures
        crc == crc16_mcrf4xx(data@),
{
    crc16::State::<crc16::MCRF4XX>::calculate(data)
}

/// A frame as a value: what a `MavPacket` stands for.
pub struct Frame {
    pub seq: u8,
    pub system_id: u8,
    pub component_id: u8,
    pub message_id: u8,
    pub data: Seq<u8>,
    pub checksum: u16,
}

impl Frame {
    /// Start byte, payload length, sequence number, sender and message id.
    pub open spec fn header(self) -> Seq<u8> {
        seq![
            STX,
            self.data.len() as u8,
            self.seq,
            self.system_id,
            self.component_id,
            self.message_id,
        ]
    }

    /// The frame without its checksum.
    pub open spec fn body(self) -> Seq<u8> {
        self.header() + self.data
    }

    /// The frame on the wire: header, payload, checksum little-endian.
    pub open spec fn bytes(self) -> Seq<u8> {
        self.body() + le16(self.checksum)
    }

    /// The checksum owed: over the frame behind its start byte and before
    /// its checksum, followed by the extra byte of its message id.
    pub open spec fn crc(self) -> u16 {
        crc16_mcrf4xx(
            self.body().subrange(1, self.body().len() as int) + seq![
                DkMessage::spec_extra_crc(self.message_id),
            ],
        )
    }

    /// The frame carries the checksum owed.
    pub open spec fn valid(self) -> bool {
        self.checksum == self.crc()
    }

    /// The frame with the checksum owed in place of its own.
    pub open spec fn sealed(self) -> Frame {
        Frame { checksum: self.crc(), ..self }
    }

    /// The frame that the bytes `b` hold, read by position: `b` is a whole
    /// frame, of eight bytes at least.
    pub open spec fn of_bytes(b: Seq<u8>) -> Frame {
        Frame {
            seq: b[2],
            system_id: b[3],
            component_id: b[4],
            message_id: b[5],
            data: b.subrange(6, b.len() - 2),
            checksum: u16_at(b, b.len() - 2),
        }
    }
}

/// The frames that a sequence of packets stands for.
pub open spec fn frames_of(v: Seq<MavPacket>) -> Seq<Frame> {
    v.map_values(|p: MavPacket| p@)
}

/// From offset `i`, `s` holds the eight bytes that every frame has and the
/// payload that the length byte at `i + 1` announces.
pub open spec fn complete_at(s: Seq<u8>, i: int) -> bool {
    i + OVERHEAD <= s.len() && i + OVERHEAD + s[i + 1] <= s.len()
}

/// The end of the candidate frame that starts at `i`.
pub open spec fn end_at(s: Seq<u8>, i: int) -> int {
    i + OVERHEAD + s[i + 1]
}

/// The candidate frame that starts at `i`.
pub open spec fn frame_at(s: Seq<u8>, i: int) -> Frame {
    Frame::of_bytes(s.subrange(i, end_at(s, i)))
}

/// What the decoder makes of a buffer: the frames found, in order, and the
/// number of leading bytes that it is done with.
pub struct Scan {
    pub frames: Seq<Frame>,
    pub consumed: int,
}

/// The decoder from offset `i` of `s`. A byte that opens no frame is noise.
/// A start byte whose candidate is not all there yet stops the scan. A
/// candidate with the checksum owed is a frame, and the scan goes on behind
/// it; behind one without, the scan goes on one byte further.
pub open spec fn scan(s: Seq<u8>, i: int) -> Scan
    decreases s.len() - i,
{
    if i < 0 || i >= s.len() {
        Scan { frames: Seq::empty(), consumed: s.len() as int }
    } else if s[i] != STX {
        scan(s, i + 1)
    } else if !complete_at(s, i) {
        Scan { frames: Seq::empty(), consumed: i }
    } else if frame_at(s, i).valid() {
        let rest = scan(s, end_at(s, i));
        Scan { frames: seq![frame_at(s, i)] + rest.frames, consumed: rest.consumed }
    } else {
        scan(s, i + 1)
    }
}

/// Finds the frames in `buf`. Returns them in order, with the number of
/// leading bytes done with: the caller keeps the rest for the next call.
pub fn decode(buf: &[u8]) -> (r: (Vec<MavPacket>, usize))
    ensures
        frames_of(r.0@) == scan(buf@, 0).frames,
        r.1 == scan(buf@, 0).consumed,
        r.1 <= buf@.len(),
{
    let n = buf.len();
    let mut out: Vec<MavPacket> = Vec::new();
    let mut pos: usize = 0;
    assert(frames_of(out@) + scan(buf@, 0).frames =~= scan(buf@, 0).frames);
    loop
        invariant
            pos <= n,
            n == buf@.len(),
            scan(buf@, 0).frames == frames_of(out@) + scan(buf@, pos as int).frames,
            scan(buf@, 0).consumed == scan(buf@, pos as int).consumed,
        decreases n - pos,
    {
        if pos >= n {
            assert(frames_of(out@) + Seq::<Frame>::empty() =~= frames_of(out@));
            return (out, n);
        }
        if buf[pos] != STX {
            pos += 1;
            continue ;
        }
        if n - pos < OVERHEAD {
            assert(frames_of(out@) + Seq::<Frame>::empty() =~= frames_of(out@));
            return (out, pos);
        }
        let len = buf[pos + 1] as usize;
        if n - pos < OVERHEAD + len {
            assert(frames_of(out@) + Seq::<Frame>::empty() =~= frames_of(out@));
            return (out, pos);
        }
        let packet = MavPacket::new(slice_subrange(buf, pos, pos + OVERHEAD + len));
        if packet.check_crc() {
            proof {
                let f = frame_at(buf@, pos as int);
                let rest = scan(buf@, end_at(buf@, pos as int));
                assert(frames_of(out@.push(packet)) =~= frames_of(out@).push(f));
                assert(frames_of(out@).push(f) + rest.frames =~= frames_of(out@) + (seq![f]
                    + rest.frames));
            }
            out.push(packet);
            pos += OVERHEAD + len;
        } else {
            pos += 1;
        }
    }
}

/// The bytes that the decoder keeps of `s` for its next call.
pub open spec fn residual(s: Seq<u8>) -> Seq<u8> {
    s.subrange(scan(s, 0).consumed, s.len() as int)
}

/// The decoder has nothing to do on `s` until more bytes come: `s` is
/// empty, or opens with a candidate that is not all there.
pub open spec fn settled(s: Seq<u8>) -> bool {
    scan(s, 0) == (Scan { frames: Seq::empty(), consumed: 0 })
}

/// Every start byte of `s` from `from` up to `to` opens a candidate that is
/// all there and lacks the checksum owed: the decoder passes these bytes
/// one at a time and finds nothing.
pub open spec fn noise(s: Seq<u8>, from: int, to: int) -> bool {
    forall|j: int|
        from <= j < to && #[trigger] s[j] == STX ==> complete_at(s, j) && !frame_at(s, j).valid()
}

/// `s` holds the wire image of `f` somewhere.
pub open spec fn occurs(s: Seq<u8>, f: Frame) -> bool {
    exists|j: int|
        0 <= j && j + f.bytes().len() <= s.len() && #[trigger] s.subrange(
            j,
            j + f.bytes().len(),
        ) == f.bytes()
}

/// The bytes of chunks, one after another.
pub open spec fn concat(chunks: Seq<Seq<u8>>) -> Seq<u8>
    decreases chunks.len(),
{
    if chunks.len() == 0 {
        Seq::empty()
    } else {
        chunks[0] + concat(chunks.drop_first())
    }
}

/// What feeding chunks one at a time gives: the frames found on the way,
/// and the bytes kept at the end.
pub struct Fed {
    pub frames: Seq<Frame>,
    pub buf: Seq<u8>,
}

/// Feeds `chunks` one at a time to a decoder that has kept `buf`: each
/// chunk is appended to what was kept, the whole is scanned, and the
/// residual is kept for the next.
pub open spec fn feed_all(buf: Seq<u8>, chunks: Seq<Seq<u8>>) -> Fed
    decreases chunks.len(),
{
    if chunks.len() == 0 {
        Fed { frames: Seq::empty(), buf }
    } else {
        let s = buf + chunks[0];
        let rest = feed_all(residual(s), chunks.drop_first());
        Fed { frames: scan(s, 0).frames + rest.frames, buf: rest.buf }
    }
}

/// The wire image of a frame has eight bytes more than its payload, and
/// reading it by position gives the frame back.
pub proof fn lemma_of_bytes_bytes(f: Frame)
    ensures
        f.bytes().len() == OVERHEAD + f.data.len(),
        Frame::of_bytes(f.bytes()) == f,
{
    let b = f.bytes();
    lemma_le16(f.checksum);
    assert(b.subrange(6, b.len() - 2) =~= f.data);
    assert(b.subrange(b.len() - 2, b.len() - 2 + 2) =~= le16(f.checksum));
}

/// A candidate that is all there has for wire image the bytes that it was
/// read from.
pub proof fn lemma_frame_at_bytes(s: Seq<u8>, i: int)
    requires
        0 <= i,
        s[i] == STX,
        complete_at(s, i),
    ensures
        frame_at(s, i).data.len() == s[i + 1],
        frame_at(s, i).bytes() == s.subrange(i, end_at(s, i)),
{
    let b = s.subrange(i, end_at(s, i));
    let f = frame_at(s, i);
    let t = b.subrange(b.len() - 2, b.len() - 2 + 2);
    let c = u16_of(t);
    assert(c % 0x100 == t[0] && c / 0x100 == t[1]);
    assert(le16(c) =~= t);
    assert(f.header() =~= b.subrange(0, 6));
    assert(f.bytes() =~= b);
}

/// Where `s` holds at `i` the wire image of a frame with the checksum owed
/// and a payload that its length byte can announce, the decoder finds that
/// frame there and goes on behind it.
pub proof fn lemma_scan_frame(s: Seq<u8>, i: int, f: Frame)
    requires
        0 <= i,
        f.data.len() <= 255,
        f.valid(),
        i + f.bytes().len() <= s.len(),
        s.subrange(i, i + f.bytes().len()) == f.bytes(),
    ensures
        scan(s, i).frames == seq![f] + scan(s, i + f.bytes().len()).frames,
        scan(s, i).consumed == scan(s, i + f.bytes().len()).consumed,
{
    lemma_of_bytes_bytes(f);
    let b = f.bytes();
    let w = s.subrange(i, i + b.len());
    assert(s[i] == w[0] && s[i + 1] == w[1]);
    assert(b[0] == STX && b[1] == f.data.len());
    assert(end_at(s, i) == i + b.len());
    assert(frame_at(s, i) == f);
}

/// The decoder never goes back, nor beyond the end.
pub proof fn lemma_scan_bounds(s: Seq<u8>, i: int)
    requires
        0 <= i <= s.len(),
    ensures
        i <= scan(s, i).consumed <= s.len(),
    decreases s.len() - i,
{
    if i >= s.len() {
    } else if s[i] != STX {
        lemma_scan_bounds(s, i + 1);
    } else if !complete_at(s, i) {
    } else if frame_at(s, i).valid() {
        lemma_scan_bounds(s, end_at(s, i));
    } else {
        lemma_scan_bounds(s, i + 1);
    }
}

/// The decoder passes noise and finds nothing in it.
pub proof fn lemma_scan_noise(s: Seq<u8>, from: int, to: int)
    requires
        0 <= from <= to <= s.len(),
        noise(s, from, to),
    ensures
        scan(s, from) == scan(s, to),
    decreases to - from,
{
    if from < to {
        assert(s[from] == STX ==> complete_at(s, from) && !frame_at(s, from).valid());
        lemma_scan_noise(s, from + 1, to);
    }
}

/// Decoding the wire image of a frame with the checksum owed gives that
/// frame, and nothing is kept.
pub proof fn lemma_decode_encode(f: Frame)
    requires
        f.valid(),
        f.data.len() <= 255,
    ensures
        scan(f.bytes(), 0) == (Scan { frames: seq![f], consumed: f.bytes().len() as int }),
{
    let b = f.bytes();
    assert(b.subrange(0, b.len() as int) =~= b);
    lemma_scan_frame(b, 0, f);
    assert(seq![f] + Seq::<Frame>::empty() =~= seq![f]);
}

/// Two frames with noise before each: the decoder finds exactly the two,
/// in order, and keeps nothing.
pub proof fn lemma_two_frames_in_noise(g1: Seq<u8>, f1: Frame, g2: Seq<u8>, f2: Frame)
    requires
        f1.valid(),
        f1.data.len() <= 255,
        f2.valid(),
        f2.data.len() <= 255,
        noise(g1 + f1.bytes() + g2 + f2.bytes(), 0, g1.len() as int),
        noise(
            g1 + f1.bytes() + g2 + f2.bytes(),
            (g1.len() + f1.bytes().len()) as int,
            (g1.len() + f1.bytes().len() + g2.len()) as int,
        ),
    ensures
        scan(g1 + f1.bytes() + g2 + f2.bytes(), 0) == (Scan {
            frames: seq![f1, f2],
            consumed: (g1 + f1.bytes() + g2 + f2.bytes()).len() as int,
        }),
{
    let s = g1 + f1.bytes() + g2 + f2.bytes();
    let a = g1.len() as int;
    let b = a + f1.bytes().len();
    let c = b + g2.len();
    let d = c + f2.bytes().len();
    assert(s.subrange(a, b) =~= f1.bytes());
    assert(s.subrange(c, d) =~= f2.bytes());
    lemma_scan_noise(s, 0, a);
    lemma_scan_frame(s, a, f1);
    lemma_scan_noise(s, b, c);
    lemma_scan_frame(s, c, f2);
    assert(seq![f1] + (seq![f2] + Seq::<Frame>::empty()) =~= seq![f1, f2]);
}

/// Two frames with bytes before each that hold no start byte: the decoder
/// finds exactly the two, in order.
pub proof fn lemma_two_frames_between_quiet_bytes(
    g1: Seq<u8>,
    f1: Frame,
    g2: Seq<u8>,
    f2: Frame,
)
    requires
        f1.valid(),
        f1.data.len() <= 255,
        f2.valid(),
        f2.data.len() <= 255,
        forall|j: int| 0 <= j < g1.len() ==> g1[j] != STX,
        forall|j: int| 0 <= j < g2.len() ==> g2[j] != STX,
    ensures
        scan(g1 + f1.bytes() + g2 + f2.bytes(), 0).frames == seq![f1, f2],
{
    let s = g1 + f1.bytes() + g2 + f2.bytes();
    let b = g1.len() + f1.bytes().len();
    assert forall|j: int| 0 <= j < g1.len() implies s[j] != STX by {
        assert(s[j] == g1[j]);
    }
    assert forall|j: int| b <= j < b + g2.len() implies s[j] != STX by {
        assert(s[j] == g2[j - b]);
    }
    lemma_two_frames_in_noise(g1, f1, g2, f2);
}

/// Whatever the decoder finds has the checksum owed and stands in the
/// stream, byte for byte.
pub proof fn lemma_found_frames_occur(s: Seq<u8>, i: int, k: int)
    requires
        0 <= i,
        0 <= k < scan(s, i).frames.len(),
    ensures
        scan(s, i).frames[k].valid(),
        occurs(s, scan(s, i).frames[k]),
    decreases s.len() - i,
{
    if i >= s.len() {
    } else if s[i] != STX {
        lemma_found_frames_occur(s, i + 1, k);
    } else if !complete_at(s, i) {
    } else if frame_at(s, i).valid() {
        if k == 0 {
            lemma_frame_at_bytes(s, i);
            lemma_of_bytes_bytes(frame_at(s, i));
            assert(s.subrange(i, i + frame_at(s, i).bytes().len()) == frame_at(s, i).bytes());
        } else {
            lemma_found_frames_occur(s, end_at(s, i), k - 1);
        }
    } else {
        lemma_found_frames_occur(s, i + 1, k);
    }
}

/// A stream as long as the wire image of `f` that differs from it in any
/// bit never decodes to `f`.
pub proof fn lemma_corrupted_frame_is_not_found(f: Frame, s: Seq<u8>)
    requires
        s.len() == f.bytes().len(),
        s != f.bytes(),
    ensures
        !scan(s, 0).frames.contains(f),
{
    if scan(s, 0).frames.contains(f) {
        let k = choose|k: int| 0 <= k < scan(s, 0).frames.len() && scan(s, 0).frames[k] == f;
        lemma_found_frames_occur(s, 0, k);
        let j = choose|j: int|
            0 <= j && j + f.bytes().len() <= s.len() && #[trigger] s.subrange(
                j,
                j + f.bytes().len(),
            ) == f.bytes();
        assert(s.subrange(0, s.len() as int) =~= s);
    }
}

/// What the decoder does from `i` on `a` it does on `a` followed by `b`
/// too, and then goes on from where it stopped on `a`.
pub proof fn lemma_scan_append(a: Seq<u8>, b: Seq<u8>, i: int)
    requires
        0 <= i <= a.len(),
    ensures
        scan(a + b, i).frames == scan(a, i).frames + scan(a + b, scan(a, i).consumed).frames,
        scan(a + b, i).consumed == scan(a + b, scan(a, i).consumed).consumed,
    decreases a.len() - i,
{
    let s = a + b;
    if i >= a.len() {
        assert(Seq::<Frame>::empty() + scan(s, i).frames =~= scan(s, i).frames);
    } else {
        assert(s[i] == a[i]);
        if a[i] != STX {
            lemma_scan_append(a, b, i + 1);
        } else if !complete_at(a, i) {
            assert(Seq::<Frame>::empty() + scan(s, i).frames =~= scan(s, i).frames);
        } else {
            assert(s[i + 1] == a[i + 1]);
            assert(s.subrange(i, end_at(s, i)) =~= a.subrange(i, end_at(a, i)));
            if frame_at(a, i).valid() {
                let e = end_at(a, i);
                lemma_scan_append(a, b, e);
                assert(seq![frame_at(a, i)] + (scan(a, e).frames + scan(
                    s,
                    scan(a, e).consumed,
                ).frames) =~= (seq![frame_at(a, i)] + scan(a, e).frames) + scan(
                    s,
                    scan(a, e).consumed,
                ).frames);
            } else {
                lemma_scan_append(a, b, i + 1);
            }
        }
    }
}

/// The decoder from `d + i` on `s` does what it does from `i` on `s`
/// without its first `d` bytes.
pub proof fn lemma_scan_shift(s: Seq<u8>, d: int, i: int)
    requires
        0 <= d <= s.len(),
        0 <= i,
    ensures
        scan(s, d + i).frames == scan(s.subrange(d, s.len() as int), i).frames,
        scan(s, d + i).consumed == d + scan(s.subrange(d, s.len() as int), i).consumed,
    decreases s.len() - d - i,
{
    let t = s.subrange(d, s.len() as int);
    if i >= t.len() {
    } else if t[i] != STX {
        lemma_scan_shift(s, d, i + 1);
    } else if !complete_at(t, i) {
    } else {
        assert(t.subrange(i, end_at(t, i)) =~= s.subrange(d + i, end_at(s, d + i)));
        if frame_at(t, i).valid() {
            lemma_scan_shift(s, d, end_at(t, i));
        } else {
            lemma_scan_shift(s, d, i + 1);
        }
    }
}

/// What the decoder keeps gives it nothing to do until more bytes come.
pub proof fn lemma_residual_settled(s: Seq<u8>)
    ensures
        settled(residual(s)),
{
    lemma_scan_stops(s, 0);
    let c = scan(s, 0).consumed;
    lemma_scan_bounds(s, 0);
    lemma_scan_shift(s, c, 0);
}

/// Where the decoder stopped, it finds nothing and stays.
proof fn lemma_scan_stops(s: Seq<u8>, i: int)
    requires
        0 <= i <= s.len(),
    ensures
        scan(s, scan(s, i).consumed) == (Scan {
            frames: Seq::empty(),
            consumed: scan(s, i).consumed,
        }),
    decreases s.len() - i,
{
    if i >= s.len() {
    } else if s[i] != STX {
        lemma_scan_stops(s, i + 1);
    } else if !complete_at(s, i) {
    } else if frame_at(s, i).valid() {
        lemma_scan_stops(s, end_at(s, i));
    } else {
        lemma_scan_stops(s, i + 1);
    }
}

/// Feeding `a` and then `b` finds what feeding both at once finds, and
/// keeps the same bytes.
pub proof fn lemma_feed_split(a: Seq<u8>, b: Seq<u8>)
    ensures
        scan(a + b, 0).frames == scan(a, 0).frames + scan(residual(a) + b, 0).frames,
        residual(a + b) == residual(residual(a) + b),
{
    let s = a + b;
    let c = scan(a, 0).consumed;
    lemma_scan_bounds(a, 0);
    lemma_scan_append(a, b, 0);
    lemma_scan_shift(s, c, 0);
    let t = residual(a) + b;
    assert(s.subrange(c, s.len() as int) =~= t);
    lemma_scan_bounds(t, 0);
    assert(residual(s) =~= residual(t));
}

/// Feeding a stream in chunks, however it is cut, finds the frames that
/// feeding it whole finds, and keeps the same bytes.
pub proof fn lemma_feed_chunks(buf: Seq<u8>, chunks: Seq<Seq<u8>>)
    requires
        settled(buf),
    ensures
        feed_all(buf, chunks).frames == scan(buf + concat(chunks), 0).frames,
        feed_all(buf, chunks).buf == residual(buf + concat(chunks)),
    decreases chunks.len(),
{
    if chunks.len() == 0 {
        assert(buf + concat(chunks) =~= buf);
        assert(residual(buf) =~= buf);
    } else {
        let a = buf + chunks[0];
        let b = concat(chunks.drop_first());
        lemma_residual_settled(a);
        lemma_feed_chunks(residual(a), chunks.drop_first());
        lemma_feed_split(a, b);
        assert(a + b =~= buf + concat(chunks));
    }
}

/// A frame with the checksum owed, cut into chunks in any way and fed one
/// chunk at a time to a decoder that has kept nothing, is found, alone, and
/// nothing is kept.
pub proof fn lemma_fragmented_frame(f: Frame, chunks: Seq<Seq<u8>>)
    requires
        f.valid(),
        f.data.len() <= 255,
        concat(chunks) == f.bytes(),
    ensures
        feed_all(Seq::empty(), chunks) == (Fed { frames: seq![f], buf: Seq::empty() }),
{
    lemma_feed_chunks(Seq::empty(), chunks);
    lemma_decode_encode(f);
    assert(Seq::<u8>::empty() + concat(chunks) =~= f.bytes());
    assert(residual(f.bytes()) =~= Seq::<u8>::empty());
}

} // verus!
