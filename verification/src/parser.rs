//! The framer: cuts the accumulated byte stream into length-delimited frames
//! and hands each complete frame to the decoder.

use crate::robot_data::{decode_record, DecodeError, RecordView, RobotDataPacket, RECORD_LEN};
use crate::wire::{be_u32_at, le_u32_at};
use vstd::prelude::*;
use vstd::slice::slice_subrange;

verus! {

/// Smallest frame length that is taken for plausible.
pub const MIN_FRAME: usize = 100;

/// Largest frame length that is taken for plausible.
pub const MAX_FRAME: usize = 4096;

/// Whether `size` can be the length of a frame.
pub open spec fn plausible_size(size: int) -> bool {
    MIN_FRAME <= size <= MAX_FRAME
}

/// The length of the frame that `s` starts with, if its first four bytes give
/// one. They are read both least and most significant byte first; the first
/// reading that is plausible counts, the little-endian one before the other.
pub open spec fn frame_size(s: Seq<u8>) -> Option<int> {
    if s.len() < 4 {
        None
    } else if plausible_size(le_u32_at(s, 0)) {
        Some(le_u32_at(s, 0))
    } else if plausible_size(be_u32_at(s, 0)) {
        Some(be_u32_at(s, 0))
    } else {
        None
    }
}

/// Whether `s` starts with a complete frame.
pub open spec fn has_frame(s: Seq<u8>) -> bool {
    frame_size(s) is Some && frame_size(s)->Some_0 <= s.len()
}

/// What is left of `s` once every complete frame at its head is taken off.
pub open spec fn frames_rest(s: Seq<u8>) -> Seq<u8>
    decreases s.len(),
{
    if has_frame(s) {
        frames_rest(s.skip(frame_size(s)->Some_0))
    } else {
        s
    }
}

/// The records of the complete frames at the head of `s`, in arrival order.
/// A frame too short for a record is taken off without giving one.
pub open spec fn frames_decoded(s: Seq<u8>) -> Seq<RecordView>
    decreases s.len(),
{
    if has_frame(s) {
        let n = frame_size(s)->Some_0;
        let first = if n >= RECORD_LEN {
            seq![decode_record(s.take(n))]
        } else {
            Seq::<RecordView>::empty()
        };
        first + frames_decoded(s.skip(n))
    } else {
        Seq::<RecordView>::empty()
    }
}

/// The records of a run of packets.
pub open spec fn records_of(packets: Seq<RobotDataPacket>) -> Seq<RecordView> {
    packets.map_values(|p: RobotDataPacket| p@)
}

/// A four-byte prefix whose little-endian reading is plausible gives that
/// reading as the frame length, whatever its big-endian reading is.
pub proof fn lemma_little_endian_first(s: Seq<u8>)
    requires
        s.len() >= 4,
        plausible_size(le_u32_at(s, 0)),
    ensures
        frame_size(s) == Some(le_u32_at(s, 0)),
{
}

/// No four bytes are plausible in both byte orders: where one reading lies
/// within the bounds the other lies above them, so the order of preference
/// never decides between two lengths.
pub proof fn lemma_readings_exclusive(s: Seq<u8>)
    requires
        s.len() >= 4,
    ensures
        !(plausible_size(le_u32_at(s, 0)) && plausible_size(be_u32_at(s, 0))),
{
}

/// The frame length depends on the first four bytes alone.
pub proof fn lemma_frame_size_of_prefix(s: Seq<u8>, t: Seq<u8>)
    requires
        s.len() >= 4,
        t.len() >= 4,
        s.take(4) == t.take(4),
    ensures
        frame_size(s) == frame_size(t),
{
    assert(s[0] == s.take(4)[0] && s[1] == s.take(4)[1] && s[2] == s.take(4)[2] && s[3]
        == s.take(4)[3]);
    assert(t[0] == t.take(4)[0] && t[1] == t.take(4)[1] && t[2] == t.take(4)[2] && t[3]
        == t.take(4)[3]);
}

/// What the framer leaves starts with no complete frame.
pub proof fn lemma_rest_has_no_frame(s: Seq<u8>)
    ensures
        !has_frame(frames_rest(s)),
        frames_rest(s).len() <= s.len(),
    decreases s.len(),
{
    if has_frame(s) {
        lemma_rest_has_no_frame(s.skip(frame_size(s)->Some_0));
    }
}

/// Framing does not depend on where the reads cut the stream: to frame `a`,
/// and then what is left of it with `b` behind, gives the records of `a`
/// followed by `b` as a whole, in the same order, and leaves the same bytes.
pub proof fn lemma_framing_is_incremental(a: Seq<u8>, b: Seq<u8>)
    ensures
        frames_rest(a + b) == frames_rest(frames_rest(a) + b),
        frames_decoded(a + b) == frames_decoded(a) + frames_decoded(frames_rest(a) + b),
    decreases a.len(),
{
    if has_frame(a) {
        let n = frame_size(a)->Some_0;
        assert((a + b).take(4) =~= a.take(4));
        lemma_frame_size_of_prefix(a + b, a);
        assert((a + b).skip(n) =~= a.skip(n) + b);
        assert((a + b).take(n) =~= a.take(n));
        lemma_framing_is_incremental(a.skip(n), b);
        let first = if n >= RECORD_LEN {
            seq![decode_record(a.take(n))]
        } else {
            Seq::<RecordView>::empty()
        };
        assert(frames_decoded(a + b) =~= first + (frames_decoded(a.skip(n)) + frames_decoded(
            frames_rest(a.skip(n)) + b,
        )));
        assert(frames_decoded(a + b) =~= frames_decoded(a) + frames_decoded(frames_rest(a) + b));
    } else {
        assert(frames_decoded(a) + frames_decoded(a + b) =~= frames_decoded(a + b));
    }
}

/// A frame that the framer cuts under the little-endian reading declares its
/// own length: the byte count of its record is the number of bytes of the
/// frame.
pub proof fn lemma_byte_count_is_frame_length(s: Seq<u8>)
    requires
        has_frame(s),
        plausible_size(le_u32_at(s, 0)),
    ensures
        frame_size(s) == Some(le_u32_at(s, 0)),
        decode_record(s.take(le_u32_at(s, 0))).byte_count == s.take(le_u32_at(s, 0)).len(),
{
}

/// The stream parser.
#[derive(Debug)]
pub struct Parser {}

impl Parser {
    /// A parser. It keeps nothing between two calls.
    pub fn new() -> (parser: Self) {
        Self {  }
    }

    /// Whether `size` can be the length of a frame.
    pub fn is_valid_size(&self, size: usize) -> (ok: bool)
        ensures
            ok == plausible_size(size as int),
    {
        size >= MIN_FRAME && size <= MAX_FRAME
    }

    /// The length of the frame that `data` starts with, or `None` where its
    /// first four bytes give no plausible length in either byte order or
    /// there are fewer than four.
    pub fn get_packet_size(&self, data: &[u8]) -> (size: Option<usize>)
        ensures
            match size {
                Some(n) => frame_size(data@) == Some(n as int),
                None => frame_size(data@) is None,
            },
    {
        if data.len() < 4 {
            return None;
        }
        let d0: u32 = data[0] as u32;
        let d1: u32 = data[1] as u32;
        let d2: u32 = data[2] as u32;
        let d3: u32 = data[3] as u32;
        let little_endian_size: usize = (d0 + 256 * d1 + 65536 * d2 + 16777216 * d3) as usize;
        let big_endian_size: usize = (d3 + 256 * d2 + 65536 * d1 + 16777216 * d0) as usize;
        if self.is_valid_size(little_endian_size) {
            Some(little_endian_size)
        } else if self.is_valid_size(big_endian_size) {
            Some(big_endian_size)
        } else {
            None
        }
    }

    /// Decodes one frame.
    pub fn parse_packet(&self, data: &[u8]) -> (r: Result<RobotDataPacket, DecodeError>)
        ensures
            data@.len() < RECORD_LEN ==> r == Err::<RobotDataPacket, DecodeError>(
                DecodeError::FrameTooShort { len: data@.len() as usize },
            ),
            data@.len() >= RECORD_LEN ==> r is Ok && r->Ok_0@ == decode_record(data@),
    {
        RobotDataPacket::from_bytes(data)
    }

    /// Takes every complete frame off the head of `buffer` and returns the
    /// records of those that decode, in arrival order. A frame that does not
    /// decode is taken off all the same. What stays in `buffer` starts with
    /// no complete frame: it waits for more bytes.
    pub fn process_packets(&self, buffer: &mut Vec<u8>) -> (packets: Vec<RobotDataPacket>)
        ensures
            final(buffer)@ == frames_rest(old(buffer)@),
            records_of(packets@) == frames_decoded(old(buffer)@),
            !has_frame(final(buffer)@),
    {
        proof {
            lemma_rest_has_no_frame(old(buffer)@);
        }
        let mut packets: Vec<RobotDataPacket> = Vec::new();
        let len = buffer.len();
        let mut start: usize = 0;
        assert(buffer@.skip(0) =~= buffer@);
        assert(records_of(packets@) + frames_decoded(buffer@) =~= frames_decoded(buffer@));
        loop
            invariant
                start <= len,
                len == buffer@.len(),
                buffer@ == old(buffer)@,
                frames_rest(old(buffer)@) == frames_rest(buffer@.skip(start as int)),
                frames_decoded(old(buffer)@) == records_of(packets@) + frames_decoded(
                    buffer@.skip(start as int),
                ),
            ensures
                !has_frame(buffer@.skip(start as int)),
            decreases len - start,
        {
            let pending = slice_subrange(buffer.as_slice(), start, len);
            assert(pending@ == buffer@.skip(start as int));
            match self.get_packet_size(pending) {
                Some(packet_size) => {
                    if len - start >= packet_size {
                        let frame = slice_subrange(pending, 0, packet_size);
                        assert(frame@ == pending@.take(packet_size as int));
                        let ghost before = records_of(packets@);
                        match self.parse_packet(frame) {
                            Ok(packet) => {
                                packets.push(packet);
                                assert(records_of(packets@) =~= before + seq![packet@]);
                            },
                            Err(_) => {},
                        }
                        assert(pending@.skip(packet_size as int) == buffer@.skip(
                            start + packet_size,
                        ));
                        start = start + packet_size;
                    } else {
                        break ;
                    }
                },
                None => {
                    break ;
                },
            }
        }
        let rest = buffer.split_off(start);
        *buffer = rest;
        assert(buffer@ == old(buffer)@.skip(start as int));
        packets
    }
}

} // verus!
