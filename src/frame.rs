//! Wire framing: a fixed header of three big-endian 16-bit fields, followed by
//! a payload made of two segments whose lengths the header announces.
use vstd::prelude::*;
use vstd::string::StringSliceAdditionalSpecFns;

verus! {

/// The message type of an entry message, the only one this protocol defines.
pub const MSG_TYPE_ENTRY: u16 = 1;

/// Number of bytes in an encoded header.
pub const HEADER_LEN: usize = 6;

/// The largest length a header can announce for one payload segment.
pub const MAX_SEGMENT_LEN: usize = 65535;

/// The three fields of a header.
#[derive(Clone, Copy, Debug, PartialEq, Eq, Structural)]
pub struct Header {
    pub msg_type: u16,
    pub len_primary: u16,
    pub len_secondary: u16,
}

/// What can go wrong while framing or unframing a message.
#[derive(Clone, Copy, Debug, PartialEq, Eq, Structural)]
pub enum FrameError {
    /// A header read returned some bytes, but fewer than a whole header.
    ShortHeader,
    /// The header names a message type this protocol does not define.
    UnknownType,
    /// The payload read returned fewer bytes than the header announced.
    Truncated,
    /// A payload segment is too long for its 16-bit length field.
    SegmentTooLong,
    /// An event arrived that the receiver's current state does not expect.
    OutOfOrder,
}

/// The high byte of a 16-bit value.
pub open spec fn hi(x: u16) -> u8 {
    (x / 256) as u8
}

/// The low byte of a 16-bit value.
pub open spec fn lo(x: u16) -> u8 {
    (x % 256) as u8
}

/// The 16-bit value whose big-endian bytes are `h` then `l`.
pub open spec fn be16(h: u8, l: u8) -> u16 {
    (h as int * 256 + l as int) as u16
}

/// The bytes of a header on the wire.
pub open spec fn header_bytes(h: Header) -> Seq<u8> {
    seq![
        hi(h.msg_type),
        lo(h.msg_type),
        hi(h.len_primary),
        lo(h.len_primary),
        hi(h.len_secondary),
        lo(h.len_secondary),
    ]
}

/// The header that six bytes on the wire stand for.
pub open spec fn parse_header(b: Seq<u8>) -> Header
    recommends
        b.len() == 6,
{
    Header {
        msg_type: be16(b[0], b[1]),
        len_primary: be16(b[2], b[3]),
        len_secondary: be16(b[4], b[5]),
    }
}

/// Number of payload bytes that a header announces.
pub open spec fn payload_len(h: Header) -> nat {
    h.len_primary as nat + h.len_secondary as nat
}

/// Splitting a 16-bit value into its two bytes and joining them gives it back.
pub proof fn lemma_be16_round_trip(x: u16)
    ensures
        be16(hi(x), lo(x)) == x,
{
    assert(x / 256 < 256);
    assert((x / 256) * 256 + x % 256 == x);
}

/// Decoding the bytes of an encoded header gives back the same header.
pub proof fn lemma_header_round_trip(h: Header)
    ensures
        header_bytes(h).len() == HEADER_LEN,
        parse_header(header_bytes(h)) == h,
{
    lemma_be16_round_trip(h.msg_type);
    lemma_be16_round_trip(h.len_primary);
    lemma_be16_round_trip(h.len_secondary);
}

fn split16(x: u16) -> (r: (u8, u8))
    ensures
        r.0 == hi(x),
        r.1 == lo(x),
{
    ((x / 256) as u8, (x % 256) as u8)
}

fn join16(h: u8, l: u8) -> (r: u16)
    ensures
        r == be16(h, l),
{
    (h as u16) * 256 + (l as u16)
}

impl Header {
    /// The header of an entry message whose segments have the given lengths.
    pub fn entry(len_primary: u16, len_secondary: u16) -> (r: Header)
        ensures
            r == (Header { msg_type: MSG_TYPE_ENTRY, len_primary, len_secondary }),
    {
        Header { msg_type: MSG_TYPE_ENTRY, len_primary, len_secondary }
    }

    /// The header's bytes on the wire, each field big-endian.
    pub fn encode(&self) -> (r: [u8; 6])
        ensures
            r@ == header_bytes(*self),
    {
        let (a, b) = split16(self.msg_type);
        let (c, d) = split16(self.len_primary);
        let (e, f) = split16(self.len_secondary);
        let r = [a, b, c, d, e, f];
        assert(r@ =~= header_bytes(*self));
        r
    }

    /// Number of payload bytes this header announces.
    pub fn payload_len(&self) -> (r: usize)
        ensures
            r == payload_len(*self),
    {
        self.len_primary as usize + self.len_secondary as usize
    }
}

/// Decodes the result of a header read that returned `n` bytes into `buf`.
///
/// No bytes at all is the end of the stream (`Ok(None)`); some bytes but
/// fewer than a whole header is an error, as is a message type other than
/// the entry type.
pub fn decode_header(buf: &[u8; 6], n: usize) -> (r: Result<Option<Header>, FrameError>)
    ensures
        n == 0 ==> r == Ok::<Option<Header>, FrameError>(None),
        0 < n < HEADER_LEN ==> r == Err::<Option<Header>, FrameError>(FrameError::ShortHeader),
        n >= HEADER_LEN && parse_header(buf@).msg_type != MSG_TYPE_ENTRY
            ==> r == Err::<Option<Header>, FrameError>(FrameError::UnknownType),
        n >= HEADER_LEN && parse_header(buf@).msg_type == MSG_TYPE_ENTRY
            ==> r == Ok::<Option<Header>, FrameError>(Some(parse_header(buf@))),
{
    if n == 0 {
        return Ok(None);
    }
    if n < HEADER_LEN {
        return Err(FrameError::ShortHeader);
    }
    let h = Header {
        msg_type: join16(buf[0], buf[1]),
        len_primary: join16(buf[2], buf[3]),
        len_secondary: join16(buf[4], buf[5]),
    };
    if h.msg_type != MSG_TYPE_ENTRY {
        return Err(FrameError::UnknownType);
    }
    Ok(Some(h))
}

/// Checks the result of a payload read against the header that announced it:
/// anything short of the announced length is a truncated message.
pub fn check_payload(h: &Header, n: usize) -> (r: Result<(), FrameError>)
    ensures
        r is Ok <==> n >= payload_len(*h),
        r is Err ==> r == Err::<(), FrameError>(FrameError::Truncated),
{
    if n < h.payload_len() {
        Err(FrameError::Truncated)
    } else {
        Ok(())
    }
}

/// The secondary segment that entry messages carry: a fixed marker, which
/// lets a reader of the stream check that the framing is intact.
pub const MARKER: &'static str = "!*-*-*-*-*-*-*-*-*-*-*!";

/// One framed message, ready to be sent: the header write, then the payload
/// write made of the two segments.
pub struct Frame {
    pub header: [u8; 6],
    pub primary: Vec<u8>,
    pub secondary: Vec<u8>,
}

/// The header that frames the given segments, when both lengths fit in a
/// header field.
pub open spec fn frame_header(primary: Seq<u8>, secondary: Seq<u8>) -> Header {
    Header {
        msg_type: MSG_TYPE_ENTRY,
        len_primary: primary.len() as u16,
        len_secondary: secondary.len() as u16,
    }
}

/// The marker is plain ASCII, one byte per character.
pub proof fn lemma_marker_bytes()
    ensures
        MARKER.spec_bytes().len() == 23,
{
    reveal_strlit("!*-*-*-*-*-*-*-*-*-*-*!");
    assert(vstd::string::is_ascii(MARKER));
    vstd::string::is_ascii_spec_bytes(MARKER);
}

/// The bytes of the marker segment.
pub fn marker_segment() -> (r: Vec<u8>)
    ensures
        r@ == MARKER.spec_bytes(),
{
    vstd::slice::slice_to_vec(MARKER.as_bytes())
}

/// Frames an entry message with the given segments.
///
/// Fails exactly when a segment is longer than a header field can announce.
pub fn encode_message(primary: Vec<u8>, secondary: Vec<u8>) -> (r: Result<Frame, FrameError>)
    ensures
        r is Err <==> (primary@.len() > MAX_SEGMENT_LEN || secondary@.len() > MAX_SEGMENT_LEN),
        r is Err ==> r->Err_0 == FrameError::SegmentTooLong,
        r is Ok ==> ({
            let f = r->Ok_0;
            &&& f.header@ == header_bytes(frame_header(primary@, secondary@))
            &&& f.primary@ == primary@
            &&& f.secondary@ == secondary@
            &&& parse_header(f.header@).len_primary == primary@.len()
            &&& parse_header(f.header@).len_secondary == secondary@.len()
            &&& parse_header(f.header@).msg_type == MSG_TYPE_ENTRY
        }),
{
    if primary.len() > MAX_SEGMENT_LEN || secondary.len() > MAX_SEGMENT_LEN {
        return Err(FrameError::SegmentTooLong);
    }
    let h = Header::entry(primary.len() as u16, secondary.len() as u16);
    proof {
        lemma_header_round_trip(h);
    }
    let header = h.encode();
    Ok(Frame { header, primary, secondary })
}

/// Frames an entry message whose primary segment is the serialized metadata
/// and whose secondary segment is the marker.
pub fn encode_entry(meta_bytes: Vec<u8>) -> (r: Result<Frame, FrameError>)
    ensures
        r is Err <==> meta_bytes@.len() > MAX_SEGMENT_LEN,
        r is Err ==> r->Err_0 == FrameError::SegmentTooLong,
        r is Ok ==> ({
            let f = r->Ok_0;
            &&& f.header@ == header_bytes(frame_header(meta_bytes@, MARKER.spec_bytes()))
            &&& f.primary@ == meta_bytes@
            &&& f.secondary@ == MARKER.spec_bytes()
        }),
{
    let marker = marker_segment();
    proof {
        lemma_marker_bytes();
    }
    encode_message(meta_bytes, marker)
}

} // verus!
