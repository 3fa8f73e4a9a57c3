//! Streaming parser for the recorder's inbound container, the tag classifier
//! and the cache of the tags that every new segment starts with.

use vstd::prelude::*;

verus! {

/// Length of the stream header together with the zero size field after it.
pub const FLV_HEADER_LEN: usize = 13;

/// Length of the fixed part in front of a tag's payload.
pub const TAG_HEADER_LEN: usize = 11;

/// Length of the size field that closes a tag.
pub const TAG_TRAILER_LEN: usize = 4;

/// Tag type of audio data.
pub const TAG_AUDIO: u8 = 8;

/// Tag type of video data.
pub const TAG_VIDEO: u8 = 9;

/// Tag type of script data.
pub const TAG_SCRIPT: u8 = 18;

/// Why the parser refused its input.
#[derive(Clone, Copy, Debug, PartialEq, Eq, Structural)]
pub enum FlvError {
    /// The stream does not start with the container's signature.
    HeaderMismatch,
    /// A preamble was asked for before any stream header was seen.
    MissingHeader,
}

/// Three bytes read as a big-endian number.
pub open spec fn u24_be(b0: u8, b1: u8, b2: u8) -> nat {
    (b0 as nat) * 65536 + (b1 as nat) * 256 + (b2 as nat)
}

/// The number in the first three bytes of `s`, or 0 where `s` is shorter.
pub open spec fn u24_prefix(s: Seq<u8>) -> nat {
    if s.len() < 3 {
        0
    } else {
        u24_be(s[0], s[1], s[2])
    }
}

/// Whether `buf` starts with the three signature bytes `F`, `L`, `V`.
pub open spec fn has_signature(buf: Seq<u8>) -> bool {
    buf.len() >= 3 && buf[0] == 0x46 && buf[1] == 0x4C && buf[2] == 0x56
}

/// Whether `header` is a stream header as the parser hands it out.
pub open spec fn is_stream_header(header: Seq<u8>) -> bool {
    header.len() == FLV_HEADER_LEN && has_signature(header)
}

/// Length of the frame whose tag header starts at `at`: tag header, the
/// declared payload, and the trailing size field.
pub open spec fn frame_size(buf: Seq<u8>, at: int) -> int {
    TAG_HEADER_LEN + u24_be(buf[at + 1], buf[at + 2], buf[at + 3]) + TAG_TRAILER_LEN
}

/// Whether a whole frame lies in `buf` from `at` on.
pub open spec fn frame_ready(buf: Seq<u8>, at: int) -> bool {
    &&& 0 <= at
    &&& at + TAG_HEADER_LEN <= buf.len()
    &&& at + frame_size(buf, at) <= buf.len()
}

/// The whole frames that lie back to back in `buf` from `at` on.
pub open spec fn frames_from(buf: Seq<u8>, at: int) -> Seq<Seq<u8>>
    decreases buf.len() - at,
{
    if frame_ready(buf, at) {
        seq![buf.subrange(at, at + frame_size(buf, at))] + frames_from(
            buf,
            at + frame_size(buf, at),
        )
    } else {
        seq![]
    }
}

/// The offset behind the last whole frame counted from `at`.
pub open spec fn frames_end(buf: Seq<u8>, at: int) -> int
    decreases buf.len() - at,
{
    if frame_ready(buf, at) {
        frames_end(buf, at + frame_size(buf, at))
    } else {
        at
    }
}

/// One media tag with its framing: `bytes` is the whole frame.
#[derive(Debug)]
pub struct FlvTag {
    pub tag_type: u8,
    pub bytes: Vec<u8>,
    pub data_offset: usize,
    pub data_len: usize,
}

/// What a tag is, as plain values.
pub struct TagSpec {
    pub tag_type: u8,
    pub bytes: Seq<u8>,
    pub data_offset: nat,
    pub data_len: nat,
}

impl View for FlvTag {
    type V = TagSpec;

    open spec fn view(&self) -> TagSpec {
        TagSpec {
            tag_type: self.tag_type,
            bytes: self.bytes@,
            data_offset: self.data_offset as nat,
            data_len: self.data_len as nat,
        }
    }
}

impl TagSpec {
    /// Whether the payload range lies inside the frame.
    pub open spec fn in_bounds(self) -> bool {
        self.data_offset + self.data_len <= self.bytes.len()
    }

    /// The payload of the tag.
    pub open spec fn payload(self) -> Seq<u8> {
        self.bytes.subrange(self.data_offset as int, (self.data_offset + self.data_len) as int)
    }

    /// Whether the tag is a video tag whose frame type is 1 (a keyframe).
    pub open spec fn is_keyframe(self) -> bool {
        self.tag_type == TAG_VIDEO && self.data_len > 0 && self.payload()[0] / 16 == 1
    }

    /// The 32-bit timestamp of the tag: byte 7 is the most significant, then
    /// bytes 4, 5 and 6. Zero where the frame is shorter than eight bytes.
    pub open spec fn timestamp(self) -> nat {
        if self.bytes.len() < 8 {
            0
        } else {
            (self.bytes[7] as nat) * 16777216 + (self.bytes[4] as nat) * 65536 + (
            self.bytes[5] as nat) * 256 + (self.bytes[6] as nat)
        }
    }
}

/// The tag that a frame holds.
pub open spec fn tag_of_frame(frame: Seq<u8>) -> TagSpec {
    TagSpec {
        tag_type: frame[0],
        bytes: frame,
        data_offset: TAG_HEADER_LEN as nat,
        data_len: (frame.len() - TAG_HEADER_LEN - TAG_TRAILER_LEN) as nat,
    }
}

/// Whether audio payload `data` carries the codec configuration: for sound
/// format 10 a payload whose second byte is 0, for other formats the first
/// audio tag seen.
pub open spec fn audio_config(data: Seq<u8>, has_header: bool) -> bool {
    if data.len() < 2 {
        false
    } else if data[0] / 16 == 10 {
        data[1] == 0
    } else {
        !has_header
    }
}

/// Whether video payload `data` carries the codec configuration: for codec 7
/// or 12 a payload of packet type 0, for other codecs the first video tag
/// seen.
pub open spec fn video_config(data: Seq<u8>, has_header: bool) -> bool {
    if data.len() < 2 {
        false
    } else if data[0] % 16 == 7 || data[0] % 16 == 12 {
        data[1] == 0
    } else {
        !has_header
    }
}

/// `tag` with its four timestamp bytes (positions 4 to 7) set to zero; a
/// frame shorter than a tag header is left as it is.
pub open spec fn normalized(tag: Seq<u8>) -> Seq<u8> {
    if tag.len() >= TAG_HEADER_LEN {
        tag.update(4, 0u8).update(5, 0u8).update(6, 0u8).update(7, 0u8)
    } else {
        tag
    }
}

/// Whether the timestamp bytes of a frame are all zero.
pub open spec fn timestamp_cleared(tag: Seq<u8>) -> bool {
    tag.len() >= TAG_HEADER_LEN ==> tag[4] == 0 && tag[5] == 0 && tag[6] == 0 && tag[7] == 0
}

/// Reads the first three bytes of `slice` as a big-endian number. A shorter
/// slice reads as 0.
pub fn read_u24_be(slice: &[u8]) -> (r: usize)
    ensures
        r == u24_prefix(slice@),
        r < 16777216,
{
    if slice.len() < 3 {
        return 0;
    }
    (slice[0] as usize) * 65536 + (slice[1] as usize) * 256 + (slice[2] as usize)
}

/// Copies `src[from..to]` into a new vector.
pub fn copy_range(src: &[u8], from: usize, to: usize) -> (out: Vec<u8>)
    requires
        from <= to <= src.len(),
    ensures
        out@ == src@.subrange(from as int, to as int),
{
    let mut out: Vec<u8> = Vec::new();
    let mut i = from;
    while i < to
        invariant
            from <= i <= to <= src.len(),
            out@ == src@.subrange(from as int, i as int),
        decreases to - i,
    {
        out.push(src[i]);
        assert(out@ =~= src@.subrange(from as int, i + 1));
        i += 1;
    }
    out
}

impl FlvTag {
    /// The tag that the frame `bytes` holds, or `None` where `bytes` is too
    /// short to be a frame or its declared payload length does not match.
    pub fn from_frame(bytes: Vec<u8>) -> (r: Option<FlvTag>)
        ensures
            match r {
                Some(tag) => tag@ == tag_of_frame(bytes@) && frame_ready(bytes@, 0) && frame_size(
                    bytes@,
                    0,
                ) == bytes.len(),
                None => !(frame_ready(bytes@, 0) && frame_size(bytes@, 0) == bytes.len()),
            },
    {
        let n = bytes.len();
        if n < TAG_HEADER_LEN + TAG_TRAILER_LEN {
            return None;
        }
        let declared = (bytes[1] as usize) * 65536 + (bytes[2] as usize) * 256 + (
        bytes[3] as usize);
        if declared != n - TAG_HEADER_LEN - TAG_TRAILER_LEN {
            return None;
        }
        let tag_type = bytes[0];
        Some(FlvTag { tag_type, bytes, data_offset: TAG_HEADER_LEN, data_len: declared })
    }

    /// The payload of the tag.
    pub fn data(&self) -> (r: &[u8])
        requires
            self@.in_bounds(),
        ensures
            r@ == self@.payload(),
    {
        let frame_len = self.bytes.len();
        assert(self.data_offset + self.data_len <= frame_len);
        let s = self.bytes.as_slice();
        &s[self.data_offset..self.data_offset + self.data_len]
    }
}

/// Whether `tag` is a video keyframe: type 9 and a first payload byte whose
/// high nibble is 1.
pub fn is_video_keyframe(tag: &FlvTag) -> (r: bool)
    requires
        tag@.in_bounds(),
    ensures
        r == tag@.is_keyframe(),
{
    if tag.tag_type != TAG_VIDEO {
        return false;
    }
    let data = tag.data();
    if data.len() == 0 {
        return false;
    }
    data[0] / 16 == 1
}

/// Whether an audio payload is the codec configuration.
pub fn is_audio_header(data: &[u8], has_header: bool) -> (r: bool)
    ensures
        r == audio_config(data@, has_header),
{
    if data.len() < 2 {
        return false;
    }
    let sound_format = data[0] / 16;
    if sound_format == 10 {
        data[1] == 0
    } else {
        !has_header
    }
}

/// Whether a video payload is the codec configuration.
pub fn is_video_header(data: &[u8], has_header: bool) -> (r: bool)
    ensures
        r == video_config(data@, has_header),
{
    if data.len() < 2 {
        return false;
    }
    let codec_id = data[0] % 16;
    let packet_type = data[1];
    if codec_id == 7 || codec_id == 12 {
        packet_type == 0
    } else {
        !has_header
    }
}

/// The timestamp of `tag`.
pub fn parse_flv_timestamp(tag: &FlvTag) -> (r: u32)
    ensures
        r == tag@.timestamp(),
{
    if tag.bytes.len() < 8 {
        return 0;
    }
    (tag.bytes[7] as u32) * 16777216 + (tag.bytes[4] as u32) * 65536 + (tag.bytes[5] as u32)
        * 256 + (tag.bytes[6] as u32)
}

/// A copy of `tag` with its timestamp bytes zeroed.
pub fn normalize_header_tag(tag: &[u8]) -> (r: Vec<u8>)
    ensures
        r@ == normalized(tag@),
        timestamp_cleared(r@),
        r@.len() == tag@.len(),
{
    let mut out = copy_range(tag, 0, tag.len());
    assert(out@ =~= tag@);
    if out.len() >= TAG_HEADER_LEN {
        out.set(4, 0);
        out.set(5, 0);
        out.set(6, 0);
        out.set(7, 0);
    }
    out
}

/// One event of the parser: the stream header, or a whole tag.
#[derive(Debug)]
pub enum FlvParsedItem {
    Header(Vec<u8>),
    Tag(FlvTag),
}

/// One event of the parser, as plain values.
pub enum FlvEvent {
    Header(Seq<u8>),
    Tag(TagSpec),
}

impl View for FlvParsedItem {
    type V = FlvEvent;

    open spec fn view(&self) -> FlvEvent {
        match self {
            FlvParsedItem::Header(bytes) => FlvEvent::Header(bytes@),
            FlvParsedItem::Tag(tag) => FlvEvent::Tag(tag@),
        }
    }
}

/// The events that a list of items stands for.
pub open spec fn events_of(items: Seq<FlvParsedItem>) -> Seq<FlvEvent> {
    items.map_values(|item: FlvParsedItem| item@)
}

/// The tag events of the whole frames in `buf` from `at` on.
pub open spec fn tag_events(buf: Seq<u8>, at: int) -> Seq<FlvEvent> {
    frames_from(buf, at).map_values(|frame: Seq<u8>| FlvEvent::Tag(tag_of_frame(frame)))
}

/// The parser's state: the bytes not yet consumed, and whether the stream
/// header has been handed out.
pub struct ParserSpec {
    pub buffer: Seq<u8>,
    pub header_parsed: bool,
}

/// What one push does: the events it yields, or the error, and the state
/// that it leaves.
pub struct PushOutcome {
    pub events: Result<Seq<FlvEvent>, FlvError>,
    pub next: ParserSpec,
}

/// The outcome of pushing `data` into a parser in state `s`.
///
/// Nothing is yielded before a whole unit is buffered: three bytes to check
/// the signature, thirteen for the header, a whole frame for a tag. What is
/// left over stays buffered.
pub open spec fn push_outcome(s: ParserSpec, data: Seq<u8>) -> PushOutcome {
    let buf = s.buffer + data;
    if s.header_parsed {
        PushOutcome {
            events: Ok(tag_events(buf, 0)),
            next: ParserSpec { buffer: buf.skip(frames_end(buf, 0)), header_parsed: true },
        }
    } else if buf.len() < 3 {
        PushOutcome {
            events: Ok(Seq::empty()),
            next: ParserSpec { buffer: buf, header_parsed: false },
        }
    } else if !has_signature(buf) {
        PushOutcome {
            events: Err(FlvError::HeaderMismatch),
            next: ParserSpec { buffer: buf, header_parsed: false },
        }
    } else if buf.len() < FLV_HEADER_LEN {
        PushOutcome {
            events: Ok(Seq::empty()),
            next: ParserSpec { buffer: buf, header_parsed: false },
        }
    } else {
        PushOutcome {
            events: Ok(
                seq![FlvEvent::Header(buf.take(FLV_HEADER_LEN as int))] + tag_events(
                    buf,
                    FLV_HEADER_LEN as int,
                ),
            ),
            next: ParserSpec {
                buffer: buf.skip(frames_end(buf, FLV_HEADER_LEN as int)),
                header_parsed: true,
            },
        }
    }
}

/// Streaming parser: bytes go in as they arrive, whole events come out.
pub struct FlvStreamParser {
    pub buffer: Vec<u8>,
    pub header_parsed: bool,
}

impl View for FlvStreamParser {
    type V = ParserSpec;

    open spec fn view(&self) -> ParserSpec {
        ParserSpec { buffer: self.buffer@, header_parsed: self.header_parsed }
    }
}

/// The frames end inside the buffer, at or behind where they start.
pub proof fn lemma_frames_end_bounds(buf: Seq<u8>, at: int)
    requires
        0 <= at <= buf.len(),
    ensures
        at <= frames_end(buf, at) <= buf.len(),
        !frame_ready(buf, frames_end(buf, at)),
    decreases buf.len() - at,
{
    if frame_ready(buf, at) {
        lemma_frames_end_bounds(buf, at + frame_size(buf, at));
    }
}

/// Every frame found is a whole frame by itself.
pub proof fn lemma_frames_whole(buf: Seq<u8>, at: int)
    requires
        0 <= at <= buf.len(),
    ensures
        forall|i: int|
            0 <= i < frames_from(buf, at).len() ==> {
                let f = #[trigger] frames_from(buf, at)[i];
                frame_ready(f, 0) && frame_size(f, 0) == f.len()
            },
    decreases buf.len() - at,
{
    if frame_ready(buf, at) {
        let size = frame_size(buf, at);
        let first = buf.subrange(at, at + size);
        assert(first[1] == buf[at + 1] && first[2] == buf[at + 2] && first[3] == buf[at + 3]);
        lemma_frames_whole(buf, at + size);
        let rest = frames_from(buf, at + size);
        assert forall|i: int| 0 <= i < frames_from(buf, at).len() implies {
            let f = #[trigger] frames_from(buf, at)[i];
            frame_ready(f, 0) && frame_size(f, 0) == f.len()
        } by {
            if i > 0 {
                assert(frames_from(buf, at)[i] == rest[i - 1]);
            }
        }
    }
}

/// Whole frames found in a buffer are found again when more bytes follow,
/// and the search goes on where it stopped.
pub proof fn lemma_frames_extend(buf: Seq<u8>, extra: Seq<u8>, at: int)
    requires
        0 <= at <= buf.len(),
    ensures
        frames_from(buf + extra, at) == frames_from(buf, at) + frames_from(
            buf + extra,
            frames_end(buf, at),
        ),
        frames_end(buf + extra, at) == frames_end(buf + extra, frames_end(buf, at)),
    decreases buf.len() - at,
{
    let full = buf + extra;
    if frame_ready(buf, at) {
        let size = frame_size(buf, at);
        assert(full[at + 1] == buf[at + 1] && full[at + 2] == buf[at + 2] && full[at + 3] == buf[at
            + 3]);
        assert(frame_ready(full, at) && frame_size(full, at) == size);
        assert(full.subrange(at, at + size) =~= buf.subrange(at, at + size));
        lemma_frames_extend(buf, extra, at + size);
        assert(frames_from(full, at) =~= frames_from(buf, at) + frames_from(
            full,
            frames_end(buf, at),
        ));
    } else {
        assert(frames_from(full, at) =~= frames_from(buf, at) + frames_from(full, at));
    }
}

/// Dropping the bytes in front of an offset shifts the frames with them.
pub proof fn lemma_frames_shift(buf: Seq<u8>, cut: int, at: int)
    requires
        0 <= cut <= buf.len(),
        0 <= at <= buf.len() - cut,
    ensures
        frames_from(buf.skip(cut), at) == frames_from(buf, cut + at),
        frames_end(buf.skip(cut), at) + cut == frames_end(buf, cut + at),
    decreases buf.len() - cut - at,
{
    let tail = buf.skip(cut);
    if at + TAG_HEADER_LEN <= tail.len() {
        assert(tail[at + 1] == buf[cut + at + 1] && tail[at + 2] == buf[cut + at + 2] && tail[at
            + 3] == buf[cut + at + 3]);
    }
    if frame_ready(tail, at) {
        let size = frame_size(tail, at);
        assert(frame_ready(buf, cut + at) && frame_size(buf, cut + at) == size);
        assert(tail.subrange(at, at + size) =~= buf.subrange(cut + at, cut + at + size));
        lemma_frames_shift(buf, cut, at + size);
    } else {
        assert(!frame_ready(buf, cut + at));
    }
}

/// What two pushes yield one after the other: the first error, or the events
/// of both in order.
pub open spec fn joined(
    first: Result<Seq<FlvEvent>, FlvError>,
    second: Result<Seq<FlvEvent>, FlvError>,
) -> Result<Seq<FlvEvent>, FlvError> {
    match first {
        Err(e) => Err(e),
        Ok(x) => match second {
            Err(e) => Err(e),
            Ok(y) => Ok(x + y),
        },
    }
}

/// The frames of a buffer that grew by `more`, counted from `start`, are the
/// frames that were whole before and then those of the left-over bytes
/// followed by `more`.
pub proof fn lemma_frames_resume(buf: Seq<u8>, more: Seq<u8>, start: int)
    requires
        0 <= start <= buf.len(),
    ensures
        tag_events(buf + more, start) == tag_events(buf, start) + tag_events(
            buf.skip(frames_end(buf, start)) + more,
            0,
        ),
        (buf + more).skip(frames_end(buf + more, start)) == (buf.skip(frames_end(buf, start))
            + more).skip(frames_end(buf.skip(frames_end(buf, start)) + more, 0)),
{
    let full = buf + more;
    let end = frames_end(buf, start);
    let rest = buf.skip(end) + more;
    lemma_frames_end_bounds(buf, start);
    lemma_frames_extend(buf, more, start);
    lemma_frames_shift(full, end, 0);
    assert(full.skip(end) =~= rest);
    lemma_frames_end_bounds(rest, 0);
    assert(frames_end(full, start) == end + frames_end(rest, 0));
    assert(full.skip(frames_end(full, start)) =~= rest.skip(frames_end(rest, 0)));
    assert(frames_from(full, start) == frames_from(buf, start) + frames_from(rest, 0));
    assert(tag_events(full, start) =~= tag_events(buf, start) + tag_events(rest, 0));
}

/// However the stream is cut into pushes, the parser yields the same events
/// and keeps the same bytes: pushing `a` and then `b` is pushing `a + b`.
pub proof fn lemma_push_chunking(s: ParserSpec, a: Seq<u8>, b: Seq<u8>)
    ensures
        push_outcome(push_outcome(s, a).next, b).next == push_outcome(s, a + b).next,
        joined(push_outcome(s, a).events, push_outcome(push_outcome(s, a).next, b).events)
            == push_outcome(s, a + b).events,
{
    let first = push_outcome(s, a);
    let second = push_outcome(first.next, b);
    let whole = push_outcome(s, a + b);
    let buf1 = s.buffer + a;
    let full = s.buffer + (a + b);
    assert(full =~= buf1 + b);
    if s.header_parsed {
        lemma_frames_resume(buf1, b, 0);
    } else if buf1.len() < 3 || !has_signature(buf1) || buf1.len() < FLV_HEADER_LEN {
        assert(first.next.buffer + b == full);
        if buf1.len() >= 3 {
            assert(full[0] == buf1[0] && full[1] == buf1[1] && full[2] == buf1[2]);
        }
        if first.events is Ok {
            assert(first.events->Ok_0 =~= Seq::<FlvEvent>::empty());
            if second.events is Ok {
                assert(Seq::<FlvEvent>::empty() + second.events->Ok_0 =~= second.events->Ok_0);
            }
        }
    } else {
        let start = FLV_HEADER_LEN as int;
        assert(full[0] == buf1[0] && full[1] == buf1[1] && full[2] == buf1[2]);
        lemma_frames_resume(buf1, b, start);
        let header = seq![FlvEvent::Header(buf1.take(start))];
        assert(full.take(start) =~= buf1.take(start));
        let rest = buf1.skip(frames_end(buf1, start)) + b;
        assert(header + (tag_events(buf1, start) + tag_events(rest, 0)) =~= (header + tag_events(
            buf1,
            start,
        )) + tag_events(rest, 0));
    }
}

impl FlvStreamParser {
    /// A parser that has seen nothing yet.
    pub fn new() -> (r: FlvStreamParser)
        ensures
            r@.buffer == Seq::<u8>::empty(),
            !r@.header_parsed,
    {
        FlvStreamParser { buffer: Vec::new(), header_parsed: false }
    }

    /// Takes the next bytes of the stream and yields the events that are now
    /// complete. A stream that does not start with the signature is refused,
    /// on this push and on every later one.
    pub fn push(&mut self, data: &[u8]) -> (r: Result<Vec<FlvParsedItem>, FlvError>)
        ensures
            final(self)@ == push_outcome(old(self)@, data@).next,
            match r {
                Ok(items) => push_outcome(old(self)@, data@).events == Ok::<
                    Seq<FlvEvent>,
                    FlvError,
                >(events_of(items@)),
                Err(e) => push_outcome(old(self)@, data@).events == Err::<Seq<FlvEvent>, FlvError>(
                    e,
                ),
            },
    {
        let ghost before = self@;
        let mut k: usize = 0;
        while k < data.len()
            invariant
                k <= data.len(),
                self.buffer@ == before.buffer + data@.take(k as int),
                self.header_parsed == before.header_parsed,
            decreases data.len() - k,
        {
            self.buffer.push(data[k]);
            assert(self.buffer@ =~= before.buffer + data@.take(k + 1));
            k += 1;
        }
        assert(data@.take(data.len() as int) =~= data@);
        let ghost buf = self.buffer@;
        let mut items: Vec<FlvParsedItem> = Vec::new();
        let mut offset: usize = 0;
        if !self.header_parsed {
            if self.buffer.len() < 3 {
                assert(events_of(items@) =~= Seq::<FlvEvent>::empty());
                return Ok(items);
            }
            if !(self.buffer[0] == 0x46 && self.buffer[1] == 0x4C && self.buffer[2] == 0x56) {
                return Err(FlvError::HeaderMismatch);
            }
            if self.buffer.len() < FLV_HEADER_LEN {
                assert(events_of(items@) =~= Seq::<FlvEvent>::empty());
                return Ok(items);
            }
            let header = copy_range(self.buffer.as_slice(), 0, FLV_HEADER_LEN);
            assert(header@ =~= buf.take(FLV_HEADER_LEN as int));
            offset = FLV_HEADER_LEN;
            self.header_parsed = true;
            items.push(FlvParsedItem::Header(header));
        }
        let ghost start = offset as int;
        let ghost head = events_of(items@);
        assert(head =~= if before.header_parsed {
            Seq::<FlvEvent>::empty()
        } else {
            seq![FlvEvent::Header(buf.take(FLV_HEADER_LEN as int))]
        });
        loop
            invariant
                self.buffer@ == buf,
                self.header_parsed,
                start <= offset <= buf.len(),
                events_of(items@) + tag_events(buf, offset as int) == head + tag_events(
                    buf,
                    start,
                ),
                frames_end(buf, offset as int) == frames_end(buf, start),
            ensures
                !frame_ready(buf, offset as int),
            decreases buf.len() - offset,
        {
            if self.buffer.len() - offset < TAG_HEADER_LEN {
                break;
            }
            let data_size = (self.buffer[offset + 1] as usize) * 65536 + (self.buffer[offset
                + 2] as usize) * 256 + (self.buffer[offset + 3] as usize);
            let total = TAG_HEADER_LEN + data_size + TAG_TRAILER_LEN;
            if self.buffer.len() - offset < total {
                break;
            }
            assert(frame_ready(buf, offset as int));
            assert(frame_size(buf, offset as int) == total);
            let bytes = copy_range(self.buffer.as_slice(), offset, offset + total);
            let tag_type = bytes[0];
            let tag = FlvTag { tag_type, bytes, data_offset: TAG_HEADER_LEN, data_len: data_size };
            assert(tag@ == tag_of_frame(buf.subrange(offset as int, offset + total)));
            let ghost prev = items@;
            items.push(FlvParsedItem::Tag(tag));
            proof {
                let frame = buf.subrange(offset as int, offset + total);
                let rest = frames_from(buf, offset + total);
                assert(frames_from(buf, offset as int) == seq![frame] + rest);
                assert(tag_events(buf, offset as int) =~= seq![FlvEvent::Tag(tag_of_frame(frame))]
                    + tag_events(buf, offset + total));
                assert(events_of(items@) =~= events_of(prev).push(FlvEvent::Tag(tag@)));
                assert(events_of(items@) + tag_events(buf, offset + total) =~= events_of(prev)
                    + tag_events(buf, offset as int));
            }
            offset += total;
        }
        proof {
            assert(!frame_ready(buf, offset as int));
            assert(tag_events(buf, offset as int) =~= Seq::<FlvEvent>::empty());
            assert(events_of(items@) =~= head + tag_events(buf, start));
            assert(frames_end(buf, start) == offset);
        }
        if offset > 0 {
            let rest = self.buffer.split_off(offset);
            self.buffer = rest;
        }
        assert(self.buffer@ =~= buf.skip(offset as int));
        Ok(items)
    }
}

/// The tags that every new segment starts with: the stream header, the
/// most recent script tag, and the most recent tags that carry the codec
/// configuration of audio and video. The two configuration tags are kept
/// with their timestamps zeroed; that is an invariant of the type.
pub struct FlvHeaderCache {
    header: Option<Vec<u8>>,
    script_tag: Option<Vec<u8>>,
    audio_header: Option<Vec<u8>>,
    video_header: Option<Vec<u8>>,
}

/// The bytes of an optional vector, as an optional sequence.
pub open spec fn opt_bytes(v: Option<Vec<u8>>) -> Option<Seq<u8>> {
    match v {
        Some(bytes) => Some(bytes@),
        None => None,
    }
}

/// The cache as plain values.
pub struct CacheSpec {
    pub header: Option<Seq<u8>>,
    pub script_tag: Option<Seq<u8>>,
    pub audio_header: Option<Seq<u8>>,
    pub video_header: Option<Seq<u8>>,
}

impl View for FlvHeaderCache {
    type V = CacheSpec;

    closed spec fn view(&self) -> CacheSpec {
        CacheSpec {
            header: opt_bytes(self.header),
            script_tag: opt_bytes(self.script_tag),
            audio_header: opt_bytes(self.audio_header),
            video_header: opt_bytes(self.video_header),
        }
    }
}

/// The bytes of an optional sequence, or nothing.
pub open spec fn seq_or_empty(v: Option<Seq<u8>>) -> Seq<u8> {
    match v {
        Some(bytes) => bytes,
        None => Seq::empty(),
    }
}

impl CacheSpec {
    /// The cache after it has looked at `tag`: a script tag replaces the kept
    /// one as it is; an audio or video tag replaces the kept one where it
    /// carries the codec configuration, and is kept with its timestamp
    /// zeroed. Any other tag changes nothing.
    pub open spec fn updated(self, tag: TagSpec) -> CacheSpec {
        if tag.tag_type == TAG_SCRIPT {
            CacheSpec { script_tag: Some(tag.bytes), ..self }
        } else if tag.tag_type == TAG_AUDIO {
            if audio_config(tag.payload(), self.audio_header is Some) {
                CacheSpec { audio_header: Some(normalized(tag.bytes)), ..self }
            } else {
                self
            }
        } else if tag.tag_type == TAG_VIDEO {
            if video_config(tag.payload(), self.video_header is Some) {
                CacheSpec { video_header: Some(normalized(tag.bytes)), ..self }
            } else {
                self
            }
        } else {
            self
        }
    }

    /// What a new segment starts with: the stream header, then the script
    /// tag, the video configuration and the audio configuration, as far as
    /// they are known.
    pub open spec fn preamble(self) -> Seq<u8> {
        seq_or_empty(self.header) + seq_or_empty(self.script_tag) + seq_or_empty(
            self.video_header,
        ) + seq_or_empty(self.audio_header)
    }

    /// Whether the kept codec configuration tags have their timestamps
    /// zeroed.
    pub open spec fn tags_cleared(self) -> bool {
        &&& timestamp_cleared(seq_or_empty(self.video_header))
        &&& timestamp_cleared(seq_or_empty(self.audio_header))
    }
}

impl FlvHeaderCache {
    #[verifier::type_invariant]
    spec fn codec_tags_cleared(self) -> bool {
        self@.tags_cleared()
    }
}

impl FlvHeaderCache {
    /// An empty cache.
    pub fn new() -> (r: FlvHeaderCache)
        ensures
            r@ == (CacheSpec {
                header: None,
                script_tag: None,
                audio_header: None,
                video_header: None,
            }),
            r@.tags_cleared(),
    {
        FlvHeaderCache { header: None, script_tag: None, audio_header: None, video_header: None }
    }

    /// Keeps `header` as the stream header.
    pub fn set_header(&mut self, header: Vec<u8>)
        ensures
            final(self)@ == (CacheSpec { header: Some(header@), ..old(self)@ }),
            final(self)@.tags_cleared(),
    {
        proof {
            use_type_invariant(&*self);
        }
        self.header = Some(header);
    }

    /// Whether a stream header is known.
    pub fn has_header(&self) -> (r: bool)
        ensures
            r == (self@.header is Some),
    {
        self.header.is_some()
    }

    /// Looks at `tag` and keeps it where it is one of the tags that a new
    /// segment starts with.
    pub fn update_from_tag(&mut self, tag: &FlvTag)
        requires
            tag@.in_bounds(),
        ensures
            final(self)@ == old(self)@.updated(tag@),
            final(self)@.tags_cleared(),
    {
        proof {
            use_type_invariant(&*self);
        }
        if tag.tag_type == TAG_SCRIPT {
            let kept = copy_range(tag.bytes.as_slice(), 0, tag.bytes.len());
            assert(kept@ =~= tag.bytes@);
            self.script_tag = Some(kept);
        } else if tag.tag_type == TAG_AUDIO {
            if is_audio_header(tag.data(), self.audio_header.is_some()) {
                self.audio_header = Some(normalize_header_tag(tag.bytes.as_slice()));
            }
        } else if tag.tag_type == TAG_VIDEO {
            if is_video_header(tag.data(), self.video_header.is_some()) {
                self.video_header = Some(normalize_header_tag(tag.bytes.as_slice()));
            }
        }
    }

    /// The bytes that open a new segment: the stream header, the script
    /// tag, the video configuration and the audio configuration, the two
    /// configuration tags with their timestamps zeroed; or `MissingHeader`
    /// where no stream header is known yet.
    pub fn write_preamble(&self) -> (r: Result<Vec<u8>, FlvError>)
        ensures
            match r {
                Ok(bytes) => self@.header is Some && bytes@ == self@.preamble(),
                Err(e) => self@.header is None && e == FlvError::MissingHeader,
            },
            self@.tags_cleared(),
    {
        proof {
            use_type_invariant(self);
        }
        let mut out: Vec<u8> = Vec::new();
        match &self.header {
            Some(header) => {
                append_bytes(&mut out, header);
            },
            None => {
                return Err(FlvError::MissingHeader);
            },
        }
        if let Some(tag) = &self.script_tag {
            append_bytes(&mut out, tag);
        }
        if let Some(tag) = &self.video_header {
            append_bytes(&mut out, tag);
        }
        if let Some(tag) = &self.audio_header {
            append_bytes(&mut out, tag);
        }
        assert(out@ =~= self@.preamble());
        Ok(out)
    }
}

/// Appends the bytes of `more` to `out`.
pub fn append_bytes(out: &mut Vec<u8>, more: &Vec<u8>)
    ensures
        final(out)@ == old(out)@ + more@,
{
    let mut i: usize = 0;
    while i < more.len()
        invariant
            i <= more.len(),
            out@ == old(out)@ + more@.take(i as int),
        decreases more.len() - i,
    {
        out.push(more[i]);
        assert(out@ =~= old(out)@ + more@.take(i + 1));
        i += 1;
    }
    assert(more@.take(more.len() as int) =~= more@);
}

/// The stream header that the parser hands out is thirteen bytes long and
/// begins with the signature; it is handed out once, in front of all tags.
pub proof fn lemma_header_event_is_valid(s: ParserSpec, data: Seq<u8>)
    ensures
        match push_outcome(s, data).events {
            Ok(events) => forall|i: int|
                0 <= i < events.len() ==> match #[trigger] events[i] {
                    FlvEvent::Header(header) => i == 0 && !s.header_parsed && is_stream_header(
                        header,
                    ),
                    FlvEvent::Tag(_) => true,
                },
            Err(_) => true,
        },
{
    let buf = s.buffer + data;
    match push_outcome(s, data).events {
        Ok(events) => {
            assert forall|i: int| 0 <= i < events.len() implies match #[trigger] events[i] {
                FlvEvent::Header(header) => i == 0 && !s.header_parsed && is_stream_header(header),
                FlvEvent::Tag(_) => true,
            } by {
                if s.header_parsed {
                    assert(events[i] == tag_events(buf, 0)[i]);
                } else if buf.len() >= FLV_HEADER_LEN && has_signature(buf) {
                    if i == 0 {
                        let header = buf.take(FLV_HEADER_LEN as int);
                        assert(header[0] == buf[0] && header[1] == buf[1] && header[2] == buf[2]);
                    } else {
                        assert(events[i] == tag_events(buf, FLV_HEADER_LEN as int)[i - 1]);
                    }
                }
            }
        },
        Err(_) => {},
    }
}

/// A segment opened from a cache that holds a stream header begins with that
/// header; the script tag, the video configuration and the audio
/// configuration follow it, and the two configuration tags have their
/// timestamps zeroed.
pub proof fn lemma_preamble_self_contained(cache: CacheSpec)
    requires
        cache.header is Some,
        is_stream_header(cache.header->0),
        cache.tags_cleared(),
    ensures
        cache.preamble().len() >= FLV_HEADER_LEN,
        cache.preamble().take(FLV_HEADER_LEN as int) == cache.header->0,
        has_signature(cache.preamble()),
        cache.preamble().skip(FLV_HEADER_LEN as int) == seq_or_empty(cache.script_tag)
            + seq_or_empty(cache.video_header) + seq_or_empty(cache.audio_header),
        timestamp_cleared(seq_or_empty(cache.video_header)),
        timestamp_cleared(seq_or_empty(cache.audio_header)),
{
    let p = cache.preamble();
    let h = cache.header->0;
    assert(p.take(FLV_HEADER_LEN as int) =~= h);
    assert(p.skip(FLV_HEADER_LEN as int) =~= seq_or_empty(cache.script_tag) + seq_or_empty(
        cache.video_header,
    ) + seq_or_empty(cache.audio_header));
    assert(p[0] == h[0] && p[1] == h[1] && p[2] == h[2]);
}

/// Updating a cache never clears what it holds, keeps the most recent script
/// tag, and keeps the timestamps of its configuration tags zeroed.
pub proof fn lemma_update_keeps_cleared(cache: CacheSpec, tag: TagSpec)
    requires
        cache.tags_cleared(),
    ensures
        cache.updated(tag).tags_cleared(),
        cache.updated(tag).header == cache.header,
        cache.updated(tag).script_tag == if tag.tag_type == TAG_SCRIPT {
            Some(tag.bytes)
        } else {
            cache.script_tag
        },
        cache.audio_header is Some ==> cache.updated(tag).audio_header is Some,
        cache.video_header is Some ==> cache.updated(tag).video_header is Some,
{
}

} // verus!
