//! Packet capture subsystem core: the streaming pcap-container parser, the
//! two platform record decoders, FFB-command classification, and the shared
//! packet queue with its destructive drain.
//!
//! The platform capture process and the background reader thread live
//! outside the library; they hand byte chunks to `PcapStreamParser::feed`
//! and move decoded packets through a `PacketQueue`.

use crate::hex::format_hex;
use crate::hex::spec_hex_line;
use vstd::prelude::*;

verus! {

/// Capture timestamp: seconds and microseconds since the capture epoch.
#[derive(Debug, Clone, Copy, PartialEq, Eq, Structural)]
pub struct CaptureTimestamp {
    pub secs: u64,
    pub micros: u32,
}

#[derive(Debug, Clone, Copy, PartialEq, Eq, Structural)]
pub enum PacketDirection {
    HostToDevice,
    DeviceToHost,
}

/// USB packet information.
#[derive(Debug, Clone)]
pub struct UsbPacket {
    pub timestamp: CaptureTimestamp,
    pub direction: PacketDirection,
    pub endpoint: u8,
    pub data: Vec<u8>,
}

/// The mathematical model of a packet: its fields with the payload as a
/// byte sequence.
pub struct PacketModel {
    pub timestamp: CaptureTimestamp,
    pub direction: PacketDirection,
    pub endpoint: u8,
    pub data: Seq<u8>,
}

impl View for UsbPacket {
    type V = PacketModel;

    open spec fn view(&self) -> PacketModel {
        PacketModel {
            timestamp: self.timestamp,
            direction: self.direction,
            endpoint: self.endpoint,
            data: self.data@,
        }
    }
}

impl DeepView for UsbPacket {
    type V = PacketModel;

    open spec fn deep_view(&self) -> PacketModel {
        self.view()
    }
}

/// An optional packet as its optional model.
pub open spec fn spec_packet_opt(r: Option<UsbPacket>) -> Option<PacketModel> {
    match r {
        Option::Some(p) => Option::Some(p@),
        Option::None => Option::None,
    }
}

/// A 16-bit little-endian value at a byte offset.
pub open spec fn spec_le16(b: Seq<u8>, off: int) -> int {
    b[off] + 256 * b[off + 1]
}

/// A 32-bit little-endian value at a byte offset.
pub open spec fn spec_le32(b: Seq<u8>, off: int) -> int {
    b[off] + 256 * b[off + 1] + 65536 * b[off + 2] + 16777216 * b[off + 3]
}

/// A 64-bit little-endian value at a byte offset.
pub open spec fn spec_le64(b: Seq<u8>, off: int) -> int {
    spec_le32(b, off) + 0x1_0000_0000 * spec_le32(b, off + 4)
}

fn read_le16(data: &[u8], off: usize) -> (r: u16)
    requires
        off + 2 <= data@.len(),
    ensures
        r as int == spec_le16(data@, off as int),
{
    (data[off] as u16) + 256 * (data[off + 1] as u16)
}

fn read_le32(data: &[u8], off: usize) -> (r: u32)
    requires
        off + 4 <= data@.len(),
    ensures
        r as int == spec_le32(data@, off as int),
{
    (data[off] as u32) + 256 * (data[off + 1] as u32) + 65536 * (data[off + 2] as u32) + 16777216
        * (data[off + 3] as u32)
}

fn read_le64(data: &[u8], off: usize) -> (r: u64)
    requires
        off + 8 <= data@.len(),
    ensures
        r as int == spec_le64(data@, off as int),
{
    let n: usize = data.len();
    proof {
        assert(off + 8 <= n);
    }
    (read_le32(data, off) as u64) + 0x1_0000_0000 * (read_le32(data, off + 4) as u64)
}

/// Copy a byte range out of a slice.
fn bytes_range(data: &[u8], from: usize, to: usize) -> (r: Vec<u8>)
    requires
        from <= to <= data@.len(),
    ensures
        r@ == data@.subrange(from as int, to as int),
{
    let mut out: Vec<u8> = Vec::new();
    let mut k: usize = from;
    while k < to
        invariant
            from <= k <= to <= data@.len(),
            out@ == data@.subrange(from as int, k as int),
        decreases to - k,
    {
        out.push(data[k]);
        proof {
            assert(out@ =~= data@.subrange(from as int, k as int + 1));
        }
        k = k + 1;
    }
    out
}

/// The root-hub capture wrapper record layout and the kernel USB-monitor
/// record layout, the two per-packet binary formats nested inside a pcap
/// record payload; selected once at capture-session start for the host
/// platform.
#[derive(Debug, Clone, Copy, PartialEq, Eq, Structural)]
pub enum RecordLayout {
    /// Root-hub capture wrapper: variable-length header with a declared
    /// 2-byte length.
    Usbpcap,
    /// Kernel USB-monitor wrapper: fixed 64-byte header.
    Usbmon,
}

/// Decoding of one root-hub capture record: 2-byte little-endian header
/// length; direction bit in byte 16; endpoint in byte 21 (low 7 bits);
/// transfer type in byte 22, keeping Interrupt (1) and Control (2) only;
/// payload after the declared header length. Device-to-host records and
/// empty payloads are rejected.
pub open spec fn spec_decode_usbpcap(d: Seq<u8>) -> Option<PacketModel> {
    if d.len() < 27 {
        Option::None
    } else {
        let header_len = spec_le16(d, 0);
        if d.len() < header_len {
            Option::None
        } else {
            let direction = if d[16] % 2 == 1 {
                PacketDirection::DeviceToHost
            } else {
                PacketDirection::HostToDevice
            };
            let endpoint = d[21] % 128;
            let transfer_type = d[22];
            if transfer_type != 1 && transfer_type != 2 {
                Option::None
            } else {
                let payload = if d.len() > header_len {
                    d.skip(header_len)
                } else {
                    Seq::<u8>::empty()
                };
                if payload.len() == 0 {
                    Option::None
                } else if direction == PacketDirection::DeviceToHost {
                    Option::None
                } else {
                    Option::Some(
                        PacketModel {
                            timestamp: CaptureTimestamp { secs: 0, micros: 0 },
                            direction,
                            endpoint,
                            data: payload,
                        },
                    )
                }
            }
        }
    }
}

/// Parse one root-hub capture record into at most one packet.
pub fn parse_usbpcap_packet(data: &[u8]) -> (r: Option<UsbPacket>)
    ensures
        spec_packet_opt(r) == spec_decode_usbpcap(data@),
{
    if data.len() < 27 {
        return None;
    }
    let header_len = read_le16(data, 0) as usize;
    if data.len() < header_len {
        return None;
    }
    let info = data[16];
    let direction = if info % 2 == 1 {
        PacketDirection::DeviceToHost
    } else {
        PacketDirection::HostToDevice
    };
    let endpoint = data[21] % 128;
    let transfer_type = data[22];
    // Interrupt and Control transfers carry the FFB traffic.
    if transfer_type != 1 && transfer_type != 2 {
        return None;
    }
    let payload_data = if data.len() > header_len {
        bytes_range(data, header_len, data.len())
    } else {
        Vec::new()
    };
    if payload_data.len() == 0 {
        return None;
    }
    // Only host-to-device traffic holds FFB commands.
    if direction == PacketDirection::DeviceToHost {
        return None;
    }
    Some(
        UsbPacket {
            timestamp: CaptureTimestamp { secs: 0, micros: 0 },
            direction,
            endpoint,
            data: payload_data,
        },
    )
}

/// Decoding of one kernel USB-monitor record (64-byte header): keep Submit
/// events ('S', byte 8) of Interrupt (1) or Control (2) transfers (byte 9),
/// host-to-device only (bit 7 of byte 10); captured length little-endian at
/// byte 36; payload follows the header; timestamp from 8-byte seconds at
/// byte 16 plus 4-byte microseconds at byte 24. Device-to-host, non-Submit
/// and empty-payload records are rejected.
pub open spec fn spec_decode_usbmon(d: Seq<u8>) -> Option<PacketModel> {
    if d.len() < 64 {
        Option::None
    } else {
        let event_type = d[8];
        let xfer_type = d[9];
        let epnum = d[10];
        let direction = if epnum >= 128 {
            PacketDirection::DeviceToHost
        } else {
            PacketDirection::HostToDevice
        };
        let endpoint = epnum % 128;
        if direction == PacketDirection::DeviceToHost {
            Option::None
        } else if event_type != 0x53 {
            Option::None
        } else if xfer_type != 1 && xfer_type != 2 {
            Option::None
        } else {
            let len_cap = spec_le32(d, 36);
            let payload = if d.len() > 64 && len_cap > 0 {
                if 64 + len_cap <= d.len() {
                    d.subrange(64, 64 + len_cap)
                } else {
                    d.skip(64)
                }
            } else {
                Seq::<u8>::empty()
            };
            if payload.len() == 0 {
                Option::None
            } else {
                Option::Some(
                    PacketModel {
                        timestamp: CaptureTimestamp {
                            secs: spec_le64(d, 16) as u64,
                            micros: spec_le32(d, 24) as u32,
                        },
                        direction,
                        endpoint,
                        data: payload,
                    },
                )
            }
        }
    }
}

/// Parse one kernel USB-monitor record into at most one packet.
pub fn parse_usbmon_packet(data: &[u8]) -> (r: Option<UsbPacket>)
    ensures
        spec_packet_opt(r) == spec_decode_usbmon(data@),
{
    if data.len() < 64 {
        return None;
    }
    let event_type = data[8];
    let xfer_type = data[9];
    let epnum = data[10];
    let direction = if epnum >= 128 {
        PacketDirection::DeviceToHost
    } else {
        PacketDirection::HostToDevice
    };
    let endpoint = epnum % 128;
    // Only host-to-device Submit events carry outgoing FFB commands.
    if direction == PacketDirection::DeviceToHost {
        return None;
    }
    if event_type != 0x53 {
        return None;
    }
    if xfer_type != 1 && xfer_type != 2 {
        return None;
    }
    let len_cap = read_le32(data, 36) as usize;
    let payload_data = if data.len() > 64 && len_cap > 0 {
        let payload_end = if len_cap <= data.len() - 64 {
            64 + len_cap
        } else {
            data.len()
        };
        bytes_range(data, 64, payload_end)
    } else {
        Vec::new()
    };
    if payload_data.len() == 0 {
        return None;
    }
    let ts_sec = read_le64(data, 16);
    let ts_usec = read_le32(data, 24);
    Some(
        UsbPacket {
            timestamp: CaptureTimestamp { secs: ts_sec, micros: ts_usec },
            direction,
            endpoint,
            data: payload_data,
        },
    )
}

/// Decoding of one capture record under the chosen layout.
pub open spec fn spec_decode_record(layout: RecordLayout, d: Seq<u8>) -> Option<PacketModel> {
    match layout {
        RecordLayout::Usbpcap => spec_decode_usbpcap(d),
        RecordLayout::Usbmon => spec_decode_usbmon(d),
    }
}

/// Parse one capture record under the chosen layout.
pub fn parse_record(layout: RecordLayout, data: &[u8]) -> (r: Option<UsbPacket>)
    ensures
        spec_packet_opt(r) == spec_decode_record(layout, data@),
{
    match layout {
        RecordLayout::Usbpcap => parse_usbpcap_packet(data),
        RecordLayout::Usbmon => parse_usbmon_packet(data),
    }
}

/// FFB-command classification: a host-to-device packet whose first payload
/// byte is in a known report-ID range (0x01-0x15, 0x21, 0xF3, 0xF5) or
/// whose payload is at least 7 bytes. Deliberately permissive: the exact
/// report-ID space is not fully known, and the heuristic must match the
/// reference filtering behavior, not be a correct USB classifier.
pub open spec fn spec_is_ffb_command(p: PacketModel) -> bool {
    &&& p.direction == PacketDirection::HostToDevice
    &&& p.data.len() > 0
    &&& {
        ||| (0x01 <= p.data[0] <= 0x15)
        ||| p.data[0] == 0x21
        ||| p.data[0] == 0xF3
        ||| p.data[0] == 0xF5
        ||| p.data.len() >= 7
    }
}

/// Check whether a packet looks like an FFB command.
pub fn is_ffb_command(packet: &UsbPacket) -> (r: bool)
    ensures
        r == spec_is_ffb_command(packet@),
{
    // FFB commands are always host-to-device.
    if matches!(packet.direction, PacketDirection::DeviceToHost) {
        return false;
    }
    if packet.data.len() == 0 {
        return false;
    }
    let first_byte = packet.data[0];
    (0x01 <= first_byte && first_byte <= 0x15) || first_byte == 0x21 || first_byte == 0xF3
        || first_byte == 0xF5 || packet.data.len() >= 7
}

/// The hex lines for the FFB commands among a packet sequence, in order.
pub open spec fn spec_ffb_hex(ps: Seq<PacketModel>) -> Seq<Seq<char>>
    decreases ps.len(),
{
    if ps.len() == 0 {
        Seq::empty()
    } else {
        let rest = spec_ffb_hex(ps.drop_last());
        if spec_is_ffb_command(ps.last()) {
            rest.push(spec_hex_line(ps.last().data))
        } else {
            rest
        }
    }
}

/// Keep only the packets classified as FFB commands and return their
/// payloads as hex strings, in capture order.
pub fn collect_ffb_hex(packets: &Vec<UsbPacket>) -> (r: Vec<String>)
    ensures
        r.deep_view() == spec_ffb_hex(packets.deep_view()),
{
    let mut out: Vec<String> = Vec::new();
    let mut i: usize = 0;
    while i < packets.len()
        invariant
            i <= packets@.len(),
            out.deep_view() == spec_ffb_hex(packets.deep_view().take(i as int)),
        decreases packets@.len() - i,
    {
        proof {
            assert(packets.deep_view().take(i as int + 1).drop_last() =~= packets.deep_view().take(
                i as int,
            ));
            assert(packets.deep_view().take(i as int + 1).last() == packets@[i as int]@);
        }
        if is_ffb_command(&packets[i]) {
            out.push(format_hex(packets[i].data.as_slice()));
        }
        proof {
            assert(out.deep_view() =~= spec_ffb_hex(packets.deep_view().take(i as int + 1)));
        }
        i = i + 1;
    }
    proof {
        assert(packets.deep_view().take(packets@.len() as int) =~= packets.deep_view());
    }
    out
}

/// The shared packet queue: decoded packets in decode order, consumed by a
/// destructive drain so a capture window covers exactly one playback.
pub struct PacketQueue {
    packets: Vec<UsbPacket>,
}

impl View for PacketQueue {
    type V = Seq<PacketModel>;

    closed spec fn view(&self) -> Seq<PacketModel> {
        self.packets.deep_view()
    }
}

impl PacketQueue {
    pub fn new() -> (r: PacketQueue)
        ensures
            r@ == Seq::<PacketModel>::empty(),
    {
        let r = PacketQueue { packets: Vec::new() };
        proof {
            assert(r@ =~= Seq::<PacketModel>::empty());
        }
        r
    }

    /// Queue one decoded packet.
    pub fn push(&mut self, packet: UsbPacket)
        ensures
            final(self)@ == old(self)@.push(packet@),
    {
        let ghost before = self@;
        self.packets.push(packet);
        proof {
            assert(self@ =~= before.push(packet@));
        }
    }

    /// How many packets are queued.
    pub fn len(&self) -> (r: usize)
        ensures
            r == self@.len(),
    {
        self.packets.len()
    }

    /// Get and clear the captured packets: returns the entire queued set and
    /// leaves the queue empty.
    pub fn get_packets(&mut self) -> (r: Vec<UsbPacket>)
        ensures
            r.deep_view() == old(self)@,
            final(self)@ == Seq::<PacketModel>::empty(),
    {
        let mut taken: Vec<UsbPacket> = Vec::new();
        core::mem::swap(&mut self.packets, &mut taken);
        proof {
            assert(self@ =~= Seq::<PacketModel>::empty());
        }
        taken
    }
}

/// Outcome of parsing a capture byte stream from its start: the packets
/// decoded so far, the unconsumed tail, whether the global header was
/// consumed, and whether the stream failed on a corrupted global header.
pub struct StreamState {
    pub packets: Seq<PacketModel>,
    pub rest: Seq<u8>,
    pub header_done: bool,
    pub failed: bool,
}

/// The pcap global-header magic, in either byte order.
pub open spec fn spec_magic_ok(s: Seq<u8>) -> bool {
    ||| (s[0] == 0xd4 && s[1] == 0xc3 && s[2] == 0xb2 && s[3] == 0xa1)
    ||| (s[0] == 0xa1 && s[1] == 0xb2 && s[2] == 0xc3 && s[3] == 0xd4)
}

/// Parse complete records off the front of `s`. Each record is a 16-byte
/// pcap record header whose bytes 8..12 hold the included length, followed
/// by that many payload bytes handed to the record decoder; parsing stops
/// at the first incomplete record, returning the decoded packets and the
/// unconsumed tail.
pub open spec fn spec_parse_records(layout: RecordLayout, s: Seq<u8>) -> (Seq<PacketModel>, Seq<
    u8,
>)
    decreases s.len(),
{
    if s.len() < 16 {
        (Seq::<PacketModel>::empty(), s)
    } else {
        let incl = spec_le32(s, 8);
        if s.len() < 16 + incl {
            (Seq::<PacketModel>::empty(), s)
        } else {
            let rec = s.subrange(16, 16 + incl);
            let tail = spec_parse_records(layout, s.skip(16 + incl));
            match spec_decode_record(layout, rec) {
                Option::Some(p) => (seq![p] + tail.0, tail.1),
                Option::None => tail,
            }
        }
    }
}

/// Parse a capture byte stream from its start: nothing is consumed until 24
/// bytes arrive; a bad magic is fatal; after the 24-byte global header,
/// complete records are decoded as they arrive.
pub open spec fn spec_stream(layout: RecordLayout, s: Seq<u8>) -> StreamState {
    if s.len() < 24 {
        StreamState {
            packets: Seq::<PacketModel>::empty(),
            rest: s,
            header_done: false,
            failed: false,
        }
    } else if !spec_magic_ok(s) {
        StreamState {
            packets: Seq::<PacketModel>::empty(),
            rest: s,
            header_done: false,
            failed: true,
        }
    } else {
        let t = spec_parse_records(layout, s.skip(24));
        StreamState { packets: t.0, rest: t.1, header_done: true, failed: false }
    }
}

/// Record parsing is incremental: parsing `s + t` decodes what `s` alone
/// decodes, then continues on `s`'s unconsumed tail extended by `t`.
pub proof fn lemma_parse_records_extend(layout: RecordLayout, s: Seq<u8>, t: Seq<u8>)
    ensures
        ({
            let a = spec_parse_records(layout, s);
            let b = spec_parse_records(layout, a.1 + t);
            spec_parse_records(layout, s + t) == (a.0 + b.0, b.1)
        }),
    decreases s.len(),
{
    let a = spec_parse_records(layout, s);
    if s.len() < 16 {
        assert(a.1 + t =~= s + t);
        let b = spec_parse_records(layout, s + t);
        assert(a.0 + b.0 =~= b.0);
    } else {
        let incl = spec_le32(s, 8);
        assert(spec_le32(s + t, 8) == incl);
        if s.len() < 16 + incl {
            assert(a.1 + t =~= s + t);
            let b = spec_parse_records(layout, s + t);
            assert(a.0 + b.0 =~= b.0);
        } else {
            assert((s + t).len() >= 16 + incl);
            assert((s + t).subrange(16, 16 + incl) =~= s.subrange(16, 16 + incl));
            assert((s + t).skip(16 + incl) =~= s.skip(16 + incl) + t);
            let ta = spec_parse_records(layout, s.skip(16 + incl));
            lemma_parse_records_extend(layout, s.skip(16 + incl), t);
            let b = spec_parse_records(layout, ta.1 + t);
            assert(spec_parse_records(layout, s.skip(16 + incl) + t) == (ta.0 + b.0, b.1));
            match spec_decode_record(layout, s.subrange(16, 16 + incl)) {
                Option::Some(p) => {
                    assert(a.0 == seq![p] + ta.0);
                    assert(spec_parse_records(layout, s + t).0 == seq![p] + (ta.0 + b.0));
                    assert(seq![p] + (ta.0 + b.0) =~= (seq![p] + ta.0) + b.0);
                },
                Option::None => {
                    assert(a == ta);
                },
            }
        }
    }
}

/// Stream parsing is incremental: appending a chunk to the input history
/// keeps a failed stream failed and without output; before the header, no
/// packet has been decoded; after the header, the new packets are exactly
/// those that record parsing decodes from the old unconsumed tail extended
/// by the chunk.
pub proof fn lemma_stream_extend(layout: RecordLayout, h: Seq<u8>, chunk: Seq<u8>)
    ensures
        ({
            let st0 = spec_stream(layout, h);
            let st1 = spec_stream(layout, h + chunk);
            &&& (st0.failed ==> st1.failed && st1.packets == Seq::<PacketModel>::empty())
            &&& (!st0.header_done ==> st0.packets == Seq::<PacketModel>::empty())
            &&& (st0.header_done ==> {
                let b = spec_parse_records(layout, st0.rest + chunk);
                &&& st1.header_done
                &&& !st1.failed
                &&& st1.packets == st0.packets + b.0
                &&& st1.rest == b.1
            })
        }),
{
    if h.len() >= 24 {
        assert(forall|i: int| 0 <= i < 4 ==> (h + chunk)[i] == h[i]);
        if spec_magic_ok(h) {
            assert(spec_magic_ok(h + chunk));
            assert((h + chunk).skip(24) =~= h.skip(24) + chunk);
            lemma_parse_records_extend(layout, h.skip(24), chunk);
        } else {
            assert(!spec_magic_ok(h + chunk));
        }
    }
}

/// Chunk boundaries are transparent: a byte stream split at any point and
/// fed in two parts decodes to the same packets as the stream fed whole,
/// since the cumulative output of `feed` is a function of the concatenated
/// history alone.
pub proof fn lemma_split_feed_equivalent(layout: RecordLayout, s: Seq<u8>, i: int)
    requires
        0 <= i <= s.len(),
    ensures
        spec_stream(layout, s.subrange(0, i) + s.subrange(i, s.len() as int)).packets
            == spec_stream(layout, s).packets,
{
    assert(s.subrange(0, i) + s.subrange(i, s.len() as int) =~= s);
}

/// Append a byte slice to a vector.
fn append_bytes(dst: &mut Vec<u8>, src: &[u8])
    ensures
        final(dst)@ == old(dst)@ + src@,
{
    let mut k: usize = 0;
    while k < src.len()
        invariant
            k <= src@.len(),
            dst@ == old(dst)@ + src@.take(k as int),
        decreases src@.len() - k,
    {
        dst.push(src[k]);
        proof {
            assert(old(dst)@ + src@.take(k as int + 1) =~= (old(dst)@ + src@.take(k as int)).push(
                src@[k as int],
            ));
        }
        k = k + 1;
    }
    proof {
        assert(old(dst)@ + src@.take(src@.len() as int) =~= old(dst)@ + src@);
    }
}

/// The streaming pcap parser. The underlying transport delivers arbitrary
/// byte chunks; `feed` buffers them, consumes the 24-byte global header
/// once present (aborting on a bad magic), then decodes every complete
/// record, keeping partial records buffered until their bytes arrive.
pub struct PcapStreamParser {
    layout: RecordLayout,
    buffer: Vec<u8>,
    header_done: bool,
    failed: bool,
    history: Ghost<Seq<u8>>,
}

impl PcapStreamParser {
    /// The record layout this parser decodes.
    pub closed spec fn spec_layout(&self) -> RecordLayout {
        self.layout
    }

    /// Every byte ever fed to this parser, in order.
    pub closed spec fn spec_history(&self) -> Seq<u8> {
        self.history@
    }

    /// The parser state is exactly what parsing its whole input history
    /// from the start yields.
    pub closed spec fn wf(&self) -> bool {
        let st = spec_stream(self.layout, self.history@);
        &&& self.failed == st.failed
        &&& (!st.failed ==> self.header_done == st.header_done)
        &&& (!st.failed ==> self.buffer@ == st.rest)
    }

    pub fn new(layout: RecordLayout) -> (r: PcapStreamParser)
        ensures
            r.wf(),
            r.spec_layout() == layout,
            r.spec_history() == Seq::<u8>::empty(),
    {
        PcapStreamParser {
            layout,
            buffer: Vec::new(),
            header_done: false,
            failed: false,
            history: Ghost(Seq::empty()),
        }
    }

    /// Whether the capture stream failed on a corrupted global header (for
    /// example a permissions failure reported as text instead of binary
    /// data). A failed stream decodes nothing further.
    pub fn failed(&self) -> (r: bool)
        requires
            self.wf(),
        ensures
            r == spec_stream(self.spec_layout(), self.spec_history()).failed,
    {
        self.failed
    }

    /// Feed one chunk of capture bytes; returns the packets completed by
    /// this chunk, in stream order. Cumulatively, the packets returned by
    /// all feeds are exactly the packets that parsing the whole history
    /// yields, wherever the chunk boundaries fell.
    pub fn feed(&mut self, chunk: &[u8]) -> (r: Vec<UsbPacket>)
        requires
            old(self).wf(),
        ensures
            final(self).wf(),
            final(self).spec_layout() == old(self).spec_layout(),
            final(self).spec_history() == old(self).spec_history() + chunk@,
            spec_stream(final(self).spec_layout(), final(self).spec_history()).packets
                == spec_stream(old(self).spec_layout(), old(self).spec_history()).packets
                + r.deep_view(),
    {
        let ghost h0 = self.history@;
        let ghost h1 = h0 + chunk@;
        let ghost layout = self.layout;
        let ghost base = spec_stream(layout, h0).packets;
        proof {
            lemma_stream_extend(layout, h0, chunk@);
        }
        self.history = Ghost(h1);
        let mut out: Vec<UsbPacket> = Vec::new();
        proof {
            assert(out.deep_view() =~= Seq::<PacketModel>::empty());
        }
        if self.failed {
            // A corrupted global header ended this capture session; every
            // further byte is discarded.
            return out;
        }
        append_bytes(&mut self.buffer, chunk);
        if !self.header_done {
            if self.buffer.len() < 24 {
                return out;
            }
            let magic_ok = (self.buffer[0] == 0xd4 && self.buffer[1] == 0xc3 && self.buffer[2]
                == 0xb2 && self.buffer[3] == 0xa1) || (self.buffer[0] == 0xa1 && self.buffer[1]
                == 0xb2 && self.buffer[2] == 0xc3 && self.buffer[3] == 0xd4);
            if !magic_ok {
                // Not a pcap stream: fatal to this capture session.
                self.failed = true;
                return out;
            }
            let tail = self.buffer.split_off(24);
            self.buffer = tail;
            self.header_done = true;
            proof {
                assert(self.buffer@ =~= h1.skip(24));
            }
        }
        proof {
            assert(spec_stream(layout, h1).packets == base + out.deep_view()
                + spec_parse_records(layout, self.buffer@).0);
            assert(spec_stream(layout, h1).rest == spec_parse_records(layout, self.buffer@).1);
        }
        while self.buffer.len() >= 16
            invariant
                self.layout == layout,
                self.history@ == h1,
                self.header_done,
                !self.failed,
                spec_stream(layout, h1).header_done,
                !spec_stream(layout, h1).failed,
                spec_stream(layout, h1).packets == base + out.deep_view() + spec_parse_records(
                    layout,
                    self.buffer@,
                ).0,
                spec_stream(layout, h1).rest == spec_parse_records(layout, self.buffer@).1,
            ensures
                self.layout == layout,
                self.history@ == h1,
                self.header_done,
                !self.failed,
                spec_stream(layout, h1).packets == base + out.deep_view(),
                spec_stream(layout, h1).rest == self.buffer@,
            decreases self.buffer@.len(),
        {
            let incl = read_le32(self.buffer.as_slice(), 8) as usize;
            if self.buffer.len() - 16 < incl {
                // Incomplete record: wait for more bytes.
                proof {
                    assert(spec_parse_records(layout, self.buffer@).0 == Seq::<
                        PacketModel,
                    >::empty());
                    assert(base + out.deep_view() + Seq::<PacketModel>::empty() =~= base
                        + out.deep_view());
                }
                break ;
            }
            let total = 16 + incl;
            let record = bytes_range(self.buffer.as_slice(), 16, total);
            let ghost buf_before = self.buffer@;
            let ghost out_before = out.deep_view();
            let ghost tail_parse = spec_parse_records(layout, buf_before.skip(16 + incl as int));
            let decoded = parse_record(self.layout, record.as_slice());
            match decoded {
                Some(p) => {
                    out.push(p);
                    proof {
                        assert(out.deep_view() =~= out_before.push(p@));
                        assert(base + out_before + (seq![p@] + tail_parse.0) =~= base
                            + out_before.push(p@) + tail_parse.0);
                    }
                },
                None => {},
            }
            let tail = self.buffer.split_off(total);
            self.buffer = tail;
            proof {
                assert(self.buffer@ =~= buf_before.skip(16 + incl as int));
            }
        }
        out
    }
}

/// Drained once, the queue holds nothing: a second drain with no capture
/// activity in between returns the empty set.
pub proof fn lemma_drain_then_drain_empty(
    first_before: Seq<PacketModel>,
    first_out: Seq<PacketModel>,
    second_before: Seq<PacketModel>,
    second_out: Seq<PacketModel>,
)
    requires
        first_out == first_before,
        second_before == Seq::<PacketModel>::empty(),
        second_out == second_before,
    ensures
        second_out == Seq::<PacketModel>::empty(),
{
}

} // verus!
