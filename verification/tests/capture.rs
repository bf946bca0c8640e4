use ffb_replay::hex::format_decimal_u8;
use ffb_replay::hex::format_hex;
use ffb_replay::hex::format_hex_byte;
use ffb_replay::usb_monitor::collect_ffb_hex;
use ffb_replay::usb_monitor::is_ffb_command;
use ffb_replay::usb_monitor::parse_usbmon_packet;
use ffb_replay::usb_monitor::parse_usbpcap_packet;
use ffb_replay::usb_monitor::CaptureTimestamp;
use ffb_replay::usb_monitor::PacketDirection;
use ffb_replay::usb_monitor::PacketQueue;
use ffb_replay::usb_monitor::PcapStreamParser;
use ffb_replay::usb_monitor::RecordLayout;
use ffb_replay::usb_monitor::UsbPacket;

/// A kernel USB-monitor record: 64-byte header plus payload.
fn usbmon_record(payload: &[u8]) -> Vec<u8> {
    let mut rec = vec![0u8; 64];
    rec[8] = 0x53; // 'S'ubmit
    rec[9] = 1; // interrupt transfer
    rec[10] = 0x02; // endpoint 2, host-to-device
    rec[16] = 5; // ts_sec = 5 (little-endian)
    rec[24] = 7; // ts_usec = 7
    let len = payload.len() as u32;
    rec[36..40].copy_from_slice(&len.to_le_bytes());
    rec.extend_from_slice(payload);
    rec
}

/// A pcap byte stream: global header plus one record per payload.
fn pcap_stream(records: &[Vec<u8>]) -> Vec<u8> {
    let mut stream = vec![0xd4, 0xc3, 0xb2, 0xa1];
    stream.extend_from_slice(&[0u8; 20]);
    for rec in records {
        let mut header = [0u8; 16];
        header[8..12].copy_from_slice(&(rec.len() as u32).to_le_bytes());
        stream.extend_from_slice(&header);
        stream.extend_from_slice(rec);
    }
    stream
}

fn packet(direction: PacketDirection, data: Vec<u8>) -> UsbPacket {
    UsbPacket {
        timestamp: CaptureTimestamp { secs: 0, micros: 0 },
        direction,
        endpoint: 1,
        data,
    }
}

#[test]
fn usbmon_record_decodes() {
    let rec = usbmon_record(&[0x01, 0x02, 0x03]);
    let p = parse_usbmon_packet(&rec).expect("record should decode");
    assert_eq!(p.direction, PacketDirection::HostToDevice);
    assert_eq!(p.endpoint, 2);
    assert_eq!(p.timestamp.secs, 5);
    assert_eq!(p.timestamp.micros, 7);
    assert_eq!(p.data, vec![0x01, 0x02, 0x03]);
}

#[test]
fn usbmon_record_filtering() {
    // device-to-host (bit 7 of the endpoint byte)
    let mut rec = usbmon_record(&[0x01, 0x02]);
    rec[10] = 0x82;
    assert!(parse_usbmon_packet(&rec).is_none());
    // a completion event, not a submission
    let mut rec = usbmon_record(&[0x01, 0x02]);
    rec[8] = 0x43; // 'C'
    assert!(parse_usbmon_packet(&rec).is_none());
    // a bulk transfer
    let mut rec = usbmon_record(&[0x01, 0x02]);
    rec[9] = 3;
    assert!(parse_usbmon_packet(&rec).is_none());
    // a truncated header
    assert!(parse_usbmon_packet(&[0u8; 63]).is_none());
    // only empty payloads are rejected: a one-byte payload still decodes
    let rec = usbmon_record(&[0x01]);
    let p = parse_usbmon_packet(&rec).expect("one-byte payload should decode");
    assert_eq!(p.data, vec![0x01]);
    // an empty payload
    let rec = usbmon_record(&[]);
    assert!(parse_usbmon_packet(&rec).is_none());
}

#[test]
fn usbpcap_record_decodes() {
    // 27-byte header, then the payload
    let mut rec = vec![0u8; 27];
    rec[0] = 27; // header length, little-endian
    rec[16] = 0; // host-to-device
    rec[21] = 0x83; // endpoint byte; low 7 bits = 3
    rec[22] = 2; // control transfer
    rec.extend_from_slice(&[0xAA, 0xBB]);
    let p = parse_usbpcap_packet(&rec).expect("record should decode");
    assert_eq!(p.direction, PacketDirection::HostToDevice);
    assert_eq!(p.endpoint, 3);
    assert_eq!(p.data, vec![0xAA, 0xBB]);
}

#[test]
fn usbpcap_record_filtering() {
    let mut base = vec![0u8; 27];
    base[0] = 27;
    base[22] = 1;
    // no payload at all
    assert!(parse_usbpcap_packet(&base).is_none());
    // device-to-host
    let mut rec = base.clone();
    rec.extend_from_slice(&[0xAA, 0xBB]);
    rec[16] = 1;
    assert!(parse_usbpcap_packet(&rec).is_none());
    // isochronous transfer
    let mut rec = base.clone();
    rec.extend_from_slice(&[0xAA, 0xBB]);
    rec[22] = 0;
    assert!(parse_usbpcap_packet(&rec).is_none());
    // only empty payloads are rejected: a one-byte payload still decodes
    let mut rec = base.clone();
    rec.extend_from_slice(&[0xAA]);
    let p = parse_usbpcap_packet(&rec).expect("one-byte payload should decode");
    assert_eq!(p.data, vec![0xAA]);
}

#[test]
fn split_chunks_decode_like_one_chunk() {
    let stream = pcap_stream(&[usbmon_record(&[0x01, 0x02, 0x03])]);

    let mut whole = PcapStreamParser::new(RecordLayout::Usbmon);
    let from_whole = whole.feed(&stream);
    assert_eq!(from_whole.len(), 1);

    // split the stream at every boundary: always exactly the same packet
    for split in 0..=stream.len() {
        let mut parser = PcapStreamParser::new(RecordLayout::Usbmon);
        let mut collected = parser.feed(&stream[..split]);
        collected.extend(parser.feed(&stream[split..]));
        assert_eq!(collected.len(), 1, "split at {split}");
        assert_eq!(collected[0].data, from_whole[0].data, "split at {split}");
        assert_eq!(collected[0].endpoint, from_whole[0].endpoint);
        assert_eq!(collected[0].timestamp, from_whole[0].timestamp);
        assert!(!parser.failed());
    }
}

#[test]
fn byte_by_byte_feed_decodes_all_records() {
    let stream = pcap_stream(&[
        usbmon_record(&[0x01, 0x02, 0x03]),
        usbmon_record(&[0x0B, 0x0C]),
    ]);
    let mut parser = PcapStreamParser::new(RecordLayout::Usbmon);
    let mut collected = Vec::new();
    for b in &stream {
        collected.extend(parser.feed(std::slice::from_ref(b)));
    }
    assert_eq!(collected.len(), 2);
    assert_eq!(collected[0].data, vec![0x01, 0x02, 0x03]);
    assert_eq!(collected[1].data, vec![0x0B, 0x0C]);
}

#[test]
fn bad_magic_is_fatal() {
    let mut parser = PcapStreamParser::new(RecordLayout::Usbmon);
    let text = b"Couldn't open the capture device: permission denied";
    let out = parser.feed(text);
    assert!(out.is_empty());
    assert!(parser.failed());
    // further bytes decode nothing
    let stream = pcap_stream(&[usbmon_record(&[0x01, 0x02, 0x03])]);
    assert!(parser.feed(&stream).is_empty());
}

#[test]
fn header_alone_yields_nothing() {
    let mut parser = PcapStreamParser::new(RecordLayout::Usbmon);
    let stream = pcap_stream(&[]);
    assert!(parser.feed(&stream).is_empty());
    assert!(!parser.failed());
}

#[test]
fn swapped_magic_accepted() {
    let mut stream = pcap_stream(&[usbmon_record(&[0x01, 0x02, 0x03])]);
    stream[0] = 0xa1;
    stream[1] = 0xb2;
    stream[2] = 0xc3;
    stream[3] = 0xd4;
    let mut parser = PcapStreamParser::new(RecordLayout::Usbmon);
    assert_eq!(parser.feed(&stream).len(), 1);
}

#[test]
fn get_packets_drains() {
    let mut queue = PacketQueue::new();
    queue.push(packet(PacketDirection::HostToDevice, vec![0x01, 0x02]));
    queue.push(packet(PacketDirection::DeviceToHost, vec![0x03]));
    assert_eq!(queue.len(), 2);
    let first = queue.get_packets();
    assert_eq!(first.len(), 2);
    assert_eq!(first[0].data, vec![0x01, 0x02]);
    // no new capture activity: the second drain is empty
    let second = queue.get_packets();
    assert!(second.is_empty());
    assert_eq!(queue.len(), 0);
}

#[test]
fn ffb_classification() {
    // known report IDs
    assert!(is_ffb_command(&packet(
        PacketDirection::HostToDevice,
        vec![0x01, 0x00]
    )));
    assert!(is_ffb_command(&packet(
        PacketDirection::HostToDevice,
        vec![0x15]
    )));
    assert!(is_ffb_command(&packet(
        PacketDirection::HostToDevice,
        vec![0x21]
    )));
    assert!(is_ffb_command(&packet(
        PacketDirection::HostToDevice,
        vec![0xF3]
    )));
    assert!(is_ffb_command(&packet(
        PacketDirection::HostToDevice,
        vec![0xF5]
    )));
    // unknown report ID, but a substantial payload (>= 7 bytes)
    assert!(is_ffb_command(&packet(
        PacketDirection::HostToDevice,
        vec![0x99, 0, 0, 0, 0, 0, 0]
    )));
    // unknown report ID and a short payload
    assert!(!is_ffb_command(&packet(
        PacketDirection::HostToDevice,
        vec![0x99, 0, 0]
    )));
    // never device-to-host
    assert!(!is_ffb_command(&packet(
        PacketDirection::DeviceToHost,
        vec![0x01, 0x00]
    )));
    // never empty
    assert!(!is_ffb_command(&packet(PacketDirection::HostToDevice, vec![])));
}

#[test]
fn collect_keeps_ffb_commands_in_order() {
    let packets = vec![
        packet(PacketDirection::HostToDevice, vec![0x01, 0xAB]),
        packet(PacketDirection::HostToDevice, vec![0x99, 0x00]),
        packet(PacketDirection::DeviceToHost, vec![0x01, 0xCD]),
        packet(PacketDirection::HostToDevice, vec![0xF3, 0xFF]),
    ];
    let lines = collect_ffb_hex(&packets);
    assert_eq!(lines, vec!["01 AB".to_string(), "F3 FF".to_string()]);
}

#[test]
fn zero_duration_effect_window() {
    // A zero-duration effect incurs a 0 ms wait (the capture-backed driver
    // blocks only when duration() > 0) ...
    let effect = ffb_replay::effects::Effect::Constant {
        params: ffb_replay::effects::EffectParams {
            duration: 0,
            start_delay: 0,
            gain: 10000,
        },
        force: ffb_replay::effects::ConstantForce {
            magnitude: 10000,
            direction: ffb_replay::effects::Direction::default(),
            envelope: ffb_replay::effects::Envelope::default(),
        },
    };
    assert_eq!(effect.duration(), 0);
    // ... and still drains whatever packets fell inside the window.
    let mut queue = PacketQueue::new();
    queue.push(packet(PacketDirection::HostToDevice, vec![0x01, 0x02]));
    let window = queue.get_packets();
    let lines = collect_ffb_hex(&window);
    assert_eq!(lines, vec!["01 02".to_string()]);
    assert!(queue.get_packets().is_empty());
}

#[test]
fn hex_formatting() {
    assert_eq!(format_hex(&[]), "");
    assert_eq!(format_hex(&[0x00]), "00");
    assert_eq!(format_hex(&[0x0F, 0xA0, 0xFF]), "0F A0 FF");
    assert_eq!(format_hex_byte(0x3F), "3F");
    assert_eq!(format_decimal_u8(0), "0");
    assert_eq!(format_decimal_u8(9), "9");
    assert_eq!(format_decimal_u8(21), "21");
    assert_eq!(format_decimal_u8(255), "255");
}
