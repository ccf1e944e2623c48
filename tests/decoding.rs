use vban_sink::wire::{
    decode, DecodeError, VBanBitResolution, VBanCodec, VBanProtocol, VBanSampleRates,
};

fn datagram(rate_byte: u8, samples_byte: u8, channels_byte: u8, format_byte: u8, name: &[u8], payload: &[u8]) -> Vec<u8> {
    let mut d = b"VBAN".to_vec();
    d.push(rate_byte);
    d.push(samples_byte);
    d.push(channels_byte);
    d.push(format_byte);
    let mut field = [0u8; 16];
    field[..name.len()].copy_from_slice(name);
    d.extend_from_slice(&field);
    d.extend_from_slice(&[0, 0, 0, 0]);
    d.extend_from_slice(payload);
    d
}

fn fixture() -> Vec<u8> {
    let mut payload = Vec::new();
    for s in [100i16, -200, 300, -400] {
        payload.extend_from_slice(&s.to_le_bytes());
    }
    datagram(0x03, 0x00, 0x01, 0x01, b"test", &payload)
}

#[test]
fn fixture_datagram_decodes() {
    let pkt = decode(&fixture()).unwrap();
    assert_eq!(pkt.num_channels, 2);
    assert_eq!(pkt.num_samples, 1);
    assert_eq!(pkt.sample_rate, VBanSampleRates::SampleRate48000Hz);
    assert_eq!(pkt.sample_rate.hz(), 48000);
    assert_eq!(pkt.samples, vec![100, -200, 300, -400]);
    assert_eq!(&pkt.header.stream_name[..5], b"test\0");
    assert_eq!(pkt.header.nu_frame, 0);
}

#[test]
fn peaks_are_largest_positive_sample_per_channel() {
    let pkt = decode(&fixture()).unwrap();
    assert_eq!(pkt.peak_left, 300);
    assert_eq!(pkt.peak_right, 0);
}

#[test]
fn peaks_follow_channel_count() {
    let mut payload = Vec::new();
    for s in [5i16, 7, 9, 11, 2, 20] {
        payload.extend_from_slice(&s.to_le_bytes());
    }
    let pkt = decode(&datagram(0x03, 0x01, 0x02, 0x01, b"", &payload)).unwrap();
    assert_eq!(pkt.num_channels, 3);
    assert_eq!(pkt.peak_left, 11);
    assert_eq!(pkt.peak_right, 7);
}

#[test]
fn mono_has_no_right_peak() {
    let mut payload = Vec::new();
    for s in [5i16, 7] {
        payload.extend_from_slice(&s.to_le_bytes());
    }
    let pkt = decode(&datagram(0x03, 0x01, 0x00, 0x01, b"", &payload)).unwrap();
    assert_eq!(pkt.num_channels, 1);
    assert_eq!(pkt.peak_left, 7);
    assert_eq!(pkt.peak_right, 0);
}

#[test]
fn negative_only_channel_peaks_at_zero() {
    let pkt = decode(&datagram(0x03, 0x00, 0x00, 0x01, b"", &[0x00, 0x80])).unwrap();
    assert_eq!(pkt.samples, vec![i16::MIN]);
    assert_eq!(pkt.peak_left, 0);
}

#[test]
fn frame_counter_is_little_endian() {
    let mut d = fixture();
    d[24] = 0x01;
    d[25] = 0x02;
    d[26] = 0x03;
    d[27] = 0x04;
    assert_eq!(decode(&d).unwrap().header.nu_frame, 0x0403_0201);
}

#[test]
fn samples_are_little_endian() {
    let pkt = decode(&datagram(0x03, 0x00, 0x00, 0x01, b"", &[0x34, 0x12, 0xff, 0xff])).unwrap();
    assert_eq!(pkt.samples, vec![0x1234, -1]);
}

#[test]
fn trailing_odd_byte_is_no_sample() {
    let pkt = decode(&datagram(0x03, 0x00, 0x00, 0x01, b"", &[1, 0, 2])).unwrap();
    assert_eq!(pkt.samples, vec![1]);
}

#[test]
fn empty_payload_gives_no_samples() {
    let pkt = decode(&datagram(0x03, 0x00, 0x00, 0x01, b"", &[])).unwrap();
    assert!(pkt.samples.is_empty());
}

#[test]
fn largest_counts() {
    let pkt = decode(&datagram(0x03, 0xff, 0xff, 0x01, b"", &[])).unwrap();
    assert_eq!(pkt.num_channels, 256);
    assert_eq!(pkt.num_samples, 256);
}

#[test]
fn without_magic_is_not_vban() {
    let mut d = fixture();
    d[0] = b'X';
    assert_eq!(decode(&d).err(), Some(DecodeError::NotVban));
    assert_eq!(decode(b"VBA").err(), Some(DecodeError::NotVban));
    assert_eq!(decode(&[]).err(), Some(DecodeError::NotVban));
}

#[test]
fn short_datagram_is_truncated() {
    assert_eq!(decode(b"VBAN\x03\x00\x01\x01").err(), Some(DecodeError::Truncated));
}

#[test]
fn other_protocol_is_refused() {
    let d = datagram(0x23, 0x00, 0x01, 0x01, b"", &[]);
    assert_eq!(decode(&d).err(), Some(DecodeError::UnsupportedProtocol(VBanProtocol::VbanProtocolSerial)));
    let d = datagram(0xe3, 0x00, 0x01, 0x01, b"", &[]);
    assert_eq!(decode(&d).err(), Some(DecodeError::UnsupportedProtocol(VBanProtocol::VbanProtocolUndefined4)));
}

#[test]
fn other_codec_is_refused() {
    let d = datagram(0x03, 0x00, 0x01, 0x11, b"", &[]);
    assert_eq!(decode(&d).err(), Some(DecodeError::UnsupportedCodec(VBanCodec::VbanCodecVbca)));
    let d = datagram(0x03, 0x00, 0x01, 0xf1, b"", &[]);
    assert_eq!(decode(&d).err(), Some(DecodeError::UnsupportedCodec(VBanCodec::VbanCodecUser)));
}

#[test]
fn other_resolution_is_refused() {
    let d = datagram(0x03, 0x00, 0x01, 0x02, b"", &[]);
    assert_eq!(decode(&d).err(), Some(DecodeError::UnsupportedResolution(VBanBitResolution::VbanBitfmt24Int)));
    let d = datagram(0x03, 0x00, 0x01, 0x06, b"", &[]);
    assert_eq!(decode(&d).err(), Some(DecodeError::UnsupportedResolution(VBanBitResolution::VbanBitfmt12Int)));
}

#[test]
fn reserved_format_bit_is_ignored() {
    let d = datagram(0x03, 0x00, 0x01, 0x09, b"", &[]);
    assert!(decode(&d).is_ok());
}

#[test]
fn rate_codes_past_table_are_refused() {
    for code in 21u8..32 {
        let d = datagram(code, 0x00, 0x01, 0x01, b"", &[]);
        assert_eq!(decode(&d).err(), Some(DecodeError::InvalidSampleRate(code)));
    }
}

#[test]
fn rate_codes_give_table_rates() {
    let table = [
        6000, 12000, 24000, 48000, 96000, 192000, 384000, 8000, 16000, 32000, 64000, 128000,
        256000, 512000, 11025, 22050, 44100, 88200, 176400, 352800, 705600,
    ];
    for (code, hz) in table.iter().enumerate() {
        let d = datagram(code as u8, 0x00, 0x01, 0x01, b"", &[]);
        let pkt = decode(&d).unwrap();
        assert_eq!(pkt.sample_rate.hz(), *hz);
        assert_eq!(pkt.sample_rate.code(), code as u8);
    }
}

#[test]
fn rate_from_code() {
    assert_eq!(VBanSampleRates::from_code(16), Some(VBanSampleRates::SampleRate44100Hz));
    assert_eq!(VBanSampleRates::from_code(21), None);
    assert_eq!(VBanSampleRates::from_code(255), None);
}

#[test]
fn byte_fields_split() {
    assert_eq!(VBanProtocol::from_rate_byte(0x43), VBanProtocol::VbanProtocolTxt);
    assert_eq!(VBanCodec::from_format_byte(0x21), VBanCodec::VbanCodecVbcv);
    assert_eq!(VBanBitResolution::from_format_byte(0x15), VBanBitResolution::VbanBitfmt64Float);
    assert_eq!(VBanBitResolution::VbanBitfmt16Int.byte_width(), Some(2));
    assert_eq!(VBanBitResolution::VbanBitfmt10Int.byte_width(), None);
}

#[test]
fn rate_text() {
    assert_eq!(VBanSampleRates::SampleRate48000Hz.to_string(), "48000 Hz");
    assert_eq!(VBanSampleRates::SampleRate6000Hz.to_string(), "6000 Hz");
    assert_eq!(VBanSampleRates::SampleRate705600Hz.to_string(), "705600 Hz");
    assert_eq!(VBanSampleRates::SampleRate11025Hz.to_string(), "11025 Hz");
}
