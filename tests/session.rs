use vban_sink::session::{PlayerState, SinkCommand, StreamFormat, VbanRecipient, Verdict};
use vban_sink::wire::{DecodeError, VBanSampleRates};

fn datagram(rate_byte: u8, name: &[u8], samples: &[i16]) -> Vec<u8> {
    let mut d = b"VBAN".to_vec();
    d.extend_from_slice(&[rate_byte, 0x00, 0x01, 0x01]);
    let mut field = [0u8; 16];
    field[..name.len()].copy_from_slice(name);
    d.extend_from_slice(&field);
    d.extend_from_slice(&[0, 0, 0, 0]);
    for s in samples {
        d.extend_from_slice(&s.to_le_bytes());
    }
    d
}

fn recipient(name: Option<&str>, silence: Option<u32>) -> VbanRecipient {
    VbanRecipient::create(name.map(|n| n.to_string()), None, None, "default".to_string(), silence).unwrap()
}

const RATE_48000: u8 = 0x03;
const RATE_44100: u8 = 0x10;

#[test]
fn create_refuses_long_name() {
    let long = "abcdefghijklmnopq".to_string();
    assert!(VbanRecipient::create(Some(long), None, None, "default".to_string(), None).is_none());
}

#[test]
fn create_pads_name() {
    let r = recipient(Some("abcdefghijklmnop"), None);
    assert_eq!(r.name(), Some(*b"abcdefghijklmnop"));
    let r = recipient(Some("test"), Some(5));
    let mut expected = [0u8; 16];
    expected[..4].copy_from_slice(b"test");
    assert_eq!(r.name(), Some(expected));
    assert_eq!(r.silence, 5);
    assert_eq!(r.state, PlayerState::Idle);
    assert!(!r.is_playing());
}

#[test]
fn create_keeps_configured_format() {
    let r = VbanRecipient::create(None, Some(2), Some(VBanSampleRates::SampleRate44100Hz), "hw:0".to_string(), None).unwrap();
    assert_eq!(r.num_channels(), Some(2));
    assert_eq!(r.sample_rate(), Some(44100));
    assert_eq!(r.sink_name, "hw:0");
    let r = recipient(None, None);
    assert_eq!(r.num_channels(), None);
    assert_eq!(r.sample_rate(), None);
}

#[test]
fn timeout_while_idle_does_nothing() {
    let mut r = recipient(None, None);
    let out = r.handle(10_000, None);
    assert!(out.commands.is_empty());
    assert_eq!(out.verdict, Verdict::Tick);
    assert_eq!(r.state, PlayerState::Idle);
}

#[test]
fn same_packet_twice_opens_once_and_writes_twice() {
    let mut r = recipient(None, None);
    let d = datagram(RATE_48000, b"test", &[100, -200, 300, -400]);
    let first = r.handle(1000, Some(&d));
    assert_eq!(first.commands, vec![
        SinkCommand::Open { channels: 2, rate_hz: 48000 },
        SinkCommand::Write(vec![100, -200, 300, -400]),
    ]);
    assert_eq!(first.verdict, Verdict::Played { peak_left: 300, peak_right: 0, num_samples: 1 });
    let second = r.handle(1500, Some(&d));
    assert_eq!(second.commands, vec![SinkCommand::Write(vec![100, -200, 300, -400])]);
    assert_eq!(r.state, PlayerState::Playing {
        format: StreamFormat { rate: VBanSampleRates::SampleRate48000Hz, channels: 2 },
        last_seen_ms: 1500,
    });
    assert_eq!(r.sample_rate(), Some(48000));
    assert_eq!(r.num_channels(), Some(2));
}

#[test]
fn pre_roll_silence_comes_after_open() {
    let mut r = recipient(None, Some(10));
    let d = datagram(RATE_48000, b"", &[1, 2]);
    let out = r.handle(0, Some(&d));
    assert_eq!(out.commands, vec![
        SinkCommand::Open { channels: 2, rate_hz: 48000 },
        SinkCommand::WriteSilence(960),
        SinkCommand::Write(vec![1, 2]),
    ]);
    let again = r.handle(5, Some(&d));
    assert_eq!(again.commands, vec![SinkCommand::Write(vec![1, 2])]);
}

#[test]
fn pre_roll_uses_whole_frames_per_channel() {
    let mut r = recipient(None, Some(3));
    let d = datagram(RATE_44100, b"", &[1, 2]);
    let out = r.handle(0, Some(&d));
    assert_eq!(out.commands[1], SinkCommand::WriteSilence(264));
}

#[test]
fn rate_change_reopens_without_idle() {
    let mut r = recipient(None, None);
    r.handle(0, Some(&datagram(RATE_44100, b"", &[1, 2])));
    let out = r.handle(500, Some(&datagram(RATE_48000, b"", &[3, 4])));
    assert_eq!(out.commands, vec![
        SinkCommand::Drain,
        SinkCommand::Close,
        SinkCommand::Open { channels: 2, rate_hz: 48000 },
        SinkCommand::Write(vec![3, 4]),
    ]);
    assert_eq!(r.state, PlayerState::Playing {
        format: StreamFormat { rate: VBanSampleRates::SampleRate48000Hz, channels: 2 },
        last_seen_ms: 500,
    });
}

#[test]
fn silence_over_two_seconds_closes_then_reopens() {
    let mut r = recipient(None, None);
    let d = datagram(RATE_48000, b"", &[1, 2]);
    r.handle(1000, Some(&d));
    let at_limit = r.handle(3000, None);
    assert!(at_limit.commands.is_empty());
    assert!(r.is_playing());
    let stale = r.handle(3001, None);
    assert_eq!(stale.commands, vec![SinkCommand::Drain, SinkCommand::Close]);
    assert_eq!(r.state, PlayerState::Idle);
    let again = r.handle(3002, None);
    assert!(again.commands.is_empty());
    let reopened = r.handle(4000, Some(&d));
    assert_eq!(reopened.commands, vec![
        SinkCommand::Open { channels: 2, rate_hz: 48000 },
        SinkCommand::Write(vec![1, 2]),
    ]);
}

#[test]
fn stale_session_closes_before_next_packet() {
    let mut r = recipient(None, None);
    let d = datagram(RATE_48000, b"", &[1, 2]);
    r.handle(0, Some(&d));
    let out = r.handle(5000, Some(&d));
    assert_eq!(out.commands, vec![
        SinkCommand::Drain,
        SinkCommand::Close,
        SinkCommand::Open { channels: 2, rate_hz: 48000 },
        SinkCommand::Write(vec![1, 2]),
    ]);
}

#[test]
fn other_stream_leaves_session_untouched() {
    let mut r = recipient(Some("test"), None);
    let ours = datagram(RATE_48000, b"test", &[1, 2]);
    let theirs = datagram(RATE_48000, b"other", &[3, 4]);
    let idle = r.handle(0, Some(&theirs));
    assert!(idle.commands.is_empty());
    assert_eq!(idle.verdict, Verdict::NameMismatch);
    assert_eq!(r.state, PlayerState::Idle);
    r.handle(100, Some(&ours));
    let before = r.state;
    let playing = r.handle(900, Some(&theirs));
    assert!(playing.commands.is_empty());
    assert_eq!(playing.verdict, Verdict::NameMismatch);
    assert_eq!(r.state, before);
}

#[test]
fn name_filter_compares_raw_bytes() {
    let mut r = recipient(Some("te"), None);
    let bad_utf8 = datagram(RATE_48000, &[0xff, 0xfe], &[1, 2]);
    assert_eq!(r.handle(0, Some(&bad_utf8)).verdict, Verdict::NameMismatch);
    let ours = datagram(RATE_48000, b"te", &[1, 2]);
    assert!(r.handle(0, Some(&ours)).commands.len() == 2);
}

#[test]
fn non_vban_datagram_changes_nothing() {
    let mut r = recipient(None, None);
    let d = datagram(RATE_48000, b"", &[1, 2]);
    r.handle(0, Some(&d));
    let before = r.state;
    let mut junk = d.clone();
    junk[0] = b'X';
    let out = r.handle(100, Some(&junk));
    assert!(out.commands.is_empty());
    assert_eq!(out.verdict, Verdict::Rejected(DecodeError::NotVban));
    assert_eq!(r.state, before);
}

#[test]
fn bad_rate_code_is_rejected_by_session() {
    let mut r = recipient(None, None);
    let out = r.handle(0, Some(&datagram(0x1f, b"", &[1, 2])));
    assert_eq!(out.verdict, Verdict::Rejected(DecodeError::InvalidSampleRate(31)));
    assert!(out.commands.is_empty());
    assert_eq!(r.state, PlayerState::Idle);
}

#[test]
fn failed_open_returns_to_idle() {
    let mut r = recipient(None, None);
    let d = datagram(RATE_48000, b"", &[1, 2]);
    r.handle(0, Some(&d));
    r.open_failed();
    assert_eq!(r.state, PlayerState::Idle);
    let out = r.handle(10, Some(&d));
    assert_eq!(out.commands[0], SinkCommand::Open { channels: 2, rate_hz: 48000 });
}

#[test]
fn clock_going_back_keeps_playing() {
    let mut r = recipient(None, None);
    let d = datagram(RATE_48000, b"", &[1, 2]);
    r.handle(10_000, Some(&d));
    let out = r.handle(0, None);
    assert!(out.commands.is_empty());
    assert!(r.is_playing());
}

#[test]
fn pre_roll_of_mono_stream() {
    let mut r = recipient(None, Some(20));
    let mut d = datagram(RATE_44100, b"", &[7]);
    d[6] = 0x00;
    let out = r.handle(0, Some(&d));
    assert_eq!(out.commands[0], SinkCommand::Open { channels: 1, rate_hz: 44100 });
    assert_eq!(out.commands[1], SinkCommand::WriteSilence(882));
}
