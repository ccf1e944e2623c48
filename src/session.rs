//! The stream session: which format the output is open with, when audio was
//! last taken, and which commands the output is to carry out for each datagram
//! or receive timeout.

use vstd::prelude::*;
use vstd::utf8::encode_utf8;
use crate::wire::{
    decode, is_vban_magic, AudioPacket, DecodeError, PacketView, VBanSampleRates, spec_decode,
    STREAM_NAME_LEN,
};

verus! {

/// Milliseconds without accepted audio after which a playing session closes
/// its output.
pub const LIVENESS_TIMEOUT_MS: u64 = 2000;

/// The format that the output is open with.
#[derive(Copy, Clone, Debug, PartialEq, Eq, Structural)]
pub struct StreamFormat {
    pub rate: VBanSampleRates,
    pub channels: u16,
}

/// Where the session stands: an output is open exactly while it plays.
#[derive(Copy, Clone, Debug, PartialEq, Eq, Structural)]
pub enum PlayerState {
    Idle,
    Playing { format: StreamFormat, last_seen_ms: u64 },
}

/// What the output is to do, in order.
#[derive(Debug, PartialEq, Eq)]
pub enum SinkCommand {
    /// Open the output for 16-bit interleaved PCM in this format.
    Open { channels: u16, rate_hz: u32 },
    /// Write this many zero samples.
    WriteSilence(u64),
    /// Write these interleaved samples.
    Write(Vec<i16>),
    /// Play out what the output holds.
    Drain,
    /// Close the output.
    Close,
}

/// A command as a value.
pub enum SinkOp {
    Open { channels: int, rate_hz: int },
    WriteSilence(int),
    Write(Seq<i16>),
    Drain,
    Close,
}

impl View for SinkCommand {
    type V = SinkOp;

    open spec fn view(&self) -> SinkOp {
        match self {
            SinkCommand::Open { channels, rate_hz } => SinkOp::Open {
                channels: *channels as int,
                rate_hz: *rate_hz as int,
            },
            SinkCommand::WriteSilence(n) => SinkOp::WriteSilence(*n as int),
            SinkCommand::Write(s) => SinkOp::Write(s@),
            SinkCommand::Drain => SinkOp::Drain,
            SinkCommand::Close => SinkOp::Close,
        }
    }
}

/// The commands of a list, as values.
pub open spec fn ops_of(cmds: Seq<SinkCommand>) -> Seq<SinkOp> {
    cmds.map_values(|c: SinkCommand| c@)
}

/// What became of one datagram or timeout.
#[derive(Copy, Clone, Debug, PartialEq, Eq, Structural)]
pub enum Verdict {
    /// No datagram came before the receive timeout.
    Tick,
    /// The datagram was not taken as audio.
    Rejected(DecodeError),
    /// The datagram carried audio of another stream than the one asked for.
    NameMismatch,
    /// The datagram's audio went to the output; the peaks of channels 0 and 1.
    Played { peak_left: i16, peak_right: i16, num_samples: u16 },
}

/// The commands and verdict that one call of `handle` gives.
pub struct HandleOutcome {
    pub commands: Vec<SinkCommand>,
    pub verdict: Verdict,
}

/// The rate in Hz of a table entry.
pub open spec fn hz_of(rate: VBanSampleRates) -> int {
    crate::wire::rate_table_hz(rate.spec_code())
}

/// Number of zero samples that `ms` milliseconds of pre-roll take at `hz`
/// with `channels` interleaved channels: the whole frames of that span, one
/// sample per channel each.
pub open spec fn silence_len(hz: int, ms: int, channels: int) -> int {
    (hz * ms / 1000) * channels
}

/// Whether a session that last took audio at `last` has waited too long at `now`.
pub open spec fn is_stale(last: u64, now: u64) -> bool {
    now > last && now - last > LIVENESS_TIMEOUT_MS
}

/// The 16-byte name field that holds `name`: its bytes, then NULs.
pub open spec fn padded_name(name: Seq<u8>) -> Seq<u8> {
    Seq::new(STREAM_NAME_LEN as nat, |i: int| if i < name.len() { name[i] } else { 0u8 })
}

/// The name field that holds `name`, which has at most 16 bytes.
pub fn pad_name(name: &[u8]) -> (r: [u8; 16])
    requires
        name@.len() <= STREAM_NAME_LEN,
    ensures
        r@ == padded_name(name@),
{
    let mut r = [0u8; 16];
    let mut i: usize = 0;
    while i < name.len()
        invariant
            name@.len() <= STREAM_NAME_LEN,
            i <= name@.len(),
            r@.len() == STREAM_NAME_LEN,
            forall|j: int| 0 <= j < i ==> r@[j] == name@[j],
            forall|j: int| i <= j < STREAM_NAME_LEN ==> r@[j] == 0u8,
        decreases name@.len() - i,
    {
        r[i] = name[i];
        i = i + 1;
    }
    assert(r@ =~= padded_name(name@));
    r
}

/// The receiving end of one stream.
pub struct VbanRecipient {
    /// The stream name asked for, NUL-padded; `None` takes every stream.
    pub stream_name: Option<[u8; 16]>,
    /// The channel count that was configured, if any.
    pub num_channels: Option<u8>,
    /// The sample rate that was configured, if any.
    pub sample_rate: Option<VBanSampleRates>,
    /// The output device to open.
    pub sink_name: String,
    /// Milliseconds of silence written to a freshly opened output.
    pub silence: u32,
    pub state: PlayerState,
}

/// The state and commands after the liveness check at `now`.
pub open spec fn spec_expire(state: PlayerState, now: u64) -> (PlayerState, Seq<SinkOp>) {
    match state {
        PlayerState::Playing { last_seen_ms, .. } if is_stale(last_seen_ms, now) => (
            PlayerState::Idle,
            seq![SinkOp::Drain, SinkOp::Close],
        ),
        _ => (state, Seq::empty()),
    }
}

impl VbanRecipient {
    /// Whether the stream name filter lets a packet named `name` through. The
    /// raw bytes of the two NUL-padded 16-byte fields are compared, which is
    /// the same as comparing them with trailing NULs trimmed; they need not
    /// be text.
    pub open spec fn admits(self, name: Seq<u8>) -> bool {
        match self.stream_name {
            None => true,
            Some(f) => f@ == name,
        }
    }

    /// The commands that open the output for `pkt`, with the pre-roll.
    pub open spec fn open_ops(self, pkt: PacketView) -> Seq<SinkOp> {
        let hz = hz_of(pkt.sample_rate);
        let open = seq![SinkOp::Open { channels: pkt.num_channels, rate_hz: hz }];
        let n = silence_len(hz, self.silence as int, pkt.num_channels);
        if n > 0 {
            open.push(SinkOp::WriteSilence(n))
        } else {
            open
        }
    }

    /// The state, commands and verdict when an audio packet comes in `state`
    /// at `now`.
    pub open spec fn spec_accept(self, state: PlayerState, now: u64, pkt: PacketView) -> (
        PlayerState,
        Seq<SinkOp>,
        Verdict,
    ) {
        let played = Verdict::Played {
            peak_left: pkt.peak_left,
            peak_right: pkt.peak_right,
            num_samples: pkt.num_samples as u16,
        };
        let format = StreamFormat { rate: pkt.sample_rate, channels: pkt.num_channels as u16 };
        let next = PlayerState::Playing { format, last_seen_ms: now };
        if !self.admits(pkt.stream_name) {
            (state, Seq::empty(), Verdict::NameMismatch)
        } else {
            match state {
                PlayerState::Idle => (
                    next,
                    self.open_ops(pkt).push(SinkOp::Write(pkt.samples)),
                    played,
                ),
                PlayerState::Playing { format: current, .. } => {
                    if current.rate == pkt.sample_rate {
                        (
                            PlayerState::Playing { format: current, last_seen_ms: now },
                            seq![SinkOp::Write(pkt.samples)],
                            played,
                        )
                    } else {
                        (
                            next,
                            seq![
                                SinkOp::Drain,
                                SinkOp::Close,
                                SinkOp::Open {
                                    channels: pkt.num_channels,
                                    rate_hz: hz_of(pkt.sample_rate),
                                },
                                SinkOp::Write(pkt.samples),
                            ],
                            played,
                        )
                    }
                },
            }
        }
    }

    /// The state, commands and verdict of one receive at `now` that gave the
    /// datagram `datagram`, or nothing before the timeout.
    pub open spec fn spec_handle(self, now: u64, datagram: Option<Seq<u8>>) -> (
        PlayerState,
        Seq<SinkOp>,
        Verdict,
    ) {
        let (state, expiry) = spec_expire(self.state, now);
        match datagram {
            None => (state, expiry, Verdict::Tick),
            Some(b) => match spec_decode(b) {
                Err(e) => (state, expiry, Verdict::Rejected(e)),
                Ok(pkt) => {
                    let (next, ops, verdict) = self.spec_accept(state, now, pkt);
                    (next, expiry + ops, verdict)
                },
            },
        }
    }

    /// A session in `Idle` with these settings, or `None` where the stream
    /// name is longer than the 16 bytes of the name field. The name is kept
    /// NUL-padded to 16 bytes.
    pub fn create(
        stream_name: Option<String>,
        numch: Option<u8>,
        sample_rate: Option<VBanSampleRates>,
        sink_name: String,
        silence: Option<u32>,
    ) -> (r: Option<VbanRecipient>)
        ensures
            r.is_none() <==> (stream_name matches Some(n)
                && encode_utf8(n@).len() > STREAM_NAME_LEN),
            r matches Some(v) ==> {
                &&& v.state == PlayerState::Idle
                &&& v.num_channels == numch
                &&& v.sample_rate == sample_rate
                &&& v.sink_name@ == sink_name@
                &&& v.silence == (match silence { Some(ms) => ms, None => 0u32 })
                &&& match stream_name {
                    None => v.stream_name is None,
                    Some(n) => v.stream_name matches Some(f) && f@ == padded_name(encode_utf8(n@)),
                }
            },
    {
        let filter = match stream_name {
            None => None,
            Some(name) => {
                let bytes = name.as_str().as_bytes();
                if bytes.len() > STREAM_NAME_LEN {
                    return None;
                }
                Some(pad_name(bytes))
            },
        };
        Some(VbanRecipient {
            stream_name: filter,
            num_channels: numch,
            sample_rate,
            sink_name,
            silence: match silence {
                Some(ms) => ms,
                None => 0,
            },
            state: PlayerState::Idle,
        })
    }

    /// This session's settings in the state `state`.
    pub open spec fn with_state(self, state: PlayerState) -> VbanRecipient {
        VbanRecipient {
            stream_name: self.stream_name,
            num_channels: self.num_channels,
            sample_rate: self.sample_rate,
            sink_name: self.sink_name,
            silence: self.silence,
            state,
        }
    }

    /// Whether `other` has the settings of `self`, whatever its state.
    pub open spec fn same_settings(self, other: VbanRecipient) -> bool {
        &&& other.stream_name == self.stream_name
        &&& other.num_channels == self.num_channels
        &&& other.sample_rate == self.sample_rate
        &&& other.sink_name@ == self.sink_name@
        &&& other.silence == self.silence
    }

    /// Closes the output of a session that has taken no audio for more than
    /// two seconds at `now_ms`.
    fn expire(&mut self, now_ms: u64, commands: &mut Vec<SinkCommand>)
        ensures
            old(self).same_settings(*final(self)),
            final(self).state == spec_expire(old(self).state, now_ms).0,
            ops_of(final(commands)@) == ops_of(old(commands)@) + spec_expire(
                old(self).state,
                now_ms,
            ).1,
    {
        let ghost before = commands@;
        if let PlayerState::Playing { last_seen_ms, .. } = self.state {
            if now_ms > last_seen_ms && now_ms - last_seen_ms > LIVENESS_TIMEOUT_MS {
                commands.push(SinkCommand::Drain);
                commands.push(SinkCommand::Close);
                self.state = PlayerState::Idle;
            }
        }
        assert(ops_of(commands@) =~= ops_of(before) + spec_expire(old(self).state, now_ms).1);
    }

    /// Whether the stream name filter lets `name` through.
    pub fn admits_name(&self, name: &[u8; 16]) -> (r: bool)
        ensures
            r == self.admits(name@),
    {
        match self.stream_name {
            None => true,
            Some(f) => {
                let mut i: usize = 0;
                while i < STREAM_NAME_LEN
                    invariant
                        self.stream_name == Some(f),
                        f@.len() == STREAM_NAME_LEN,
                        name@.len() == STREAM_NAME_LEN,
                        i <= STREAM_NAME_LEN,
                        forall|j: int| 0 <= j < i ==> f@[j] == name@[j],
                    decreases STREAM_NAME_LEN - i,
                {
                    if f[i] != name[i] {
                        assert(f@[i as int] != name@[i as int]);
                        return false;
                    }
                    i = i + 1;
                }
                assert(f@ =~= name@);
                true
            },
        }
    }

    /// Takes an audio packet at `now_ms`: the state moves and the commands
    /// for the output are appended as `spec_accept` says.
    pub fn accept(
        &mut self,
        now_ms: u64,
        pkt: AudioPacket,
        commands: &mut Vec<SinkCommand>,
    ) -> (r: Verdict)
        ensures
            old(self).same_settings(*final(self)),
            final(self).state == old(self).spec_accept(old(self).state, now_ms, pkt@).0,
            ops_of(final(commands)@) == ops_of(old(commands)@) + old(self).spec_accept(
                old(self).state,
                now_ms,
                pkt@,
            ).1,
            r == old(self).spec_accept(old(self).state, now_ms, pkt@).2,
    {
        let ghost before = commands@;
        let ghost view = pkt@;
        if !self.admits_name(&pkt.header.stream_name) {
            assert(ops_of(commands@) =~= ops_of(before) + Seq::<SinkOp>::empty());
            return Verdict::NameMismatch;
        }
        let verdict = Verdict::Played {
            peak_left: pkt.peak_left,
            peak_right: pkt.peak_right,
            num_samples: pkt.num_samples,
        };
        let rate = pkt.sample_rate;
        let channels = pkt.num_channels;
        let format = StreamFormat { rate, channels };
        match self.state {
            PlayerState::Idle => {
                let hz = rate.hz();
                commands.push(SinkCommand::Open { channels, rate_hz: hz });
                let ghost opened = commands@;
                assert(hz <= 705600);
                assert((hz as u64) * (self.silence as u64) <= 705600 * 0xffff_ffff)
                    by (nonlinear_arith)
                    requires
                        hz <= 705600,
                        self.silence <= 0xffff_ffffu32,
                ;
                let frames = (hz as u64) * (self.silence as u64) / 1000;
                assert(frames * (channels as u64) <= 3030725 * 1000000 * 0xffff) by (nonlinear_arith)
                    requires
                        frames <= 705600 * 0xffff_ffff / 1000,
                        channels <= 0xffff,
                ;
                let n = frames * (channels as u64);
                if n > 0 {
                    commands.push(SinkCommand::WriteSilence(n));
                }
                assert(ops_of(commands@) =~= ops_of(before) + old(self).open_ops(view));
                let ghost with_open = commands@;
                commands.push(SinkCommand::Write(pkt.samples));
                assert(ops_of(commands@) =~= ops_of(with_open).push(SinkOp::Write(view.samples)));
            },
            PlayerState::Playing { format: current, .. } => {
                if current.rate == rate {
                    commands.push(SinkCommand::Write(pkt.samples));
                    self.state = PlayerState::Playing { format: current, last_seen_ms: now_ms };
                    assert(ops_of(commands@) =~= ops_of(before) + old(self).spec_accept(
                        old(self).state,
                        now_ms,
                        view,
                    ).1);
                    return verdict;
                }
                commands.push(SinkCommand::Drain);
                commands.push(SinkCommand::Close);
                commands.push(SinkCommand::Open { channels, rate_hz: rate.hz() });
                commands.push(SinkCommand::Write(pkt.samples));
            },
        }
        self.state = PlayerState::Playing { format, last_seen_ms: now_ms };
        assert(ops_of(commands@) =~= ops_of(before) + old(self).spec_accept(
            old(self).state,
            now_ms,
            view,
        ).1);
        verdict
    }

    /// One turn of the receive loop at `now_ms`, with the datagram that came,
    /// or `None` where the receive timed out. First a session that has taken
    /// no audio for more than two seconds closes its output; then the
    /// datagram is decoded and, where it is audio of the stream asked for,
    /// played. The output is to carry out the commands in order.
    pub fn handle(&mut self, now_ms: u64, datagram: Option<&[u8]>) -> (r: HandleOutcome)
        ensures
            old(self).same_settings(*final(self)),
            final(self).state == old(self).spec_handle(now_ms, seq_of(datagram)).0,
            ops_of(r.commands@) == old(self).spec_handle(now_ms, seq_of(datagram)).1,
            r.verdict == old(self).spec_handle(now_ms, seq_of(datagram)).2,
    {
        let mut commands: Vec<SinkCommand> = Vec::new();
        assert(ops_of(commands@) =~= Seq::<SinkOp>::empty());
        self.expire(now_ms, &mut commands);
        let verdict = match datagram {
            None => Verdict::Tick,
            Some(b) => match decode(b) {
                Err(e) => Verdict::Rejected(e),
                Ok(pkt) => {
                    let v = self.accept(now_ms, pkt, &mut commands);
                    assert(ops_of(commands@) =~= old(self).spec_handle(now_ms, seq_of(datagram)).1);
                    v
                },
            },
        };
        HandleOutcome { commands, verdict }
    }

    /// Falls back to `Idle` after the output could not be opened, so that
    /// the next audio packet opens it anew.
    pub fn open_failed(&mut self)
        ensures
            old(self).same_settings(*final(self)),
            final(self).state == PlayerState::Idle,
    {
        self.state = PlayerState::Idle;
    }

    /// Whether an output is open.
    pub fn is_playing(&self) -> (r: bool)
        ensures
            r == (self.state !is Idle),
    {
        match self.state {
            PlayerState::Idle => false,
            PlayerState::Playing { .. } => true,
        }
    }

    /// The stream name asked for, NUL-padded.
    pub fn name(&self) -> (r: Option<[u8; 16]>)
        ensures
            r == self.stream_name,
    {
        self.stream_name
    }

    /// The rate in Hz of the open output, else the configured rate, if any.
    pub fn sample_rate(&self) -> (r: Option<u32>)
        ensures
            match self.state {
                PlayerState::Playing { format, .. } => r == Some(hz_of(format.rate) as u32),
                PlayerState::Idle => match self.sample_rate {
                    Some(rate) => r == Some(hz_of(rate) as u32),
                    None => r is None,
                },
            },
    {
        match self.state {
            PlayerState::Playing { format, .. } => Some(format.rate.hz()),
            PlayerState::Idle => match self.sample_rate {
                Some(rate) => Some(rate.hz()),
                None => None,
            },
        }
    }

    /// The channel count of the open output, else the configured count, if any.
    pub fn num_channels(&self) -> (r: Option<u16>)
        ensures
            match self.state {
                PlayerState::Playing { format, .. } => r == Some(format.channels),
                PlayerState::Idle => match self.num_channels {
                    Some(n) => r == Some(n as u16),
                    None => r is None,
                },
            },
    {
        match self.state {
            PlayerState::Playing { format, .. } => Some(format.channels),
            PlayerState::Idle => match self.num_channels {
                Some(n) => Some(n as u16),
                None => None,
            },
        }
    }
}

/// The bytes of a datagram, if one came.
pub open spec fn seq_of(datagram: Option<&[u8]>) -> Option<Seq<u8>> {
    match datagram {
        Some(b) => Some(b@),
        None => None,
    }
}

/// A datagram that does not begin with `VBAN` is refused as such, and the
/// session ends where a receive timeout would leave it: its state is kept
/// unless the liveness check closes the output.
pub proof fn lemma_non_vban_ignored(r: VbanRecipient, now: u64, b: Seq<u8>)
    requires
        !is_vban_magic(b),
    ensures
        spec_decode(b) == Err::<PacketView, DecodeError>(DecodeError::NotVban),
        r.spec_handle(now, Some(b)).0 == r.spec_handle(now, None).0,
        r.spec_handle(now, Some(b)).1 == r.spec_handle(now, None).1,
        r.spec_handle(now, Some(b)).2 == Verdict::Rejected(DecodeError::NotVban),
        r.spec_handle(now, Some(b)).0 == spec_expire(r.state, now).0,
{
}

/// The same audio packet, taken twice from `Idle` at most two seconds
/// apart: the first opens the output once for the packet's format, writes the
/// pre-roll and the samples; the second opens nothing and writes the samples
/// once more. The session plays after each.
pub proof fn lemma_same_packet_twice_from_idle(r: VbanRecipient, t1: u64, t2: u64, b: Seq<u8>)
    requires
        r.state == PlayerState::Idle,
        spec_decode(b) is Ok,
        r.admits(spec_decode(b).unwrap().stream_name),
        t2 <= t1 + LIVENESS_TIMEOUT_MS,
    ensures
        ({
            let pkt = spec_decode(b).unwrap();
            let first = r.spec_handle(t1, Some(b));
            let second = r.with_state(first.0).spec_handle(t2, Some(b));
            &&& first.1 == r.open_ops(pkt).push(SinkOp::Write(pkt.samples))
            &&& first.0 is Playing
            &&& second.1 == seq![SinkOp::Write(pkt.samples)]
            &&& second.0 is Playing
        }),
{
    let pkt = spec_decode(b).unwrap();
    let first = r.spec_handle(t1, Some(b));
    assert(Seq::<SinkOp>::empty() + r.open_ops(pkt).push(SinkOp::Write(pkt.samples))
        =~= r.open_ops(pkt).push(SinkOp::Write(pkt.samples)));
    let second = r.with_state(first.0).spec_handle(t2, Some(b));
    let write = seq![SinkOp::Write(pkt.samples)];
    assert(Seq::<SinkOp>::empty() + write =~= write);
}

/// An audio packet at the rate that the session plays, within two seconds of
/// the last: no open, one write of its samples, and the liveness time moves
/// to `now`.
pub proof fn lemma_same_rate_writes_once(r: VbanRecipient, now: u64, b: Seq<u8>)
    requires
        spec_decode(b) is Ok,
        r.admits(spec_decode(b).unwrap().stream_name),
        r.state matches PlayerState::Playing { format, last_seen_ms }
            && format.rate == spec_decode(b).unwrap().sample_rate
            && !is_stale(last_seen_ms, now),
    ensures
        ({
            let pkt = spec_decode(b).unwrap();
            let out = r.spec_handle(now, Some(b));
            &&& out.1 == seq![SinkOp::Write(pkt.samples)]
            &&& out.0 == PlayerState::Playing { format: r.state->format, last_seen_ms: now }
        }),
{
    let pkt = spec_decode(b).unwrap();
    let write = seq![SinkOp::Write(pkt.samples)];
    assert(Seq::<SinkOp>::empty() + write =~= write);
}

/// An audio packet at another rate than the one that the session plays, within
/// two seconds of the last: the output is drained and closed and opened once at
/// the new rate, the samples are written, and the session plays on.
pub proof fn lemma_rate_change_reopens(r: VbanRecipient, now: u64, b: Seq<u8>)
    requires
        spec_decode(b) is Ok,
        r.admits(spec_decode(b).unwrap().stream_name),
        r.state matches PlayerState::Playing { format, last_seen_ms }
            && format.rate != spec_decode(b).unwrap().sample_rate
            && !is_stale(last_seen_ms, now),
    ensures
        ({
            let pkt = spec_decode(b).unwrap();
            let out = r.spec_handle(now, Some(b));
            &&& out.1 == seq![
                SinkOp::Drain,
                SinkOp::Close,
                SinkOp::Open { channels: pkt.num_channels, rate_hz: hz_of(pkt.sample_rate) },
                SinkOp::Write(pkt.samples),
            ]
            &&& out.0 == PlayerState::Playing {
                format: StreamFormat { rate: pkt.sample_rate, channels: pkt.num_channels as u16 },
                last_seen_ms: now,
            }
        }),
{
    let pkt = spec_decode(b).unwrap();
    let ops = seq![
        SinkOp::Drain,
        SinkOp::Close,
        SinkOp::Open { channels: pkt.num_channels, rate_hz: hz_of(pkt.sample_rate) },
        SinkOp::Write(pkt.samples),
    ];
    assert(Seq::<SinkOp>::empty() + ops =~= ops);
}

/// A playing session that has taken no audio for more than two seconds drains
/// and closes its output once and goes `Idle`; the next audio packet that it
/// takes opens the output once.
pub proof fn lemma_stale_session_closes(r: VbanRecipient, now: u64, later: u64, b: Seq<u8>)
    requires
        r.state matches PlayerState::Playing { last_seen_ms, .. } && is_stale(last_seen_ms, now),
        spec_decode(b) is Ok,
        r.admits(spec_decode(b).unwrap().stream_name),
    ensures
        r.spec_handle(now, None) == (
            PlayerState::Idle,
            seq![SinkOp::Drain, SinkOp::Close],
            Verdict::Tick,
        ),
        ({
            let pkt = spec_decode(b).unwrap();
            let next = r.with_state(PlayerState::Idle).spec_handle(later, Some(b));
            &&& next.1 == r.open_ops(pkt).push(SinkOp::Write(pkt.samples))
            &&& next.0 is Playing
        }),
{
    let pkt = spec_decode(b).unwrap();
    assert(Seq::<SinkOp>::empty() + r.open_ops(pkt).push(SinkOp::Write(pkt.samples))
        =~= r.open_ops(pkt).push(SinkOp::Write(pkt.samples)));
}

/// An audio packet of another stream than the one asked for opens nothing,
/// writes nothing and does not move the liveness time: the session ends where
/// a receive timeout would leave it.
pub proof fn lemma_other_stream_ignored(r: VbanRecipient, now: u64, b: Seq<u8>)
    requires
        spec_decode(b) is Ok,
        !r.admits(spec_decode(b).unwrap().stream_name),
    ensures
        r.spec_handle(now, Some(b)).0 == r.spec_handle(now, None).0,
        r.spec_handle(now, Some(b)).1 == r.spec_handle(now, None).1,
        r.spec_handle(now, Some(b)).2 == Verdict::NameMismatch,
{
    assert(spec_expire(r.state, now).1 + Seq::<SinkOp>::empty() =~= spec_expire(r.state, now).1);
}

} // verus!
