//! The datagram format: a 28-byte header followed by little-endian PCM.

use vstd::prelude::*;
use vstd::string::StringExecFns;
use vstd::arithmetic::div_mod::lemma_fundamental_div_mod_converse;

verus! {

/// Length of the fixed header that precedes the payload.
pub const HEADER_LEN: usize = 28;

/// Length of the stream name field.
pub const STREAM_NAME_LEN: usize = 16;

/// Number of entries of the sample rate table.
pub const RATE_CODE_COUNT: u8 = 21;

/// The low five bits of the rate byte: the rate code.
pub open spec fn rate_code_bits(b: u8) -> int {
    b as int % 32
}

/// The high three bits of the rate byte: the sub-protocol.
pub open spec fn protocol_bits(b: u8) -> int {
    b as int / 32
}

/// The low three bits of the format byte: the sample format.
pub open spec fn resolution_bits(b: u8) -> int {
    b as int % 8
}

/// The high four bits of the format byte: the codec.
pub open spec fn codec_bits(b: u8) -> int {
    b as int / 16
}

/// Relies on byteorder's `LittleEndian::read_i16`, which reads the first two
/// bytes as `u16::from_le_bytes` and reinterprets them as `i16`.
#[verifier::external_body]
fn read_le_i16(buf: &[u8]) -> (r: i16)
    requires
        buf@.len() >= 2,
    ensures
        r as int == le_i16(buf@[0], buf@[1]),
{
    <byteorder::LittleEndian as byteorder::ByteOrder>::read_i16(buf)
}

/// Relies on byteorder's `LittleEndian::read_u32`, which reads the first four
/// bytes as `u32::from_le_bytes`.
#[verifier::external_body]
fn read_le_u32(buf: &[u8]) -> (r: u32)
    requires
        buf@.len() >= 4,
    ensures
        r as int == le_u32(buf@[0], buf@[1], buf@[2], buf@[3]),
{
    <byteorder::LittleEndian as byteorder::ByteOrder>::read_u32(buf)
}

/// The signed 16-bit value whose little-endian two's-complement encoding is `lo, hi`.
pub open spec fn le_i16(lo: u8, hi: u8) -> int {
    let u = lo as int + 256 * (hi as int);
    if u < 32768 { u } else { u - 65536 }
}

/// The unsigned 32-bit value whose little-endian encoding is `b0, b1, b2, b3`.
pub open spec fn le_u32(b0: u8, b1: u8, b2: u8, b3: u8) -> int {
    b0 as int + 256 * (b1 as int) + 65536 * (b2 as int) + 16777216 * (b3 as int)
}

/// The decimal digit `d`, below 10.
pub open spec fn digit_char(d: int) -> char {
    (('0' as int) + d) as char
}

/// The decimal notation of `n`, without leading zeros.
pub open spec fn decimal(n: nat) -> Seq<char>
    decreases n,
{
    if n < 10 {
        seq![digit_char(n as int)]
    } else {
        decimal(n / 10).push(digit_char((n % 10) as int))
    }
}

/// The one-character text of the digit `d`.
fn digit_str(d: u32) -> (r: &'static str)
    requires
        d < 10,
    ensures
        r@ == seq![digit_char(d as int)],
{
    proof {
        reveal_strlit("0");
        reveal_strlit("1");
        reveal_strlit("2");
        reveal_strlit("3");
        reveal_strlit("4");
        reveal_strlit("5");
        reveal_strlit("6");
        reveal_strlit("7");
        reveal_strlit("8");
        reveal_strlit("9");
    }
    match d {
        0 => "0",
        1 => "1",
        2 => "2",
        3 => "3",
        4 => "4",
        5 => "5",
        6 => "6",
        7 => "7",
        8 => "8",
        _ => "9",
    }
}

/// Appends the decimal notation of `n` to `s`.
fn append_decimal(s: &mut String, n: u32)
    ensures
        final(s)@ == old(s)@ + decimal(n as nat),
    decreases n,
{
    if n >= 10 {
        append_decimal(s, n / 10);
    }
    s.append(digit_str(n % 10));
    proof {
        if n >= 10 {
            let last = seq![digit_char((n % 10) as int)];
            assert(old(s)@ + decimal(n as nat) =~= old(s)@ + decimal((n / 10) as nat) + last);
        } else {
            assert(old(s)@ + decimal(n as nat) =~= old(s)@ + seq![digit_char((n % 10) as int)]);
        }
    }
}

/// The sample rates that the rate code of a datagram can name, in the order of
/// their codes.
#[derive(Copy, Clone, Debug, PartialEq, Eq, Structural)]
pub enum VBanSampleRates {
    SampleRate6000Hz,
    SampleRate12000Hz,
    SampleRate24000Hz,
    SampleRate48000Hz,
    SampleRate96000Hz,
    SampleRate192000Hz,
    SampleRate384000Hz,
    SampleRate8000Hz,
    SampleRate16000Hz,
    SampleRate32000Hz,
    SampleRate64000Hz,
    SampleRate128000Hz,
    SampleRate256000Hz,
    SampleRate512000Hz,
    SampleRate11025Hz,
    SampleRate22050Hz,
    SampleRate44100Hz,
    SampleRate88200Hz,
    SampleRate176400Hz,
    SampleRate352800Hz,
    SampleRate705600Hz,
}

/// The rate in Hz that the rate code `code` names; codes past the table name none.
pub open spec fn rate_table_hz(code: int) -> int {

    if code == 0 {
        6000
    } else if code == 1 {
        12000
    } else if code == 2 {
        24000
    } else if code == 3 {
        48000
    } else if code == 4 {
        96000
    } else if code == 5 {
        192000
    } else if code == 6 {
        384000
    } else if code == 7 {
        8000
    } else if code == 8 {
        16000
    } else if code == 9 {
        32000
    } else if code == 10 {
        64000
    } else if code == 11 {
        128000
    } else if code == 12 {
        256000
    } else if code == 13 {
        512000
    } else if code == 14 {
        11025
    } else if code == 15 {
        22050
    } else if code == 16 {
        44100
    } else if code == 17 {
        88200
    } else if code == 18 {
        176400
    } else if code == 19 {
        352800
    } else if code == 20 {
        705600
    } else {
        0
    }
}

impl VBanSampleRates {
    /// The value whose code is `code`.
    pub open spec fn spec_from_code(code: int) -> Option<VBanSampleRates> {
        if code == 0 {
            Some(VBanSampleRates::SampleRate6000Hz)
        } else if code == 1 {
            Some(VBanSampleRates::SampleRate12000Hz)
        } else if code == 2 {
            Some(VBanSampleRates::SampleRate24000Hz)
        } else if code == 3 {
            Some(VBanSampleRates::SampleRate48000Hz)
        } else if code == 4 {
            Some(VBanSampleRates::SampleRate96000Hz)
        } else if code == 5 {
            Some(VBanSampleRates::SampleRate192000Hz)
        } else if code == 6 {
            Some(VBanSampleRates::SampleRate384000Hz)
        } else if code == 7 {
            Some(VBanSampleRates::SampleRate8000Hz)
        } else if code == 8 {
            Some(VBanSampleRates::SampleRate16000Hz)
        } else if code == 9 {
            Some(VBanSampleRates::SampleRate32000Hz)
        } else if code == 10 {
            Some(VBanSampleRates::SampleRate64000Hz)
        } else if code == 11 {
            Some(VBanSampleRates::SampleRate128000Hz)
        } else if code == 12 {
            Some(VBanSampleRates::SampleRate256000Hz)
        } else if code == 13 {
            Some(VBanSampleRates::SampleRate512000Hz)
        } else if code == 14 {
            Some(VBanSampleRates::SampleRate11025Hz)
        } else if code == 15 {
            Some(VBanSampleRates::SampleRate22050Hz)
        } else if code == 16 {
            Some(VBanSampleRates::SampleRate44100Hz)
        } else if code == 17 {
            Some(VBanSampleRates::SampleRate88200Hz)
        } else if code == 18 {
            Some(VBanSampleRates::SampleRate176400Hz)
        } else if code == 19 {
            Some(VBanSampleRates::SampleRate352800Hz)
        } else if code == 20 {
            Some(VBanSampleRates::SampleRate705600Hz)
        } else {
            None
        }
    }

    /// The code of this rate on the wire.
    pub open spec fn spec_code(self) -> int {
        match self {
            VBanSampleRates::SampleRate6000Hz => 0,
            VBanSampleRates::SampleRate12000Hz => 1,
            VBanSampleRates::SampleRate24000Hz => 2,
            VBanSampleRates::SampleRate48000Hz => 3,
            VBanSampleRates::SampleRate96000Hz => 4,
            VBanSampleRates::SampleRate192000Hz => 5,
            VBanSampleRates::SampleRate384000Hz => 6,
            VBanSampleRates::SampleRate8000Hz => 7,
            VBanSampleRates::SampleRate16000Hz => 8,
            VBanSampleRates::SampleRate32000Hz => 9,
            VBanSampleRates::SampleRate64000Hz => 10,
            VBanSampleRates::SampleRate128000Hz => 11,
            VBanSampleRates::SampleRate256000Hz => 12,
            VBanSampleRates::SampleRate512000Hz => 13,
            VBanSampleRates::SampleRate11025Hz => 14,
            VBanSampleRates::SampleRate22050Hz => 15,
            VBanSampleRates::SampleRate44100Hz => 16,
            VBanSampleRates::SampleRate88200Hz => 17,
            VBanSampleRates::SampleRate176400Hz => 18,
            VBanSampleRates::SampleRate352800Hz => 19,
            VBanSampleRates::SampleRate705600Hz => 20,
        }
    }

    /// The code of this rate on the wire.
    pub fn code(&self) -> (r: u8)
        ensures
            r as int == self.spec_code(),
    {
        match self {
            VBanSampleRates::SampleRate6000Hz => 0,
            VBanSampleRates::SampleRate12000Hz => 1,
            VBanSampleRates::SampleRate24000Hz => 2,
            VBanSampleRates::SampleRate48000Hz => 3,
            VBanSampleRates::SampleRate96000Hz => 4,
            VBanSampleRates::SampleRate192000Hz => 5,
            VBanSampleRates::SampleRate384000Hz => 6,
            VBanSampleRates::SampleRate8000Hz => 7,
            VBanSampleRates::SampleRate16000Hz => 8,
            VBanSampleRates::SampleRate32000Hz => 9,
            VBanSampleRates::SampleRate64000Hz => 10,
            VBanSampleRates::SampleRate128000Hz => 11,
            VBanSampleRates::SampleRate256000Hz => 12,
            VBanSampleRates::SampleRate512000Hz => 13,
            VBanSampleRates::SampleRate11025Hz => 14,
            VBanSampleRates::SampleRate22050Hz => 15,
            VBanSampleRates::SampleRate44100Hz => 16,
            VBanSampleRates::SampleRate88200Hz => 17,
            VBanSampleRates::SampleRate176400Hz => 18,
            VBanSampleRates::SampleRate352800Hz => 19,
            VBanSampleRates::SampleRate705600Hz => 20,
        }
    }

    /// The rate in Hz.
    pub fn hz(&self) -> (r: u32)
        ensures
            r as int == rate_table_hz(self.spec_code()),
    {
        match self {
            VBanSampleRates::SampleRate6000Hz => 6000,
            VBanSampleRates::SampleRate12000Hz => 12000,
            VBanSampleRates::SampleRate24000Hz => 24000,
            VBanSampleRates::SampleRate48000Hz => 48000,
            VBanSampleRates::SampleRate96000Hz => 96000,
            VBanSampleRates::SampleRate192000Hz => 192000,
            VBanSampleRates::SampleRate384000Hz => 384000,
            VBanSampleRates::SampleRate8000Hz => 8000,
            VBanSampleRates::SampleRate16000Hz => 16000,
            VBanSampleRates::SampleRate32000Hz => 32000,
            VBanSampleRates::SampleRate64000Hz => 64000,
            VBanSampleRates::SampleRate128000Hz => 128000,
            VBanSampleRates::SampleRate256000Hz => 256000,
            VBanSampleRates::SampleRate512000Hz => 512000,
            VBanSampleRates::SampleRate11025Hz => 11025,
            VBanSampleRates::SampleRate22050Hz => 22050,
            VBanSampleRates::SampleRate44100Hz => 44100,
            VBanSampleRates::SampleRate88200Hz => 88200,
            VBanSampleRates::SampleRate176400Hz => 176400,
            VBanSampleRates::SampleRate352800Hz => 352800,
            VBanSampleRates::SampleRate705600Hz => 705600,
        }
    }

    /// The rate as text: its Hz in decimal, then ` Hz`, as in `48000 Hz`.
    pub fn to_string(&self) -> (r: String)
        ensures
            r@ == decimal(rate_table_hz(self.spec_code()) as nat) + seq![' ', 'H', 'z'],
    {
        let mut r = String::new();
        append_decimal(&mut r, self.hz());
        r.append(" Hz");
        proof {
            reveal_strlit(" Hz");
            assert(r@ =~= decimal(rate_table_hz(self.spec_code()) as nat) + seq![' ', 'H', 'z']);
        }
        r
    }

    /// The rate that `code` names, or `None` for a code past the table.
    pub fn from_code(code: u8) -> (r: Option<VBanSampleRates>)
        ensures
            r == VBanSampleRates::spec_from_code(code as int),
            r.is_some() <==> code < RATE_CODE_COUNT,
            r matches Some(rate) ==> rate.spec_code() == code as int,
    {
        match code {
            0 => Some(VBanSampleRates::SampleRate6000Hz),
            1 => Some(VBanSampleRates::SampleRate12000Hz),
            2 => Some(VBanSampleRates::SampleRate24000Hz),
            3 => Some(VBanSampleRates::SampleRate48000Hz),
            4 => Some(VBanSampleRates::SampleRate96000Hz),
            5 => Some(VBanSampleRates::SampleRate192000Hz),
            6 => Some(VBanSampleRates::SampleRate384000Hz),
            7 => Some(VBanSampleRates::SampleRate8000Hz),
            8 => Some(VBanSampleRates::SampleRate16000Hz),
            9 => Some(VBanSampleRates::SampleRate32000Hz),
            10 => Some(VBanSampleRates::SampleRate64000Hz),
            11 => Some(VBanSampleRates::SampleRate128000Hz),
            12 => Some(VBanSampleRates::SampleRate256000Hz),
            13 => Some(VBanSampleRates::SampleRate512000Hz),
            14 => Some(VBanSampleRates::SampleRate11025Hz),
            15 => Some(VBanSampleRates::SampleRate22050Hz),
            16 => Some(VBanSampleRates::SampleRate44100Hz),
            17 => Some(VBanSampleRates::SampleRate88200Hz),
            18 => Some(VBanSampleRates::SampleRate176400Hz),
            19 => Some(VBanSampleRates::SampleRate352800Hz),
            20 => Some(VBanSampleRates::SampleRate705600Hz),
            _ => None,
        }
    }
}

/// The sub-protocol that the high three bits of the rate byte select.
#[derive(Copy, Clone, Debug, PartialEq, Eq, Structural)]
pub enum VBanProtocol {
    VbanProtocolAudio,
    VbanProtocolSerial,
    VbanProtocolTxt,
    VbanProtocolService,
    VbanProtocolUndefined1,
    VbanProtocolUndefined2,
    VbanProtocolUndefined3,
    VbanProtocolUndefined4,
}

impl VBanProtocol {
    /// The value whose code is `code`.
    pub open spec fn spec_from_code(code: int) -> VBanProtocol {
        if code == 0 {
            VBanProtocol::VbanProtocolAudio
        } else if code == 1 {
            VBanProtocol::VbanProtocolSerial
        } else if code == 2 {
            VBanProtocol::VbanProtocolTxt
        } else if code == 3 {
            VBanProtocol::VbanProtocolService
        } else if code == 4 {
            VBanProtocol::VbanProtocolUndefined1
        } else if code == 5 {
            VBanProtocol::VbanProtocolUndefined2
        } else if code == 6 {
            VBanProtocol::VbanProtocolUndefined3
        } else {
            VBanProtocol::VbanProtocolUndefined4
        }
    }

    /// The value of the high three bits that select this protocol.
    pub open spec fn spec_code(self) -> int {
        match self {
            VBanProtocol::VbanProtocolAudio => 0,
            VBanProtocol::VbanProtocolSerial => 1,
            VBanProtocol::VbanProtocolTxt => 2,
            VBanProtocol::VbanProtocolService => 3,
            VBanProtocol::VbanProtocolUndefined1 => 4,
            VBanProtocol::VbanProtocolUndefined2 => 5,
            VBanProtocol::VbanProtocolUndefined3 => 6,
            VBanProtocol::VbanProtocolUndefined4 => 7,
        }
    }

    /// The value of the high three bits that select this protocol.
    pub fn code(&self) -> (r: u8)
        ensures
            r as int == self.spec_code(),
    {
        match self {
            VBanProtocol::VbanProtocolAudio => 0,
            VBanProtocol::VbanProtocolSerial => 1,
            VBanProtocol::VbanProtocolTxt => 2,
            VBanProtocol::VbanProtocolService => 3,
            VBanProtocol::VbanProtocolUndefined1 => 4,
            VBanProtocol::VbanProtocolUndefined2 => 5,
            VBanProtocol::VbanProtocolUndefined3 => 6,
            VBanProtocol::VbanProtocolUndefined4 => 7,
        }
    }

    /// The protocol that the rate byte `b` selects.
    pub fn from_rate_byte(b: u8) -> (r: VBanProtocol)
        ensures
            r == VBanProtocol::spec_from_code(protocol_bits(b)),
    {
        match b / 32 {
            0 => VBanProtocol::VbanProtocolAudio,
            1 => VBanProtocol::VbanProtocolSerial,
            2 => VBanProtocol::VbanProtocolTxt,
            3 => VBanProtocol::VbanProtocolService,
            4 => VBanProtocol::VbanProtocolUndefined1,
            5 => VBanProtocol::VbanProtocolUndefined2,
            6 => VBanProtocol::VbanProtocolUndefined3,
            _ => VBanProtocol::VbanProtocolUndefined4,
        }
    }
}

/// The sample format that the low three bits of the format byte select.
#[derive(Copy, Clone, Debug, PartialEq, Eq, Structural)]
pub enum VBanBitResolution {
    VbanBitfmt8Int,
    VbanBitfmt16Int,
    VbanBitfmt24Int,
    VbanBitfmt32Int,
    VbanBitfmt32Float,
    VbanBitfmt64Float,
    VbanBitfmt12Int,
    VbanBitfmt10Int,
}

impl VBanBitResolution {
    /// The value whose code is `code`.
    pub open spec fn spec_from_code(code: int) -> VBanBitResolution {
        if code == 0 {
            VBanBitResolution::VbanBitfmt8Int
        } else if code == 1 {
            VBanBitResolution::VbanBitfmt16Int
        } else if code == 2 {
            VBanBitResolution::VbanBitfmt24Int
        } else if code == 3 {
            VBanBitResolution::VbanBitfmt32Int
        } else if code == 4 {
            VBanBitResolution::VbanBitfmt32Float
        } else if code == 5 {
            VBanBitResolution::VbanBitfmt64Float
        } else if code == 6 {
            VBanBitResolution::VbanBitfmt12Int
        } else {
            VBanBitResolution::VbanBitfmt10Int
        }
    }

    /// The value of the low three bits that select this format.
    pub open spec fn spec_code(self) -> int {
        match self {
            VBanBitResolution::VbanBitfmt8Int => 0,
            VBanBitResolution::VbanBitfmt16Int => 1,
            VBanBitResolution::VbanBitfmt24Int => 2,
            VBanBitResolution::VbanBitfmt32Int => 3,
            VBanBitResolution::VbanBitfmt32Float => 4,
            VBanBitResolution::VbanBitfmt64Float => 5,
            VBanBitResolution::VbanBitfmt12Int => 6,
            VBanBitResolution::VbanBitfmt10Int => 7,
        }
    }

    /// The value of the low three bits that select this format.
    pub fn code(&self) -> (r: u8)
        ensures
            r as int == self.spec_code(),
    {
        match self {
            VBanBitResolution::VbanBitfmt8Int => 0,
            VBanBitResolution::VbanBitfmt16Int => 1,
            VBanBitResolution::VbanBitfmt24Int => 2,
            VBanBitResolution::VbanBitfmt32Int => 3,
            VBanBitResolution::VbanBitfmt32Float => 4,
            VBanBitResolution::VbanBitfmt64Float => 5,
            VBanBitResolution::VbanBitfmt12Int => 6,
            VBanBitResolution::VbanBitfmt10Int => 7,
        }
    }

    /// The format that the format byte `b` selects.
    pub fn from_format_byte(b: u8) -> (r: VBanBitResolution)
        ensures
            r == VBanBitResolution::spec_from_code(resolution_bits(b)),
    {
        match b % 8 {
            0 => VBanBitResolution::VbanBitfmt8Int,
            1 => VBanBitResolution::VbanBitfmt16Int,
            2 => VBanBitResolution::VbanBitfmt24Int,
            3 => VBanBitResolution::VbanBitfmt32Int,
            4 => VBanBitResolution::VbanBitfmt32Float,
            5 => VBanBitResolution::VbanBitfmt64Float,
            6 => VBanBitResolution::VbanBitfmt12Int,
            _ => VBanBitResolution::VbanBitfmt10Int,
        }
    }

    /// The width of one sample in bytes, where this format has a whole-byte width.
    pub open spec fn spec_byte_width(self) -> Option<int> {
        match self {
            VBanBitResolution::VbanBitfmt8Int => Some(1),
            VBanBitResolution::VbanBitfmt16Int => Some(2),
            VBanBitResolution::VbanBitfmt24Int => Some(3),
            VBanBitResolution::VbanBitfmt32Int => Some(4),
            VBanBitResolution::VbanBitfmt32Float => Some(4),
            VBanBitResolution::VbanBitfmt64Float => Some(8),
            _ => None,
        }
    }

    /// The width of one sample in bytes; `None` for the 12- and 10-bit formats,
    /// which have no whole-byte width.
    pub fn byte_width(&self) -> (r: Option<u8>)
        ensures
            r matches Some(w) ==> self.spec_byte_width() == Some(w as int),
            r is None ==> self.spec_byte_width() is None,
    {
        match self {
            VBanBitResolution::VbanBitfmt8Int => Some(1),
            VBanBitResolution::VbanBitfmt16Int => Some(2),
            VBanBitResolution::VbanBitfmt24Int => Some(3),
            VBanBitResolution::VbanBitfmt32Int => Some(4),
            VBanBitResolution::VbanBitfmt32Float => Some(4),
            VBanBitResolution::VbanBitfmt64Float => Some(8),
            _ => None,
        }
    }
}

/// The codec that the high four bits of the format byte select.
#[derive(Copy, Clone, Debug, PartialEq, Eq, Structural)]
pub enum VBanCodec {
    VbanCodecPcm,
    VbanCodecVbca,
    VbanCodecVbcv,
    VbanCodecUndefined3,
    VbanCodecUndefined4,
    VbanCodecUndefined5,
    VbanCodecUndefined6,
    VbanCodecUndefined7,
    VbanCodecUndefined8,
    VbanCodecUndefined9,
    VbanCodecUndefined10,
    VbanCodecUndefined11,
    VbanCodecUndefined12,
    VbanCodecUndefined13,
    VbanCodecUndefined14,
    VbanCodecUser,
}

impl VBanCodec {
    /// The value whose code is `code`.
    pub open spec fn spec_from_code(code: int) -> VBanCodec {
        if code == 0 {
            VBanCodec::VbanCodecPcm
        } else if code == 1 {
            VBanCodec::VbanCodecVbca
        } else if code == 2 {
            VBanCodec::VbanCodecVbcv
        } else if code == 3 {
            VBanCodec::VbanCodecUndefined3
        } else if code == 4 {
            VBanCodec::VbanCodecUndefined4
        } else if code == 5 {
            VBanCodec::VbanCodecUndefined5
        } else if code == 6 {
            VBanCodec::VbanCodecUndefined6
        } else if code == 7 {
            VBanCodec::VbanCodecUndefined7
        } else if code == 8 {
            VBanCodec::VbanCodecUndefined8
        } else if code == 9 {
            VBanCodec::VbanCodecUndefined9
        } else if code == 10 {
            VBanCodec::VbanCodecUndefined10
        } else if code == 11 {
            VBanCodec::VbanCodecUndefined11
        } else if code == 12 {
            VBanCodec::VbanCodecUndefined12
        } else if code == 13 {
            VBanCodec::VbanCodecUndefined13
        } else if code == 14 {
            VBanCodec::VbanCodecUndefined14
        } else {
            VBanCodec::VbanCodecUser
        }
    }

    /// The value of the high four bits that select this codec.
    pub open spec fn spec_code(self) -> int {
        match self {
            VBanCodec::VbanCodecPcm => 0,
            VBanCodec::VbanCodecVbca => 1,
            VBanCodec::VbanCodecVbcv => 2,
            VBanCodec::VbanCodecUndefined3 => 3,
            VBanCodec::VbanCodecUndefined4 => 4,
            VBanCodec::VbanCodecUndefined5 => 5,
            VBanCodec::VbanCodecUndefined6 => 6,
            VBanCodec::VbanCodecUndefined7 => 7,
            VBanCodec::VbanCodecUndefined8 => 8,
            VBanCodec::VbanCodecUndefined9 => 9,
            VBanCodec::VbanCodecUndefined10 => 10,
            VBanCodec::VbanCodecUndefined11 => 11,
            VBanCodec::VbanCodecUndefined12 => 12,
            VBanCodec::VbanCodecUndefined13 => 13,
            VBanCodec::VbanCodecUndefined14 => 14,
            VBanCodec::VbanCodecUser => 15,
        }
    }

    /// The value of the high four bits that select this codec.
    pub fn code(&self) -> (r: u8)
        ensures
            r as int == self.spec_code(),
    {
        match self {
            VBanCodec::VbanCodecPcm => 0,
            VBanCodec::VbanCodecVbca => 1,
            VBanCodec::VbanCodecVbcv => 2,
            VBanCodec::VbanCodecUndefined3 => 3,
            VBanCodec::VbanCodecUndefined4 => 4,
            VBanCodec::VbanCodecUndefined5 => 5,
            VBanCodec::VbanCodecUndefined6 => 6,
            VBanCodec::VbanCodecUndefined7 => 7,
            VBanCodec::VbanCodecUndefined8 => 8,
            VBanCodec::VbanCodecUndefined9 => 9,
            VBanCodec::VbanCodecUndefined10 => 10,
            VBanCodec::VbanCodecUndefined11 => 11,
            VBanCodec::VbanCodecUndefined12 => 12,
            VBanCodec::VbanCodecUndefined13 => 13,
            VBanCodec::VbanCodecUndefined14 => 14,
            VBanCodec::VbanCodecUser => 15,
        }
    }

    /// The codec that the format byte `b` selects.
    pub fn from_format_byte(b: u8) -> (r: VBanCodec)
        ensures
            r == VBanCodec::spec_from_code(codec_bits(b)),
    {
        match b / 16 {
            0 => VBanCodec::VbanCodecPcm,
            1 => VBanCodec::VbanCodecVbca,
            2 => VBanCodec::VbanCodecVbcv,
            3 => VBanCodec::VbanCodecUndefined3,
            4 => VBanCodec::VbanCodecUndefined4,
            5 => VBanCodec::VbanCodecUndefined5,
            6 => VBanCodec::VbanCodecUndefined6,
            7 => VBanCodec::VbanCodecUndefined7,
            8 => VBanCodec::VbanCodecUndefined8,
            9 => VBanCodec::VbanCodecUndefined9,
            10 => VBanCodec::VbanCodecUndefined10,
            11 => VBanCodec::VbanCodecUndefined11,
            12 => VBanCodec::VbanCodecUndefined12,
            13 => VBanCodec::VbanCodecUndefined13,
            14 => VBanCodec::VbanCodecUndefined14,
            _ => VBanCodec::VbanCodecUser,
        }
    }
}
/// The fixed header of a datagram, field by field as it stands on the wire.
#[derive(Copy, Clone, Debug)]
pub struct VBanHeader {
    pub preamble: [u8; 4],
    pub sample_rate: u8,
    pub num_samples: u8,
    pub num_channels: u8,
    pub sample_format: u8,
    pub stream_name: [u8; 16],
    pub nu_frame: u32,
}

impl VBanHeader {
    /// Whether this header holds the fields of the first 28 bytes of `b`.
    pub open spec fn is_prefix_of(self, b: Seq<u8>) -> bool {
        &&& b.len() >= HEADER_LEN
        &&& self.preamble@ == b.subrange(0, 4)
        &&& self.sample_rate == b[4]
        &&& self.num_samples == b[5]
        &&& self.num_channels == b[6]
        &&& self.sample_format == b[7]
        &&& self.stream_name@ == b.subrange(8, 24)
        &&& self.nu_frame as int == le_u32(b[24], b[25], b[26], b[27])
    }

    /// Splits the first 28 bytes of `buf` into the header's fields.
    pub fn from_prefix(buf: &[u8]) -> (r: VBanHeader)
        requires
            buf@.len() >= HEADER_LEN,
        ensures
            r.is_prefix_of(buf@),
    {
        let preamble = [buf[0], buf[1], buf[2], buf[3]];
        let stream_name = [
            buf[8], buf[9], buf[10], buf[11], buf[12], buf[13], buf[14], buf[15],
            buf[16], buf[17], buf[18], buf[19], buf[20], buf[21], buf[22], buf[23],
        ];
        let nu_frame = read_le_u32(&buf[24..28]);
        assert(preamble@ =~= buf@.subrange(0, 4));
        assert(stream_name@ =~= buf@.subrange(8, 24));
        VBanHeader {
            preamble,
            sample_rate: buf[4],
            num_samples: buf[5],
            num_channels: buf[6],
            sample_format: buf[7],
            stream_name,
            nu_frame,
        }
    }
}

/// Why a datagram was not taken as audio.
#[derive(Copy, Clone, Debug, PartialEq, Eq, Structural)]
pub enum DecodeError {
    /// The datagram does not begin with the ASCII magic `VBAN`.
    NotVban,
    /// The datagram is shorter than the header.
    Truncated,
    /// The header selects a sub-protocol other than audio.
    UnsupportedProtocol(VBanProtocol),
    /// The header selects a codec other than PCM.
    UnsupportedCodec(VBanCodec),
    /// The header selects a sample format other than 16-bit integers.
    UnsupportedResolution(VBanBitResolution),
    /// The rate code (held here) lies past the sample rate table.
    InvalidSampleRate(u8),
}

/// Whether `b` begins with the ASCII magic `VBAN`.
pub open spec fn is_vban_magic(b: Seq<u8>) -> bool {
    &&& b.len() >= 4
    &&& b[0] == 0x56u8
    &&& b[1] == 0x42u8
    &&& b[2] == 0x41u8
    &&& b[3] == 0x4eu8
}

/// The samples of a little-endian 16-bit PCM payload; a trailing odd byte is
/// no sample.
pub open spec fn pcm_samples(p: Seq<u8>) -> Seq<i16> {
    Seq::new((p.len() / 2) as nat, |i: int| le_i16(p[2 * i], p[2 * i + 1]) as i16)
}

/// The largest sample of channel `ch` among the interleaved samples `s` of
/// `channels` channels, or 0 where none is larger: the largest positive
/// excursion, not an absolute value.
pub open spec fn channel_peak(s: Seq<i16>, channels: int, ch: int) -> i16
    decreases s.len(),
{
    if s.len() == 0 {
        0
    } else {
        let rest = channel_peak(s.drop_last(), channels, ch);
        if (s.len() - 1) % channels == ch && s.last() > rest {
            s.last()
        } else {
            rest
        }
    }
}

/// What a datagram that was taken as audio holds.
pub struct AudioPacket {
    pub header: VBanHeader,
    pub sample_rate: VBanSampleRates,
    /// Number of interleaved channels, 1 to 256.
    pub num_channels: u16,
    /// Number of samples per channel that the header declares, 1 to 256.
    pub num_samples: u16,
    /// The payload's samples in the order of the wire.
    pub samples: Vec<i16>,
    /// The largest sample of channel 0, or 0.
    pub peak_left: i16,
    /// The largest sample of channel 1, or 0.
    pub peak_right: i16,
}

/// The packet that decoding a datagram yields.
pub struct PacketView {
    pub sample_rate: VBanSampleRates,
    pub num_channels: int,
    pub num_samples: int,
    pub stream_name: Seq<u8>,
    pub frame_counter: int,
    pub samples: Seq<i16>,
    pub peak_left: i16,
    pub peak_right: i16,
}

impl View for AudioPacket {
    type V = PacketView;

    open spec fn view(&self) -> PacketView {
        PacketView {
            sample_rate: self.sample_rate,
            num_channels: self.num_channels as int,
            num_samples: self.num_samples as int,
            stream_name: self.header.stream_name@,
            frame_counter: self.header.nu_frame as int,
            samples: self.samples@,
            peak_left: self.peak_left,
            peak_right: self.peak_right,
        }
    }
}

/// What decoding the datagram `b` gives: the checks go in the order magic,
/// length, protocol, codec, sample format, rate code.
pub open spec fn spec_decode(b: Seq<u8>) -> Result<PacketView, DecodeError> {
    if !is_vban_magic(b) {
        Err(DecodeError::NotVban)
    } else if b.len() < HEADER_LEN {
        Err(DecodeError::Truncated)
    } else if protocol_bits(b[4]) != 0 {
        Err(DecodeError::UnsupportedProtocol(VBanProtocol::spec_from_code(protocol_bits(b[4]))))
    } else if codec_bits(b[7]) != 0 {
        Err(DecodeError::UnsupportedCodec(VBanCodec::spec_from_code(codec_bits(b[7]))))
    } else if VBanBitResolution::spec_from_code(resolution_bits(b[7])).spec_byte_width() != Some(
        2int,
    ) {
        Err(
            DecodeError::UnsupportedResolution(
                VBanBitResolution::spec_from_code(resolution_bits(b[7])),
            ),
        )
    } else if rate_code_bits(b[4]) >= RATE_CODE_COUNT {
        Err(DecodeError::InvalidSampleRate(rate_code_bits(b[4]) as u8))
    } else {
        let channels = b[6] as int + 1;
        let samples = pcm_samples(b.subrange(HEADER_LEN as int, b.len() as int));
        Ok(
            PacketView {
                sample_rate: VBanSampleRates::spec_from_code(rate_code_bits(b[4])).unwrap(),
                num_channels: channels,
                num_samples: b[5] as int + 1,
                stream_name: b.subrange(8, 24),
                frame_counter: le_u32(b[24], b[25], b[26], b[27]),
                samples,
                peak_left: channel_peak(samples, channels, 0),
                peak_right: channel_peak(samples, channels, 1),
            },
        )
    }
}

/// Whether `b` begins with the ASCII magic `VBAN`.
pub fn has_magic(b: &[u8]) -> (r: bool)
    ensures
        r == is_vban_magic(b@),
{
    b.len() >= 4 && b[0] == 0x56u8 && b[1] == 0x42u8 && b[2] == 0x41u8 && b[3] == 0x4eu8
}

/// Converts the little-endian payload `p` to samples, and finds the peaks of
/// channels 0 and 1 among `channels` interleaved channels.
pub fn convert_payload(p: &[u8], channels: u16) -> (r: (Vec<i16>, i16, i16))
    requires
        channels >= 1,
    ensures
        r.0@ == pcm_samples(p@),
        r.1 == channel_peak(r.0@, channels as int, 0),
        r.2 == channel_peak(r.0@, channels as int, 1),
{
    let len = p.len();
    let n = len / 2;
    let mut samples: Vec<i16> = Vec::with_capacity(n);
    let mut left: i16 = 0;
    let mut right: i16 = 0;
    let mut ch: u16 = 0;
    let mut i: usize = 0;
    let ghost mut rounds: int = 0;
    while i < n
        invariant
            len == p@.len(),
            n == len / 2,
            i <= n,
            channels >= 1,
            ch < channels,
            i as int == rounds * channels as int + ch as int,
            ch as int == i as int % channels as int,
            samples@ == pcm_samples(p@).subrange(0, i as int),
            left == channel_peak(samples@, channels as int, 0),
            right == channel_peak(samples@, channels as int, 1),
        decreases n - i,
    {
        assert(2 * i + 2 <= p@.len());
        let s = read_le_i16(&p[2 * i..2 * i + 2]);
        let ghost before = samples@;
        samples.push(s);
        assert(samples@.drop_last() =~= before);
        if ch == 0 && s > left {
            left = s;
        }
        if ch == 1 && s > right {
            right = s;
        }
        i = i + 1;
        if ch + 1 == channels {
            ch = 0;
            proof {
                rounds = rounds + 1;
                assert(i as int == rounds * channels as int) by (nonlinear_arith)
                    requires
                        i as int == (rounds - 1) * channels as int + channels as int,
                ;
            }
        } else {
            ch = ch + 1;
        }
        proof {
            lemma_fundamental_div_mod_converse(i as int, channels as int, rounds, ch as int);
        }
        assert(samples@ =~= pcm_samples(p@).subrange(0, i as int));
    }
    assert(samples@ =~= pcm_samples(p@));
    (samples, left, right)
}

/// Decodes a datagram. A datagram is taken as audio only where it begins with
/// `VBAN`, holds the whole header, and declares the audio sub-protocol, the PCM
/// codec, 16-bit integer samples and a rate code of the table; every other
/// datagram is refused with the reason, never with a panic.
pub fn decode(b: &[u8]) -> (r: Result<AudioPacket, DecodeError>)
    ensures
        match r {
            Ok(pkt) => spec_decode(b@) == Ok::<PacketView, DecodeError>(pkt@),
            Err(e) => spec_decode(b@) == Err::<PacketView, DecodeError>(e),
        },
        r.is_ok() ==> r.unwrap().header.is_prefix_of(b@),
{
    if !has_magic(b) {
        return Err(DecodeError::NotVban);
    }
    if b.len() < HEADER_LEN {
        return Err(DecodeError::Truncated);
    }
    let header = VBanHeader::from_prefix(b);
    let protocol = VBanProtocol::from_rate_byte(header.sample_rate);
    if protocol != VBanProtocol::VbanProtocolAudio {
        return Err(DecodeError::UnsupportedProtocol(protocol));
    }
    let codec = VBanCodec::from_format_byte(header.sample_format);
    if codec != VBanCodec::VbanCodecPcm {
        return Err(DecodeError::UnsupportedCodec(codec));
    }
    let resolution = VBanBitResolution::from_format_byte(header.sample_format);
    match resolution.byte_width() {
        Some(2) => {},
        _ => {
            return Err(DecodeError::UnsupportedResolution(resolution));
        },
    }
    let code = header.sample_rate % 32;
    let sample_rate = match VBanSampleRates::from_code(code) {
        Some(rate) => rate,
        None => {
            return Err(DecodeError::InvalidSampleRate(code));
        },
    };
    let num_channels = header.num_channels as u16 + 1;
    let (samples, peak_left, peak_right) = convert_payload(&b[HEADER_LEN..b.len()], num_channels);
    let pkt = AudioPacket {
        header,
        sample_rate,
        num_channels,
        num_samples: header.num_samples as u16 + 1,
        samples,
        peak_left,
        peak_right,
    };
    assert(pkt@ =~= spec_decode(b@).unwrap());
    Ok(pkt)
}

/// Every accepted datagram declares the channel count and the sample count of
/// its header bytes 6 and 5 plus one, each from 1 to 256.
pub proof fn lemma_accepted_counts(b: Seq<u8>)
    requires
        spec_decode(b) is Ok,
    ensures
        spec_decode(b).unwrap().num_channels == b[6] as int + 1,
        spec_decode(b).unwrap().num_samples == b[5] as int + 1,
        1 <= spec_decode(b).unwrap().num_channels <= 256,
        1 <= spec_decode(b).unwrap().num_samples <= 256,
{
}

/// The rate code names the table entry of its index: codes 0 to 20 give a rate
/// with that code, codes 21 to 31 give none.
pub proof fn lemma_rate_code_table(code: int)
    requires
        0 <= code < 32,
    ensures
        code < RATE_CODE_COUNT ==> (VBanSampleRates::spec_from_code(code) matches Some(rate)
            && rate.spec_code() == code),
        code >= RATE_CODE_COUNT ==> VBanSampleRates::spec_from_code(code) is None,
{
}

/// A datagram that passes the checks that come before the rate code decodes,
/// for a code below 21, to the rate of that code, whose `hz` is the table's
/// entry at the code, and is refused with the code otherwise.
pub proof fn lemma_rate_code_decoding(b: Seq<u8>)
    requires
        is_vban_magic(b),
        b.len() >= HEADER_LEN,
        protocol_bits(b[4]) == 0,
        codec_bits(b[7]) == 0,
        resolution_bits(b[7]) == 1,
    ensures
        rate_code_bits(b[4]) < RATE_CODE_COUNT ==> (spec_decode(b) matches Ok(pkt)
            && pkt.sample_rate.spec_code() == rate_code_bits(b[4])),
        rate_code_bits(b[4]) >= RATE_CODE_COUNT ==> spec_decode(b) == Err::<PacketView, DecodeError>(
            DecodeError::InvalidSampleRate(rate_code_bits(b[4]) as u8),
        ),
{
    lemma_rate_code_table(rate_code_bits(b[4]));
}

} // verus!
