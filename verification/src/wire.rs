//! Wire codec of the control protocol.
//!
//! A request is one JSON value of the shape `{"command":[<name>,<arg>...]}`,
//! terminated by a newline byte.  The codec works at the byte level: the only
//! variable pieces are a file path (a JSON string, escaped byte by byte), a
//! volume (a decimal integer) and a seek offset (a signed decimal integer).

use vstd::prelude::*;
use vstd::string::StringSliceAdditionalSpecFns;

verus! {

/// The wire protocol delimits every message with this byte.
pub const MESSAGE_DELIMITER: u8 = 10;

// ---------------------------------------------------------------------------
// Specification: JSON string escaping, byte by byte.
// ---------------------------------------------------------------------------

/// The lower-case hexadecimal digit for a value below 16.
pub open spec fn hex_digit(n: u8) -> u8 {
    if n < 10 {
        (0x30 + n) as u8
    } else {
        (0x61 + (n - 10)) as u8
    }
}

/// How one byte of a string appears inside a JSON string literal: a quote or
/// a backslash is preceded by a backslash, a control byte becomes a six-byte
/// `\u00XY` escape, and every other byte (including UTF-8 continuation
/// bytes) passes through unchanged.
pub open spec fn escape_byte(b: u8) -> Seq<u8> {
    if b == 0x22 {
        seq![0x5cu8, 0x22u8]
    } else if b == 0x5c {
        seq![0x5cu8, 0x5cu8]
    } else if b < 0x20 {
        seq![0x5cu8, 0x75u8, 0x30u8, 0x30u8, hex_digit(b / 16), hex_digit(b % 16)]
    } else {
        seq![b]
    }
}

/// A whole byte string escaped for use inside a JSON string literal.
pub open spec fn escape_bytes(s: Seq<u8>) -> Seq<u8>
    decreases s.len(),
{
    if s.len() == 0 {
        Seq::empty()
    } else {
        escape_bytes(s.drop_last()) + escape_byte(s.last())
    }
}

// ---------------------------------------------------------------------------
// Specification: decimal rendering of integers.
// ---------------------------------------------------------------------------

/// The decimal digits of a natural number, most significant first.
pub open spec fn dec_digits(n: nat) -> Seq<u8>
    decreases n,
{
    if n < 10 {
        seq![(0x30 + n) as u8]
    } else {
        dec_digits(n / 10) + seq![(0x30 + n % 10) as u8]
    }
}

/// The decimal rendering of an integer, with a leading minus sign when it is
/// negative.
pub open spec fn dec_digits_signed(n: int) -> Seq<u8> {
    if n < 0 {
        seq![0x2du8] + dec_digits((-n) as nat)
    } else {
        dec_digits(n as nat)
    }
}

// ---------------------------------------------------------------------------
// Requests and their wire form.
// ---------------------------------------------------------------------------

/// One typed request of the control protocol.
pub enum Request {
    /// Load the file at `path`, replacing any current playback.
    LoadFile { path: String },
    /// Set the pause flag.
    SetPause { paused: bool },
    /// Set the volume property; the caller is responsible for the valid
    /// range (0-100), no clamping is performed.
    SetVolume { volume: u32 },
    /// Stop playback.
    Stop,
    /// Seek by a signed offset in seconds, relative to the current position.
    Seek { seconds: i64 },
}

/// The mathematical value of a [`Request`].
pub enum ReqV {
    LoadFile { path: Seq<char> },
    SetPause { paused: bool },
    SetVolume { volume: u32 },
    Stop,
    Seek { seconds: int },
}

impl View for Request {
    type V = ReqV;

    open spec fn view(&self) -> ReqV {
        match self {
            Request::LoadFile { path } => ReqV::LoadFile { path: path@ },
            Request::SetPause { paused } => ReqV::SetPause { paused: *paused },
            Request::SetVolume { volume } => ReqV::SetVolume { volume: *volume },
            Request::Stop => ReqV::Stop,
            Request::Seek { seconds } => ReqV::Seek { seconds: *seconds as int },
        }
    }
}

/// The JSON bytes of one request, without the trailing delimiter.
pub open spec fn wire_bytes(r: ReqV) -> Seq<u8> {
    match r {
        ReqV::LoadFile { path } => "{\"command\":[\"loadfile\",\"".spec_bytes() + escape_bytes(
            vstd::utf8::encode_utf8(path),
        ) + "\",\"replace\"]}".spec_bytes(),
        ReqV::SetPause { paused } => if paused {
            "{\"command\":[\"set_property\",\"pause\",true]}".spec_bytes()
        } else {
            "{\"command\":[\"set_property\",\"pause\",false]}".spec_bytes()
        },
        ReqV::SetVolume { volume } => "{\"command\":[\"set_property\",\"volume\",".spec_bytes()
            + dec_digits(volume as nat) + "]}".spec_bytes(),
        ReqV::Stop => "{\"command\":[\"stop\"]}".spec_bytes(),
        ReqV::Seek { seconds } => "{\"command\":[\"seek\",".spec_bytes() + dec_digits_signed(
            seconds,
        ) + ",\"relative\"]}".spec_bytes(),
    }
}

/// The full framed line of one request: its JSON bytes and the delimiter.
pub open spec fn framed_bytes(r: ReqV) -> Seq<u8> {
    wire_bytes(r) + seq![MESSAGE_DELIMITER]
}

// ---------------------------------------------------------------------------
// Executable encoder.
// ---------------------------------------------------------------------------

/// Appends the bytes of a string literal or slice unchanged.
fn push_str_bytes(out: &mut Vec<u8>, s: &str)
    ensures
        final(out)@ == old(out)@ + s.spec_bytes(),
{
    let bs = s.as_bytes();
    let mut i: usize = 0;
    while i < bs.len()
        invariant
            i <= bs@.len(),
            bs@ == s.spec_bytes(),
            out@ == old(out)@ + bs@.take(i as int),
        decreases bs@.len() - i,
    {
        out.push(bs[i]);
        i = i + 1;
        assert(out@ =~= old(out)@ + bs@.take(i as int));
    }
    assert(out@ =~= old(out)@ + s.spec_bytes());
}

/// Appends one byte in its escaped JSON-string form.
fn push_escaped_byte(out: &mut Vec<u8>, b: u8)
    ensures
        final(out)@ == old(out)@ + escape_byte(b),
{
    if b == 0x22 {
        out.push(0x5c);
        out.push(0x22);
    } else if b == 0x5c {
        out.push(0x5c);
        out.push(0x5c);
    } else if b < 0x20 {
        out.push(0x5c);
        out.push(0x75);
        out.push(0x30);
        out.push(0x30);
        let hi = b / 16;
        let lo = b % 16;
        out.push(if hi < 10 { 0x30 + hi } else { 0x61 + (hi - 10) });
        out.push(if lo < 10 { 0x30 + lo } else { 0x61 + (lo - 10) });
    } else {
        out.push(b);
    }
    assert(out@ =~= old(out)@ + escape_byte(b));
}

/// Appends a whole byte string in its escaped JSON-string form.
fn push_escaped(out: &mut Vec<u8>, s: &[u8])
    ensures
        final(out)@ == old(out)@ + escape_bytes(s@),
{
    let mut i: usize = 0;
    while i < s.len()
        invariant
            i <= s@.len(),
            out@ == old(out)@ + escape_bytes(s@.take(i as int)),
        decreases s@.len() - i,
    {
        push_escaped_byte(out, s[i]);
        proof {
            assert(s@.take(i + 1).drop_last() =~= s@.take(i as int));
            assert(s@.take(i + 1).last() == s@[i as int]);
        }
        i = i + 1;
    }
    assert(s@.take(s@.len() as int) =~= s@);
}

/// Appends the decimal digits of `n`, most significant first.
fn push_dec_u64(out: &mut Vec<u8>, n: u64)
    ensures
        final(out)@ == old(out)@ + dec_digits(n as nat),
    decreases n,
{
    if n >= 10 {
        push_dec_u64(out, n / 10);
    }
    out.push(0x30 + (n % 10) as u8);
    assert(out@ =~= old(out)@ + dec_digits(n as nat));
}

/// Appends the decimal rendering of a signed offset.
fn push_dec_i64(out: &mut Vec<u8>, n: i64)
    ensures
        final(out)@ == old(out)@ + dec_digits_signed(n as int),
{
    if n < 0 {
        out.push(0x2d);
        // Computed so that the negation of the smallest value cannot
        // overflow the signed type.
        let mag: u64 = ((-(n + 1)) as u64) + 1;
        assert(mag as int == -(n as int));
        push_dec_u64(out, mag);
        assert(out@ =~= old(out)@ + dec_digits_signed(n as int));
    } else {
        push_dec_u64(out, n as u64);
    }
}

/// Encodes one request as its full framed wire line: compact JSON followed
/// by the message delimiter.
pub fn frame_request(r: &Request) -> (line: Vec<u8>)
    ensures
        line@ == framed_bytes(r@),
{
    let mut out: Vec<u8> = Vec::new();
    match r {
        Request::LoadFile { path } => {
            push_str_bytes(&mut out, "{\"command\":[\"loadfile\",\"");
            push_escaped(&mut out, path.as_str().as_bytes());
            push_str_bytes(&mut out, "\",\"replace\"]}");
        },
        Request::SetPause { paused } => {
            if *paused {
                push_str_bytes(&mut out, "{\"command\":[\"set_property\",\"pause\",true]}");
            } else {
                push_str_bytes(&mut out, "{\"command\":[\"set_property\",\"pause\",false]}");
            }
        },
        Request::SetVolume { volume } => {
            push_str_bytes(&mut out, "{\"command\":[\"set_property\",\"volume\",");
            push_dec_u64(&mut out, *volume as u64);
            push_str_bytes(&mut out, "]}");
        },
        Request::Stop => {
            push_str_bytes(&mut out, "{\"command\":[\"stop\"]}");
        },
        Request::Seek { seconds } => {
            push_str_bytes(&mut out, "{\"command\":[\"seek\",");
            push_dec_i64(&mut out, *seconds);
            push_str_bytes(&mut out, ",\"relative\"]}");
        },
    }
    out.push(MESSAGE_DELIMITER);
    assert(out@ =~= framed_bytes(r@));
    out
}

} // verus!
