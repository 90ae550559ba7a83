//! Framing of messages on a stream: an 8-byte big-endian length prefix, then
//! the encoded message; and the outcome of reading one frame back.
use vstd::prelude::*;

verus! {

/// Seconds a read waits for the length prefix, and again for the payload,
/// before it gives up.
pub const READ_TIMEOUT_SECS: u64 = 600;

/// Number of bytes of the length prefix.
pub const LENGTH_PREFIX_LEN: usize = 8;

/// The 8 bytes of `n`, most significant first.
pub open spec fn length_prefix(n: u64) -> Seq<u8> {
    seq![
        (n >> 56u64) as u8,
        (n >> 48u64) as u8,
        (n >> 40u64) as u8,
        (n >> 32u64) as u8,
        (n >> 24u64) as u8,
        (n >> 16u64) as u8,
        (n >> 8u64) as u8,
        n as u8,
    ]
}

/// The number that 8 bytes spell, most significant first.
pub open spec fn prefix_value(b: Seq<u8>) -> u64
    recommends
        b.len() == 8,
{
    (b[0] as u64) << 56u64 | (b[1] as u64) << 48u64 | (b[2] as u64) << 40u64 | (b[3] as u64)
        << 32u64 | (b[4] as u64) << 24u64 | (b[5] as u64) << 16u64 | (b[6] as u64) << 8u64
        | (b[7] as u64)
}

/// A whole frame: the length prefix of the payload, then the payload.
pub open spec fn framed(payload: Seq<u8>) -> Seq<u8> {
    length_prefix(payload.len() as u64) + payload
}

/// Reading back the prefix of a length gives that length.
pub proof fn lemma_prefix_value_of_length_prefix(n: u64)
    ensures
        length_prefix(n).len() == 8,
        prefix_value(length_prefix(n)) == n,
{
    let b = length_prefix(n);
    let (b0, b1, b2, b3, b4, b5, b6, b7) = (b[0], b[1], b[2], b[3], b[4], b[5], b[6], b[7]);
    assert(b0 == (n >> 56u64) as u8 && b1 == (n >> 48u64) as u8 && b2 == (n >> 40u64) as u8 && b3
        == (n >> 32u64) as u8 && b4 == (n >> 24u64) as u8 && b5 == (n >> 16u64) as u8 && b6 == (n
        >> 8u64) as u8 && b7 == n as u8);
    assert(b0 == (n >> 56u64) as u8 && b1 == (n >> 48u64) as u8 && b2 == (n >> 40u64) as u8 && b3
        == (n >> 32u64) as u8 && b4 == (n >> 24u64) as u8 && b5 == (n >> 16u64) as u8 && b6 == (n
        >> 8u64) as u8 && b7 == n as u8 ==> (b0 as u64) << 56u64 | (b1 as u64) << 48u64 | (b2
        as u64) << 40u64 | (b3 as u64) << 32u64 | (b4 as u64) << 24u64 | (b5 as u64) << 16u64
        | (b6 as u64) << 8u64 | (b7 as u64) == n) by (bit_vector);
}

/// The framing of a payload is read back as its length and then the payload itself.
pub proof fn lemma_frame_round_trip(payload: Seq<u8>)
    requires
        payload.len() <= u64::MAX,
    ensures
        framed(payload).len() == 8 + payload.len(),
        prefix_value(framed(payload).subrange(0, 8)) == payload.len(),
        framed(payload).subrange(8, framed(payload).len() as int) == payload,
{
    lemma_prefix_value_of_length_prefix(payload.len() as u64);
    assert(framed(payload).subrange(0, 8) =~= length_prefix(payload.len() as u64));
    assert(framed(payload).subrange(8, framed(payload).len() as int) =~= payload);
}

/// The 8-byte big-endian prefix that announces a payload of `n` bytes.
pub fn encode_length(n: u64) -> (r: [u8; 8])
    ensures
        r@ == length_prefix(n),
{
    let r = [
        (n >> 56u64) as u8,
        (n >> 48u64) as u8,
        (n >> 40u64) as u8,
        (n >> 32u64) as u8,
        (n >> 24u64) as u8,
        (n >> 16u64) as u8,
        (n >> 8u64) as u8,
        n as u8,
    ];
    assert(r@ =~= length_prefix(n));
    r
}

/// The payload length that an 8-byte big-endian prefix announces.
pub fn decode_length(b: &[u8; 8]) -> (r: u64)
    ensures
        r == prefix_value(b@),
{
    (b[0] as u64) << 56u64 | (b[1] as u64) << 48u64 | (b[2] as u64) << 40u64 | (b[3] as u64)
        << 32u64 | (b[4] as u64) << 24u64 | (b[5] as u64) << 16u64 | (b[6] as u64) << 8u64
        | (b[7] as u64)
}

/// The bytes that carry one encoded message on the stream.
pub fn frame(payload: &Vec<u8>) -> (r: Vec<u8>)
    ensures
        r@ == framed(payload@),
{
    let prefix = encode_length(payload.len() as u64);
    let mut r: Vec<u8> = Vec::new();
    let mut i: usize = 0;
    while i < LENGTH_PREFIX_LEN
        invariant
            0 <= i <= 8,
            prefix@ == length_prefix(payload@.len() as u64),
            r@ == prefix@.subrange(0, i as int),
        decreases 8 - i,
    {
        r.push(prefix[i]);
        i = i + 1;
    }
    let mut j: usize = 0;
    while j < payload.len()
        invariant
            0 <= j <= payload.len(),
            r@ == prefix@ + payload@.subrange(0, j as int),
        decreases payload.len() - j,
    {
        r.push(payload[j]);
        j = j + 1;
    }
    assert(r@ =~= framed(payload@));
    r
}

/// Which read of a frame failed.
#[derive(Clone, Copy, Debug, PartialEq, Eq, Structural)]
pub enum ReadPhase {
    /// Reading the length prefix
    Length,
    /// Reading the payload the prefix announced
    Payload,
}

/// Why a frame could not be read.
#[derive(Clone, Copy, Debug, PartialEq, Eq, Structural)]
pub enum ReadError {
    /// Nothing arrived within the read timeout
    TimedOut(ReadPhase),
    /// The connection failed or closed before the bytes were complete
    ConnectionFailed(ReadPhase),
    /// The payload arrived whole but is not a valid encoded message
    Decode,
}

/// What came of one read of an exact number of bytes.
#[derive(Clone, Debug)]
pub enum ReadOutcome {
    /// These bytes arrived
    Received(Vec<u8>),
    /// The read timeout elapsed first
    TimedOut,
    /// The connection failed or closed first
    ConnectionFailed,
}

/// What reading `expected` bytes gave, as the bytes or the error of `phase`.
pub open spec fn read_result(outcome: ReadOutcome, expected: nat, phase: ReadPhase) -> Result<
    Seq<u8>,
    ReadError,
> {
    match outcome {
        ReadOutcome::Received(bytes) => if bytes@.len() == expected {
            Ok(bytes@)
        } else {
            Err(ReadError::ConnectionFailed(phase))
        },
        ReadOutcome::TimedOut => Err(ReadError::TimedOut(phase)),
        ReadOutcome::ConnectionFailed => Err(ReadError::ConnectionFailed(phase)),
    }
}

/// A read that times out waiting for the length prefix fails otherwise than
/// one that times out waiting for the payload, and a timeout is never taken
/// for a failed connection or a decode failure.
pub proof fn lemma_timeouts_distinct(payload_len: nat)
    ensures
        read_result(ReadOutcome::TimedOut, 8, ReadPhase::Length) == Err::<Seq<u8>, ReadError>(
            ReadError::TimedOut(ReadPhase::Length),
        ),
        read_result(ReadOutcome::TimedOut, payload_len, ReadPhase::Payload) == Err::<
            Seq<u8>,
            ReadError,
        >(ReadError::TimedOut(ReadPhase::Payload)),
        ReadError::TimedOut(ReadPhase::Length) != ReadError::TimedOut(ReadPhase::Payload),
        forall|phase: ReadPhase|
            ReadError::TimedOut(phase) != ReadError::ConnectionFailed(phase)
                && ReadError::TimedOut(phase) != ReadError::Decode,
{
}

/// The payload length of a frame, from the outcome of reading its prefix.
/// Too few bytes count as a failed connection.
pub fn accept_length(outcome: ReadOutcome) -> (r: Result<u64, ReadError>)
    ensures
        match read_result(outcome, 8, ReadPhase::Length) {
            Ok(b) => r == Ok::<u64, ReadError>(prefix_value(b)),
            Err(e) => r == Err::<u64, ReadError>(e),
        },
{
    match outcome {
        ReadOutcome::Received(bytes) => {
            if bytes.len() == LENGTH_PREFIX_LEN {
                let b: [u8; 8] = [
                    bytes[0],
                    bytes[1],
                    bytes[2],
                    bytes[3],
                    bytes[4],
                    bytes[5],
                    bytes[6],
                    bytes[7],
                ];
                assert(b@ =~= bytes@);
                Ok(decode_length(&b))
            } else {
                Err(ReadError::ConnectionFailed(ReadPhase::Length))
            }
        },
        ReadOutcome::TimedOut => Err(ReadError::TimedOut(ReadPhase::Length)),
        ReadOutcome::ConnectionFailed => Err(ReadError::ConnectionFailed(ReadPhase::Length)),
    }
}

/// The payload of a frame that announced `len` bytes, from the outcome of
/// reading it. Too few or too many bytes count as a failed connection.
pub fn accept_payload(len: u64, outcome: ReadOutcome) -> (r: Result<Vec<u8>, ReadError>)
    ensures
        match read_result(outcome, len as nat, ReadPhase::Payload) {
            Ok(b) => r matches Ok(v) && v@ == b,
            Err(e) => r matches Err(re) && re == e,
        },
{
    match outcome {
        ReadOutcome::Received(bytes) => {
            if bytes.len() as u64 == len {
                Ok(bytes)
            } else {
                Err(ReadError::ConnectionFailed(ReadPhase::Payload))
            }
        },
        ReadOutcome::TimedOut => Err(ReadError::TimedOut(ReadPhase::Payload)),
        ReadOutcome::ConnectionFailed => Err(ReadError::ConnectionFailed(ReadPhase::Payload)),
    }
}

} // verus!
