//! The named-pipe protocol between the interface and the elevated scanner:
//! each message is its JSON text behind a four-byte little-endian length,
//! and the server answers a ping itself. The pipe and JSON are the caller's
//! part.
use vstd::prelude::*;

verus! {

/// The pipe's name.
pub const PIPE_NAME: &'static str = "\\\\.\\pipe\\WinSweepIPC";

/// The pipe's access list: full access for LocalSystem, the Administrators
/// group and the owner only.
pub const PIPE_SDDL: &'static str = "D:(A;;GA;;;SY)(A;;GA;;;BA)(A;;GA;;;OW)";

/// The largest message accepted, in bytes (10 MiB).
pub const MAX_MESSAGE_LEN: u64 = 10485760;

/// Why a frame was refused.
#[derive(Debug, Clone, Copy, PartialEq, Eq, Structural)]
pub enum IpcError {
    /// The announced length exceeds the limit.
    MessageTooLarge(u64),
}

/// The four little-endian bytes of `n`.
pub open spec fn le_bytes(n: u32) -> Seq<u8> {
    seq![(n % 256) as u8, ((n / 256) % 256) as u8, ((n / 65536) % 256) as u8, (n / 16777216) as u8]
}

/// The number four little-endian bytes stand for.
pub open spec fn from_le(b: Seq<u8>) -> nat {
    b[0] as nat + 256 * b[1] as nat + 65536 * b[2] as nat + 16777216 * b[3] as nat
}

/// The length a frame announces: the payload's length, cut to 32 bits.
pub open spec fn announced(len: nat) -> u32 {
    (len % 4294967296) as u32
}

/// A frame: the payload's length as four little-endian bytes, then the
/// payload.
pub fn encode_frame(payload: &[u8]) -> (f: Vec<u8>)
    ensures
        f@ == le_bytes(announced(payload@.len())) + payload@,
{
    let len: u64 = payload.len() as u64;
    let n: u32 = (len % 4294967296) as u32;
    let mut f: Vec<u8> = Vec::new();
    f.push((n % 256) as u8);
    f.push(((n / 256) % 256) as u8);
    f.push(((n / 65536) % 256) as u8);
    f.push((n / 16777216) as u8);
    let mut i: usize = 0;
    assert(f@ =~= le_bytes(n) + payload@.subrange(0, 0));
    while i < payload.len()
        invariant
            i <= payload@.len(),
            f@ == le_bytes(n) + payload@.subrange(0, i as int),
        decreases payload@.len() - i,
    {
        f.push(payload[i]);
        i += 1;
        assert(f@ =~= le_bytes(n) + payload@.subrange(0, i as int));
    }
    assert(payload@.subrange(0, payload@.len() as int) =~= payload@);
    f
}

/// The payload length a frame header announces; more than the limit is
/// refused.
pub fn decode_length(header: [u8; 4]) -> (r: Result<u64, IpcError>)
    ensures
        from_le(header@) <= MAX_MESSAGE_LEN ==> r == Ok::<u64, IpcError>(from_le(header@) as u64),
        from_le(header@) > MAX_MESSAGE_LEN ==> r == Err::<u64, IpcError>(
            IpcError::MessageTooLarge(from_le(header@) as u64),
        ),
{
    let n: u64 = header[0] as u64 + 256 * header[1] as u64 + 65536 * header[2] as u64 + 16777216 * header[3] as u64;
    if n > MAX_MESSAGE_LEN {
        Err(IpcError::MessageTooLarge(n))
    } else {
        Ok(n)
    }
}

/// Reading the announced length back from a frame's header gives the
/// length written.
pub proof fn law_frame_roundtrip(n: u32)
    ensures
        from_le(le_bytes(n)) == n,
{
    let x = n as int;
    vstd::arithmetic::div_mod::lemma_fundamental_div_mod(x, 256);
    let y = x / 256;
    vstd::arithmetic::div_mod::lemma_fundamental_div_mod(y, 256);
    let z = y / 256;
    vstd::arithmetic::div_mod::lemma_div_denominator(x, 256, 256);
    vstd::arithmetic::div_mod::lemma_fundamental_div_mod(z, 256);
    vstd::arithmetic::div_mod::lemma_div_denominator(x, 65536, 256);
    assert(z / 256 == x / 16777216);
    assert(x / 16777216 < 256);
    let b = le_bytes(n);
    assert(b[0] as nat == x % 256);
    assert(b[1] as nat == y % 256);
    assert(b[2] as nat == z % 256);
    assert(b[3] as nat == x / 16777216);
}

/// A frame written for a payload of at most 10 MiB reads back: its first
/// four bytes announce the payload's length, which the reader accepts, and
/// the payload follows them unchanged.
pub proof fn law_frame_payload_roundtrip(payload: Seq<u8>)
    requires
        payload.len() <= MAX_MESSAGE_LEN,
    ensures
        from_le((le_bytes(announced(payload.len())) + payload).subrange(0, 4)) == payload.len(),
        from_le((le_bytes(announced(payload.len())) + payload).subrange(0, 4)) <= MAX_MESSAGE_LEN,
        (le_bytes(announced(payload.len())) + payload).subrange(4, payload.len() as int + 4) == payload,
{
    let n = announced(payload.len());
    assert(payload.len() % 4294967296 == payload.len());
    assert(n == payload.len());
    law_frame_roundtrip(n);
    let f = le_bytes(n) + payload;
    assert(f.subrange(0, 4) =~= le_bytes(n));
    assert(f.subrange(4, payload.len() as int + 4) =~= payload);
}

/// What reading from the pipe gave.
#[derive(Debug, Clone)]
pub enum Received<M> {
    /// A message, and whether it is a ping.
    Message(M, bool),
    /// The client disconnected.
    Disconnected,
    /// Reading failed.
    Failed,
}

/// What the server does next.
#[derive(Debug, Clone)]
pub enum ServerStep<M> {
    /// Answer the ping with a pong, then read on.
    ReplyPong,
    /// Hand the message to the application, then read on.
    Forward(M),
    /// Stop serving.
    Stop,
}

/// The server's decision on what it read: a ping is answered, any other
/// message is handed on, and a disconnect or a read error ends the loop.
pub fn server_step<M>(received: Received<M>) -> (s: ServerStep<M>)
    ensures
        match received {
            Received::Message(m, true) => s matches ServerStep::ReplyPong,
            Received::Message(m, false) => s == ServerStep::Forward(m),
            Received::Disconnected => s matches ServerStep::Stop,
            Received::Failed => s matches ServerStep::Stop,
        },
{
    match received {
        Received::Message(m, is_ping) => {
            if is_ping {
                ServerStep::ReplyPong
            } else {
                ServerStep::Forward(m)
            }
        },
        Received::Disconnected => ServerStep::Stop,
        Received::Failed => ServerStep::Stop,
    }
}

} // verus!
