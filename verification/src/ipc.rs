//! The L0 shared-memory bridge's frame layout. The region holds one frame:
//! the payload length as a little-endian `u32`, the payload bytes, and
//! zeros up to the end of the region. A length of zero, or one the region
//! cannot hold, means that no state has been published.

use vstd::prelude::*;

verus! {

/// Path of the memory-mapped file that backs the bridge.
pub const IPC_FILE: &'static str = "/tmp/x402_ipc.mmap";

/// Size of the shared region in bytes.
pub const IPC_SIZE: usize = 4096;

/// Size of the frame header (the payload length).
pub const FRAME_HEADER_SIZE: usize = 4;

/// Largest payload a frame holds.
pub open spec fn max_payload() -> nat {
    (IPC_SIZE - FRAME_HEADER_SIZE) as nat
}

/// The little-endian bytes of `n`.
pub open spec fn le_bytes(n: nat) -> Seq<u8> {
    seq![
        (n % 256) as u8,
        ((n / 256) % 256) as u8,
        ((n / 65536) % 256) as u8,
        ((n / 16777216) % 256) as u8,
    ]
}

/// The number whose little-endian bytes are the first four of `b`.
pub open spec fn le_value(b: Seq<u8>) -> nat {
    (b[0] + 256 * b[1] + 65536 * b[2] + 16777216 * b[3]) as nat
}

/// The region image of a frame holding `payload`.
pub open spec fn frame_image(payload: Seq<u8>) -> Seq<u8> {
    le_bytes(payload.len()) + payload + Seq::new(
        (IPC_SIZE - FRAME_HEADER_SIZE - payload.len()) as nat,
        |i: int| 0u8,
    )
}

/// The payload published in `region`, if any.
pub open spec fn frame_payload(region: Seq<u8>) -> Option<Seq<u8>> {
    let len = le_value(region);
    if len == 0 || len > max_payload() {
        None
    } else {
        Some(region.subrange(4, 4 + len as int))
    }
}

proof fn lemma_le_roundtrip(n: nat)
    requires
        n < 4294967296,
    ensures
        le_value(le_bytes(n)) == n,
{
    let b = le_bytes(n);
    assert(b[0] == n % 256);
    assert(b[1] == (n / 256) % 256);
    assert(b[2] == (n / 65536) % 256);
    assert(b[3] == (n / 16777216) % 256);
    assert((n % 256) + 256 * ((n / 256) % 256) + 65536 * ((n / 65536) % 256) + 16777216 * ((n
        / 16777216) % 256) == n) by (nonlinear_arith)
        requires
            n < 4294967296,
    ;
}

/// The region image of a frame holding `payload`, `IPC_SIZE` bytes long.
pub fn encode_frame(payload: &[u8]) -> (image: Vec<u8>)
    requires
        payload@.len() <= max_payload(),
    ensures
        image@ == frame_image(payload@),
        image@.len() == IPC_SIZE,
{
    let len = payload.len();
    let mut image: Vec<u8> = Vec::new();
    image.push((len % 256) as u8);
    image.push(((len / 256) % 256) as u8);
    image.push(((len / 65536) % 256) as u8);
    image.push(((len / 16777216) % 256) as u8);
    proof {
        assert(image@ =~= le_bytes(len as nat));
    }
    let mut i: usize = 0;
    while i < len
        invariant
            0 <= i <= len,
            len == payload@.len(),
            len <= max_payload(),
            image@ =~= le_bytes(len as nat) + payload@.take(i as int),
        decreases len - i,
    {
        image.push(payload[i]);
        i = i + 1;
        proof {
            assert(payload@.take(i as int) =~= payload@.take(i - 1).push(payload@[i - 1]));
        }
    }
    let mut j: usize = 0;
    let pad = IPC_SIZE - FRAME_HEADER_SIZE - len;
    while j < pad
        invariant
            0 <= j <= pad,
            pad == IPC_SIZE - FRAME_HEADER_SIZE - len,
            len == payload@.len(),
            image@ =~= le_bytes(len as nat) + payload@ + Seq::new(j as nat, |k: int| 0u8),
        decreases pad - j,
    {
        image.push(0u8);
        j = j + 1;
    }
    image
}

/// The payload published in `region`, if any.
pub fn decode_frame(region: &[u8]) -> (payload: Option<Vec<u8>>)
    requires
        region@.len() >= IPC_SIZE,
    ensures
        match payload {
            Some(p) => frame_payload(region@) == Some(p@),
            None => frame_payload(region@) is None,
        },
{
    let len: usize = region[0] as usize + 256 * (region[1] as usize) + 65536 * (region[2] as usize)
        + 16777216 * (region[3] as usize);
    if len == 0 || len > IPC_SIZE - FRAME_HEADER_SIZE {
        return None;
    }
    let mut out: Vec<u8> = Vec::new();
    let mut i: usize = 0;
    while i < len
        invariant
            0 <= i <= len,
            len <= max_payload(),
            region@.len() >= IPC_SIZE,
            out@ =~= region@.subrange(4, 4 + i),
        decreases len - i,
    {
        out.push(region[4 + i]);
        i = i + 1;
    }
    Some(out)
}

/// Whether a published state stamped `timestamp` is newer than the last one seen.
pub fn is_newer(timestamp: u64, last_seen: u64) -> (newer: bool)
    ensures
        newer == (timestamp > last_seen),
{
    timestamp > last_seen
}

/// What a read gives back of a write: a frame written with a non-empty
/// payload that fits the region reads back as exactly that payload.
pub proof fn law_read_returns_written_payload(payload: Seq<u8>)
    requires
        0 < payload.len() <= max_payload(),
    ensures
        frame_image(payload).len() == IPC_SIZE,
        frame_payload(frame_image(payload)) == Some(payload),
{
    let img = frame_image(payload);
    lemma_le_roundtrip(payload.len());
    assert(img[0] == le_bytes(payload.len())[0]);
    assert(img[1] == le_bytes(payload.len())[1]);
    assert(img[2] == le_bytes(payload.len())[2]);
    assert(img[3] == le_bytes(payload.len())[3]);
    assert(img.subrange(4, 4 + payload.len() as int) =~= payload);
}

/// An empty payload publishes nothing: its frame reads back as no state.
pub proof fn law_empty_frame_reads_as_nothing()
    ensures
        frame_payload(frame_image(Seq::<u8>::empty())) is None,
{
    let img = frame_image(Seq::<u8>::empty());
    lemma_le_roundtrip(0);
    assert(img[0] == le_bytes(0)[0]);
    assert(img[1] == le_bytes(0)[1]);
    assert(img[2] == le_bytes(0)[2]);
    assert(img[3] == le_bytes(0)[3]);
}

} // verus!
