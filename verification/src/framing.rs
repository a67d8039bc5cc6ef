//! Framing of game packets on a Bedrock connection: the batch length
//! prefix, the connected-packet marker and optional compression.
use vstd::prelude::*;
use crate::bytes::{append_bytes, copy_from};
use crate::varint::{spec_read_var_u32, var_u32_bytes, write_var_u32, read_var_u32, lemma_var_u32_roundtrip};

verus! {

/// The first byte of every game packet frame.
pub const CONNECTED_PACKET_ID: u8 = 0xfe;

/// The byte that marks an uncompressed payload once compression is set up.
pub const NO_COMPRESSION: u8 = 0xff;

/// The raw DEFLATE stream that flate2's encoder produces for `data` at its
/// best compression level.
pub uninterp spec fn deflate_best(data: Seq<u8>) -> Seq<u8>;

/// What flate2's raw DEFLATE decoder yields when `data` is read to its end,
/// or `None` when `data` does not hold a complete DEFLATE stream.
pub uninterp spec fn inflate(data: Seq<u8>) -> Option<Seq<u8>>;

/// Compresses `data` with flate2's `DeflateEncoder` at `Compression::best()`.
///
/// Trusted: the encoder writes into a `Vec`, which never fails, and a fresh
/// miniz_oxide stream reports no error, so a result is always returned; it
/// is the named stream `deflate_best(data)`, and decoding that stream gives
/// `data` back (DEFLATE is lossless).
#[verifier::external_body]
fn deflate_compress(data: &[u8]) -> (res: Option<Vec<u8>>)
    ensures
        res is Some,
        res matches Some(out) ==> out@ == deflate_best(data@) && inflate(out@) == Some(data@),
{
    let mut writer = flate2::write::DeflateEncoder::new(Vec::with_capacity(data.len()), flate2::Compression::best());
    if std::io::Write::write_all(&mut writer, data).is_err() {
        return None;
    }
    writer.finish().ok()
}

/// Decompresses a raw DEFLATE stream with flate2's `DeflateDecoder`, reading
/// it to the end.
///
/// Trusted: the result is the named `inflate(data)`.
#[verifier::external_body]
fn deflate_decompress(data: &[u8]) -> (res: Option<Vec<u8>>)
    ensures
        match inflate(data@) {
            Some(d) => res matches Some(out) && out@ == d,
            None => res is None,
        },
{
    let mut reader = flate2::read::DeflateDecoder::new(data);
    let mut out: Vec<u8> = Vec::with_capacity(data.len() * 2);
    match std::io::Read::read_to_end(&mut reader, &mut out) {
        Ok(_) => Some(out),
        Err(_) => None,
    }
}

/// Compression algorithms a Bedrock connection can negotiate.
#[derive(Debug, Copy, Clone, PartialEq, Eq, Structural)]
pub enum CompressionAlgorithm {
    /// Raw DEFLATE.
    Flate,
    /// Snappy.
    Snappy,
}

/// The byte that identifies each algorithm on the wire.
pub open spec fn algorithm_byte(a: CompressionAlgorithm) -> u8 {
    match a {
        CompressionAlgorithm::Flate => 0,
        CompressionAlgorithm::Snappy => 1,
    }
}

impl CompressionAlgorithm {
    /// The algorithm that a byte identifies, if any.
    pub fn try_from_byte(b: u8) -> (a: Option<CompressionAlgorithm>)
        ensures
            b == 0 ==> a == Some(CompressionAlgorithm::Flate),
            b == 1 ==> a == Some(CompressionAlgorithm::Snappy),
            b > 1 ==> a is None,
    {
        if b == 0 {
            Some(CompressionAlgorithm::Flate)
        } else if b == 1 {
            Some(CompressionAlgorithm::Snappy)
        } else {
            None
        }
    }

    /// The byte that identifies this algorithm.
    pub fn as_byte(&self) -> (b: u8)
        ensures
            b == algorithm_byte(*self),
    {
        match self {
            CompressionAlgorithm::Flate => 0,
            CompressionAlgorithm::Snappy => 1,
        }
    }
}

/// Compression related settings.
#[derive(Debug, Copy, Clone, PartialEq, Eq, Structural)]
pub struct Compression {
    /// Which algorithm to use for compression.
    pub algorithm: CompressionAlgorithm,
    /// Packets above this size threshold will be compressed.
    pub threshold: u16,
}

/// Reasons a frame cannot be built or read.
#[derive(Debug, Copy, Clone, PartialEq, Eq, Structural)]
pub enum FrameError {
    /// The frame does not start with the connected-packet marker.
    NotConnectedPacket(u8),
    /// The compression byte names no known algorithm.
    UnknownCompression(u8),
    /// Snappy compression is not implemented.
    SnappyUnsupported,
    /// The compressor reported an error.
    CompressionFailed,
    /// The payload is not a valid compressed stream.
    DecompressionFailed,
    /// The frame or payload holds no bytes.
    EmptyFrame,
}

/// Prefixes a packet body with its length as a variable-length integer, as
/// every game packet is sent inside a batch.
pub open spec fn spec_batch(body: Seq<u8>) -> Seq<u8> {
    var_u32_bytes((body.len() as u32) as nat) + body
}

/// Wraps a serialized packet (header and content) in a batch: its length as
/// a variable-length integer followed by the packet.
pub fn batch(body: &[u8]) -> (out: Vec<u8>)
    ensures
        out@ == spec_batch(body@),
{
    let mut out: Vec<u8> = Vec::new();
    write_var_u32(&mut out, body.len() as u32);
    append_bytes(&mut out, body);
    out
}

/// Reads the length prefix of a batch and returns it with the bytes after it.
///
/// The length is read but not checked against the rest, as the packet
/// handler does.
pub fn unbatch(data: &[u8]) -> (res: Option<(u32, Vec<u8>)>)
    ensures
        match spec_read_var_u32(data@) {
            Some((len, n)) => res matches Some((l, rest)) && l == len && rest@ == data@.subrange(
                n as int,
                data@.len() as int,
            ),
            None => res is None,
        },
{
    match read_var_u32(data) {
        Some((len, n)) => {
            proof {
                assert(n <= data@.len()) by {
                    lemma_read_within(data@);
                }
            }
            Some((len, copy_from(data, n)))
        },
        None => None,
    }
}

proof fn lemma_read_within(s: Seq<u8>)
    ensures
        spec_read_var_u32(s) matches Some((_, n)) ==> n <= s.len(),
{
    lemma_decode_within(s, 5);
}

proof fn lemma_decode_within(s: Seq<u8>, max: nat)
    ensures
        crate::varint::var_u32_decode(s, max) matches Some((_, n)) ==> 1 <= n <= s.len() && n <= max,
    decreases max,
{
    if max > 0 && s.len() > 0 && s[0] >= 128 {
        lemma_decode_within(s.drop_first(), (max - 1) as nat);
    }
}

/// Law: unbatching a batch gives back the length and the packet.
pub proof fn lemma_unbatch_batch(body: Seq<u8>)
    requires
        body.len() <= u32::MAX,
    ensures
        spec_read_var_u32(spec_batch(body)) == Some((body.len() as u32, var_u32_bytes(body.len()).len() as usize)),
        spec_batch(body).subrange(var_u32_bytes(body.len()).len() as int, spec_batch(body).len() as int) == body,
{
    lemma_var_u32_roundtrip(body.len() as u32, body);
    assert(spec_batch(body).subrange(var_u32_bytes(body.len()).len() as int, spec_batch(body).len() as int) =~= body);
}

/// Whether an outgoing packet gets compressed under the given settings: the
/// connection has compression set up and the packet is above the threshold.
pub open spec fn compresses(packet_len: nat, compression: Option<Compression>) -> bool {
    compression matches Some(c) && packet_len > c.threshold
}

/// The frame sent for a batched packet: the connected-packet marker, then
/// either the algorithm byte and the compressed packet, or the packet itself.
pub open spec fn spec_outgoing(packet: Seq<u8>, compression: Option<Compression>) -> Seq<u8> {
    if compresses(packet.len(), compression) {
        seq![CONNECTED_PACKET_ID, algorithm_byte(compression.unwrap().algorithm)] + deflate_best(packet)
    } else {
        seq![CONNECTED_PACKET_ID] + packet
    }
}

/// Whether the compressed part of a frame (after the marker and the
/// algorithm byte) inflates back to `packet`.
pub open spec fn inflates_back(frame: Seq<u8>, packet: Seq<u8>) -> bool {
    inflate(frame.subrange(2, frame.len() as int)) == Some(packet)
}

/// Whether a frame, read by a receiver that does or does not decompress,
/// gives back `packet`.
pub open spec fn reads_back(frame: Seq<u8>, packet: Seq<u8>, decompressing: bool) -> bool {
    spec_strip_marker(frame) matches Ok(p) && spec_decompress(p, decompressing) == Ok::<Seq<u8>, FrameError>(packet)
}

/// Builds the frame for a batched packet. `compression` is `None` until the
/// connection has negotiated its network settings.
///
/// Packets above the threshold are compressed (Snappy is not implemented);
/// smaller ones, and all packets before compression is set up, are sent as
/// they are after the marker.
pub fn encode_outgoing(packet: &[u8], compression: Option<Compression>) -> (res: Result<Vec<u8>, FrameError>)
    requires
        compresses(packet@.len(), compression) ==> compression.unwrap().algorithm != CompressionAlgorithm::Snappy,
    ensures
        res matches Ok(out) && out@ == spec_outgoing(packet@, compression),
        compresses(packet@.len(), compression) ==> (res matches Ok(out) && inflates_back(out@, packet@)),
        compression is None || compresses(packet@.len(), compression) ==> (res matches Ok(out) && reads_back(
            out@,
            packet@,
            compression is Some,
        )),
{
    let mut out: Vec<u8> = Vec::new();
    match compression {
        Some(c) => {
            if packet.len() > c.threshold as usize {
                match deflate_compress(packet) {
                    Some(compressed) => {
                        out.push(CONNECTED_PACKET_ID);
                        out.push(c.algorithm.as_byte());
                        append_bytes(&mut out, compressed.as_slice());
                        assert(out@ =~= spec_outgoing(packet@, compression));
                        assert(out@.subrange(2, out@.len() as int) =~= compressed@);
                        proof {
                            lemma_frame_roundtrip(packet@, compression);
                        }
                        return Ok(out);
                    },
                    None => {
                        return Err(FrameError::CompressionFailed);
                    },
                }
            }
        },
        None => {},
    }
    out.push(CONNECTED_PACKET_ID);
    append_bytes(&mut out, packet);
    assert(out@ =~= spec_outgoing(packet@, compression));
    proof {
        if compression is None {
            lemma_frame_roundtrip(packet@, compression);
        }
    }
    Ok(out)
}

/// What the first step of reading a frame gives: the bytes after the
/// connected-packet marker, or the error when the marker is missing.
pub open spec fn spec_strip_marker(frame: Seq<u8>) -> Result<Seq<u8>, FrameError> {
    if frame.len() == 0 {
        Err(FrameError::EmptyFrame)
    } else if frame[0] != CONNECTED_PACKET_ID {
        Err(FrameError::NotConnectedPacket(frame[0]))
    } else {
        Ok(frame.drop_first())
    }
}

/// Checks the connected-packet marker of a received frame and removes it.
pub fn strip_marker(frame: &[u8]) -> (res: Result<Vec<u8>, FrameError>)
    ensures
        match spec_strip_marker(frame@) {
            Ok(p) => res matches Ok(out) && out@ == p,
            Err(e) => res == Err::<Vec<u8>, FrameError>(e),
        },
{
    if frame.len() == 0 {
        return Err(FrameError::EmptyFrame);
    }
    if frame[0] != CONNECTED_PACKET_ID {
        return Err(FrameError::NotConnectedPacket(frame[0]));
    }
    let out = copy_from(frame, 1);
    assert(out@ =~= frame@.drop_first());
    Ok(out)
}

/// What the second step of reading a frame gives: the payload itself
/// before compression is set up; afterwards the bytes after the marker byte
/// when it says "uncompressed", or the decompressed rest.
pub open spec fn spec_decompress(payload: Seq<u8>, decompressing: bool) -> Result<Seq<u8>, FrameError> {
    if !decompressing {
        Ok(payload)
    } else if payload.len() == 0 {
        Err(FrameError::EmptyFrame)
    } else if payload[0] == NO_COMPRESSION {
        Ok(payload.drop_first())
    } else if payload[0] == 0 {
        match inflate(payload.drop_first()) {
            Some(d) => Ok(d),
            None => Err(FrameError::DecompressionFailed),
        }
    } else if payload[0] == 1 {
        Err(FrameError::SnappyUnsupported)
    } else {
        Err(FrameError::UnknownCompression(payload[0]))
    }
}

/// Undoes the compression of a received payload (after decryption).
pub fn decompress_incoming(payload: &[u8], decompressing: bool) -> (res: Result<Vec<u8>, FrameError>)
    ensures
        match spec_decompress(payload@, decompressing) {
            Ok(p) => res matches Ok(out) && out@ == p,
            Err(e) => res == Err::<Vec<u8>, FrameError>(e),
        },
{
    if !decompressing {
        return Ok(copy_from(payload, 0));
    }
    if payload.len() == 0 {
        return Err(FrameError::EmptyFrame);
    }
    if payload[0] == NO_COMPRESSION {
        return Ok(copy_from(payload, 1));
    }
    let algorithm = match CompressionAlgorithm::try_from_byte(payload[0]) {
        Some(a) => a,
        None => {
            return Err(FrameError::UnknownCompression(payload[0]));
        },
    };
    match algorithm {
        CompressionAlgorithm::Flate => {
            let rest = &payload[1..payload.len()];
            assert(rest@ =~= payload@.drop_first());
            match deflate_decompress(rest) {
                Some(d) => Ok(d),
                None => Err(FrameError::DecompressionFailed),
            }
        },
        CompressionAlgorithm::Snappy => Err(FrameError::SnappyUnsupported),
    }
}

/// Law: a frame built for a packet reads back as that packet when both ends
/// agree that compression is set up and the packet is compressed, or that
/// it is not set up. (A packet at or below the threshold on a compressed
/// connection is sent without a marker byte and is not read back as sent.)
pub proof fn lemma_frame_roundtrip(packet: Seq<u8>, compression: Option<Compression>)
    requires
        compression is None || compresses(packet.len(), compression),
        compresses(packet.len(), compression) ==> compression.unwrap().algorithm == CompressionAlgorithm::Flate,
        compresses(packet.len(), compression) ==> inflate(deflate_best(packet)) == Some(packet),
    ensures
        ({
            let frame = spec_outgoing(packet, compression);
            spec_strip_marker(frame) matches Ok(p) && spec_decompress(p, compression is Some) == Ok::<Seq<u8>, FrameError>(packet)
        }),
{
    let frame = spec_outgoing(packet, compression);
    if compresses(packet.len(), compression) {
        assert(frame.drop_first().drop_first() =~= deflate_best(packet));
        assert(frame.drop_first()[0] == 0);
    } else {
        assert(frame.drop_first() =~= packet);
    }
}

/// The number of transport frames a packet of `len` bytes is split into when
/// each frame carries at most `chunk_max_size` bytes.
pub fn compound_size(len: usize, chunk_max_size: usize) -> (n: u64)
    requires
        chunk_max_size > 0,
    ensures
        n == (len + chunk_max_size - 1) / chunk_max_size as int,
{
    let q = len / chunk_max_size;
    let r = len % chunk_max_size;
    proof {
        vstd::arithmetic::div_mod::lemma_fundamental_div_mod(len as int, chunk_max_size as int);
    }
    let n = if r == 0 {
        q
    } else {
        assert(q <= len) by (nonlinear_arith)
            requires
                len == chunk_max_size * q + r,
                chunk_max_size >= 1,
                r >= 1,
        ;
        assert(q < usize::MAX) by (nonlinear_arith)
            requires
                len == chunk_max_size * q + r,
                chunk_max_size >= 1,
                r >= 1,
                len <= usize::MAX,
        ;
        q + 1
    };
    proof {
        let c = chunk_max_size as int;
        let m = (len + c - 1) as int;
        let rr = if r == 0 { c - 1 } else { r - 1 };
        assert(m == c * n + rr) by (nonlinear_arith)
            requires
                len == c * q + r,
                m == len + c - 1,
                rr == (if r == 0 { c - 1 } else { r - 1 }),
                n == (if r == 0 { q as int } else { q + 1 }),
        ;
        vstd::arithmetic::div_mod::lemma_fundamental_div_mod_converse(m, c, n as int, rr);
    }
    n as u64
}

} // verus!
