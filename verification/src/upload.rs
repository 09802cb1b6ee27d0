//! Bookkeeping for chunked uploads to presigned URLs: splitting a file of a
//! known size into fixed-size chunks, the integrity header attached to each
//! chunk (a big-endian CRC32 checksum, base64-encoded), and the outcome of
//! each upload response. The file reads and the HTTP requests themselves are
//! I/O and live outside this library.

use vstd::prelude::*;
use vstd::arithmetic::mul::lemma_mul_inequality;
use base64::Engine;

verus! {

/// Size of one upload chunk, in bytes.
pub const CHUNK_SIZE: usize = 60 * 1024 * 1024;

/// Byte range of one chunk within the uploaded file.
pub struct ChunkBounds {
    /// Offset of the chunk's first byte.
    pub start: usize,
    /// Offset one past the chunk's last byte.
    pub end: usize,
}

/// Where the chunk at `index` starts.
pub open spec fn spec_chunk_start(index: int) -> int {
    index * CHUNK_SIZE
}

/// Where the chunk at `index` ends in a file of `file_size` bytes: a full
/// chunk past its start, clipped to the end of the file.
pub open spec fn spec_chunk_end(index: int, file_size: int) -> int {
    if spec_chunk_start(index) + CHUNK_SIZE <= file_size {
        spec_chunk_start(index) + CHUNK_SIZE
    } else {
        file_size
    }
}

/// Byte range of the chunk at `index` in a file of `file_size` bytes.
pub fn chunk_bounds(index: usize, file_size: usize) -> (b: ChunkBounds)
    requires
        spec_chunk_start(index as int) <= file_size,
    ensures
        b.start == spec_chunk_start(index as int),
        b.end == spec_chunk_end(index as int, file_size as int),
        b.start <= b.end <= file_size,
        b.end - b.start <= CHUNK_SIZE,
{
    let start = index * CHUNK_SIZE;
    let end = if CHUNK_SIZE <= file_size && start <= file_size - CHUNK_SIZE {
        start + CHUNK_SIZE
    } else {
        file_size
    };
    ChunkBounds { start, end }
}

/// One byte range per presigned URL, in order: the ranges a file of
/// `file_size` bytes is uploaded in when `n_urls` URLs were issued.
pub fn plan_chunks(n_urls: usize, file_size: usize) -> (plan: Vec<ChunkBounds>)
    requires
        n_urls > 0 ==> spec_chunk_start(n_urls as int - 1) <= file_size,
    ensures
        plan@.len() == n_urls,
        forall|i: int|
            0 <= i < n_urls ==> {
                &&& (#[trigger] plan@[i]).start == spec_chunk_start(i)
                &&& plan@[i].end == spec_chunk_end(i, file_size as int)
            },
{
    let mut plan: Vec<ChunkBounds> = Vec::new();
    let mut i: usize = 0;
    while i < n_urls
        invariant
            i <= n_urls,
            plan@.len() == i,
            n_urls > 0 ==> spec_chunk_start(n_urls as int - 1) <= file_size,
            forall|j: int|
                0 <= j < i ==> {
                    &&& (#[trigger] plan@[j]).start == spec_chunk_start(j)
                    &&& plan@[j].end == spec_chunk_end(j, file_size as int)
                },
        decreases n_urls - i,
    {
        proof {
            lemma_mul_inequality(i as int, n_urls as int - 1, CHUNK_SIZE as int);
        }
        let b = chunk_bounds(i, file_size);
        plan.push(b);
        i += 1;
    }
    plan
}

/// The IEEE CRC32 checksum of a byte sequence, as the `crc32fast` crate
/// computes it.
pub uninterp spec fn crc32_of(data: Seq<u8>) -> u32;

/// Relies on `crc32fast::hash`: the CRC32 checksum is a function of the
/// bytes alone.
#[verifier::external_body]
fn crc32(data: &Vec<u8>) -> (r: u32)
    ensures
        r == crc32_of(data@),
{
    crc32fast::hash(data.as_slice())
}

/// The padded, standard-alphabet base64 encoding of a byte sequence, as the
/// `base64` crate's `STANDARD` engine computes it.
pub uninterp spec fn base64_of(data: Seq<u8>) -> Seq<char>;

/// Relies on `base64`'s `STANDARD` engine `encode`: padded standard-alphabet
/// base64, a function of the bytes alone; the output holds four characters
/// for every three input bytes, rounded up. Encoding panics when the output
/// length overflows `usize`, so inputs that large are excluded.
#[verifier::external_body]
fn base64_encode(data: &Vec<u8>) -> (r: String)
    requires
        4 * ((data@.len() + 2) / 3) <= usize::MAX,
    ensures
        r@ == base64_of(data@),
        r@.len() == 4 * ((data@.len() + 2) / 3),
{
    base64::engine::general_purpose::STANDARD.encode(data.as_slice())
}

/// The big-endian byte encoding of a 32-bit value.
pub open spec fn be_bytes_of(x: u32) -> Seq<u8> {
    seq![
        ((x >> 24) & 0xff) as u8,
        ((x >> 16) & 0xff) as u8,
        ((x >> 8) & 0xff) as u8,
        (x & 0xff) as u8,
    ]
}

/// Encode a 32-bit value as its four big-endian bytes.
pub fn u32_to_be_bytes(x: u32) -> (b: Vec<u8>)
    ensures
        b@ == be_bytes_of(x),
{
    let b0 = ((x >> 24) & 0xff) as u8;
    let b1 = ((x >> 16) & 0xff) as u8;
    let b2 = ((x >> 8) & 0xff) as u8;
    let b3 = (x & 0xff) as u8;
    let mut b: Vec<u8> = Vec::new();
    b.push(b0);
    b.push(b1);
    b.push(b2);
    b.push(b3);
    proof {
        assert(b@ =~= be_bytes_of(x));
    }
    b
}

/// The integrity header value sent with one chunk: the chunk's CRC32
/// checksum, in big-endian byte order, base64-encoded.
pub fn checksum_header(data: &Vec<u8>) -> (r: String)
    ensures
        r@ == base64_of(be_bytes_of(crc32_of(data@))),
        r@.len() == 8,
{
    let crc = crc32(data);
    let bytes = u32_to_be_bytes(crc);
    base64_encode(&bytes)
}

/// Error raised by the upload pipeline.
#[derive(Debug)]
pub enum UploadError {
    /// The remote side answered with a non-success status; holds the
    /// response body.
    RequestFailed(String),
}

/// Outcome of one chunk's upload response: a failing status is reported with
/// the response body; a successful one yields the entity tag the remote side
/// assigned. A successful response always carries an entity tag.
pub fn upload_outcome(success: bool, body: String, etag: Option<String>) -> (r: Result<
    String,
    UploadError,
>)
    requires
        success ==> etag is Some,
    ensures
        success ==> (r matches Ok(t) && Some(t) == etag),
        !success ==> (r matches Err(UploadError::RequestFailed(b)) && b == body),
{
    if success {
        match etag {
            Some(t) => Ok(t),
            None => Err(UploadError::RequestFailed(body)),
        }
    } else {
        Err(UploadError::RequestFailed(body))
    }
}

} // verus!
