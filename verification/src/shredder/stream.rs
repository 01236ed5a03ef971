//! The bytes an overwrite pass writes: fixed patterns, or a ChaCha20
//! keystream under a per-file seed, so that a pass can be read back and
//! compared with what was meant to be written.

use vstd::prelude::*;
use crate::shredder::errors::ShredError;
use crate::shredder::types::{PatternType, WriteCheck};
use crate::text::owned;

verus! {

/// Bytes written per chunk of a pass.
pub const BUFFER_SIZE: u64 = 1048576;

/// Key length of the keystream seed, in bytes.
pub const SEED_KEY_LEN: usize = 32;

/// Nonce length of the keystream seed, in bytes.
pub const SEED_NONCE_LEN: usize = 12;

/// Keystream bytes one seed provides: 64-byte blocks numbered by a 32-bit
/// counter, the last of which is never reached.
pub const KEYSTREAM_LIMIT: u64 = 274877906880;

/// The ChaCha20 keystream (32-byte key, 12-byte nonce, 32-bit block counter)
/// from byte `offset` on, `len` bytes long.
pub uninterp spec fn chacha20_keystream(key: Seq<u8>, nonce: Seq<u8>, offset: u64, len: usize) -> Seq<u8>;

/// `ChaCha20::new` with the key and nonce, `seek` to `offset`, then
/// `apply_keystream` over `len` zero bytes: the keystream itself. The range
/// lies below the counter's end, where neither call fails.
#[verifier::external_body]
fn chacha20_keystream_bytes(key: &[u8], nonce: &[u8], offset: u64, len: usize) -> (r: Vec<u8>)
    requires
        key@.len() == SEED_KEY_LEN,
        nonce@.len() == SEED_NONCE_LEN,
        offset + len <= KEYSTREAM_LIMIT,
    ensures
        r@ == chacha20_keystream(key@, nonce@, offset, len),
        r@.len() == len,
{
    let mut cipher: chacha20::ChaCha20 =
        chacha20::cipher::KeyIvInit::new(chacha20::Key::from_slice(key), chacha20::Nonce::from_slice(nonce));
    chacha20::cipher::StreamCipherSeek::seek(&mut cipher, offset);
    let mut buffer = vec![0u8; len];
    chacha20::cipher::StreamCipher::apply_keystream(&mut cipher, &mut buffer);
    buffer
}

/// `getrandom::getrandom` into a fresh buffer of `len` bytes from the
/// operating system's generator; its error comes back as its message.
/// Nothing is stated of the bytes.
#[verifier::external_body]
fn os_random_bytes(len: usize) -> (r: Result<Vec<u8>, String>)
    ensures
        r matches Ok(v) ==> v@.len() == len,
{
    let mut buffer = vec![0u8; len];
    match getrandom::getrandom(&mut buffer) {
        Ok(()) => Ok(buffer),
        Err(e) => Err(e.to_string()),
    }
}

/// The per-file seed of the random passes.
#[derive(Debug, Clone)]
pub struct PrngSeed {
    key: Vec<u8>,
    nonce: Vec<u8>,
}

impl PrngSeed {
    /// The seed's key and nonce have their fixed lengths.
    pub closed spec fn wf(&self) -> bool {
        self.key@.len() == SEED_KEY_LEN && self.nonce@.len() == SEED_NONCE_LEN
    }

    pub closed spec fn key(&self) -> Seq<u8> {
        self.key@
    }

    pub closed spec fn nonce(&self) -> Seq<u8> {
        self.nonce@
    }

    /// A seed of the given key and nonce; `None` unless they have the
    /// lengths of a ChaCha20 key and nonce.
    pub fn from_parts(key: Vec<u8>, nonce: Vec<u8>) -> (r: Option<Self>)
        ensures
            r is Some <==> (key@.len() == SEED_KEY_LEN && nonce@.len() == SEED_NONCE_LEN),
            r matches Some(s) ==> s.wf() && s.key() == key@ && s.nonce() == nonce@,
    {
        if key.len() == SEED_KEY_LEN && nonce.len() == SEED_NONCE_LEN {
            Some(PrngSeed { key, nonce })
        } else {
            None
        }
    }

    /// A fresh seed from the operating system's generator; a failure is an
    /// I/O error of kind `RandomGeneration` at `path`.
    pub fn generate(path: &str) -> (r: Result<Self, ShredError>)
        ensures
            r matches Ok(s) ==> s.wf(),
            r matches Err(e) ==> (e matches ShredError::IoError { path: p, kind, .. }
                && p@ == path@ && kind@ == "RandomGeneration"@),
    {
        let key = match os_random_bytes(SEED_KEY_LEN) {
            Ok(k) => k,
            Err(m) => return Err(ShredError::IoError { path: owned(path), kind: String::from_str("RandomGeneration"), message: m }),
        };
        let nonce = match os_random_bytes(SEED_NONCE_LEN) {
            Ok(n) => n,
            Err(m) => return Err(ShredError::IoError { path: owned(path), kind: String::from_str("RandomGeneration"), message: m }),
        };
        Ok(PrngSeed { key, nonce })
    }
}

/// `len` copies of `byte`.
pub open spec fn repeated(byte: u8, len: usize) -> Seq<u8> {
    Seq::new(len as nat, |i: int| byte)
}

/// The bytes of `pattern` at file offset `offset`, `len` long.
pub open spec fn pattern_bytes(pattern: PatternType, seed: PrngSeed, offset: u64, len: usize) -> Seq<u8> {
    match pattern {
        PatternType::Zeros => repeated(0x00, len),
        PatternType::Ones => repeated(0xFF, len),
        PatternType::Random => chacha20_keystream(seed.key(), seed.nonce(), offset, len),
    }
}

fn filled(byte: u8, len: usize) -> (r: Vec<u8>)
    ensures
        r@ == repeated(byte, len),
{
    let v = vec![byte; len];
    assert(v@ =~= repeated(byte, len));
    v
}

/// The chunk of a pass that starts at file offset `offset`: zeros, ones, or
/// the seed's keystream at that offset. A range past the keystream's end is
/// an I/O error of kind `CipherSeek` at `path`.
pub fn fill_pattern(pattern: PatternType, seed: &PrngSeed, offset: u64, len: usize, path: &str) -> (r: Result<Vec<u8>, ShredError>)
    requires
        seed.wf(),
    ensures
        (pattern != PatternType::Random || offset + len <= KEYSTREAM_LIMIT)
            ==> (r matches Ok(v) && v@ == pattern_bytes(pattern, *seed, offset, len)),
        (pattern == PatternType::Random && offset + len > KEYSTREAM_LIMIT)
            ==> (r matches Err(ShredError::IoError { path: p, kind, .. }) && p@ == path@ && kind@ == "CipherSeek"@),
{
    match pattern {
        PatternType::Zeros => Ok(filled(0x00, len)),
        PatternType::Ones => Ok(filled(0xFF, len)),
        PatternType::Random => {
            if offset > KEYSTREAM_LIMIT || len as u64 > KEYSTREAM_LIMIT - offset {
                return Err(ShredError::IoError {
                    path: owned(path),
                    kind: String::from_str("CipherSeek"),
                    message: String::from_str("Loop Error"),
                });
            }
            Ok(chacha20_keystream_bytes(seed.key.as_slice(), seed.nonce.as_slice(), offset, len))
        },
    }
}

/// Length of the chunk written after `written` bytes of a `file_size`-byte pass.
pub fn next_chunk(file_size: u64, written: u64) -> (r: u64)
    requires
        written < file_size,
    ensures
        r == if file_size - written < BUFFER_SIZE { (file_size - written) as u64 } else { BUFFER_SIZE },
        0 < r <= BUFFER_SIZE,
{
    let rest = file_size - written;
    if rest < BUFFER_SIZE { rest } else { BUFFER_SIZE }
}

/// Samples a spot check reads back.
pub const SPOT_SAMPLES: u64 = 16;

/// Bytes per spot-check sample.
pub const SPOT_LEN: u64 = 4096;

/// Chunks in a pass over `file_size` bytes.
pub open spec fn chunk_count(file_size: u64) -> int {
    (file_size + BUFFER_SIZE - 1) / (BUFFER_SIZE as int)
}

/// Length of chunk `i` of a pass over `file_size` bytes.
pub open spec fn chunk_len_at(file_size: u64, i: int) -> int {
    if file_size - i * BUFFER_SIZE < BUFFER_SIZE { file_size - i * BUFFER_SIZE } else { BUFFER_SIZE as int }
}

/// Length of a spot-check sample.
pub open spec fn spot_len(file_size: u64) -> int {
    if file_size < SPOT_LEN { file_size as int } else { SPOT_LEN as int }
}

/// The ranges `(offset, length)` a write check reads back from a file of
/// `file_size` bytes: none when off; every chunk of a pass, in order, for a
/// full check; for a spot check, samples of up to 4096 bytes spread evenly
/// from the start to the end of the file.
pub open spec fn check_ranges_spec(check: WriteCheck, file_size: u64) -> Seq<(u64, u64)> {
    match check {
        WriteCheck::Off => Seq::empty(),
        WriteCheck::Full => Seq::new(
            chunk_count(file_size) as nat,
            |i: int| ((i * BUFFER_SIZE) as u64, chunk_len_at(file_size, i) as u64),
        ),
        WriteCheck::Spot => Seq::new(
            SPOT_SAMPLES as nat,
            |i: int| ((((file_size - spot_len(file_size)) / ((SPOT_SAMPLES - 1) as int)) * i) as u64, spot_len(file_size) as u64),
        ),
    }
}

/// The ranges a write check reads back; every one lies inside the file.
pub fn check_ranges(check: WriteCheck, file_size: u64) -> (r: Vec<(u64, u64)>)
    ensures
        r@ == check_ranges_spec(check, file_size),
        forall|i: int| 0 <= i < r@.len() ==> (#[trigger] r@[i]).0 + r@[i].1 <= file_size,
{
    let mut out: Vec<(u64, u64)> = Vec::new();
    match check {
        WriteCheck::Off => {},
        WriteCheck::Full => {
            let mut offset: u64 = 0;
            let mut k: u64 = 0;
            while offset < file_size
                invariant
                    offset == (if k * BUFFER_SIZE <= file_size { k * BUFFER_SIZE } else { file_size as int }),
                    k * BUFFER_SIZE < file_size + BUFFER_SIZE,
                    out@.len() == k,
                    forall|j: int| 0 <= j < k ==> #[trigger] out@[j] == check_ranges_spec(WriteCheck::Full, file_size)[j],
                    forall|j: int| 0 <= j < k ==> (#[trigger] out@[j]).0 + out@[j].1 <= file_size,
                decreases file_size - offset,
            {
                let len = next_chunk(file_size, offset);
                assert(k < chunk_count(file_size));
                out.push((offset, len));
                offset = offset + len;
                k = k + 1;
            }
            assert(k == chunk_count(file_size));
        },
        WriteCheck::Spot => {
            let len: u64 = if file_size < SPOT_LEN { file_size } else { SPOT_LEN };
            let step: u64 = (file_size - len) / (SPOT_SAMPLES - 1);
            let mut i: u64 = 0;
            while i < SPOT_SAMPLES
                invariant
                    len == spot_len(file_size),
                    step == (file_size - spot_len(file_size)) / ((SPOT_SAMPLES - 1) as int),
                    i <= SPOT_SAMPLES,
                    out@.len() == i,
                    forall|j: int| 0 <= j < i ==> #[trigger] out@[j] == check_ranges_spec(WriteCheck::Spot, file_size)[j],
                    forall|j: int| 0 <= j < i ==> (#[trigger] out@[j]).0 + out@[j].1 <= file_size,
                decreases SPOT_SAMPLES - i,
            {
                assert(step * i <= file_size - len) by (nonlinear_arith)
                    requires step == (file_size - len) / 15, i < 16, len <= file_size;
                let offset = step * i;
                out.push((offset, len));
                i = i + 1;
            }
        },
    }
    assert(out@ =~= check_ranges_spec(check, file_size));
    out
}

} // verus!
