//! SHA-256 fingerprints, computed in one pass or streamed chunk by chunk.

use sha2::Digest;
use vstd::prelude::*;
use vstd::slice::slice_subrange;

verus! {

/// An incremental SHA-256 computation. It holds the state of `sha2::Sha256`,
/// which is opaque to the verifier; contracts speak of `absorbed` instead.
#[verifier::external_body]
pub struct FileHasher {
    state: sha2::Sha256,
}

/// The bytes that a hasher has taken in so far, in order.
pub uninterp spec fn absorbed(h: FileHasher) -> Seq<u8>;

/// The SHA-256 digest of a byte sequence, as 64 lowercase hexadecimal digits.
pub uninterp spec fn sha256_hex(bytes: Seq<u8>) -> Seq<char>;

/// Whether `c` is a decimal digit or one of `a` to `f`.
pub open spec fn is_lower_hex(c: char) -> bool {
    ('0' <= c && c <= '9') || ('a' <= c && c <= 'f')
}

/// Whether `hex` has the shape of a fingerprint: 64 lowercase hexadecimal
/// digits.
pub open spec fn is_fingerprint(hex: Seq<char>) -> bool {
    &&& hex.len() == 64
    &&& forall|i: int| 0 <= i < 64 ==> is_lower_hex(#[trigger] hex[i])
}

/// `sha2::Sha256::new` (from `Digest`): a hasher that has taken in nothing.
#[verifier::external_body]
fn hasher_new() -> (h: FileHasher)
    ensures
        absorbed(h) == Seq::<u8>::empty(),
{
    FileHasher { state: sha2::Sha256::new() }
}

/// `Digest::update` on `sha2::Sha256`: the hasher takes in `data` after all
/// that it took in before.
#[verifier::external_body]
fn hasher_update(h: &mut FileHasher, data: &[u8])
    ensures
        absorbed(*final(h)) == absorbed(*old(h)) + data@,
{
    h.state.update(data);
}

/// `Digest::finalize` on `sha2::Sha256`, printed with `{:x}`: the digest of
/// everything the hasher took in, as lowercase hexadecimal. What the hasher
/// took in is all that the digest depends on. The 32 bytes of the digest
/// are printed as two lowercase digits each.
#[verifier::external_body]
fn hasher_finalize_hex(h: FileHasher) -> (hex: String)
    ensures
        hex@ == sha256_hex(absorbed(h)),
        is_fingerprint(hex@),
{
    format!("{:x}", h.state.finalize())
}

/// `Digest::digest` on `sha2::Sha256`, printed with `{:x}`: the digest of
/// `data`, as lowercase hexadecimal. The call makes a fresh hasher, updates
/// it with `data` once and finalizes it, so its result is that of
/// `Digest::finalize` after `data` alone was taken in.
#[verifier::external_body]
fn digest_hex(data: &[u8]) -> (hex: String)
    ensures
        hex@ == sha256_hex(data@),
        is_fingerprint(hex@),
{
    format!("{:x}", sha2::Sha256::digest(data))
}

/// The chunks of `chunks`, joined in order into one byte sequence.
pub open spec fn joined(chunks: Seq<Vec<u8>>) -> Seq<u8>
    decreases chunks.len(),
{
    if chunks.len() == 0 {
        Seq::<u8>::empty()
    } else {
        joined(chunks.drop_last()) + chunks.last()@
    }
}

/// A hasher is viewed as the bytes it has taken in so far.
impl View for FileHasher {
    type V = Seq<u8>;

    open spec fn view(&self) -> Seq<u8> {
        absorbed(*self)
    }
}

impl FileHasher {
    /// A hasher that has taken in nothing.
    pub fn new() -> (h: FileHasher)
        ensures
            h@ == Seq::<u8>::empty(),
    {
        hasher_new()
    }

    /// Takes in `data` after everything taken in before.
    pub fn update(&mut self, data: &[u8])
        ensures
            final(self)@ == old(self)@ + data@,
    {
        hasher_update(self, data);
    }

    /// Handles the outcome of one read into `buffer` that reported `read`
    /// bytes. A read of zero bytes is the end of the stream: nothing is taken
    /// in and the result is `false`. Otherwise the first `read` bytes of
    /// `buffer` are taken in and the result is `true`: read on.
    pub fn absorb_read(&mut self, buffer: &[u8], read: usize) -> (more: bool)
        requires
            read <= buffer@.len(),
        ensures
            more == (read != 0),
            final(self)@ == old(self)@ + buffer@.subrange(0, read as int),
    {
        if read == 0 {
            assert(buffer@.subrange(0, 0) =~= Seq::<u8>::empty());
            assert(old(self)@ + Seq::<u8>::empty() =~= old(self)@);
            false
        } else {
            let chunk = slice_subrange(buffer, 0, read);
            hasher_update(self, chunk);
            true
        }
    }

    /// The digest of everything taken in, as lowercase hexadecimal.
    pub fn finish(self) -> (hex: String)
        ensures
            hex@ == sha256_hex(self@),
            is_fingerprint(hex@),
    {
        hasher_finalize_hex(self)
    }
}

/// The fingerprint of `data`, computed in one pass over the whole buffer.
pub fn hash_bytes(data: &[u8]) -> (hex: String)
    ensures
        hex@ == sha256_hex(data@),
        is_fingerprint(hex@),
{
    digest_hex(data)
}

/// The fingerprint of a stream that arrived as `chunks`: each chunk is fed to
/// one hasher in turn. It is the fingerprint of the chunks joined.
pub fn hash_chunks(chunks: &Vec<Vec<u8>>) -> (hex: String)
    ensures
        hex@ == sha256_hex(joined(chunks@)),
        is_fingerprint(hex@),
{
    let mut hasher = FileHasher::new();
    let mut i: usize = 0;
    while i < chunks.len()
        invariant
            i <= chunks@.len(),
            hasher@ == joined(chunks@.take(i as int)),
        decreases chunks@.len() - i,
    {
        proof {
            let next = chunks@.take(i + 1);
            assert(next.drop_last() =~= chunks@.take(i as int));
            assert(next.last() == chunks@[i as int]);
        }
        hasher.update(chunks[i].as_slice());
        i = i + 1;
    }
    proof {
        assert(chunks@.take(i as int) =~= chunks@);
    }
    hasher.finish()
}

/// The fingerprint of `data`, fed to one hasher in pieces of at most
/// `chunk_size` bytes. Whatever the piece size, it is the fingerprint of
/// `data` itself.
pub fn hash_streamed(data: &[u8], chunk_size: usize) -> (hex: String)
    requires
        chunk_size > 0,
    ensures
        hex@ == sha256_hex(data@),
        is_fingerprint(hex@),
{
    let mut hasher = FileHasher::new();
    let mut done: usize = 0;
    while done < data.len()
        invariant
            done <= data@.len(),
            chunk_size > 0,
            hasher@ == data@.subrange(0, done as int),
        decreases data@.len() - done,
    {
        let left: usize = data.len() - done;
        let step: usize = if left < chunk_size { left } else { chunk_size };
        let piece = slice_subrange(data, done, done + step);
        hasher.update(piece);
        proof {
            assert(data@.subrange(0, done as int) + data@.subrange(done as int, done + step)
                =~= data@.subrange(0, done + step));
        }
        done = done + step;
    }
    proof {
        assert(data@.subrange(0, done as int) =~= data@);
    }
    hasher.finish()
}

/// Chunking is transparent: a stream of chunks and the same bytes in one
/// piece have the same fingerprint.
pub proof fn lemma_chunking_transparent(chunks: Seq<Vec<u8>>, whole: Seq<u8>)
    requires
        joined(chunks) == whole,
    ensures
        sha256_hex(joined(chunks)) == sha256_hex(whole),
{
}

} // verus!
