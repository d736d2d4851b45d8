//! Hash blocks: digest the bytes of the input value.
//!
//! The input may be a bytes value, a string value, or a sequence of them;
//! string payloads contribute their UTF-8 bytes, any other element
//! contributes nothing. The digests themselves come from outside libraries
//! and are named, not restated: each digest is a function of the input
//! bytes alone.

use vstd::prelude::*;

use sha2::Digest;
use tiny_keccak::Hasher;

use crate::error::BlockError;
use crate::registry::{BlockKind, Registry};
use crate::value::{TaggedValue, ValueModel};

verus! {

/// The Keccak-256 digest (32 bytes) of the data.
pub uninterp spec fn keccak256_of(data: Seq<u8>) -> Seq<u8>;

/// The Keccak-512 digest (64 bytes) of the data.
pub uninterp spec fn keccak512_of(data: Seq<u8>) -> Seq<u8>;

/// The SHA3-256 digest (32 bytes) of the data.
pub uninterp spec fn sha3_256_of(data: Seq<u8>) -> Seq<u8>;

/// The SHA3-512 digest (64 bytes) of the data.
pub uninterp spec fn sha3_512_of(data: Seq<u8>) -> Seq<u8>;

/// The SHA-256 digest (32 bytes) of the data.
pub uninterp spec fn sha2_256_of(data: Seq<u8>) -> Seq<u8>;

/// The SHA-512 digest (64 bytes) of the data.
pub uninterp spec fn sha2_512_of(data: Seq<u8>) -> Seq<u8>;

/// Relies on tiny_keccak::Keccak::v256 with Hasher::update/finalize: the
/// 32-byte Keccak-256 digest, a function of the input bytes alone.
#[verifier::external_body]
fn keccak256(data: &Vec<u8>) -> (r: Vec<u8>)
    ensures
        r@ == keccak256_of(data@),
        r@.len() == 32,
{
    let mut k = tiny_keccak::Keccak::v256();
    k.update(data.as_slice());
    let mut out = [0u8; 32];
    k.finalize(&mut out);
    out.to_vec()
}

/// Relies on tiny_keccak::Keccak::v512 with Hasher::update/finalize: the
/// 64-byte Keccak-512 digest, a function of the input bytes alone.
#[verifier::external_body]
fn keccak512(data: &Vec<u8>) -> (r: Vec<u8>)
    ensures
        r@ == keccak512_of(data@),
        r@.len() == 64,
{
    let mut k = tiny_keccak::Keccak::v512();
    k.update(data.as_slice());
    let mut out = [0u8; 64];
    k.finalize(&mut out);
    out.to_vec()
}

/// Relies on tiny_keccak::Sha3::v256 with Hasher::update/finalize: the
/// 32-byte SHA3-256 digest, a function of the input bytes alone.
#[verifier::external_body]
fn sha3_256(data: &Vec<u8>) -> (r: Vec<u8>)
    ensures
        r@ == sha3_256_of(data@),
        r@.len() == 32,
{
    let mut k = tiny_keccak::Sha3::v256();
    k.update(data.as_slice());
    let mut out = [0u8; 32];
    k.finalize(&mut out);
    out.to_vec()
}

/// Relies on tiny_keccak::Sha3::v512 with Hasher::update/finalize: the
/// 64-byte SHA3-512 digest, a function of the input bytes alone.
#[verifier::external_body]
fn sha3_512(data: &Vec<u8>) -> (r: Vec<u8>)
    ensures
        r@ == sha3_512_of(data@),
        r@.len() == 64,
{
    let mut k = tiny_keccak::Sha3::v512();
    k.update(data.as_slice());
    let mut out = [0u8; 64];
    k.finalize(&mut out);
    out.to_vec()
}

/// Relies on sha2::Sha256::digest: the 32-byte SHA-256 digest, a function
/// of the input bytes alone.
#[verifier::external_body]
fn sha2_256(data: &Vec<u8>) -> (r: Vec<u8>)
    ensures
        r@ == sha2_256_of(data@),
        r@.len() == 32,
{
    sha2::Sha256::digest(data.as_slice()).to_vec()
}

/// Relies on sha2::Sha512::digest: the 64-byte SHA-512 digest, a function
/// of the input bytes alone.
#[verifier::external_body]
fn sha2_512(data: &Vec<u8>) -> (r: Vec<u8>)
    ensures
        r@ == sha2_512_of(data@),
        r@.len() == 64,
{
    sha2::Sha512::digest(data.as_slice()).to_vec()
}

/// The bytes one non-sequence value contributes to the digest input: a
/// bytes payload as it is, a string payload as its UTF-8 encoding, nothing
/// otherwise.
pub open spec fn chunk_of(v: ValueModel) -> Seq<u8> {
    match v {
        ValueModel::Bytes(b) => b,
        ValueModel::Str(s) => vstd::utf8::encode_utf8(s),
        _ => Seq::empty(),
    }
}

/// The concatenation of the chunks of a list of values.
pub open spec fn concat_chunks(items: Seq<ValueModel>) -> Seq<u8>
    decreases items.len(),
{
    if items.len() == 0 {
        Seq::empty()
    } else {
        chunk_of(items[0]) + concat_chunks(items.drop_first())
    }
}

/// The full digest input of a value: element chunks in order for a
/// sequence, the value's own chunk otherwise.
pub open spec fn hash_input_of(v: ValueModel) -> Seq<u8> {
    match v {
        ValueModel::Sequence(items) => concat_chunks(items),
        _ => chunk_of(v),
    }
}

proof fn lemma_concat_chunks_take(items: Seq<ValueModel>, i: int)
    requires
        0 <= i < items.len(),
    ensures
        concat_chunks(items.take(i + 1)) == concat_chunks(items.take(i)) + chunk_of(items[i]),
    decreases i,
{
    if i == 0 {
        assert(items.take(0) =~= Seq::<ValueModel>::empty());
        assert(items.take(1) =~= seq![items[0]]);
        assert(seq![items[0]].drop_first() =~= Seq::<ValueModel>::empty());
        assert(concat_chunks(Seq::<ValueModel>::empty()) =~= Seq::<u8>::empty());
        assert(concat_chunks(items.take(1)) =~= chunk_of(items[0]) + Seq::<u8>::empty());
        assert(chunk_of(items[0]) + Seq::<u8>::empty() =~= chunk_of(items[0]));
        assert(concat_chunks(items.take(0)) + chunk_of(items[0]) =~= chunk_of(items[0]));
    } else {
        let rest = items.drop_first();
        lemma_concat_chunks_take(rest, i - 1);
        assert(items.take(i + 1).drop_first() =~= rest.take(i));
        assert(items.take(i).drop_first() =~= rest.take(i - 1));
        assert(items.take(i + 1)[0] == items[0]);
        assert(items.take(i)[0] == items[0]);
        assert(concat_chunks(items.take(i + 1)) == chunk_of(items[0]) + concat_chunks(rest.take(i)));
        assert(concat_chunks(items.take(i)) == chunk_of(items[0]) + concat_chunks(rest.take(i - 1)));
        assert(rest[i - 1] == items[i]);
        assert(chunk_of(items[0]) + (concat_chunks(rest.take(i - 1)) + chunk_of(items[i])) =~= (
        chunk_of(items[0]) + concat_chunks(rest.take(i - 1))) + chunk_of(items[i]));
    }
}

/// Append a value's chunk to the digest input buffer.
fn push_chunk(buf: &mut Vec<u8>, v: &TaggedValue)
    ensures
        final(buf)@ == old(buf)@ + chunk_of(v@),
{
    match v {
        TaggedValue::Bytes(b) => {
            append_bytes(buf, b.as_slice());
        },
        TaggedValue::Str(s) => {
            append_bytes(buf, s.as_str().as_bytes());
        },
        _ => {
            proof {
                assert(buf@ + chunk_of(v@) =~= buf@);
            }
        },
    }
}

/// Append a byte slice to a buffer.
fn append_bytes(buf: &mut Vec<u8>, bytes: &[u8])
    ensures
        final(buf)@ == old(buf)@ + bytes@,
{
    let n = bytes.len();
    let mut i: usize = 0;
    while i < n
        invariant
            i <= n,
            n == bytes@.len(),
            buf@ == old(buf)@ + bytes@.take(i as int),
        decreases n - i,
    {
        buf.push(bytes[i]);
        proof {
            assert(old(buf)@ + bytes@.take(i + 1) =~= (old(buf)@ + bytes@.take(i as int)).push(
                bytes@[i as int],
            ));
        }
        i += 1;
    }
    proof {
        assert(bytes@.take(n as int) =~= bytes@);
    }
}

/// Assemble the digest input of a value: the concatenated chunks of a
/// sequence's elements, or the value's own chunk.
pub fn collect_hash_input(input: &TaggedValue) -> (buf: Vec<u8>)
    ensures
        buf@ == hash_input_of(input@),
{
    let mut buf: Vec<u8> = Vec::new();
    match input {
        TaggedValue::Sequence(items) => {
            let n = items.len();
            let mut i: usize = 0;
            proof {
                crate::value::lemma_models_of(items@);
                assert(buf@ =~= concat_chunks(crate::value::models_of(items@).take(0)));
            }
            while i < n
                invariant
                    i <= n,
                    n == items@.len(),
                    crate::value::models_of(items@).len() == n,
                    forall|k: int| 0 <= k < n ==> crate::value::models_of(items@)[k]
                        == crate::value::model_of(items@[k]),
                    buf@ == concat_chunks(crate::value::models_of(items@).take(i as int)),
                decreases n - i,
            {
                push_chunk(&mut buf, &items[i]);
                proof {
                    lemma_concat_chunks_take(crate::value::models_of(items@), i as int);
                }
                i += 1;
            }
            proof {
                assert(crate::value::models_of(items@).take(n as int) =~= crate::value::models_of(
                    items@,
                ));
            }
        },
        _ => {
            push_chunk(&mut buf, input);
        },
    }
    buf
}

/// Which digest a hash block computes.
#[derive(Clone, Copy, PartialEq, Eq, Structural, Debug)]
pub enum HashAlgo {
    Keccak256,
    Keccak512,
    Sha3_256,
    Sha3_512,
    Sha2_256,
    Sha2_512,
}

/// The digest an algorithm produces for the given input bytes.
pub open spec fn digest_of(algo: HashAlgo, data: Seq<u8>) -> Seq<u8> {
    match algo {
        HashAlgo::Keccak256 => keccak256_of(data),
        HashAlgo::Keccak512 => keccak512_of(data),
        HashAlgo::Sha3_256 => sha3_256_of(data),
        HashAlgo::Sha3_512 => sha3_512_of(data),
        HashAlgo::Sha2_256 => sha2_256_of(data),
        HashAlgo::Sha2_512 => sha2_512_of(data),
    }
}

/// The byte length of an algorithm's digest.
pub open spec fn digest_len(algo: HashAlgo) -> nat {
    match algo {
        HashAlgo::Keccak256 => 32,
        HashAlgo::Keccak512 => 64,
        HashAlgo::Sha3_256 => 32,
        HashAlgo::Sha3_512 => 64,
        HashAlgo::Sha2_256 => 32,
        HashAlgo::Sha2_512 => 64,
    }
}

/// A hash block: stateless but for its owned output buffer, which keeps
/// the digest of the most recent activation.
pub struct HashBlock {
    pub algo: HashAlgo,
    pub output: Vec<u8>,
}

impl HashBlock {
    pub fn new(algo: HashAlgo) -> (b: HashBlock)
        ensures
            b.algo == algo,
            b.output@.len() == 0,
    {
        HashBlock { algo, output: Vec::new() }
    }

    /// Digest the input's bytes. Never fails: a value that contributes no
    /// bytes (and every sequence element that contributes none) is simply
    /// skipped, so the digest is over exactly the contributed bytes.
    pub fn activate(&mut self, input: &TaggedValue) -> (r: Result<TaggedValue, BlockError>)
        ensures
            final(self).algo == old(self).algo,
            r is Ok,
            r->Ok_0@ == ValueModel::Bytes(digest_of(old(self).algo, hash_input_of(input@))),
            final(self).output@ == digest_of(old(self).algo, hash_input_of(input@)),
            final(self).output@.len() == digest_len(old(self).algo),
    {
        let buf = collect_hash_input(input);
        let digest = match self.algo {
            HashAlgo::Keccak256 => keccak256(&buf),
            HashAlgo::Keccak512 => keccak512(&buf),
            HashAlgo::Sha3_256 => sha3_256(&buf),
            HashAlgo::Sha3_512 => sha3_512(&buf),
            HashAlgo::Sha2_256 => sha2_256(&buf),
            HashAlgo::Sha2_512 => sha2_512(&buf),
        };
        self.output = crate::value::copy_bytes(&digest);
        Ok(TaggedValue::Bytes(digest))
    }
}

/// Register the six hash blocks.
#[allow(non_snake_case)]
pub fn registerBlocks(registry: &mut Registry)
    ensures
        final(registry).entries@ == old(registry).entries@ + hash_entries(),
{
    registry.register(BlockKind::HashKeccak256);
    registry.register(BlockKind::HashKeccak512);
    registry.register(BlockKind::HashSha3_256);
    registry.register(BlockKind::HashSha3_512);
    registry.register(BlockKind::HashSha2_256);
    registry.register(BlockKind::HashSha2_512);
    proof {
        assert(registry.entries@ =~= old(registry).entries@ + hash_entries());
    }
}

/// The entries `registerBlocks` adds, in order.
pub open spec fn hash_entries() -> Seq<BlockKind> {
    seq![
        BlockKind::HashKeccak256,
        BlockKind::HashKeccak512,
        BlockKind::HashSha3_256,
        BlockKind::HashSha3_512,
        BlockKind::HashSha2_256,
        BlockKind::HashSha2_512,
    ]
}

} // verus!
