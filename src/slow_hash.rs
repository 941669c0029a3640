//! The slow-hash stage: an expensive transform applied to a password-derived
//! digest before it becomes key material.

use vstd::prelude::*;

verus! {

/// Failure of the slow-hash stage.
#[derive(Debug, Clone, Copy, PartialEq, Eq, Structural)]
pub enum InternalError {
    /// The memory-hard primitive reported an internal error.
    SlowHashError,
}

/// A strategy that hardens a fixed-length digest.
pub trait SlowHash: Sized {
    /// What hashing `input` gives: the output, or `None` where the strategy fails.
    spec fn spec_hash(&self, input: Seq<u8>) -> Option<Seq<u8>>;

    /// Hashes `input`; the output is exactly as long as the input digest.
    fn hash(&self, input: &Vec<u8>) -> (r: Result<Vec<u8>, InternalError>)
        ensures
            hashed(self.spec_hash(input@), input@, r),
    ;
}

/// What a call of `hash` on `input` returns, where `expected` is what the
/// strategy gives on it: that output, exactly as long as the input, or
/// `SlowHashError` where the strategy fails.
pub open spec fn hashed(expected: Option<Seq<u8>>, input: Seq<u8>, r: Result<Vec<u8>, InternalError>) -> bool {
    match r {
        Ok(out) => expected == Some(out@) && out@.len() == input.len(),
        Err(e) => expected is None && e == InternalError::SlowHashError,
    }
}

/// Each call is a pure function of the strategy and the input: two calls on the
/// same input return the same output, or both fail.
pub proof fn lemma_hash_deterministic<H: SlowHash>(
    h: H,
    input: Seq<u8>,
    r1: Result<Vec<u8>, InternalError>,
    r2: Result<Vec<u8>, InternalError>,
)
    requires
        hashed(h.spec_hash(input), input, r1),
        hashed(h.spec_hash(input), input, r2),
    ensures
        r1 is Ok <==> r2 is Ok,
        r1 is Ok ==> r1->Ok_0@ == r2->Ok_0@,
        r1 is Err ==> r1 == r2,
{
}

/// A no-op hash which simply returns its input.
#[derive(Debug, Clone, Copy, Default, PartialEq, Eq, Structural)]
pub struct NoOpHash;

impl SlowHash for NoOpHash {
    open spec fn spec_hash(&self, input: Seq<u8>) -> Option<Seq<u8>> {
        Some(input)
    }

    fn hash(&self, input: &Vec<u8>) -> (r: Result<Vec<u8>, InternalError>) {
        Ok(input.clone())
    }
}

/// The block size, in bytes, below which a digest may feed a slow hash.
pub const MAX_BLOCK_SIZE_EXCLUSIVE: usize = 256;

/// The shape of the standard hash that a cipher suite feeds into its slow
/// hash: its output size and its internal block size, both in bytes.
#[derive(Debug, Clone, Copy, PartialEq, Eq, Structural)]
pub struct DigestParams {
    output_size: usize,
    block_size: usize,
}

impl DigestParams {
    /// The digest's output size.
    pub closed spec fn spec_output_size(&self) -> nat {
        self.output_size as nat
    }

    /// The digest's block size.
    pub closed spec fn spec_block_size(&self) -> nat {
        self.block_size as nat
    }

    /// A digest may feed a slow hash: its block size is nonzero and below
    /// `MAX_BLOCK_SIZE_EXCLUSIVE`.
    pub closed spec fn wf(&self) -> bool {
        0 < self.block_size < MAX_BLOCK_SIZE_EXCLUSIVE
    }

    /// Checks, when a suite is assembled, that a digest of this shape may
    /// feed a slow hash; `None` rejects the pairing.
    pub fn new(output_size: usize, block_size: usize) -> (r: Option<Self>)
        ensures
            r is Some <==> 0 < block_size < MAX_BLOCK_SIZE_EXCLUSIVE,
            r matches Some(p) ==> p.wf() && p.spec_output_size() == output_size
                && p.spec_block_size() == block_size,
    {
        if 0 < block_size && block_size < MAX_BLOCK_SIZE_EXCLUSIVE {
            Some(DigestParams { output_size, block_size })
        } else {
            None
        }
    }

    /// The digest's output size.
    pub fn output_size(&self) -> (r: usize)
        ensures
            r == self.spec_output_size(),
    {
        self.output_size
    }

    /// The digest's block size.
    pub fn block_size(&self) -> (r: usize)
        ensures
            r == self.spec_block_size(),
    {
        self.block_size
    }
}

/// Hardens `digest` with `strategy`, where the digest has the output size of
/// the suite's standard hash; a digest of another length is refused with
/// `None` and not hashed.
pub fn harden_digest<H: SlowHash>(params: &DigestParams, strategy: &H, digest: &Vec<u8>) -> (r: Option<Result<Vec<u8>, InternalError>>)
    ensures
        r is Some <==> digest@.len() == params.spec_output_size(),
        r matches Some(h) ==> hashed(strategy.spec_hash(digest@), digest@, h),
{
    if digest.len() == params.output_size() {
        Some(strategy.hash(digest))
    } else {
        None
    }
}

/// The no-op strategy returns every input unchanged.
pub proof fn lemma_no_op_identity(input: Seq<u8>, r: Result<Vec<u8>, InternalError>)
    requires
        hashed(NoOpHash.spec_hash(input), input, r),
    ensures
        r is Ok,
        r->Ok_0@ == input,
{
}

/// The smallest salt that the memory-hard primitive accepts, in bytes.
pub const MIN_SALT_LEN: usize = 8;

/// The largest password, salt or output length the memory-hard primitive accepts.
pub const MAX_PRIMITIVE_LEN: usize = 0xFFFF_FFFF;

/// The smallest output the memory-hard primitive produces, in bytes.
pub const MIN_OUTPUT_LEN: usize = 4;

#[verifier::external_type_specification]
#[verifier::external_body]
pub struct ExArgon2Error(argon2::Error);

/// Argon2 with its default algorithm, version and cost parameters, applied to
/// `password` and `salt` with an output of `out_len` bytes.
pub uninterp spec fn argon2_output(password: Seq<u8>, salt: Seq<u8>, out_len: nat) -> Seq<u8>;

/// The all-zero salt of the primitive's minimum length.
pub open spec fn zero_salt() -> Seq<u8> {
    Seq::new(MIN_SALT_LEN as nat, |i: int| 0u8)
}

/// Relies on `argon2::Argon2::hash_password_into` on `Argon2::default()`: it
/// fills the whole output buffer with a value that depends on the password, the
/// salt and the output length alone, and fails, before writing, exactly when one
/// of those lengths is out of the range that the default parameters accept.
#[verifier::external_body]
fn argon2_hash_into(password: &[u8], salt: &[u8], out: &mut Vec<u8>) -> (r: Result<(), argon2::Error>)
    ensures
        final(out)@.len() == old(out)@.len(),
        r is Ok <==> (MIN_OUTPUT_LEN <= old(out)@.len() <= MAX_PRIMITIVE_LEN
            && password@.len() <= MAX_PRIMITIVE_LEN && MIN_SALT_LEN <= salt@.len()
            <= MAX_PRIMITIVE_LEN),
        r is Ok ==> final(out)@ == argon2_output(password@, salt@, old(out)@.len()),
{
    argon2::Argon2::default().hash_password_into(password, salt, out.as_mut_slice())
}

/// The memory-hard strategy: Argon2 with its default profile, a fixed all-zero
/// salt of the minimum length and an output as long as the input digest.
#[derive(Debug, Clone, Copy, Default, PartialEq, Eq, Structural)]
pub struct MemoryHardHash;

/// Whether the memory-hard primitive accepts a digest of `len` bytes.
pub open spec fn memory_hard_accepts(len: nat) -> bool {
    MIN_OUTPUT_LEN <= len <= MAX_PRIMITIVE_LEN
}

impl SlowHash for MemoryHardHash {
    open spec fn spec_hash(&self, input: Seq<u8>) -> Option<Seq<u8>> {
        if memory_hard_accepts(input.len()) {
            Some(argon2_output(input, zero_salt(), input.len()))
        } else {
            None
        }
    }

    fn hash(&self, input: &Vec<u8>) -> (r: Result<Vec<u8>, InternalError>) {
        let salt: Vec<u8> = vec![0u8; MIN_SALT_LEN];
        let mut output: Vec<u8> = vec![0u8; input.len()];
        assert(salt@ =~= zero_salt());
        match argon2_hash_into(input.as_slice(), salt.as_slice(), &mut output) {
            Ok(()) => Ok(output),
            Err(_) => Err(InternalError::SlowHashError),
        }
    }
}

/// The memory-hard strategy succeeds exactly on digests of an accepted length,
/// and its output is then exactly as long as the digest.
pub proof fn lemma_memory_hard_shape(input: Seq<u8>, r: Result<Vec<u8>, InternalError>)
    requires
        hashed(MemoryHardHash.spec_hash(input), input, r),
    ensures
        r is Ok <==> memory_hard_accepts(input.len()),
        r is Ok ==> r->Ok_0@.len() == input.len(),
{
}

} // verus!
