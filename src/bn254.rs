//! The rules around the host's BN254 operations: which input buffers each
//! operation accepts, the size of the buffer it fills, and how its status
//! code becomes an error. The host call itself is made by the caller, between
//! [`group_op_output_buffer`] and [`group_op_result`] (or
//! [`compression_result`]).
use crate::errors::Groth16Error;
use vstd::prelude::*;

verus! {

/// Opcode of G1 addition for the host's group operation.
pub const ALT_BN128_G1_ADD: u64 = 0;
/// Opcode of G1 scalar multiplication for the host's group operation.
pub const ALT_BN128_G1_MUL: u64 = 2;
/// Opcode of the multi-pairing for the host's group operation.
pub const ALT_BN128_PAIRING: u64 = 3;

/// Opcodes of the host's compression operation.
pub const ALT_BN128_G1_COMPRESS: u64 = 0;
pub const ALT_BN128_G1_DECOMPRESS: u64 = 1;
pub const ALT_BN128_G2_COMPRESS: u64 = 2;
pub const ALT_BN128_G2_DECOMPRESS: u64 = 3;

pub const ALT_BN128_ADDITION_INPUT_SIZE: usize = 128;
pub const ALT_BN128_ADDITION_OUTPUT_SIZE: usize = 64;
pub const ALT_BN128_MULTIPLICATION_INPUT_SIZE: usize = 96;
pub const ALT_BN128_MULTIPLICATION_OUTPUT_SIZE: usize = 64;
pub const ALT_BN128_PAIRING_ELEMENT_SIZE: usize = 192;
pub const ALT_BN128_PAIRING_OUTPUT_SIZE: usize = 32;
pub const ALT_BN128_G1_POINT_SIZE: usize = 64;
pub const ALT_BN128_G1_COMPRESSED_SIZE: usize = 32;
pub const ALT_BN128_G2_POINT_SIZE: usize = 128;
pub const ALT_BN128_G2_COMPRESSED_SIZE: usize = 64;

/// The three operations of the host's group-operation call.
#[derive(Debug, Clone, Copy, PartialEq, Eq, Structural)]
pub enum GroupOp {
    Addition,
    Multiplication,
    Pairing,
}

impl GroupOp {
    pub open spec fn spec_code(self) -> u64 {
        match self {
            GroupOp::Addition => ALT_BN128_G1_ADD,
            GroupOp::Multiplication => ALT_BN128_G1_MUL,
            GroupOp::Pairing => ALT_BN128_PAIRING,
        }
    }

    /// Size of the buffer the host fills.
    pub open spec fn spec_output_size(self) -> usize {
        match self {
            GroupOp::Addition => ALT_BN128_ADDITION_OUTPUT_SIZE,
            GroupOp::Multiplication => ALT_BN128_MULTIPLICATION_OUTPUT_SIZE,
            GroupOp::Pairing => ALT_BN128_PAIRING_OUTPUT_SIZE,
        }
    }

    /// The one error that every failure of this operation is reported as.
    pub open spec fn spec_failure(self) -> Groth16Error {
        match self {
            GroupOp::Addition => Groth16Error::PreparingInputsG1AdditionFailed,
            GroupOp::Multiplication => Groth16Error::PreparingInputsG1MulFailed,
            GroupOp::Pairing => Groth16Error::ProofVerificationFailed,
        }
    }

    /// Whether an input of `len` bytes may be handed to the host: at most two
    /// points for an addition, at most a point and a scalar for a
    /// multiplication, whole G1/G2 pairs for a pairing.
    pub open spec fn accepts_input_len(self, len: int) -> bool {
        match self {
            GroupOp::Addition => len <= ALT_BN128_ADDITION_INPUT_SIZE,
            GroupOp::Multiplication => len <= ALT_BN128_MULTIPLICATION_INPUT_SIZE,
            GroupOp::Pairing => len % (ALT_BN128_PAIRING_ELEMENT_SIZE as int) == 0,
        }
    }

    pub fn code(&self) -> (r: u64)
        ensures
            r == self.spec_code(),
    {
        match self {
            GroupOp::Addition => ALT_BN128_G1_ADD,
            GroupOp::Multiplication => ALT_BN128_G1_MUL,
            GroupOp::Pairing => ALT_BN128_PAIRING,
        }
    }

    pub fn output_size(&self) -> (r: usize)
        ensures
            r == self.spec_output_size(),
    {
        match self {
            GroupOp::Addition => ALT_BN128_ADDITION_OUTPUT_SIZE,
            GroupOp::Multiplication => ALT_BN128_MULTIPLICATION_OUTPUT_SIZE,
            GroupOp::Pairing => ALT_BN128_PAIRING_OUTPUT_SIZE,
        }
    }

    pub fn failure(&self) -> (r: Groth16Error)
        ensures
            r == self.spec_failure(),
    {
        match self {
            GroupOp::Addition => Groth16Error::PreparingInputsG1AdditionFailed,
            GroupOp::Multiplication => Groth16Error::PreparingInputsG1MulFailed,
            GroupOp::Pairing => Groth16Error::ProofVerificationFailed,
        }
    }
}

/// A zeroed buffer of `n` bytes.
pub open spec fn zeroes(n: nat) -> Seq<u8> {
    Seq::new(n, |_i: int| 0u8)
}

/// The zeroed buffer the host is to fill for `op` on `input`, or `op`'s
/// error, before any host call, when the host may not be given `input`.
pub fn group_op_output_buffer(op: GroupOp, input: &[u8]) -> (r: Result<Vec<u8>, Groth16Error>)
    ensures
        r is Ok <==> op.accepts_input_len(input@.len() as int),
        r is Ok ==> r->Ok_0@ == zeroes(op.spec_output_size() as nat),
        r is Err ==> r->Err_0 == op.spec_failure(),
{
    let accepted = match op {
        GroupOp::Addition => input.len() <= ALT_BN128_ADDITION_INPUT_SIZE,
        GroupOp::Multiplication => input.len() <= ALT_BN128_MULTIPLICATION_INPUT_SIZE,
        GroupOp::Pairing => input.len() % ALT_BN128_PAIRING_ELEMENT_SIZE == 0,
    };
    if !accepted {
        return Err(op.failure());
    }
    let size = op.output_size();
    let mut out: Vec<u8> = Vec::with_capacity(size);
    let mut i: usize = 0;
    while i < size
        invariant
            i <= size,
            out@ == zeroes(i as nat),
        decreases size - i,
    {
        out.push(0u8);
        i = i + 1;
        assert(out@ =~= zeroes(i as nat));
    }
    Ok(out)
}

/// What a group operation returns once the host has answered with `status`
/// and filled `output`: the buffer when the status is zero, else `op`'s
/// error. Only zero and non-zero are told apart.
pub fn group_op_result(op: GroupOp, status: u64, output: Vec<u8>) -> (r: Result<Vec<u8>, Groth16Error>)
    ensures
        status == 0 ==> r is Ok && r->Ok_0@ == output@,
        status != 0 ==> r == Err::<Vec<u8>, Groth16Error>(op.spec_failure()),
{
    if status != 0 {
        Err(op.failure())
    } else {
        Ok(output)
    }
}

/// The four operations of the host's compression call.
#[derive(Debug, Clone, Copy, PartialEq, Eq, Structural)]
pub enum CompressionOp {
    G1Compress,
    G1Decompress,
    G2Compress,
    G2Decompress,
}

impl CompressionOp {
    pub open spec fn spec_code(self) -> u64 {
        match self {
            CompressionOp::G1Compress => ALT_BN128_G1_COMPRESS,
            CompressionOp::G1Decompress => ALT_BN128_G1_DECOMPRESS,
            CompressionOp::G2Compress => ALT_BN128_G2_COMPRESS,
            CompressionOp::G2Decompress => ALT_BN128_G2_DECOMPRESS,
        }
    }

    /// Size of the input the host reads.
    pub open spec fn spec_input_size(self) -> usize {
        match self {
            CompressionOp::G1Compress => ALT_BN128_G1_POINT_SIZE,
            CompressionOp::G1Decompress => ALT_BN128_G1_COMPRESSED_SIZE,
            CompressionOp::G2Compress => ALT_BN128_G2_POINT_SIZE,
            CompressionOp::G2Decompress => ALT_BN128_G2_COMPRESSED_SIZE,
        }
    }

    /// Size of the buffer the host fills.
    pub open spec fn spec_output_size(self) -> usize {
        match self {
            CompressionOp::G1Compress => ALT_BN128_G1_COMPRESSED_SIZE,
            CompressionOp::G1Decompress => ALT_BN128_G1_POINT_SIZE,
            CompressionOp::G2Compress => ALT_BN128_G2_COMPRESSED_SIZE,
            CompressionOp::G2Decompress => ALT_BN128_G2_POINT_SIZE,
        }
    }

    pub open spec fn spec_failure(self) -> Groth16Error {
        match self {
            CompressionOp::G1Compress => Groth16Error::ProofConversionError,
            CompressionOp::G1Decompress => Groth16Error::DecompressingG1Failed,
            CompressionOp::G2Compress => Groth16Error::ProofConversionError,
            CompressionOp::G2Decompress => Groth16Error::DecompressingG2Failed,
        }
    }

    pub fn code(&self) -> (r: u64)
        ensures
            r == self.spec_code(),
    {
        match self {
            CompressionOp::G1Compress => ALT_BN128_G1_COMPRESS,
            CompressionOp::G1Decompress => ALT_BN128_G1_DECOMPRESS,
            CompressionOp::G2Compress => ALT_BN128_G2_COMPRESS,
            CompressionOp::G2Decompress => ALT_BN128_G2_DECOMPRESS,
        }
    }

    pub fn input_size(&self) -> (r: usize)
        ensures
            r == self.spec_input_size(),
    {
        match self {
            CompressionOp::G1Compress => ALT_BN128_G1_POINT_SIZE,
            CompressionOp::G1Decompress => ALT_BN128_G1_COMPRESSED_SIZE,
            CompressionOp::G2Compress => ALT_BN128_G2_POINT_SIZE,
            CompressionOp::G2Decompress => ALT_BN128_G2_COMPRESSED_SIZE,
        }
    }

    pub fn output_size(&self) -> (r: usize)
        ensures
            r == self.spec_output_size(),
    {
        match self {
            CompressionOp::G1Compress => ALT_BN128_G1_COMPRESSED_SIZE,
            CompressionOp::G1Decompress => ALT_BN128_G1_POINT_SIZE,
            CompressionOp::G2Compress => ALT_BN128_G2_COMPRESSED_SIZE,
            CompressionOp::G2Decompress => ALT_BN128_G2_POINT_SIZE,
        }
    }

    pub fn failure(&self) -> (r: Groth16Error)
        ensures
            r == self.spec_failure(),
    {
        match self {
            CompressionOp::G1Compress => Groth16Error::ProofConversionError,
            CompressionOp::G1Decompress => Groth16Error::DecompressingG1Failed,
            CompressionOp::G2Compress => Groth16Error::ProofConversionError,
            CompressionOp::G2Decompress => Groth16Error::DecompressingG2Failed,
        }
    }
}

/// Whether a (de)compression succeeded, from the host's `status`: zero is
/// success, anything else is `op`'s error.
pub fn compression_result(op: CompressionOp, status: u64) -> (r: Result<(), Groth16Error>)
    ensures
        status == 0 <==> r is Ok,
        status != 0 ==> r == Err::<(), Groth16Error>(op.spec_failure()),
{
    if status != 0 {
        Err(op.failure())
    } else {
        Ok(())
    }
}

} // verus!
