use vstd::prelude::*;

verus! {

/// Every way a verification, or one of its provider operations, can fail.
///
/// Each kind has a stable numeric code (see [`error_code`]) for hosts that
/// can only pass integers across their boundary.
#[derive(Debug, Clone, Copy, PartialEq, Eq, Structural)]
pub enum Groth16Error {
    IncompatibleVerifyingKeyWithNrPublicInputs,
    ProofVerificationFailed,
    PreparingInputsG1AdditionFailed,
    PreparingInputsG1MulFailed,
    InvalidG1Length,
    InvalidG2Length,
    InvalidPublicInputsLength,
    DecompressingG1Failed,
    DecompressingG2Failed,
    PublicInputGreaterThanFieldSize,
    ProofConversionError,
    ArkworksSerializationError,
}

/// The numeric code of each error kind; the table is fixed by hand, not by
/// declaration order.
pub open spec fn error_code(e: Groth16Error) -> u32 {
    match e {
        Groth16Error::IncompatibleVerifyingKeyWithNrPublicInputs => 0,
        Groth16Error::ProofVerificationFailed => 1,
        Groth16Error::PreparingInputsG1AdditionFailed => 2,
        Groth16Error::PreparingInputsG1MulFailed => 3,
        Groth16Error::InvalidG1Length => 4,
        Groth16Error::InvalidG2Length => 5,
        Groth16Error::InvalidPublicInputsLength => 6,
        Groth16Error::DecompressingG1Failed => 7,
        Groth16Error::DecompressingG2Failed => 8,
        Groth16Error::PublicInputGreaterThanFieldSize => 9,
        Groth16Error::ProofConversionError => 10,
        Groth16Error::ArkworksSerializationError => 11,
    }
}

impl Groth16Error {
    /// The stable numeric code of this error.
    pub fn code(&self) -> (r: u32)
        ensures
            r == error_code(*self),
    {
        match self {
            Groth16Error::IncompatibleVerifyingKeyWithNrPublicInputs => 0,
            Groth16Error::ProofVerificationFailed => 1,
            Groth16Error::PreparingInputsG1AdditionFailed => 2,
            Groth16Error::PreparingInputsG1MulFailed => 3,
            Groth16Error::InvalidG1Length => 4,
            Groth16Error::InvalidG2Length => 5,
            Groth16Error::InvalidPublicInputsLength => 6,
            Groth16Error::DecompressingG1Failed => 7,
            Groth16Error::DecompressingG2Failed => 8,
            Groth16Error::PublicInputGreaterThanFieldSize => 9,
            Groth16Error::ProofConversionError => 10,
            Groth16Error::ArkworksSerializationError => 11,
        }
    }
}

/// Distinct error kinds never share a code.
pub proof fn lemma_error_code_injective(a: Groth16Error, b: Groth16Error)
    ensures
        error_code(a) == error_code(b) ==> a == b,
{
}

impl From<Groth16Error> for u32 {
    fn from(error: Groth16Error) -> (r: u32) {
        error.code()
    }
}

impl vstd::std_specs::convert::FromSpecImpl<Groth16Error> for u32 {
    open spec fn obeys_from_spec() -> bool {
        true
    }

    open spec fn from_spec(error: Groth16Error) -> u32 {
        error_code(error)
    }
}

/// Declares ark_serialize's `SerializationError` as an opaque type, so that a
/// serialization failure can be taken in as one of this library's errors.
/// Nothing is assumed of its values.
#[verifier::external_type_specification]
#[verifier::external_body]
pub struct ExSerializationError(ark_serialize::SerializationError);

/// Every serialization failure is reported as one kind, whatever its cause.
impl From<ark_serialize::SerializationError> for Groth16Error {
    fn from(_e: ark_serialize::SerializationError) -> (r: Groth16Error) {
        Groth16Error::ArkworksSerializationError
    }
}

impl vstd::std_specs::convert::FromSpecImpl<ark_serialize::SerializationError> for Groth16Error {
    open spec fn obeys_from_spec() -> bool {
        true
    }

    open spec fn from_spec(_e: ark_serialize::SerializationError) -> Groth16Error {
        Groth16Error::ArkworksSerializationError
    }
}

} // verus!
