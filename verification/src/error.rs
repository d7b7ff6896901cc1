//! The ways in which an operation on a credential can fail.

use vstd::prelude::*;
use vstd::string::StringExecFns;

verus! {

/// Why an operation on a credential or a presentation failed.
#[derive(Debug, PartialEq, Eq)]
pub enum SdError {
    /// A reserved field is absent from the credential.
    MissingField,
    /// A reserved field is present but does not have the shape it must have.
    MalformedField,
    /// A value could not be written in its transport form.
    Encoding,
    /// A transport form could not be read back.
    Decoding,
    /// Key material could not be parsed.
    KeyFormat,
    /// Signing failed.
    Signing,
    /// A signature did not verify.
    SignatureInvalid,
    /// The elements could not be added to the accumulator.
    Accumulation,
    /// A membership witness could not be derived.
    WitnessDerivation,
    /// The witness of the named claim does not prove its membership.
    MembershipVerificationFailure(String),
    /// Key material could not be generated.
    KeyGeneration,
}

impl SdError {
    /// Whether the failure says that the input does not have the structure
    /// of a credential, as opposed to carrying a proof that does not hold.
    pub open spec fn is_structural(self) -> bool {
        self is MissingField || self is MalformedField || self is Decoding
    }

    /// Whether the failure says that a proof was read and does not hold.
    pub open spec fn is_cryptographic(self) -> bool {
        self is SignatureInvalid || self is MembershipVerificationFailure
    }

    /// The description of the failure.
    pub open spec fn message_text(self) -> Seq<char> {
        match self {
            SdError::MissingField => "a reserved field is missing"@,
            SdError::MalformedField => "a reserved field is malformed"@,
            SdError::Encoding => "encoding failed"@,
            SdError::Decoding => "decoding failed"@,
            SdError::KeyFormat => "key material is malformed"@,
            SdError::Signing => "signing failed"@,
            SdError::SignatureInvalid => "the signature is invalid"@,
            SdError::Accumulation => "accumulation failed"@,
            SdError::WitnessDerivation => "witness derivation failed"@,
            SdError::MembershipVerificationFailure(claim) =>
                "membership verification failed for claim "@ + claim@,
            SdError::KeyGeneration => "key generation failed"@,
        }
    }

    /// A description of the failure for a human reader. That of a failed
    /// membership names the claim.
    pub fn message(&self) -> (text: String)
        ensures
            text@ == self.message_text(),
    {
        match self {
            SdError::MissingField => String::from_str("a reserved field is missing"),
            SdError::MalformedField => String::from_str("a reserved field is malformed"),
            SdError::Encoding => String::from_str("encoding failed"),
            SdError::Decoding => String::from_str("decoding failed"),
            SdError::KeyFormat => String::from_str("key material is malformed"),
            SdError::Signing => String::from_str("signing failed"),
            SdError::SignatureInvalid => String::from_str("the signature is invalid"),
            SdError::Accumulation => String::from_str("accumulation failed"),
            SdError::WitnessDerivation => String::from_str("witness derivation failed"),
            SdError::MembershipVerificationFailure(claim) => {
                String::from_str("membership verification failed for claim ").concat(
                    claim.as_str(),
                )
            },
            SdError::KeyGeneration => String::from_str("key generation failed"),
        }
    }
}

} // verus!
