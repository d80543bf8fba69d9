//! The error taxonomy surfaced to callers.
//!
//! Every failure of the core carries a named kind. Where a service call is
//! involved, the variant keeps the service's own message as a plain string so
//! that callers can report a cause chain without the library depending on the
//! service types.

use vstd::prelude::*;

verus! {

/// Error kinds of the vault core.
///
/// The configuration kinds come from resolving the vault parameters, the
/// object-store and key-service kinds from the storage protocol, the
/// cryptography and serialisation kinds from the envelope-encryption pipeline,
/// and the provisioning kinds from the stack-lifecycle controller.
#[derive(Debug, Clone)]
pub enum VaultError {
    /// No region could be resolved for the service clients.
    NoRegionError,
    /// No key ARN is configured; encrypting is impossible.
    KeyArnMissingError,
    /// The stack outputs hold no bucket name.
    BucketNameMissingError,
    /// The described stack has no outputs at all.
    StackOutputsMissingError,
    /// The stack outputs hold no deployed template version.
    StackVersionNotFoundError,
    /// The caller-identity response holds no account id.
    MissingAccountIdError,
    /// The create-stack response holds no stack id.
    MissingStackIdError,
    /// The described stack reports no lifecycle status.
    MissingStackStatusError,
    /// Getting an object from the store failed.
    S3GetObjectError(String),
    /// Putting an object into the store failed.
    S3PutObjectError(String),
    /// A head request on the store failed for a reason other than absence.
    S3HeadObjectError(String),
    /// Listing the bucket failed.
    S3ListObjectsError(String),
    /// Deleting a single object failed.
    S3DeleteObjectError(String),
    /// A batched delete failed.
    S3DeleteObjectsError(String),
    /// Building an object identifier for a batched delete failed.
    S3BuildObjectError(String),
    /// An object body could not be collected into bytes.
    S3GetObjectBodyError,
    /// A listing returned no contents.
    S3NoContentsError,
    /// The secret to delete does not exist in the store.
    KeyDoesNotExistError,
    /// Generating a data key with the key service failed.
    KmsGenerateDataKeyError(String),
    /// A direct encrypt call to the key service failed.
    KmsEncryptError(String),
    /// A decrypt call to the key service failed.
    KmsDecryptError(String),
    /// The generated data key carries no plaintext half.
    KmsDataKeyPlainTextMissingError,
    /// The generated data key carries no wrapped half.
    KmsDataKeyCiphertextBlobMissingError,
    /// The nonce read from the sidecar meta does not have the required length.
    InvalidNonceLengthError,
    /// Sealing the payload failed.
    CiphertextEncryptionError,
    /// Opening the ciphertext failed: wrong tag or wrong authenticated data.
    NonceDecryptError,
    /// A body expected to be text is not valid UTF-8.
    NonUtf8BodyError,
    /// Only the legacy ciphertext object exists; the secret must be
    /// re-encrypted before it can be read.
    DeprecatedEncryptionError,
    /// The sidecar meta bytes do not parse as a meta record.
    EncryptObjectMetaToJsonError,
    /// A base64 field could not be decoded.
    NonceParseError,
    /// Describing the stack failed.
    DescribeStackError(String),
    /// Creating the stack failed.
    CreateStackError(String),
    /// Updating the stack failed.
    UpdateStackError(String),
    /// Deleting the stack failed.
    DeleteVaultStackError(String),
    /// Listing stacks failed.
    ListVaultStacksError(String),
    /// Any other provisioning-service failure.
    CloudFormationError(String),
    /// Reading the named file failed.
    FileReadError(String),
    /// Reading standard input failed.
    StdinReadError(String),
    /// The caller-identity call failed.
    CallerIdError(String),
}

} // verus!
