use vstd::prelude::*;

verus! {

/// Every failure that an operation of this library can report.
#[derive(Clone, Debug, PartialEq, Eq)]
pub enum ClientError {
    /// The bytes do not encode a secp256k1 secret scalar.
    InvalidKeyMaterial,
    /// The phrase is not a valid BIP-39 mnemonic.
    InvalidMnemonic,
    /// The coin type cannot be rendered as a hardened BIP-32 path segment.
    InvalidDerivationPath,
    /// BIP-32 child derivation failed (for instance, an account index past
    /// the non-hardened range).
    DerivationFailure,
    /// The code is not a supported coin type.
    InvalidCoinType,
    /// The address prefix is not lowercase alphanumeric.
    InvalidPrefix,
    /// The gas denomination holds characters that a denomination may not hold.
    InvalidDenom,
    /// The simulation response carried no gas information.
    NoGasEstimate,
    /// The fee or gas limit derived from the estimate is out of range.
    FeeOutOfRange,
    /// The transaction could not be signed (for instance, a malformed chain id).
    SigningFailure,
    /// The channel to the node never became ready.
    ChannelNotReady,
    /// The node answered with an error status.
    RemoteCallFailed(String),
}

} // verus!
