//! Errors returned by the library.

use vstd::prelude::*;

verus! {

/// A hex-encoded field of a compact output.
#[derive(Clone, Copy, Debug, PartialEq, Eq, Structural)]
pub enum OutputField {
    Nullifier,
    Commitment,
    EphemeralKey,
    Ciphertext,
}

/// Everything that can go wrong in this library.
///
/// Not finding a match is reported as an error value too, but it is the
/// common negative result of testing a key that does not own the data.
#[derive(Clone, Copy, Debug, PartialEq, Eq, Structural)]
pub enum ScanError {
    /// The viewing key does not decode (checksum or format failure).
    InvalidEncoding,
    /// The network name is neither "mainnet" nor "testnet".
    UnsupportedNetwork,
    /// The decoded key holds no Orchard component.
    ComponentNotFound,
    /// The Orchard component is shorter than 96 bytes.
    ComponentTooShort,
    /// The requested pool (Sapling) is recognised but not implemented.
    UnsupportedComponent,
    /// The Orchard component is not a valid full viewing key.
    InvalidViewingKey,
    /// The mnemonic phrase fails word-list or checksum validation.
    InvalidMnemonic,
    /// The derived key material is not a valid spending key.
    KeyDerivationFailed,
    /// A field is not valid hexadecimal.
    InvalidHex(OutputField),
    /// A field decodes to the wrong number of bytes; the number is the
    /// decoded length.
    InvalidLength(OutputField, usize),
    /// A field has the right length but is not a canonical encoding.
    InvalidValue(OutputField),
    /// The action at this position does not form a valid Orchard action.
    InvalidAction(usize),
    /// No output matched the viewing key.
    NoMatch,
    /// No account in the searched range owns the transaction.
    NoOwningAccountFound,
}

impl ScanError {
    /// A short description of the error.
    pub fn message(&self) -> (r: String) {
        match self {
            ScanError::InvalidEncoding => String::from_str("invalid viewing key encoding"),
            ScanError::UnsupportedNetwork => String::from_str("unsupported network; use 'mainnet' or 'testnet'"),
            ScanError::ComponentNotFound => String::from_str("no Orchard component in viewing key"),
            ScanError::ComponentTooShort => String::from_str("Orchard component shorter than 96 bytes"),
            ScanError::UnsupportedComponent => String::from_str("Sapling key parsing is not implemented"),
            ScanError::InvalidViewingKey => String::from_str("Orchard full viewing key does not parse"),
            ScanError::InvalidMnemonic => String::from_str("invalid seed phrase"),
            ScanError::KeyDerivationFailed => String::from_str("failed to derive spending key from seed"),
            ScanError::InvalidHex(_) => String::from_str("field is not valid hexadecimal"),
            ScanError::InvalidLength(_, _) => String::from_str("field has the wrong length"),
            ScanError::InvalidValue(_) => String::from_str("field is not a canonical encoding"),
            ScanError::InvalidAction(_) => String::from_str("action is not a valid Orchard action"),
            ScanError::NoMatch => String::from_str("viewing key does not match any output"),
            ScanError::NoOwningAccountFound => String::from_str("no account in range owns the transaction"),
        }
    }
}

} // verus!
