//! A small Ethereum wallet library: key decoding and generation, address
//! derivation, amount display, and the decision logic behind sending a
//! transaction and reading a receipt. Network calls and console output live
//! outside the library; everything here is verified.

pub mod address;
pub mod amount;
pub mod hexcodec;
pub mod keys;
pub mod session;
pub mod transaction;
pub mod wallet;

use vstd::prelude::*;

verus! {

/// The errors the wallet operations can report.
#[derive(Clone, Copy, Debug, PartialEq, Eq, Structural)]
pub enum WalletError {
    /// The private-key string is not 64 hex characters (after an optional `0x`).
    InvalidKeyFormat,
    /// The decoded key bytes are not a valid secp256k1 scalar.
    InvalidSecretKey,
    /// The recipient address string is not 40 hex characters (after an optional `0x`).
    InvalidAddressFormat,
    /// The transaction-hash string is not 64 hex characters (after an optional `0x`).
    InvalidHashFormat,
    /// The node URL could not be turned into a transport.
    ConnectionError,
    /// A balance, gas-estimate or receipt call failed at the node or in transit.
    RpcError,
    /// Signing the composed transaction failed.
    SigningError,
    /// Broadcasting the signed transaction failed.
    BroadcastError,
}

impl WalletError {
    /// A short human-readable label for the error, for callers that print it.
    pub fn label(&self) -> (r: &'static str)
        ensures
            r@ == match *self {
                WalletError::InvalidKeyFormat => "invalid private key format"@,
                WalletError::InvalidSecretKey => "invalid secret key"@,
                WalletError::InvalidAddressFormat => "invalid address format"@,
                WalletError::InvalidHashFormat => "invalid transaction hash format"@,
                WalletError::ConnectionError => "failed to connect to node"@,
                WalletError::RpcError => "RPC call failed"@,
                WalletError::SigningError => "failed to sign transaction"@,
                WalletError::BroadcastError => "failed to broadcast transaction"@,
            },
    {
        match *self {
            WalletError::InvalidKeyFormat => "invalid private key format",
            WalletError::InvalidSecretKey => "invalid secret key",
            WalletError::InvalidAddressFormat => "invalid address format",
            WalletError::InvalidHashFormat => "invalid transaction hash format",
            WalletError::ConnectionError => "failed to connect to node",
            WalletError::RpcError => "RPC call failed",
            WalletError::SigningError => "failed to sign transaction",
            WalletError::BroadcastError => "failed to broadcast transaction",
        }
    }
}

/// Arguments for a balance query: the account to look up and the node to ask.
#[derive(Debug)]
pub struct FetchBalanceArgs {
    pub address: String,
    pub node_url: String,
}

} // verus!
