//! A wallet: a freshly generated private key together with the account
//! address derived from its public key.

use vstd::prelude::*;
use crate::address::{eth_address_of, public_key_to_address, Address};
use crate::keys::{generate_keypair, uncompressed_pubkey_of, PrivateKey};

verus! {

/// Wallet details: the private key and its derived address.
#[derive(Debug)]
pub struct Wallet {
    pub private_key: PrivateKey,
    pub address: Address,
}

impl Wallet {
    pub open spec fn wf(&self) -> bool {
        &&& self.private_key.wf()
        &&& self.address.wf()
        &&& self.address@ == eth_address_of(uncompressed_pubkey_of(self.private_key@))
    }

    /// Generate a new wallet: a fresh key pair from the secure random
    /// source, and the address of its public key.
    pub fn generate() -> (r: Wallet)
        ensures
            r.wf(),
    {
        let (private_key, public_key) = generate_keypair();
        let address = public_key_to_address(&public_key);
        Wallet { private_key, address }
    }
}

} // verus!
