//! Pinata: one upload, one pinned object.

use crate::config::ConfigError;
use crate::pinners::{PinError, Pinner};
use vstd::prelude::*;

verus! {

/// Pinata, with the two keys to speak to it.
#[derive(Debug, PartialEq, Eq)]
pub struct Pinata {
    api_key: String,
    secret: String,
}

/// What an upload tells of the object that Pinata pinned.
#[derive(Debug, PartialEq, Eq)]
pub struct PinnedObject {
    /// The content identifier of what was uploaded.
    pub ipfs_hash: String,
}

impl Pinata {
    /// The API key.
    pub closed spec fn key(&self) -> Seq<char> {
        self.api_key@
    }

    /// The secret API key.
    pub closed spec fn secret_key(&self) -> Seq<char> {
        self.secret@
    }

    /// The service with its keys, or the first key that is missing.
    pub fn new(api_key: Option<String>, secret: Option<String>) -> (r: Result<Pinata, ConfigError>)
        ensures
            match r {
                Ok(pinner) => {
                    &&& api_key matches Some(key)
                    &&& secret matches Some(secret_key)
                    &&& pinner.key() == key@
                    &&& pinner.secret_key() == secret_key@
                },
                Err(error) => if api_key is None {
                    error == ConfigError::MissingPinataApiKey
                } else {
                    secret is None && error == ConfigError::MissingPinataSecret
                },
            },
    {
        match api_key {
            None => Err(ConfigError::MissingPinataApiKey),
            Some(api_key) => match secret {
                None => Err(ConfigError::MissingPinataSecret),
                Some(secret) => Ok(Pinata { api_key, secret }),
            },
        }
    }

    /// The API key.
    pub fn api_key(&self) -> (r: &str)
        ensures
            r@ == self.key(),
    {
        self.api_key.as_str()
    }

    /// The secret API key.
    pub fn secret(&self) -> (r: &str)
        ensures
            r@ == self.secret_key(),
    {
        self.secret.as_str()
    }
}

impl Pinner for Pinata {
    type Answer = PinnedObject;

    /// Pinata answers for the upload as a whole: the pinned object's
    /// identifier is the upload's.
    open spec fn identifier(&self, path: Seq<char>, answer: PinnedObject) -> Option<Seq<char>> {
        Some(answer.ipfs_hash@)
    }

    fn pin_path(&self, path: &str, outcome: Result<PinnedObject, String>) -> (r: Result<
        String,
        PinError,
    >) {
        match outcome {
            Ok(pinned) => Ok(pinned.ipfs_hash),
            Err(message) => Err(PinError::Remote { message }),
        }
    }
}

} // verus!
