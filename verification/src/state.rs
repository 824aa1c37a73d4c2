//! The persisted configuration and its store.
//!
//! The contract owns a single record: the encoded configuration under one
//! fixed storage slot. [`Store`] models that slot as the byte record it
//! holds, if any; the host hands the record in at the start of a call and
//! persists it afterwards. `save` and `load` are the only typed accesses.

use vstd::prelude::*;

use crate::codec::{encodable_str, encode_config, decode_config, spec_decode_config,
    spec_encode_config};
use crate::msg::ContractError;

verus! {

/// The one persisted record: the secret viewing key supplied at
/// initialization.
#[derive(Debug)]
pub struct Config {
    pub viewing_key: String,
}

/// View of [`Config`].
pub struct ConfigV {
    pub viewing_key: Seq<char>,
}

impl View for Config {
    type V = ConfigV;

    open spec fn view(&self) -> ConfigV {
        ConfigV { viewing_key: self.viewing_key@ }
    }
}

/// The storage slot of the configuration record: the bytes it holds, or
/// nothing before the first successful `save`.
pub struct Store {
    record: Option<Vec<u8>>,
}

impl View for Store {
    type V = Option<Seq<u8>>;

    closed spec fn view(&self) -> Option<Seq<u8>> {
        match self.record {
            Some(ref b) => Some(b@),
            None => None,
        }
    }
}

/// What loading from a store with the given record yields: the record must
/// exist and decode to a configuration.
pub open spec fn spec_load(s: Option<Seq<u8>>) -> Result<ConfigV, ContractError> {
    match s {
        None => Err(ContractError::NotInitialized),
        Some(b) => spec_decode_config(b),
    }
}

impl Store {
    /// An empty slot: nothing has been saved yet.
    pub fn new() -> (r: Store)
        ensures
            r@ == None::<Seq<u8>>,
    {
        Store { record: None }
    }

    /// Wraps the raw record the host read from its storage.
    pub fn from_record(record: Option<Vec<u8>>) -> (r: Store)
        ensures
            r@ == match record {
                Some(b) => Some(b@),
                None => None::<Seq<u8>>,
            },
    {
        Store { record }
    }

    /// The raw record for the host to persist.
    pub fn record(&self) -> (r: &Option<Vec<u8>>)
        ensures
            self@ == match r {
                Some(b) => Some(b@),
                None => None::<Seq<u8>>,
            },
    {
        &self.record
    }

    /// Writes the record, overwriting any prior value; fails, leaving the
    /// slot as it was, exactly when the configuration cannot be encoded.
    pub fn save(&mut self, config: &Config) -> (r: Result<(), ContractError>)
        ensures
            encodable_str(config.viewing_key@) ==> r == Ok::<(), ContractError>(())
                && final(self)@ == Some(spec_encode_config(config@)),
            !encodable_str(config.viewing_key@) ==> r == Err::<(), ContractError>(
                ContractError::SerializationError,
            ) && final(self)@ == old(self)@,
    {
        match encode_config(config) {
            Ok(bytes) => {
                self.record = Some(bytes);
                Ok(())
            },
            Err(e) => Err(e),
        }
    }

    /// Reads the record back; fails with `NotInitialized` when nothing has
    /// been saved, and with the decoding error when the record is corrupt.
    pub fn load(&self) -> (r: Result<Config, ContractError>)
        ensures
            r matches Ok(c) ==> spec_load(self@) == Ok::<ConfigV, ContractError>(c@),
            r matches Err(e) ==> spec_load(self@) == Err::<ConfigV, ContractError>(e),
    {
        match &self.record {
            None => Err(ContractError::NotInitialized),
            Some(bytes) => decode_config(bytes.as_slice()),
        }
    }
}

} // verus!
