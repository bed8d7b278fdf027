//! The singleton configuration record.
//!
//! The host's persistent key/value store is an external collaborator; the
//! library models it as a value holding zero or one [`PaymentParams`]
//! record.  The host loads the record into a [`ConfigStore`] before an
//! operation runs and persists whatever the operation left behind.

use vstd::prelude::*;

use crate::error::ContractError;
use crate::error::ErrorV;
use crate::msg::PaymentParams;
use crate::msg::PaymentParamsV;

verus! {

/// The single configuration record: absent until first installed, then
/// always the last successfully installed value.
#[derive(Debug, PartialEq, Eq)]
pub struct ConfigStore {
    pub payment_params: Option<PaymentParams>,
}

impl View for ConfigStore {
    type V = Option<PaymentParamsV>;

    open spec fn view(&self) -> Option<PaymentParamsV> {
        match self.payment_params {
            Some(params) => Some(params@),
            None => None,
        }
    }
}

impl ConfigStore {
    /// A store in which nothing has ever been installed.
    pub fn new() -> (s: Self)
        ensures
            s@ is None,
    {
        ConfigStore { payment_params: None }
    }

    /// Replaces the record wholesale; never merges.
    pub fn save(&mut self, params: PaymentParams)
        ensures
            final(self).payment_params == Some(params),
            final(self)@ == Some(params@),
    {
        self.payment_params = Some(params);
    }

    /// Reads the record; an uninitialized store is an error, never a
    /// default-constructed value.
    pub fn load(&self) -> (r: Result<PaymentParams, ContractError>)
        ensures
            match r {
                Ok(params) => self@ == Some(params@),
                Err(e) => self@ is None && e@ == ErrorV::NotFound,
            },
    {
        match &self.payment_params {
            Some(params) => Ok(params.clone()),
            None => Err(ContractError::NotFound),
        }
    }
}

} // verus!
