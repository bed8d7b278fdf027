//! The manager's error taxonomy and its model.

use vstd::prelude::*;

use crate::msg::Coin;
use crate::msg::CoinV;

verus! {

/// Everything an operation of the manager can fail with.
#[derive(Debug, PartialEq, Eq)]
pub enum ContractError {
    /// A failure reported by the host or the downstream service, carried
    /// through verbatim.
    Std { msg: String },
    /// A configured or supplied price amount is not strictly positive.
    ZeroPrice,
    /// The aggregated funds in the price's denomination fall short of the
    /// price; the coin names what was required.
    MissingPayment { missing_payment: Coin },
    /// No configuration has ever been installed.
    NotFound,
    /// A completion arrived with a correlation ticket that no in-flight
    /// call class uses; a host/protocol inconsistency.
    UnknownCorrelation { ticket: u64 },
}

/// Model of a [`ContractError`].
#[verifier::ext_equal]
pub ghost enum ErrorV {
    Std { msg: Seq<char> },
    ZeroPrice,
    MissingPayment { missing_payment: CoinV },
    NotFound,
    UnknownCorrelation { ticket: u64 },
}

impl View for ContractError {
    type V = ErrorV;

    open spec fn view(&self) -> ErrorV {
        match self {
            ContractError::Std { msg } => ErrorV::Std { msg: msg@ },
            ContractError::ZeroPrice => ErrorV::ZeroPrice,
            ContractError::MissingPayment { missing_payment } => ErrorV::MissingPayment {
                missing_payment: missing_payment@,
            },
            ContractError::NotFound => ErrorV::NotFound,
            ContractError::UnknownCorrelation { ticket } => ErrorV::UnknownCorrelation {
                ticket: *ticket,
            },
        }
    }
}

impl DeepView for ContractError {
    type V = ErrorV;

    open spec fn deep_view(&self) -> ErrorV {
        self.view()
    }
}

} // verus!
