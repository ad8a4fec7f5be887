//! A three-party on-chain price-oracle relay.
//!
//! Three cooperating services are modelled as owned aggregates:
//!
//! * [`ref_store::StdReferenceBasic`] holds owner-submitted exchange rates and
//!   derives fixed-point cross-rates on read;
//! * [`proxy::StdProxy`] forwards read queries to a configured reference store
//!   whose address its owner may repoint;
//! * [`price_db::SimplePriceDB`] dispatches asynchronous oracle queries and
//!   commits the eventual results into a local cache.
//!
//! The host chain supplies identity, time, gas and the delivery of
//! asynchronous calls.  Every entry point therefore takes those host facts as
//! plain arguments (the signer, the current timestamp, the prepaid gas, or the
//! eventual callback value) and returns plain values: a dispatching entry
//! point returns a description of the calls to schedule, and the surrounding
//! host glue performs them.

use vstd::prelude::*;

pub mod calls;
pub mod price_db;
pub mod proxy;
pub mod rate_math;
pub mod ref_store;

verus! {

/// Identifier of an account on the host chain, carried as plain text.
pub type AccountId = String;

/// Why an entry point refused to act.  A refused call leaves every observable
/// field of the receiver unchanged.
#[derive(Clone, Copy, Debug, PartialEq, Eq, Structural)]
pub enum ContractError {
    /// A constructor ran while instance state already existed.
    AlreadyInitialized,
    /// An owner-gated operation was invoked by a signer other than the owner.
    NotAnOwner,
    /// `relay` received a rates vector whose length differs from the symbols.
    BadRatesLength,
    /// `relay` received a resolve-times vector of the wrong length.
    BadResolveTimesLength,
    /// `relay` received a request-ids vector of the wrong length.
    BadRequestIdsLength,
    /// A bulk read received bases and quotes of different lengths.
    BadInputLength,
    /// A bulk dispatch received bases and quotes of different lengths.
    BasesQuotesSizeNotEqual,
}

} // verus!
