//! The proxy: a swappable indirection in front of the reference store.
//!
//! Consumers address the proxy; the proxy forwards each read query to the
//! currently configured reference store with a fixed gas budget per call.
//! The owner may repoint the store without migrating the consumers.

use crate::calls::{OracleQuery, OutboundCall};
use crate::{AccountId, ContractError};
use vstd::prelude::*;

verus! {

/// Prepaid gas for making a single simple call.
pub const SINGLE_CALL_GAS: u64 = 200_000_000_000_000;

/// The methods the proxy expects of the reference store it forwards to.
pub trait StdRef {
    /// Derives one pair.
    fn get_reference_data(&self, base: String, quote: String) -> Option<(u128, u64, u64)>;

    /// Derives all pairs positionally, all-or-nothing.
    fn get_reference_data_bulk(&self, bases: Vec<String>, quotes: Vec<String>) -> Option<
        Vec<(u128, u64, u64)>,
    >;
}

/// Owner-gated redirector pointing at the active reference store.
pub struct StdProxy {
    /// The account of the reference store queries are forwarded to.
    pub ref_: AccountId,
    /// The single account allowed to repoint the proxy.
    pub owner: AccountId,
}

impl StdProxy {
    /// Constructs the proxy pointing at `ref_`, owned by the deploying
    /// signer; refuses to run twice.  The host reports through
    /// `state_exists` whether an instance already holds state.
    pub fn new(ref_: AccountId, signer: AccountId, state_exists: bool) -> (r: Result<
        StdProxy,
        ContractError,
    >)
        ensures
            state_exists <==> r is Err,
            state_exists ==> r == Err::<StdProxy, ContractError>(ContractError::AlreadyInitialized),
            r matches Ok(p) ==> p.ref_ == ref_ && p.owner == signer,
    {
        if state_exists {
            return Err(ContractError::AlreadyInitialized);
        }
        Ok(StdProxy { ref_, owner: signer })
    }

    /// The current owner.
    pub fn get_owner(&self) -> (r: AccountId)
        ensures
            r == self.owner,
    {
        self.owner.clone()
    }

    /// Hands the proxy to a new owner, if the signer is the current owner;
    /// the new owner is in force from the moment the call returns.
    pub fn transfer_ownership(&mut self, new_owner: AccountId, signer: AccountId) -> (r: Result<
        (),
        ContractError,
    >)
        ensures
            r is Ok <==> signer@ == old(self).owner@,
            r is Err ==> r == Err::<(), ContractError>(ContractError::NotAnOwner)
                && final(self).owner == old(self).owner,
            r is Ok ==> final(self).owner == new_owner,
            final(self).ref_ == old(self).ref_,
    {
        if !(signer == self.owner) {
            return Err(ContractError::NotAnOwner);
        }
        self.owner = new_owner;
        Ok(())
    }

    /// The account of the reference store currently forwarded to.
    pub fn get_ref(&self) -> (r: AccountId)
        ensures
            r == self.ref_,
    {
        self.ref_.clone()
    }

    /// Repoints the proxy at a new reference store, if the signer is the
    /// current owner.
    pub fn set_ref(&mut self, new_ref: AccountId, signer: AccountId) -> (r: Result<
        (),
        ContractError,
    >)
        ensures
            r is Ok <==> signer@ == old(self).owner@,
            r is Err ==> r == Err::<(), ContractError>(ContractError::NotAnOwner)
                && final(self).ref_ == old(self).ref_,
            r is Ok ==> final(self).ref_ == new_ref,
            final(self).owner == old(self).owner,
    {
        if !(signer == self.owner) {
            return Err(ContractError::NotAnOwner);
        }
        self.ref_ = new_ref;
        Ok(())
    }

    /// Pure forwarding of a single-pair read: the plan addresses the
    /// configured store with the fixed per-call gas budget and no local
    /// transformation of the query.
    pub fn get_reference_data(&mut self, base: String, quote: String) -> (c: OutboundCall)
        ensures
            *final(self) == *old(self),
            c.target == old(self).ref_,
            c.query == (OracleQuery::Single { base, quote }),
            c.deposit == 0,
            c.gas == SINGLE_CALL_GAS,
    {
        OutboundCall {
            target: self.ref_.clone(),
            query: OracleQuery::Single { base, quote },
            deposit: 0,
            gas: SINGLE_CALL_GAS,
        }
    }

    /// Pure forwarding of a bulk read, positional pairing preserved.
    pub fn get_reference_data_bulk(&mut self, bases: Vec<String>, quotes: Vec<String>) -> (c:
        OutboundCall)
        ensures
            *final(self) == *old(self),
            c.target == old(self).ref_,
            c.query == (OracleQuery::Bulk { bases, quotes }),
            c.deposit == 0,
            c.gas == SINGLE_CALL_GAS,
    {
        OutboundCall {
            target: self.ref_.clone(),
            query: OracleQuery::Bulk { bases, quotes },
            deposit: 0,
            gas: SINGLE_CALL_GAS,
        }
    }
}

} // verus!
