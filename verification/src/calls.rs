//! Descriptions of asynchronous cross-contract calls.
//!
//! An entry point that queries the oracle does not perform the call itself:
//! it returns a plan naming the target account, the remote query, the
//! attached deposit and the gas budget, together with the continuation that
//! the host must schedule to run once the call resolves.  The host glue
//! executes the plan and later feeds the outcome back through the
//! continuation entry point.

use crate::AccountId;
use vstd::prelude::*;
use vstd::string::StringExecFns;

verus! {

/// A read query addressed to the oracle's reference-data surface.
pub enum OracleQuery {
    /// `get_reference_data(base, quote)`.
    Single { base: String, quote: String },
    /// `get_reference_data_bulk(bases, quotes)`, paired positionally.
    Bulk { bases: Vec<String>, quotes: Vec<String> },
}

/// One outbound asynchronous call: whom to call, what to ask, and the
/// resources attached to the hop.
pub struct OutboundCall {
    /// The account the call is addressed to.
    pub target: AccountId,
    /// The remote query to issue.
    pub query: OracleQuery,
    /// The deposit attached to the call, in the chain's base token.
    pub deposit: u128,
    /// The gas budget allotted to this hop.
    pub gas: u64,
}

/// The continuation the price cache schedules behind an oracle query; it
/// receives the query's outcome as its callback value.
pub enum CacheCallback {
    /// `set_price(symbol)` for a single pair.
    SetPrice { symbol: String },
    /// `set_price_multi(symbols)` for a batch, paired positionally with the
    /// bulk reply.
    SetPriceMulti { symbols: Vec<String> },
}

/// A dispatched query together with its scheduled continuation.
pub struct DispatchPlan {
    /// The outbound oracle query.
    pub call: OutboundCall,
    /// The continuation to run once the query resolves.
    pub callback: CacheCallback,
    /// The deposit attached to the continuation hop.
    pub callback_deposit: u128,
    /// The gas budget allotted to the continuation hop.
    pub callback_gas: u64,
}

/// The cache keys its entries by the pair symbol `"{base}/{quote}"`.
pub open spec fn pair_symbol(base: Seq<char>, quote: Seq<char>) -> Seq<char> {
    base + "/"@ + quote
}

/// Builds the pair symbol `"{base}/{quote}"` for a cache entry.
pub fn make_pair_symbol(base: &String, quote: &String) -> (r: String)
    ensures
        r@ == pair_symbol(base@, quote@),
{
    let mut s = base.clone();
    s.append("/");
    s.append(quote.as_str());
    s
}

} // verus!
