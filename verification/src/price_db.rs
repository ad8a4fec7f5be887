//! The price cache: asynchronous pulls from the oracle, committed locally.
//!
//! A request runs in two hops.  [`SimplePriceDB::save_price`] plans an
//! asynchronous `get_reference_data` query against the configured oracle and
//! schedules [`SimplePriceDB::set_price`] as its continuation, each hop
//! budgeted a quarter of the caller's prepaid gas.  When the host later runs
//! the continuation with the query's outcome, a present value overwrites the
//! cache entry for the pair symbol and an absent one leaves the cache
//! untouched: a failed or absent oracle answer never creates or corrupts an
//! entry.  The bulk path is the same shape over vectors, with the pair
//! symbols built up front in request order so the positional correspondence
//! with the oracle's bulk reply is fixed before the asynchronous boundary.

use crate::calls::{make_pair_symbol, pair_symbol, CacheCallback, DispatchPlan, OracleQuery, OutboundCall};
use crate::{AccountId, ContractError};
use vstd::hash_map::StringHashMap;
use vstd::prelude::*;

verus! {

/// The remote surface the cache expects of the oracle, together with its own
/// continuation entry points as the oracle's host will invoke them.
pub trait ExtContract {
    /// Derives one pair.
    fn get_reference_data(&self, base: String, quote: String) -> Option<(u128, u64, u64)>;

    /// Derives all pairs positionally, all-or-nothing.
    fn get_reference_data_bulk(&self, bases: Vec<String>, quotes: Vec<String>) -> Option<
        Vec<(u128, u64, u64)>,
    >;

    /// Continuation of a single query; `value_opt` is the callback value.
    fn set_price(&self, symbol: String, value_opt: Option<(u128, u64, u64)>);

    /// Continuation of a bulk query; `values_opt` is the callback value.
    fn set_price_multi(&self, symbols: Vec<String>, values_opt: Vec<Option<(u128, u64, u64)>>);
}

/// The cache after committing the first `n` positional pairs of a bulk
/// reply: each pair symbol overwritten, in order, with the reply's rate.
pub open spec fn spec_prices_after(
    m: Map<Seq<char>, u128>,
    symbols: Seq<String>,
    values: Seq<(u128, u64, u64)>,
    n: int,
) -> Map<Seq<char>, u128>
    decreases n,
{
    if n <= 0 {
        m
    } else {
        spec_prices_after(m, symbols, values, n - 1).insert(symbols[n - 1]@, values[n - 1].0)
    }
}

/// Local price cache fed by asynchronous oracle queries.
pub struct SimplePriceDB {
    /// The account of the oracle queries are dispatched to.
    pub oracle: AccountId,
    /// Pair symbol `"{base}/{quote}"` to the `1e9`-scaled rate last
    /// committed for it; timestamps and request ids are discarded on commit.
    pub prices: StringHashMap<u128>,
}

impl SimplePriceDB {
    /// Constructs the cache, empty, pointed at `oracle`; refuses to run
    /// twice.  The host reports through `state_exists` whether an instance
    /// already holds state.
    pub fn new(oracle: AccountId, state_exists: bool) -> (r: Result<SimplePriceDB, ContractError>)
        ensures
            state_exists <==> r is Err,
            state_exists ==> r == Err::<SimplePriceDB, ContractError>(
                ContractError::AlreadyInitialized,
            ),
            r matches Ok(c) ==> c.oracle == oracle && c.prices@ == Map::<Seq<char>, u128>::empty(),
    {
        if state_exists {
            return Err(ContractError::AlreadyInitialized);
        }
        Ok(SimplePriceDB { oracle, prices: StringHashMap::new() })
    }

    /// The account of the oracle currently queried.
    pub fn get_oracle(&self) -> (r: AccountId)
        ensures
            r == self.oracle,
    {
        self.oracle.clone()
    }

    /// Repoints the cache at a new oracle.  Ungated: any caller may repoint
    /// it, unlike the owner-gated repointing of the proxy.
    pub fn set_oracle(&mut self, new_oracle: AccountId)
        ensures
            final(self).oracle == new_oracle,
            final(self).prices@ == old(self).prices@,
    {
        self.oracle = new_oracle;
    }

    /// The rate last committed for a pair symbol, if any: a direct,
    /// synchronous local lookup.
    pub fn get_price(&self, symbol: String) -> (r: Option<u128>)
        ensures
            r == if self.prices@.contains_key(symbol@) {
                Some(self.prices@[symbol@])
            } else {
                None::<u128>
            },
    {
        match self.prices.get(symbol.as_str()) {
            Some(v) => Some(*v),
            None => None,
        }
    }

    /// Plans one asynchronous price pull: a `get_reference_data(base,
    /// quote)` query to the oracle, and `set_price("{base}/{quote}")` as its
    /// continuation, each hop budgeted a quarter of the prepaid gas.
    pub fn save_price(&self, base: String, quote: String, prepaid_gas: u64) -> (p: DispatchPlan)
        ensures
            p.call.target == self.oracle,
            p.call.query == (OracleQuery::Single { base, quote }),
            p.call.deposit == 0,
            p.call.gas == prepaid_gas / 4,
            p.callback matches CacheCallback::SetPrice { symbol } && symbol@ == pair_symbol(
                base@,
                quote@,
            ),
            p.callback_deposit == 0,
            p.callback_gas == prepaid_gas / 4,
    {
        let symbol = make_pair_symbol(&base, &quote);
        DispatchPlan {
            call: OutboundCall {
                target: self.oracle.clone(),
                query: OracleQuery::Single { base, quote },
                deposit: 0,
                gas: prepaid_gas / 4,
            },
            callback: CacheCallback::SetPrice { symbol },
            callback_deposit: 0,
            callback_gas: prepaid_gas / 4,
        }
    }

    /// Plans one asynchronous bulk pull.  Refuses, planning nothing, if the
    /// lists differ in length; otherwise the pair symbols are built up
    /// front, in request order, so the continuation's positional pairing
    /// with the oracle's bulk reply is fixed here.
    pub fn save_price_multi(&mut self, bases: Vec<String>, quotes: Vec<String>, prepaid_gas: u64) -> (r:
        Result<DispatchPlan, ContractError>)
        ensures
            *final(self) == *old(self),
            r is Ok <==> bases@.len() == quotes@.len(),
            r is Err ==> r == Err::<DispatchPlan, ContractError>(
                ContractError::BasesQuotesSizeNotEqual,
            ),
            r matches Ok(p) ==> p.call.target == old(self).oracle && p.call.query == (
            OracleQuery::Bulk { bases, quotes }) && p.call.deposit == 0 && p.call.gas == prepaid_gas
                / 4 && p.callback_deposit == 0 && p.callback_gas == prepaid_gas / 4 && (
            p.callback matches CacheCallback::SetPriceMulti { symbols } && symbols@.len()
                == bases@.len() && forall|i: int|
                0 <= i < bases@.len() ==> symbols@[i]@ == pair_symbol(bases@[i]@, quotes@[i]@)),
    {
        if bases.len() != quotes.len() {
            return Err(ContractError::BasesQuotesSizeNotEqual);
        }
        let mut symbols: Vec<String> = Vec::new();
        let mut i: usize = 0;
        while i < bases.len()
            invariant
                bases@.len() == quotes@.len(),
                i <= bases@.len(),
                symbols@.len() == i as nat,
                forall|j: int|
                    0 <= j < i ==> symbols@[j]@ == pair_symbol(bases@[j]@, quotes@[j]@),
            decreases bases@.len() - i,
        {
            symbols.push(make_pair_symbol(&bases[i], &quotes[i]));
            i += 1;
        }
        Ok(
            DispatchPlan {
                call: OutboundCall {
                    target: self.oracle.clone(),
                    query: OracleQuery::Bulk { bases, quotes },
                    deposit: 0,
                    gas: prepaid_gas / 4,
                },
                callback: CacheCallback::SetPriceMulti { symbols },
                callback_deposit: 0,
                callback_gas: prepaid_gas / 4,
            },
        )
    }

    /// Continuation of a single pull.  A present value overwrites the cache
    /// entry for the symbol with the rate alone; an absent one — the oracle
    /// had no data, or the call itself failed — changes nothing.  This is
    /// the at-most-one-durable-write contract of a resolved request.
    pub fn set_price(&mut self, symbol: String, value_opt: Option<(u128, u64, u64)>)
        ensures
            final(self).oracle == old(self).oracle,
            match value_opt {
                Some(t) => final(self).prices@ == old(self).prices@.insert(symbol@, t.0),
                None => final(self).prices@ == old(self).prices@,
            },
    {
        match value_opt {
            Some((rate, _, _)) => {
                self.prices.insert(symbol, rate);
            },
            None => {},
        }
    }

    /// Continuation of a bulk pull.  A collapsed (`None`) reply changes
    /// nothing — one missing pair anywhere in the batch discards the entire
    /// batch's updates.  A present reply is zipped positionally with the
    /// symbols, each pair overwritten in order with the reply's rate; pairs
    /// beyond the shorter of the two lists are ignored.
    pub fn set_price_multi(&mut self, symbols: Vec<String>, values_opt: Option<Vec<(u128, u64, u64)>>)
        ensures
            final(self).oracle == old(self).oracle,
            match values_opt {
                Some(values) => final(self).prices@ == spec_prices_after(
                    old(self).prices@,
                    symbols@,
                    values@,
                    vstd::math::min(symbols@.len() as int, values@.len() as int),
                ),
                None => final(self).prices@ == old(self).prices@,
            },
    {
        match values_opt {
            Some(values) => {
                let n = if symbols.len() < values.len() {
                    symbols.len()
                } else {
                    values.len()
                };
                let mut i: usize = 0;
                while i < n
                    invariant
                        n == vstd::math::min(symbols@.len() as int, values@.len() as int),
                        i <= n,
                        self.oracle == old(self).oracle,
                        self.prices@ == spec_prices_after(
                            old(self).prices@,
                            symbols@,
                            values@,
                            i as int,
                        ),
                    decreases n - i,
                {
                    self.prices.insert(symbols[i].clone(), values[i].0);
                    i += 1;
                }
            },
            None => {},
        }
    }
}

} // verus!
