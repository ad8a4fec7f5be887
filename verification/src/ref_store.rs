//! The reference store: owner-submitted rates and derived cross-rates.
//!
//! The store maps a symbol to a record `(rate, resolve_time, request_id)`
//! where the rate is `1e9`-scaled.  The symbol `"USD"` is synthetic: it is
//! never stored and always reads as rate `1e9` with the current query time
//! and request id `0`.  Records are written only by the owner through
//! [`StdReferenceBasic::relay`] and are overwritten, never deleted.

use crate::rate_math::{cross_rate, lemma_cross_rate_exact, spec_cross_rate, E9, MAX_SAFE_RATE};
use crate::{AccountId, ContractError};
use vstd::hash_map::StringHashMap;
use vstd::prelude::*;
use vstd::string::StringExecFns;

verus! {

/// The rates submitted so far, folded into the store's map in input order:
/// a later occurrence of a symbol overwrites an earlier one.
pub open spec fn spec_relayed(
    m: Map<Seq<char>, (u128, u64, u64)>,
    symbols: Seq<String>,
    rates: Seq<u128>,
    resolve_times: Seq<u64>,
    request_ids: Seq<u64>,
    n: int,
) -> Map<Seq<char>, (u128, u64, u64)>
    decreases n,
{
    if n <= 0 {
        m
    } else {
        spec_relayed(m, symbols, rates, resolve_times, request_ids, n - 1).insert(
            symbols[n - 1]@,
            (rates[n - 1], resolve_times[n - 1], request_ids[n - 1]),
        )
    }
}

/// Rate store with owner-gated mutation and cross-rate derivation on read.
pub struct StdReferenceBasic {
    /// Symbol to `(rate, resolve_time, request_id)`; the rate is `1e9`-scaled.
    pub refs: StringHashMap<(u128, u64, u64)>,
    /// The single account allowed to mutate the store.
    pub owner: AccountId,
}

impl StdReferenceBasic {
    /// The record a symbol resolves to at query time `now`: the synthetic
    /// `"USD"` record, or the stored one, or nothing.
    pub open spec fn spec_get_refs(self, symbol: Seq<char>, now: u64) -> Option<(u128, u64, u64)> {
        if symbol == "USD"@ {
            Some((E9, now, 0u64))
        } else if self.refs@.contains_key(symbol) {
            Some(self.refs@[symbol])
        } else {
            None
        }
    }

    /// What `get_reference_data` reports for a pair: the `1e9`-scaled
    /// cross-rate with the two resolve times, or nothing if either side is
    /// missing.
    pub open spec fn spec_ref_data(
        self,
        base: Seq<char>,
        quote: Seq<char>,
        now: u64,
    ) -> Option<(u128, u64, u64)> {
        match (self.spec_get_refs(base, now), self.spec_get_refs(quote, now)) {
            (Some(b), Some(q)) => Some((spec_cross_rate(b.0, q.0), b.1, q.1)),
            _ => None,
        }
    }

    /// The machine bounds under which a pair can be derived without overflow
    /// or division by zero: the base rate (if present) keeps `rate * 1e18`
    /// within 128 bits, and the quote rate (if present) is nonzero.
    pub open spec fn rate_bounds_ok(self, base: Seq<char>, quote: Seq<char>, now: u64) -> bool {
        &&& (self.spec_get_refs(base, now) matches Some(b) ==> b.0 <= MAX_SAFE_RATE)
        &&& (self.spec_get_refs(quote, now) matches Some(q) ==> q.0 > 0)
    }

    /// Every positional pair of the two symbol lists can be derived.
    pub open spec fn all_pairs_present(
        self,
        bases: Seq<String>,
        quotes: Seq<String>,
        now: u64,
    ) -> bool {
        forall|i: int|
            0 <= i < bases.len() ==> self.spec_ref_data(bases[i]@, quotes[i]@, now) is Some
    }

    /// Every positional pair of the two symbol lists is within the machine
    /// bounds of [`StdReferenceBasic::rate_bounds_ok`].
    pub open spec fn all_rate_bounds_ok(
        self,
        bases: Seq<String>,
        quotes: Seq<String>,
        now: u64,
    ) -> bool {
        forall|i: int| 0 <= i < bases.len() ==> self.rate_bounds_ok(bases[i]@, quotes[i]@, now)
    }

    /// Constructs the store with an empty map and the deploying signer as
    /// owner; refuses to run twice.  The host reports through `state_exists`
    /// whether an instance already holds state.
    pub fn new(signer: AccountId, state_exists: bool) -> (r: Result<StdReferenceBasic, ContractError>)
        ensures
            state_exists <==> r is Err,
            state_exists ==> r == Err::<StdReferenceBasic, ContractError>(
                ContractError::AlreadyInitialized,
            ),
            r matches Ok(s) ==> s.owner == signer && s.refs@ == Map::<Seq<char>, (u128, u64, u64)>::empty(),
    {
        if state_exists {
            return Err(ContractError::AlreadyInitialized);
        }
        Ok(StdReferenceBasic { refs: StringHashMap::new(), owner: signer })
    }

    /// The current owner.
    pub fn get_owner(&self) -> (r: AccountId)
        ensures
            r == self.owner,
    {
        self.owner.clone()
    }

    /// Hands the store to a new owner, if the signer is the current owner;
    /// the new owner is in force from the moment the call returns.
    pub fn transfer_ownership(&mut self, new_owner: AccountId, signer: AccountId) -> (r: Result<
        (),
        ContractError,
    >)
        ensures
            r is Ok <==> signer@ == old(self).owner@,
            r is Err ==> r == Err::<(), ContractError>(ContractError::NotAnOwner)
                && final(self).owner == old(self).owner,
            r is Ok ==> final(self).owner == new_owner,
            final(self).refs@ == old(self).refs@,
    {
        if !(signer == self.owner) {
            return Err(ContractError::NotAnOwner);
        }
        self.owner = new_owner;
        Ok(())
    }

    /// The record a symbol resolves to at query time `now`; `"USD"` reads as
    /// the synthetic unit record.
    pub fn get_refs(&self, symbol: String, now: u64) -> (r: Option<(u128, u64, u64)>)
        ensures
            r == self.spec_get_refs(symbol@, now),
    {
        let usd = String::from_str("USD");
        if symbol == usd {
            Some((E9, now, 0))
        } else {
            match self.refs.get(symbol.as_str()) {
                Some(v) => Some(*v),
                None => None,
            }
        }
    }

    /// The `1e9`-scaled cross-rate of `base` over `quote` with both resolve
    /// times, or `None` if either side was never relayed (and is not
    /// `"USD"`).  The result does not tell which side was missing.  Callers
    /// keep the pair within [`StdReferenceBasic::rate_bounds_ok`], the bound
    /// the 128-bit intermediate product forces.
    pub fn get_reference_data(&self, base: String, quote: String, now: u64) -> (r: Option<
        (u128, u64, u64),
    >)
        requires
            self.rate_bounds_ok(base@, quote@, now),
        ensures
            r == self.spec_ref_data(base@, quote@, now),
    {
        match (self.get_refs(base, now), self.get_refs(quote, now)) {
            (Some((br, bt, _)), Some((qr, qt, _))) => Some((cross_rate(br, qr), bt, qt)),
            _ => None,
        }
    }

    /// Derives all pairs positionally.  Refuses lists of different lengths;
    /// otherwise the whole result collapses to `None` if any single pair is
    /// missing, and is the full list of derived records if none is.
    pub fn get_reference_data_bulk(&self, bases: Vec<String>, quotes: Vec<String>, now: u64) -> (r:
        Result<Option<Vec<(u128, u64, u64)>>, ContractError>)
        requires
            bases@.len() == quotes@.len() ==> self.all_rate_bounds_ok(bases@, quotes@, now),
        ensures
            r is Ok <==> bases@.len() == quotes@.len(),
            r is Err ==> r == Err::<Option<Vec<(u128, u64, u64)>>, ContractError>(
                ContractError::BadInputLength,
            ),
            r matches Ok(o) ==> (o is Some <==> self.all_pairs_present(bases@, quotes@, now)),
            r matches Ok(Some(v)) ==> v@.len() == bases@.len() && forall|i: int|
                0 <= i < bases@.len() ==> Some(v@[i]) == self.spec_ref_data(
                    bases@[i]@,
                    quotes@[i]@,
                    now,
                ),
    {
        if bases.len() != quotes.len() {
            return Err(ContractError::BadInputLength);
        }
        let mut out: Vec<(u128, u64, u64)> = Vec::new();
        let mut i: usize = 0;
        while i < bases.len()
            invariant
                bases@.len() == quotes@.len(),
                i <= bases@.len(),
                self.all_rate_bounds_ok(bases@, quotes@, now),
                out@.len() == i as nat,
                forall|j: int|
                    0 <= j < i ==> Some(out@[j]) == self.spec_ref_data(bases@[j]@, quotes@[j]@, now),
            decreases bases@.len() - i,
        {
            match self.get_reference_data(bases[i].clone(), quotes[i].clone(), now) {
                Some(t) => out.push(t),
                None => {
                    return Ok(None);
                },
            }
            i += 1;
        }
        proof {
            assert forall|k: int| 0 <= k < bases@.len() implies self.spec_ref_data(
                bases@[k]@,
                quotes@[k]@,
                now,
            ) is Some by {
                assert(Some(out@[k]) == self.spec_ref_data(bases@[k]@, quotes@[k]@, now));
            }
        }
        Ok(Some(out))
    }

    /// Overwrites each symbol's record with the corresponding triple, in
    /// input order.  Owner-only; refuses, touching nothing, if any of the
    /// three aligned vectors differs in length from `symbols`.
    pub fn relay(
        &mut self,
        symbols: Vec<String>,
        rates: Vec<u128>,
        resolve_times: Vec<u64>,
        request_ids: Vec<u64>,
        signer: AccountId,
    ) -> (r: Result<(), ContractError>)
        ensures
            r is Ok <==> (signer@ == old(self).owner@ && rates@.len() == symbols@.len()
                && resolve_times@.len() == symbols@.len() && request_ids@.len() == symbols@.len()),
            signer@ != old(self).owner@ ==> r == Err::<(), ContractError>(ContractError::NotAnOwner),
            signer@ == old(self).owner@ && rates@.len() != symbols@.len() ==> r == Err::<
                (),
                ContractError,
            >(ContractError::BadRatesLength),
            signer@ == old(self).owner@ && rates@.len() == symbols@.len() && resolve_times@.len()
                != symbols@.len() ==> r == Err::<(), ContractError>(
                ContractError::BadResolveTimesLength,
            ),
            signer@ == old(self).owner@ && rates@.len() == symbols@.len() && resolve_times@.len()
                == symbols@.len() && request_ids@.len() != symbols@.len() ==> r == Err::<
                (),
                ContractError,
            >(ContractError::BadRequestIdsLength),
            r is Err ==> final(self).refs@ == old(self).refs@,
            r is Ok ==> final(self).refs@ == spec_relayed(
                old(self).refs@,
                symbols@,
                rates@,
                resolve_times@,
                request_ids@,
                symbols@.len() as int,
            ),
            final(self).owner == old(self).owner,
    {
        if !(signer == self.owner) {
            return Err(ContractError::NotAnOwner);
        }
        let len = symbols.len();
        if rates.len() != len {
            return Err(ContractError::BadRatesLength);
        }
        if resolve_times.len() != len {
            return Err(ContractError::BadResolveTimesLength);
        }
        if request_ids.len() != len {
            return Err(ContractError::BadRequestIdsLength);
        }
        let mut i: usize = 0;
        while i < len
            invariant
                i <= len,
                len == symbols@.len(),
                rates@.len() == len,
                resolve_times@.len() == len,
                request_ids@.len() == len,
                self.owner == old(self).owner,
                self.refs@ == spec_relayed(
                    old(self).refs@,
                    symbols@,
                    rates@,
                    resolve_times@,
                    request_ids@,
                    i as int,
                ),
            decreases len - i,
        {
            let s = symbols[i].clone();
            self.refs.insert(s, (rates[i], resolve_times[i], request_ids[i]));
            i += 1;
        }
        Ok(())
    }
}

/// A successful `relay` overwrites in input order: the record that survives
/// for a symbol is the one at its last occurrence among the first `n`
/// submitted entries.
pub proof fn lemma_relay_overwrites_in_order(
    m: Map<Seq<char>, (u128, u64, u64)>,
    symbols: Seq<String>,
    rates: Seq<u128>,
    resolve_times: Seq<u64>,
    request_ids: Seq<u64>,
    n: int,
    i: int,
)
    requires
        0 <= i < n <= symbols.len(),
        forall|j: int| i < j < n ==> symbols[j]@ != symbols[i]@,
    ensures
        spec_relayed(m, symbols, rates, resolve_times, request_ids, n).contains_key(symbols[i]@),
        spec_relayed(m, symbols, rates, resolve_times, request_ids, n)[symbols[i]@] == (
            rates[i],
            resolve_times[i],
            request_ids[i],
        ),
    decreases n,
{
    if i < n - 1 {
        lemma_relay_overwrites_in_order(m, symbols, rates, resolve_times, request_ids, n - 1, i);
        assert(symbols[n - 1]@ != symbols[i]@);
    }
}

/// A successful `relay` touches nothing else: a symbol that appears nowhere
/// among the first `n` submitted entries keeps exactly the record (or the
/// absence) it had before.
pub proof fn lemma_relay_leaves_others(
    m: Map<Seq<char>, (u128, u64, u64)>,
    symbols: Seq<String>,
    rates: Seq<u128>,
    resolve_times: Seq<u64>,
    request_ids: Seq<u64>,
    n: int,
    k: Seq<char>,
)
    requires
        0 <= n <= symbols.len(),
        forall|j: int| 0 <= j < n ==> symbols[j]@ != k,
    ensures
        spec_relayed(m, symbols, rates, resolve_times, request_ids, n).contains_key(k)
            == m.contains_key(k),
        m.contains_key(k) ==> spec_relayed(m, symbols, rates, resolve_times, request_ids, n)[k]
            == m[k],
    decreases n,
{
    if n > 0 {
        lemma_relay_leaves_others(m, symbols, rates, resolve_times, request_ids, n - 1, k);
    }
}

/// A pair is reported as missing exactly when one of its sides was never
/// relayed and is not the synthetic `"USD"`.
pub proof fn lemma_missing_symbol_gives_none(
    s: StdReferenceBasic,
    base: Seq<char>,
    quote: Seq<char>,
    now: u64,
)
    requires
        (base != "USD"@ && !s.refs@.contains_key(base)) || (quote != "USD"@
            && !s.refs@.contains_key(quote)),
    ensures
        s.spec_ref_data(base, quote, now) is None,
{
}

/// For two present symbols with rates `br` and `qr`, the derived record is
/// exactly `(br * 1e18 / qr, bt, qt)` as a mathematical integer: the
/// truncating division is the only loss, and no overflow occurs while the
/// base rate keeps `br * 1e18` within 128 bits.
pub proof fn lemma_cross_rate_formula(
    s: StdReferenceBasic,
    base: Seq<char>,
    quote: Seq<char>,
    now: u64,
)
    requires
        s.spec_get_refs(base, now) is Some,
        s.spec_get_refs(quote, now) is Some,
        s.rate_bounds_ok(base, quote, now),
    ensures
        ({
            let b = s.spec_get_refs(base, now)->Some_0;
            let q = s.spec_get_refs(quote, now)->Some_0;
            s.spec_ref_data(base, quote, now) == Some(
                ((b.0 * E9 * E9 / (q.0 as int)) as u128, b.1, q.1),
            ) && b.0 * E9 * E9 / (q.0 as int) <= u128::MAX
        }),
{
    let b = s.spec_get_refs(base, now)->Some_0;
    let q = s.spec_get_refs(quote, now)->Some_0;
    lemma_cross_rate_exact(b.0, q.0);
}

/// The synthetic `"USD"` pairing is an inverse relationship up to
/// truncation: a relayed record `(r, t, id)` reads back against `"USD"` as
/// the `1e9`-rescaled rate `r * 1e9` with times `(t, now)`, and `"USD"`
/// against the symbol as `1e27 / r` with times `(now, t)`.
pub proof fn lemma_usd_pair_inverse(
    s: StdReferenceBasic,
    sym: Seq<char>,
    r: u128,
    t: u64,
    id: u64,
    now: u64,
)
    requires
        sym != "USD"@,
        s.refs@.contains_key(sym),
        s.refs@[sym] == (r, t, id),
        0 < r <= MAX_SAFE_RATE,
    ensures
        s.spec_ref_data(sym, "USD"@, now) == Some(((r * E9) as u128, t, now)),
        s.spec_ref_data("USD"@, sym, now) == Some(((E9 * E9 * E9 / (r as int)) as u128, now, t)),
{
    lemma_cross_rate_exact(r, E9);
    assert(r * E9 * E9 == (E9 as int) * (r * E9)) by (nonlinear_arith);
    vstd::arithmetic::div_mod::lemma_div_multiples_vanish(r * E9, E9 as int);
    assert(spec_cross_rate(r, E9) == (r * E9) as u128);
    lemma_cross_rate_exact(E9, r);
}

} // verus!
