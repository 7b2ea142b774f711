//! The pair itself: its state, its one-time initialization and its readers.

use crate::address::{lemma_order_is_asymmetric, lemma_order_is_total, Address};
use crate::errors::PairError;
use crate::host::{lemma_zero_address_is_unique, zero_address};
use crate::storage::{DataKey, FeeState, PairStorage, ReentrancyGuard};
use soroban_sdk::Env;
use vstd::prelude::*;

verus! {

/// Lifetime, in ledgers, that initialization secures for a pair: seven days
/// at 17 280 ledgers a day.
pub const INSTANCE_TTL_LEDGERS: u32 = 120_960;

/// The two tokens in canonical order: the one that sorts first, then the other.
pub open spec fn canonical_order(token_a: Address, token_b: Address) -> (Address, Address) {
    if token_a.precedes(token_b) {
        (token_a, token_b)
    } else {
        (token_b, token_a)
    }
}

/// Puts two tokens in canonical order.
pub fn sort_tokens(token_a: Address, token_b: Address) -> (tokens: (Address, Address))
    ensures
        tokens == canonical_order(token_a, token_b),
{
    if token_a < token_b {
        (token_a, token_b)
    } else {
        (token_b, token_a)
    }
}

/// The persistent state of one pair: a record under each key, once the pair
/// is initialized, and the lifetime left to the instance.
///
/// A pair starts without records. `initialize` writes all three at once, and
/// nothing removes them.
#[derive(Clone, Copy, Debug, PartialEq, Eq)]
pub struct Pair {
    /// The record under `DataKey::PairStorage`.
    pub storage: Option<PairStorage>,
    /// The record under `DataKey::FeeState`.
    pub fee_state: Option<FeeState>,
    /// The record under `DataKey::ReentrancyGuard`.
    pub reentrancy_guard: Option<ReentrancyGuard>,
    /// Ledgers for which the instance is known to stay alive: a lower bound
    /// on the lifetime that is left to it.
    pub ttl: u32,
}

impl Pair {
    /// Whether the pair has been initialized.
    pub open spec fn is_initialized(self) -> bool {
        self.storage is Some
    }

    /// Whether a record is kept under `key`.
    pub open spec fn has_spec(self, key: DataKey) -> bool {
        match key {
            DataKey::PairStorage => self.storage is Some,
            DataKey::FeeState => self.fee_state is Some,
            DataKey::ReentrancyGuard => self.reentrancy_guard is Some,
        }
    }

    /// The three records are there together or not at all, and those that
    /// are there are well formed.
    pub open spec fn wf(self) -> bool {
        &&& self.fee_state is Some <==> self.storage is Some
        &&& self.reentrancy_guard is Some <==> self.storage is Some
        &&& self.storage matches Some(storage) ==> storage.wf()
        &&& self.fee_state matches Some(fee_state) ==> fee_state.wf()
    }

    /// The lifetime after initialization: `INSTANCE_TTL_LEDGERS` where less
    /// was left, else what was left.
    pub open spec fn extended_ttl(self) -> u32 {
        if self.ttl < INSTANCE_TTL_LEDGERS {
            INSTANCE_TTL_LEDGERS
        } else {
            self.ttl
        }
    }

    /// The answer of `initialize`. The checks are made in this order, and
    /// the first that fails decides.
    pub open spec fn initialize_outcome(
        self,
        factory: Address,
        token_a: Address,
        token_b: Address,
        lp_token: Address,
    ) -> Result<(), PairError> {
        if self.is_initialized() {
            Err(PairError::AlreadyInitialized)
        } else if factory.is_zero() || token_a.is_zero() || token_b.is_zero()
            || lp_token.is_zero() {
            Err(PairError::ZeroAddress)
        } else if token_a == token_b {
            Err(PairError::IdenticalTokens)
        } else {
            Ok(())
        }
    }

    /// The state that `initialize` leaves: on success the three new records
    /// and the extended lifetime, on failure the state as it was.
    pub open spec fn after_initialize(
        self,
        factory: Address,
        token_a: Address,
        token_b: Address,
        lp_token: Address,
    ) -> Pair {
        if self.initialize_outcome(factory, token_a, token_b, lp_token) is Ok {
            Pair {
                storage: Some(
                    PairStorage {
                        factory,
                        token_0: canonical_order(token_a, token_b).0,
                        token_1: canonical_order(token_a, token_b).1,
                        lp_token,
                        reserve_0: 0,
                        reserve_1: 0,
                        block_timestamp_last: 0,
                    },
                ),
                fee_state: Some(FeeState::initial_spec()),
                reentrancy_guard: Some(ReentrancyGuard { locked: false }),
                ttl: self.extended_ttl(),
            }
        } else {
            self
        }
    }

    /// The reserves and the time of their last update.
    pub open spec fn reserves(self) -> (i128, i128, u64)
        recommends
            self.storage is Some,
    {
        let storage = self.storage->0;
        (storage.reserve_0, storage.reserve_1, storage.block_timestamp_last)
    }

    /// A pair that has not been initialized.
    pub fn new() -> (pair: Pair)
        ensures
            pair == (Pair { storage: None, fee_state: None, reentrancy_guard: None, ttl: 0 }),
            !pair.is_initialized(),
            pair.wf(),
    {
        Pair { storage: None, fee_state: None, reentrancy_guard: None, ttl: 0 }
    }

    /// Whether a record is kept under `key`.
    pub fn has(&self, key: DataKey) -> (present: bool)
        ensures
            present == self.has_spec(key),
    {
        match key {
            DataKey::PairStorage => self.storage.is_some(),
            DataKey::FeeState => self.fee_state.is_some(),
            DataKey::ReentrancyGuard => self.reentrancy_guard.is_some(),
        }
    }

    /// Brings the pair from uninitialized to initialized, once.
    ///
    /// Fails with `AlreadyInitialized` if the pair is initialized, else with
    /// `ZeroAddress` if any of the four addresses is the zero address, else
    /// with `IdenticalTokens` if the two tokens are the same. A failure
    /// leaves the pair as it was. Otherwise the pair records its identity
    /// with the tokens in canonical order and empty reserves, the default
    /// fee bounds and an open reentrancy guard, and its lifetime is extended
    /// to `INSTANCE_TTL_LEDGERS` where it was shorter.
    pub fn initialize(
        &mut self,
        env: &Env,
        factory: Address,
        token_a: Address,
        token_b: Address,
        lp_token: Address,
    ) -> (result: Result<(), PairError>)
        ensures
            result == old(self).initialize_outcome(factory, token_a, token_b, lp_token),
            *final(self) == old(self).after_initialize(factory, token_a, token_b, lp_token),
            result is Ok ==> final(self).wf(),
    {
        if self.has(DataKey::PairStorage) {
            return Err(PairError::AlreadyInitialized);
        }
        let zero = zero_address(env);
        proof {
            lemma_zero_address_is_unique(zero, factory);
            lemma_zero_address_is_unique(zero, token_a);
            lemma_zero_address_is_unique(zero, token_b);
            lemma_zero_address_is_unique(zero, lp_token);
        }
        if factory == zero || token_a == zero || token_b == zero || lp_token == zero {
            return Err(PairError::ZeroAddress);
        }
        if token_a == token_b {
            return Err(PairError::IdenticalTokens);
        }
        let (token_0, token_1) = sort_tokens(token_a, token_b);
        proof {
            lemma_order_is_total(token_a, token_b);
        }
        self.storage = Some(
            PairStorage {
                factory,
                token_0,
                token_1,
                lp_token,
                reserve_0: 0,
                reserve_1: 0,
                block_timestamp_last: 0,
            },
        );
        self.fee_state = Some(FeeState::initial());
        self.reentrancy_guard = Some(ReentrancyGuard { locked: false });
        if self.ttl < INSTANCE_TTL_LEDGERS {
            self.ttl = INSTANCE_TTL_LEDGERS;
        }
        Ok(())
    }

    /// The reserves of the two tokens and the time of their last update.
    pub fn get_reserves(&self) -> (reserves: (i128, i128, u64))
        requires
            self.has_spec(DataKey::PairStorage),
        ensures
            reserves == self.reserves(),
    {
        let storage = self.storage.unwrap();
        (storage.reserve_0, storage.reserve_1, storage.block_timestamp_last)
    }

    /// The fee bounds of the pair.
    pub fn get_fee_state(&self) -> (fee_state: FeeState)
        requires
            self.has_spec(DataKey::FeeState),
        ensures
            Some(fee_state) == self.fee_state,
    {
        self.fee_state.unwrap()
    }
}

/// The canonical order of two tokens does not depend on the order in which
/// they are given.
pub proof fn lemma_canonical_order_commutes(token_a: Address, token_b: Address)
    ensures
        canonical_order(token_a, token_b) == canonical_order(token_b, token_a),
{
    lemma_order_is_asymmetric(token_a, token_b);
    lemma_order_is_total(token_a, token_b);
}

/// Two distinct tokens in canonical order are the same two tokens, the first
/// strictly before the second.
pub proof fn lemma_canonical_order_sorts(token_a: Address, token_b: Address)
    requires
        token_a != token_b,
    ensures
        canonical_order(token_a, token_b).0.precedes(canonical_order(token_a, token_b).1),
        canonical_order(token_a, token_b) == (token_a, token_b) || canonical_order(
            token_a,
            token_b,
        ) == (token_b, token_a),
{
    lemma_order_is_total(token_a, token_b);
}

/// On a pair that is not initialized, `initialize` succeeds whenever none of
/// the four addresses is the zero address and the two tokens differ; after that, it
/// fails with `AlreadyInitialized` whatever it is given.
pub proof fn lemma_initialize_succeeds_exactly_once(
    pair: Pair,
    factory: Address,
    token_a: Address,
    token_b: Address,
    lp_token: Address,
    next_factory: Address,
    next_token_a: Address,
    next_token_b: Address,
    next_lp_token: Address,
)
    requires
        !pair.is_initialized(),
        !factory.is_zero(),
        !token_a.is_zero(),
        !token_b.is_zero(),
        !lp_token.is_zero(),
        token_a != token_b,
    ensures
        pair.initialize_outcome(factory, token_a, token_b, lp_token) == Ok::<(), PairError>(()),
        pair.after_initialize(factory, token_a, token_b, lp_token).is_initialized(),
        pair.after_initialize(factory, token_a, token_b, lp_token).initialize_outcome(
            next_factory,
            next_token_a,
            next_token_b,
            next_lp_token,
        ) == Err::<(), PairError>(PairError::AlreadyInitialized),
{
}

/// An initialized pair stays as it is: `initialize` fails with
/// `AlreadyInitialized` and changes nothing, whatever it is given.
pub proof fn lemma_initialized_is_final(
    pair: Pair,
    factory: Address,
    token_a: Address,
    token_b: Address,
    lp_token: Address,
)
    requires
        pair.is_initialized(),
    ensures
        pair.initialize_outcome(factory, token_a, token_b, lp_token) == Err::<(), PairError>(
            PairError::AlreadyInitialized,
        ),
        pair.after_initialize(factory, token_a, token_b, lp_token) == pair,
{
}

/// On a pair that is not initialized, the zero address in any of the four
/// positions makes `initialize` fail with `ZeroAddress` and change nothing.
pub proof fn lemma_zero_address_is_rejected(
    pair: Pair,
    factory: Address,
    token_a: Address,
    token_b: Address,
    lp_token: Address,
)
    requires
        !pair.is_initialized(),
        factory.is_zero() || token_a.is_zero() || token_b.is_zero() || lp_token.is_zero(),
    ensures
        pair.initialize_outcome(factory, token_a, token_b, lp_token) == Err::<(), PairError>(
            PairError::ZeroAddress,
        ),
        pair.after_initialize(factory, token_a, token_b, lp_token) == pair,
{
}

/// On a pair that is not initialized, and with the zero address nowhere among
/// the four, giving the same token twice makes `initialize` fail with
/// `IdenticalTokens` and change nothing, whatever factory and share token are.
pub proof fn lemma_identical_tokens_are_rejected(
    pair: Pair,
    factory: Address,
    token: Address,
    lp_token: Address,
)
    requires
        !pair.is_initialized(),
        !factory.is_zero(),
        !token.is_zero(),
        !lp_token.is_zero(),
    ensures
        pair.initialize_outcome(factory, token, token, lp_token) == Err::<(), PairError>(
            PairError::IdenticalTokens,
        ),
        pair.after_initialize(factory, token, token, lp_token) == pair,
{
}

/// `initialize` answers the same and leaves the same state when the two
/// tokens are given in the other order.
pub proof fn lemma_initialize_ignores_token_order(
    pair: Pair,
    factory: Address,
    token_a: Address,
    token_b: Address,
    lp_token: Address,
)
    ensures
        pair.initialize_outcome(factory, token_a, token_b, lp_token) == pair.initialize_outcome(
            factory,
            token_b,
            token_a,
            lp_token,
        ),
        pair.after_initialize(factory, token_a, token_b, lp_token) == pair.after_initialize(
            factory,
            token_b,
            token_a,
            lp_token,
        ),
{
    lemma_canonical_order_commutes(token_a, token_b);
}

/// After a successful `initialize` the pair is well formed, holds a record
/// under every key, has empty reserves that were never updated, the default
/// fee bounds and an open guard, and lives for at least
/// `INSTANCE_TTL_LEDGERS`.
pub proof fn lemma_initialized_state(
    pair: Pair,
    factory: Address,
    token_a: Address,
    token_b: Address,
    lp_token: Address,
)
    requires
        pair.initialize_outcome(factory, token_a, token_b, lp_token) is Ok,
    ensures
        ({
            let after = pair.after_initialize(factory, token_a, token_b, lp_token);
            &&& after.wf()
            &&& forall|key: DataKey| after.has_spec(key)
            &&& after.reserves() == (0i128, 0i128, 0u64)
            &&& after.fee_state == Some(FeeState { baseline_bps: 30, min_bps: 10, max_bps: 100 })
            &&& after.reentrancy_guard == Some(ReentrancyGuard { locked: false })
            &&& after.storage->0.factory == factory
            &&& after.storage->0.lp_token == lp_token
            &&& after.storage->0.token_0.precedes(after.storage->0.token_1)
            &&& after.ttl >= INSTANCE_TTL_LEDGERS
            &&& after.ttl >= pair.ttl
        }),
{
    lemma_canonical_order_sorts(token_a, token_b);
}

/// A well-formed pair is well formed after `initialize`, whether it
/// succeeded or not.
pub proof fn lemma_initialize_preserves_wf(
    pair: Pair,
    factory: Address,
    token_a: Address,
    token_b: Address,
    lp_token: Address,
)
    requires
        pair.wf(),
    ensures
        pair.after_initialize(factory, token_a, token_b, lp_token).wf(),
{
    if pair.initialize_outcome(factory, token_a, token_b, lp_token) is Ok {
        lemma_initialized_state(pair, factory, token_a, token_b, lp_token);
    }
}

} // verus!
