//! The claim flow: eligibility against the cooldown window, job building,
//! and recording the outcome.
//!
//! A claim runs `Received -> EligibilityChecked` and from there either to
//! `Rejected` (cooldown active, the dispatcher is never contacted), or
//! through `Dispatched` to `Confirmed` (record written, success returned)
//! or `Failed` (error returned, no record written). [`begin_claim`] takes
//! a request to `EligibilityChecked`; the dispatcher handles the job; and
//! [`finish_claim`] takes the dispatcher's reply to the terminal state.
//! The ledger is borrowed mutably across one request's sequence, which
//! serializes racing requests for the same key.

use vstd::prelude::*;
use crate::address::MultiAddress;
use crate::config::FaucetConfig;
use crate::dispatcher::{Transaction, TransactionProcessingSystem, TxResult};
use crate::error::{DispatchError, FaucetError};
use crate::ledger::{ClaimKey, ClaimLedger, spec_read_result};
use crate::model::ClaimsData;
use crate::network::TypedChainId;
use crate::registry::ChainRegistry;

verus! {

/// A claim request, as the HTTP layer hands it in: where to pay, on which
/// chain, and whether to skip the token transfer.
#[derive(Clone, Copy, Debug, PartialEq, Eq)]
pub struct FaucetRequest {
    /// The destination wallet address.
    pub wallet_address: MultiAddress,
    /// The chain to pay out on, family included.
    pub typed_chain_id: TypedChainId,
    /// When set, only native currency is sent.
    pub only_native_token: bool,
}

impl FaucetRequest {
    /// The destination's family matches the requested chain's family.
    pub open spec fn spec_family_consistent(&self) -> bool {
        match self.typed_chain_id {
            TypedChainId::Evm(_) => self.wallet_address is Ethereum,
            TypedChainId::Substrate(_) => self.wallet_address is Substrate,
        }
    }
}

/// Whether a claim at `now` is allowed, given the key's previous record:
/// allowed on a first claim, and from the instant
/// `last_claimed_at + cooldown` on.
pub open spec fn spec_eligible(prev: Option<ClaimsData>, now: u64, cooldown: u64) -> bool {
    match prev {
        None => true,
        Some(c) => now >= c.last_claimed_date + cooldown,
    }
}

/// How long a rejected claim still has to wait, in milliseconds.
pub open spec fn spec_remaining(c: ClaimsData, now: u64, cooldown: u64) -> u128 {
    (c.last_claimed_date + cooldown - now) as u128
}

/// The verdict of one eligibility check.
#[derive(Clone, Copy, Debug, PartialEq, Eq, Structural)]
pub enum Eligibility {
    /// The claim may proceed.
    Eligible,
    /// The claim is inside the cooldown window; wait this long.
    CooldownActive { remaining_ms: u128 },
}

/// Decides eligibility from the key's previous record, the time, and the
/// configured cooldown window.
pub fn check_eligibility(prev: Option<&ClaimsData>, now: u64, cooldown: u64) -> (r: Eligibility)
    ensures
        match prev {
            None => r == Eligibility::Eligible,
            Some(c) => r == if spec_eligible(Some(*c), now, cooldown) {
                Eligibility::Eligible
            } else {
                (Eligibility::CooldownActive { remaining_ms: spec_remaining(*c, now, cooldown) })
            },
        },
{
    match prev {
        None => Eligibility::Eligible,
        Some(c) => {
            let threshold: u128 = c.last_claimed_date as u128 + cooldown as u128;
            if now as u128 >= threshold {
                Eligibility::Eligible
            } else {
                Eligibility::CooldownActive { remaining_ms: threshold - now as u128 }
            }
        },
    }
}

/// Cooldown boundary: a claim exactly at `last_claimed_at + cooldown` is
/// eligible; any instant before is rejected, with the remaining wait
/// being exactly the distance to that boundary.
pub proof fn lemma_cooldown_boundary(c: ClaimsData, now: u64, cooldown: u64)
    ensures
        now == c.last_claimed_date + cooldown ==> spec_eligible(Some(c), now, cooldown),
        now < c.last_claimed_date + cooldown ==> !spec_eligible(Some(c), now, cooldown)
            && spec_remaining(c, now, cooldown) == c.last_claimed_date + cooldown - now,
{
}

/// At most one claim per window: once a successful claim has written
/// `record` under `key`, every further request on that key before
/// `record.last_claimed_date + cooldown` reads `record` back and fails
/// the eligibility check, whatever the store held before. Since
/// [`begin_claim`] succeeds only on an eligible key and [`finish_claim`]
/// is the only writer, any run of requests on one key serialized within
/// one window yields at most one success; and the store, a map, holds
/// exactly one record for the key throughout.
pub proof fn lemma_at_most_one_claim(
    m: Map<ClaimKey, ClaimsData>,
    key: ClaimKey,
    record: ClaimsData,
    now2: u64,
    cooldown: u64,
)
    requires
        now2 < record.last_claimed_date + cooldown,
    ensures
        !spec_eligible(spec_read_result(m.insert(key, record), key), now2, cooldown),
        m.insert(key, record).contains_key(key),
{
}

/// Claim times are monotonic: an update only happens on an eligible
/// request, whose time is at or past the previous record's claim time,
/// so the stored `last_claimed_date` never moves backward.
pub proof fn lemma_monotonic_claim_time(prev: ClaimsData, now: u64, cooldown: u64)
    requires
        spec_eligible(Some(prev), now, cooldown),
    ensures
        now >= prev.last_claimed_date,
{
}

/// Whether one serialized request on `key` at `now` succeeds in state
/// `m`: its eligibility check passes and its transfer comes back good.
/// This is exactly what one [`begin_claim`] / [`finish_claim`] pair
/// decides, by their contracts, for a storable identity.
pub open spec fn spec_claim_succeeds(
    m: Map<ClaimKey, ClaimsData>,
    key: ClaimKey,
    now: u64,
    cooldown: u64,
    transfer_ok: bool,
) -> bool {
    spec_eligible(spec_read_result(m, key), now, cooldown) && transfer_ok
}

/// The store after one serialized request: the fresh record on success,
/// the same store otherwise — exactly [`finish_claim`]'s effect.
pub open spec fn spec_claim_step(
    m: Map<ClaimKey, ClaimsData>,
    key: ClaimKey,
    addr: crate::address::UniversalWalletAddress,
    now: u64,
    cooldown: u64,
    transfer_ok: bool,
) -> Map<ClaimKey, ClaimsData> {
    if spec_claim_succeeds(m, key, now, cooldown, transfer_ok) {
        m.insert(
            key,
            ClaimsData { identity: key.identity, address: addr, last_claimed_date: now },
        )
    } else {
        m
    }
}

/// The store after a run of serialized requests on one key, each given
/// as its time and its transfer outcome.
pub open spec fn spec_run_claims(
    m: Map<ClaimKey, ClaimsData>,
    key: ClaimKey,
    addr: crate::address::UniversalWalletAddress,
    cooldown: u64,
    events: Seq<(u64, bool)>,
) -> Map<ClaimKey, ClaimsData>
    decreases events.len(),
{
    if events.len() == 0 {
        m
    } else {
        spec_run_claims(
            spec_claim_step(m, key, addr, events[0].0, cooldown, events[0].1),
            key,
            addr,
            cooldown,
            events.drop_first(),
        )
    }
}

/// How many of a run of serialized requests on one key succeed.
pub open spec fn spec_count_successes(
    m: Map<ClaimKey, ClaimsData>,
    key: ClaimKey,
    addr: crate::address::UniversalWalletAddress,
    cooldown: u64,
    events: Seq<(u64, bool)>,
) -> nat
    decreases events.len(),
{
    if events.len() == 0 {
        0
    } else {
        (if spec_claim_succeeds(m, key, events[0].0, cooldown, events[0].1) {
            1nat
        } else {
            0nat
        }) + spec_count_successes(
            spec_claim_step(m, key, addr, events[0].0, cooldown, events[0].1),
            key,
            addr,
            cooldown,
            events.drop_first(),
        )
    }
}

/// Once a record stands whose claim time covers every remaining request,
/// none of them succeeds and the store never changes again.
proof fn lemma_no_success_within_window(
    m: Map<ClaimKey, ClaimsData>,
    key: ClaimKey,
    addr: crate::address::UniversalWalletAddress,
    cooldown: u64,
    events: Seq<(u64, bool)>,
)
    requires
        m.contains_key(key),
        forall|i: int| 0 <= i < events.len() ==> (#[trigger] events[i]).0 < m[key].last_claimed_date + cooldown,
    ensures
        spec_count_successes(m, key, addr, cooldown, events) == 0,
        spec_run_claims(m, key, addr, cooldown, events) == m,
    decreases events.len(),
{
    if events.len() > 0 {
        assert(events[0].0 < m[key].last_claimed_date + cooldown);
        assert(!spec_claim_succeeds(m, key, events[0].0, cooldown, events[0].1));
        assert(spec_claim_step(m, key, addr, events[0].0, cooldown, events[0].1) == m);
        assert(forall|i: int|
            0 <= i < events.drop_first().len() ==> (#[trigger] events.drop_first()[i]).0
                < m[key].last_claimed_date + cooldown);
        lemma_no_success_within_window(m, key, addr, cooldown, events.drop_first());
    }
}

/// At most one claim per window, over any number of requests: a run of
/// serialized requests on one key, all falling within one cooldown
/// window of each other, yields at most one success, whatever the store
/// held at the start and however each transfer went; and after a
/// success, exactly one record stands for the key.
pub proof fn lemma_at_most_one_claim_per_window(
    m0: Map<ClaimKey, ClaimsData>,
    key: ClaimKey,
    addr: crate::address::UniversalWalletAddress,
    cooldown: u64,
    events: Seq<(u64, bool)>,
)
    requires
        forall|i: int, j: int|
            0 <= i < j < events.len() ==> (#[trigger] events[j]).0 < (#[trigger] events[i]).0
                + cooldown,
    ensures
        spec_count_successes(m0, key, addr, cooldown, events) <= 1,
        spec_count_successes(m0, key, addr, cooldown, events) >= 1 ==> spec_run_claims(
            m0,
            key,
            addr,
            cooldown,
            events,
        ).contains_key(key),
    decreases events.len(),
{
    if events.len() > 0 {
        let now0 = events[0].0;
        let ok0 = events[0].1;
        let rest = events.drop_first();
        let m1 = spec_claim_step(m0, key, addr, now0, cooldown, ok0);
        assert(forall|i: int, j: int|
            0 <= i < j < rest.len() ==> (#[trigger] rest[j]).0 < (#[trigger] rest[i]).0
                + cooldown) by {
            assert forall|i: int, j: int| 0 <= i < j < rest.len() implies (#[trigger] rest[j]).0
                < (#[trigger] rest[i]).0 + cooldown by {
                assert(rest[i] == events[i + 1]);
                assert(rest[j] == events[j + 1]);
            }
        }
        if spec_claim_succeeds(m0, key, now0, cooldown, ok0) {
            assert(m1.contains_key(key));
            assert(m1[key].last_claimed_date == now0);
            assert(forall|i: int|
                0 <= i < rest.len() ==> (#[trigger] rest[i]).0 < now0 + cooldown) by {
                assert forall|i: int| 0 <= i < rest.len() implies (#[trigger] rest[i]).0 < now0
                    + cooldown by {
                    assert(rest[i] == events[i + 1]);
                    assert(events[i + 1].0 < events[0].0 + cooldown);
                }
            }
            lemma_no_success_within_window(m1, key, addr, cooldown, rest);
        } else {
            lemma_at_most_one_claim_per_window(m1, key, addr, cooldown, rest);
        }
    }
}

/// Independence across chains: recording a claim for one chain never
/// changes what is read — and so what eligibility decides — for the same
/// identity on any other chain.
pub proof fn lemma_chain_independence(
    m: Map<ClaimKey, ClaimsData>,
    identity: u64,
    chain_a: TypedChainId,
    chain_b: TypedChainId,
    record: ClaimsData,
    now: u64,
    cooldown: u64,
)
    requires
        chain_a != chain_b,
    ensures
        spec_read_result(m.insert(ClaimKey { identity, chain: chain_a }, record), ClaimKey { identity, chain: chain_b })
            == spec_read_result(m, ClaimKey { identity, chain: chain_b }),
        spec_eligible(
            spec_read_result(
                m.insert(ClaimKey { identity, chain: chain_a }, record),
                ClaimKey { identity, chain: chain_b },
            ),
            now,
            cooldown,
        ) == spec_eligible(spec_read_result(m, ClaimKey { identity, chain: chain_b }), now, cooldown),
{
    assert(ClaimKey { identity, chain: chain_a } != ClaimKey { identity, chain: chain_b });
}

/// A claim that passed its eligibility check and may be dispatched. Holds
/// everything [`finish_claim`] writes on success.
#[derive(Clone, Copy, Debug, PartialEq, Eq)]
pub struct PendingClaim {
    /// The claiming identity.
    pub identity: u64,
    /// The chain being claimed on.
    pub chain: TypedChainId,
    /// Where the transfer pays out.
    pub destination: MultiAddress,
    /// When the eligibility check ran; becomes the record's claim time.
    pub now: u64,
}

/// The identity bound the backing store can represent.
pub fn max_storable_identity() -> (r: u64)
    ensures
        r == i64::MAX as u64,
{
    9223372036854775807u64
}

/// Checks a claim request against the store: rejects identities the
/// store cannot represent before any read, and claims inside the
/// cooldown window before any dispatch. On success the claim may be
/// handed to the dispatcher.
pub fn begin_claim(
    ledger: &ClaimLedger,
    identity: u64,
    chain: TypedChainId,
    destination: MultiAddress,
    now: u64,
    cooldown: u64,
) -> (r: Result<PendingClaim, FaucetError>)
    requires
        ledger.wf(),
    ensures
        match r {
            Ok(p) => {
                &&& identity <= i64::MAX as u64
                &&& spec_eligible(
                    spec_read_result(ledger@, ClaimKey { identity, chain }),
                    now,
                    cooldown,
                )
                &&& p == (PendingClaim { identity, chain, destination, now })
            },
            Err(e) => match e {
                FaucetError::InvalidIdentity => identity > i64::MAX as u64,
                FaucetError::CooldownActive { remaining_ms } => {
                    &&& identity <= i64::MAX as u64
                    &&& spec_read_result(ledger@, ClaimKey { identity, chain }) matches Some(c)
                        && !spec_eligible(Some(c), now, cooldown) && remaining_ms == spec_remaining(
                        c,
                        now,
                        cooldown,
                    )
                },
                _ => false,
            },
        },
{
    if identity > max_storable_identity() {
        return Err(FaucetError::InvalidIdentity);
    }
    let prev = ledger.get_last_claim(identity, chain);
    match check_eligibility(prev, now, cooldown) {
        Eligibility::Eligible => Ok(PendingClaim { identity, chain, destination, now }),
        Eligibility::CooldownActive { remaining_ms } => Err(
            FaucetError::CooldownActive { remaining_ms },
        ),
    }
}

/// The record a confirmed claim writes: the destination and the check
/// time of the pending claim.
pub open spec fn spec_claim_record(p: PendingClaim) -> ClaimsData {
    ClaimsData {
        identity: p.identity,
        address: p.destination.universal(),
        last_claimed_date: p.now,
    }
}

/// Settles a dispatched claim with the dispatcher's reply. On success the
/// claim record is written under the claim's key and the transfer result
/// returned. On failure the error is propagated unchanged and the store
/// is left untouched — no record is written, so the identity may retry
/// at once.
pub fn finish_claim(
    ledger: &mut ClaimLedger,
    pending: PendingClaim,
    outcome: Result<TxResult, DispatchError>,
) -> (r: Result<TxResult, FaucetError>)
    requires
        old(ledger).wf(),
    ensures
        final(ledger).wf(),
        match outcome {
            Ok(tx) => r == Ok::<TxResult, FaucetError>(tx) && final(ledger)@ == old(ledger)@.insert(
                ClaimKey { identity: pending.identity, chain: pending.chain },
                spec_claim_record(pending),
            ),
            Err(e) => r == Err::<TxResult, FaucetError>(FaucetError::TransferFailed { reason: e })
                && final(ledger)@ == old(ledger)@,
        },
{
    match outcome {
        Ok(tx) => {
            let record = ClaimsData {
                identity: pending.identity,
                address: pending.destination.to_universal(),
                last_claimed_date: pending.now,
            };
            ledger.put_last_claim(pending.identity, pending.chain, record);
            Ok(tx)
        },
        Err(e) => Err(FaucetError::TransferFailed { reason: e }),
    }
}

/// Builds the transfer job for an eligible claim: resolves the chain in
/// the registry, fixes the amounts from configuration, and picks the
/// token contract unless the request asked for native currency only. An
/// unresolvable chain is reported as unsupported, never silently
/// dropped. The destination's family must match the chain's, as the
/// caller has checked.
pub fn build_transaction(
    request: &FaucetRequest,
    config: &FaucetConfig,
    registry: &ChainRegistry,
    job_id: u64,
) -> (r: Result<Transaction, FaucetError>)
    requires
        request.spec_family_consistent(),
    ensures
        match r {
            Ok(t) => {
                &&& registry.spec_supports(request.typed_chain_id)
                &&& match request.typed_chain_id {
                    TypedChainId::Evm(chain_id) => {
                        &&& request.wallet_address matches MultiAddress::Ethereum(dest)
                            && t == (Transaction::Evm {
                            chain_id: chain_id as u64,
                            to: dest,
                            amount: config.token_amount as u128,
                            native_token_amount: config.native_token_amount,
                            token_address: if request.only_native_token {
                                None
                            } else {
                                registry.spec_evm_token(chain_id as u64)
                            },
                            job_id,
                        })
                    },
                    TypedChainId::Substrate(chain_id) => {
                        &&& request.wallet_address matches MultiAddress::Substrate(dest)
                            && t == (Transaction::Substrate {
                            chain_id: chain_id as u64,
                            to: dest,
                            amount: config.token_amount as u128,
                            native_token_amount: config.native_token_amount,
                            asset_id: None,
                            job_id,
                        })
                    },
                }
            },
            Err(e) => e == FaucetError::UnsupportedChain && !registry.spec_supports(
                request.typed_chain_id,
            ),
        },
{
    match request.typed_chain_id {
        TypedChainId::Evm(chain_id) => {
            let token = match registry.evm_token(chain_id as u64) {
                Some(t) => t,
                None => {
                    return Err(FaucetError::UnsupportedChain);
                },
            };
            let dest = match request.wallet_address.ethereum() {
                Some(d) => *d,
                None => {
                    return Err(FaucetError::UnsupportedChain);
                },
            };
            Ok(
                Transaction::Evm {
                    chain_id: chain_id as u64,
                    to: dest,
                    amount: config.token_amount as u128,
                    native_token_amount: config.native_token_amount,
                    token_address: if request.only_native_token {
                        None
                    } else {
                        Some(token)
                    },
                    job_id,
                },
            )
        },
        TypedChainId::Substrate(chain_id) => {
            if !registry.has_substrate(chain_id as u64) {
                return Err(FaucetError::UnsupportedChain);
            }
            let dest = match request.wallet_address.substrate() {
                Some(d) => *d,
                None => {
                    return Err(FaucetError::UnsupportedChain);
                },
            };
            Ok(
                Transaction::Substrate {
                    chain_id: chain_id as u64,
                    to: dest,
                    amount: config.token_amount as u128,
                    native_token_amount: config.native_token_amount,
                    asset_id: None,
                    job_id,
                },
            )
        },
    }
}


/// The identity-provider account a claimer must follow.
pub const WEBB_TWITTER_ACCOUNT_ID: u64 = 1355009685859033092;

/// Whether one page of followed-account ids names the target account.
pub fn page_contains_account(ids: &Vec<u64>, target: u64) -> (r: bool)
    ensures
        r == ids@.contains(target),
{
    let n = ids.len();
    let mut i: usize = 0;
    while i < n
        invariant
            n == ids@.len(),
            i <= n,
            forall|j: int| 0 <= j < i ==> ids@[j] != target,
        decreases n - i,
    {
        if ids[i] == target {
            return true;
        }
        i += 1;
    }
    proof {
        if ids@.contains(target) {
            let j = choose|j: int| 0 <= j < ids@.len() && ids@[j] == target;
        }
    }
    false
}

/// Whether the social-graph check must fetch another page: always the
/// first one, and then only while the account was not found and the
/// provider offers a continuation token.
pub fn should_fetch_next_page(
    is_first_page: bool,
    is_following: bool,
    has_pagination_token: bool,
) -> (r: bool)
    ensures
        r == (is_first_page || (!is_following && has_pagination_token)),
{
    is_first_page || (!is_following && has_pagination_token)
}

/// Whether the social-graph condition admits the claim: always when
/// verification is switched off, else exactly when the identity follows
/// the required account. A failed condition is a hard rejection before
/// any store or dispatcher interaction.
pub fn social_condition_met(verify_following_webb: bool, is_following_webb: bool) -> (r: bool)
    ensures
        r == (!verify_following_webb || is_following_webb),
{
    !verify_following_webb || is_following_webb
}


/// What the chain round trips of one job yielded, by family.
#[derive(Clone, Copy, Debug, PartialEq, Eq)]
pub enum ChainEvent {
    /// An EVM job's round trips: the contract's declared decimals and the
    /// submission outcome.
    Evm { decimals: u8, submission: crate::dispatcher::EvmSubmission },
    /// A Substrate job's round trip.
    Substrate { submission: crate::dispatcher::SubstrateSubmission },
}

impl ChainEvent {
    /// Whether this event belongs to the given chain's family.
    pub open spec fn spec_matches_family(&self, chain: TypedChainId) -> bool {
        match (self, chain) {
            (ChainEvent::Evm { .. }, TypedChainId::Evm(_)) => true,
            (ChainEvent::Substrate { .. }, TypedChainId::Substrate(_)) => true,
            _ => false,
        }
    }
}

/// The result the dispatcher hands back for the one job a request
/// enqueues, as a function of the job and its chain events.
pub open spec fn spec_dispatch_result(
    request: FaucetRequest,
    config: FaucetConfig,
    registry: &ChainRegistry,
    event: ChainEvent,
) -> Result<TxResult, DispatchError> {
    match (request.typed_chain_id, event) {
        (TypedChainId::Evm(chain_id), ChainEvent::Evm { decimals, submission }) => {
            crate::dispatcher::spec_complete_evm(
                config.token_amount as u128,
                if request.only_native_token {
                    None
                } else {
                    registry.spec_evm_token(chain_id as u64)
                },
                decimals,
                submission,
            )
        },
        (TypedChainId::Substrate(_), ChainEvent::Substrate { submission }) => {
            crate::dispatcher::spec_complete_substrate(None, submission)
        },
        _ => Err(DispatchError::SubmitFailed),
    }
}

/// The single entry point of one claim request, end to end: the
/// eligibility check against the store, the transfer job handed through
/// the dispatcher's queue to its worker, and the settlement of the
/// worker's result. The chain round trips enter as `event`. The ledger
/// and the dispatcher are borrowed mutably for the whole request, so
/// racing requests on one key are serialized.
///
/// A rejected request — out-of-range identity, cooldown active,
/// unsupported chain — never reaches the dispatcher: its queue, worker
/// and results are left exactly as they were. A dispatched request's one
/// result is recorded under `job_id`; on success the claim record is
/// written, on failure the store is left untouched.
pub fn request_claim(
    ledger: &mut ClaimLedger,
    system: &mut TransactionProcessingSystem,
    registry: &ChainRegistry,
    config: &FaucetConfig,
    request: &FaucetRequest,
    identity: u64,
    now: u64,
    job_id: u64,
    event: ChainEvent,
) -> (r: Result<TxResult, FaucetError>)
    requires
        old(ledger).wf(),
        request.spec_family_consistent(),
        event.spec_matches_family(request.typed_chain_id),
        old(system).spec_in_flight() is None,
        old(system).spec_queue().len() == 0,
    ensures
        final(ledger).wf(),
        ({
            let key = ClaimKey { identity, chain: request.typed_chain_id };
            let prev = spec_read_result(old(ledger)@, key);
            if identity > i64::MAX as u64 {
                &&& r == Err::<TxResult, FaucetError>(FaucetError::InvalidIdentity)
                &&& final(ledger)@ == old(ledger)@
                &&& final(system).spec_results() == old(system).spec_results()
                &&& final(system).spec_queue() == old(system).spec_queue()
                &&& final(system).spec_in_flight() is None
            } else if !spec_eligible(prev, now, config.time_to_wait_between_claims) {
                &&& r == Err::<TxResult, FaucetError>(
                    FaucetError::CooldownActive {
                        remaining_ms: spec_remaining(
                            prev.unwrap(),
                            now,
                            config.time_to_wait_between_claims,
                        ),
                    },
                )
                &&& final(ledger)@ == old(ledger)@
                &&& final(system).spec_results() == old(system).spec_results()
                &&& final(system).spec_queue() == old(system).spec_queue()
                &&& final(system).spec_in_flight() is None
            } else if !registry.spec_supports(request.typed_chain_id) {
                &&& r == Err::<TxResult, FaucetError>(FaucetError::UnsupportedChain)
                &&& final(ledger)@ == old(ledger)@
                &&& final(system).spec_results() == old(system).spec_results()
                &&& final(system).spec_queue() == old(system).spec_queue()
                &&& final(system).spec_in_flight() is None
            } else {
                let res = spec_dispatch_result(*request, *config, registry, event);
                &&& final(system).spec_results() == old(system).spec_results().push((job_id, res))
                &&& final(system).spec_queue() == old(system).spec_queue()
                &&& final(system).spec_in_flight() is None
                &&& match res {
                    Ok(tx) => r == Ok::<TxResult, FaucetError>(tx) && final(ledger)@ == old(
                        ledger,
                    )@.insert(
                        key,
                        ClaimsData {
                            identity,
                            address: request.wallet_address.universal(),
                            last_claimed_date: now,
                        },
                    ),
                    Err(e) => r == Err::<TxResult, FaucetError>(
                        FaucetError::TransferFailed { reason: e },
                    ) && final(ledger)@ == old(ledger)@,
                }
            }
        }),
{
    let pending = match begin_claim(
        ledger,
        identity,
        request.typed_chain_id,
        request.wallet_address,
        now,
        config.time_to_wait_between_claims,
    ) {
        Ok(p) => p,
        Err(e) => {
            return Err(e);
        },
    };
    let job = match build_transaction(request, config, registry, job_id) {
        Ok(job) => job,
        Err(e) => {
            return Err(e);
        },
    };
    system.submit(job);
    let dequeued = match system.next_job() {
        Some(j) => j,
        None => {
            // unreachable: the job was just enqueued into an empty queue
            proof {
                assert(false);
            }
            return Err(FaucetError::UnsupportedChain);
        },
    };
    let outcome = match event {
        ChainEvent::Evm { decimals, submission } => {
            let (_, res) = system.complete_evm_job(decimals, submission);
            res
        },
        ChainEvent::Substrate { submission } => {
            let (_, res) = system.complete_substrate_job(submission);
            res
        },
    };
    finish_claim(ledger, pending, outcome)
}

} // verus!
