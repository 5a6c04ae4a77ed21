//! The transaction dispatcher: one writer for all outbound transfers.
//!
//! Requesters enqueue transfer jobs; a single worker dequeues them in FIFO
//! order and processes them one at a time, so signing state such as the
//! per-chain nonce is mutated by exactly one actor. Each job carries a job
//! id standing for its single-use result channel; completing a job records
//! exactly one result under that id. The chain round trips themselves
//! (decimals lookup, submission, receipt wait) happen outside; their
//! outcomes enter as plain values, and every decision taken over them is
//! verified here.

use vstd::prelude::*;
use vstd::arithmetic::power::{lemma_pow_increases, pow};
use crate::error::DispatchError;

verus! {

/// Success evidence of one processed transfer, handed back to the
/// requester as an opaque value.
#[derive(Clone, Copy, Debug, PartialEq, Eq)]
pub enum TxResult {
    /// A mined EVM transaction: its receipt status and hash.
    Evm { status: bool, tx_hash: [u8; 32] },
    /// A submitted Substrate extrinsic.
    Substrate { block_hash: [u8; 32], tx_hash: [u8; 32] },
}

/// One transfer job, handed by value from the claim flow to the
/// dispatcher. The job id stands for the single-use result channel: the
/// dispatcher records exactly one result under it.
#[derive(Clone, Copy, Debug, PartialEq, Eq)]
pub enum Transaction {
    Evm {
        /// The EVM chain to pay out on.
        chain_id: u64,
        /// The destination address.
        to: [u8; 20],
        /// Tokens to transfer, before decimal scaling.
        amount: u128,
        /// Native currency to transfer, in its smallest unit.
        native_token_amount: u128,
        /// The token contract; `None` means a native-only transfer.
        token_address: Option<[u8; 20]>,
        /// Stands for the result channel of this job.
        job_id: u64,
    },
    Substrate {
        /// The Substrate chain to pay out on.
        chain_id: u64,
        /// The destination account.
        to: [u8; 32],
        /// Tokens to transfer; unused, Substrate pays native only.
        amount: u128,
        /// Native currency to transfer, in its smallest unit.
        native_token_amount: u128,
        /// An asset id, which this scope never supports.
        asset_id: Option<u32>,
        /// Stands for the result channel of this job.
        job_id: u64,
    },
}

impl Transaction {
    /// The id under which this job's one result is recorded.
    pub open spec fn spec_job_id(&self) -> u64 {
        match self {
            Transaction::Evm { job_id, .. } => *job_id,
            Transaction::Substrate { job_id, .. } => *job_id,
        }
    }

    /// The id under which this job's one result is recorded.
    pub fn job_id(&self) -> (r: u64)
        ensures
            r == self.spec_job_id(),
    {
        match self {
            Transaction::Evm { job_id, .. } => *job_id,
            Transaction::Substrate { job_id, .. } => *job_id,
        }
    }
}

/// The unbounded, order-preserving job queue between requesters and the
/// worker.
pub struct TransactionQueue {
    queue: std::collections::VecDeque<Transaction>,
}

impl View for TransactionQueue {
    type V = Seq<Transaction>;

    closed spec fn view(&self) -> Seq<Transaction> {
        self.queue@
    }
}

impl TransactionQueue {
    /// An empty queue.
    pub fn new() -> (r: TransactionQueue)
        ensures
            r@ == Seq::<Transaction>::empty(),
    {
        let r = TransactionQueue { queue: std::collections::VecDeque::new() };
        proof {
            assert(r@ =~= Seq::<Transaction>::empty());
        }
        r
    }

    /// Enqueues one job at the back: order of enqueued jobs is preserved.
    pub fn push(&mut self, transaction: Transaction)
        ensures
            final(self)@ == old(self)@.push(transaction),
    {
        self.queue.push_back(transaction);
    }

    /// Dequeues the oldest job, or `None` on an empty queue.
    pub fn pop(&mut self) -> (r: Option<Transaction>)
        ensures
            match r {
                Some(t) => old(self)@.len() > 0 && t == old(self)@[0] && final(self)@ == old(
                    self,
                )@.drop_first(),
                None => old(self)@.len() == 0 && final(self)@ == old(self)@,
            },
    {
        let r = self.queue.pop_front();
        proof {
            if old(self)@.len() > 0 {
                assert(self.queue@ =~= old(self)@.drop_first());
            }
        }
        r
    }
}

/// Ten to the `e`th, when it fits the word; `None` past the end of the
/// range.
pub fn pow10_u128(e: u8) -> (r: Option<u128>)
    ensures
        match r {
            Some(p) => p == pow(10, e as nat) && pow(10, e as nat) <= u128::MAX,
            None => pow(10, e as nat) > u128::MAX,
        },
{
    let mut acc: u128 = 1;
    let mut i: u8 = 0;
    proof {
        vstd::arithmetic::power::lemma_pow0(10);
    }
    while i < e
        invariant
            i <= e,
            acc == pow(10, i as nat),
        decreases e - i,
    {
        proof {
            reveal(pow);
            assert(pow(10, (i + 1) as nat) == 10 * pow(10, i as nat));
        }
        acc = match acc.checked_mul(10) {
            Some(v) => v,
            None => {
                proof {
                    lemma_pow_increases(10, (i + 1) as nat, e as nat);
                }
                return None;
            },
        };
        i += 1;
    }
    Some(acc)
}

/// The scaled on-chain amount of a token transfer: the requested amount
/// times ten to the contract's declared decimals, when that fits the
/// word.
pub open spec fn spec_scale_token_amount(amount: u128, decimals: u8) -> Option<u128> {
    if amount * pow(10, decimals as nat) <= u128::MAX {
        Some((amount * pow(10, decimals as nat)) as u128)
    } else {
        None
    }
}

/// Scales a token amount by the contract's declared decimals; `None` when
/// the scaled amount overflows.
pub fn scale_token_amount(amount: u128, decimals: u8) -> (r: Option<u128>)
    ensures
        r == spec_scale_token_amount(amount, decimals),
{
    if amount == 0 {
        return Some(0);
    }
    match pow10_u128(decimals) {
        Some(p) => {
            let r = amount.checked_mul(p);
            proof {
                if r is None {
                    assert(amount * p > u128::MAX);
                }
            }
            r
        },
        None => {
            proof {
                assert(amount * pow(10, decimals as nat) >= pow(10, decimals as nat)) by (nonlinear_arith)
                    requires
                        amount >= 1,
                        pow(10, decimals as nat) >= 0,
                ;
            }
            None
        },
    }
}

/// What the worker submits for one job, after its chain round trips.
#[derive(Clone, Copy, Debug, PartialEq, Eq)]
pub enum TransferPlan {
    /// A token `transfer` call on the contract, pre-scaled by its
    /// decimals.
    EvmToken { to: [u8; 20], token_address: [u8; 20], decimal_amount: u128 },
    /// A native value transfer with a fixed gas allowance.
    EvmNative { to: [u8; 20], value: u128, gas: u64 },
    /// A native balance transfer extrinsic.
    SubstrateNative { to: [u8; 32], amount: u128 },
}

/// The plan an EVM job resolves to, once the contract's decimals are
/// known: a token transfer when the job names a contract, a native
/// transfer otherwise. Only the scaled amount can fail.
pub open spec fn spec_plan_evm_transfer(
    to: [u8; 20],
    amount: u128,
    native_token_amount: u128,
    token_address: Option<[u8; 20]>,
    decimals: u8,
) -> Result<TransferPlan, DispatchError> {
    match token_address {
        Some(token) => match spec_scale_token_amount(amount, decimals) {
            Some(decimal_amount) => Ok(
                TransferPlan::EvmToken { to, token_address: token, decimal_amount },
            ),
            None => Err(DispatchError::AmountOverflow),
        },
        None => Ok(TransferPlan::EvmNative { to, value: native_token_amount, gas: 22000u64 }),
    }
}

/// Resolves an EVM job to the transaction the worker submits: an
/// ERC20-style `transfer` call pre-scaled by the contract's declared
/// decimals when the job carries a token contract, a native value
/// transfer otherwise.
pub fn plan_evm_transfer(
    to: [u8; 20],
    amount: u128,
    native_token_amount: u128,
    token_address: Option<[u8; 20]>,
    decimals: u8,
) -> (r: Result<TransferPlan, DispatchError>)
    ensures
        r == spec_plan_evm_transfer(to, amount, native_token_amount, token_address, decimals),
{
    match token_address {
        Some(token) => match scale_token_amount(amount, decimals) {
            Some(decimal_amount) => Ok(
                TransferPlan::EvmToken { to, token_address: token, decimal_amount },
            ),
            None => Err(DispatchError::AmountOverflow),
        },
        None => Ok(TransferPlan::EvmNative { to, value: native_token_amount, gas: 22000 }),
    }
}

/// The plan a Substrate job resolves to: only native transfers are
/// supported; naming an asset id fails the job.
pub open spec fn spec_plan_substrate_transfer(
    to: [u8; 32],
    native_token_amount: u128,
    asset_id: Option<u32>,
) -> Result<TransferPlan, DispatchError> {
    match asset_id {
        Some(_) => Err(DispatchError::AssetNotSupported),
        None => Ok(TransferPlan::SubstrateNative { to, amount: native_token_amount }),
    }
}

/// Resolves a Substrate job to the extrinsic the worker submits; a job
/// naming an asset id fails, since only native transfers are supported.
pub fn plan_substrate_transfer(to: [u8; 32], native_token_amount: u128, asset_id: Option<u32>) -> (r:
    Result<TransferPlan, DispatchError>)
    ensures
        r == spec_plan_substrate_transfer(to, native_token_amount, asset_id),
{
    match asset_id {
        Some(_) => Err(DispatchError::AssetNotSupported),
        None => Ok(TransferPlan::SubstrateNative { to, amount: native_token_amount }),
    }
}

/// How an EVM submission round trip ended, as reported by the chain
/// client.
#[derive(Clone, Copy, Debug, PartialEq, Eq)]
pub enum EvmSubmission {
    /// Mined: a receipt with its status and transaction hash.
    Receipt { status: bool, tx_hash: [u8; 32] },
    /// Submitted, but no receipt came back.
    NoReceipt,
    /// The submission call itself failed.
    Failed,
}

/// How a Substrate submission round trip ended.
#[derive(Clone, Copy, Debug, PartialEq, Eq)]
pub enum SubstrateSubmission {
    /// Signed, submitted and watched: the extrinsic hash.
    Submitted { tx_hash: [u8; 32] },
    /// The submission call failed.
    Failed,
}

/// The one result an EVM job yields for each way its round trips can end.
pub open spec fn spec_complete_evm(
    amount: u128,
    token_address: Option<[u8; 20]>,
    decimals: u8,
    submission: EvmSubmission,
) -> Result<TxResult, DispatchError> {
    if token_address is Some && spec_scale_token_amount(amount, decimals) is None {
        Err(DispatchError::AmountOverflow)
    } else {
        match submission {
            EvmSubmission::Receipt { status, tx_hash } => Ok(TxResult::Evm { status, tx_hash }),
            EvmSubmission::NoReceipt => Err(DispatchError::NoReceipt),
            EvmSubmission::Failed => Err(DispatchError::SubmitFailed),
        }
    }
}

/// The one result a Substrate job yields: the extrinsic hash doubles as
/// the block hash, since finality is not awaited in this scope.
pub open spec fn spec_complete_substrate(
    asset_id: Option<u32>,
    submission: SubstrateSubmission,
) -> Result<TxResult, DispatchError> {
    if asset_id is Some {
        Err(DispatchError::AssetNotSupported)
    } else {
        match submission {
            SubstrateSubmission::Submitted { tx_hash } => Ok(
                TxResult::Substrate { block_hash: tx_hash, tx_hash },
            ),
            SubstrateSubmission::Failed => Err(DispatchError::SubmitFailed),
        }
    }
}

/// Sequences the nonces of one signing key on one chain. Owned by the
/// dispatcher worker alone: no other component ever assigns a nonce.
#[derive(Clone, Copy, Debug, PartialEq, Eq, Structural)]
pub struct NonceManager {
    /// The next nonce to hand out.
    pub next: u64,
}

impl NonceManager {
    /// A manager starting at the key's current on-chain nonce.
    pub fn new(start: u64) -> (r: NonceManager)
        ensures
            r.next == start,
    {
        NonceManager { next: start }
    }

    /// Hands out the next nonce, exactly once: no two assignments from
    /// one manager ever return the same value.
    pub fn assign_nonce(&mut self) -> (r: u64)
        requires
            old(self).next < u64::MAX,
        ensures
            r == old(self).next,
            final(self).next == old(self).next + 1,
    {
        let r = self.next;
        self.next = self.next + 1;
        r
    }

    /// Assigns nonces to `count` jobs in submission order.
    pub fn assign_nonces(&mut self, count: usize) -> (r: Vec<u64>)
        requires
            old(self).next + count <= u64::MAX,
        ensures
            r@ == Seq::new(count as nat, |i: int| (old(self).next + i) as u64),
            final(self).next == old(self).next + count,
    {
        let mut r: Vec<u64> = Vec::new();
        let mut i: usize = 0;
        while i < count
            invariant
                i <= count,
                self.next == old(self).next + i,
                old(self).next + count <= u64::MAX,
                r@.len() == i,
                forall|j: int| 0 <= j < i ==> r@[j] == old(self).next + j,
            decreases count - i,
        {
            let n = self.assign_nonce();
            r.push(n);
            i += 1;
        }
        proof {
            assert(r@ =~= Seq::new(count as nat, |i: int| (old(self).next + i) as u64));
        }
        r
    }
}

/// Nonces assigned in sequence never collide: over any run of
/// assignments from one manager, the nonces are strictly increasing, so
/// no two jobs share one.
pub proof fn lemma_no_nonce_collision(s: Seq<u64>, base: u64, count: nat)
    requires
        base + count <= u64::MAX + 1,
        s == Seq::new(count, |i: int| (base + i) as u64),
    ensures
        forall|i: int, j: int| 0 <= i < j < count ==> s[i] < s[j],
{
}

/// The single consumer of the job queue. It dequeues jobs strictly one at
/// a time: a dequeued job must be completed — one recorded result under
/// its id — before the next can be dequeued, so every job yields exactly
/// one result and results follow queue order.
pub struct TransactionProcessingSystem {
    queue: TransactionQueue,
    in_flight: Option<Transaction>,
    results: Vec<(u64, Result<TxResult, DispatchError>)>,
}

impl TransactionProcessingSystem {
    /// The jobs waiting to be processed, oldest first.
    pub closed spec fn spec_queue(&self) -> Seq<Transaction> {
        self.queue@
    }

    /// The dequeued job whose chain round trips are under way, if any.
    pub closed spec fn spec_in_flight(&self) -> Option<Transaction> {
        self.in_flight
    }

    /// Every result recorded so far, in processing order: one per
    /// completed job, under the job's id.
    pub closed spec fn spec_results(&self) -> Seq<(u64, Result<TxResult, DispatchError>)> {
        self.results@
    }

    /// Takes ownership of the queue's consumer side.
    pub fn new(queue: TransactionQueue) -> (r: TransactionProcessingSystem)
        ensures
            r.spec_queue() == queue@,
            r.spec_in_flight() is None,
            r.spec_results() == Seq::<(u64, Result<TxResult, DispatchError>)>::empty(),
    {
        let r = TransactionProcessingSystem { queue, in_flight: None, results: Vec::new() };
        proof {
            assert(r.spec_results() =~= Seq::<(u64, Result<TxResult, DispatchError>)>::empty());
        }
        r
    }

    /// Enqueues one job from a requester. Producers may race to enqueue;
    /// once enqueued, a job's position is fixed.
    pub fn submit(&mut self, transaction: Transaction)
        ensures
            final(self).spec_queue() == old(self).spec_queue().push(transaction),
            final(self).spec_in_flight() == old(self).spec_in_flight(),
            final(self).spec_results() == old(self).spec_results(),
    {
        self.queue.push(transaction);
    }

    /// Dequeues the oldest waiting job and marks it in flight. Only
    /// callable between jobs: the previous job must have been completed.
    pub fn next_job(&mut self) -> (r: Option<Transaction>)
        requires
            old(self).spec_in_flight() is None,
        ensures
            match r {
                Some(t) => {
                    &&& old(self).spec_queue().len() > 0
                    &&& t == old(self).spec_queue()[0]
                    &&& final(self).spec_queue() == old(self).spec_queue().drop_first()
                    &&& final(self).spec_in_flight() == Some(t)
                },
                None => {
                    &&& old(self).spec_queue().len() == 0
                    &&& final(self).spec_queue() == old(self).spec_queue()
                    &&& final(self).spec_in_flight() is None
                },
            },
            final(self).spec_results() == old(self).spec_results(),
    {
        let r = self.queue.pop();
        self.in_flight = r;
        r
    }

    /// Completes the in-flight EVM job with the outcomes of its chain
    /// round trips, recording the job's one result under its id. The
    /// worker proceeds whatever the outcome was: a failed job fails that
    /// job alone.
    pub fn complete_evm_job(&mut self, decimals: u8, submission: EvmSubmission) -> (r: (
        u64,
        Result<TxResult, DispatchError>,
    ))
        requires
            old(self).spec_in_flight() matches Some(job) && job is Evm,
        ensures
            ({
                let job = old(self).spec_in_flight().unwrap();
                &&& r.0 == job.spec_job_id()
                &&& r.1 == spec_complete_evm(
                    job->Evm_amount,
                    job->Evm_token_address,
                    decimals,
                    submission,
                )
                &&& final(self).spec_results() == old(self).spec_results().push(r)
                &&& final(self).spec_in_flight() is None
                &&& final(self).spec_queue() == old(self).spec_queue()
            }),
    {
        let job = self.in_flight.unwrap();
        self.in_flight = None;
        match job {
            Transaction::Evm { amount, token_address, job_id, .. } => {
                let scaled: Option<u128> = match token_address {
                    Some(_) => scale_token_amount(amount, decimals),
                    None => Some(0),
                };
                let res: Result<TxResult, DispatchError> = match (token_address, scaled) {
                    (Some(_), None) => Err(DispatchError::AmountOverflow),
                    _ => match submission {
                        EvmSubmission::Receipt { status, tx_hash } => Ok(
                            TxResult::Evm { status, tx_hash },
                        ),
                        EvmSubmission::NoReceipt => Err(DispatchError::NoReceipt),
                        EvmSubmission::Failed => Err(DispatchError::SubmitFailed),
                    },
                };
                self.results.push((job_id, res));
                (job_id, res)
            },
            Transaction::Substrate { job_id, .. } => {
                // unreachable: the precondition pins the job family
                proof {
                    assert(false);
                }
                (job_id, Err(DispatchError::SubmitFailed))
            },
        }
    }

    /// Completes the in-flight Substrate job, recording its one result.
    pub fn complete_substrate_job(&mut self, submission: SubstrateSubmission) -> (r: (
        u64,
        Result<TxResult, DispatchError>,
    ))
        requires
            old(self).spec_in_flight() matches Some(job) && job is Substrate,
        ensures
            ({
                let job = old(self).spec_in_flight().unwrap();
                &&& r.0 == job.spec_job_id()
                &&& r.1 == spec_complete_substrate(job->Substrate_asset_id, submission)
                &&& final(self).spec_results() == old(self).spec_results().push(r)
                &&& final(self).spec_in_flight() is None
                &&& final(self).spec_queue() == old(self).spec_queue()
            }),
    {
        let job = self.in_flight.unwrap();
        self.in_flight = None;
        match job {
            Transaction::Substrate { asset_id, job_id, .. } => {
                let res: Result<TxResult, DispatchError> = match asset_id {
                    Some(_) => Err(DispatchError::AssetNotSupported),
                    None => match submission {
                        SubstrateSubmission::Submitted { tx_hash } => Ok(
                            TxResult::Substrate { block_hash: tx_hash, tx_hash },
                        ),
                        SubstrateSubmission::Failed => Err(DispatchError::SubmitFailed),
                    },
                };
                self.results.push((job_id, res));
                (job_id, res)
            },
            Transaction::Evm { job_id, .. } => {
                // unreachable: the precondition pins the job family
                proof {
                    assert(false);
                }
                (job_id, Err(DispatchError::SubmitFailed))
            },
        }
    }
}

} // verus!
