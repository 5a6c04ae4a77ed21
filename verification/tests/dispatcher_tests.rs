use webb_faucet::dispatcher::{
    scale_token_amount, EvmSubmission, NonceManager, SubstrateSubmission, Transaction,
    TransactionProcessingSystem, TransactionQueue, TransferPlan, TxResult,
    plan_evm_transfer, plan_substrate_transfer, pow10_u128,
};
use webb_faucet::error::DispatchError;

fn evm_job(job_id: u64, token: Option<[u8; 20]>) -> Transaction {
    Transaction::Evm {
        chain_id: 5,
        to: [1u8; 20],
        amount: 20,
        native_token_amount: 500_000_000_000_000_000,
        token_address: token,
        job_id,
    }
}

fn substrate_job(job_id: u64, asset_id: Option<u32>) -> Transaction {
    Transaction::Substrate {
        chain_id: 1081,
        to: [2u8; 32],
        amount: 20,
        native_token_amount: 500_000_000_000_000_000,
        asset_id,
        job_id,
    }
}

#[test]
fn queue_is_fifo() {
    let mut q = TransactionQueue::new();
    assert!(q.pop().is_none());
    q.push(evm_job(1, None));
    q.push(substrate_job(2, None));
    q.push(evm_job(3, None));
    assert_eq!(q.pop().unwrap().job_id(), 1);
    assert_eq!(q.pop().unwrap().job_id(), 2);
    assert_eq!(q.pop().unwrap().job_id(), 3);
    assert!(q.pop().is_none());
}

#[test]
fn pow10_and_scaling_exact() {
    assert_eq!(pow10_u128(0), Some(1));
    assert_eq!(pow10_u128(18), Some(1_000_000_000_000_000_000));
    assert_eq!(pow10_u128(38), Some(100_000_000_000_000_000_000_000_000_000_000_000_000));
    assert_eq!(pow10_u128(39), None);
    // 20 tokens at 18 decimals
    assert_eq!(scale_token_amount(20, 18), Some(20_000_000_000_000_000_000));
    assert_eq!(scale_token_amount(0, 200), Some(0));
    assert_eq!(scale_token_amount(2, 38), Some(200_000_000_000_000_000_000_000_000_000_000_000_000));
    assert_eq!(scale_token_amount(4, 38), None);
    assert_eq!(scale_token_amount(1, 39), None);
    assert_eq!(scale_token_amount(u128::MAX, 1), None);
    assert_eq!(scale_token_amount(u128::MAX, 0), Some(u128::MAX));
}

#[test]
fn evm_plans() {
    let token = plan_evm_transfer([1u8; 20], 20, 7, Some([3u8; 20]), 18).expect("scales");
    assert_eq!(
        token,
        TransferPlan::EvmToken {
            to: [1u8; 20],
            token_address: [3u8; 20],
            decimal_amount: 20_000_000_000_000_000_000,
        }
    );
    let native = plan_evm_transfer([1u8; 20], 20, 7, None, 18).expect("native");
    assert_eq!(native, TransferPlan::EvmNative { to: [1u8; 20], value: 7, gas: 22000 });
    // overflow in scaling fails the job before submission
    let overflow = plan_evm_transfer([1u8; 20], u128::MAX, 7, Some([3u8; 20]), 18);
    assert_eq!(overflow, Err(DispatchError::AmountOverflow));
}

#[test]
fn substrate_plans() {
    let native = plan_substrate_transfer([2u8; 32], 9, None).expect("native");
    assert_eq!(native, TransferPlan::SubstrateNative { to: [2u8; 32], amount: 9 });
    assert_eq!(
        plan_substrate_transfer([2u8; 32], 9, Some(1)),
        Err(DispatchError::AssetNotSupported)
    );
}

#[test]
fn worker_processes_jobs_in_order_with_one_result_each() {
    let mut q = TransactionQueue::new();
    q.push(evm_job(10, Some([3u8; 20])));
    q.push(substrate_job(11, None));
    q.push(evm_job(12, None));
    let mut sys = TransactionProcessingSystem::new(q);

    let j1 = sys.next_job().expect("job 10");
    assert_eq!(j1.job_id(), 10);
    let (id1, r1) = sys.complete_evm_job(
        18,
        EvmSubmission::Receipt { status: true, tx_hash: [7u8; 32] },
    );
    assert_eq!(id1, 10);
    assert_eq!(r1, Ok(TxResult::Evm { status: true, tx_hash: [7u8; 32] }));

    let j2 = sys.next_job().expect("job 11");
    assert_eq!(j2.job_id(), 11);
    let (id2, r2) = sys.complete_substrate_job(SubstrateSubmission::Submitted { tx_hash: [8u8; 32] });
    assert_eq!(id2, 11);
    assert_eq!(r2, Ok(TxResult::Substrate { block_hash: [8u8; 32], tx_hash: [8u8; 32] }));

    let j3 = sys.next_job().expect("job 12");
    assert_eq!(j3.job_id(), 12);
    let (id3, r3) = sys.complete_evm_job(18, EvmSubmission::Failed);
    assert_eq!(id3, 12);
    assert_eq!(r3, Err(DispatchError::SubmitFailed));

    assert!(sys.next_job().is_none());
}

#[test]
fn failed_job_does_not_stop_the_worker() {
    let mut q = TransactionQueue::new();
    q.push(evm_job(1, Some([3u8; 20])));
    q.push(evm_job(2, None));
    let mut sys = TransactionProcessingSystem::new(q);

    // first job fails with no receipt; the worker proceeds to the next
    sys.next_job().expect("job 1");
    let (_, r1) = sys.complete_evm_job(18, EvmSubmission::NoReceipt);
    assert_eq!(r1, Err(DispatchError::NoReceipt));

    sys.next_job().expect("job 2");
    let (_, r2) = sys.complete_evm_job(18, EvmSubmission::Receipt { status: true, tx_hash: [1u8; 32] });
    assert!(r2.is_ok());
}

#[test]
fn substrate_asset_jobs_fail() {
    let mut q = TransactionQueue::new();
    q.push(substrate_job(5, Some(9)));
    let mut sys = TransactionProcessingSystem::new(q);
    sys.next_job().expect("job 5");
    let (id, r) = sys.complete_substrate_job(SubstrateSubmission::Submitted { tx_hash: [0u8; 32] });
    assert_eq!(id, 5);
    assert_eq!(r, Err(DispatchError::AssetNotSupported));
}

#[test]
fn overflowing_token_amount_fails_before_submission() {
    let mut q = TransactionQueue::new();
    q.push(Transaction::Evm {
        chain_id: 5,
        to: [1u8; 20],
        amount: u128::MAX,
        native_token_amount: 0,
        token_address: Some([3u8; 20]),
        job_id: 1,
    });
    let mut sys = TransactionProcessingSystem::new(q);
    sys.next_job().expect("job");
    let (_, r) = sys.complete_evm_job(18, EvmSubmission::Receipt { status: true, tx_hash: [0u8; 32] });
    assert_eq!(r, Err(DispatchError::AmountOverflow));
}

#[test]
fn nonces_strictly_increase_without_repeats() {
    // N concurrent EVM jobs for one chain drain through the single worker,
    // which assigns each submission the next nonce of that chain's key
    let mut q = TransactionQueue::new();
    let n: usize = 8;
    for i in 0..n {
        q.push(evm_job(i as u64, None));
    }
    let mut sys = TransactionProcessingSystem::new(q);
    let mut nonces = NonceManager::new(100);
    let mut seen: Vec<u64> = Vec::new();
    while let Some(_job) = sys.next_job() {
        let nonce = nonces.assign_nonce();
        seen.push(nonce);
        let (_, r) = sys.complete_evm_job(
            18,
            EvmSubmission::Receipt { status: true, tx_hash: [0u8; 32] },
        );
        assert!(r.is_ok());
    }
    assert_eq!(seen.len(), n);
    for w in seen.windows(2) {
        assert!(w[0] < w[1], "nonces must strictly increase");
    }
    for (i, nonce) in seen.iter().enumerate() {
        assert_eq!(*nonce, 100 + i as u64);
    }
}

#[test]
fn assign_nonces_batch() {
    let mut m = NonceManager::new(5);
    let batch = m.assign_nonces(4);
    assert_eq!(batch, vec![5, 6, 7, 8]);
    assert_eq!(m.assign_nonce(), 9);
}
