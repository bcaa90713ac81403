use transact::workload::{BatchWorkload, TransactionWorkload};

struct Counter {
    next: u32,
    limit: u32,
}

impl TransactionWorkload for Counter {
    type TransactionPair = u32;
    type WorkloadError = String;

    fn next_transaction(&mut self) -> Result<u32, String> {
        if self.next < self.limit {
            self.next += 1;
            Ok(self.next)
        } else {
            Err("exhausted".to_string())
        }
    }
}

impl BatchWorkload for Counter {
    type BatchPair = Vec<u32>;
    type WorkloadError = String;

    fn next_batch(&mut self) -> Result<Vec<u32>, String> {
        let first = self.next_transaction()?;
        Ok(vec![first])
    }
}

fn run_transaction_workload<W: TransactionWorkload>(workload: &mut W) {
    assert!(workload.next_transaction().is_ok());
    assert!(workload.next_transaction().is_ok());
}

fn run_batch_workload<W: BatchWorkload>(workload: &mut W) {
    assert!(workload.next_batch().is_ok());
    assert!(workload.next_batch().is_ok());
}

#[test]
fn transaction_workload_hands_out_transactions() {
    let mut counter = Counter { next: 0, limit: 2 };
    run_transaction_workload(&mut counter);
    assert_eq!(counter.next_transaction(), Err("exhausted".to_string()));
}

#[test]
fn batch_workload_hands_out_batches() {
    let mut counter = Counter { next: 0, limit: 5 };
    run_batch_workload(&mut counter);
    assert_eq!(counter.next_batch(), Ok(vec![3]));
}
