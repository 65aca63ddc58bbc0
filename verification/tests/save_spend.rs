use bitcoin::psbt::PartiallySignedTransaction as Psbt;
use spend_draft::coin::{Coin, OutPoint};
use spend_draft::save::{PartialSpendInfo, SaveSpend, Wallet};
use spend_draft::spend::TransactionDraft;
use std::sync::Arc;

fn wallet() -> Arc<Wallet> {
    Arc::new(Wallet { name: "savings".to_string(), main_descriptor: "wsh(...)".to_string() })
}

#[test]
fn a_new_step_shows_nothing() {
    let step = SaveSpend::new(wallet());
    assert!(step.loaded().is_none());
    assert_eq!(step.wallet_ref().name, "savings");
}

#[test]
fn loading_takes_the_transaction_and_its_inputs() {
    let psbt = Psbt::from_unsigned_tx(bitcoin::Transaction {
        version: 2,
        lock_time: bitcoin::absolute::LockTime::ZERO,
        input: vec![],
        output: vec![],
    })
    .unwrap();
    let inputs = vec![Coin {
        amount: 9,
        outpoint: OutPoint { txid: [1; 32], vout: 4 },
        block_height: None,
        spend_info: None,
    }];
    let draft = TransactionDraft { inputs: inputs.clone(), generated: Some(psbt.clone()) };
    let mut step = SaveSpend::new(wallet());
    step.load(&draft, PartialSpendInfo { threshold: 2, sigs_count: 0 });
    let spend = step.loaded().as_ref().expect("loaded");
    assert_eq!(spend.tx.psbt, psbt);
    assert_eq!(spend.tx.coins, inputs);
    assert_eq!(spend.tx.sigs, PartialSpendInfo { threshold: 2, sigs_count: 0 });
    assert_eq!(spend.tx.updated_at, None);
    assert!(!spend.saved);
    assert_eq!(step.wallet_ref().main_descriptor, "wsh(...)");
}
