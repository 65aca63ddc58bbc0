//! The step that follows the draft: the generated transaction with its
//! inputs and the state of its signatures, ready to be signed and saved.

use crate::btc::clone_psbt;
use crate::coin::Coin;
use crate::spend::TransactionDraft;
use bitcoin::psbt::PartiallySignedTransaction as Psbt;
use std::sync::Arc;
use vstd::prelude::*;

verus! {

/// The wallet that spends.
#[derive(Clone, Debug)]
pub struct Wallet {
    /// The name the user gave the wallet.
    pub name: String,
    /// The descriptor of the wallet, in its text form.
    pub main_descriptor: String,
}

/// How far the signing of a transaction has come.
#[derive(Clone, Copy, Debug, PartialEq, Eq, Structural)]
pub struct PartialSpendInfo {
    /// Number of signatures that the spending path asks for.
    pub threshold: usize,
    /// Number of signatures that the transaction already carries.
    pub sigs_count: usize,
}

/// A spend transaction with what the wallet knows about it.
pub struct SpendTx {
    /// When the transaction was last stored; `None` while it never was.
    pub updated_at: Option<u32>,
    /// The transaction.
    pub psbt: Psbt,
    /// The coins that it spends.
    pub coins: Vec<Coin>,
    /// The state of its signatures.
    pub sigs: PartialSpendInfo,
}

/// A spend transaction on the screen that signs and saves it.
pub struct PsbtState {
    /// The transaction.
    pub tx: SpendTx,
    /// Whether the transaction was stored by the daemon.
    pub saved: bool,
}

/// The step that shows the generated transaction.
pub struct SaveSpend {
    wallet: Arc<Wallet>,
    spend: Option<PsbtState>,
}

impl SaveSpend {
    /// The step before any transaction was handed to it.
    pub fn new(wallet: Arc<Wallet>) -> (r: Self)
        ensures
            r.wallet() == wallet,
            r.spend().is_none(),
    {
        Self { wallet, spend: None }
    }

    /// The wallet that this step was made for.
    pub closed spec fn wallet(&self) -> Arc<Wallet> {
        self.wallet
    }

    /// The transaction that this step shows, once it was loaded.
    pub closed spec fn spend(&self) -> Option<PsbtState> {
        self.spend
    }

    /// Takes the transaction and its inputs from a draft. `sigs` is the
    /// state of the transaction's signatures, as the wallet's descriptor
    /// tells it. The transaction counts as neither stored nor saved.
    pub fn load(&mut self, draft: &TransactionDraft, sigs: PartialSpendInfo)
        requires
            draft.generated.is_some(),
        ensures
            final(self).wallet() == old(self).wallet(),
            final(self).spend().is_some(),
            final(self).spend().unwrap().tx.psbt == draft.generated.unwrap(),
            final(self).spend().unwrap().tx.coins@ == draft.inputs@,
            final(self).spend().unwrap().tx.sigs == sigs,
            final(self).spend().unwrap().tx.updated_at.is_none(),
            !final(self).spend().unwrap().saved,
    {
        let psbt: Psbt = match &draft.generated {
            Some(psbt) => clone_psbt(psbt),
            None => {
                return ;
            },
        };
        let mut coins: Vec<Coin> = Vec::new();
        let mut i: usize = 0;
        while i < draft.inputs.len()
            invariant
                0 <= i <= draft.inputs.len(),
                coins@ == draft.inputs@.subrange(0, i as int),
            decreases draft.inputs.len() - i,
        {
            coins.push(draft.inputs[i]);
            proof {
                assert(coins@ =~= draft.inputs@.subrange(0, i + 1));
            }
            i = i + 1;
        }
        proof {
            assert(draft.inputs@.subrange(0, i as int) =~= draft.inputs@);
        }
        self.spend = Some(PsbtState { tx: SpendTx { updated_at: None, psbt, coins, sigs }, saved: false });
    }

    /// The transaction that this step shows, once it was loaded.
    pub fn loaded(&self) -> (r: &Option<PsbtState>)
        ensures
            *r == self.spend(),
    {
        &self.spend
    }

    /// The wallet that this step was made for.
    pub fn wallet_ref(&self) -> (r: &Arc<Wallet>)
        ensures
            *r == self.wallet(),
    {
        &self.wallet
    }
}

} // verus!
