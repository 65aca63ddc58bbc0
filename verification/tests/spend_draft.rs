use bitcoin::psbt::PartiallySignedTransaction as Psbt;
use spend_draft::coin::{Coin, OutPoint, SpendInfo};
use spend_draft::network::Network;
use spend_draft::recipient::RecipientField;
use spend_draft::spend::{
    all_recipients_valid, collect_payments, repeats_earlier_address, some_address_repeated,
    some_coin_selected, Action, CreateSpendMessage, DefineSpend, Message, Payment, SpendRequest,
    TransactionDraft,
};

const ADDRESS_A: &str = "bc1qar0srrr7xfkvy5l643lydnw9re59gtzzwf5mdq";
const ADDRESS_B: &str = "bc1qrp33g0q5c5txsp9arysrx4k6zdkfs4nce4xj0gdcccefvpysxf3qccfmv3";

fn coin(amount: u64, height: Option<i32>, vout: u32) -> Coin {
    Coin { amount, outpoint: OutPoint { txid: [3; 32], vout }, block_height: height, spend_info: None }
}

fn edit(draft: &mut DefineSpend, message: CreateSpendMessage) -> Action {
    draft.update(Network::Bitcoin, Message::CreateSpend(message))
}

fn set_recipient(draft: &mut DefineSpend, at: usize, address: &str, amount: &str) {
    edit(draft, CreateSpendMessage::RecipientEdited(at, RecipientField::Address, address.to_string()));
    edit(draft, CreateSpendMessage::RecipientEdited(at, RecipientField::Amount, amount.to_string()));
}

fn is_stay(action: &Action) -> bool {
    matches!(action, Action::Stay)
}

fn empty_psbt() -> Psbt {
    Psbt::from_unsigned_tx(bitcoin::Transaction {
        version: 2,
        lock_time: bitcoin::absolute::LockTime::ZERO,
        input: vec![],
        output: vec![],
    })
    .unwrap()
}

fn one_coin_draft() -> DefineSpend {
    DefineSpend::new(1_000, vec![coin(1_000_000, Some(100), 0)], 10, 200)
}

#[test]
fn a_new_draft_has_one_empty_recipient_and_nothing_selected() {
    let spent = Coin {
        amount: 77,
        outpoint: OutPoint { txid: [3; 32], vout: 9 },
        block_height: Some(1),
        spend_info: Some(SpendInfo { txid: [4; 32], height: Some(5) }),
    };
    let draft = DefineSpend::new(
        1_000,
        vec![coin(5, Some(300), 0), spent, coin(7, Some(100), 1), coin(9, Some(100), 2)],
        100,
        120,
    );
    assert_eq!(draft.balance_available(), 21);
    assert_eq!(draft.recipients().len(), 1);
    assert!(!draft.recipients()[0].valid());
    assert!(draft.recipients()[0].address().value.is_empty());
    assert!(!draft.is_valid());
    assert!(!draft.is_duplicate());
    assert_eq!(draft.amount_left(), None);
    assert_eq!(draft.timelock(), 100);
    assert!(draft.feerate().value.is_empty());
    assert!(draft.feerate().valid);
    assert!(draft.warning().is_none());
    assert!(draft.generated().is_none());
    let offered: Vec<(u32, bool)> = draft.coins().iter().map(|(c, s)| (c.outpoint.vout, *s)).collect();
    assert_eq!(offered, vec![(2, false), (1, false), (0, false)]);
}

#[test]
fn example_amount_left_after_feerate_and_selection() {
    let mut draft = one_coin_draft();
    set_recipient(&mut draft, 0, ADDRESS_A, "0.0005");
    assert_eq!(draft.amount_left(), None);
    assert!(is_stay(&edit(&mut draft, CreateSpendMessage::FeerateEdited("10".to_string()))));
    // no coin selected: (41 + 43) * 10 + 50_000
    assert_eq!(draft.amount_left(), Some(50_840));
    assert!(!draft.is_valid());
    assert!(is_stay(&edit(&mut draft, CreateSpendMessage::SelectCoin(0))));
    // (82 + 250 + 43) * 10 + 50_000 = 53_750 is covered by 1_000_000
    assert_eq!(draft.amount_left(), Some(0));
    assert!(draft.is_valid());
}

#[test]
fn amount_left_is_positive_only_while_the_need_exceeds_the_selection() {
    let mut draft = DefineSpend::new(1_000, vec![coin(53_749, Some(100), 0), coin(1, Some(100), 1)], 10, 200);
    set_recipient(&mut draft, 0, ADDRESS_A, "0.0005");
    edit(&mut draft, CreateSpendMessage::FeerateEdited("10".to_string()));
    edit(&mut draft, CreateSpendMessage::SelectCoin(0));
    assert_eq!(draft.amount_left(), Some(1));
    edit(&mut draft, CreateSpendMessage::SelectCoin(1));
    // the second input adds 41 + 250 virtual bytes
    assert_eq!(draft.amount_left(), Some(2_910));
}

#[test]
fn toggling_a_coin_twice_restores_the_draft() {
    let mut draft = DefineSpend::new(1_000, vec![coin(40_000, Some(100), 0), coin(30_000, Some(100), 1)], 10, 200);
    set_recipient(&mut draft, 0, ADDRESS_A, "0.0005");
    edit(&mut draft, CreateSpendMessage::FeerateEdited("10".to_string()));
    edit(&mut draft, CreateSpendMessage::SelectCoin(1));
    let left = draft.amount_left();
    let balance = draft.balance_available();
    let valid = draft.is_valid();
    let coins = draft.coins().clone();
    edit(&mut draft, CreateSpendMessage::SelectCoin(0));
    assert_ne!(draft.amount_left(), left);
    assert_eq!(draft.balance_available(), balance);
    edit(&mut draft, CreateSpendMessage::SelectCoin(0));
    assert_eq!(draft.amount_left(), left);
    assert_eq!(draft.balance_available(), balance);
    assert_eq!(draft.is_valid(), valid);
    assert_eq!(draft.coins(), &coins);
}

#[test]
fn selecting_a_coin_that_is_not_there_changes_nothing() {
    let mut draft = one_coin_draft();
    edit(&mut draft, CreateSpendMessage::FeerateEdited("10".to_string()));
    let left = draft.amount_left();
    assert!(is_stay(&edit(&mut draft, CreateSpendMessage::SelectCoin(1))));
    assert!(is_stay(&edit(&mut draft, CreateSpendMessage::SelectCoin(usize::MAX))));
    assert_eq!(draft.amount_left(), left);
    assert_eq!(draft.coins(), &vec![(coin(1_000_000, Some(100), 0), false)]);
}

#[test]
fn no_spend_without_a_selected_coin() {
    let mut draft = one_coin_draft();
    set_recipient(&mut draft, 0, ADDRESS_A, "0.0005");
    edit(&mut draft, CreateSpendMessage::FeerateEdited("10".to_string()));
    assert!(!draft.is_valid());
    edit(&mut draft, CreateSpendMessage::SelectCoin(0));
    assert!(draft.is_valid());
    edit(&mut draft, CreateSpendMessage::SelectCoin(0));
    assert!(!draft.is_valid());
}

#[test]
fn the_same_address_twice_is_a_duplicate_and_blocks_the_spend() {
    let mut draft = one_coin_draft();
    set_recipient(&mut draft, 0, ADDRESS_A, "0.0005");
    edit(&mut draft, CreateSpendMessage::FeerateEdited("10".to_string()));
    edit(&mut draft, CreateSpendMessage::SelectCoin(0));
    assert!(draft.is_valid());
    edit(&mut draft, CreateSpendMessage::AddRecipient);
    assert!(!draft.is_valid());
    assert!(!draft.is_duplicate());
    set_recipient(&mut draft, 1, ADDRESS_A, "0.0007");
    assert!(draft.recipients()[0].valid());
    assert!(draft.recipients()[1].valid());
    assert!(draft.is_duplicate());
    assert!(!draft.is_valid());
    assert!(!repeats_earlier_address(draft.recipients(), 0));
    assert!(repeats_earlier_address(draft.recipients(), 1));

    set_recipient(&mut draft, 1, ADDRESS_B, "0.0007");
    assert!(!draft.is_duplicate());
    assert!(draft.is_valid());
}

#[test]
fn empty_addresses_are_no_duplicates() {
    let mut draft = one_coin_draft();
    edit(&mut draft, CreateSpendMessage::AddRecipient);
    edit(&mut draft, CreateSpendMessage::AddRecipient);
    assert_eq!(draft.recipients().len(), 3);
    assert!(!draft.is_duplicate());
    assert!(!some_address_repeated(draft.recipients()));
    assert!(!all_recipients_valid(draft.recipients()));
}

#[test]
fn deleting_a_recipient_removes_it_and_judges_again() {
    let mut draft = one_coin_draft();
    set_recipient(&mut draft, 0, ADDRESS_A, "0.0005");
    edit(&mut draft, CreateSpendMessage::AddRecipient);
    set_recipient(&mut draft, 1, ADDRESS_A, "0.0007");
    edit(&mut draft, CreateSpendMessage::AddRecipient);
    set_recipient(&mut draft, 2, ADDRESS_B, "0.0009");
    edit(&mut draft, CreateSpendMessage::FeerateEdited("1".to_string()));
    edit(&mut draft, CreateSpendMessage::SelectCoin(0));
    assert!(draft.is_duplicate());
    assert!(!draft.is_valid());
    assert!(is_stay(&edit(&mut draft, CreateSpendMessage::DeleteRecipient(0))));
    assert_eq!(draft.recipients().len(), 2);
    assert_eq!(draft.recipients()[0].amount(), Ok(70_000));
    assert_eq!(draft.recipients()[1].address().value, ADDRESS_B);
    assert!(!draft.is_duplicate());
    assert!(draft.is_valid());
}

#[test]
fn feerate_edits() {
    let mut draft = one_coin_draft();
    set_recipient(&mut draft, 0, ADDRESS_A, "0.0005");
    edit(&mut draft, CreateSpendMessage::SelectCoin(0));
    assert!(!draft.is_valid());

    edit(&mut draft, CreateSpendMessage::FeerateEdited("5".to_string()));
    assert_eq!(draft.feerate().value, "5");
    assert!(draft.feerate().valid);
    assert!(draft.is_valid());
    assert_eq!(draft.amount_left(), Some(0));

    // a text that is no number is kept as typed, and flags the field
    edit(&mut draft, CreateSpendMessage::FeerateEdited("5x".to_string()));
    assert_eq!(draft.feerate().value, "5x");
    assert!(!draft.feerate().valid);
    assert!(!draft.is_valid());
    assert_eq!(draft.amount_left(), None);
    // and the estimate stays unknown however coins are toggled
    edit(&mut draft, CreateSpendMessage::SelectCoin(0));
    assert_eq!(draft.amount_left(), None);
    assert!(!draft.is_valid());
    edit(&mut draft, CreateSpendMessage::SelectCoin(0));
    assert_eq!(draft.amount_left(), None);
    assert!(!draft.is_valid());
    // until a number is entered
    edit(&mut draft, CreateSpendMessage::FeerateEdited("7".to_string()));
    assert_eq!(draft.amount_left(), Some(0));
    assert!(draft.is_valid());
    edit(&mut draft, CreateSpendMessage::FeerateEdited("abc".to_string()));
    assert_eq!(draft.feerate().value, "abc");
    assert_eq!(draft.amount_left(), None);

    // zero is a number, but no feerate
    edit(&mut draft, CreateSpendMessage::FeerateEdited("0".to_string()));
    assert_eq!(draft.feerate().value, "0");
    assert!(!draft.feerate().valid);
    assert!(!draft.is_valid());
    assert_eq!(draft.amount_left(), Some(0));

    // an empty text empties the field and clears its error
    edit(&mut draft, CreateSpendMessage::FeerateEdited(String::new()));
    assert_eq!(draft.feerate().value, "");
    assert!(draft.feerate().valid);
    assert!(!draft.is_valid());
    assert_eq!(draft.amount_left(), None);
}

#[test]
fn generate_asks_for_the_selected_coins_and_the_payments() {
    let mut draft = DefineSpend::new(
        1_000,
        vec![coin(1_000_000, Some(100), 0), coin(2_000_000, Some(100), 1), coin(3_000_000, Some(100), 2)],
        10,
        200,
    );
    set_recipient(&mut draft, 0, ADDRESS_A, "0.0005");
    edit(&mut draft, CreateSpendMessage::AddRecipient);
    set_recipient(&mut draft, 1, ADDRESS_B, "0.02");
    edit(&mut draft, CreateSpendMessage::FeerateEdited("12".to_string()));
    // offered by descending amount: vout 2, 1, 0
    edit(&mut draft, CreateSpendMessage::SelectCoin(0));
    edit(&mut draft, CreateSpendMessage::SelectCoin(2));
    assert!(draft.is_valid());
    match edit(&mut draft, CreateSpendMessage::Generate) {
        Action::CreateSpendTx(request) => {
            assert_eq!(
                request,
                SpendRequest {
                    inputs: vec![
                        OutPoint { txid: [3; 32], vout: 2 },
                        OutPoint { txid: [3; 32], vout: 0 }
                    ],
                    outputs: vec![
                        Payment { address: ADDRESS_A.to_string(), amount: 50_000 },
                        Payment { address: ADDRESS_B.to_string(), amount: 2_000_000 },
                    ],
                    feerate_vb: 12,
                }
            );
        }
        _ => panic!("a valid draft asks for its transaction"),
    }
    assert!(draft.is_valid());
    assert!(draft.warning().is_none());
}

#[test]
fn a_failed_request_leaves_a_warning_and_the_draft_as_it_was() {
    let mut draft = one_coin_draft();
    set_recipient(&mut draft, 0, ADDRESS_A, "0.0005");
    edit(&mut draft, CreateSpendMessage::FeerateEdited("10".to_string()));
    edit(&mut draft, CreateSpendMessage::SelectCoin(0));
    let action = draft.update(Network::Bitcoin, Message::Psbt(Err("insufficient funds".to_string())));
    assert!(is_stay(&action));
    assert_eq!(draft.warning(), &Some("insufficient funds".to_string()));
    assert!(draft.generated().is_none());
    assert!(draft.is_valid());
    assert_eq!(draft.amount_left(), Some(0));
    assert_eq!(draft.recipients()[0].amount(), Ok(50_000));
    assert_eq!(draft.coins(), &vec![(coin(1_000_000, Some(100), 0), true)]);

    // asking again drops the warning
    assert!(matches!(edit(&mut draft, CreateSpendMessage::Generate), Action::CreateSpendTx(_)));
    assert!(draft.warning().is_none());

    // and so does a feerate edit
    draft.update(Network::Bitcoin, Message::Psbt(Err("again".to_string())));
    edit(&mut draft, CreateSpendMessage::FeerateEdited("11".to_string()));
    assert!(draft.warning().is_none());
}

#[test]
fn a_generated_transaction_is_kept_and_handed_over() {
    let mut draft = DefineSpend::new(1_000, vec![coin(1_000_000, Some(100), 0), coin(5, Some(100), 1)], 10, 200);
    set_recipient(&mut draft, 0, ADDRESS_A, "0.0005");
    edit(&mut draft, CreateSpendMessage::FeerateEdited("10".to_string()));
    edit(&mut draft, CreateSpendMessage::SelectCoin(0));
    let action = draft.update(Network::Bitcoin, Message::Psbt(Ok(empty_psbt())));
    assert!(matches!(action, Action::Next));
    assert_eq!(draft.generated(), &Some(empty_psbt()));

    let mut handoff = TransactionDraft::new();
    assert!(handoff.inputs.is_empty());
    assert!(handoff.generated.is_none());
    draft.apply(&mut handoff);
    assert_eq!(handoff.inputs, vec![coin(1_000_000, Some(100), 0)]);
    assert_eq!(handoff.generated, Some(empty_psbt()));
    assert!(TransactionDraft::default().generated.is_none());
}

#[test]
fn helpers_of_the_aggregate_check() {
    assert!(!some_coin_selected(&vec![]));
    assert!(!some_coin_selected(&vec![(coin(1, None, 0), false)]));
    assert!(some_coin_selected(&vec![(coin(1, None, 0), false), (coin(1, None, 1), true)]));
    assert!(all_recipients_valid(&vec![]));
    assert!(collect_payments(&vec![]).is_empty());
}

#[test]
fn recomputing_by_hand_changes_nothing_that_is_up_to_date() {
    let mut draft = one_coin_draft();
    set_recipient(&mut draft, 0, ADDRESS_A, "0.0005");
    edit(&mut draft, CreateSpendMessage::FeerateEdited("10".to_string()));
    edit(&mut draft, CreateSpendMessage::SelectCoin(0));
    draft.check_valid();
    assert!(draft.is_valid());
    draft.amount_left_to_select();
    assert_eq!(draft.amount_left(), Some(0));
    // a recipient edit leaves the estimate as it was until it is asked for
    set_recipient(&mut draft, 0, ADDRESS_A, "0.02");
    assert_eq!(draft.amount_left(), Some(0));
    draft.amount_left_to_select();
    assert_eq!(draft.amount_left(), Some(3_750 + 2_000_000 - 1_000_000));
}

#[test]
fn no_estimate_while_the_feerate_is_no_number() {
    let mut draft = DefineSpend::new(1_000, vec![coin(40_000, Some(100), 0), coin(30_000, Some(100), 1)], 10, 200);
    set_recipient(&mut draft, 0, ADDRESS_A, "0.0005");
    for text in ["abc", "-1", "1.5", " 1", "18446744073709551616", ""] {
        edit(&mut draft, CreateSpendMessage::FeerateEdited("5".to_string()));
        assert!(draft.amount_left().is_some());
        edit(&mut draft, CreateSpendMessage::FeerateEdited(text.to_string()));
        assert_eq!(draft.feerate().value, text);
        assert_eq!(draft.feerate().valid, text.is_empty());
        assert_eq!(draft.amount_left(), None, "{:?}", text);
        assert!(!draft.is_valid());
        for at in [0, 1, 1, 0, 5] {
            edit(&mut draft, CreateSpendMessage::SelectCoin(at));
            assert_eq!(draft.amount_left(), None, "{:?}", text);
            assert!(!draft.is_valid());
        }
        draft.amount_left_to_select();
        assert_eq!(draft.amount_left(), None, "{:?}", text);
    }
}
