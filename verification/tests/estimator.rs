use spend_draft::coin::{Coin, OutPoint, TxOutput};
use spend_draft::estimate::{
    amount_left_for, amount_left_to_select, collect_outpoints, collect_outputs, collect_selected,
    total_of_coins, total_of_outputs, CHANGE_TXO_SIZE, MAX_TOTAL,
};
use spend_draft::network::Network;
use spend_draft::recipient::{Recipient, RecipientField};

const MAINNET_P2WPKH: &str = "bc1qar0srrr7xfkvy5l643lydnw9re59gtzzwf5mdq";
const MAINNET_P2WSH: &str = "bc1qrp33g0q5c5txsp9arysrx4k6zdkfs4nce4xj0gdcccefvpysxf3qccfmv3";
const MAINNET_P2PKH: &str = "1A1zP1eP5QGefi2DMPTfTL5SLmv7DivfNa";

fn coin(amount: u64, vout: u32) -> Coin {
    Coin { amount, outpoint: OutPoint { txid: [7; 32], vout }, block_height: Some(100), spend_info: None }
}

fn recipient(address: &str, amount: &str) -> Recipient {
    let mut r = Recipient::new();
    r.update(Network::Bitcoin, RecipientField::Address, address.to_string());
    r.update(Network::Bitcoin, RecipientField::Amount, amount.to_string());
    r
}

#[test]
fn change_output_is_43_bytes() {
    assert_eq!(CHANGE_TXO_SIZE, 43);
}

#[test]
fn max_total_is_the_square_of_the_largest_u64() {
    assert_eq!(MAX_TOTAL, (u64::MAX as u128) * (u64::MAX as u128));
}

#[test]
fn shortfall_follows_the_formula() {
    // (82 + 250 * 1 + 43) * 10 + 50_000 = 53_750
    assert_eq!(amount_left_for(82, 1, 1_000, 10, 50_000, 0), 53_750);
    assert_eq!(amount_left_for(82, 1, 1_000, 10, 50_000, 50_000), 3_750);
    assert_eq!(amount_left_for(82, 1, 1_000, 10, 50_000, 53_749), 1);
    // the satisfaction weight is divided by four, rounding down
    assert_eq!(amount_left_for(82, 1, 1_003, 10, 50_000, 0), 53_750);
    assert_eq!(amount_left_for(82, 2, 1_004, 1, 0, 0), 82 + 2 * 251 + 43);
    // a feerate of zero leaves only the outputs to pay
    assert_eq!(amount_left_for(82, 1, 1_000, 0, 50_000, 0), 50_000);
}

#[test]
fn shortfall_is_zero_once_the_selection_covers_the_need() {
    assert_eq!(amount_left_for(82, 1, 1_000, 10, 50_000, 53_750), 0);
    assert_eq!(amount_left_for(82, 1, 1_000, 10, 50_000, 1_000_000), 0);
    assert_eq!(amount_left_for(82, 1, 1_000, 10, 50_000, MAX_TOTAL), 0);
}

#[test]
fn shortfall_stops_at_the_largest_u64() {
    assert_eq!(amount_left_for(82, 1, 1_000, u64::MAX, 0, 0), u64::MAX);
    assert_eq!(amount_left_for(usize::MAX, usize::MAX, u32::MAX, u64::MAX, u128::MAX, 0), u64::MAX);
    assert_eq!(amount_left_for(usize::MAX, usize::MAX, u32::MAX, u64::MAX, u128::MAX, MAX_TOTAL), u64::MAX);
    assert_eq!(amount_left_for(0, 0, 0, 0, u64::MAX as u128 + 1, 0), u64::MAX);
    assert_eq!(amount_left_for(0, 0, 0, 0, u64::MAX as u128 + 5, 6), u64::MAX - 1);
}

#[test]
fn example_one_recipient_one_coin() {
    // One P2WPKH output of 31 bytes and one input: the template takes
    // 4 + 1 + 41 + 1 + 31 + 4 = 82 virtual bytes.
    let recipients = vec![recipient(MAINNET_P2WPKH, "0.0005")];
    let selected = vec![(coin(1_000_000, 0), true)];
    assert_eq!(amount_left_to_select("10", &selected, &recipients, 1_000), Some(0));

    // needed = (82 + 250 + 43) * 10 + 50_000 = 53_750
    let small = vec![(coin(50_000, 0), true)];
    assert_eq!(amount_left_to_select("10", &small, &recipients, 1_000), Some(3_750));

    // with nothing selected the template has no input: 41 virtual bytes
    let none = vec![(coin(1_000_000, 0), false)];
    assert_eq!(amount_left_to_select("10", &none, &recipients, 1_000), Some((41 + 43) * 10 + 50_000));
}

#[test]
fn output_sizes_follow_the_script_of_the_address() {
    let none: Vec<(Coin, bool)> = vec![];
    // P2WSH: 8 + 1 + 34 = 43 bytes; P2PKH: 8 + 1 + 25 = 34 bytes
    let wsh = vec![recipient(MAINNET_P2WSH, "0.001")];
    assert_eq!(amount_left_to_select("1", &none, &wsh, 0), Some(10 + 43 + 43 + 100_000));
    let pkh = vec![recipient(MAINNET_P2PKH, "0.001")];
    assert_eq!(amount_left_to_select("1", &none, &pkh, 0), Some(10 + 34 + 43 + 100_000));
    let both = vec![recipient(MAINNET_P2WSH, "0.001"), recipient(MAINNET_P2PKH, "0.002")];
    assert_eq!(amount_left_to_select("2", &none, &both, 0), Some((10 + 43 + 34 + 43) * 2 + 300_000));
}

#[test]
fn invalid_recipients_do_not_count_as_outputs() {
    let none: Vec<(Coin, bool)> = vec![];
    let recipients = vec![
        recipient(MAINNET_P2WPKH, "0.0005"),
        recipient("garbage", "0.0005"),
        recipient(MAINNET_P2WSH, "0.00001"),
        recipient(MAINNET_P2WSH, ""),
        Recipient::new(),
    ];
    assert_eq!(amount_left_to_select("10", &none, &recipients, 1_000), Some((41 + 43) * 10 + 50_000));
}

#[test]
fn every_selected_coin_adds_an_input_and_its_value() {
    let recipients = vec![recipient(MAINNET_P2WPKH, "0.01")];
    let coins = vec![(coin(1_000, 0), true), (coin(5_000_000, 1), false), (coin(2_000, 2), true)];
    // template: 10 + 2 * 41 + 31 = 123; estimate: 123 + 2 * 250 + 43 = 666
    assert_eq!(amount_left_to_select("3", &coins, &recipients, 1_000), Some(666 * 3 + 1_000_000 - 3_000));
}

#[test]
fn amount_left_is_unknown_without_a_feerate() {
    let recipients = vec![recipient(MAINNET_P2WPKH, "0.0005")];
    let coins = vec![(coin(1_000_000, 0), true)];
    for feerate in ["", "abc", "-1", "1.5", " 1", "1 ", "+", "18446744073709551616", "0x10", "1_000"] {
        assert_eq!(amount_left_to_select(feerate, &coins, &recipients, 1_000), None, "{:?}", feerate);
    }
    for feerate in ["0", "1", "+1", "007", "18446744073709551615"] {
        assert!(amount_left_to_select(feerate, &coins, &recipients, 1_000).is_some(), "{:?}", feerate);
    }
}

#[test]
fn a_huge_feerate_saturates() {
    let recipients = vec![recipient(MAINNET_P2WPKH, "0.0005")];
    let coins = vec![(coin(1_000_000, 0), true)];
    assert_eq!(amount_left_to_select("18446744073709551615", &coins, &recipients, 1_000), Some(u64::MAX));
}

#[test]
fn collecting_keeps_order_and_flags() {
    let entries = vec![(coin(1, 0), true), (coin(2, 1), false), (coin(3, 2), true)];
    let selected = collect_selected(&entries);
    assert_eq!(selected, vec![coin(1, 0), coin(3, 2)]);
    assert_eq!(
        collect_outpoints(&selected),
        vec![OutPoint { txid: [7; 32], vout: 0 }, OutPoint { txid: [7; 32], vout: 2 }]
    );
    assert_eq!(total_of_coins(&selected), 4);
    assert_eq!(total_of_coins(&vec![coin(u64::MAX, 0), coin(u64::MAX, 1)]), 2 * (u64::MAX as u128));
}

#[test]
fn outputs_carry_the_script_and_the_amount() {
    let outputs = collect_outputs(&vec![recipient(MAINNET_P2WPKH, "0.0005"), Recipient::new()]);
    assert_eq!(outputs.len(), 1);
    assert_eq!(outputs[0].value, 50_000);
    assert_eq!(outputs[0].script_pubkey.len(), 22);
    assert_eq!(&outputs[0].script_pubkey[..2], &[0x00, 0x14]);
    assert_eq!(total_of_outputs(&outputs), 50_000);
    let big = vec![
        TxOutput { script_pubkey: vec![], value: u64::MAX },
        TxOutput { script_pubkey: vec![], value: 1 },
    ];
    assert_eq!(total_of_outputs(&big), u64::MAX as u128 + 1);
}

#[test]
fn counts_of_253_and_more_take_three_bytes() {
    let recipients = vec![recipient(MAINNET_P2WPKH, "0.0005")];
    let many = |n: u32| -> Vec<(Coin, bool)> { (0..n).map(|i| (coin(0, i), true)).collect() };
    // 252 inputs: 4 + 1 + 252 * 41 + 1 + 31 + 4
    assert_eq!(
        amount_left_to_select("1", &many(252), &recipients, 0),
        Some(41 + 252 * 41 + 43 + 50_000)
    );
    // 253 inputs: the count takes three bytes
    assert_eq!(
        amount_left_to_select("1", &many(253), &recipients, 0),
        Some(43 + 253 * 41 + 43 + 50_000)
    );
    // 253 outputs
    let crowd: Vec<Recipient> = (0..253).map(|_| recipient(MAINNET_P2WPKH, "0.0005")).collect();
    assert_eq!(
        amount_left_to_select("1", &many(1), &crowd, 0),
        Some(4 + 1 + 41 + 3 + 253 * 31 + 4 + 43 + 253 * 50_000)
    );
}
