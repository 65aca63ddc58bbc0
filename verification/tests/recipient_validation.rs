use spend_draft::network::Network;
use spend_draft::recipient::{
    judge_address, judge_amount, validate_amount, AmountError, Recipient, RecipientField,
    DUST_OUTPUT_SATS,
};

const MAINNET_P2WPKH: &str = "bc1qar0srrr7xfkvy5l643lydnw9re59gtzzwf5mdq";
const MAINNET_P2PKH: &str = "1A1zP1eP5QGefi2DMPTfTL5SLmv7DivfNa";
const TESTNET_P2WPKH: &str = "tb1qw508d6qejxtdg4y5r3zarvary0c5xw7kxpjzsx";

#[test]
fn empty_amount_is_reported_as_empty() {
    assert_eq!(validate_amount(MAINNET_P2WPKH, ""), Err(AmountError::EmptyAmount));
    assert_eq!(validate_amount("", ""), Err(AmountError::EmptyAmount));
}

#[test]
fn unparsable_amount_is_a_parse_error() {
    assert_eq!(validate_amount(MAINNET_P2WPKH, "abc"), Err(AmountError::ParseError));
    assert_eq!(validate_amount(MAINNET_P2WPKH, "-1"), Err(AmountError::ParseError));
    assert_eq!(validate_amount(MAINNET_P2WPKH, "1.000000001"), Err(AmountError::ParseError));
    assert_eq!(validate_amount(MAINNET_P2WPKH, "1..0"), Err(AmountError::ParseError));
    assert_eq!(validate_amount(MAINNET_P2WPKH, " 1"), Err(AmountError::ParseError));
}

#[test]
fn zero_amount_is_dust_not_a_parse_error() {
    assert_eq!(validate_amount(MAINNET_P2WPKH, "0"), Err(AmountError::BelowDustFloor));
    assert_eq!(validate_amount("", "0"), Err(AmountError::BelowDustFloor));
    assert_eq!(validate_amount("", "0.0"), Err(AmountError::BelowDustFloor));
}

#[test]
fn amounts_under_the_floor_are_dust() {
    assert_eq!(validate_amount(MAINNET_P2WPKH, "0.00004999"), Err(AmountError::BelowDustFloor));
    assert_eq!(validate_amount("not an address", "0.00000001"), Err(AmountError::BelowDustFloor));
    assert_eq!(validate_amount(MAINNET_P2PKH, "0.00000546"), Err(AmountError::BelowDustFloor));
}

#[test]
fn amounts_from_the_floor_up_are_accepted_in_satoshis() {
    assert_eq!(validate_amount(MAINNET_P2WPKH, "0.00005"), Ok(5_000));
    assert_eq!(validate_amount(MAINNET_P2WPKH, "0.0005"), Ok(50_000));
    assert_eq!(validate_amount(MAINNET_P2PKH, "0.001"), Ok(100_000));
    assert_eq!(validate_amount("not an address", "1"), Ok(100_000_000));
    assert_eq!(validate_amount("", "21000000"), Ok(2_100_000_000_000_000));
}

#[test]
fn a_fresh_recipient_is_empty_and_not_valid() {
    let r = Recipient::new();
    assert!(r.address().value.is_empty());
    assert!(r.address().valid);
    assert!(r.amount_field().value.is_empty());
    assert!(r.amount_field().valid);
    assert!(!r.valid());
    assert_eq!(r.amount(), Err(AmountError::EmptyAmount));
    let d = Recipient::default();
    assert!(!d.valid());
}

#[test]
fn an_address_of_another_network_is_invalid() {
    let mut r = Recipient::new();
    r.update(Network::Bitcoin, RecipientField::Address, TESTNET_P2WPKH.to_string());
    assert_eq!(r.address().value, TESTNET_P2WPKH);
    assert!(!r.address().valid);
    r.update(Network::Testnet, RecipientField::Address, TESTNET_P2WPKH.to_string());
    assert!(r.address().valid);
    r.update(Network::Signet, RecipientField::Address, TESTNET_P2WPKH.to_string());
    assert!(r.address().valid);
    r.update(Network::Regtest, RecipientField::Address, TESTNET_P2WPKH.to_string());
    assert!(!r.address().valid);
    r.update(Network::Testnet, RecipientField::Address, MAINNET_P2WPKH.to_string());
    assert!(!r.address().valid);
    r.update(Network::Bitcoin, RecipientField::Address, MAINNET_P2WPKH.to_string());
    assert!(r.address().valid);
}

#[test]
fn clearing_a_field_clears_its_error() {
    let mut r = Recipient::new();
    r.update(Network::Bitcoin, RecipientField::Address, "garbage".to_string());
    assert!(!r.address().valid);
    r.update(Network::Bitcoin, RecipientField::Address, String::new());
    assert!(r.address().valid);
    assert!(!r.valid());

    r.update(Network::Bitcoin, RecipientField::Amount, "0".to_string());
    assert!(!r.amount_field().valid);
    r.update(Network::Bitcoin, RecipientField::Amount, String::new());
    assert!(r.amount_field().valid);
    assert!(!r.valid());
}

#[test]
fn a_recipient_is_valid_once_both_fields_are() {
    let mut r = Recipient::new();
    r.update(Network::Bitcoin, RecipientField::Address, MAINNET_P2WPKH.to_string());
    assert!(!r.valid());
    r.update(Network::Bitcoin, RecipientField::Amount, "0.0005".to_string());
    assert!(r.valid());
    assert_eq!(r.amount(), Ok(50_000));
    r.update(Network::Bitcoin, RecipientField::Amount, "0.00001".to_string());
    assert!(!r.valid());
    assert_eq!(r.amount(), Err(AmountError::BelowDustFloor));
}

#[test]
fn an_amount_stays_valid_under_an_address_that_does_not_parse() {
    let mut r = Recipient::new();
    r.update(Network::Bitcoin, RecipientField::Amount, "0.0005".to_string());
    assert!(r.amount_field().valid);
    r.update(Network::Bitcoin, RecipientField::Address, "garbage".to_string());
    assert!(r.amount_field().valid);
    assert!(!r.address().valid);
    assert!(!r.valid());
}

#[test]
fn the_dust_floor_is_5000_satoshis() {
    assert_eq!(DUST_OUTPUT_SATS, 5_000);
}

#[test]
fn judging_an_amount_that_was_read() {
    assert_eq!(judge_amount(None, None), Err(AmountError::ParseError));
    assert_eq!(judge_amount(None, Some(294)), Err(AmountError::ParseError));
    assert_eq!(judge_amount(Some(0), None), Err(AmountError::BelowDustFloor));
    assert_eq!(judge_amount(Some(4_999), Some(294)), Err(AmountError::BelowDustFloor));
    assert_eq!(judge_amount(Some(4_999), Some(10_000)), Err(AmountError::BelowDustFloor));
    assert_eq!(judge_amount(Some(5_000), None), Ok(5_000));
    assert_eq!(judge_amount(Some(5_000), Some(294)), Ok(5_000));
    assert_eq!(judge_amount(Some(5_000), Some(4_999)), Ok(5_000));
    // the threshold of the script must be exceeded, not only reached
    assert_eq!(judge_amount(Some(5_000), Some(5_000)), Err(AmountError::BelowScriptDust));
    assert_eq!(judge_amount(Some(6_000), Some(6_000)), Err(AmountError::BelowScriptDust));
    assert_eq!(judge_amount(Some(6_000), Some(u64::MAX)), Err(AmountError::BelowScriptDust));
    assert_eq!(judge_amount(Some(6_001), Some(6_000)), Ok(6_001));
    assert_eq!(judge_amount(Some(u64::MAX), None), Ok(u64::MAX));
}

#[test]
fn judging_an_address_that_was_read() {
    // an address must belong to the network
    assert!(judge_address(false, true, true));
    assert!(!judge_address(false, true, false));
    // any other text must be empty
    assert!(judge_address(true, false, false));
    assert!(!judge_address(false, false, false));
    assert!(!judge_address(false, false, true));
}

#[test]
fn an_address_edit_judges_the_amount_again() {
    let mut r = Recipient::new();
    r.update(Network::Bitcoin, RecipientField::Address, "garbage".to_string());
    r.update(Network::Bitcoin, RecipientField::Amount, "0.00001".to_string());
    assert!(!r.amount_field().valid);
    r.update(Network::Bitcoin, RecipientField::Amount, "0.0001".to_string());
    assert!(r.amount_field().valid);
    r.update(Network::Bitcoin, RecipientField::Address, MAINNET_P2PKH.to_string());
    assert!(r.amount_field().valid);
    assert!(r.valid());
    assert_eq!(r.amount(), Ok(10_000));
}

#[test]
fn amount_errors_in_words() {
    assert_eq!(AmountError::EmptyAmount.message(), "Amount should be non-zero");
    assert_eq!(AmountError::BelowDustFloor.message(), "Amount should be non-zero");
    assert_eq!(AmountError::ParseError.message(), "cannot parse output amount");
    assert_eq!(AmountError::BelowScriptDust.message(), "Amount must be superior to script dust value");
}
