//! What this library takes from the `bitcoin` crate. Nothing in this file is
//! proved: each contract records what the crate's source shows of the call
//! that the body makes.

use crate::coin::{output_views, OutPoint, TxOutput, TxOutputView};
use crate::network::{core_arg, network_of_core_arg, Network};
use std::str::FromStr;
use vstd::prelude::*;

verus! {

/// A partially signed transaction of the `bitcoin` crate. The library hands
/// such a value on and never looks inside.
#[verifier::external_type_specification]
#[verifier::external_body]
pub struct ExPsbt(bitcoin::psbt::PartiallySignedTransaction);

/// The satoshi value that `bitcoin::Amount::from_str_in` reads from a text
/// in whole bitcoins; `None` where it reports an error.
pub uninterp spec fn btc_amount(text: Seq<char>) -> Option<u64>;

/// The script that pays to the address `bitcoin::Address::from_str` reads
/// from a text; `None` where the text is no address.
pub uninterp spec fn address_script(text: Seq<char>) -> Option<Seq<u8>>;

/// What an amount text stands for, in satoshis: nothing where the text
/// is empty, which `Amount::from_str_in` refuses before it reads anything,
/// and else what `btc_amount` names.
pub open spec fn parsed_amount(text: Seq<char>) -> Option<u64> {
    if text.len() == 0 {
        None
    } else {
        btc_amount(text)
    }
}

/// The script of the address that a text stands for: none where the text
/// is empty, which `Address::from_str` refuses for being too short, and
/// else what `address_script` names.
pub open spec fn parsed_script(text: Seq<char>) -> Option<Seq<u8>> {
    if text.len() == 0 {
        None
    } else {
        address_script(text)
    }
}

/// Whether the address read from a text can be used on a network, as
/// `Address::is_valid_for_network` tells; `false` where the text is no
/// address.
pub uninterp spec fn address_on_network(text: Seq<char>, network: Network) -> bool;

/// The dust threshold, in satoshis, that `Script::dust_value` gives for a
/// script.
pub uninterp spec fn script_dust_value(script: Seq<u8>) -> u64;

/// Number of bytes that a count or length takes in a serialized
/// transaction.
pub open spec fn varint_len(n: nat) -> nat {
    if n <= 0xFC {
        1
    } else if n <= 0xFFFF {
        3
    } else if n <= 0xFFFF_FFFF {
        5
    } else {
        9
    }
}

/// Serialized size of one output: its value, the length of its script and
/// the script.
pub open spec fn output_size(output: TxOutputView) -> nat {
    8 + varint_len(output.script_pubkey.len()) + output.script_pubkey.len()
}

/// Serialized size of a list of outputs.
pub open spec fn outputs_size(outputs: Seq<TxOutputView>) -> nat
    decreases outputs.len(),
{
    if outputs.len() == 0 {
        0
    } else {
        outputs_size(outputs.drop_last()) + output_size(outputs.last())
    }
}

/// Virtual size of a transaction with `n_inputs` inputs that carry neither a
/// signature script nor a witness, and with the given outputs: version and
/// lock time take four bytes each, every input forty-one.
pub open spec fn template_vsize(n_inputs: nat, outputs: Seq<TxOutputView>) -> nat {
    4 + varint_len(n_inputs) + varint_len(outputs.len()) + outputs_size(outputs) + 4 + 41
        * n_inputs
}

/// Calls `bitcoin::Amount::from_str_in` with the denomination `Bitcoin`.
/// The contract says that the empty text is refused, and for the rest only
/// names the outcome: the same text always gives the same amount or the
/// same refusal.
#[verifier::external_body]
pub(crate) fn parse_btc_amount(text: &str) -> (r: Option<u64>)
    ensures
        r == parsed_amount(text@),
        text@.len() > 0 ==> r == btc_amount(text@),
{
    match bitcoin::Amount::from_str_in(text, bitcoin::Denomination::Bitcoin) {
        Ok(amount) => Some(amount.to_sat()),
        Err(_) => None,
    }
}

/// Calls `bitcoin::Address::from_str` and hands out the bytes of the
/// address's `script_pubkey`. The contract says that the empty text is no
/// address, and for the rest only names the outcome.
#[verifier::external_body]
pub(crate) fn parse_address_script(text: &str) -> (r: Option<Vec<u8>>)
    ensures
        r.is_some() == parsed_script(text@).is_some(),
        r.is_some() ==> r.unwrap()@ == parsed_script(text@).unwrap(),
        text@.len() > 0 ==> r.is_some() == address_script(text@).is_some(),
{
    match bitcoin::Address::from_str(text) {
        Ok(address) => Some(address.payload.script_pubkey().into_bytes()),
        Err(_) => None,
    }
}

/// Calls `Address::is_valid_for_network` on the address that
/// `bitcoin::Address::from_str` reads; a text that is no address is valid
/// nowhere. The contract only names the outcome.
#[verifier::external_body]
pub(crate) fn address_valid_for_network(text: &str, network: Network) -> (r: bool)
    ensures
        r == address_on_network(text@, network),
{
    let outside = match network {
        Network::Bitcoin => bitcoin::Network::Bitcoin,
        Network::Testnet => bitcoin::Network::Testnet,
        Network::Signet => bitcoin::Network::Signet,
        Network::Regtest => bitcoin::Network::Regtest,
    };
    match bitcoin::Address::from_str(text) {
        Ok(address) => address.is_valid_for_network(outside),
        Err(_) => false,
    }
}

/// Calls `Script::dust_value` on the script with the given bytes. The
/// contract only names the outcome.
#[verifier::external_body]
pub(crate) fn dust_value_of_script(script: &Vec<u8>) -> (r: u64)
    ensures
        r == script_dust_value(script@),
{
    bitcoin::Script::from_bytes(script.as_slice()).dust_value().to_sat()
}

/// Builds a `bitcoin::Transaction` of version 2 and lock time 0 with one
/// default input per element of `inputs` and the given outputs, and calls
/// `Transaction::vsize` on it. The crate computes the weight of such a
/// transaction as four times its serialized size, so the virtual size is
/// that size.
#[verifier::external_body]
pub(crate) fn template_transaction_vsize(inputs: &Vec<OutPoint>, outputs: &Vec<TxOutput>) -> (r:
    usize)
    ensures
        r as nat == template_vsize(inputs@.len(), output_views(outputs@)),
{
    let template = bitcoin::Transaction {
        version: 2,
        lock_time: bitcoin::absolute::LockTime::ZERO,
        input: inputs.iter().map(|_| bitcoin::TxIn::default()).collect(),
        output: outputs.iter().map(|o| bitcoin::TxOut {
            script_pubkey: bitcoin::ScriptBuf::from_bytes(o.script_pubkey.clone()),
            value: o.value,
        }).collect(),
    };
    template.vsize()
}

/// Calls `Network::from_core_arg`, which knows the four chain names of
/// `bitcoind` and refuses every other text. The refusal comes back as the
/// text of the crate's error. The crate leaves room for networks to come;
/// one that this library has no name for would be refused by its name.
#[verifier::external_body]
pub(crate) fn network_from_core_arg(arg: &str) -> (r: Result<Network, String>)
    ensures
        r.is_ok() == network_of_core_arg(arg@).is_some(),
        r.is_ok() ==> Some(r.unwrap()) == network_of_core_arg(arg@),
{
    match bitcoin::Network::from_core_arg(arg) {
        Ok(bitcoin::Network::Bitcoin) => Ok(Network::Bitcoin),
        Ok(bitcoin::Network::Testnet) => Ok(Network::Testnet),
        Ok(bitcoin::Network::Signet) => Ok(Network::Signet),
        Ok(bitcoin::Network::Regtest) => Ok(Network::Regtest),
        Ok(other) => Err(other.to_string()),
        Err(e) => Err(e.to_string()),
    }
}

/// Calls `Network::to_core_arg`, which gives each network the name that
/// `bitcoind` knows it by.
#[verifier::external_body]
pub(crate) fn network_core_arg(network: Network) -> (r: &'static str)
    ensures
        r@ == core_arg(network),
{
    let outside = match network {
        Network::Bitcoin => bitcoin::Network::Bitcoin,
        Network::Testnet => bitcoin::Network::Testnet,
        Network::Signet => bitcoin::Network::Signet,
        Network::Regtest => bitcoin::Network::Regtest,
    };
    outside.to_core_arg()
}

/// Calls `Clone::clone` on a partially signed transaction; the copy equals
/// what was copied.
#[verifier::external_body]
pub(crate) fn clone_psbt(psbt: &bitcoin::psbt::PartiallySignedTransaction) -> (r:
    bitcoin::psbt::PartiallySignedTransaction)
    ensures
        r == *psbt,
{
    psbt.clone()
}

} // verus!
