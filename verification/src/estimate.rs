//! How much value is still to be selected for a spend: the size that the
//! transaction will have is estimated before it exists, and the fee that
//! the size calls for is set against the coins selected so far.

use crate::btc::{
    parse_address_script, parsed_script, template_transaction_vsize, template_vsize,
};
use crate::coin::{capped, output_views, Coin, OutPoint, TxOutput, TxOutputView};
use crate::decimal::{parse_u64, parse_unsigned};
use crate::recipient::{checked_amount, Recipient, RecipientView};
use vstd::prelude::*;

verus! {

/// Size in bytes of the change output that every spend is assumed to have:
/// its value, the length of its script, a witness version, a push of 32
/// bytes and the 32 bytes of the witness program.
pub const CHANGE_TXO_SIZE: u64 = 8 + 1 + 1 + 1 + 32;

/// The greatest sum that as many `u64` amounts as a list can hold may
/// reach.
pub const MAX_TOTAL: u128 = 0xFFFF_FFFF_FFFF_FFFE_0000_0000_0000_0001;

/// The coins of a selection list that are flagged selected, in the order
/// of the list.
pub open spec fn selected_coins(entries: Seq<(Coin, bool)>) -> Seq<Coin>
    decreases entries.len(),
{
    if entries.len() == 0 {
        Seq::empty()
    } else if entries.last().1 {
        selected_coins(entries.drop_last()).push(entries.last().0)
    } else {
        selected_coins(entries.drop_last())
    }
}

/// Sum of the values of a list of coins.
pub open spec fn coins_total(coins: Seq<Coin>) -> nat
    decreases coins.len(),
{
    if coins.len() == 0 {
        0
    } else {
        coins_total(coins.drop_last()) + coins.last().amount as nat
    }
}

/// Sum of the values of a list of outputs.
pub open spec fn outputs_total(outputs: Seq<TxOutputView>) -> nat
    decreases outputs.len(),
{
    if outputs.len() == 0 {
        0
    } else {
        outputs_total(outputs.drop_last()) + outputs.last().value as nat
    }
}

/// The recipients of a list, each by its view.
pub open spec fn recipient_views(recipients: Seq<Recipient>) -> Seq<RecipientView> {
    Seq::new(recipients.len(), |i: int| recipients[i]@)
}

/// The outputs that the valid recipients of a list ask for, in the order
/// of the list. A recipient that is not valid contributes nothing.
pub open spec fn recipient_outputs(recipients: Seq<RecipientView>) -> Seq<TxOutputView>
    decreases recipients.len(),
{
    if recipients.len() == 0 {
        Seq::empty()
    } else if recipients.last().valid() {
        recipient_outputs(recipients.drop_last()).push(
            TxOutputView {
                script_pubkey: parsed_script(recipients.last().address.value).unwrap(),
                value: checked_amount(
                    recipients.last().address.value,
                    recipients.last().amount.value,
                ).unwrap(),
            },
        )
    } else {
        recipient_outputs(recipients.drop_last())
    }
}

/// Virtual size expected of the final transaction: that of the template,
/// a quarter of the descriptor's greatest satisfaction weight for each
/// input, and a change output.
pub open spec fn estimated_vsize(template_vsize: nat, n_inputs: nat, max_sat_weight: u32) -> nat {
    template_vsize + (max_sat_weight as nat / 4) * n_inputs + CHANGE_TXO_SIZE as nat
}

/// Value that the inputs must bring: the fee for the estimated size at
/// `feerate` satoshis per virtual byte, and what the outputs pay.
pub open spec fn needed_amount(
    template_vsize: nat,
    n_inputs: nat,
    max_sat_weight: u32,
    feerate: u64,
    outputs_total: nat,
) -> nat {
    estimated_vsize(template_vsize, n_inputs, max_sat_weight) * feerate as nat + outputs_total
}

/// What is missing from `selected` to reach `needed`; nothing where the
/// selection already covers it.
pub open spec fn shortfall(needed: nat, selected: nat) -> nat {
    if needed > selected {
        (needed - selected) as nat
    } else {
        0
    }
}

/// The amount left to select, for a feerate text, a selection list, a
/// list of recipients and the descriptor's greatest satisfaction weight:
/// unknown while the feerate is no number, else the shortfall of the
/// selected coins against the needed amount, as a `u64` holds it.
pub open spec fn amount_left(
    feerate: Seq<char>,
    entries: Seq<(Coin, bool)>,
    recipients: Seq<RecipientView>,
    max_sat_weight: u32,
) -> Option<u64> {
    match parse_unsigned(feerate, u64::MAX as nat) {
        None => None,
        Some(rate) => {
            let inputs = selected_coins(entries);
            let outputs = recipient_outputs(recipients);
            Some(
                capped(
                    shortfall(
                        needed_amount(
                            template_vsize(inputs.len(), outputs),
                            inputs.len(),
                            max_sat_weight,
                            rate as u64,
                            outputs_total(outputs),
                        ),
                        coins_total(inputs),
                    ),
                ),
            )
        },
    }
}

/// The amount left to select is unknown exactly when the feerate text is
/// no unsigned decimal number that a `u64` holds; an empty text is none.
pub proof fn lemma_amount_left_unknown_iff(
    feerate: Seq<char>,
    entries: Seq<(Coin, bool)>,
    recipients: Seq<RecipientView>,
    max_sat_weight: u32,
)
    ensures
        amount_left(feerate, entries, recipients, max_sat_weight).is_none() <==> parse_unsigned(
            feerate,
            u64::MAX as nat,
        ).is_none(),
        feerate.len() == 0 ==> amount_left(feerate, entries, recipients, max_sat_weight).is_none(),
{
}

/// Where the selected coins are worth at least the needed amount, nothing
/// is left to select.
pub proof fn lemma_covered_selection_leaves_nothing(
    feerate: Seq<char>,
    entries: Seq<(Coin, bool)>,
    recipients: Seq<RecipientView>,
    max_sat_weight: u32,
)
    requires
        parse_unsigned(feerate, u64::MAX as nat).is_some(),
        coins_total(selected_coins(entries)) >= needed_amount(
            template_vsize(
                selected_coins(entries).len(),
                recipient_outputs(recipients),
            ),
            selected_coins(entries).len(),
            max_sat_weight,
            parse_unsigned(feerate, u64::MAX as nat).unwrap() as u64,
            outputs_total(recipient_outputs(recipients)),
        ),
    ensures
        amount_left(feerate, entries, recipients, max_sat_weight) == Some(0u64),
{
}

/// Where the selected coins are worth less than the needed amount,
/// something is left to select.
pub proof fn lemma_short_selection_leaves_something(
    feerate: Seq<char>,
    entries: Seq<(Coin, bool)>,
    recipients: Seq<RecipientView>,
    max_sat_weight: u32,
)
    requires
        parse_unsigned(feerate, u64::MAX as nat).is_some(),
        coins_total(selected_coins(entries)) < needed_amount(
            template_vsize(
                selected_coins(entries).len(),
                recipient_outputs(recipients),
            ),
            selected_coins(entries).len(),
            max_sat_weight,
            parse_unsigned(feerate, u64::MAX as nat).unwrap() as u64,
            outputs_total(recipient_outputs(recipients)),
        ),
    ensures
        amount_left(feerate, entries, recipients, max_sat_weight).is_some(),
        amount_left(feerate, entries, recipients, max_sat_weight).unwrap() > 0,
{
}

/// No list of coins is worth more than `MAX_TOTAL`.
pub proof fn lemma_coins_total_bound(coins: Seq<Coin>)
    ensures
        coins_total(coins) <= coins.len() * u64::MAX,
    decreases coins.len(),
{
    if coins.len() > 0 {
        lemma_coins_total_bound(coins.drop_last());
        assert((coins.len() - 1) * u64::MAX + u64::MAX == coins.len() * u64::MAX)
            by (nonlinear_arith);
    }
}

/// No list of outputs pays more than `MAX_TOTAL`.
pub proof fn lemma_outputs_total_bound(outputs: Seq<TxOutputView>)
    ensures
        outputs_total(outputs) <= outputs.len() * u64::MAX,
    decreases outputs.len(),
{
    if outputs.len() > 0 {
        lemma_outputs_total_bound(outputs.drop_last());
        assert((outputs.len() - 1) * u64::MAX + u64::MAX == outputs.len() * u64::MAX)
            by (nonlinear_arith);
    }
}

/// The shortfall once the size of the template, the feerate and the two
/// sums are known.
pub fn amount_left_for(
    template_vsize: usize,
    n_inputs: usize,
    max_sat_weight: u32,
    feerate: u64,
    outputs_total: u128,
    selected_total: u128,
) -> (r: u64)
    requires
        selected_total <= MAX_TOTAL,
    ensures
        r == capped(
            shortfall(
                needed_amount(
                    template_vsize as nat,
                    n_inputs as nat,
                    max_sat_weight,
                    feerate,
                    outputs_total as nat,
                ),
                selected_total as nat,
            ),
        ),
{
    let satisfaction_vsize: u128 = (max_sat_weight / 4) as u128;
    assert(satisfaction_vsize * (n_inputs as u128) <= 0x3FFF_FFFF * 0xFFFF_FFFF_FFFF_FFFF)
        by (nonlinear_arith)
        requires
            satisfaction_vsize <= 0x3FFF_FFFF,
            n_inputs <= 0xFFFF_FFFF_FFFF_FFFF,
    ;
    let size: u128 = template_vsize as u128 + satisfaction_vsize * (n_inputs as u128)
        + CHANGE_TXO_SIZE as u128;
    assert(size as nat == estimated_vsize(template_vsize as nat, n_inputs as nat, max_sat_weight));
    let needed: Option<u128> = match size.checked_mul(feerate as u128) {
        Some(fee) => fee.checked_add(outputs_total),
        None => None,
    };
    match needed {
        Some(needed) => {
            if needed > selected_total {
                let left: u128 = needed - selected_total;
                if left > u64::MAX as u128 {
                    u64::MAX
                } else {
                    left as u64
                }
            } else {
                0
            }
        },
        None => u64::MAX,
    }
}

/// Collects the selected coins of a selection list.
pub fn collect_selected(entries: &Vec<(Coin, bool)>) -> (r: Vec<Coin>)
    ensures
        r@ == selected_coins(entries@),
{
    let mut coins: Vec<Coin> = Vec::new();
    let mut i: usize = 0;
    while i < entries.len()
        invariant
            0 <= i <= entries.len(),
            coins@ == selected_coins(entries@.subrange(0, i as int)),
        decreases entries.len() - i,
    {
        proof {
            assert(entries@.subrange(0, i + 1).drop_last() =~= entries@.subrange(0, i as int));
        }
        if entries[i].1 {
            coins.push(entries[i].0);
        }
        i = i + 1;
    }
    proof {
        assert(entries@.subrange(0, i as int) =~= entries@);
    }
    coins
}

/// The outpoints of a list of coins.
pub open spec fn outpoints_of(coins: Seq<Coin>) -> Seq<OutPoint> {
    Seq::new(coins.len(), |i: int| coins[i].outpoint)
}

/// Collects the outpoints of a list of coins.
pub fn collect_outpoints(coins: &Vec<Coin>) -> (r: Vec<OutPoint>)
    ensures
        r@ == outpoints_of(coins@),
{
    let mut outpoints: Vec<OutPoint> = Vec::new();
    let mut i: usize = 0;
    while i < coins.len()
        invariant
            0 <= i <= coins.len(),
            outpoints@ == outpoints_of(coins@.subrange(0, i as int)),
        decreases coins.len() - i,
    {
        outpoints.push(coins[i].outpoint);
        proof {
            assert(outpoints@ =~= outpoints_of(coins@.subrange(0, i + 1)));
        }
        i = i + 1;
    }
    proof {
        assert(coins@.subrange(0, i as int) =~= coins@);
    }
    outpoints
}

/// Adds up the values of a list of coins.
pub fn total_of_coins(coins: &Vec<Coin>) -> (r: u128)
    ensures
        r as nat == coins_total(coins@),
        r <= MAX_TOTAL,
{
    let mut total: u128 = 0;
    let mut i: usize = 0;
    while i < coins.len()
        invariant
            0 <= i <= coins.len(),
            total as nat == coins_total(coins@.subrange(0, i as int)),
        decreases coins.len() - i,
    {
        proof {
            assert(coins@.subrange(0, i + 1).drop_last() =~= coins@.subrange(0, i as int));
            lemma_coins_total_bound(coins@.subrange(0, i + 1));
            lemma_len_times_max(i as nat + 1);
        }
        total = total + coins[i].amount as u128;
        i = i + 1;
    }
    proof {
        assert(coins@.subrange(0, i as int) =~= coins@);
        lemma_coins_total_bound(coins@);
        lemma_len_times_max(coins@.len());
    }
    total
}

/// Adds up the values of a list of outputs.
pub fn total_of_outputs(outputs: &Vec<TxOutput>) -> (r: u128)
    ensures
        r as nat == outputs_total(output_views(outputs@)),
{
    let mut total: u128 = 0;
    let mut i: usize = 0;
    while i < outputs.len()
        invariant
            0 <= i <= outputs.len(),
            total as nat == outputs_total(output_views(outputs@.subrange(0, i as int))),
        decreases outputs.len() - i,
    {
        proof {
            let next = output_views(outputs@.subrange(0, i + 1));
            assert(next.drop_last() =~= output_views(outputs@.subrange(0, i as int)));
            lemma_outputs_total_bound(next);
            lemma_len_times_max(i as nat + 1);
        }
        total = total + outputs[i].value as u128;
        i = i + 1;
    }
    proof {
        assert(outputs@.subrange(0, i as int) =~= outputs@);
    }
    total
}

/// As many `u64` amounts as a `usize` can count stay within `MAX_TOTAL`.
pub proof fn lemma_len_times_max(len: nat)
    requires
        len <= usize::MAX,
    ensures
        len * u64::MAX <= MAX_TOTAL,
{
    assert(len * u64::MAX <= 0xFFFF_FFFF_FFFF_FFFF * 0xFFFF_FFFF_FFFF_FFFF) by (nonlinear_arith)
        requires
            len <= 0xFFFF_FFFF_FFFF_FFFF,
            u64::MAX == 0xFFFF_FFFF_FFFF_FFFF,
    ;
}

/// Builds the outputs that the valid recipients of a list ask for.
pub fn collect_outputs(recipients: &Vec<Recipient>) -> (r: Vec<TxOutput>)
    requires
        forall|i: int| 0 <= i < recipients@.len() ==> (#[trigger] recipients@[i])@.wf(),
    ensures
        output_views(r@) == recipient_outputs(recipient_views(recipients@)),
{
    let mut outputs: Vec<TxOutput> = Vec::new();
    let mut i: usize = 0;
    while i < recipients.len()
        invariant
            0 <= i <= recipients.len(),
            forall|k: int| 0 <= k < recipients@.len() ==> (#[trigger] recipients@[k])@.wf(),
            output_views(outputs@) == recipient_outputs(
                recipient_views(recipients@.subrange(0, i as int)),
            ),
        decreases recipients.len() - i,
    {
        let recipient: &Recipient = &recipients[i];
        proof {
            let next = recipient_views(recipients@.subrange(0, i + 1));
            assert(next.drop_last() =~= recipient_views(recipients@.subrange(0, i as int)));
            assert(next.last() == recipient@);
            assert(recipient@.wf());
        }
        if recipient.valid() {
            let script: Option<Vec<u8>> = parse_address_script(recipient.address().value.as_str());
            let value: Result<u64, crate::recipient::AmountError> = recipient.amount();
            if script.is_some() && value.is_ok() {
                let ghost before = output_views(outputs@);
                let output = TxOutput { script_pubkey: script.unwrap(), value: value.unwrap() };
                outputs.push(output);
                proof {
                    assert(output_views(outputs@) =~= before.push(output@));
                }
            }
        }
        i = i + 1;
    }
    proof {
        assert(recipients@.subrange(0, i as int) =~= recipients@);
    }
    outputs
}

/// Estimates how much value is still to be selected.
///
/// The feerate is read as an unsigned decimal number of satoshis per
/// virtual byte. Only valid recipients count as outputs, and only selected
/// coins as inputs.
pub fn amount_left_to_select(
    feerate: &str,
    entries: &Vec<(Coin, bool)>,
    recipients: &Vec<Recipient>,
    max_sat_weight: u32,
) -> (r: Option<u64>)
    requires
        forall|i: int| 0 <= i < recipients@.len() ==> (#[trigger] recipients@[i])@.wf(),
    ensures
        r == amount_left(feerate@, entries@, recipient_views(recipients@), max_sat_weight),
{
    let rate: u64 = match parse_u64(feerate) {
        Some(rate) => rate,
        None => {
            return None;
        },
    };
    let selected: Vec<Coin> = collect_selected(entries);
    let inputs: Vec<OutPoint> = collect_outpoints(&selected);
    let outputs: Vec<TxOutput> = collect_outputs(recipients);
    let vsize: usize = template_transaction_vsize(&inputs, &outputs);
    let outputs_total: u128 = total_of_outputs(&outputs);
    let selected_total: u128 = total_of_coins(&selected);
    Some(
        amount_left_for(
            vsize,
            selected.len(),
            max_sat_weight,
            rate,
            outputs_total,
            selected_total,
        ),
    )
}

} // verus!
