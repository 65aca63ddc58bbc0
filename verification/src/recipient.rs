//! One line of a spend: an address, an amount, and what validation says of
//! each.

use crate::btc::{
    address_on_network, address_valid_for_network, dust_value_of_script, parse_address_script,
    parse_btc_amount, parsed_amount, parsed_script, script_dust_value,
};
use crate::form::{FormValue, FormView};
use crate::network::Network;
use vstd::prelude::*;
use vstd::string::*;

verus! {

/// No recipient may be sent less than this many satoshis.
pub const DUST_OUTPUT_SATS: u64 = 5_000;

/// Why an amount cannot be sent.
#[derive(Clone, Copy, Debug, PartialEq, Eq, Structural)]
pub enum AmountError {
    /// The amount field is empty.
    EmptyAmount,
    /// The text is no non-negative decimal number of bitcoins.
    ParseError,
    /// The amount is zero or under the dust floor.
    BelowDustFloor,
    /// The amount does not exceed the dust threshold of the address's script.
    BelowScriptDust,
}

/// What tells a user why an amount cannot be sent. An empty amount and
/// one under the dust floor are worded alike.
pub open spec fn amount_error_text(error: AmountError) -> Seq<char> {
    match error {
        AmountError::EmptyAmount => "Amount should be non-zero"@,
        AmountError::ParseError => "cannot parse output amount"@,
        AmountError::BelowDustFloor => "Amount should be non-zero"@,
        AmountError::BelowScriptDust => "Amount must be superior to script dust value"@,
    }
}

impl AmountError {
    /// The text that tells a user of this error.
    pub fn message(&self) -> (r: String)
        ensures
            r@ == amount_error_text(*self),
    {
        match self {
            AmountError::EmptyAmount => String::from_str("Amount should be non-zero"),
            AmountError::ParseError => String::from_str("cannot parse output amount"),
            AmountError::BelowDustFloor => String::from_str("Amount should be non-zero"),
            AmountError::BelowScriptDust => String::from_str(
                "Amount must be superior to script dust value",
            ),
        }
    }
}

/// The field of a recipient that an edit changes.
#[derive(Clone, Copy, Debug, PartialEq, Eq, Structural)]
pub enum RecipientField {
    Address,
    Amount,
}

/// What the dust rules make of an amount: `parsed` is the number of
/// satoshis that the amount text stands for, if it stands for one, and
/// `script_dust` the dust threshold of the script of the address, if the
/// address parses. The amount must reach the dust floor, and exceed the
/// threshold where there is one.
pub open spec fn judged_amount(parsed: Option<u64>, script_dust: Option<u64>) -> Result<
    u64,
    AmountError,
> {
    match parsed {
        None => Err(AmountError::ParseError),
        Some(sats) => if sats < DUST_OUTPUT_SATS {
            Err(AmountError::BelowDustFloor)
        } else if script_dust.is_some() && sats <= script_dust.unwrap() {
            Err(AmountError::BelowScriptDust)
        } else {
            Ok(sats)
        },
    }
}

/// Applies the dust rules to an amount that was read.
pub fn judge_amount(parsed: Option<u64>, script_dust: Option<u64>) -> (r: Result<u64, AmountError>)
    ensures
        r == judged_amount(parsed, script_dust),
{
    let sats: u64 = match parsed {
        Some(sats) => sats,
        None => {
            return Err(AmountError::ParseError);
        },
    };
    if sats < DUST_OUTPUT_SATS {
        return Err(AmountError::BelowDustFloor);
    }
    match script_dust {
        Some(dust) => {
            if sats <= dust {
                return Err(AmountError::BelowScriptDust);
            }
        },
        None => {},
    }
    Ok(sats)
}

/// The dust threshold of the script of an address, where the text is an
/// address.
pub open spec fn address_dust(address: Seq<char>) -> Option<u64> {
    match parsed_script(address) {
        Some(script) => Some(script_dust_value(script)),
        None => None,
    }
}

/// The amount, in satoshis, that a recipient with the given two texts is to
/// receive, or the reason why the amount is refused: an empty amount as
/// such, any other as `judged_amount` says of what the two texts stand for.
pub open spec fn checked_amount(address: Seq<char>, amount: Seq<char>) -> Result<
    u64,
    AmountError,
> {
    if amount.len() == 0 {
        Err(AmountError::EmptyAmount)
    } else {
        judged_amount(parsed_amount(amount), address_dust(address))
    }
}

/// Whether an address field is valid after an edit: a text that is an
/// address must belong to the network, and any other text must be empty.
pub open spec fn judged_address(is_empty: bool, parses: bool, on_network: bool) -> bool {
    if parses {
        on_network
    } else {
        is_empty
    }
}

/// Tells whether an address field is valid after an edit.
pub fn judge_address(is_empty: bool, parses: bool, on_network: bool) -> (r: bool)
    ensures
        r == judged_address(is_empty, parses, on_network),
{
    if parses {
        on_network
    } else {
        is_empty
    }
}

/// Whether an error is one of the two that the dust rules give.
pub open spec fn is_dust_error(error: AmountError) -> bool {
    error == AmountError::BelowDustFloor || error == AmountError::BelowScriptDust
}

/// Every amount text that stands for a number of satoshis under the dust
/// floor is refused for being under the floor, whatever the address. Every
/// amount text that stands for a number that does not exceed the dust
/// threshold of the script of an address that parses is refused with one
/// of the two dust errors: for the threshold if it reaches the floor. The
/// same holds of the number of satoshis itself.
pub proof fn lemma_dust_is_refused(address: Seq<char>, amount: Seq<char>)
    requires
        parsed_amount(amount).is_some(),
    ensures
        parsed_amount(amount).unwrap() < DUST_OUTPUT_SATS ==> checked_amount(address, amount) == Err::<
            u64,
            AmountError,
        >(AmountError::BelowDustFloor),
        parsed_script(address).is_some() && parsed_amount(amount).unwrap() <= script_dust_value(
            parsed_script(address).unwrap(),
        ) ==> (checked_amount(address, amount) matches Err(error) && is_dust_error(error)),
        parsed_amount(amount).unwrap() >= DUST_OUTPUT_SATS && parsed_script(address).is_some()
            && parsed_amount(amount).unwrap() <= script_dust_value(parsed_script(address).unwrap())
            ==> checked_amount(address, amount) == Err::<u64, AmountError>(
            AmountError::BelowScriptDust,
        ),
        forall|sats: u64, script_dust: Option<u64>|
            sats < DUST_OUTPUT_SATS ==> #[trigger] judged_amount(Some(sats), script_dust) == Err::<
                u64,
                AmountError,
            >(AmountError::BelowDustFloor),
        forall|sats: u64, dust: u64|
            DUST_OUTPUT_SATS <= sats <= dust ==> #[trigger] judged_amount(Some(sats), Some(dust))
                == Err::<u64, AmountError>(AmountError::BelowScriptDust),
{
}

/// An empty amount is reported as empty, never as unparsable or as dust,
/// and an empty text is neither an amount nor an address.
pub proof fn lemma_empty_texts(address: Seq<char>)
    ensures
        checked_amount(address, Seq::<char>::empty()) == Err::<u64, AmountError>(
            AmountError::EmptyAmount,
        ),
        parsed_amount(Seq::<char>::empty()).is_none(),
        parsed_script(Seq::<char>::empty()).is_none(),
{
}

/// An amount is accepted exactly when it is written, parses, reaches the
/// dust floor and, where the address parses, exceeds the dust threshold
/// of its script; what is accepted is the parsed value.
pub proof fn lemma_amount_accepted_iff(address: Seq<char>, amount: Seq<char>)
    ensures
        checked_amount(address, amount).is_ok() <==> {
            &&& amount.len() > 0
            &&& parsed_amount(amount).is_some()
            &&& parsed_amount(amount).unwrap() >= DUST_OUTPUT_SATS
            &&& parsed_script(address).is_some() ==> parsed_amount(amount).unwrap()
                > script_dust_value(parsed_script(address).unwrap())
        },
        checked_amount(address, amount).is_ok() ==> Some(checked_amount(address, amount).unwrap())
            == parsed_amount(amount),
{
}

/// Validates the amount of a recipient against the dust rules.
pub fn validate_amount(address: &str, amount: &str) -> (r: Result<u64, AmountError>)
    ensures
        r == checked_amount(address@, amount@),
{
    if amount.is_empty() {
        return Err(AmountError::EmptyAmount);
    }
    let parsed: Option<u64> = parse_btc_amount(amount);
    let script_dust: Option<u64> = match parse_address_script(address) {
        Some(script) => Some(dust_value_of_script(&script)),
        None => None,
    };
    judge_amount(parsed, script_dust)
}

/// A recipient as contracts see it.
pub ghost struct RecipientView {
    pub address: FormView,
    pub amount: FormView,
}

impl RecipientView {
    /// A recipient of which nothing is known yet: both fields empty, and
    /// neither flagged.
    pub open spec fn empty() -> Self {
        RecipientView {
            address: FormView { value: Seq::empty(), valid: true },
            amount: FormView { value: Seq::empty(), valid: true },
        }
    }

    /// Both fields are filled and passed their validation.
    pub open spec fn valid(self) -> bool {
        self.address.filled_and_valid() && self.amount.filled_and_valid()
    }

    /// The flags tell the truth where they say "valid" of a filled field:
    /// such an address parses, and such an amount passes `checked_amount`.
    pub open spec fn wf(self) -> bool {
        &&& self.address.filled_and_valid() ==> parsed_script(self.address.value).is_some()
        &&& self.amount.filled_and_valid() ==> checked_amount(
            self.address.value,
            self.amount.value,
        ).is_ok()
    }

    /// The recipient after one of its fields is given a new text.
    ///
    /// A new address is valid if it is empty, or parses and belongs to the
    /// network; an amount that is already there is judged again, against
    /// the new address. A new amount is valid if it is empty or passes
    /// `checked_amount`.
    pub open spec fn edited(self, network: Network, field: RecipientField, text: Seq<char>) -> Self {
        match field {
            RecipientField::Address => {
                let parses = parsed_script(text).is_some();
                RecipientView {
                    address: FormView {
                        value: text,
                        valid: judged_address(
                            text.len() == 0,
                            parses,
                            address_on_network(text, network),
                        ),
                    },
                    amount: FormView {
                        value: self.amount.value,
                        valid: if self.amount.value.len() > 0 {
                            checked_amount(text, self.amount.value).is_ok()
                        } else {
                            self.amount.valid
                        },
                    },
                }
            },
            RecipientField::Amount => RecipientView {
                address: self.address,
                amount: FormView {
                    value: text,
                    valid: text.len() == 0 || checked_amount(self.address.value, text).is_ok(),
                },
            },
        }
    }
}

/// Clearing a field clears its error: a field that is given the empty
/// text is flagged valid, whatever it held before and whatever the other
/// field holds, and the recipient is not valid.
pub proof fn lemma_cleared_field_is_valid(
    recipient: RecipientView,
    network: Network,
    field: RecipientField,
)
    ensures
        field == RecipientField::Address ==> recipient.edited(
            network,
            field,
            Seq::<char>::empty(),
        ).address == (FormView { value: Seq::<char>::empty(), valid: true }),
        field == RecipientField::Amount ==> recipient.edited(
            network,
            field,
            Seq::<char>::empty(),
        ).amount == (FormView { value: Seq::<char>::empty(), valid: true }),
        !recipient.edited(network, field, Seq::<char>::empty()).valid(),
{
}

/// After an address edit an amount that is there is valid exactly when it
/// passes the dust rules against the new address.
pub proof fn lemma_address_edit_judges_amount(
    recipient: RecipientView,
    network: Network,
    text: Seq<char>,
)
    requires
        recipient.amount.value.len() > 0,
    ensures
        recipient.edited(network, RecipientField::Address, text).amount.valid == checked_amount(
            text,
            recipient.amount.value,
        ).is_ok(),
{
}

/// An edit leaves a well-formed recipient well formed.
pub proof fn lemma_edited_wf(
    recipient: RecipientView,
    network: Network,
    field: RecipientField,
    text: Seq<char>,
)
    requires
        recipient.wf(),
    ensures
        recipient.edited(network, field, text).wf(),
{
}

/// A recipient of the spend under construction.
#[derive(Clone, Debug)]
pub struct Recipient {
    address: FormValue,
    amount: FormValue,
}

impl View for Recipient {
    type V = RecipientView;

    closed spec fn view(&self) -> RecipientView {
        RecipientView { address: self.address@, amount: self.amount@ }
    }
}

impl Recipient {
    /// A recipient with both fields empty.
    pub fn new() -> (r: Self)
        ensures
            r@ == RecipientView::empty(),
            r@.wf(),
    {
        let r = Recipient { address: FormValue::new(), amount: FormValue::new() };
        proof {
            assert(r.address@.value =~= Seq::<char>::empty());
            assert(r.amount@.value =~= Seq::<char>::empty());
        }
        r
    }

    /// The address field.
    pub fn address(&self) -> (r: &FormValue)
        ensures
            r@ == self@.address,
    {
        &self.address
    }

    /// The amount field.
    pub fn amount_field(&self) -> (r: &FormValue)
        ensures
            r@ == self@.amount,
    {
        &self.amount
    }

    /// The amount to send, in satoshis, if the amount field passes the dust
    /// rules.
    pub fn amount(&self) -> (r: Result<u64, AmountError>)
        ensures
            r == checked_amount(self@.address.value, self@.amount.value),
    {
        validate_amount(self.address.value.as_str(), self.amount.value.as_str())
    }

    /// Whether both fields are filled and valid.
    pub fn valid(&self) -> (r: bool)
        ensures
            r == self@.valid(),
    {
        self.address.filled_and_valid() && self.amount.filled_and_valid()
    }

    /// Gives one field a new text and judges what depends on it.
    pub fn update(&mut self, network: Network, field: RecipientField, text: String)
        requires
            old(self)@.wf(),
        ensures
            final(self)@ == old(self)@.edited(network, field, text@),
            final(self)@.wf(),
    {
        match field {
            RecipientField::Address => {
                self.address.value = text;
                let parses: bool = parse_address_script(self.address.value.as_str()).is_some();
                let on_network: bool = address_valid_for_network(
                    self.address.value.as_str(),
                    network,
                );
                self.address.valid = judge_address(
                    self.address.value.as_str().is_empty(),
                    parses,
                    on_network,
                );
                if !self.amount.value.as_str().is_empty() {
                    self.amount.valid = self.amount().is_ok();
                }
            },
            RecipientField::Amount => {
                self.amount.value = text;
                if !self.amount.value.as_str().is_empty() {
                    self.amount.valid = self.amount().is_ok();
                } else {
                    self.amount.valid = true;
                }
            },
        }
    }
}

impl Default for Recipient {
    fn default() -> (r: Self)
        ensures
            r@ == RecipientView::empty(),
            r@.wf(),
    {
        Recipient::new()
    }
}

} // verus!
