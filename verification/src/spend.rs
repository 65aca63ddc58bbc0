//! The draft of a spend: recipients, the coins offered for selection and a
//! feerate, with the flags that say whether a transaction may be asked for.

use crate::btc::clone_psbt;
use crate::coin::{
    balance_of, capped, lemma_selectable_order_all_unspent, selectable_coins, selectable_order,
    unspent_total, Coin, OutPoint,
};
use crate::decimal::{parse_u64, parse_unsigned};
use crate::estimate::{
    amount_left, amount_left_to_select, collect_outpoints, collect_selected, outpoints_of,
    recipient_views, selected_coins,
};
use crate::form::{FormValue, FormView};
use crate::network::Network;
use crate::recipient::{lemma_edited_wf, Recipient, RecipientField, RecipientView};
use bitcoin::psbt::PartiallySignedTransaction as Psbt;
use vstd::prelude::*;

verus! {

/// What is handed from the construction of a spend to its signing: the
/// coins that were selected and the transaction that was generated.
pub struct TransactionDraft {
    /// The coins that the transaction spends.
    pub inputs: Vec<Coin>,
    /// The unsigned transaction, once one was generated.
    pub generated: Option<Psbt>,
}

impl TransactionDraft {
    /// A draft with no input and no transaction.
    pub fn new() -> (r: Self)
        ensures
            r.inputs@.len() == 0,
            r.generated.is_none(),
    {
        TransactionDraft { inputs: Vec::new(), generated: None }
    }
}

impl Default for TransactionDraft {
    fn default() -> (r: Self)
        ensures
            r.inputs@.len() == 0,
            r.generated.is_none(),
    {
        TransactionDraft::new()
    }
}

/// Selection entries with none selected, one for each coin of a list.
pub open spec fn unselected(coins: Seq<Coin>) -> Seq<(Coin, bool)> {
    Seq::new(coins.len(), |i: int| (coins[i], false))
}

/// Whether some entry of a selection list is selected.
pub open spec fn any_selected(entries: Seq<(Coin, bool)>) -> bool {
    exists|i: int| 0 <= i < entries.len() && (#[trigger] entries[i]).1
}

/// Whether every recipient of a list is valid.
pub open spec fn all_valid(recipients: Seq<RecipientView>) -> bool {
    forall|i: int| 0 <= i < recipients.len() ==> (#[trigger] recipients[i]).valid()
}

/// Whether the recipient at `at` repeats the address of an earlier one.
/// An empty address repeats nothing.
pub open spec fn duplicate_at(recipients: Seq<RecipientView>, at: int) -> bool {
    &&& 0 <= at < recipients.len()
    &&& recipients[at].address.value.len() > 0
    &&& exists|j: int|
        0 <= j < at && (#[trigger] recipients[j]).address.value == recipients[at].address.value
}

/// Whether some recipient repeats the address of an earlier one.
pub open spec fn has_duplicate(recipients: Seq<RecipientView>) -> bool {
    exists|i: int| #[trigger] duplicate_at(recipients, i)
}

/// Whether a transaction may be asked for: the feerate is filled and valid,
/// a coin is selected, every recipient is valid and no address is given
/// twice.
pub open spec fn aggregate_valid(
    feerate: FormView,
    entries: Seq<(Coin, bool)>,
    recipients: Seq<RecipientView>,
) -> bool {
    &&& feerate.filled_and_valid()
    &&& any_selected(entries)
    &&& all_valid(recipients)
    &&& !has_duplicate(recipients)
}

/// Whether some recipient among the first `upto` repeats an earlier
/// address.
pub open spec fn has_duplicate_before(recipients: Seq<RecipientView>, upto: int) -> bool {
    exists|i: int| 0 <= i < upto && #[trigger] duplicate_at(recipients, i)
}

/// Tells whether some entry of a selection list is selected.
pub fn some_coin_selected(entries: &Vec<(Coin, bool)>) -> (r: bool)
    ensures
        r == any_selected(entries@),
{
    let mut i: usize = 0;
    while i < entries.len()
        invariant
            0 <= i <= entries.len(),
            forall|k: int| 0 <= k < i ==> !(#[trigger] entries@[k]).1,
        decreases entries.len() - i,
    {
        if entries[i].1 {
            return true;
        }
        i = i + 1;
    }
    false
}

/// Tells whether every recipient of a list is valid.
pub fn all_recipients_valid(recipients: &Vec<Recipient>) -> (r: bool)
    ensures
        r == all_valid(recipient_views(recipients@)),
{
    let mut i: usize = 0;
    while i < recipients.len()
        invariant
            0 <= i <= recipients.len(),
            forall|k: int| 0 <= k < i ==> (#[trigger] recipient_views(recipients@)[k]).valid(),
        decreases recipients.len() - i,
    {
        if !recipients[i].valid() {
            assert(!recipient_views(recipients@)[i as int].valid());
            return false;
        }
        i = i + 1;
    }
    true
}

/// Tells whether the recipient at `at` repeats the address of an earlier
/// one.
pub fn repeats_earlier_address(recipients: &Vec<Recipient>, at: usize) -> (r: bool)
    requires
        at < recipients@.len(),
    ensures
        r == duplicate_at(recipient_views(recipients@), at as int),
{
    let ghost views = recipient_views(recipients@);
    if recipients[at].address().value.as_str().is_empty() {
        return false;
    }
    assert(views[at as int].address.value.len() > 0);
    let mut j: usize = 0;
    while j < at
        invariant
            0 <= j <= at < recipients@.len(),
            views == recipient_views(recipients@),
            views[at as int].address.value.len() > 0,
            forall|k: int|
                0 <= k < j ==> (#[trigger] views[k]).address.value != views[at as int].address.value,
        decreases at - j,
    {
        if recipients[j].address().value == recipients[at].address().value {
            assert(views[j as int].address.value == views[at as int].address.value);
            return true;
        }
        j = j + 1;
    }
    false
}

/// Tells whether some recipient of a list repeats the address of an
/// earlier one.
pub fn some_address_repeated(recipients: &Vec<Recipient>) -> (r: bool)
    ensures
        r == has_duplicate(recipient_views(recipients@)),
{
    let ghost views = recipient_views(recipients@);
    let mut i: usize = 0;
    while i < recipients.len()
        invariant
            0 <= i <= recipients.len(),
            views == recipient_views(recipients@),
            !has_duplicate_before(views, i as int),
        decreases recipients.len() - i,
    {
        if repeats_earlier_address(recipients, i) {
            return true;
        }
        i = i + 1;
    }
    false
}

/// One payment of a spend request.
#[derive(Clone, Debug, PartialEq, Eq)]
pub struct Payment {
    /// The address that is paid, as the recipient gave it.
    pub address: String,
    /// The amount paid, in satoshis.
    pub amount: u64,
}

/// What the wallet's daemon is asked to build a transaction from.
#[derive(Clone, Debug, PartialEq, Eq)]
pub struct SpendRequest {
    /// The outputs to spend.
    pub inputs: Vec<OutPoint>,
    /// What to pay, and to whom.
    pub outputs: Vec<Payment>,
    /// The feerate, in satoshis per virtual byte.
    pub feerate_vb: u64,
}

/// A spend request as contracts see it.
pub ghost struct SpendRequestView {
    pub inputs: Seq<OutPoint>,
    pub outputs: Seq<(Seq<char>, u64)>,
    pub feerate_vb: u64,
}

/// The payments of a list, each as its address text and its amount.
pub open spec fn payment_views(payments: Seq<Payment>) -> Seq<(Seq<char>, u64)> {
    Seq::new(payments.len(), |i: int| (payments[i].address@, payments[i].amount))
}

impl View for SpendRequest {
    type V = SpendRequestView;

    open spec fn view(&self) -> SpendRequestView {
        SpendRequestView {
            inputs: self.inputs@,
            outputs: payment_views(self.outputs@),
            feerate_vb: self.feerate_vb,
        }
    }
}

/// What is to be done after a message, as contracts see it.
pub ghost enum ActionView {
    Stay,
    CreateSpendTx(SpendRequestView),
    Next,
}

impl View for Action {
    type V = ActionView;

    open spec fn view(&self) -> ActionView {
        match self {
            Action::Stay => ActionView::Stay,
            Action::CreateSpendTx(request) => ActionView::CreateSpendTx(request@),
            Action::Next => ActionView::Next,
        }
    }
}

/// An edit of the draft.
pub enum CreateSpendMessage {
    /// Add an empty recipient at the end.
    AddRecipient,
    /// Remove the recipient at an index.
    DeleteRecipient(usize),
    /// Give a field of the recipient at an index a new text.
    RecipientEdited(usize, RecipientField, String),
    /// Give the feerate field a new text.
    FeerateEdited(String),
    /// Ask for the transaction.
    Generate,
    /// Flip the selection of the coin at an index.
    SelectCoin(usize),
}

/// What the draft reacts to.
pub enum Message {
    /// An edit made by the user.
    CreateSpend(CreateSpendMessage),
    /// The outcome of a request for a transaction: the transaction, or the
    /// error as the daemon worded it.
    Psbt(Result<Psbt, String>),
}

/// What the caller is to do after the draft took a message.
pub enum Action {
    /// Nothing: the user stays on this step.
    Stay,
    /// Ask the daemon for a transaction, and hand the outcome back as a
    /// `Message::Psbt`.
    CreateSpendTx(SpendRequest),
    /// Go on to the next step.
    Next,
}

/// The draft of a spend as contracts see it.
pub ghost struct DefineSpendView {
    pub balance_available: u64,
    pub recipients: Seq<RecipientView>,
    pub is_valid: bool,
    pub is_duplicate: bool,
    pub max_sat_weight: u32,
    pub timelock: u16,
    pub coins: Seq<(Coin, bool)>,
    pub amount_left_to_select: Option<u64>,
    pub feerate: FormView,
    pub generated: Option<Psbt>,
    pub warning: Option<Seq<char>>,
}

/// What each valid recipient of a list is paid: its address and the amount
/// that its amount field stands for, in the order of the list.
pub open spec fn payments(recipients: Seq<RecipientView>) -> Seq<(Seq<char>, u64)>
    decreases recipients.len(),
{
    if recipients.len() == 0 {
        Seq::empty()
    } else if recipients.last().valid() {
        payments(recipients.drop_last()).push(
            (
                recipients.last().address.value,
                crate::recipient::checked_amount(
                    recipients.last().address.value,
                    recipients.last().amount.value,
                ).unwrap(),
            ),
        )
    } else {
        payments(recipients.drop_last())
    }
}

/// Whether the amount left to select is known only while the feerate
/// field holds a number.
pub open spec fn estimate_needs_feerate(draft: DefineSpendView) -> bool {
    draft.amount_left_to_select.is_some() ==> parse_unsigned(
        draft.feerate.value,
        u64::MAX as nat,
    ).is_some()
}

/// What the recipients of a list are to receive together; a recipient
/// whose amount is refused counts for nothing.
pub open spec fn recipients_total(recipients: Seq<RecipientView>) -> nat
    decreases recipients.len(),
{
    if recipients.len() == 0 {
        0
    } else {
        recipients_total(recipients.drop_last()) + match crate::recipient::checked_amount(
            recipients.last().address.value,
            recipients.last().amount.value,
        ) {
            Ok(sats) => sats as nat,
            Err(_) => 0,
        }
    }
}

impl DefineSpendView {
    /// The draft at the start of a session: the wallet's unspent coins on
    /// offer and none selected, one empty recipient, no feerate.
    pub open spec fn initial(
        max_sat_weight: u32,
        coins: Seq<Coin>,
        timelock: u16,
        blockheight: u32,
    ) -> Self {
        DefineSpendView {
            balance_available: capped(unspent_total(coins)),
            recipients: seq![RecipientView::empty()],
            is_valid: false,
            is_duplicate: false,
            max_sat_weight,
            timelock,
            coins: unselected(selectable_order(coins, blockheight, timelock)),
            amount_left_to_select: None,
            feerate: FormView { value: Seq::empty(), valid: true },
            generated: None,
            warning: None,
        }
    }

    /// What holds of every draft: its recipients are well formed, no coin
    /// on offer is spent, a feerate field that is filled and flagged valid
    /// holds a number that is not zero, the amount left to select is
    /// unknown while the feerate field holds no number, and the two flags
    /// say of the draft as it is what `has_duplicate` and `aggregate_valid`
    /// say.
    pub open spec fn wf(self) -> bool {
        &&& forall|i: int| 0 <= i < self.recipients.len() ==> (#[trigger] self.recipients[i]).wf()
        &&& forall|i: int|
            0 <= i < self.coins.len() ==> (#[trigger] self.coins[i]).0.spend_info.is_none()
        &&& self.feerate.filled_and_valid() ==> (parse_unsigned(
            self.feerate.value,
            u64::MAX as nat,
        ) matches Some(rate) && rate != 0)
        &&& estimate_needs_feerate(self)
        &&& self.is_duplicate == has_duplicate(self.recipients)
        &&& self.is_valid == aggregate_valid(self.feerate, self.coins, self.recipients)
    }

    /// The draft with both flags brought up to date.
    pub open spec fn judged(self) -> Self {
        DefineSpendView {
            is_duplicate: has_duplicate(self.recipients),
            is_valid: aggregate_valid(self.feerate, self.coins, self.recipients),
            ..self
        }
    }

    /// The draft with the amount left to select brought up to date.
    pub open spec fn estimated(self) -> Self {
        DefineSpendView {
            amount_left_to_select: amount_left(
                self.feerate.value,
                self.coins,
                self.recipients,
                self.max_sat_weight,
            ),
            ..self
        }
    }

    /// Whether the estimate is the one that `estimated` would give now.
    pub open spec fn estimate_is_current(self) -> bool {
        self.amount_left_to_select == self.estimated().amount_left_to_select
    }

    /// The draft after the feerate field was given the text `text`. The
    /// field holds the text as it was typed. A number is valid unless it is
    /// zero, an empty text counts as not judged, and any other text is
    /// flagged. The estimate follows the new text: it is unknown while the
    /// text is no number. A warning is dropped.
    pub open spec fn with_feerate(self, text: Seq<char>) -> Self {
        match parse_unsigned(text, u64::MAX as nat) {
            Some(rate) => DefineSpendView {
                feerate: FormView { value: text, valid: rate != 0 },
                warning: None,
                ..self
            }.estimated(),
            None => DefineSpendView {
                feerate: FormView { value: text, valid: text.len() == 0 },
                amount_left_to_select: None,
                warning: None,
                ..self
            },
        }
    }

    /// The draft after the selection of the coin at `at` was flipped.
    /// An index past the end changes nothing.
    pub open spec fn with_coin_toggled(self, at: int) -> Self {
        if 0 <= at < self.coins.len() {
            DefineSpendView {
                coins: self.coins.update(at, (self.coins[at].0, !self.coins[at].1)),
                ..self
            }.estimated()
        } else {
            self
        }
    }

    /// Whether the draft can take an edit: a recipient that is removed or
    /// edited exists, and a transaction is asked for only while the draft
    /// is valid.
    pub open spec fn accepts_edit(self, edit: CreateSpendMessage) -> bool {
        match edit {
            CreateSpendMessage::DeleteRecipient(at) => at < self.recipients.len(),
            CreateSpendMessage::RecipientEdited(at, _, _) => at < self.recipients.len(),
            CreateSpendMessage::Generate => self.is_valid,
            _ => true,
        }
    }

    /// Whether the draft can take a message.
    pub open spec fn accepts(self, message: Message) -> bool {
        match message {
            Message::CreateSpend(edit) => self.accepts_edit(edit),
            Message::Psbt(_) => true,
        }
    }

    /// The draft after an edit. Asking for the transaction only drops the
    /// warning; after every other edit the two flags are brought up to
    /// date.
    pub open spec fn after_edit(self, network: Network, edit: CreateSpendMessage) -> Self {
        match edit {
            CreateSpendMessage::AddRecipient => DefineSpendView {
                recipients: self.recipients.push(RecipientView::empty()),
                ..self
            }.judged(),
            CreateSpendMessage::DeleteRecipient(at) => DefineSpendView {
                recipients: self.recipients.remove(at as int),
                ..self
            }.judged(),
            CreateSpendMessage::RecipientEdited(at, field, text) => DefineSpendView {
                recipients: self.recipients.update(
                    at as int,
                    self.recipients[at as int].edited(network, field, text@),
                ),
                ..self
            }.judged(),
            CreateSpendMessage::FeerateEdited(text) => self.with_feerate(text@).judged(),
            CreateSpendMessage::Generate => DefineSpendView { warning: None, ..self },
            CreateSpendMessage::SelectCoin(at) => self.with_coin_toggled(at as int).judged(),
        }
    }

    /// The draft after a message. A transaction that arrives is kept; an
    /// error that arrives becomes the warning, and nothing else changes.
    pub open spec fn after(self, network: Network, message: Message) -> Self {
        match message {
            Message::CreateSpend(edit) => self.after_edit(network, edit),
            Message::Psbt(Ok(psbt)) => DefineSpendView { generated: Some(psbt), ..self },
            Message::Psbt(Err(error)) => DefineSpendView { warning: Some(error@), ..self },
        }
    }

    /// What is to be done after a message: ask for the transaction when the
    /// user asks for it, go on when it arrives, else nothing.
    pub open spec fn action_for(self, message: Message) -> ActionView {
        match message {
            Message::CreateSpend(CreateSpendMessage::Generate) => ActionView::CreateSpendTx(
                self.request(),
            ),
            Message::Psbt(Ok(_)) => ActionView::Next,
            _ => ActionView::Stay,
        }
    }

    /// The request that a valid draft makes: the outpoints of the selected
    /// coins, the payments of the recipients, and the feerate; 0 stands for
    /// a feerate that is no number, which a well-formed valid draft never
    /// has.
    pub open spec fn request(self) -> SpendRequestView {
        SpendRequestView {
            inputs: outpoints_of(selected_coins(self.coins)),
            outputs: payments(self.recipients),
            feerate_vb: match parse_unsigned(self.feerate.value, u64::MAX as nat) {
                Some(rate) => rate as u64,
                None => 0,
            },
        }
    }
}

/// The text of an optional string.
pub open spec fn text_of(text: Option<String>) -> Option<Seq<char>> {
    match text {
        Some(t) => Some(t@),
        None => None,
    }
}

/// The draft of a spend.
pub struct DefineSpend {
    balance_available: u64,
    recipients: Vec<Recipient>,
    is_valid: bool,
    is_duplicate: bool,
    max_sat_weight: u32,
    timelock: u16,
    coins: Vec<(Coin, bool)>,
    amount_left_to_select: Option<u64>,
    feerate: FormValue,
    generated: Option<Psbt>,
    warning: Option<String>,
}

impl View for DefineSpend {
    type V = DefineSpendView;

    closed spec fn view(&self) -> DefineSpendView {
        DefineSpendView {
            balance_available: self.balance_available,
            recipients: recipient_views(self.recipients@),
            is_valid: self.is_valid,
            is_duplicate: self.is_duplicate,
            max_sat_weight: self.max_sat_weight,
            timelock: self.timelock,
            coins: self.coins@,
            amount_left_to_select: self.amount_left_to_select,
            feerate: self.feerate@,
            generated: self.generated,
            warning: text_of(self.warning),
        }
    }
}

impl DefineSpend {
    /// Starts a draft from the coins of the wallet. `max_sat_weight` is the
    /// greatest weight that satisfying the wallet's descriptor can add to an
    /// input, `timelock` its recovery timelock, `blockheight` the height of
    /// the chain.
    pub fn new(max_sat_weight: u32, coins: Vec<Coin>, timelock: u16, blockheight: u32) -> (r: Self)
        ensures
            r@ == DefineSpendView::initial(max_sat_weight, coins@, timelock, blockheight),
            r@.wf(),
    {
        let balance_available: u64 = balance_of(&coins);
        let ordered: Vec<Coin> = selectable_coins(&coins, blockheight, timelock);
        let mut entries: Vec<(Coin, bool)> = Vec::new();
        let mut i: usize = 0;
        while i < ordered.len()
            invariant
                0 <= i <= ordered.len(),
                entries@ == unselected(ordered@.subrange(0, i as int)),
            decreases ordered.len() - i,
        {
            entries.push((ordered[i], false));
            proof {
                assert(entries@ =~= unselected(ordered@.subrange(0, i + 1)));
            }
            i = i + 1;
        }
        let mut recipients: Vec<Recipient> = Vec::new();
        recipients.push(Recipient::new());
        let r = DefineSpend {
            balance_available,
            recipients,
            is_valid: false,
            is_duplicate: false,
            max_sat_weight,
            timelock,
            coins: entries,
            amount_left_to_select: None,
            feerate: FormValue::new(),
            generated: None,
            warning: None,
        };
        proof {
            assert(ordered@.subrange(0, i as int) =~= ordered@);
            assert(r@.recipients =~= seq![RecipientView::empty()]);
            assert(r@.feerate.value =~= Seq::<char>::empty());
            lemma_selectable_order_all_unspent(coins@, blockheight, timelock);
            assert(!has_duplicate(r@.recipients)) by {
                assert forall|k: int| !#[trigger] duplicate_at(r@.recipients, k) by {}
            }
        }
        r
    }

    /// Brings the two flags up to date.
    pub fn check_valid(&mut self)
        ensures
            final(self)@ == old(self)@.judged(),
    {
        self.is_duplicate = some_address_repeated(&self.recipients);
        self.is_valid = self.feerate.filled_and_valid() && some_coin_selected(&self.coins)
            && all_recipients_valid(&self.recipients) && !self.is_duplicate;
    }

    /// Brings the amount left to select up to date.
    pub fn amount_left_to_select(&mut self)
        requires
            forall|i: int|
                0 <= i < old(self)@.recipients.len() ==> (#[trigger] old(self)@.recipients[i]).wf(),
        ensures
            final(self)@ == old(self)@.estimated(),
    {
        proof {
            assert forall|i: int| 0 <= i < self.recipients@.len() implies (
            #[trigger] self.recipients@[i])@.wf() by {
                assert(self@.recipients[i].wf());
            }
        }
        self.amount_left_to_select = amount_left_to_select(
            self.feerate.value.as_str(),
            &self.coins,
            &self.recipients,
            self.max_sat_weight,
        );
    }

    /// What the recipients are to receive together, as far as their amounts
    /// are accepted, stopping at the largest `u64`.
    pub fn total_amount(&self) -> (r: u64)
        ensures
            r == capped(recipients_total(self@.recipients)),
    {
        let mut total: u64 = 0;
        let mut i: usize = 0;
        while i < self.recipients.len()
            invariant
                0 <= i <= self.recipients.len(),
                total == capped(
                    recipients_total(recipient_views(self.recipients@.subrange(0, i as int))),
                ),
            decreases self.recipients.len() - i,
        {
            proof {
                let next = recipient_views(self.recipients@.subrange(0, i + 1));
                assert(next.drop_last() =~= recipient_views(
                    self.recipients@.subrange(0, i as int),
                ));
                assert(next.last() == self.recipients@[i as int]@);
            }
            match self.recipients[i].amount() {
                Ok(sats) => {
                    total = total.saturating_add(sats);
                },
                Err(_) => {},
            }
            i = i + 1;
        }
        proof {
            assert(self.recipients@.subrange(0, i as int) =~= self.recipients@);
        }
        total
    }

    /// Sum of the values of the wallet's unspent coins.
    pub fn balance_available(&self) -> (r: u64)
        ensures
            r == self@.balance_available,
    {
        self.balance_available
    }

    /// Whether a transaction may be asked for.
    pub fn is_valid(&self) -> (r: bool)
        ensures
            r == self@.is_valid,
    {
        self.is_valid
    }

    /// Whether some recipient repeats the address of an earlier one.
    pub fn is_duplicate(&self) -> (r: bool)
        ensures
            r == self@.is_duplicate,
    {
        self.is_duplicate
    }

    /// The amount left to select, as it was last estimated.
    pub fn amount_left(&self) -> (r: Option<u64>)
        ensures
            r == self@.amount_left_to_select,
    {
        self.amount_left_to_select
    }

    /// The recovery timelock of the wallet.
    pub fn timelock(&self) -> (r: u16)
        ensures
            r == self@.timelock,
    {
        self.timelock
    }

    /// The recipients.
    pub fn recipients(&self) -> (r: &Vec<Recipient>)
        ensures
            recipient_views(r@) == self@.recipients,
    {
        &self.recipients
    }

    /// The coins on offer, each with its selection flag.
    pub fn coins(&self) -> (r: &Vec<(Coin, bool)>)
        ensures
            r@ == self@.coins,
    {
        &self.coins
    }

    /// The feerate field.
    pub fn feerate(&self) -> (r: &FormValue)
        ensures
            r@ == self@.feerate,
    {
        &self.feerate
    }

    /// The error of the last request for a transaction, if it failed.
    pub fn warning(&self) -> (r: &Option<String>)
        ensures
            text_of(*r) == self@.warning,
    {
        &self.warning
    }

    /// The transaction that was generated, if one was.
    pub fn generated(&self) -> (r: &Option<Psbt>)
        ensures
            *r == self@.generated,
    {
        &self.generated
    }

    /// Takes a message: an edit changes the draft as `after_edit` says, and
    /// the outcome of a request is kept. The result tells the caller what
    /// to do next.
    pub fn update(&mut self, network: Network, message: Message) -> (action: Action)
        requires
            old(self)@.wf(),
            old(self)@.accepts(message),
        ensures
            final(self)@ == old(self)@.after(network, message),
            final(self)@.wf(),
            action@ == old(self)@.action_for(message),
    {
        proof {
            lemma_after_wf(self@, network, message);
        }
        match message {
            Message::CreateSpend(edit) => {
                match edit {
                    CreateSpendMessage::AddRecipient => {
                        self.recipients.push(Recipient::new());
                        proof {
                            assert(recipient_views(self.recipients@) =~= old(self)@.recipients.push(
                                RecipientView::empty(),
                            ));
                        }
                    },
                    CreateSpendMessage::DeleteRecipient(at) => {
                        self.recipients.remove(at);
                        proof {
                            assert(recipient_views(self.recipients@) =~= old(
                                self,
                            )@.recipients.remove(at as int));
                        }
                    },
                    CreateSpendMessage::RecipientEdited(at, field, text) => {
                        proof {
                            assert(old(self)@.recipients[at as int].wf());
                        }
                        let ghost edited = old(self)@.recipients[at as int].edited(
                            network,
                            field,
                            text@,
                        );
                        let mut recipient: Recipient = self.recipients.remove(at);
                        recipient.update(network, field, text);
                        self.recipients.insert(at, recipient);
                        proof {
                            assert(recipient_views(self.recipients@) =~= old(
                                self,
                            )@.recipients.update(at as int, edited));
                        }
                    },
                    CreateSpendMessage::FeerateEdited(text) => {
                        match parse_u64(text.as_str()) {
                            Some(rate) => {
                                self.feerate = FormValue { value: text, valid: rate != 0 };
                                self.warning = None;
                                self.amount_left_to_select();
                            },
                            None => {
                                let is_empty: bool = text.as_str().is_empty();
                                self.feerate = FormValue { value: text, valid: is_empty };
                                self.amount_left_to_select = None;
                                self.warning = None;
                            },
                        }
                    },
                    CreateSpendMessage::Generate => {
                        proof {
                            assert forall|i: int| 0 <= i < self.recipients@.len() implies (
                            #[trigger] self.recipients@[i])@.wf() by {
                                assert(self@.recipients[i].wf());
                            }
                        }
                        let selected: Vec<Coin> = collect_selected(&self.coins);
                        let request = SpendRequest {
                            inputs: collect_outpoints(&selected),
                            outputs: collect_payments(&self.recipients),
                            feerate_vb: match parse_u64(self.feerate.value.as_str()) {
                                Some(rate) => rate,
                                None => 0,
                            },
                        };
                        self.warning = None;
                        return Action::CreateSpendTx(request);
                    },
                    CreateSpendMessage::SelectCoin(at) => {
                        if at < self.coins.len() {
                            let entry: (Coin, bool) = self.coins[at];
                            self.coins.set(at, (entry.0, !entry.1));
                            self.amount_left_to_select();
                        }
                    },
                }
                self.check_valid();
                Action::Stay
            },
            Message::Psbt(outcome) => {
                match outcome {
                    Ok(psbt) => {
                        self.generated = Some(psbt);
                        Action::Next
                    },
                    Err(error) => {
                        self.warning = Some(error);
                        Action::Stay
                    },
                }
            },
        }
    }

    /// Hands the selected coins and the generated transaction over to the
    /// draft that the next step reads.
    pub fn apply(&self, draft: &mut TransactionDraft)
        ensures
            final(draft).inputs@ == selected_coins(self@.coins),
            final(draft).generated == self@.generated,
    {
        draft.inputs = collect_selected(&self.coins);
        draft.generated = match &self.generated {
            Some(psbt) => Some(clone_psbt(psbt)),
            None => None,
        };
    }
}

/// Collects what each valid recipient of a list is paid.
pub fn collect_payments(recipients: &Vec<Recipient>) -> (r: Vec<Payment>)
    requires
        forall|i: int| 0 <= i < recipients@.len() ==> (#[trigger] recipients@[i])@.wf(),
    ensures
        payment_views(r@) == payments(recipient_views(recipients@)),
{
    let mut collected: Vec<Payment> = Vec::new();
    let mut i: usize = 0;
    while i < recipients.len()
        invariant
            0 <= i <= recipients.len(),
            forall|k: int| 0 <= k < recipients@.len() ==> (#[trigger] recipients@[k])@.wf(),
            payment_views(collected@) == payments(
                recipient_views(recipients@.subrange(0, i as int)),
            ),
        decreases recipients.len() - i,
    {
        let recipient: &Recipient = &recipients[i];
        proof {
            let next = recipient_views(recipients@.subrange(0, i + 1));
            assert(next.drop_last() =~= recipient_views(recipients@.subrange(0, i as int)));
            assert(next.last() == recipient@);
            assert(recipient@.wf());
        }
        if recipient.valid() {
            let ghost before = payment_views(collected@);
            let amount: u64 = match recipient.amount() {
                Ok(sats) => sats,
                Err(_) => 0,
            };
            let payment = Payment { address: recipient.address().value.clone(), amount };
            collected.push(payment);
            proof {
                assert(payment_views(collected@) =~= before.push((payment.address@, amount)));
            }
        }
        i = i + 1;
    }
    proof {
        assert(recipients@.subrange(0, i as int) =~= recipients@);
    }
    collected
}

/// Of two recipients with the same non-empty address the later one
/// repeats an earlier address, and a recipient whose address no earlier one
/// has repeats none: the first of them never does.
pub proof fn lemma_later_duplicate_flagged(recipients: Seq<RecipientView>, i: int, j: int)
    requires
        0 <= i < j < recipients.len(),
        recipients[i].address.value == recipients[j].address.value,
        recipients[i].address.value.len() > 0,
    ensures
        duplicate_at(recipients, j),
        has_duplicate(recipients),
        (forall|k: int| 0 <= k < i ==> (#[trigger] recipients[k]).address.value
            != recipients[i].address.value) ==> !duplicate_at(recipients, i),
        !duplicate_at(recipients, 0),
{
    assert(duplicate_at(recipients, j));
}

/// While an address is given twice no transaction may be asked for,
/// however valid each recipient is.
pub proof fn lemma_duplicate_blocks_spend(draft: DefineSpendView, i: int, j: int)
    requires
        draft.wf(),
        0 <= i < j < draft.recipients.len(),
        draft.recipients[i].address.value == draft.recipients[j].address.value,
        draft.recipients[i].address.value.len() > 0,
    ensures
        draft.is_duplicate,
        !draft.is_valid,
{
    lemma_later_duplicate_flagged(draft.recipients, i, j);
}

/// While no coin is selected no transaction may be asked for, whatever
/// the recipients and the feerate are.
pub proof fn lemma_no_coin_no_spend(draft: DefineSpendView)
    requires
        draft.wf(),
        !any_selected(draft.coins),
    ensures
        !draft.is_valid,
{
}

/// Flipping the selection of a coin twice gives back the draft as it was:
/// the coins, the balance, the flags, and the amount left to select, if
/// that was up to date before.
pub proof fn lemma_toggle_twice(draft: DefineSpendView, network: Network, at: usize)
    requires
        draft.wf(),
        draft.estimate_is_current(),
    ensures
        draft.after(network, Message::CreateSpend(CreateSpendMessage::SelectCoin(at))).after(
            network,
            Message::CreateSpend(CreateSpendMessage::SelectCoin(at)),
        ) == draft,
        draft.after(
            network,
            Message::CreateSpend(CreateSpendMessage::SelectCoin(at)),
        ).balance_available == draft.balance_available,
{
    let once = draft.after(network, Message::CreateSpend(CreateSpendMessage::SelectCoin(at)));
    let twice = once.after(network, Message::CreateSpend(CreateSpendMessage::SelectCoin(at)));
    if at < draft.coins.len() {
        assert(twice.coins =~= draft.coins);
    }
}

/// After an edit of the feerate the amount left to select is unknown
/// exactly when the text is no number, an empty text included; where it is
/// known it is up to date.
pub proof fn lemma_feerate_edit_estimate(draft: DefineSpendView, network: Network, text: String)
    ensures
        draft.after(
            network,
            Message::CreateSpend(CreateSpendMessage::FeerateEdited(text)),
        ).amount_left_to_select.is_none() <==> parse_unsigned(text@, u64::MAX as nat).is_none(),
        text@.len() == 0 ==> draft.after(
            network,
            Message::CreateSpend(CreateSpendMessage::FeerateEdited(text)),
        ).amount_left_to_select.is_none(),
        parse_unsigned(text@, u64::MAX as nat).is_some() ==> draft.after(
            network,
            Message::CreateSpend(CreateSpendMessage::FeerateEdited(text)),
        ).estimate_is_current(),
{
}

/// After the feerate field was given a text that is no number, no
/// transaction may be asked for and the amount left to select is unknown;
/// it stays unknown however coins are selected after that, until the field
/// is given a number.
pub proof fn lemma_no_estimate_without_feerate(
    draft: DefineSpendView,
    network: Network,
    text: String,
    at: usize,
)
    requires
        draft.wf(),
        parse_unsigned(text@, u64::MAX as nat).is_none(),
    ensures
        draft.after(
            network,
            Message::CreateSpend(CreateSpendMessage::FeerateEdited(text)),
        ).amount_left_to_select.is_none(),
        !draft.after(
            network,
            Message::CreateSpend(CreateSpendMessage::FeerateEdited(text)),
        ).is_valid,
        draft.after(network, Message::CreateSpend(CreateSpendMessage::FeerateEdited(text))).after(
            network,
            Message::CreateSpend(CreateSpendMessage::SelectCoin(at)),
        ).amount_left_to_select.is_none(),
        !draft.after(network, Message::CreateSpend(CreateSpendMessage::FeerateEdited(text))).after(
            network,
            Message::CreateSpend(CreateSpendMessage::SelectCoin(at)),
        ).is_valid,
{
}

/// In a draft that is well formed, and so after every message, the amount
/// left to select is unknown whenever the feerate field is empty or holds
/// a text that is no number.
pub proof fn lemma_no_feerate_no_estimate(draft: DefineSpendView)
    requires
        draft.wf(),
        parse_unsigned(draft.feerate.value, u64::MAX as nat).is_none(),
    ensures
        draft.amount_left_to_select.is_none(),
{
}

/// A coin toggle leaves the amount left to select unknown exactly when
/// the feerate field holds no number.
pub proof fn lemma_toggle_estimate_unknown_iff(draft: DefineSpendView, network: Network, at: usize)
    requires
        at < draft.coins.len(),
    ensures
        draft.after(
            network,
            Message::CreateSpend(CreateSpendMessage::SelectCoin(at)),
        ).amount_left_to_select.is_none() <==> parse_unsigned(
            draft.feerate.value,
            u64::MAX as nat,
        ).is_none(),
{
}

/// After the selection of a coin was flipped the amount left to select
/// is up to date, and the balance is what it was.
pub proof fn lemma_toggle_estimate(draft: DefineSpendView, network: Network, at: usize)
    requires
        at < draft.coins.len(),
    ensures
        draft.after(
            network,
            Message::CreateSpend(CreateSpendMessage::SelectCoin(at)),
        ).estimate_is_current(),
        draft.after(
            network,
            Message::CreateSpend(CreateSpendMessage::SelectCoin(at)),
        ).balance_available == draft.balance_available,
{
}

/// A request that failed leaves a warning and nothing else: recipients,
/// coins, feerate and flags are as they were, and no transaction counts as
/// generated that did not before.
pub proof fn lemma_failure_keeps_draft(draft: DefineSpendView, network: Network, error: String)
    ensures
        draft.after(network, Message::Psbt(Err(error))) == (DefineSpendView {
            warning: Some(error@),
            ..draft
        }),
{
}

/// The request of a valid draft carries a feerate that the feerate field
/// spells, and that is not zero.
pub proof fn lemma_valid_request_feerate(draft: DefineSpendView)
    requires
        draft.wf(),
        draft.is_valid,
    ensures
        parse_unsigned(draft.feerate.value, u64::MAX as nat) == Some(
            draft.request().feerate_vb as nat,
        ),
        draft.request().feerate_vb > 0,
        draft.request().inputs.len() > 0,
{
    let i = choose|i: int| 0 <= i < draft.coins.len() && (#[trigger] draft.coins[i]).1;
    lemma_selected_nonempty(draft.coins, i);
}

/// A list with a selected entry has a selected coin.
pub proof fn lemma_selected_nonempty(entries: Seq<(Coin, bool)>, at: int)
    requires
        0 <= at < entries.len(),
        entries[at].1,
    ensures
        selected_coins(entries).len() > 0,
    decreases entries.len(),
{
    if at < entries.len() - 1 {
        lemma_selected_nonempty(entries.drop_last(), at);
    }
}

/// A well-formed draft is well formed after every message that it
/// accepts: in particular its two flags are never stale.
pub proof fn lemma_after_wf(draft: DefineSpendView, network: Network, message: Message)
    requires
        draft.wf(),
        draft.accepts(message),
    ensures
        draft.after(network, message).wf(),
{
    let next = draft.after(network, message);
    match message {
        Message::CreateSpend(edit) => {
            match edit {
                CreateSpendMessage::AddRecipient => {
                    assert forall|i: int| 0 <= i < next.recipients.len() implies (
                    #[trigger] next.recipients[i]).wf() by {
                        if i < draft.recipients.len() {
                            assert(draft.recipients[i].wf());
                        }
                    }
                },
                CreateSpendMessage::DeleteRecipient(at) => {
                    assert forall|i: int| 0 <= i < next.recipients.len() implies (
                    #[trigger] next.recipients[i]).wf() by {
                        if i < at {
                            assert(draft.recipients[i].wf());
                        } else {
                            assert(draft.recipients[i + 1].wf());
                        }
                    }
                },
                CreateSpendMessage::RecipientEdited(at, field, text) => {
                    assert(draft.recipients[at as int].wf());
                    lemma_edited_wf(draft.recipients[at as int], network, field, text@);
                    assert forall|i: int| 0 <= i < next.recipients.len() implies (
                    #[trigger] next.recipients[i]).wf() by {
                        if i != at {
                            assert(draft.recipients[i].wf());
                        }
                    }
                },
                CreateSpendMessage::FeerateEdited(text) => {},
                CreateSpendMessage::Generate => {},
                CreateSpendMessage::SelectCoin(at) => {
                    assert forall|i: int| 0 <= i < next.coins.len() implies (
                    #[trigger] next.coins[i]).0.spend_info.is_none() by {
                        assert(draft.coins[i].0.spend_info.is_none());
                    }
                },
            }
        },
        Message::Psbt(Ok(psbt)) => {},
        Message::Psbt(Err(error)) => {},
    }
}

} // verus!
