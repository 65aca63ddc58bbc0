//! Coins of the wallet, as the spend screen sees them.

use vstd::prelude::*;

verus! {

/// A reference to one output of a transaction.
#[derive(Clone, Copy, Debug, PartialEq, Eq, Hash)]
pub struct OutPoint {
    /// Identifier of the transaction that created the output.
    pub txid: [u8; 32],
    /// Index of the output in that transaction.
    pub vout: u32,
}

/// Where a coin was spent, once it was.
#[derive(Clone, Copy, Debug, PartialEq, Eq, Hash)]
pub struct SpendInfo {
    /// Identifier of the spending transaction.
    pub txid: [u8; 32],
    /// Height at which the spending transaction confirmed, if it has.
    pub height: Option<i32>,
}

/// An output owned by the wallet.
#[derive(Clone, Copy, Debug, PartialEq, Eq, Hash)]
pub struct Coin {
    /// Value in satoshis.
    pub amount: u64,
    /// The output this coin is.
    pub outpoint: OutPoint,
    /// Height at which the coin confirmed; `None` while it is unconfirmed.
    pub block_height: Option<i32>,
    /// Set once another transaction consumes the coin.
    pub spend_info: Option<SpendInfo>,
}

/// One output of a transaction under construction.
#[derive(Clone, Debug, PartialEq, Eq, Hash)]
pub struct TxOutput {
    /// The script that locks the output.
    pub script_pubkey: Vec<u8>,
    /// Value in satoshis.
    pub value: u64,
}

/// An output as contracts see it.
pub ghost struct TxOutputView {
    pub script_pubkey: Seq<u8>,
    pub value: u64,
}

impl View for TxOutput {
    type V = TxOutputView;

    open spec fn view(&self) -> TxOutputView {
        TxOutputView { script_pubkey: self.script_pubkey@, value: self.value }
    }
}

/// The outputs of a list, each by its view.
pub open spec fn output_views(outputs: Seq<TxOutput>) -> Seq<TxOutputView> {
    Seq::new(outputs.len(), |i: int| outputs[i]@)
}

/// Number of blocks that remain, at height `blockheight`, before a coin
/// under a relative timelock of `timelock` blocks can be spent by the
/// recovery path: nothing once the timelock has run out, the whole
/// timelock while the coin is unconfirmed.
pub open spec fn remaining_blocks(coin: Coin, blockheight: u32, timelock: u16) -> nat {
    match coin.block_height {
        Some(height) => if height + timelock > blockheight {
            (height + timelock - blockheight) as nat
        } else {
            0
        },
        None => timelock as nat,
    }
}

/// Computes `remaining_blocks`.
pub fn remaining_sequence(coin: &Coin, blockheight: u32, timelock: u16) -> (r: u32)
    ensures
        r as nat == remaining_blocks(*coin, blockheight, timelock),
{
    match coin.block_height {
        Some(height) => {
            let matures: i64 = height as i64 + timelock as i64;
            if matures > blockheight as i64 {
                (matures - blockheight as i64) as u32
            } else {
                0
            }
        },
        None => timelock as u32,
    }
}

/// Whether `a` may stand before `b` in the list offered for selection:
/// the coin with fewer blocks remaining goes first, and of two with the
/// same number the one of greater value.
pub open spec fn may_precede(a: Coin, b: Coin, blockheight: u32, timelock: u16) -> bool {
    let ra = remaining_blocks(a, blockheight, timelock);
    let rb = remaining_blocks(b, blockheight, timelock);
    ra < rb || (ra == rb && a.amount >= b.amount)
}

/// Computes `may_precede`.
pub fn precedes(a: &Coin, b: &Coin, blockheight: u32, timelock: u16) -> (r: bool)
    ensures
        r == may_precede(*a, *b, blockheight, timelock),
{
    let ra: u32 = remaining_sequence(a, blockheight, timelock);
    let rb: u32 = remaining_sequence(b, blockheight, timelock);
    ra < rb || (ra == rb && a.amount >= b.amount)
}

/// An ordered list with one more coin, put behind every coin that may
/// precede it.
pub open spec fn insert_ordered(s: Seq<Coin>, coin: Coin, blockheight: u32, timelock: u16) -> Seq<
    Coin,
>
    decreases s.len(),
{
    if s.len() == 0 || may_precede(s.last(), coin, blockheight, timelock) {
        s.push(coin)
    } else {
        insert_ordered(s.drop_last(), coin, blockheight, timelock).push(s.last())
    }
}

/// The coins that can still be spent, in the order in which they are
/// offered: by `may_precede`, and coins that rank alike in the order in
/// which the wallet listed them.
pub open spec fn selectable_order(coins: Seq<Coin>, blockheight: u32, timelock: u16) -> Seq<Coin>
    decreases coins.len(),
{
    if coins.len() == 0 {
        Seq::empty()
    } else if coins.last().spend_info.is_none() {
        insert_ordered(
            selectable_order(coins.drop_last(), blockheight, timelock),
            coins.last(),
            blockheight,
            timelock,
        )
    } else {
        selectable_order(coins.drop_last(), blockheight, timelock)
    }
}

/// Whether each coin of a list may precede all that follow it.
pub open spec fn is_ordered(s: Seq<Coin>, blockheight: u32, timelock: u16) -> bool {
    forall|i: int, j: int|
        0 <= i < j < s.len() ==> may_precede(#[trigger] s[i], #[trigger] s[j], blockheight, timelock)
}

/// The unspent coins of a list, in the order of the list.
pub open spec fn unspent(coins: Seq<Coin>) -> Seq<Coin> {
    coins.filter(|c: Coin| c.spend_info.is_none())
}

/// Sum of the values of the unspent coins of a list.
pub open spec fn unspent_total(coins: Seq<Coin>) -> nat
    decreases coins.len(),
{
    if coins.len() == 0 {
        0
    } else if coins.last().spend_info.is_none() {
        unspent_total(coins.drop_last()) + coins.last().amount as nat
    } else {
        unspent_total(coins.drop_last())
    }
}

/// A sum of satoshis as a `u64` holds it: itself, or the largest `u64`
/// where it is greater.
pub open spec fn capped(sum: nat) -> u64 {
    if sum > u64::MAX {
        u64::MAX
    } else {
        sum as u64
    }
}

/// Putting a coin at the place that a scan from the back finds is what
/// `insert_ordered` describes.
pub proof fn lemma_insert_at(s: Seq<Coin>, coin: Coin, blockheight: u32, timelock: u16, at: int)
    requires
        0 <= at <= s.len(),
        at == 0 || may_precede(s[at - 1], coin, blockheight, timelock),
        forall|k: int| at <= k < s.len() ==> !may_precede(#[trigger] s[k], coin, blockheight, timelock),
    ensures
        insert_ordered(s, coin, blockheight, timelock) == s.insert(at, coin),
    decreases s.len() - at,
{
    if at == s.len() {
        assert(s.push(coin) =~= s.insert(at, coin));
    } else {
        assert(!may_precede(s[s.len() - 1], coin, blockheight, timelock));
        lemma_insert_at(s.drop_last(), coin, blockheight, timelock, at);
        assert(s.drop_last().insert(at, coin).push(s.last()) =~= s.insert(at, coin));
    }
}

/// `insert_ordered` keeps a list ordered and adds exactly the new coin.
pub proof fn lemma_insert_ordered(s: Seq<Coin>, coin: Coin, blockheight: u32, timelock: u16)
    requires
        is_ordered(s, blockheight, timelock),
    ensures
        is_ordered(insert_ordered(s, coin, blockheight, timelock), blockheight, timelock),
        insert_ordered(s, coin, blockheight, timelock).to_multiset() == s.to_multiset().insert(
            coin,
        ),
        insert_ordered(s, coin, blockheight, timelock).len() == s.len() + 1,
    decreases s.len(),
{
    broadcast use vstd::seq_lib::group_to_multiset_ensures;

    let r = insert_ordered(s, coin, blockheight, timelock);
    if s.len() == 0 || may_precede(s.last(), coin, blockheight, timelock) {
        assert forall|i: int, j: int| 0 <= i < j < r.len() implies may_precede(
            #[trigger] r[i],
            #[trigger] r[j],
            blockheight,
            timelock,
        ) by {
            if j == s.len() && i < s.len() - 1 {
                assert(may_precede(s[i], s[s.len() - 1], blockheight, timelock));
            }
        }
    } else {
        let front = s.drop_last();
        assert forall|i: int, j: int| 0 <= i < j < front.len() implies may_precede(
            #[trigger] front[i],
            #[trigger] front[j],
            blockheight,
            timelock,
        ) by {
            assert(front[i] == s[i] && front[j] == s[j]);
        }
        lemma_insert_ordered(front, coin, blockheight, timelock);
        let inner = insert_ordered(front, coin, blockheight, timelock);
        assert(r == inner.push(s.last()));
        assert(s =~= front.push(s.last()));
        assert(front.push(s.last()).to_multiset() == front.to_multiset().insert(s.last()));
        assert(r.to_multiset() =~= s.to_multiset().insert(coin));
        assert forall|i: int| 0 <= i < inner.len() implies may_precede(
            #[trigger] inner[i],
            s.last(),
            blockheight,
            timelock,
        ) by {
            assert(inner.to_multiset().count(inner[i]) > 0);
            if inner[i] != coin {
                assert(front.to_multiset().count(inner[i]) > 0);
                assert(front.contains(inner[i]));
                let k = choose|k: int| 0 <= k < front.len() && front[k] == inner[i];
                assert(may_precede(s[k], s[s.len() - 1], blockheight, timelock));
            }
        }
        assert forall|i: int, j: int| 0 <= i < j < r.len() implies may_precede(
            #[trigger] r[i],
            #[trigger] r[j],
            blockheight,
            timelock,
        ) by {
            if j < inner.len() {
                assert(may_precede(inner[i], inner[j], blockheight, timelock));
            }
        }
    }
}

/// The coins offered for selection are ordered by `may_precede`.
pub proof fn lemma_selectable_order_is_ordered(coins: Seq<Coin>, blockheight: u32, timelock: u16)
    ensures
        is_ordered(selectable_order(coins, blockheight, timelock), blockheight, timelock),
    decreases coins.len(),
{
    if coins.len() > 0 {
        lemma_selectable_order_is_ordered(coins.drop_last(), blockheight, timelock);
        if coins.last().spend_info.is_none() {
            lemma_insert_ordered(
                selectable_order(coins.drop_last(), blockheight, timelock),
                coins.last(),
                blockheight,
                timelock,
            );
        }
    }
}

/// The coins offered for selection are the unspent coins of the wallet,
/// each as often as the wallet listed it, and no other.
pub proof fn lemma_selectable_order_is_unspent(coins: Seq<Coin>, blockheight: u32, timelock: u16)
    ensures
        selectable_order(coins, blockheight, timelock).to_multiset() == unspent(
            coins,
        ).to_multiset(),
        selectable_order(coins, blockheight, timelock).len() == unspent(coins).len(),
    decreases coins.len(),
{
    broadcast use vstd::seq_lib::group_to_multiset_ensures;

    reveal(Seq::filter);
    if coins.len() > 0 {
        let front = coins.drop_last();
        lemma_selectable_order_is_unspent(front, blockheight, timelock);
        if coins.last().spend_info.is_none() {
            lemma_selectable_order_is_ordered(front, blockheight, timelock);
            lemma_insert_ordered(
                selectable_order(front, blockheight, timelock),
                coins.last(),
                blockheight,
                timelock,
            );
            assert(unspent(coins) == unspent(front).push(coins.last()));
        } else {
            assert(unspent(coins) == unspent(front));
        }
    } else {
        assert(unspent(coins) =~= Seq::<Coin>::empty());
    }
}

/// Unspent coins that the wallet lists in order are offered as they are
/// listed: coins that rank alike are never swapped.
pub proof fn lemma_ordered_coins_keep_their_order(coins: Seq<Coin>, blockheight: u32, timelock: u16)
    requires
        is_ordered(unspent(coins), blockheight, timelock),
    ensures
        selectable_order(coins, blockheight, timelock) == unspent(coins),
    decreases coins.len(),
{
    reveal(Seq::filter);
    if coins.len() == 0 {
        assert(unspent(coins) =~= Seq::<Coin>::empty());
    } else {
        let front = coins.drop_last();
        if coins.last().spend_info.is_none() {
            assert(unspent(coins) == unspent(front).push(coins.last()));
            assert forall|i: int, j: int| 0 <= i < j < unspent(front).len() implies may_precede(
                #[trigger] unspent(front)[i],
                #[trigger] unspent(front)[j],
                blockheight,
                timelock,
            ) by {
                assert(unspent(coins)[i] == unspent(front)[i]);
                assert(unspent(coins)[j] == unspent(front)[j]);
            }
            lemma_ordered_coins_keep_their_order(front, blockheight, timelock);
            if unspent(front).len() > 0 {
                assert(unspent(coins)[unspent(front).len() - 1] == unspent(front).last());
                assert(unspent(coins)[unspent(front).len() as int] == coins.last());
            }
        } else {
            assert(unspent(coins) == unspent(front));
            lemma_ordered_coins_keep_their_order(front, blockheight, timelock);
        }
    }
}

/// No coin offered for selection is spent.
pub proof fn lemma_selectable_order_all_unspent(coins: Seq<Coin>, blockheight: u32, timelock: u16)
    ensures
        forall|i: int|
            0 <= i < selectable_order(coins, blockheight, timelock).len() ==> (
            #[trigger] selectable_order(coins, blockheight, timelock)[i]).spend_info.is_none(),
{
    broadcast use vstd::seq_lib::group_to_multiset_ensures;

    let ordered = selectable_order(coins, blockheight, timelock);
    lemma_selectable_order_is_unspent(coins, blockheight, timelock);
    reveal(Seq::filter);
    assert forall|i: int| 0 <= i < ordered.len() implies (#[trigger] ordered[i]).spend_info.is_none() by {
        assert(ordered.to_multiset().count(ordered[i]) > 0);
        assert(unspent(coins).contains(ordered[i]));
        let k = choose|k: int| 0 <= k < unspent(coins).len() && unspent(coins)[k] == ordered[i];
        coins.lemma_filter_pred(|c: Coin| c.spend_info.is_none(), k);
    }
}

/// Filters out the spent coins of the wallet and orders the others for
/// selection.
pub fn selectable_coins(coins: &Vec<Coin>, blockheight: u32, timelock: u16) -> (r: Vec<Coin>)
    ensures
        r@ == selectable_order(coins@, blockheight, timelock),
{
    let mut ordered: Vec<Coin> = Vec::new();
    let mut i: usize = 0;
    while i < coins.len()
        invariant
            0 <= i <= coins.len(),
            ordered@ == selectable_order(coins@.subrange(0, i as int), blockheight, timelock),
        decreases coins.len() - i,
    {
        let coin: Coin = coins[i];
        proof {
            assert(coins@.subrange(0, i + 1).drop_last() =~= coins@.subrange(0, i as int));
            assert(coins@.subrange(0, i + 1).last() == coin);
        }
        if coin.spend_info.is_none() {
            let mut at: usize = ordered.len();
            while at > 0 && !precedes(&ordered[at - 1], &coin, blockheight, timelock)
                invariant
                    0 <= at <= ordered.len(),
                    forall|k: int|
                        at <= k < ordered.len() ==> !may_precede(
                            #[trigger] ordered@[k],
                            coin,
                            blockheight,
                            timelock,
                        ),
                decreases at,
            {
                at = at - 1;
            }
            proof {
                lemma_insert_at(ordered@, coin, blockheight, timelock, at as int);
            }
            ordered.insert(at, coin);
        }
        i = i + 1;
    }
    proof {
        assert(coins@.subrange(0, i as int) =~= coins@);
    }
    ordered
}

/// Adds up the values of the unspent coins of the wallet, stopping at the
/// largest `u64`.
pub fn balance_of(coins: &Vec<Coin>) -> (r: u64)
    ensures
        r == capped(unspent_total(coins@)),
{
    let mut total: u64 = 0;
    let mut i: usize = 0;
    while i < coins.len()
        invariant
            0 <= i <= coins.len(),
            total == capped(unspent_total(coins@.subrange(0, i as int))),
        decreases coins.len() - i,
    {
        proof {
            assert(coins@.subrange(0, i + 1).drop_last() =~= coins@.subrange(0, i as int));
        }
        if coins[i].spend_info.is_none() {
            total = total.saturating_add(coins[i].amount);
        }
        i = i + 1;
    }
    proof {
        assert(coins@.subrange(0, i as int) =~= coins@);
    }
    total
}

} // verus!
