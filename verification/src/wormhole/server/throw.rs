//! Giving items to another user.
//!
//! A throw spans two hacksteads. It is decided on the pending changes of both
//! sides, and either both sides change or neither does.
use crate::hackstead::item::{Item, ItemView};
use crate::hackstead::item::lemma_trade_extends_log;
use crate::hackstead::{
    clone_items, item_ids, lemma_item_found, lemma_with_items_wf, lemma_without_item,
    lemma_without_item_wf, HacksteadView,
};
use crate::lookup::distinct;
use crate::id::{ItemId, NoSuch, SteaderId};
use crate::text::Complaint;
use crate::wormhole::note::{Note, NoteView, RudeNote, RudeNoteView};
use crate::wormhole::session::{SessSend, SessSendView};
use vstd::prelude::*;
use vstd::string::*;

verus! {

/// Why items could not be thrown.
#[derive(Clone, Copy, Debug, PartialEq, Eq, Structural)]
pub enum Error {
    /// An item is not in the sender's inventory.
    NoSuch(NoSuch),
    /// The user named has no live session.
    PartyOffline(SteaderId),
    /// A session could not be reached.
    Mailbox,
    /// The item named does not belong to the sender.
    MixedOwnership(ItemId),
    /// The sender and the receiver are the same.
    SelfGive,
}

impl Complaint for Error {
    open spec fn complaint(&self) -> Seq<char> {
        match *self {
            Error::NoSuch(e) => "couldn't throw items to another user: "@ + e.complaint(),
            Error::PartyOffline(u) => "couldn't throw items to another user: sender or receiver "@
                + crate::id::hyphenated(u.0)
                + " is offline, which makes it impossible to trade (for now)"@,
            Error::Mailbox =>
                "couldn't throw items to another user: couldn't communicate with a users's session, possibly they are offline"@,
            Error::MixedOwnership(i) =>
                "couldn't throw items to another user: transfer of item "@ + crate::id::hyphenated(
                    i.0,
                ) + " requested but sender was not owner"@,
            Error::SelfGive =>
                "couldn't throw items to another user: huh? the sender and receiver are the same, this accomplishes nothing!"@,
        }
    }

    fn message(&self) -> (text: String) {
        match self {
            Error::NoSuch(e) => {
                let mut text = String::from_str("couldn't throw items to another user: ");
                text.append(e.message().as_str());
                text
            },
            Error::PartyOffline(u) => {
                let mut text = String::from_str(
                    "couldn't throw items to another user: sender or receiver ",
                );
                text.append(u.text().as_str());
                text.append(" is offline, which makes it impossible to trade (for now)");
                text
            },
            Error::Mailbox => String::from_str(
                "couldn't throw items to another user: couldn't communicate with a users's session, possibly they are offline",
            ),
            Error::MixedOwnership(i) => {
                let mut text = String::from_str(
                    "couldn't throw items to another user: transfer of item ",
                );
                text.append(i.text().as_str());
                text.append(" requested but sender was not owner");
                text
            },
            Error::SelfGive => String::from_str(
                "couldn't throw items to another user: huh? the sender and receiver are the same, this accomplishes nothing!",
            ),
        }
    }
}

/// Asks that items pass from one user to another.
#[derive(Debug, PartialEq, Eq)]
pub struct ThrowItems {
    pub sender_id: SteaderId,
    pub receiver_id: SteaderId,
    pub item_ids: Vec<ItemId>,
}

/// What is left of a hackstead, and what was taken, once the items with the
/// given ids were taken out of it one after the other; the first id that finds
/// no item makes it fail.
pub open spec fn taken(hs: HacksteadView, ids: Seq<ItemId>) -> Result<
    (HacksteadView, Seq<ItemView>),
    NoSuch,
>
    decreases ids.len(),
{
    if ids.len() == 0 {
        Ok((hs, Seq::empty()))
    } else {
        match taken(hs, ids.drop_last()) {
            Ok((rest, items)) => if rest.has_item(ids.last()) {
                Ok((rest.without_item(ids.last()), items.push(rest.item(ids.last()))))
            } else {
                Err(NoSuch::Item(ids.last()))
            },
            Err(e) => Err(e),
        }
    }
}

/// The id of the first item that is not logged to `owner`, if there is one.
pub open spec fn stranger(items: Seq<ItemView>, owner: SteaderId) -> Option<ItemId>
    decreases items.len(),
{
    if items.len() == 0 {
        None
    } else {
        match stranger(items.drop_last(), owner) {
            Some(id) => Some(id),
            None => if items.last().logged_to(owner) {
                None
            } else {
                Some(items.last().item_id)
            },
        }
    }
}

/// The items after each was given to `receiver`.
pub open spec fn all_traded(items: Seq<ItemView>, receiver: SteaderId) -> Seq<ItemView> {
    Seq::new(items.len(), |i: int| items[i].traded(receiver))
}

/// What a result with items holds.
pub open spec fn seen(r: Result<Vec<Item>, Error>) -> Result<Seq<ItemView>, Error> {
    match r {
        Ok(items) => Ok(items.deep_view()),
        Err(e) => Err(e),
    }
}

/// What a throw does to the pending changes of the sender (`tx`) and of the
/// receiver (`rx`).
///
/// It fails, and changes nothing on either side, where the sender is the
/// receiver, where an id finds no item in what is left of the sender's
/// inventory, or where an item is not logged to the sender. Else the items
/// leave the sender's inventory; each gets the receiver as its owner and as
/// the next entry of its log; they stand at the end of the receiver's
/// inventory, are handed out, and are announced to the receiver.
pub open spec fn throw_done(
    tx_before: SessSendView,
    tx_after: SessSendView,
    rx_before: SessSendView,
    rx_after: SessSendView,
    sender_id: SteaderId,
    receiver_id: SteaderId,
    item_ids: Seq<ItemId>,
    result: Result<Seq<ItemView>, Error>,
) -> bool {
    if sender_id == receiver_id {
        result == Err::<Seq<ItemView>, Error>(Error::SelfGive) && tx_after == tx_before
            && rx_after == rx_before
    } else {
        match taken(tx_before.hackstead, item_ids) {
            Err(e) => result == Err::<Seq<ItemView>, Error>(Error::NoSuch(e)) && tx_after
                == tx_before && rx_after == rx_before,
            Ok((rest, items)) => match stranger(items, sender_id) {
                Some(id) => result == Err::<Seq<ItemView>, Error>(Error::MixedOwnership(id))
                    && tx_after == tx_before && rx_after == rx_before,
                None => {
                    let moved = all_traded(items, receiver_id);
                    &&& result == Ok::<Seq<ItemView>, Error>(moved)
                    &&& tx_after == tx_before.with_hackstead(rest)
                    &&& rx_after == rx_before.with_hackstead(
                        rx_before.hackstead.with_items(moved),
                    ).with_note(
                        NoteView::Rude(
                            RudeNoteView::ItemThrowReceipt { from: sender_id, items: moved },
                        ),
                    )
                },
            },
        }
    }
}

/// Throws items from one user to another, on the pending changes of both.
///
/// Fails with [`Error::SelfGive`] where the sender is the receiver, with
/// [`NoSuch::Item`] at the first id that finds no item in what is left of the
/// sender's inventory, and with [`Error::MixedOwnership`] at the first item
/// that is not logged to the sender; nothing changes then on either side.
pub fn throw_items(tx: &mut SessSend, rx: &mut SessSend, msg: &ThrowItems) -> (r: Result<
    Vec<Item>,
    Error,
>)
    ensures
        throw_done(
            old(tx)@,
            final(tx)@,
            old(rx)@,
            final(rx)@,
            msg.sender_id,
            msg.receiver_id,
            msg.item_ids@,
            seen(r),
        ),
{
    if msg.sender_id == msg.receiver_id {
        return Err(Error::SelfGive);
    }
    let mut rest = tx.hackstead.clone();
    let mut items: Vec<Item> = Vec::new();
    let mut k: usize = 0;
    proof {
        assert(msg.item_ids@.take(0) =~= Seq::empty());
        assert(items.deep_view() =~= Seq::empty());
    }
    while k < msg.item_ids.len()
        invariant
            k <= msg.item_ids.len(),
            *tx == *old(tx),
            *rx == *old(rx),
            msg.sender_id != msg.receiver_id,
            taken(tx@.hackstead, msg.item_ids@.take(k as int)) == Ok::<
                (HacksteadView, Seq<ItemView>),
                NoSuch,
            >((rest@, items.deep_view())),
        decreases msg.item_ids.len() - k,
    {
        proof {
            assert(msg.item_ids@.take(k + 1).drop_last() =~= msg.item_ids@.take(k as int));
        }
        let ghost before = items.deep_view();
        match rest.take_item(msg.item_ids[k]) {
            Ok(item) => {
                items.push(item);
                proof {
                    assert(items.deep_view() =~= before.push(item@));
                }
            },
            Err(e) => {
                proof {
                    let ids = msg.item_ids@;
                    assert(ids.take(k + 1).last() == ids[k as int]);
                    assert(taken(tx@.hackstead, ids.take(k + 1)) == Err::<
                        (HacksteadView, Seq<ItemView>),
                        NoSuch,
                    >(NoSuch::Item(ids[k as int])));
                    lemma_taken_fails(tx@.hackstead, ids, k as int + 1);
                }
                return Err(Error::NoSuch(e));
            },
        }
        k = k + 1;
    }
    proof {
        assert(msg.item_ids@.take(k as int) =~= msg.item_ids@);
    }
    let ghost held = items.deep_view();
    let mut j: usize = 0;
    while j < items.len()
        invariant
            j <= items.len(),
            *tx == *old(tx),
            *rx == *old(rx),
            held == items.deep_view(),
            msg.sender_id != msg.receiver_id,
            taken(tx@.hackstead, msg.item_ids@) == Ok::<(HacksteadView, Seq<ItemView>), NoSuch>(
                (rest@, held),
            ),
            stranger(held.take(j as int), msg.sender_id) is None,
        decreases items.len() - j,
    {
        proof {
            assert(held.take(j + 1).drop_last() =~= held.take(j as int));
        }
        if !items[j].logged_to(msg.sender_id) {
            proof {
                lemma_stranger_stays(held, msg.sender_id, j as int + 1);
            }
            return Err(Error::MixedOwnership(items[j].item_id));
        }
        j = j + 1;
    }
    proof {
        assert(held.take(j as int) =~= held);
    }
    let ghost moved_all = all_traded(held, msg.receiver_id);
    let mut moved: Vec<Item> = Vec::new();
    let mut i: usize = 0;
    proof {
        assert(rx@.hackstead.inventory + moved_all.take(0) =~= rx@.hackstead.inventory);
    }
    while i < items.len()
        invariant
            i <= items.len(),
            *tx == *old(tx),
            held == items.deep_view(),
            moved_all == all_traded(held, msg.receiver_id),
            moved@.len() == i,
            forall|n: int| 0 <= n < i ==> (#[trigger] moved@[n])@ == moved_all[n],
            rx@ == old(rx)@.with_hackstead(
                old(rx)@.hackstead.with_items(moved_all.take(i as int)),
            ),
        decreases items.len() - i,
    {
        let mut item = items[i].clone();
        item.trade(msg.receiver_id);
        rx.hackstead.give_item(item.clone());
        moved.push(item);
        proof {
            assert(old(rx)@.hackstead.inventory + moved_all.take(i as int) + seq![
                moved_all[i as int],
            ] =~= old(rx)@.hackstead.inventory + moved_all.take(i + 1));
        }
        i = i + 1;
    }
    proof {
        assert(moved_all.take(i as int) =~= moved_all);
        assert(moved.deep_view() =~= moved_all);
    }
    rx.send_note(
        Note::Rude(RudeNote::ItemThrowReceipt { from: msg.sender_id, items: clone_items(&moved) }),
    );
    tx.hackstead = rest;
    Ok(moved)
}

/// Once a prefix of the ids fails to be taken, the whole fails in the same way.
pub proof fn lemma_taken_fails(hs: HacksteadView, ids: Seq<ItemId>, k: int)
    requires
        0 <= k <= ids.len(),
        taken(hs, ids.take(k)) is Err,
    ensures
        taken(hs, ids) == taken(hs, ids.take(k)),
    decreases ids.len() - k,
{
    if k < ids.len() {
        assert(ids.take(k + 1).drop_last() =~= ids.take(k));
        lemma_taken_fails(hs, ids, k + 1);
    } else {
        assert(ids.take(k) =~= ids);
    }
}

/// A stranger among the first `k` items is the stranger among them all.
pub proof fn lemma_stranger_stays(items: Seq<ItemView>, owner: SteaderId, k: int)
    requires
        0 <= k <= items.len(),
        stranger(items.take(k), owner) is Some,
    ensures
        stranger(items, owner) == stranger(items.take(k), owner),
    decreases items.len() - k,
{
    if k < items.len() {
        assert(items.take(k + 1).drop_last() =~= items.take(k));
        lemma_stranger_stays(items, owner, k + 1);
    } else {
        assert(items.take(k) =~= items);
    }
}

/// What was taken by id out of an inventory in which no id occurs twice: one
/// item for each id, each the item that a search by its id finds, and all of
/// them items of the inventory.
pub proof fn lemma_taken_items(hs: HacksteadView, ids: Seq<ItemId>)
    requires
        distinct(item_ids(hs.inventory)),
        taken(hs, ids) is Ok,
    ensures
        taken(hs, ids)->Ok_0.1.len() == ids.len(),
        distinct(ids),
        distinct(item_ids(taken(hs, ids)->Ok_0.0.inventory)),
        forall|k: int|
            0 <= k < ids.len() ==> {
                &&& hs.has_item(#[trigger] ids[k])
                &&& taken(hs, ids)->Ok_0.1[k] == hs.item(ids[k])
                &&& !taken(hs, ids)->Ok_0.0.has_item(ids[k])
            },
        forall|other: ItemId|
            #![trigger taken(hs, ids)->Ok_0.0.has_item(other)]
            taken(hs, ids)->Ok_0.0.has_item(other) ==> hs.has_item(other) && taken(
                hs,
                ids,
            )->Ok_0.0.item(other) == hs.item(other),
    decreases ids.len(),
{
    if ids.len() > 0 {
        let head = ids.drop_last();
        let id = ids.last();
        lemma_taken_items(hs, head);
        let (rest, items) = taken(hs, head)->Ok_0;
        lemma_without_item(rest, id);
        let last = rest.without_item(id);
        assert forall|i: int, j: int| 0 <= i < j < ids.len() implies ids[i] != ids[j] by {
            assert(head[i] == ids[i]);
            if j < head.len() {
                assert(head[j] == ids[j]);
            } else {
                assert(!rest.has_item(head[i]));
            }
        }
        assert forall|k: int| 0 <= k < ids.len() implies {
            &&& hs.has_item(#[trigger] ids[k])
            &&& taken(hs, ids)->Ok_0.1[k] == hs.item(ids[k])
            &&& !last.has_item(ids[k])
        } by {
            if k < head.len() {
                assert(head[k] == ids[k]);
                assert(!rest.has_item(ids[k]));
                if ids[k] != id {
                    assert(last.has_item(ids[k]) == rest.has_item(ids[k]));
                }
            }
        }
        assert forall|other: ItemId| #![trigger last.has_item(other)] last.has_item(other) implies hs.has_item(
            other,
        ) && last.item(other) == hs.item(other) by {
            if other != id {
                assert(last.has_item(other) == rest.has_item(other));
                assert(rest.has_item(other));
            }
        }
    }
}

/// What is left of a sound hackstead after items were taken out of it is sound.
pub proof fn lemma_taken_wf(hs: HacksteadView, ids: Seq<ItemId>)
    requires
        hs.wf(),
        taken(hs, ids) is Ok,
    ensures
        taken(hs, ids)->Ok_0.0.wf(),
    decreases ids.len(),
{
    if ids.len() > 0 {
        lemma_taken_wf(hs, ids.drop_last());
        lemma_without_item_wf(taken(hs, ids.drop_last())->Ok_0.0, ids.last());
    }
}

/// A throw that has room in the logs leaves both hacksteads sound, where the
/// receiver is the user of the receiving hackstead and holds no item under an
/// id of the batch.
pub proof fn lemma_throw_keeps_wf(
    tx_before: SessSendView,
    tx_after: SessSendView,
    rx_before: SessSendView,
    rx_after: SessSendView,
    sender_id: SteaderId,
    receiver_id: SteaderId,
    item_ids: Seq<ItemId>,
    result: Result<Seq<ItemView>, Error>,
)
    requires
        throw_done(
            tx_before,
            tx_after,
            rx_before,
            rx_after,
            sender_id,
            receiver_id,
            item_ids,
            result,
        ),
        tx_before.hackstead.wf(),
        rx_before.hackstead.wf(),
        rx_before.hackstead.profile.steader_id == receiver_id,
        forall|k: int|
            0 <= k < item_ids.len() ==> !rx_before.hackstead.has_item(#[trigger] item_ids[k]),
        forall|i: int|
            0 <= i < tx_before.hackstead.inventory.len() ==> (
            #[trigger] tx_before.hackstead.inventory[i]).ownership_log.len() < usize::MAX,
    ensures
        tx_after.hackstead.wf(),
        rx_after.hackstead.wf(),
{
    let hs = tx_before.hackstead;
    if result is Ok {
        lemma_taken_wf(hs, item_ids);
        lemma_taken_items(hs, item_ids);
        let items = taken(hs, item_ids)->Ok_0.1;
        let moved = all_traded(items, receiver_id);
        assert forall|k: int| 0 <= k < moved.len() implies {
            &&& (#[trigger] moved[k]).wf()
            &&& moved[k].owner_id == receiver_id
            &&& moved[k].item_id == item_ids[k]
            &&& !rx_before.hackstead.has_item(moved[k].item_id)
        } by {
            lemma_item_found(hs, item_ids[k]);
            assert(items[k] == hs.item(item_ids[k]));
            assert(hs.inventory[hs.item_at(item_ids[k])].wf());
            lemma_trade_extends_log(items[k], receiver_id);
        }
        assert(crate::hackstead::item_ids(moved) =~= item_ids);
        lemma_with_items_wf(rx_before.hackstead, moved);
    }
}

/// Where no item is a stranger, every item is logged to the owner.
pub proof fn lemma_no_stranger(items: Seq<ItemView>, owner: SteaderId)
    requires
        stranger(items, owner) is None,
    ensures
        forall|k: int| 0 <= k < items.len() ==> (#[trigger] items[k]).logged_to(owner),
    decreases items.len(),
{
    if items.len() > 0 {
        lemma_no_stranger(items.drop_last(), owner);
        assert forall|k: int| 0 <= k < items.len() implies (#[trigger] items[k]).logged_to(
            owner,
        ) by {
            if k < items.len() - 1 {
                assert(items.drop_last()[k] == items[k]);
            }
        }
    }
}

/// After a throw that succeeded, the log of every item that moved is one entry
/// longer than it was, and the new entry counts one owner more than the entry
/// before it.
pub proof fn lemma_throw_extends_logs(
    tx_before: SessSendView,
    tx_after: SessSendView,
    rx_before: SessSendView,
    rx_after: SessSendView,
    sender_id: SteaderId,
    receiver_id: SteaderId,
    item_ids: Seq<ItemId>,
    result: Result<Seq<ItemView>, Error>,
)
    requires
        tx_before.hackstead.wf(),
        throw_done(
            tx_before,
            tx_after,
            rx_before,
            rx_after,
            sender_id,
            receiver_id,
            item_ids,
            result,
        ),
        result is Ok,
    ensures
        result->Ok_0.len() == item_ids.len(),
        forall|k: int|
            0 <= k < item_ids.len() ==> {
                let old = tx_before.hackstead.item(#[trigger] item_ids[k]);
                let new = result->Ok_0[k];
                &&& new.item_id == old.item_id
                &&& new.owner_id == receiver_id
                &&& new.ownership_log.len() == old.ownership_log.len() + 1
                &&& new.ownership_log.last().owner_index == old.ownership_log.last().owner_index
                    + 1
                &&& new.ownership_log.last().logged_owner_id == receiver_id
            },
{
    let hs = tx_before.hackstead;
    lemma_taken_items(hs, item_ids);
    let items = taken(hs, item_ids)->Ok_0.1;
    assert forall|k: int| 0 <= k < item_ids.len() implies {
        let old = hs.item(#[trigger] item_ids[k]);
        let new = result->Ok_0[k];
        &&& new.item_id == old.item_id
        &&& new.owner_id == receiver_id
        &&& new.ownership_log.len() == old.ownership_log.len() + 1
        &&& new.ownership_log.last().owner_index == old.ownership_log.last().owner_index + 1
        &&& new.ownership_log.last().logged_owner_id == receiver_id
    } by {
        crate::hackstead::lemma_item_found(hs, item_ids[k]);
        assert(hs.item(item_ids[k]).wf());
        lemma_trade_extends_log(hs.item(item_ids[k]), receiver_id);
        assert(result->Ok_0[k] == items[k].traded(receiver_id));
    }
}

/// A throw in which an id finds no item of the sender, or finds an item that is
/// not logged to the sender, fails, and changes nothing on either side: no
/// item of the batch changes its owner.
pub proof fn lemma_throw_is_atomic(
    tx_before: SessSendView,
    tx_after: SessSendView,
    rx_before: SessSendView,
    rx_after: SessSendView,
    sender_id: SteaderId,
    receiver_id: SteaderId,
    item_ids: Seq<ItemId>,
    result: Result<Seq<ItemView>, Error>,
    k: int,
)
    requires
        tx_before.hackstead.wf(),
        throw_done(
            tx_before,
            tx_after,
            rx_before,
            rx_after,
            sender_id,
            receiver_id,
            item_ids,
            result,
        ),
        0 <= k < item_ids.len(),
        !tx_before.hackstead.has_item(item_ids[k]) || !tx_before.hackstead.item(
            item_ids[k],
        ).logged_to(sender_id),
    ensures
        result is Err,
        tx_after == tx_before,
        rx_after == rx_before,
{
    let hs = tx_before.hackstead;
    if sender_id != receiver_id && taken(hs, item_ids) is Ok {
        lemma_taken_items(hs, item_ids);
        let items = taken(hs, item_ids)->Ok_0.1;
        if stranger(items, sender_id) is None {
            lemma_no_stranger(items, sender_id);
            assert(items[k].logged_to(sender_id));
            assert(hs.has_item(item_ids[k]));
        }
    }
}

/// A throw from a user to the same user fails with [`Error::SelfGive`], and
/// changes nothing.
pub proof fn lemma_self_give_fails(
    tx_before: SessSendView,
    tx_after: SessSendView,
    rx_before: SessSendView,
    rx_after: SessSendView,
    user: SteaderId,
    item_ids: Seq<ItemId>,
    result: Result<Seq<ItemView>, Error>,
)
    requires
        throw_done(tx_before, tx_after, rx_before, rx_after, user, user, item_ids, result),
    ensures
        result == Err::<Seq<ItemView>, Error>(Error::SelfGive),
        tx_after == tx_before,
        rx_after == rx_before,
{
}

} // verus!
