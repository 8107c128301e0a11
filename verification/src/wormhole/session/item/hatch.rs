//! Opening an item for what is inside.
//!
//! A hatch table is a list of rows, each with a weight. A hatch draws one
//! number below the sum of the weights; the row in whose share the number
//! falls names the items that come out.
use crate::config::{Config, HatchEntry, ItemConf};
use crate::hackstead::item::{Acquisition, Item, ItemView};
use crate::hackstead::{
    item_ids, lemma_item_found, lemma_with_items_wf, lemma_without_item, lemma_without_item_wf,
};
use crate::lookup::distinct;
use crate::id::{ItemId, NoSuch, SteaderId};
use crate::text::{decimal, decimal_text, Complaint};
use crate::wormhole::session::{SessSend, SessSendView};
use vstd::prelude::*;
use vstd::string::*;

verus! {

/// Why an item could not be hatched.
#[derive(Clone, Copy, Debug, PartialEq, Eq, Structural)]
pub enum Error {
    /// The item is not there.
    NoSuch(NoSuch),
    /// Items of this archetype do not hatch.
    NotConfigured(ItemId, ItemConf),
}

impl Complaint for Error {
    open spec fn complaint(&self) -> Seq<char> {
        match *self {
            Error::NoSuch(e) => "couldn't hatch item: "@ + e.complaint(),
            Error::NotConfigured(item_id, conf) => "couldn't hatch item: provided item "@
                + crate::id::hyphenated(item_id.0) + ", which, as a ["@ + decimal_text(
                conf.0 as nat,
            ) + "], is not configured to be hatched"@,
        }
    }

    fn message(&self) -> (text: String) {
        match self {
            Error::NoSuch(e) => {
                let mut text = String::from_str("couldn't hatch item: ");
                text.append(e.message().as_str());
                text
            },
            Error::NotConfigured(item_id, conf) => {
                let mut text = String::from_str("couldn't hatch item: provided item ");
                text.append(item_id.text().as_str());
                text.append(", which, as a [");
                text.append(decimal(conf.0 as u64).as_str());
                text.append("], is not configured to be hatched");
                text
            },
        }
    }
}

/// `rand`'s generator of the current thread.
#[verifier::external_type_specification]
#[verifier::external_body]
pub struct ExThreadRng(rand::rngs::ThreadRng);

/// `rand::thread_rng` hands out the generator of the current thread; nothing is
/// claimed of it.
pub assume_specification[ rand::thread_rng ]() -> (rng: rand::rngs::ThreadRng);

/// Draws a number below `bound` with `rand::Rng::gen_range` on the range from 0
/// up to, and without, `bound`. An empty range is left out, on which `gen_range`
/// panics; of the number only the range is claimed.
#[verifier::external_body]
fn roll_below(rng: &mut rand::rngs::ThreadRng, bound: u128) -> (roll: u128)
    requires
        bound > 0,
    ensures
        roll < bound,
{
    rand::Rng::gen_range(rng, 0..bound)
}

/// The sum of the weights of the rows from `from` on.
pub open spec fn weight_from(table: Seq<HatchEntry>, from: int) -> nat
    decreases table.len() - from,
{
    if from < 0 || from >= table.len() {
        0
    } else {
        table[from].weight as nat + weight_from(table, from + 1)
    }
}

/// The sum of all weights of a table.
pub open spec fn total_weight(table: Seq<HatchEntry>) -> nat {
    weight_from(table, 0)
}

/// The row, from `from` on, in whose share `roll` falls, the shares being laid
/// out one after the other from zero; `None` where `roll` lies beyond them all.
pub open spec fn drawn_from(table: Seq<HatchEntry>, roll: int, from: int) -> Option<int>
    decreases table.len() - from,
{
    if from < 0 || from >= table.len() {
        None
    } else if roll < table[from].weight {
        Some(from)
    } else {
        drawn_from(table, roll - table[from].weight, from + 1)
    }
}

/// The row of a table in whose share `roll` falls.
pub open spec fn drawn(table: Seq<HatchEntry>, roll: u128) -> Option<int> {
    drawn_from(table, roll as int, 0)
}

/// The hatch table of an item archetype, where it has one.
pub open spec fn hatch_table(config: Config, conf: ItemConf) -> Option<Seq<HatchEntry>> {
    match config.item_spec(conf) {
        Some(a) => match a.hatch_table {
            Some(table) => Some(table@),
            None => None,
        },
        None => None,
    }
}

/// The archetypes of the items that come out of an item of the archetype `conf`
/// when `roll` is drawn.
pub open spec fn hatch_yield(config: Config, conf: ItemConf, roll: u128) -> Seq<ItemConf> {
    match hatch_table(config, conf) {
        Some(table) => match drawn(table, roll) {
            Some(i) => table[i].items@,
            None => Seq::empty(),
        },
        None => Seq::empty(),
    }
}

/// The archetypes of the items that come out of the item with the given id when
/// `roll` is drawn; none where the item is not there.
pub open spec fn hatch_confs(before: SessSendView, config: Config, item_id: ItemId, roll: u128) -> Seq<
    ItemConf,
> {
    if before.hackstead.has_item(item_id) {
        hatch_yield(config, before.hackstead.item(item_id).conf, roll)
    } else {
        Seq::empty()
    }
}

/// The items that come out: one of each archetype, in order, under the ids
/// given, each owned by `owner` and logged as hatched.
pub open spec fn hatched(config: Config, owner: SteaderId, confs: Seq<ItemConf>, ids: Seq<ItemId>) -> Seq<
    ItemView,
> {
    Seq::new(confs.len(), |k: int| config.made_item(ids[k], confs[k], owner, Acquisition::Hatched))
}

/// Whether `roll` can be the number that a hatch of the item draws: a number
/// below the sum of the weights where the item is there, hatches, and some row
/// has a weight; else zero, as nothing is drawn.
pub open spec fn can_roll(before: SessSendView, config: Config, item_id: ItemId, roll: u128) -> bool {
    let hs = before.hackstead;
    if hs.has_item(item_id) && hatch_table(config, hs.item(item_id).conf) is Some && total_weight(
        hatch_table(config, hs.item(item_id).conf)->0,
    ) > 0 {
        roll < total_weight(hatch_table(config, hs.item(item_id).conf)->0)
    } else {
        roll == 0
    }
}

/// What a result with items holds.
pub open spec fn seen(r: Result<Vec<Item>, Error>) -> Result<Seq<ItemView>, Error> {
    match r {
        Ok(items) => Ok(items.deep_view()),
        Err(e) => Err(e),
    }
}

/// What a hatch does when `roll` and the ids are drawn. Where the item is there
/// and hatches, it leaves the inventory, and what comes out is handed out and
/// stands at the end of the inventory; else nothing changes.
pub open spec fn hatch_done(
    before: SessSendView,
    after: SessSendView,
    config: Config,
    item_id: ItemId,
    roll: u128,
    ids: Seq<ItemId>,
    result: Result<Seq<ItemView>, Error>,
) -> bool {
    let hs = before.hackstead;
    if !hs.has_item(item_id) {
        result == Err::<Seq<ItemView>, Error>(Error::NoSuch(NoSuch::Item(item_id))) && after
            == before
    } else if hatch_table(config, hs.item(item_id).conf) is None {
        result == Err::<Seq<ItemView>, Error>(
            Error::NotConfigured(item_id, hs.item(item_id).conf),
        ) && after == before
    } else {
        let items = hatched(
            config,
            hs.item(item_id).owner_id,
            hatch_yield(config, hs.item(item_id).conf, roll),
            ids,
        );
        result == Ok::<Seq<ItemView>, Error>(items) && after == before.with_hackstead(
            hs.without_item(item_id).with_items(items),
        )
    }
}

/// An item hatches once. After a hatch that succeeded, a second hatch of the
/// same id fails with [`NoSuch::Item`] and changes nothing, so the inventory
/// is as large as the first hatch left it.
///
/// This holds where no id occurs twice in the inventory, and nothing that came
/// out has the id of the item that hatched.
pub proof fn lemma_hatch_once(
    start: SessSendView,
    first: SessSendView,
    second: SessSendView,
    config: Config,
    item_id: ItemId,
    first_roll: u128,
    first_ids: Seq<ItemId>,
    first_result: Result<Seq<ItemView>, Error>,
    second_roll: u128,
    second_ids: Seq<ItemId>,
    second_result: Result<Seq<ItemView>, Error>,
)
    requires
        distinct(item_ids(start.hackstead.inventory)),
        hatch_done(start, first, config, item_id, first_roll, first_ids, first_result),
        first_result is Ok,
        forall|k: int|
            0 <= k < first_result->Ok_0.len() ==> (#[trigger] first_result->Ok_0[k]).item_id
                != item_id,
        hatch_done(first, second, config, item_id, second_roll, second_ids, second_result),
    ensures
        second_result == Err::<Seq<ItemView>, Error>(Error::NoSuch(NoSuch::Item(item_id))),
        second == first,
        second.hackstead.inventory.len() == first.hackstead.inventory.len(),
{
    let hs = start.hackstead;
    lemma_without_item(hs, item_id);
    let rest = hs.without_item(item_id);
    let items = first_result->Ok_0;
    let ids = item_ids(first.hackstead.inventory);
    if first.hackstead.has_item(item_id) {
        let w = choose|w: int| 0 <= w < ids.len() && ids[w] == item_id;
        if w < rest.inventory.len() {
            assert(item_ids(rest.inventory)[w] == item_id);
        } else {
            let k = w - rest.inventory.len();
            assert(first.hackstead.inventory[w] == items[k]);
        }
    }
}

/// A hatch leaves a sound hackstead sound, where there is an id for each item
/// that comes out, and the ids differ from each other and from those in the
/// inventory.
pub proof fn lemma_hatch_keeps_wf(
    before: SessSendView,
    after: SessSendView,
    config: Config,
    item_id: ItemId,
    roll: u128,
    ids: Seq<ItemId>,
    result: Result<Seq<ItemView>, Error>,
)
    requires
        hatch_done(before, after, config, item_id, roll, ids, result),
        before.hackstead.wf(),
        ids.len() == hatch_confs(before, config, item_id, roll).len(),
        distinct(ids),
        forall|k: int| 0 <= k < ids.len() ==> !before.hackstead.has_item(#[trigger] ids[k]),
    ensures
        after.hackstead.wf(),
{
    let hs = before.hackstead;
    if result is Ok {
        lemma_item_found(hs, item_id);
        lemma_without_item(hs, item_id);
        lemma_without_item_wf(hs, item_id);
        let rest = hs.without_item(item_id);
        let items = result->Ok_0;
        assert(item_ids(items) =~= ids);
        assert forall|k: int| 0 <= k < items.len() implies {
            &&& (#[trigger] items[k]).wf()
            &&& items[k].owner_id == rest.profile.steader_id
            &&& !rest.has_item(items[k].item_id)
        } by {
            assert(items[k].item_id == ids[k]);
            assert(!hs.has_item(ids[k]));
            assert(ids[k] != item_id);
            assert(rest.has_item(ids[k]) == hs.has_item(ids[k]));
        }
        lemma_with_items_wf(rest, items);
    }
}

/// The sum of all weights of a table.
pub fn sum_weights(table: &Vec<HatchEntry>) -> (total: u128)
    ensures
        total == total_weight(table@),
{
    let mut total: u128 = 0;
    let mut i: usize = 0;
    while i < table.len()
        invariant
            i <= table.len(),
            total <= i * 0xffff_ffff,
            total + weight_from(table@, i as int) == weight_from(table@, 0),
        decreases table.len() - i,
    {
        total = total + table[i].weight as u128;
        i = i + 1;
    }
    total
}

/// Finds the row of a table in whose share `roll` falls.
pub fn draw(table: &Vec<HatchEntry>, roll: u128) -> (row: Option<usize>)
    ensures
        match row {
            Some(i) => drawn(table@, roll) == Some(i as int) && i < table@.len(),
            None => drawn(table@, roll) is None,
        },
{
    let mut left: u128 = roll;
    let mut i: usize = 0;
    while i < table.len()
        invariant
            i <= table.len(),
            drawn_from(table@, left as int, i as int) == drawn(table@, roll),
        decreases table.len() - i,
    {
        let weight = table[i].weight as u128;
        if left < weight {
            return Some(i);
        }
        left = left - weight;
        i = i + 1;
    }
    None
}

/// Hatches the item with the given id, with `roll` as the number drawn and
/// `ids` as the ids of what comes out.
///
/// Fails with [`NoSuch::Item`] where no item has that id, and with
/// [`Error::NotConfigured`] where items of its archetype do not hatch; nothing
/// changes then.
pub fn hatch_with(ss: &mut SessSend, config: &Config, item_id: ItemId, roll: u128, ids: &Vec<ItemId>) -> (r:
    Result<Vec<Item>, Error>)
    requires
        ids@.len() == hatch_confs(old(ss)@, *config, item_id, roll).len(),
    ensures
        hatch_done(old(ss)@, final(ss)@, *config, item_id, roll, ids@, seen(r)),
{
    let (conf, owner) = match ss.hackstead.item(item_id) {
        Ok(item) => (item.conf, item.owner_id),
        Err(e) => {
            return Err(Error::NoSuch(e));
        },
    };
    let table = match config.item(conf) {
        Some(a) => match &a.hatch_table {
            Some(table) => table,
            None => {
                return Err(Error::NotConfigured(item_id, conf));
            },
        },
        None => {
            return Err(Error::NotConfigured(item_id, conf));
        },
    };
    let _hatched = ss.hackstead.take_item(item_id);
    let ghost base = old(ss)@.hackstead.without_item(item_id);
    let ghost confs = hatch_yield(*config, conf, roll);
    let ghost all = hatched(*config, owner, confs, ids@);
    let mut items: Vec<Item> = Vec::new();
    proof {
        assert(base.inventory + all.take(0) =~= base.inventory);
    }
    match draw(table, roll) {
        Some(row) => {
            let entry = &table[row];
            let mut k: usize = 0;
            while k < entry.items.len()
                invariant
                    k <= entry.items.len(),
                    entry.items@ == confs,
                    ids@.len() == confs.len(),
                    all == hatched(*config, owner, confs, ids@),
                    items@.len() == k,
                    forall|j: int| 0 <= j < k ==> (#[trigger] items@[j])@ == all[j],
                    ss@ == old(ss)@.with_hackstead(base.with_items(all.take(k as int))),
                decreases entry.items.len() - k,
            {
                let item = config.make_item(ids[k], entry.items[k], owner, Acquisition::Hatched);
                ss.hackstead.give_item(item.clone());
                items.push(item);
                proof {
                    assert(base.inventory + all.take(k as int) + seq![all[k as int]]
                        =~= base.inventory + all.take(k + 1));
                }
                k = k + 1;
            }
            proof {
                assert(all.take(k as int) =~= all);
            }
        },
        None => {
            proof {
                assert(all =~= all.take(0));
            }
        },
    }
    proof {
        assert(items.deep_view() =~= all);
    }
    Ok(items)
}

/// Hatches the item with the given id: draws a number below the sum of the
/// weights of its hatch table, and an id for each item that comes out.
///
/// Fails with [`NoSuch::Item`] where no item has that id, and with
/// [`Error::NotConfigured`] where items of its archetype do not hatch; nothing
/// changes then.
pub fn hatch(ss: &mut SessSend, config: &Config, item_id: ItemId) -> (r: Result<Vec<Item>, Error>)
    ensures
        exists|roll: u128, ids: Seq<ItemId>|
            {
                &&& can_roll(old(ss)@, *config, item_id, roll)
                &&& ids.len() == hatch_confs(old(ss)@, *config, item_id, roll).len()
                &&& #[trigger] hatch_done(old(ss)@, final(ss)@, *config, item_id, roll, ids, seen(r))
            },
{
    let mut roll: u128 = 0;
    let mut amount: usize = 0;
    match ss.hackstead.item(item_id) {
        Ok(item) => match config.item(item.conf) {
            Some(a) => match &a.hatch_table {
                Some(table) => {
                    let total = sum_weights(table);
                    if total > 0 {
                        let mut rng = rand::thread_rng();
                        roll = roll_below(&mut rng, total);
                    }
                    match draw(table, roll) {
                        Some(row) => {
                            amount = table[row].items.len();
                        },
                        None => {},
                    }
                },
                None => {},
            },
            None => {},
        },
        Err(_) => {},
    }
    let ids = ItemId::fresh_many(amount);
    let r = hatch_with(ss, config, item_id, roll, &ids);
    proof {
        assert(hatch_done(old(ss)@, ss@, *config, item_id, roll, ids@, seen(r)));
    }
    r
}

} // verus!
