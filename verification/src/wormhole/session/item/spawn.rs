//! Making items out of nothing.
use crate::config::{Config, ItemConf};
use crate::hackstead::item::{Acquisition, Item, ItemView};
use crate::hackstead::{item_ids, lemma_with_items_wf};
use crate::id::{ItemId, SteaderId};
use crate::lookup::distinct;
use crate::text::{decimal, decimal_text, Complaint};
use crate::wormhole::session::{SessSend, SessSendView};
use vstd::prelude::*;
use vstd::string::*;

verus! {

/// Why items could not be spawned.
#[derive(Clone, Copy, Debug, PartialEq, Eq, Structural)]
pub enum Error {
    /// The handle resolves to no item archetype.
    NoSuchItemConf(ItemConf),
}

impl Complaint for Error {
    open spec fn complaint(&self) -> Seq<char> {
        match *self {
            Error::NoSuchItemConf(conf) => "couldn't spawn items: no such item conf: "@
                + decimal_text(conf.0 as nat),
        }
    }

    fn message(&self) -> (text: String) {
        match self {
            Error::NoSuchItemConf(conf) => {
                let mut text = String::from_str("couldn't spawn items: no such item conf: ");
                text.append(decimal(conf.0 as u64).as_str());
                text
            },
        }
    }
}

/// The items that a spawn makes: one for each id, in order, each owned by
/// `owner` and logged as spawned.
pub open spec fn spawned(config: Config, owner: SteaderId, conf: ItemConf, ids: Seq<ItemId>) -> Seq<
    ItemView,
> {
    Seq::new(ids.len(), |k: int| config.made_item(ids[k], conf, owner, Acquisition::Spawned))
}

/// What a result with items holds.
pub open spec fn seen(r: Result<Vec<Item>, Error>) -> Result<Seq<ItemView>, Error> {
    match r {
        Ok(items) => Ok(items.deep_view()),
        Err(e) => Err(e),
    }
}

/// What a spawn with the given ids does. Where the handle resolves, the items
/// are handed out and stand at the end of the inventory; where it does not,
/// nothing changes.
pub open spec fn spawn_done(
    before: SessSendView,
    after: SessSendView,
    config: Config,
    conf: ItemConf,
    ids: Seq<ItemId>,
    result: Result<Seq<ItemView>, Error>,
) -> bool {
    if config.item_spec(conf) is Some {
        let items = spawned(config, before.hackstead.profile.steader_id, conf, ids);
        result == Ok::<Seq<ItemView>, Error>(items) && after == before.with_hackstead(
            before.hackstead.with_items(items),
        )
    } else {
        result == Err::<Seq<ItemView>, Error>(Error::NoSuchItemConf(conf)) && after == before
    }
}

/// A spawn leaves a sound hackstead sound, where the ids differ from each other
/// and from those in the inventory.
pub proof fn lemma_spawn_keeps_wf(
    before: SessSendView,
    after: SessSendView,
    config: Config,
    conf: ItemConf,
    ids: Seq<ItemId>,
    result: Result<Seq<ItemView>, Error>,
)
    requires
        spawn_done(before, after, config, conf, ids, result),
        before.hackstead.wf(),
        distinct(ids),
        forall|k: int| 0 <= k < ids.len() ==> !before.hackstead.has_item(#[trigger] ids[k]),
    ensures
        after.hackstead.wf(),
{
    if config.item_spec(conf) is Some {
        let items = spawned(config, before.hackstead.profile.steader_id, conf, ids);
        assert(item_ids(items) =~= ids);
        assert forall|k: int| 0 <= k < items.len() implies {
            &&& (#[trigger] items[k]).wf()
            &&& items[k].owner_id == before.hackstead.profile.steader_id
            &&& !before.hackstead.has_item(items[k].item_id)
        } by {
            assert(items[k].item_id == ids[k]);
        }
        lemma_with_items_wf(before.hackstead, items);
    }
}

/// After a spawn that succeeded, the inventory holds as many more items of the
/// archetype as ids were given, and each item that was handed out is of the
/// archetype, belongs to the user, and has a log of the one entry that says it
/// was spawned for the user.
pub proof fn lemma_spawn_counts(
    before: SessSendView,
    after: SessSendView,
    config: Config,
    conf: ItemConf,
    ids: Seq<ItemId>,
    result: Result<Seq<ItemView>, Error>,
)
    requires
        spawn_done(before, after, config, conf, ids, result),
        result is Ok,
    ensures
        after.hackstead.count_of(conf) == before.hackstead.count_of(conf) + ids.len(),
        result->Ok_0.len() == ids.len(),
        forall|k: int|
            0 <= k < ids.len() ==> {
                &&& (#[trigger] result->Ok_0[k]).item_id == ids[k]
                &&& result->Ok_0[k].conf == conf
                &&& result->Ok_0[k].owner_id == before.hackstead.profile.steader_id
                &&& result->Ok_0[k].ownership_log == seq![
                    crate::hackstead::item::LoggedOwner {
                        logged_owner_id: before.hackstead.profile.steader_id,
                        acquisition: Acquisition::Spawned,
                        owner_index: 0,
                    },
                ]
            },
{
    let items = result->Ok_0;
    let of_conf = |i: ItemView| i.conf == conf;
    Seq::filter_distributes_over_add(before.hackstead.inventory, items, of_conf);
    assert(items.filter(of_conf) =~= items) by {
        lemma_all_kept(items, of_conf);
    }
}

/// A filter keeps a sequence whose every element passes.
proof fn lemma_all_kept<A>(s: Seq<A>, pred: spec_fn(A) -> bool)
    requires
        forall|i: int| 0 <= i < s.len() ==> pred(#[trigger] s[i]),
    ensures
        s.filter(pred) == s,
    decreases s.len(),
{
    reveal(Seq::filter);
    if s.len() > 0 {
        assert forall|i: int| 0 <= i < s.drop_last().len() implies pred(
            #[trigger] s.drop_last()[i],
        ) by {
            assert(s.drop_last()[i] == s[i]);
        }
        lemma_all_kept(s.drop_last(), pred);
        assert(s.drop_last().push(s.last()) =~= s);
    } else {
        assert(s.filter(pred) =~= s);
    }
}

/// Spawns one item of the archetype `item_conf` for each of the given ids.
pub fn spawn_with(ss: &mut SessSend, config: &Config, item_conf: ItemConf, ids: &Vec<ItemId>) -> (r:
    Result<Vec<Item>, Error>)
    ensures
        spawn_done(old(ss)@, final(ss)@, *config, item_conf, ids@, seen(r)),
{
    if config.item(item_conf).is_none() {
        return Err(Error::NoSuchItemConf(item_conf));
    }
    let owner = ss.hackstead.profile.steader_id;
    let ghost all = spawned(*config, owner, item_conf, ids@);
    let mut items: Vec<Item> = Vec::new();
    let mut k: usize = 0;
    proof {
        assert(old(ss)@.hackstead.with_items(all.take(0)) == old(ss)@.hackstead) by {
            assert(old(ss)@.hackstead.inventory + all.take(0) =~= old(ss)@.hackstead.inventory);
        }
    }
    while k < ids.len()
        invariant
            k <= ids.len(),
            all == spawned(*config, owner, item_conf, ids@),
            items@.len() == k,
            forall|j: int| 0 <= j < k ==> (#[trigger] items@[j])@ == all[j],
            ss@ == old(ss)@.with_hackstead(old(ss)@.hackstead.with_items(all.take(k as int))),
        decreases ids.len() - k,
    {
        let item = config.make_item(ids[k], item_conf, owner, Acquisition::spawned());
        ss.hackstead.give_item(item.clone());
        items.push(item);
        proof {
            assert(old(ss)@.hackstead.inventory + all.take(k as int) + seq![all[k as int]]
                =~= old(ss)@.hackstead.inventory + all.take(k + 1));
        }
        k = k + 1;
    }
    proof {
        assert(all.take(k as int) =~= all);
        assert(items.deep_view() =~= all);
    }
    Ok(items)
}

/// Spawns `amount` items of the archetype `item_conf`, each under an id drawn
/// at random.
///
/// Fails with [`Error::NoSuchItemConf`], and changes nothing, exactly where the
/// handle resolves to no archetype.
pub fn spawn(ss: &mut SessSend, config: &Config, item_conf: ItemConf, amount: usize) -> (r: Result<
    Vec<Item>,
    Error,
>)
    ensures
        exists|ids: Seq<ItemId>|
            ids.len() == amount && #[trigger] spawn_done(
                old(ss)@,
                final(ss)@,
                *config,
                item_conf,
                ids,
                seen(r),
            ),
{
    let ids = ItemId::fresh_many(amount);
    let r = spawn_with(ss, config, item_conf, &ids);
    proof {
        assert(spawn_done(old(ss)@, ss@, *config, item_conf, ids@, seen(r)));
    }
    r
}

} // verus!
