//! Rubbing an item onto a plant.
use crate::config::{Config, ItemConf, PlantConf, RubEffectConf};
use crate::hackstead::plant::{Effect, Lifecycle, Timer, TimerKind};
use crate::hackstead::{lemma_tile_found, lemma_with_plant_wf, lemma_without_item_wf};
use crate::id::{EffectId, ItemId, NoSuch, TileId};
use crate::text::{decimal, decimal_text, Complaint};
use crate::wormhole::session::{SessSend, SessSendView};
use vstd::prelude::*;
use vstd::string::*;

verus! {

/// Why an item could not be rubbed onto a plant.
#[derive(Clone, Copy, Debug, PartialEq, Eq, Structural)]
pub enum Error {
    /// The item, the tile or the plant is not there.
    NoSuch(NoSuch),
    /// The item imparts no effect: on no plant at all where no plant is named,
    /// else not on plants of the archetype named.
    NoEffect(Option<PlantConf>, ItemId, ItemConf),
}

impl Complaint for Error {
    open spec fn complaint(&self) -> Seq<char> {
        match *self {
            Error::NoSuch(e) => "couldn't rub item on plant: "@ + e.complaint(),
            Error::NoEffect(None, item_id, conf) => "couldn't rub item on plant: item "@
                + crate::id::hyphenated(item_id.0) + "["@ + decimal_text(conf.0 as nat)
                + "] isn't configured to impart any effects when rubbed on plants"@,
            Error::NoEffect(Some(plant), item_id, conf) =>
                "couldn't rub item on plant: rubbing item "@ + crate::id::hyphenated(item_id.0)
                    + "["@ + decimal_text(conf.0 as nat) + "] on plant ["@ + decimal_text(
                    plant.0 as nat,
                ) + "] would have no effects"@,
        }
    }

    fn message(&self) -> (text: String) {
        match self {
            Error::NoSuch(e) => {
                let mut text = String::from_str("couldn't rub item on plant: ");
                text.append(e.message().as_str());
                text
            },
            Error::NoEffect(None, item_id, conf) => {
                let mut text = String::from_str("couldn't rub item on plant: item ");
                text.append(item_id.text().as_str());
                text.append("[");
                text.append(decimal(conf.0 as u64).as_str());
                text.append("] isn't configured to impart any effects when rubbed on plants");
                text
            },
            Error::NoEffect(Some(plant), item_id, conf) => {
                let mut text = String::from_str("couldn't rub item on plant: rubbing item ");
                text.append(item_id.text().as_str());
                text.append("[");
                text.append(decimal(conf.0 as u64).as_str());
                text.append("] on plant [");
                text.append(decimal(plant.0 as u64).as_str());
                text.append("] would have no effects");
                text
            },
        }
    }
}

/// The effects that items of an archetype impart; none where the rules do not
/// know the archetype.
pub open spec fn rub_effects(config: Config, conf: ItemConf) -> Seq<RubEffectConf> {
    match config.item_spec(conf) {
        Some(a) => a.plant_rub_effects@,
        None => Seq::empty(),
    }
}

/// Whether an effect takes on plants of an archetype.
pub open spec fn takes_on(effect: RubEffectConf, plant: PlantConf) -> bool {
    exists|i: int| 0 <= i < effect.for_plants@.len() && effect.for_plants@[i] == plant
}

/// The places, in order, of the effects that take on plants of an archetype.
pub open spec fn applicable(effects: Seq<RubEffectConf>, plant: PlantConf) -> Seq<usize>
    decreases effects.len(),
{
    if effects.len() == 0 {
        Seq::empty()
    } else if takes_on(effects.last(), plant) {
        applicable(effects.drop_last(), plant).push((effects.len() - 1) as usize)
    } else {
        applicable(effects.drop_last(), plant)
    }
}

/// The effects that a rub leaves: one for each place, in order, under the ids
/// given.
pub open spec fn new_effects(
    effects: Seq<RubEffectConf>,
    item_conf: ItemConf,
    places: Seq<usize>,
    ids: Seq<EffectId>,
) -> Seq<Effect> {
    Seq::new(
        places.len(),
        |k: int|
            Effect {
                effect_id: ids[k],
                item_conf,
                effect_index: places[k],
                duration: effects[places[k] as int].duration,
            },
    )
}

/// The timer after which an effect wears off, where it does.
pub open spec fn wear_off(tile_id: TileId, effect: Effect) -> Option<Timer> {
    match effect.duration {
        Some(until_finish) => Some(
            Timer {
                until_finish,
                tile_id,
                lifecycle: Lifecycle::Annual,
                kind: TimerKind::Rub { effect_id: effect.effect_id },
            },
        ),
        None => None,
    }
}

/// The timers for the effects that wear off, in the order of the effects.
pub open spec fn rub_timers(tile_id: TileId, effects: Seq<Effect>) -> Seq<Timer>
    decreases effects.len(),
{
    if effects.len() == 0 {
        Seq::empty()
    } else {
        match wear_off(tile_id, effects.last()) {
            Some(timer) => rub_timers(tile_id, effects.drop_last()).push(timer),
            None => rub_timers(tile_id, effects.drop_last()),
        }
    }
}

/// How many effects a rub leaves; none where it fails.
pub open spec fn rub_count(before: SessSendView, config: Config, tile_id: TileId, item_id: ItemId) -> nat {
    let hs = before.hackstead;
    if hs.has_item(item_id) && hs.has_plant(tile_id) {
        applicable(rub_effects(config, hs.item(item_id).conf), hs.plant(tile_id).conf).len()
    } else {
        0
    }
}

/// What a result with effects holds.
pub open spec fn seen(r: Result<Vec<Effect>, Error>) -> Result<Seq<Effect>, Error> {
    match r {
        Ok(effects) => Ok(effects@),
        Err(e) => Err(e),
    }
}

/// What a rub does, the ids of the new effects being given. Where the item is
/// there and imparts effects, and the plant is there and takes some of them,
/// the item leaves the inventory, the effects that take are on the plant and
/// are handed out, and a timer is to be started for each that wears off; else
/// nothing changes.
pub open spec fn rub_done(
    before: SessSendView,
    after: SessSendView,
    config: Config,
    tile_id: TileId,
    item_id: ItemId,
    ids: Seq<EffectId>,
    result: Result<Seq<Effect>, Error>,
) -> bool {
    let hs = before.hackstead;
    if !hs.has_item(item_id) {
        result == Err::<Seq<Effect>, Error>(Error::NoSuch(NoSuch::Item(item_id))) && after
            == before
    } else {
        let conf = hs.item(item_id).conf;
        let imparted = rub_effects(config, conf);
        if imparted.len() == 0 {
            result == Err::<Seq<Effect>, Error>(Error::NoEffect(None, item_id, conf)) && after
                == before
        } else if !hs.has_plant(tile_id) {
            result == Err::<Seq<Effect>, Error>(Error::NoSuch(hs.no_plant(tile_id))) && after
                == before
        } else {
            let plant = hs.plant(tile_id);
            let places = applicable(imparted, plant.conf);
            if places.len() == 0 {
                result == Err::<Seq<Effect>, Error>(
                    Error::NoEffect(Some(plant.conf), item_id, conf),
                ) && after == before
            } else {
                let effects = new_effects(imparted, conf, places, ids);
                result == Ok::<Seq<Effect>, Error>(effects) && after == before.with_hackstead(
                    hs.without_item(item_id).with_plant(tile_id, Some(plant.rubbed(effects))),
                ).with_timers(rub_timers(tile_id, effects))
            }
        }
    }
}

/// A rub leaves a sound hackstead sound.
pub proof fn lemma_rub_keeps_wf(
    before: SessSendView,
    after: SessSendView,
    config: Config,
    tile_id: TileId,
    item_id: ItemId,
    ids: Seq<EffectId>,
    result: Result<Seq<Effect>, Error>,
)
    requires
        rub_done(before, after, config, tile_id, item_id, ids, result),
        before.hackstead.wf(),
    ensures
        after.hackstead.wf(),
{
    let hs = before.hackstead;
    if result is Ok {
        lemma_tile_found(hs, tile_id);
        lemma_without_item_wf(hs, item_id);
        assert(hs.tile(tile_id).wf());
        lemma_with_plant_wf(
            hs.without_item(item_id),
            tile_id,
            Some(hs.plant(tile_id).rubbed(result->Ok_0)),
        );
    }
}

fn takes(effect: &RubEffectConf, plant: PlantConf) -> (b: bool)
    ensures
        b == takes_on(*effect, plant),
{
    let mut i: usize = 0;
    while i < effect.for_plants.len()
        invariant
            i <= effect.for_plants.len(),
            forall|j: int| 0 <= j < i ==> effect.for_plants@[j] != plant,
        decreases effect.for_plants.len() - i,
    {
        if effect.for_plants[i] == plant {
            return true;
        }
        i = i + 1;
    }
    false
}

/// Finds the places of the effects that take on plants of an archetype.
pub fn applicable_to(effects: &Vec<RubEffectConf>, plant: PlantConf) -> (places: Vec<usize>)
    ensures
        places@ == applicable(effects@, plant),
        forall|k: int| 0 <= k < places@.len() ==> (#[trigger] places@[k]) < effects@.len(),
{
    let mut places: Vec<usize> = Vec::new();
    let mut i: usize = 0;
    while i < effects.len()
        invariant
            i <= effects.len(),
            places@ == applicable(effects@.take(i as int), plant),
            forall|k: int| 0 <= k < places@.len() ==> (#[trigger] places@[k]) < i,
        decreases effects.len() - i,
    {
        proof {
            assert(effects@.take(i + 1).drop_last() == effects@.take(i as int));
        }
        if takes(&effects[i], plant) {
            places.push(i);
        }
        i = i + 1;
    }
    proof {
        assert(effects@.take(i as int) == effects@);
    }
    places
}

/// Rubs the item with the id `item_id` onto the plant on the tile with the id
/// `tile_id`, with `ids` as the ids of the effects it leaves.
///
/// Fails with [`NoSuch::Item`] where no item has that id, with
/// [`Error::NoEffect`] without a plant where the item imparts no effects at all,
/// with [`NoSuch::Tile`] or [`NoSuch::Plant`] where no plant grows on the tile,
/// and with [`Error::NoEffect`] with the plant's archetype where none of the
/// effects takes on that plant; nothing changes then, and the item stays.
pub fn rub_with(ss: &mut SessSend, config: &Config, tile_id: TileId, item_id: ItemId, ids: &Vec<EffectId>) -> (r:
    Result<Vec<Effect>, Error>)
    requires
        ids@.len() == rub_count(old(ss)@, *config, tile_id, item_id),
    ensures
        rub_done(old(ss)@, final(ss)@, *config, tile_id, item_id, ids@, seen(r)),
{
    let conf = match ss.hackstead.item(item_id) {
        Ok(item) => item.conf,
        Err(e) => {
            return Err(Error::NoSuch(e));
        },
    };
    let imparted = match config.item(conf) {
        Some(a) => &a.plant_rub_effects,
        None => {
            return Err(Error::NoEffect(None, item_id, conf));
        },
    };
    if imparted.len() == 0 {
        return Err(Error::NoEffect(None, item_id, conf));
    }
    let plant_conf = match ss.hackstead.plant(tile_id) {
        Ok(plant) => plant.conf,
        Err(e) => {
            return Err(Error::NoSuch(e));
        },
    };
    let places = applicable_to(imparted, plant_conf);
    if places.len() == 0 {
        return Err(Error::NoEffect(Some(plant_conf), item_id, conf));
    }
    let ghost all = new_effects(imparted@, conf, places@, ids@);
    let mut effects: Vec<Effect> = Vec::new();
    let mut k: usize = 0;
    while k < places.len()
        invariant
            k <= places.len(),
            places@.len() == ids@.len(),
            forall|j: int| 0 <= j < places@.len() ==> (#[trigger] places@[j]) < imparted@.len(),
            all == new_effects(imparted@, conf, places@, ids@),
            effects@ == all.take(k as int),
            ss@ == old(ss)@.with_timers(rub_timers(tile_id, all.take(k as int))),
        decreases places.len() - k,
    {
        let effect = Effect {
            effect_id: ids[k],
            item_conf: conf,
            effect_index: places[k],
            duration: imparted[places[k]].duration,
        };
        proof {
            assert(all.take(k + 1).drop_last() == all.take(k as int));
            assert(all.take(k + 1).last() == effect);
            assert(effects@.push(effect) =~= all.take(k + 1));
        }
        match effect.duration {
            Some(until_finish) => {
                ss.set_timer(
                    Timer {
                        until_finish,
                        tile_id,
                        lifecycle: Lifecycle::Annual,
                        kind: TimerKind::Rub { effect_id: effect.effect_id },
                    },
                );
                proof {
                    assert(old(ss)@.pending_timers + rub_timers(tile_id, all.take(k as int))
                        + seq![wear_off(tile_id, effect)->0] =~= old(ss)@.pending_timers
                        + rub_timers(tile_id, all.take(k + 1)));
                }
            },
            None => {},
        }
        effects.push(effect);
        k = k + 1;
    }
    proof {
        assert(all.take(k as int) =~= all);
    }
    let _rubbed = ss.hackstead.take_item(item_id);
    match ss.hackstead.plant_mut(tile_id) {
        Ok(plant) => {
            plant.rub(&effects);
        },
        Err(_) => {},
    }
    Ok(effects)
}

/// Rubs the item with the id `item_id` onto the plant on the tile with the id
/// `tile_id`; each effect it leaves gets an id drawn at random.
///
/// Fails with [`NoSuch::Item`] where no item has that id, with
/// [`Error::NoEffect`] without a plant where the item imparts no effects at all,
/// with [`NoSuch::Tile`] or [`NoSuch::Plant`] where no plant grows on the tile,
/// and with [`Error::NoEffect`] with the plant's archetype where none of the
/// effects takes on that plant; nothing changes then, and the item stays.
pub fn rub(ss: &mut SessSend, config: &Config, tile_id: TileId, item_id: ItemId) -> (r: Result<
    Vec<Effect>,
    Error,
>)
    ensures
        exists|ids: Seq<EffectId>|
            {
                &&& ids.len() == rub_count(old(ss)@, *config, tile_id, item_id)
                &&& #[trigger] rub_done(old(ss)@, final(ss)@, *config, tile_id, item_id, ids, seen(r))
            },
{
    let mut amount: usize = 0;
    match ss.hackstead.item(item_id) {
        Ok(item) => match ss.hackstead.plant(tile_id) {
            Ok(plant) => match config.item(item.conf) {
                Some(a) => {
                    amount = applicable_to(&a.plant_rub_effects, plant.conf).len();
                },
                None => {},
            },
            Err(_) => {},
        },
        Err(_) => {},
    }
    let ids = EffectId::fresh_many(amount);
    let r = rub_with(ss, config, tile_id, item_id, &ids);
    proof {
        assert(rub_done(old(ss)@, ss@, *config, tile_id, item_id, ids@, seen(r)));
    }
    r
}

} // verus!
